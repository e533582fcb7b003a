use spinsync::{first_free, MemoryArea, MemoryEntry, MemoryType};

fn entry(start: usize, len: usize, ty: MemoryType) -> MemoryEntry {
    MemoryEntry { area: MemoryArea { start, len }, ty }
}

#[test]
fn first_free_finds_the_first_free_entry() {
    let map = vec![
        entry(0, 4096, MemoryType::Kernel),
        entry(4096, 8192, MemoryType::Claimed),
        entry(12288, 4096, MemoryType::Free),
        entry(16384, 4096, MemoryType::Free),
    ];
    let r = first_free(&map);
    assert_eq!(r, Some(entry(12288, 4096, MemoryType::Free)));
}

#[test]
fn first_free_of_map_without_free_memory_is_none() {
    let map = vec![
        entry(0, 4096, MemoryType::Kernel),
        entry(4096, 8192, MemoryType::Claimed),
    ];
    assert_eq!(first_free(&map), None);
}

#[test]
fn first_free_of_empty_map_is_none() {
    let map = Vec::new();
    assert_eq!(first_free(&map), None);
}
