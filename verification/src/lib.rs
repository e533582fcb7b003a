//! Spin-based synchronization primitives for a freestanding environment:
//! an upgradable reader-writer spin lock whose whole state lives in one
//! machine word, a lazy one-time-initialization cell, and a disarmable
//! scoped-cleanup guard, together with the boot-time memory-map types
//! their host kernel hands around.

use vstd::prelude::*;

pub mod sync;
pub mod utils;

pub use sync::RawSpinLock;
pub use sync::SpinOnceLock;
pub use utils::DeferGuard;

verus! {

/// Classification of a region in the boot-time memory map.
#[derive(Debug, Clone, Copy, PartialEq, Eq, Hash, Structural)]
pub enum MemoryType {
    Free,
    Claimed,
    Kernel,
}

/// A span of physical memory: start address and length in bytes.
#[derive(Debug, Clone, Copy, PartialEq, Eq, Hash, Structural)]
pub struct MemoryArea {
    pub start: usize,
    pub len: usize,
}

/// One entry of the boot-time memory map.
#[derive(Debug, Clone, Copy, PartialEq, Eq, Hash, Structural)]
pub struct MemoryEntry {
    pub area: MemoryArea,
    pub ty: MemoryType,
}

/// No entry strictly before position `i` describes free memory.
pub open spec fn no_free_before(s: Seq<MemoryEntry>, i: int) -> bool {
    forall|j: int| 0 <= j < i ==> s[j].ty != MemoryType::Free
}

/// Returns the first entry of the memory map that describes free memory,
/// or `None` when no entry does.
pub fn first_free(map: &Vec<MemoryEntry>) -> (r: Option<MemoryEntry>)
    ensures
        match r {
            Some(e) => exists|i: int|
                0 <= i < map@.len() && (#[trigger] map@[i]) == e && e.ty == MemoryType::Free
                    && no_free_before(map@, i),
            None => no_free_before(map@, map@.len() as int),
        },
{
    let mut i: usize = 0;
    while i < map.len()
        invariant
            i <= map.len(),
            no_free_before(map@, i as int),
        decreases map.len() - i,
    {
        if map[i].ty == MemoryType::Free {
            return Some(map[i]);
        }
        i = i + 1;
    }
    None
}

} // verus!
