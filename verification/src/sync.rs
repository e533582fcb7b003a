//! An upgradable reader-writer spin lock whose whole state is one signed
//! machine word, and a lazy one-time-initialization cell over one byte of
//! state.
//!
//! Lock word encoding: `0` means unlocked; `i32::MIN` means exclusively
//! locked; a positive `n` means `n` plain shared holders; a negative `n`
//! other than `i32::MIN` means one upgradable holder plus `|n| - 1` plain
//! shared holders.  Every operation is a single step on the word; a host
//! that runs several threads performs the same steps through an atomic
//! fetch-update loop built from the `*_step` functions below.

use vstd::prelude::*;

verus! {

/// The word is one a machine word can hold.
pub open spec fn valid_word(s: int) -> bool {
    i32::MIN <= s <= i32::MAX
}

/// The word records no holder at all.
pub open spec fn unlocked(s: int) -> bool {
    s == 0
}

/// The word records the one exclusive holder.
pub open spec fn exclusive(s: int) -> bool {
    s == i32::MIN
}

/// The word records an upgradable holder (with any number of plain shared
/// holders beside it).
pub open spec fn upgradable_held(s: int) -> bool {
    s < 0 && s != i32::MIN
}

/// How many plain shared holders the word records.
pub open spec fn shared_count(s: int) -> nat {
    if s > 0 {
        s as nat
    } else if upgradable_held(s) {
        (-s - 1) as nat
    } else {
        0
    }
}

/// A new plain shared acquisition may succeed: no upgradable or exclusive
/// holder is present and the holder count would not overflow.
pub open spec fn shared_acq_ok(s: int) -> bool {
    0 <= s < i32::MAX
}

/// A new upgradable acquisition may succeed: same condition as for a plain
/// shared one.
pub open spec fn upgradable_acq_ok(s: int) -> bool {
    0 <= s < i32::MAX
}

/// A plain shared holder exists to release: the word is not unlocked, not
/// exclusive, and not the sole upgradable holder.
pub open spec fn shared_rel_ok(s: int) -> bool {
    s != 0 && s != -1 && s != i32::MIN
}

/// The word after one plain shared release: the magnitude moves one step
/// toward zero in either regime.
pub open spec fn shared_released(s: int) -> int {
    if s > 0 {
        s - 1
    } else {
        s + 1
    }
}

/// The word after the upgradable holder releases: the plain shared holders
/// that remain are converted back to the positive-count representation.
pub open spec fn upgradable_released(s: int) -> int {
    -s - 1
}

/// The word after the upgradable holder downgrades to a plain shared one:
/// the sign flips and every holder counts as plain shared.
pub open spec fn upgradable_downgraded(s: int) -> int {
    -s
}

/// Decides one plain shared acquisition attempt on word `s`: the next word,
/// or `None` when an upgradable or exclusive holder is present or the count
/// would overflow.
pub fn shared_acquire_step(s: i32) -> (r: Option<i32>)
    ensures
        r is Some <==> shared_acq_ok(s as int),
        r matches Some(n) ==> n as int == s as int + 1,
{
    if s >= 0 && s < i32::MAX {
        Some(s + 1)
    } else {
        None
    }
}

/// Decides one exclusive acquisition attempt on word `s`: the exclusive
/// sentinel, or `None` unless the word is unlocked.
pub fn exclusive_acquire_step(s: i32) -> (r: Option<i32>)
    ensures
        r is Some <==> unlocked(s as int),
        r matches Some(n) ==> exclusive(n as int),
{
    if s == 0 {
        Some(i32::MIN)
    } else {
        None
    }
}

/// Decides one upgrade attempt on word `s`: the exclusive sentinel, or
/// `None` while any plain shared holder beside the upgradable one remains.
pub fn upgrade_step(s: i32) -> (r: Option<i32>)
    ensures
        r is Some <==> s == -1,
        r matches Some(n) ==> exclusive(n as int),
{
    if s == -1 {
        Some(i32::MIN)
    } else {
        None
    }
}

/// Decides one upgradable acquisition attempt on word `s`: the next word
/// `-(s + 1)`, or `None` when the attempt must wait.
pub fn upgradable_acquire_step(s: i32) -> (r: Option<i32>)
    ensures
        r is Some <==> upgradable_acq_ok(s as int),
        r matches Some(n) ==> n as int == -(s as int) - 1,
{
    if s >= 0 && s < i32::MAX {
        Some(-(s + 1))
    } else {
        None
    }
}

/// Decides one plain shared release on word `s`: the next word, or `None`
/// when no plain shared holder exists to release.
pub fn shared_release_step(s: i32) -> (r: Option<i32>)
    ensures
        r is Some <==> shared_rel_ok(s as int),
        r matches Some(n) ==> n as int == shared_released(s as int),
{
    if s == 0 || s == -1 || s == i32::MIN {
        None
    } else if s > 0 {
        Some(s - 1)
    } else {
        Some(s + 1)
    }
}

/// Decides the upgradable holder's release on word `s`: the next word, or
/// `None` when no upgradable holder is present.
pub fn upgradable_release_step(s: i32) -> (r: Option<i32>)
    ensures
        r is Some <==> upgradable_held(s as int),
        r matches Some(n) ==> n as int == upgradable_released(s as int),
{
    if s < 0 && s != i32::MIN {
        Some(-s - 1)
    } else {
        None
    }
}

/// Decides the upgradable holder's downgrade on word `s`: the next word, or
/// `None` when no upgradable holder is present.
pub fn upgradable_downgrade_step(s: i32) -> (r: Option<i32>)
    ensures
        r is Some <==> upgradable_held(s as int),
        r matches Some(n) ==> n as int == upgradable_downgraded(s as int),
{
    if s < 0 && s != i32::MIN {
        Some(-s)
    } else {
        None
    }
}

/// An upgradable reader-writer spin lock over one signed machine word.
///
/// Each operation is one step of the transition table; the view of the lock
/// is the current word.  The blocking variants demand, as their
/// precondition, a word from which they complete without help from another
/// holder: with no other thread releasing, that is the only word on which
/// their spin would ever end.
#[derive(Debug)]
pub struct RawSpinLock {
    state: i32,
}

impl View for RawSpinLock {
    type V = int;

    closed spec fn view(&self) -> int {
        self.state as int
    }
}

impl RawSpinLock {
    /// Creates an unlocked lock.
    pub fn new() -> (r: Self)
        ensures
            r@ == 0,
    {
        RawSpinLock { state: 0 }
    }

    /// The current value of the lock word.
    pub fn load(&self) -> (r: i32)
        ensures
            r as int == self@,
    {
        self.state
    }

    /// Whether any holder at all is recorded.
    pub fn is_locked(&self) -> (r: bool)
        ensures
            r <==> self@ != 0,
    {
        self.state != 0
    }

    /// Whether the exclusive holder is recorded.
    pub fn is_locked_exclusive(&self) -> (r: bool)
        ensures
            r <==> exclusive(self@),
    {
        self.state == i32::MIN
    }

    /// Tries to take the exclusive lock: succeeds exactly from the unlocked
    /// word, which becomes the exclusive sentinel.
    pub fn try_lock_exclusive(&mut self) -> (r: bool)
        ensures
            old(self)@ == 0 ==> r && final(self)@ == i32::MIN,
            old(self)@ != 0 ==> !r && final(self)@ == old(self)@,
    {
        match exclusive_acquire_step(self.state) {
            Some(n) => {
                self.state = n;
                true
            },
            None => false,
        }
    }

    /// Takes the exclusive lock.  On a miss it would announce intent through
    /// the upgradable slot and then force the upgrade, so that a stream of
    /// new readers cannot starve it; here the lock must already be free for
    /// the acquisition to complete.
    pub fn lock_exclusive(&mut self)
        requires
            old(self)@ == 0,
        ensures
            final(self)@ == i32::MIN,
    {
        if self.try_lock_exclusive() {
            return;
        }
        self.lock_upgradable();
        self.upgrade();
    }

    /// Releases the exclusive lock: the word returns to unlocked.
    pub fn unlock_exclusive(&mut self)
        requires
            exclusive(old(self)@),
        ensures
            final(self)@ == 0,
    {
        self.state = 0;
    }

    /// Tries to take a plain shared lock: succeeds exactly when no
    /// upgradable or exclusive holder is present and the count does not
    /// overflow, incrementing the word.
    pub fn try_lock_shared(&mut self) -> (r: bool)
        ensures
            shared_acq_ok(old(self)@) ==> r && final(self)@ == old(self)@ + 1,
            !shared_acq_ok(old(self)@) ==> !r && final(self)@ == old(self)@,
    {
        match shared_acquire_step(self.state) {
            Some(n) => {
                self.state = n;
                true
            },
            None => false,
        }
    }

    /// Takes a plain shared lock, spinning while an upgradable or exclusive
    /// holder is present; the word is incremented by one.
    pub fn lock_shared(&mut self)
        requires
            shared_acq_ok(old(self)@),
        ensures
            final(self)@ == old(self)@ + 1,
    {
        self.try_lock_shared();
    }

    /// Releases one plain shared holder: the magnitude of the word moves one
    /// step toward zero, in whichever regime it stands.
    pub fn unlock_shared(&mut self)
        requires
            shared_rel_ok(old(self)@),
        ensures
            final(self)@ == shared_released(old(self)@),
    {
        match shared_release_step(self.state) {
            Some(n) => {
                self.state = n;
            },
            None => {},
        }
    }

    /// Tries to take the upgradable lock: succeeds exactly from a
    /// non-negative word `n`, which becomes `-(n + 1)`; from that moment no
    /// new plain shared acquisition succeeds.
    pub fn try_lock_upgradable(&mut self) -> (r: bool)
        requires
            old(self)@ != i32::MAX,
        ensures
            0 <= old(self)@ ==> r && final(self)@ == -old(self)@ - 1,
            old(self)@ < 0 ==> !r && final(self)@ == old(self)@,
    {
        match upgradable_acquire_step(self.state) {
            Some(n) => {
                self.state = n;
                true
            },
            None => false,
        }
    }

    /// Takes the upgradable lock, spinning while another upgradable or the
    /// exclusive holder is present.
    pub fn lock_upgradable(&mut self)
        requires
            upgradable_acq_ok(old(self)@),
        ensures
            final(self)@ == -old(self)@ - 1,
    {
        self.try_lock_upgradable();
    }

    /// Tries to upgrade the held upgradable lock to exclusive: succeeds
    /// exactly when the upgradable holder is the sole remaining holder.
    pub fn try_upgrade(&mut self) -> (r: bool)
        requires
            upgradable_held(old(self)@),
        ensures
            old(self)@ == -1 ==> r && final(self)@ == i32::MIN,
            old(self)@ != -1 ==> !r && final(self)@ == old(self)@,
    {
        match upgrade_step(self.state) {
            Some(n) => {
                self.state = n;
                true
            },
            None => false,
        }
    }

    /// Upgrades the held upgradable lock to exclusive, spinning until every
    /// plain shared holder concurrent with it has released.
    pub fn upgrade(&mut self)
        requires
            old(self)@ == -1,
        ensures
            final(self)@ == i32::MIN,
    {
        self.try_upgrade();
    }

    /// Releases the held upgradable lock: the plain shared holders that
    /// remain are converted back to the positive-count representation.
    pub fn unlock_upgradable(&mut self)
        requires
            upgradable_held(old(self)@),
        ensures
            final(self)@ == upgradable_released(old(self)@),
    {
        match upgradable_release_step(self.state) {
            Some(n) => {
                self.state = n;
            },
            None => {},
        }
    }

    /// Downgrades the held exclusive lock to a single plain shared holder.
    pub fn downgrade(&mut self)
        requires
            exclusive(old(self)@),
        ensures
            final(self)@ == 1,
    {
        self.state = 1;
    }

    /// Downgrades the held exclusive lock to the sole upgradable holder.
    pub fn downgrade_to_upgradable(&mut self)
        requires
            exclusive(old(self)@),
        ensures
            final(self)@ == -1,
    {
        self.state = -1;
    }

    /// Downgrades the held upgradable lock to a plain shared one: the sign
    /// flips, so the upgradable holder and its co-resident readers all count
    /// as plain shared holders.
    pub fn downgrade_upgradable(&mut self)
        requires
            upgradable_held(old(self)@),
        ensures
            final(self)@ == upgradable_downgraded(old(self)@),
    {
        match upgradable_downgrade_step(self.state) {
            Some(n) => {
                self.state = n;
            },
            None => {},
        }
    }
}

impl Default for RawSpinLock {
    /// An unlocked lock.
    fn default() -> (r: Self)
        ensures
            r@ == 0,
    {
        RawSpinLock::new()
    }
}

/// Mutual exclusion: while the word records the exclusive holder, no shared
/// and no upgradable holder is recorded, and no acquisition of any kind can
/// succeed — the word is not unlocked, so a second exclusive attempt fails,
/// and both shared and upgradable attempts are blocked.
pub proof fn lemma_mutual_exclusion(s: int)
    requires
        exclusive(s),
    ensures
        shared_count(s) == 0,
        !upgradable_held(s),
        !unlocked(s),
        !shared_acq_ok(s),
        !upgradable_acq_ok(s),
{
}

/// Reader concurrency: while no upgradable and no exclusive holder is
/// present, `n` successive plain shared acquisitions all succeed (each step
/// adds one to the word), and the live count afterward exceeds the starting
/// count by exactly `n`, still with no upgradable or exclusive holder.
pub proof fn lemma_reader_concurrency(s: int, n: nat)
    requires
        0 <= s,
        s + n <= i32::MAX,
    ensures
        forall|k: nat| k < n ==> #[trigger] shared_acq_ok(s + k),
        shared_count(s + n) == shared_count(s) + n,
        !upgradable_held(s + n),
        !exclusive(s + n),
{
}

/// Releasing a plain shared holder lowers the live count by exactly one,
/// never produces the exclusive word, and keeps the regime — so the count
/// always equals the number of acquisitions not yet released.
pub proof fn lemma_shared_release_decrements(s: int)
    requires
        valid_word(s),
        shared_rel_ok(s),
    ensures
        shared_count(s) > 0,
        shared_count(shared_released(s)) == shared_count(s) - 1,
        !exclusive(shared_released(s)),
        upgradable_held(shared_released(s)) == upgradable_held(s),
{
}

/// An upgradable holder blocks new readers: once the word records an
/// upgradable holder, no new plain shared (and no second upgradable)
/// acquisition can succeed, while the plain shared holders from before can
/// still release one by one, staying in the upgradable regime.
pub proof fn lemma_upgradable_blocks_new_readers(s: int)
    requires
        valid_word(s),
        upgradable_held(s),
    ensures
        !shared_acq_ok(s),
        !upgradable_acq_ok(s),
        shared_count(s) > 0 ==> shared_rel_ok(s) && upgradable_held(shared_released(s))
            && shared_count(shared_released(s)) == shared_count(s) - 1,
{
}

/// An upgrade waits for the readers to drain: while the upgradable holder
/// is present, the upgrade step can succeed exactly when every plain shared
/// holder concurrent with it has released, that is on the word `-1`.
pub proof fn lemma_upgrade_waits_for_drain(s: int)
    requires
        upgradable_held(s),
    ensures
        (s == -1) <==> shared_count(s) == 0,
{
}

/// Downgrade round trips: from the exclusive word, `downgrade` leaves
/// exactly one plain shared holder whose release unlocks the word; and
/// `downgrade_to_upgradable` leaves the sole upgradable holder, whose
/// `downgrade_upgradable` leaves one plain shared holder whose release
/// unlocks the word as well.
pub proof fn lemma_downgrade_round_trip()
    ensures
        shared_count(1) == 1 && !upgradable_held(1) && shared_rel_ok(1) && shared_released(1)
            == 0,
        upgradable_held(-1) && shared_count(-1) == 0,
        upgradable_downgraded(-1) == 1,
        shared_rel_ok(upgradable_downgraded(-1)) && shared_released(upgradable_downgraded(-1))
            == 0,
{
}

/// The once-cell's byte records that no initialization has happened yet.
pub open spec fn cell_uninit(b: u8) -> bool {
    b == 0
}

/// The once-cell's byte records that exactly one winner is initializing.
pub open spec fn cell_initializing(b: u8) -> bool {
    b != 0 && b != u8::MAX
}

/// The once-cell's byte records that initialization has completed.
pub open spec fn cell_initialized(b: u8) -> bool {
    b == u8::MAX
}

/// Beginning initialization can succeed exactly on the uninitialized byte.
pub open spec fn cell_begin_ok(b: u8) -> bool {
    cell_uninit(b)
}

/// The byte a winner installs when it begins initializing.
pub open spec fn cell_begun(b: u8) -> u8 {
    1
}

/// The byte restored when a winner's initialization fails before
/// completing.
pub open spec fn cell_aborted(b: u8) -> u8 {
    0
}

/// A lazy one-time-initialization cell: one byte of state over storage for
/// one value, constructed at most once by whichever caller wins the
/// initialization race, and readable any number of times afterward.
///
/// The storage holds a value exactly when the byte records initialized, so
/// the value is dropped exactly once, with the cell, and only if it was
/// ever constructed.
pub struct SpinOnceLock<T> {
    state: u8,
    value: Option<T>,
}

impl<T> SpinOnceLock<T> {
    /// The state byte: `0` uninitialized, `u8::MAX` initialized, any other
    /// value initialization-in-progress.
    pub closed spec fn state_byte(&self) -> u8 {
        self.state
    }

    /// The storage holds a value exactly when the byte records initialized,
    /// and the byte is one the cell's steps produce.
    pub closed spec fn wf(&self) -> bool {
        (self.state == 0 || self.state == 1 || self.state == u8::MAX) && (self.value is Some
            <==> self.state == u8::MAX)
    }

    /// The value the winner stored.
    pub closed spec fn stored(&self) -> T {
        self.value->Some_0
    }

    /// No initialization has happened yet.
    pub open spec fn uninit(&self) -> bool {
        cell_uninit(self.state_byte())
    }

    /// Exactly one winner is initializing.
    pub open spec fn initializing(&self) -> bool {
        cell_initializing(self.state_byte())
    }

    /// Initialization has completed.
    pub open spec fn initialized(&self) -> bool {
        cell_initialized(self.state_byte())
    }

    /// Creates a new uninitialized cell.
    pub fn new() -> (r: Self)
        ensures
            r.wf(),
            r.uninit(),
    {
        SpinOnceLock { state: 0, value: None }
    }

    /// Whether initialization has completed.
    pub fn is_initialized(&self) -> (r: bool)
        ensures
            r <==> self.initialized(),
    {
        self.state == u8::MAX
    }

    /// The stored value, if initialization has completed; never blocks.
    pub fn get(&self) -> (r: Option<&T>)
        requires
            self.wf(),
        ensures
            self.initialized() ==> (r matches Some(v) && *v == self.stored()),
            !self.initialized() ==> r is None,
    {
        if self.state == u8::MAX {
            self.value.as_ref()
        } else {
            None
        }
    }

    /// Tries to become the initialization winner: succeeds exactly from the
    /// uninitialized state, which becomes initialization-in-progress; any
    /// other state is left as it is.
    pub fn try_begin_init(&mut self) -> (r: bool)
        requires
            old(self).wf(),
        ensures
            final(self).wf(),
            r <==> cell_begin_ok(old(self).state_byte()),
            r ==> final(self).state_byte() == cell_begun(old(self).state_byte())
                && final(self).initializing(),
            !r ==> *final(self) == *old(self),
    {
        if self.state == 0 {
            self.state = 1;
            true
        } else {
            false
        }
    }

    /// Records the winner's value: the storage is filled and the byte
    /// records initialized, which every waiting caller then observes.
    pub fn complete_init(&mut self, value: T)
        requires
            old(self).wf(),
            old(self).initializing(),
        ensures
            final(self).wf(),
            final(self).initialized(),
            final(self).stored() == value,
    {
        self.value = Some(value);
        self.state = u8::MAX;
    }

    /// The recovery edge: a winner whose initializer failed before
    /// completing restores the uninitialized state, so that a later caller
    /// can retry initialization from scratch.
    pub fn abort_init(&mut self)
        requires
            old(self).wf(),
            old(self).initializing(),
        ensures
            final(self).wf(),
            final(self).uninit(),
            final(self).state_byte() == cell_aborted(old(self).state_byte()),
    {
        self.state = 0;
    }

    /// Returns the stored value, first running `init` and storing its
    /// result if no caller has initialized the cell yet; the initializer
    /// runs at most once, and an already initialized cell is untouched.
    pub fn get_or_init<F: FnOnce() -> T>(&mut self, init: F) -> (r: &T)
        requires
            old(self).wf(),
            !old(self).initializing(),
            !old(self).initialized() ==> call_requires(init, ()),
        ensures
            final(self).wf(),
            final(self).initialized(),
            *r == final(self).stored(),
            old(self).initialized() ==> *final(self) == *old(self),
            !old(self).initialized() ==> call_ensures(init, (), final(self).stored()),
    {
        if !self.is_initialized() {
            self.try_begin_init();
            let val = init();
            self.complete_init(val);
        }
        self.value.as_ref().unwrap()
    }
}

impl<T: Clone> Clone for SpinOnceLock<T> {
    /// An initialized cell clones to an initialized cell holding a clone of
    /// the stored value; any other cell clones to a fresh uninitialized
    /// one.
    fn clone(&self) -> (r: Self)
        ensures
            r.wf(),
            self.wf() && self.initialized() ==> r.initialized() && vstd::pervasive::cloned::<
                T,
            >(self.stored(), r.stored()),
            self.wf() && !self.initialized() ==> r.uninit(),
    {
        if self.state == u8::MAX {
            match self.value.as_ref() {
                Some(v) => SpinOnceLock { state: u8::MAX, value: Some(v.clone()) },
                None => SpinOnceLock::new(),
            }
        } else {
            SpinOnceLock::new()
        }
    }
}

impl<T> Default for SpinOnceLock<T> {
    /// A fresh uninitialized cell.
    fn default() -> (r: Self)
        ensures
            r.wf(),
            r.uninit(),
    {
        SpinOnceLock::new()
    }
}

/// Single initialization: beginning initialization succeeds exactly on the
/// uninitialized byte, and the byte a winner installs is no longer the
/// uninitialized one — so of any number of racing callers exactly one wins,
/// and every later attempt to begin fails until that winner's outcome is
/// recorded or rolled back.
pub proof fn lemma_once_cell_single_winner(b: u8)
    ensures
        cell_begin_ok(b) <==> cell_uninit(b),
        cell_begin_ok(b) ==> cell_initializing(cell_begun(b)) && !cell_begin_ok(cell_begun(b)),
        cell_initializing(b) || cell_initialized(b) ==> !cell_begin_ok(b),
{
}

/// Retry after failure: rolling back from the winner's
/// initialization-in-progress byte restores the uninitialized byte, from
/// which a later begin attempt succeeds again.
pub proof fn lemma_once_cell_retry_after_failure(b: u8)
    requires
        cell_initializing(b),
    ensures
        cell_uninit(cell_aborted(b)),
        cell_begin_ok(cell_aborted(b)),
{
}

} // verus!
