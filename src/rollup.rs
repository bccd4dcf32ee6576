use vstd::prelude::*;

use crate::summary::Summary;

verus! {

#[verifier::external_type_specification]
#[verifier::external_body]
#[verifier::reject_recursive_types(T)]
#[verifier::reject_recursive_types(R)]
pub struct ExSpinMutex<T: ?Sized, R>(spin::mutex::Mutex<T, R>);

#[verifier::external_type_specification]
#[verifier::external_body]
pub struct ExSpin(spin::relax::Spin);

#[verifier::external_type_specification]
#[verifier::external_body]
#[verifier::reject_recursive_types(T)]
pub struct ExSpinMutexGuard<'a, T: 'a + ?Sized>(spin::mutex::MutexGuard<'a, T>);

/// The value behind a held spin lock, as its guard gives access to it.
pub uninterp spec fn locked_value(g: spin::mutex::MutexGuard<'_, Summary>) -> Summary;

/// Relies on `spin::Mutex::new`: a new, unlocked spin lock around the value.
#[verifier::external_body]
fn new_lock(value: Summary) -> spin::Mutex<Summary> {
    spin::Mutex::new(value)
}

/// Relies on `spin::Mutex::lock`: spins until the lock is held and hands out its
/// guard, which releases the lock when dropped. It takes no memory from the heap.
#[verifier::external_body]
fn lock(m: &spin::Mutex<Summary>) -> (r: spin::MutexGuard<'_, Summary>) {
    m.lock()
}

/// Relies on `Deref` for `spin::MutexGuard`: the value behind the held lock,
/// copied out.
#[verifier::external_body]
fn read_locked(g: &spin::MutexGuard<'_, Summary>) -> (r: Summary)
    ensures
        r == locked_value(*g),
{
    **g
}

/// Relies on `DerefMut` for `spin::MutexGuard`: replaces the value behind the
/// held lock.
#[verifier::external_body]
fn write_locked(g: &mut spin::MutexGuard<'_, Summary>, value: Summary)
    ensures
        locked_value(*final(g)) == value,
{
    **g = value;
}

/// A shared aggregation point: one `Summary` behind a spin lock.
///
/// The lock neither allocates nor blocks on anything that could allocate, so a
/// `Rollup` can be merged into from inside an allocator. Several `Rollup`s may
/// exist; two of them are never related.
///
/// The held value is shared between threads, and any of them may merge into it
/// at any moment: what `summary` returns is whatever the merges completed so far
/// add up to, and nothing here states more of it.
pub struct Rollup {
    data: spin::Mutex<Summary>,
}

impl Rollup {
    /// A new aggregation point holding the zero summary.
    pub fn new() -> Rollup {
        Rollup { data: new_lock(Summary::new()) }
    }

    /// Adds `stats` into the held summary, under the lock, so that no reader sees
    /// the merge half done.
    pub fn merge(&self, stats: &Summary) {
        let mut guard = lock(&self.data);
        let current = read_locked(&guard);
        write_locked(&mut guard, current.plus(*stats));
        // The lock now holds what it held plus `stats`; dropping the guard releases it.
        assert(locked_value(guard) == current.spec_plus(*stats));
    }

    /// A copy of the held summary, taken under the lock.
    pub fn summary(&self) -> Summary {
        let guard = lock(&self.data);
        read_locked(&guard)
    }
}

} // verus!
