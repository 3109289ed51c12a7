use vstd::prelude::*;

use std::sync::{Arc, Condvar, Mutex, MutexGuard};

verus! {

#[verifier::external_type_specification]
#[verifier::external_body]
#[verifier::reject_recursive_types(T)]
pub struct ExMutex<T: ?Sized>(Mutex<T>);

#[verifier::external_type_specification]
#[verifier::external_body]
pub struct ExCondvar(Condvar);

#[verifier::external_type_specification]
#[verifier::external_body]
#[verifier::reject_recursive_types(T)]
pub struct ExMutexGuard<'a, T: ?Sized + 'a>(MutexGuard<'a, T>);

/// `Mutex::new`: a lock around `v`. Other threads share the lock, so
/// nothing is stated of what it holds later.
#[verifier::external_body]
fn mutex_new<T>(v: T) -> Mutex<T> {
    Mutex::new(v)
}

/// `Condvar::new`.
#[verifier::external_body]
fn condvar_new() -> Condvar {
    Condvar::new()
}

/// `Mutex::lock`: blocks until the lock is held; `Err` when another thread
/// panicked while holding it.
#[verifier::external_body]
fn lock<'a, T>(mutex: &'a Mutex<T>) -> Result<MutexGuard<'a, T>, ()> {
    mutex.lock().map_err(|_| ())
}

/// Writes through the guard (`DerefMut`): the slot holds `Some(t)`.
#[verifier::external_body]
fn guard_fill<'a, T>(guard: &mut MutexGuard<'a, Option<T>>, t: T) {
    **guard = Some(t);
}

/// `Option::take` through the guard: the slot's value, leaving it empty.
#[verifier::external_body]
fn guard_take<'a, T>(guard: &mut MutexGuard<'a, Option<T>>) -> Option<T> {
    guard.take()
}

/// `Arc::clone`: another pointer to the same allocation, so it points to
/// the same value.
#[verifier::external_body]
fn share<T>(arc: &Arc<T>) -> (r: Arc<T>)
    ensures
        r == *arc,
{
    arc.clone()
}

/// `Condvar::notify_one`.
#[verifier::external_body]
fn notify_one(condvar: &Condvar) {
    condvar.notify_one()
}

/// Whether the slot is still empty.
fn slot_empty<T>(slot: &mut Option<T>) -> (b: bool)
    ensures
        b == (*old(slot) is None),
        *final(slot) == *old(slot),
{
    slot.is_none()
}

/// `Condvar::wait_while`: releases the lock until the slot holds a value,
/// then holds it again; `Err` when the lock is poisoned.
#[verifier::external_body]
fn wait_until_filled<'a, T>(condvar: &Condvar, guard: MutexGuard<'a, Option<T>>) -> Result<
    MutexGuard<'a, Option<T>>,
    (),
> {
    condvar.wait_while(guard, |slot| slot_empty(slot)).map_err(|_| ())
}

/// The sending half: stores one value for the receiver.
#[verifier::reject_recursive_types(T)]
pub struct Sender<T> {
    pair: Arc<(Mutex<Option<T>>, Condvar)>,
}

/// The receiving half: waits for the value.
#[verifier::reject_recursive_types(T)]
pub struct Receiver<T> {
    pair: Arc<(Mutex<Option<T>>, Condvar)>,
}

/// Whether the sender's and the receiver's shared pair (the slot's lock
/// and its condition variable) are equal values. `channel` makes both
/// halves point to one allocation, which gives this; equality of the values
/// alone does not say that they are one allocation.
pub closed spec fn connected<T>(sender: Sender<T>, receiver: Receiver<T>) -> bool {
    sender.pair == receiver.pair
}

/// A channel that holds at most one value: a send replaces any value not
/// yet received.
pub fn channel<T>() -> (r: (Sender<T>, Receiver<T>))
    ensures
        connected(r.0, r.1),
{
    let mutex = mutex_new(None);
    let cond_var = condvar_new();
    let arc = Arc::new((mutex, cond_var));
    (Sender { pair: share(&arc) }, Receiver { pair: arc })
}

impl<T> Sender<T> {
    /// Stores `t`, replacing a value not yet received, and wakes the
    /// receiver. `Err` only when the lock is poisoned.
    pub fn send(&self, t: T) -> Result<(), ()> {
        let (mutex, condvar) = &*self.pair;
        let mut m = lock(mutex)?;
        guard_fill(&mut m, t);
        notify_one(condvar);
        Ok(())
    }
}

impl<T> Receiver<T> {
    /// Waits until a value was sent and takes it; `None` only when the lock
    /// is poisoned.
    pub fn recv(&self) -> Option<T> {
        let (mutex, condvar) = &*self.pair;
        let m = match lock(mutex) {
            Ok(m) => m,
            Err(()) => return None,
        };
        let mut m = match wait_until_filled(condvar, m) {
            Ok(m) => m,
            Err(()) => return None,
        };
        guard_take(&mut m)
    }
}

} // verus!
