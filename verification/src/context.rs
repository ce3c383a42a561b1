//! The request context: a handle on the one store that every request shares.

use crate::store::{recorded, Directory, UserStore};
use crate::user::{User, UserView};
use std::ops::{Deref, DerefMut};
use std::sync::Arc;
use std::sync::Mutex;
use std::sync::MutexGuard;
use vstd::prelude::*;

verus! {

/// `std::sync::Mutex`, carried as an opaque value.
#[verifier::external_type_specification]
#[verifier::external_body]
#[verifier::reject_recursive_types(T)]
pub struct ExMutex<T: ?Sized>(Mutex<T>);

/// `std::sync::MutexGuard`, carried as an opaque value.
#[verifier::external_type_specification]
#[verifier::external_body]
#[verifier::reject_recursive_types(T)]
pub struct ExMutexGuard<'a, T: ?Sized + 'a>(MutexGuard<'a, T>);

/// The directory of the store that a lock was made around: what the store
/// behind the lock held before anyone took the lock.
pub uninterp spec fn made_around(lock: Mutex<UserStore>) -> Directory;

/// `Mutex::lock`, which waits until the lock is free. A lock that an earlier
/// holder poisoned is entered all the same, through `PoisonError::into_inner`:
/// the store behind it is whole at every moment. Nothing is claimed of the
/// guard.
///
/// `lock` does not return to a thread that holds the lock already. Every
/// caller in this library takes the lock once, works on the store alone and
/// lets go before it returns, so none asks twice.
#[verifier::external_body]
pub(crate) fn acquire<'a>(lock: &'a Mutex<UserStore>) -> (guard: MutexGuard<'a, UserStore>) {
    match lock.lock() {
        Ok(guard) => guard,
        Err(poisoned) => poisoned.into_inner(),
    }
}

/// `Deref::deref` of a guard: the store behind the lock, to read. Nothing is
/// claimed of what it holds.
#[verifier::external_body]
pub(crate) fn guarded<'a, 'b>(guard: &'a MutexGuard<'b, UserStore>) -> (store: &'a UserStore) {
    guard.deref()
}

/// `DerefMut::deref_mut` of a guard: the store behind the lock, to change.
/// Nothing is claimed of what it holds.
#[verifier::external_body]
pub(crate) fn guarded_mut<'a, 'b>(
    guard: &'a mut MutexGuard<'b, UserStore>,
) -> (store: &'a mut UserStore) {
    guard.deref_mut()
}

/// `Arc::clone`: another pointer to the same allocation, so to the same lock.
#[verifier::external_body]
fn share(data: &Arc<Mutex<UserStore>>) -> (copy: Arc<Mutex<UserStore>>)
    ensures
        copy == *data,
{
    Arc::clone(data)
}

/// The record that a fresh directory starts with.
pub open spec fn seed() -> UserView {
    UserView { id: "1"@, name: "name"@, email: "name@example.com"@ }
}

/// Builds the record that a fresh directory starts with.
pub fn seed_user() -> (user: User)
    ensures
        user@ == seed(),
{
    User::new("1".to_owned(), "name".to_owned(), "name@example.com".to_owned())
}

/// A handle on a fresh store in which the seed record has been recorded: the
/// store behind the handle begins with that one record.
pub fn create_context() -> (context: Context)
    ensures
        context.begun_with() == recorded(Directory::empty(), seed()),
{
    let mut store = UserStore::new();
    store.insert(seed_user());
    Context::around(store)
}

/// A handle on the shared user store. Copies of a handle share one store;
/// every access takes the store's lock for the length of one operation.
pub struct Context {
    data: Arc<Mutex<UserStore>>,
}

impl Context {
    /// A handle on a fresh, empty store.
    pub fn new() -> (context: Context)
        ensures
            context.begun_with() == Directory::empty(),
    {
        Context::around(UserStore::new())
    }

    /// The lock that every copy of this handle shares.
    pub(crate) fn lock(&self) -> (lock: &Mutex<UserStore>)
        ensures
            *lock == self.store_lock(),
    {
        &self.data
    }

    /// The lock of the store that this handle stands for. Two handles stand
    /// for one store exactly when this is the same for both.
    pub closed spec fn store_lock(&self) -> Mutex<UserStore> {
        *self.data
    }

    /// The directory with which the store behind this handle began. What the
    /// store holds now is for a lookup to find out: every holder of the
    /// handle may have written since.
    pub closed spec fn begun_with(&self) -> Directory {
        made_around(self.store_lock())
    }

    /// Puts a store behind a lock and hands out the first handle on it.
    fn around(store: UserStore) -> (context: Context)
        ensures
            context.begun_with() == store@,
    {
        Context { data: Arc::new(lock_around(store)) }
    }

    /// Records a copy of `user` in the shared store under its id, in place of
    /// any record that stood there. Other holders of the handle may write
    /// before the next call, so nothing is promised of later lookups.
    pub fn add_user(&self, user: &User) {
        let mut guard = acquire(&self.data);
        let store = guarded_mut(&mut guard);
        store.insert(user.clone());
    }

    /// A copy of the record that the shared store holds under `id` at the
    /// moment of the call.
    pub fn find_user(&self, id: &String) -> (hit: Option<User>)
        ensures
            hit matches Some(user) ==> user.id@ == id@,
    {
        let guard = acquire(&self.data);
        let store = guarded(&guard);
        store.lookup(id)
    }
}

impl Clone for Context {
    /// Another handle on the same store.
    fn clone(&self) -> (copy: Context)
        ensures
            copy == *self,
    {
        Context { data: share(&self.data) }
    }
}

/// `Mutex::new`: a lock around the given store, which is what the lock holds
/// until its first holder writes.
#[verifier::external_body]
fn lock_around(store: UserStore) -> (lock: Mutex<UserStore>)
    ensures
        made_around(lock) == store@,
{
    Mutex::new(store)
}

} // verus!
