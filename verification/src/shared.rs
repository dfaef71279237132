//! Storage of a mock state for all threads.

use vstd::prelude::*;
use std::cell::{Ref, RefCell, RefMut};
use crate::cells::{
    mutex_lock, mutex_new, ref_mut_target, ref_target, reentrant_locked_target, reentrant_mutex_lock,
    reentrant_mutex_new, refcell_new, refcell_try_borrow, refcell_try_borrow_mut, Locked,
    ReentrantLocked,
};
use crate::error::UsageError;
use crate::slot::{
    borrowed, hidden, lemma_borrowed, lemma_hidden, lemma_lent, lemma_refused, lemma_shown, lent,
    refused, shown, Slot, SlotState,
};
use crate::traits::{GetMock, Guard, LockMock, SetMock, StateRef};

verus! {

/// Wrapper around a mock state that provides cross-thread synchronization.
///
/// Unlike the thread-local wrapper, this one shares the state across threads. Reads go
/// through a reentrant lock, so that recursive calls work. Setting the state goes through
/// a second lock, which the guard keeps: while one test thread has a [`SharedGuard`], other
/// tests that attempt to set a state wait.
///
/// # Pitfalls
///
/// Tests that do not set a mock state, because they want the real implementations, can
/// still observe a mock that another test has set. Run such tests one at a time, or call
/// [`LockMock::lock()`] at their beginning.
///
/// A thread that holds a [`SharedRef`] or a guard of this wrapper and then sets a state
/// waits for itself.
#[derive(Debug)]
#[verifier::reject_recursive_types(T)]
pub struct Shared<T> {
    inner: parking_lot::ReentrantMutex<RefCell<Slot<T>>>,
    write_lock: parking_lot::Mutex<()>,
}

impl<T> Default for Shared<T> {
    /// Storage whose cell is made around an empty slot that nobody holds.
    fn default() -> (storage: Self)
        ensures
            storage.made_around(SlotState::<T>::empty()),
    {
        let slot = Slot::new();
        let ghost empty = slot;
        let cell = refcell_new(slot);
        let ghost around = cell;
        let storage = Shared { inner: reentrant_mutex_new(cell), write_lock: mutex_new(()) };
        assert(call_ensures(refcell_new::<Slot<T>>, (empty,), around) && call_ensures(
            reentrant_mutex_new::<RefCell<Slot<T>>>,
            (around,),
            storage.inner,
        ));
        storage
    }
}

impl<T> Shared<T> {
    /// Whether the storage was made around a slot that held `state`, with a lock on
    /// setting a state that nobody had taken.
    pub closed spec fn made_around(&self, state: SlotState<T>) -> bool {
        &&& exists|slot: Slot<T>, cell: RefCell<Slot<T>>|
            slot@ == state && call_ensures(refcell_new::<Slot<T>>, (slot,), cell) && call_ensures(
                reentrant_mutex_new::<RefCell<Slot<T>>>,
                (cell,),
                self.inner,
            )
        &&& call_ensures(mutex_new::<()>, ((),), self.write_lock)
    }

    /// Whether `held` is what taking the lock on reads of the storage gave.
    pub closed spec fn read_locked(&self, held: ReentrantLocked<'_, RefCell<Slot<T>>>) -> bool {
        call_ensures(reentrant_mutex_lock::<RefCell<Slot<T>>>, (&self.inner,), held)
    }

    /// Whether `held` is what taking the lock on setting a state gave.
    pub closed spec fn write_locked(&self, held: Locked<'_, ()>) -> bool {
        call_ensures(mutex_lock::<()>, (&self.write_lock,), held)
    }

    /// Whether `cell` is the cell of the storage, as it was found under the lock on reads.
    pub closed spec fn entry(&self, cell: &RefCell<Slot<T>>) -> bool {
        exists|held: ReentrantLocked<'_, RefCell<Slot<T>>>|
            self.read_locked(held) && call_ensures(
                reentrant_locked_target::<RefCell<Slot<T>>>,
                (&held,),
                cell,
            )
    }

    /// What an exclusive access to the cell of the storage finds installed; the access
    /// fails while the calling thread uses the slot.
    pub closed spec fn finds(&self, state: Result<T, UsageError>) -> bool {
        exists|cell: &RefCell<Slot<T>>|
            #[trigger] self.entry(cell) && ({
                ||| refused(cell) && state == Err::<T, UsageError>(UsageError::StateBorrowed)
                ||| exists|slot: &mut Slot<T>|
                    #[trigger] lent(cell, slot) && state == slot@.recovered()
            })
    }

    /// Gives the slot up and hands out the state, as [`Slot::take`] does for the slot,
    /// unless the calling thread refers to the state.
    fn release(&self) -> (state: Result<T, UsageError>)
        ensures
            state matches Err(err) ==> err == UsageError::StateMissing || err
                == UsageError::StateBorrowed,
            self.finds(state),
            exists|cell: &RefCell<Slot<T>>|
                #[trigger] self.entry(cell) && (refused(cell) || exists|slot: &mut Slot<T>|
                    #[trigger] lent(cell, slot) && state == slot@.recovered() && final(slot)@
                        == slot@.release()),
        opens_invariants none
        no_unwind
    {
        let held = reentrant_mutex_lock(&self.inner);
        assert(self.read_locked(held));
        let cell = reentrant_locked_target(&held);
        assert(self.entry(cell));
        let state = match refcell_try_borrow_mut(cell) {
            Some(mut borrow) => {
                let ghost granted = borrow;
                let slot = ref_mut_target(&mut borrow);
                let ghost found = slot@;
                let state = slot.take();
                proof {
                    lemma_lent(cell, granted, found, found.release());
                }
                state
            },
            None => {
                proof {
                    lemma_refused(cell);
                }
                Err(UsageError::StateBorrowed)
            },
        };
        state
    }
}

/// Shared reference to the mock state in a [`Shared`] wrapper. Other threads cannot reach
/// the state while the reference is alive.
#[derive(Debug)]
#[verifier::reject_recursive_types(T)]
pub struct SharedRef<'a, T> {
    held: ReentrantLocked<'a, RefCell<Slot<T>>>,
}

impl<'a, T> SharedRef<'a, T> {
    /// The lock on reads that the reference keeps.
    pub closed spec fn held(&self) -> ReentrantLocked<'a, RefCell<Slot<T>>> {
        self.held
    }

    /// Whether `cell` is the cell that was found under the lock of the reference.
    pub closed spec fn cell_found(&self, cell: &RefCell<Slot<T>>) -> bool {
        call_ensures(reentrant_locked_target::<RefCell<Slot<T>>>, (&self.held,), cell)
    }
}

impl<T> StateRef<T> for SharedRef<'_, T> {
    /// The state installed in the slot that a look under the lock of the reference
    /// showed, or none if the look was turned down.
    closed spec fn shows(&self, state: Option<T>) -> bool {
        exists|cell: &RefCell<Slot<T>>|
            #[trigger] self.cell_found(cell) && ({
                ||| hidden(cell) && state.is_none()
                ||| exists|borrow: Ref<'_, Slot<T>>, slot: &Slot<T>|
                    borrowed(cell, borrow) && shown(&borrow, slot) && slot@.installed == state
            })
    }

    /// Runs `action` on the state that [`Slot::fetch`] finds in the slot, unless the state
    /// is being written to.
    fn with<R, A: FnOnce(&T) -> R>(&self, action: A) -> (result: Option<R>) {
        let cell = reentrant_locked_target(&self.held);
        assert(self.cell_found(cell));
        let result = match refcell_try_borrow(cell) {
            Some(borrow) => {
                let slot = ref_target(&borrow);
                proof {
                    lemma_borrowed(cell, borrow);
                    lemma_shown(&borrow, slot);
                    assert(borrowed(cell, borrow) && shown(&borrow, slot) && slot@.installed
                        == slot@.installed);
                    assert(exists|b: Ref<'_, Slot<T>>, s: &Slot<T>|
                        borrowed(cell, b) && shown(&b, s) && s@.installed == slot@.installed);
                    assert(self.shows(slot@.installed));
                }
                match slot.fetch() {
                    Some(state) => {
                        let returned = action(state);
                        let result = Some(returned);
                        assert(call_ensures(action, (state,), result->Some_0));
                        result
                    },
                    None => None,
                }
            },
            None => {
                proof {
                    lemma_hidden(cell);
                    assert(self.shows(None::<T>));
                }
                None
            },
        };
        result
    }
}

impl<'a, T: 'static> GetMock<'a, T> for Shared<T> {
    type Ref = SharedRef<'a, T>;

    /// The state, if [`Slot::fetch`] finds one in the slot and nobody is writing to it.
    /// Waits while another thread uses the state. There is a reference exactly if the
    /// look at the slot was granted and showed an installed state, and the reference
    /// keeps the lock on reads that was taken for the look.
    fn get(&'a self) -> (state: Option<SharedRef<'a, T>>)
        ensures
            state matches Some(found) ==> self.read_locked(found.held()),
            exists|cell: &RefCell<Slot<T>>|
                #[trigger] self.entry(cell) && ({
                    ||| hidden(cell) && state.is_none()
                    ||| exists|borrow: Ref<'_, Slot<T>>, slot: &Slot<T>|
                        borrowed(cell, borrow) && shown(&borrow, slot) && (state.is_some()
                            <==> slot@.installed.is_some())
                }),
    {
        let held = reentrant_mutex_lock(&self.inner);
        assert(self.read_locked(held));
        let cell = reentrant_locked_target(&held);
        assert(self.entry(cell));
        let ghost found = cell;
        let installed = match refcell_try_borrow(cell) {
            Some(borrow) => {
                let slot = ref_target(&borrow);
                let installed = slot.fetch().is_some();
                proof {
                    lemma_borrowed(cell, borrow);
                    lemma_shown(&borrow, slot);
                    assert(exists|b: Ref<'_, Slot<T>>, s: &Slot<T>|
                        borrowed(found, b) && shown(&b, s) && (installed
                            <==> s@.installed.is_some()));
                }
                installed
            },
            None => {
                proof {
                    lemma_hidden(cell);
                }
                false
            },
        };
        if installed {
            Some(SharedRef { held })
        } else {
            None
        }
    }
}

/// Exclusive lock on the [`Shared`] mock state.
///
/// Releasing the guard removes the state and then lets the next test set its own. A state
/// that the releasing thread still refers to cannot be removed, and stays set.
#[derive(Debug)]
#[verifier::reject_recursive_types(T)]
pub struct SharedGuard<'a, T> {
    mock: &'a Shared<T>,
    _guard: Locked<'a, ()>,
}

impl<'a, T: 'static> SetMock<'a, T> for Shared<T> {
    type Guard = SharedGuard<'a, T>;

    /// Waits until no other guard of this wrapper is alive, and sets the state as
    /// [`Slot::try_install`] decides for the slot. The guard is the guard of this
    /// storage and keeps the lock on setting a state that was taken.
    fn set(&'a self, state: T) -> (guard: Result<SharedGuard<'a, T>, UsageError>)
        ensures
            guard matches Err(err) ==> err == UsageError::AlreadyInstalled || err
                == UsageError::StateBorrowed,
            guard matches Ok(made) ==> made.storage() == self && self.write_locked(
                made.write_lock(),
            ),
            exists|cell: &RefCell<Slot<T>>|
                #[trigger] self.entry(cell) && ({
                    ||| refused(cell) && guard.is_err() && guard->Err_0
                        == UsageError::StateBorrowed
                    ||| exists|slot: &mut Slot<T>|
                        #[trigger] lent(cell, slot) && final(slot)@ == slot@.try_install(state)
                            && match slot@.taken() {
                            Ok(_) => guard.is_ok(),
                            Err(err) => guard.is_err() && guard->Err_0 == err,
                        }
                }),
    {
        let guard = mutex_lock(&self.write_lock);
        assert(self.write_locked(guard));
        let held = reentrant_mutex_lock(&self.inner);
        assert(self.read_locked(held));
        let cell = reentrant_locked_target(&held);
        assert(self.entry(cell));
        let installed = match refcell_try_borrow_mut(cell) {
            Some(mut borrow) => {
                let ghost granted = borrow;
                let slot = ref_mut_target(&mut borrow);
                let ghost found = slot@;
                let taken = slot.try_install(state);
                proof {
                    lemma_lent(cell, granted, found, found.try_install(state));
                }
                taken
            },
            None => {
                proof {
                    lemma_refused(cell);
                }
                Err(UsageError::StateBorrowed)
            },
        };
        match installed {
            Ok(()) => Ok(SharedGuard { mock: self, _guard: guard }),
            Err(err) => Err(err),
        }
    }
}

impl<'a, T: 'static> LockMock<'a, T> for Shared<T> {
    type EmptyGuard = Locked<'a, ()>;

    /// Waits until no guard of this wrapper is alive, and keeps others from setting a
    /// state. The state itself is not touched. What is returned is the lock on setting a
    /// state, as it was taken.
    fn lock(&'a self) -> (guard: Result<Locked<'a, ()>, UsageError>)
        ensures
            guard.is_ok(),
            self.write_locked(guard->Ok_0),
    {
        Ok(mutex_lock(&self.write_lock))
    }
}

impl<'a, T> SharedGuard<'a, T> {
    /// The storage that the guard belongs to.
    pub closed spec fn storage(&self) -> &'a Shared<T> {
        self.mock
    }

    /// The lock on setting a state that the guard keeps.
    pub closed spec fn write_lock(&self) -> Locked<'a, ()> {
        self._guard
    }

    /// Returns the enclosed mock state and lifts the exclusive lock: what is returned is
    /// what an exclusive access to the cell of the storage finds installed, and the slot
    /// is left released unless the cell turned the access down.
    pub fn into_inner(self) -> (state: Result<T, UsageError>)
        ensures
            state matches Err(err) ==> err == UsageError::StateMissing || err
                == UsageError::StateBorrowed,
            self.storage().finds(state),
            exists|cell: &RefCell<Slot<T>>|
                #[trigger] self.storage().entry(cell) && (refused(cell) || exists|slot: &mut Slot<T>|
                    #[trigger] lent(cell, slot) && state == slot@.recovered() && final(slot)@
                        == slot@.release()),
    {
        let state = self.mock.release();
        assert(self.storage() == self.mock);
        state
    }
}

impl<T> Drop for SharedGuard<'_, T> {
    /// Gives the slot up, dropping the state: unless the cell of the storage turns the
    /// access down, its slot is left released. The lock on setting a state is lifted when
    /// the fields are dropped.
    fn drop(&mut self)
        ensures
            exists|cell: &RefCell<Slot<T>>|
                #[trigger] old(self).storage().entry(cell) && (refused(cell) || exists|slot: &mut Slot<T>|
                    #[trigger] lent(cell, slot) && final(slot)@ == slot@.release()),
        opens_invariants none
        no_unwind
    {
        let _ = self.mock.release();
        assert(old(self).storage() == self.mock);
    }
}

impl<T> Guard<T> for SharedGuard<'_, T> {
    /// What an exclusive access to the cell of the storage finds installed.
    closed spec fn finds(&self, state: Result<T, UsageError>) -> bool {
        self.mock.finds(state)
    }

    /// Runs `action` on the state that [`Slot::fetch_mut`] finds in the slot.
    fn with<R, A: FnOnce(&mut T) -> R>(&mut self, action: A) -> (result: Result<R, UsageError>) {
        let held = reentrant_mutex_lock(&self.mock.inner);
        assert(self.mock.read_locked(held));
        let cell = reentrant_locked_target(&held);
        assert(self.mock.entry(cell));
        let result = match refcell_try_borrow_mut(cell) {
            Some(mut borrow) => {
                let ghost granted = borrow;
                let slot = ref_mut_target(&mut borrow);
                let ghost found = slot@;
                let result = match slot.fetch_mut() {
                    Some(state) => {
                        let ghost installed = *state;
                        let returned = action(state);
                        assert(exists|handed: &mut T|
                            *handed == installed && call_ensures(action, (handed,), returned));
                        let result = Ok(returned);
                        assert(result->Ok_0 == returned);
                        result
                    },
                    None => Err(UsageError::StateMissing),
                };
                proof {
                    lemma_lent(cell, granted, found, slot@);
                    assert(self.mock.finds(found.recovered()));
                    assert(self.finds(found.recovered()));
                }
                result
            },
            None => {
                proof {
                    lemma_refused(cell);
                    assert(self.mock.finds(Err::<T, UsageError>(UsageError::StateBorrowed)));
                    assert(self.finds(Err::<T, UsageError>(UsageError::StateBorrowed)));
                }
                Err(UsageError::StateBorrowed)
            },
        };
        result
    }

    /// Returns the enclosed mock state and lifts the exclusive lock; the slot is left
    /// released unless the cell of the storage turned the access down.
    fn into_inner(self) -> (state: Result<T, UsageError>)
        ensures
            state matches Err(err) ==> err == UsageError::StateMissing || err
                == UsageError::StateBorrowed,
            exists|cell: &RefCell<Slot<T>>|
                #[trigger] self.storage().entry(cell) && (refused(cell) || exists|slot: &mut Slot<T>|
                    #[trigger] lent(cell, slot) && state == slot@.recovered() && final(slot)@
                        == slot@.release()),
    {
        let state = self.mock.release();
        assert(self.storage() == self.mock);
        state
    }
}

} // verus!
