//! Storage of a mock state per thread.

use vstd::prelude::*;
use std::cell::{Ref, RefCell, RefMut};
use crate::cells::{
    per_thread_get_or_default, per_thread_new, ref_mut_target, ref_target, refcell_try_borrow,
    refcell_try_borrow_mut,
};
use crate::error::UsageError;
use crate::slot::{
    borrowed, hidden, lemma_borrowed, lemma_hidden, lemma_lent, lemma_refused, lemma_shown, lent,
    refused, shown, Slot,
};
use crate::traits::{GetMock, Guard, LockMock, SetMock, StateRef};

verus! {

/// Thread-local mock state wrapper.
///
/// As the name implies, this wrapper does not share the mock state across threads. If a
/// thread is spawned during a test, mocked functions called from that thread use the real
/// implementations unless the thread sets a state of its own.
#[derive(Debug)]
#[verifier::reject_recursive_types(T)]
pub struct ThreadLocal<T: Send> {
    tls: thread_local::ThreadLocal<RefCell<Slot<T>>>,
}

impl<T: Send> ThreadLocal<T> {
    /// Whether the storage is as it was made, without a cell for any thread.
    pub closed spec fn fresh(&self) -> bool {
        call_ensures(per_thread_new::<RefCell<Slot<T>>>, (), self.tls)
    }

    /// Whether `cell` is the cell of the calling thread, as the storage gave it.
    pub closed spec fn entry(&self, cell: &RefCell<Slot<T>>) -> bool {
        call_ensures(per_thread_get_or_default::<RefCell<Slot<T>>>, (&self.tls,), cell)
    }
}

impl<T: Send> Default for ThreadLocal<T> {
    /// Storage in which no thread has a cell yet.
    fn default() -> (storage: Self)
        ensures
            storage.fresh(),
    {
        ThreadLocal { tls: per_thread_new() }
    }
}

/// Shared reference to the mock state of the calling thread.
#[derive(Debug)]
#[verifier::reject_recursive_types(T)]
pub struct ThreadLocalRef<'a, T> {
    borrow: Ref<'a, Slot<T>>,
}

impl<'a, T> ThreadLocalRef<'a, T> {
    /// The look at the slot of the thread that the reference keeps up.
    pub closed spec fn borrow(&self) -> Ref<'a, Slot<T>> {
        self.borrow
    }
}

impl<T> StateRef<T> for ThreadLocalRef<'_, T> {
    /// The state installed in the slot that the reference was found to show.
    closed spec fn shows(&self, state: Option<T>) -> bool {
        exists|slot: &Slot<T>| shown(&self.borrow, slot) && slot@.installed == state
    }

    /// Runs `action` on the state that [`Slot::fetch`] finds in the slot of the thread.
    fn with<R, A: FnOnce(&T) -> R>(&self, action: A) -> (result: Option<R>) {
        let slot = ref_target(&self.borrow);
        proof {
            lemma_shown(&self.borrow, slot);
        }
        assert(self.shows(slot@.installed));
        match slot.fetch() {
            Some(state) => {
                let returned = action(state);
                let result = Some(returned);
                assert(call_ensures(action, (state,), result->Some_0));
                result
            },
            None => None,
        }
    }
}

impl<'a, T: Send + 'static> GetMock<'a, T> for ThreadLocal<T> {
    type Ref = ThreadLocalRef<'a, T>;

    /// The state of the calling thread, if [`Slot::fetch`] finds one in the slot of the
    /// thread and nobody is writing to it: there is a reference exactly if the look at
    /// the slot was granted and showed an installed state, and the reference keeps up
    /// that look.
    fn get(&'a self) -> (state: Option<ThreadLocalRef<'a, T>>)
        ensures
            exists|cell: &'a RefCell<Slot<T>>|
                #[trigger] self.entry(cell) && ({
                    ||| hidden(cell) && state.is_none()
                    ||| exists|borrow: Ref<'a, Slot<T>>, slot: &Slot<T>|
                        borrowed(cell, borrow) && shown(&borrow, slot) && match slot@.installed {
                            Some(_) => state.is_some() && state->Some_0.borrow() == borrow,
                            None => state.is_none(),
                        }
                }),
    {
        let cell = per_thread_get_or_default(&self.tls);
        assert(self.entry(cell));
        let looked = refcell_try_borrow(cell);
        match looked {
            Some(borrow) => {
                let ghost granted = borrow;
                let slot = ref_target(&borrow);
                let ghost seen = slot;
                let installed = slot.fetch().is_some();
                let state = if installed {
                    Some(ThreadLocalRef { borrow })
                } else {
                    None
                };
                proof {
                    lemma_borrowed(cell, granted);
                    lemma_shown(&granted, seen);
                    assert(borrowed(cell, granted) && shown(&granted, seen)
                        && match seen@.installed {
                        Some(_) => state.is_some() && state->Some_0.borrow() == granted,
                        None => state.is_none(),
                    });
                    assert(exists|borrow: Ref<'a, Slot<T>>, slot: &Slot<T>|
                        borrowed(cell, borrow) && shown(&borrow, slot) && match slot@.installed {
                            Some(_) => state.is_some() && state->Some_0.borrow() == borrow,
                            None => state.is_none(),
                        });
                }
                state
            },
            None => {
                proof {
                    lemma_hidden(cell);
                    assert(hidden(cell));
                }
                None
            },
        }
    }
}

/// Exclusive guard on a [`ThreadLocal`] mock.
///
/// If a state is set on a thread that has an active guard, the attempt fails; other
/// threads are not affected. Releasing the guard removes the state and frees the slot of
/// the thread. A state that the thread still refers to cannot be removed, and stays set.
#[derive(Debug)]
#[verifier::reject_recursive_types(T)]
pub struct ThreadLocalGuard<'a, T> {
    mock: &'a RefCell<Slot<T>>,
}

impl<'a, T> ThreadLocalGuard<'a, T> {
    /// The cell whose slot the guard holds.
    pub closed spec fn cell(&self) -> &'a RefCell<Slot<T>> {
        self.mock
    }
}

impl<'a, T: Send + 'static> SetMock<'a, T> for ThreadLocal<T> {
    type Guard = ThreadLocalGuard<'a, T>;

    /// Sets the state of the calling thread, as [`Slot::try_install`] decides for the slot
    /// of the thread: the attempt fails while an earlier guard of the thread is alive, or
    /// while the slot is in use. The guard is the guard of the cell of the thread.
    fn set(&'a self, state: T) -> (guard: Result<ThreadLocalGuard<'a, T>, UsageError>)
        ensures
            guard matches Err(err) ==> err == UsageError::AlreadyInstalled || err
                == UsageError::StateBorrowed,
            exists|cell: &'a RefCell<Slot<T>>|
                #[trigger] self.entry(cell) && ({
                    ||| refused(cell) && guard.is_err() && guard->Err_0
                        == UsageError::StateBorrowed
                    ||| exists|slot: &mut Slot<T>|
                        #[trigger] lent(cell, slot) && final(slot)@ == slot@.try_install(state)
                            && match slot@.taken() {
                            Ok(_) => guard.is_ok() && guard->Ok_0.cell() == cell,
                            Err(err) => guard.is_err() && guard->Err_0 == err,
                        }
                }),
    {
        let cell = per_thread_get_or_default(&self.tls);
        assert(self.entry(cell));
        match refcell_try_borrow_mut(cell) {
            Some(mut borrow) => {
                let ghost granted = borrow;
                let slot = ref_mut_target(&mut borrow);
                let ghost found = slot@;
                let taken = slot.try_install(state);
                proof {
                    lemma_lent(cell, granted, found, found.try_install(state));
                }
                match taken {
                    Ok(()) => Ok(ThreadLocalGuard { mock: cell }),
                    Err(err) => Err(err),
                }
            },
            None => {
                proof {
                    lemma_refused(cell);
                }
                Err(UsageError::StateBorrowed)
            },
        }
    }
}

impl<'a, T: Send + 'static> LockMock<'a, T> for ThreadLocal<T> {
    type EmptyGuard = ThreadLocalGuard<'a, T>;

    /// Takes the slot of the calling thread without setting a state, as
    /// [`Slot::try_reserve`] decides for it: until the returned guard is released, the
    /// thread cannot set a state. The guard is the guard of the cell of the thread.
    fn lock(&'a self) -> (guard: Result<ThreadLocalGuard<'a, T>, UsageError>)
        ensures
            guard matches Err(err) ==> err == UsageError::AlreadyInstalled || err
                == UsageError::StateBorrowed,
            exists|cell: &'a RefCell<Slot<T>>|
                #[trigger] self.entry(cell) && ({
                    ||| refused(cell) && guard.is_err() && guard->Err_0
                        == UsageError::StateBorrowed
                    ||| exists|slot: &mut Slot<T>|
                        #[trigger] lent(cell, slot) && final(slot)@ == slot@.try_reserve()
                            && match slot@.taken() {
                            Ok(_) => guard.is_ok() && guard->Ok_0.cell() == cell,
                            Err(err) => guard.is_err() && guard->Err_0 == err,
                        }
                }),
    {
        let cell = per_thread_get_or_default(&self.tls);
        assert(self.entry(cell));
        match refcell_try_borrow_mut(cell) {
            Some(mut borrow) => {
                let ghost granted = borrow;
                let slot = ref_mut_target(&mut borrow);
                let ghost found = slot@;
                let taken = slot.try_reserve();
                proof {
                    lemma_lent(cell, granted, found, found.try_reserve());
                }
                match taken {
                    Ok(()) => Ok(ThreadLocalGuard { mock: cell }),
                    Err(err) => Err(err),
                }
            },
            None => {
                proof {
                    lemma_refused(cell);
                }
                Err(UsageError::StateBorrowed)
            },
        }
    }
}

impl<T> Drop for ThreadLocalGuard<'_, T> {
    /// Gives the slot up with [`Slot::release`], dropping the state: unless the cell
    /// turns the access down, its slot is left released.
    fn drop(&mut self)
        ensures
            refused(old(self).cell()) || exists|slot: &mut Slot<T>|
                #[trigger] lent(old(self).cell(), slot) && final(slot)@ == slot@.release(),
        opens_invariants none
        no_unwind
    {
        match refcell_try_borrow_mut(self.mock) {
            Some(mut borrow) => {
                let ghost granted = borrow;
                let slot = ref_mut_target(&mut borrow);
                let ghost found = slot@;
                let _ = slot.release();
                proof {
                    lemma_lent(self.mock, granted, found, found.release());
                }
            },
            None => {
                proof {
                    lemma_refused(self.mock);
                }
            },
        }
    }
}

impl<T> Guard<T> for ThreadLocalGuard<'_, T> {
    /// What is installed in the slot that an exclusive access to the cell works on; the
    /// access fails while the slot is in use.
    closed spec fn finds(&self, state: Result<T, UsageError>) -> bool {
        ||| refused(self.mock) && state == Err::<T, UsageError>(UsageError::StateBorrowed)
        ||| exists|slot: &mut Slot<T>| #[trigger] lent(self.mock, slot) && state == slot@.recovered()
    }

    /// Runs `action` on the state that [`Slot::fetch_mut`] finds in the slot.
    fn with<R, A: FnOnce(&mut T) -> R>(&mut self, action: A) -> (result: Result<R, UsageError>) {
        match refcell_try_borrow_mut(self.mock) {
            Some(mut borrow) => {
                let ghost granted = borrow;
                let slot = ref_mut_target(&mut borrow);
                let ghost found = slot@;
                let result = match slot.fetch_mut() {
                    Some(state) => {
                        let ghost installed = *state;
                        let returned = action(state);
                        assert(exists|handed: &mut T|
                            *handed == installed && call_ensures(action, (handed,), returned));
                        let result = Ok(returned);
                        assert(result->Ok_0 == returned);
                        result
                    },
                    None => Err(UsageError::StateMissing),
                };
                proof {
                    lemma_lent(self.mock, granted, found, slot@);
                    assert(self.finds(found.recovered()));
                }
                result
            },
            None => {
                proof {
                    lemma_refused(self.mock);
                    assert(self.finds(Err::<T, UsageError>(UsageError::StateBorrowed)));
                }
                Err(UsageError::StateBorrowed)
            },
        }
    }

    /// Gives the slot up and hands out the state, as [`Slot::take`] does for the slot.
    fn into_inner(self) -> (state: Result<T, UsageError>)
        ensures
            state matches Err(err) ==> err == UsageError::StateMissing || err
                == UsageError::StateBorrowed,
            refused(self.cell()) || exists|slot: &mut Slot<T>|
                #[trigger] lent(self.cell(), slot) && state == slot@.recovered() && final(slot)@
                    == slot@.release(),
    {
        match refcell_try_borrow_mut(self.mock) {
            Some(mut borrow) => {
                let ghost granted = borrow;
                let slot = ref_mut_target(&mut borrow);
                let ghost found = slot@;
                let state = slot.take();
                proof {
                    lemma_lent(self.mock, granted, found, found.release());
                    assert(self.finds(state));
                }
                state
            },
            None => {
                proof {
                    lemma_refused(self.mock);
                    assert(self.finds(Err::<T, UsageError>(UsageError::StateBorrowed)));
                }
                Err(UsageError::StateBorrowed)
            },
        }
    }
}

} // verus!
