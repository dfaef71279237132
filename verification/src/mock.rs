//! Mock states and the guards that keep them set.

use vstd::prelude::*;
use std::cell::RefMut;
use crate::cells::{once_cell_get_or_default, once_cell_new, ref_mut_target};
use crate::error::UsageError;
use crate::mutable::Mut;
use crate::switch::CheckRealCall;
use crate::traits::{GetMock, Guard, LockMock, SetMock, StateRef, Wrap};

verus! {

/// Holder of the storage of one kind of mock state, for use in a `static`.
///
/// The storage is created on the first access, whichever thread makes it, and lives as
/// long as the holder.
#[derive(Debug)]
#[verifier::reject_recursive_types(T)]
pub struct Static<T> {
    cell: once_cell::sync::OnceCell<T>,
}

impl<T> Static<T> {
    /// Whether the cell of the holder is as it was made, empty.
    pub closed spec fn fresh(&self) -> bool {
        call_ensures(once_cell_new::<T>, (), self.cell)
    }

    /// Whether `storage` is what the cell of the holder gave, after it had been filled
    /// with `T::default()` if it was empty.
    pub closed spec fn gave(&self, storage: &T) -> bool where T: Default {
        call_ensures(once_cell_get_or_default::<T>, (&self.cell,), storage)
    }

    /// Creates a holder whose storage does not exist yet.
    pub fn new() -> (holder: Self)
        ensures
            holder.fresh(),
    {
        Static { cell: once_cell_new() }
    }

    /// The storage, created with `T::default()` if this is the first access.
    pub fn get_or_default(&self) -> (storage: &T) where T: Default
        ensures
            self.gave(storage),
    {
        once_cell_get_or_default(&self.cell)
    }
}

impl<'a, T, S> GetMock<'a, T> for Static<S> where S: GetMock<'a, T> + Default {
    type Ref = S::Ref;

    /// The state that the storage of this holder gives.
    fn get(&'a self) -> (state: Option<S::Ref>)
        ensures
            exists|storage: &S|
                call_ensures(Static::<S>::get_or_default, (self,), storage) && call_ensures(
                    <S as GetMock<'a, T>>::get,
                    (storage,),
                    state,
                ),
    {
        let storage = self.get_or_default();
        let state = storage.get();
        assert(call_ensures(Static::<S>::get_or_default, (self,), storage) && call_ensures(
            <S as GetMock<'a, T>>::get,
            (storage,),
            state,
        ));
        state
    }
}

/// Where a call of a mocked function goes: to the mock exactly if a state is installed and
/// the state does not ask for the real implementation.
pub open spec fn goes_to_mock(installed: bool, delegate: bool) -> bool {
    installed && !delegate
}

/// Decides where a call of a mocked function goes.
pub fn routes_to_mock(installed: bool, delegate: bool) -> (mocked: bool)
    ensures
        mocked == goes_to_mock(installed, delegate),
{
    installed && !delegate
}

/// Looks up the state that a call of a mocked function has to be handed to.
///
/// A mocked function makes this call first. If a state is set in `storage`, the state is
/// asked whether the call has to go to the real implementation, and [`routes_to_mock`]
/// decides. `None` means that the function has to run its own body.
///
/// What is handed out is the reference that `storage` gave, and it is handed out exactly
/// if the reference found a state whose check for real calls said no.
pub fn mock_for_call<'a, B: CheckRealCall, S: GetMock<'a, B>>(storage: &'a S) -> (state: Option<
    S::Ref,
>)
    ensures
        exists|got: Option<S::Ref>|
            call_ensures(<S as GetMock<'a, B>>::get, (storage,), got) && match got {
                Some(reference) => exists|found: Option<B>|
                    reference.shows(found) && match found {
                        Some(base) => exists|delegate: bool|
                            call_ensures(
                                <B as CheckRealCall>::should_call_real,
                                (&base,),
                                delegate,
                            ) && state == if goes_to_mock(true, delegate) {
                                got
                            } else {
                                None
                            },
                        None => state.is_none(),
                    },
                None => state.is_none(),
            },
{
    let got = storage.get();
    assert(call_ensures(<S as GetMock<'a, B>>::get, (storage,), got));
    match got {
        Some(reference) => {
            let checking = |base: &B| -> (delegate: bool)
                ensures
                    call_ensures(<B as CheckRealCall>::should_call_real, (base,), delegate),
                { base.should_call_real() };
            let checked = reference.with(checking);
            let ghost asked = reference;
            let state = match checked {
                Some(delegate) => {
                    if routes_to_mock(true, delegate) {
                        Some(reference)
                    } else {
                        None
                    }
                },
                None => None,
            };
            proof {
                let found = choose|found: Option<B>|
                    asked.shows(found) && match found {
                        Some(base) => checked.is_some() && call_ensures(
                            checking,
                            (&base,),
                            checked->Some_0,
                        ),
                        None => checked.is_none(),
                    };
                match found {
                    Some(base) => {
                        assert(exists|delegate: bool|
                            call_ensures(
                                <B as CheckRealCall>::should_call_real,
                                (&base,),
                                delegate,
                            ) && state == if goes_to_mock(true, delegate) {
                                got
                            } else {
                                None
                            });
                    },
                    None => {},
                }
                assert(asked.shows(found) && match found {
                    Some(base) => exists|delegate: bool|
                        call_ensures(
                            <B as CheckRealCall>::should_call_real,
                            (&base,),
                            delegate,
                        ) && state == if goes_to_mock(true, delegate) {
                            got
                        } else {
                            None
                        },
                    None => state.is_none(),
                });
            }
            state
        },
        None => None,
    }
}

/// State of a mock.
pub trait Mock: Sized {
    /// What is stored for a state of this type: the state itself, or a wrapper around it.
    type Base: Wrap<Self> + CheckRealCall;

    /// Storage that shares [`Self::Base`] between the test code and the tested code.
    type Shared: GetMock<'static, Self::Base> + SetMock<'static, Self::Base> + 'static + Default
        + Send + Sync;

    /// Returns the holder of the storage for states of this type.
    fn instance() -> &'static Static<Self::Shared>;

    /// Sets the mock state and returns an exclusive guard to the shared state. The mock is
    /// only set until the guard is dropped.
    ///
    /// The state is wrapped into [`Self::Base`] and handed to the storage of
    /// [`Self::instance()`]. The call succeeds exactly if the storage sets the state; the
    /// guard then holds the guard that the storage gave, and an error is the error of the
    /// storage.
    fn set_as_mock(self) -> (guard: Result<MockGuard<Self>, UsageError>)
        ensures
            exists|
                holder: &'static Static<Self::Shared>,
                storage: &Self::Shared,
                base: Self::Base,
                made: Result<<Self::Shared as SetMock<'static, Self::Base>>::Guard, UsageError>,
            |
                call_ensures(Self::instance, (), holder) && call_ensures(
                    Static::<Self::Shared>::get_or_default,
                    (holder,),
                    storage,
                ) && call_ensures(Self::Base::from, (self,), base) && call_ensures(
                    <Self::Shared as SetMock<'static, Self::Base>>::set,
                    (storage, base),
                    made,
                ) && (made matches Ok(inner) ==> guard.is_ok() && guard->Ok_0.inner == inner)
                    && (made matches Err(err) ==> guard == Err::<MockGuard<Self>, UsageError>(
                    err,
                )),
    {
        let holder = Self::instance();
        let storage = holder.get_or_default();
        let base = Self::Base::from(self);
        let made = storage.set(base);
        let guard = match made {
            Ok(inner) => Ok(MockGuard { inner }),
            Err(err) => Err(err),
        };
        assert(call_ensures(Self::instance, (), holder) && call_ensures(
            Static::<Self::Shared>::get_or_default,
            (holder,),
            storage,
        ) && call_ensures(Self::Base::from, (self,), base) && call_ensures(
            <Self::Shared as SetMock<'static, Self::Base>>::set,
            (storage, base),
            made,
        ) && (made matches Ok(inner) ==> guard.is_ok() && guard->Ok_0.inner == inner)
            && (made matches Err(err) ==> guard == Err::<MockGuard<Self>, UsageError>(err)));
        guard
    }

    /// Locks write access to the mock state without setting the state. This is useful for
    /// shared mocks, to make sure that tests not using mocks do not observe mocks set by
    /// other tests.
    ///
    /// The call succeeds exactly if the storage of [`Self::instance()`] gives its lock;
    /// the guard then holds the guard that the storage gave, and an error is the error of
    /// the storage.
    fn lock() -> (guard: Result<EmptyGuard<Self>, UsageError>) where
        Self::Shared: LockMock<'static, Self::Base>,

        ensures
            exists|
                holder: &'static Static<Self::Shared>,
                storage: &Self::Shared,
                locked: Result<
                    <Self::Shared as LockMock<'static, Self::Base>>::EmptyGuard,
                    UsageError,
                >,
            |
                call_ensures(Self::instance, (), holder) && call_ensures(
                    Static::<Self::Shared>::get_or_default,
                    (holder,),
                    storage,
                ) && call_ensures(
                    <Self::Shared as LockMock<'static, Self::Base>>::lock,
                    (storage,),
                    locked,
                ) && (locked matches Ok(inner) ==> guard.is_ok() && guard->Ok_0.inner == inner)
                    && (locked matches Err(err) ==> guard == Err::<EmptyGuard<Self>, UsageError>(
                    err,
                )),
    {
        let holder = Self::instance();
        let storage = holder.get_or_default();
        let locked = storage.lock();
        let guard = match locked {
            Ok(inner) => Ok(EmptyGuard { inner }),
            Err(err) => Err(err),
        };
        assert(call_ensures(Self::instance, (), holder) && call_ensures(
            Static::<Self::Shared>::get_or_default,
            (holder,),
            storage,
        ) && call_ensures(
            <Self::Shared as LockMock<'static, Self::Base>>::lock,
            (storage,),
            locked,
        ) && (locked matches Ok(inner) ==> guard.is_ok() && guard->Ok_0.inner == inner)
            && (locked matches Err(err) ==> guard == Err::<EmptyGuard<Self>, UsageError>(err)));
        guard
    }
}

/// Exclusive guard to set the mock state.
///
/// A guard can be used to check or adjust the mock state during the test. Dropping the
/// guard also unsets the mock state, so that the targeted functions are no longer mocked.
pub struct MockGuard<T: Mock> {
    /// The guard of the storage, which keeps the state set.
    pub inner: <T::Shared as SetMock<'static, T::Base>>::Guard,
}

impl<T: Mock> MockGuard<T> {
    /// The guard of the storage that this guard holds.
    pub open spec fn inner(&self) -> <T::Shared as SetMock<'static, T::Base>>::Guard {
        self.inner
    }

    /// Performs an action on the mock state without releasing the guard. This can be used
    /// to adjust the mock state, or to check or take some parts of it.
    ///
    /// The action is run exactly if the guard of the storage finds the state, on what
    /// [`Wrap::as_mut`] makes of the state found; otherwise the error of that guard is
    /// reported.
    pub fn with<R, A: FnOnce(&mut T) -> R>(&mut self, action: A) -> (result: Result<R, UsageError>)
        requires
            forall|state: &mut T| call_requires(action, (state,)),
        ensures
            result.is_ok() ==> exists|state: &mut T| call_ensures(action, (state,), result->Ok_0),
            exists|found: Result<T::Base, UsageError>|
                old(self).inner().finds(found) && match found {
                    Ok(base) => result.is_ok() && exists|
                        wrapped: &mut T::Base,
                        inner: &mut T,
                        handed: &mut T,
                    |
                        *wrapped == base && call_ensures(
                            <T::Base as Wrap<T>>::as_mut,
                            (wrapped,),
                            inner,
                        ) && *handed == *inner && call_ensures(
                            action,
                            (handed,),
                            result->Ok_0,
                        ),
                    Err(err) => result.is_err() && result->Err_0 == err,
                },
    {
        let unwrapping = |wrapped: &mut T::Base| -> (returned: R)
            ensures
                exists|base: &mut T::Base, inner: &mut T, handed: &mut T|
                    *base == *old(wrapped) && call_ensures(
                        <T::Base as Wrap<T>>::as_mut,
                        (base,),
                        inner,
                    ) && *handed == *inner && call_ensures(action, (handed,), returned),
            {
                let ghost start = *wrapped;
                let inner = wrapped.as_mut();
                let ghost made = *inner;
                assert(exists|base: &mut T::Base, inner: &mut T|
                    *base == start && *inner == made && call_ensures(
                        <T::Base as Wrap<T>>::as_mut,
                        (base,),
                        inner,
                    ));
                let returned = action(inner);
                assert(exists|handed: &mut T|
                    *handed == made && call_ensures(action, (handed,), returned));
                returned
            };
        let result = self.inner.with(unwrapping);
        proof {
            let found = choose|found: Result<T::Base, UsageError>|
                old(self).inner().finds(found) && match found {
                    Ok(state) => result.is_ok() && exists|given: &mut T::Base|
                        *given == state && call_ensures(unwrapping, (given,), result->Ok_0),
                    Err(err) => result.is_err() && result->Err_0 == err,
                };
            match found {
                Ok(state) => {
                    let given = choose|given: &mut T::Base|
                        *given == state && call_ensures(unwrapping, (given,), result->Ok_0);
                    assert(exists|wrapped: &mut T::Base, inner: &mut T, handed: &mut T|
                        *wrapped == state && call_ensures(
                            <T::Base as Wrap<T>>::as_mut,
                            (wrapped,),
                            inner,
                        ) && *handed == *inner && call_ensures(action, (handed,), result->Ok_0));
                },
                Err(_) => {},
            }
            assert(old(self).inner().finds(found) && match found {
                Ok(base) => result.is_ok() && exists|
                    wrapped: &mut T::Base,
                    inner: &mut T,
                    handed: &mut T,
                |
                    *wrapped == base && call_ensures(
                        <T::Base as Wrap<T>>::as_mut,
                        (wrapped,),
                        inner,
                    ) && *handed == *inner && call_ensures(action, (handed,), result->Ok_0),
                Err(err) => result.is_err() && result->Err_0 == err,
            });
        }
        result
    }

    /// Returns the enclosed mock state and releases the exclusive lock.
    ///
    /// The state is what the guard of the storage gave back, unwrapped; an error is the
    /// error of that guard.
    pub fn into_inner(self) -> (state: Result<T, UsageError>)
        ensures
            state matches Ok(recovered) ==> exists|base: T::Base|
                call_ensures(
                    <<T::Shared as SetMock<'static, T::Base>>::Guard as Guard<T::Base>>::into_inner,
                    (self.inner(),),
                    Ok::<T::Base, UsageError>(base),
                ) && call_ensures(<T::Base as Wrap<T>>::into_inner, (base,), recovered),
            state matches Err(err) ==> call_ensures(
                <<T::Shared as SetMock<'static, T::Base>>::Guard as Guard<T::Base>>::into_inner,
                (self.inner(),),
                Err::<T::Base, UsageError>(err),
            ),
    {
        match Guard::into_inner(self.inner) {
            Ok(base) => {
                let recovered = Wrap::into_inner(base);
                assert(call_ensures(
                    <<T::Shared as SetMock<'static, T::Base>>::Guard as Guard<T::Base>>::into_inner,
                    (self.inner(),),
                    Ok::<T::Base, UsageError>(base),
                ) && call_ensures(<T::Base as Wrap<T>>::into_inner, (base,), recovered));
                Ok(recovered)
            },
            Err(err) => Err(err),
        }
    }
}

/// Exclusive guard to set the mock state without an attached state.
pub struct EmptyGuard<T: Mock> where T::Shared: LockMock<'static, T::Base> {
    /// The guard of the storage, which keeps states from being set.
    pub inner: <T::Shared as LockMock<'static, T::Base>>::EmptyGuard,
}

/// What an access through a [`MockRef`] reports for what the state found gave: a missing
/// state is an error.
pub open spec fn or_missing<R>(found: Option<R>) -> Result<R, UsageError> {
    match found {
        Some(returned) => Ok(returned),
        None => Err(UsageError::StateMissing),
    }
}

/// Reference to a mock state that does not borrow it, for mock logic that outlives single
/// calls. The state is looked up at each access.
pub struct MockRef<T: Mock> {
    instance: &'static Static<T::Shared>,
}

impl<T: Mock> Clone for MockRef<T> {
    fn clone(&self) -> (copy: Self)
        ensures
            copy.instance() == self.instance(),
    {
        MockRef { instance: self.instance }
    }
}

impl<T: Mock> Copy for MockRef<T> {
}

impl<T: Mock> MockRef<T> {
    /// The holder in which the state is looked up.
    pub closed spec fn instance(&self) -> &'static Static<T::Shared> {
        self.instance
    }

    /// A reference to whatever state is set in `instance` at the time of an access.
    pub fn new(instance: &'static Static<T::Shared>) -> (reference: Self)
        ensures
            reference.instance() == instance,
    {
        MockRef { instance }
    }
}

impl<T: Mock<Base = T>> MockRef<T> {
    /// Accesses the underlying mock state. Fails if the mock state has gone missing, which
    /// is a sign that the mock was removed before all mocked calls were made.
    ///
    /// The state is looked up in the holder, and the result is what the reference found
    /// gives for `action`: without a reference, or with one whose state is gone, the access
    /// fails.
    pub fn with<R, A: FnOnce(&T) -> R>(&self, action: A) -> (result: Result<R, UsageError>)
        requires
            forall|state: &T| call_requires(action, (state,)),
        ensures
            result.is_ok() ==> exists|state: &T| call_ensures(action, (state,), result->Ok_0),
            exists|got: Option<<T::Shared as GetMock<'static, T>>::Ref>|
                call_ensures(
                    <Static<T::Shared> as GetMock<'static, T>>::get,
                    (self.instance(),),
                    got,
                ) && match got {
                    Some(state) => exists|found: Option<R>|
                        call_ensures(
                            <<T::Shared as GetMock<'static, T>>::Ref as StateRef<T>>::with::<R, A>,
                            (&state, action),
                            found,
                        ) && result == or_missing(found),
                    None => result == Err::<R, UsageError>(UsageError::StateMissing),
                },
    {
        let got = self.instance.get();
        assert(call_ensures(
            <Static<T::Shared> as GetMock<'static, T>>::get,
            (self.instance(),),
            got,
        ));
        match got {
            Some(state) => {
                let found = state.with(action);
                assert(call_ensures(
                    <<T::Shared as GetMock<'static, T>>::Ref as StateRef<T>>::with::<R, A>,
                    (&state, action),
                    found,
                ));
                assert(found.is_some() ==> exists|state: &T|
                    call_ensures(action, (state,), found->Some_0));
                match found {
                    Some(returned) => {
                        assert(exists|state: &T| call_ensures(action, (state,), returned));
                        let result = Ok(returned);
                        assert(result->Ok_0 == returned);
                        assert(result == or_missing(found));
                        result
                    },
                    None => Err(UsageError::StateMissing),
                }
            },
            None => Err(UsageError::StateMissing),
        }
    }
}

impl<T: Mock<Base = Mut<T>>> MockRef<T> {
    /// Accesses the underlying [`Mut`]able mock state. Fails if the mock state has gone
    /// missing, or if a reference to it is alive.
    ///
    /// The state is looked up in the holder. Without a reference to it, or with a
    /// reference that finds no state, the access fails as for a missing state; it fails as
    /// for a state in use if the wrapper found lends no exclusive reference; otherwise
    /// `action` is run.
    pub fn with_mut<R, A: FnOnce(&mut T) -> R>(&self, action: A) -> (result: Result<R, UsageError>)
        requires
            forall|state: &mut T| call_requires(action, (state,)),
        ensures
            result.is_ok() ==> exists|state: &mut T| call_ensures(action, (state,), result->Ok_0),
            result matches Err(err) ==> err == UsageError::StateMissing || err
                == UsageError::StateBorrowed,
            exists|got: Option<<T::Shared as GetMock<'static, Mut<T>>>::Ref>|
                call_ensures(
                    <Static<T::Shared> as GetMock<'static, Mut<T>>>::get,
                    (self.instance(),),
                    got,
                ) && match got {
                    Some(reference) => exists|found: Option<Mut<T>>|
                        reference.shows(found) && match found {
                            Some(base) => exists|lent: Option<RefMut<'_, T>>|
                                call_ensures(Mut::<T>::borrow, (&base,), lent) && match lent {
                                    Some(_) => result.is_ok(),
                                    None => result == Err::<R, UsageError>(
                                        UsageError::StateBorrowed,
                                    ),
                                },
                            None => result == Err::<R, UsageError>(UsageError::StateMissing),
                        },
                    None => result == Err::<R, UsageError>(UsageError::StateMissing),
                },
    {
        let borrowing = |base: &Mut<T>| -> (returned: Option<R>)
            ensures
                returned.is_some() ==> exists|state: &mut T|
                    call_ensures(action, (state,), returned->Some_0),
                exists|lent: Option<RefMut<'_, T>>|
                    call_ensures(Mut::<T>::borrow, (base,), lent) && (lent.is_some()
                        <==> returned.is_some()),
            {
                let lent = base.borrow();
                assert(call_ensures(Mut::<T>::borrow, (base,), lent));
                match lent {
                    Some(mut borrow) => {
                        let returned = action(ref_mut_target(&mut borrow));
                        assert(exists|state: &mut T| call_ensures(action, (state,), returned));
                        let result = Some(returned);
                        assert(result->Some_0 == returned);
                        result
                    },
                    None => None,
                }
            };
        let got = self.instance.get();
        assert(call_ensures(
            <Static<T::Shared> as GetMock<'static, Mut<T>>>::get,
            (self.instance(),),
            got,
        ));
        match got {
            Some(state) => {
                let found = state.with(borrowing);
                assert(found.is_some() ==> exists|base: &Mut<T>|
                    call_ensures(borrowing, (base,), found->Some_0));
                let result = match found {
                    Some(Some(returned)) => {
                        assert(exists|state: &mut T| call_ensures(action, (state,), returned));
                        let result = Ok(returned);
                        assert(result->Ok_0 == returned);
                        result
                    },
                    Some(None) => Err(UsageError::StateBorrowed),
                    None => Err(UsageError::StateMissing),
                };
                proof {
                    let shown = choose|shown: Option<Mut<T>>|
                        state.shows(shown) && match shown {
                            Some(base) => found.is_some() && call_ensures(
                                borrowing,
                                (&base,),
                                found->Some_0,
                            ),
                            None => found.is_none(),
                        };
                    match shown {
                        Some(base) => {
                            assert(exists|lent: Option<RefMut<'_, T>>|
                                call_ensures(Mut::<T>::borrow, (&base,), lent) && match lent {
                                    Some(_) => result.is_ok(),
                                    None => result == Err::<R, UsageError>(
                                        UsageError::StateBorrowed,
                                    ),
                                });
                        },
                        None => {},
                    }
                    assert(state.shows(shown) && match shown {
                        Some(base) => exists|lent: Option<RefMut<'_, T>>|
                            call_ensures(Mut::<T>::borrow, (&base,), lent) && match lent {
                                Some(_) => result.is_ok(),
                                None => result == Err::<R, UsageError>(UsageError::StateBorrowed),
                            },
                        None => result == Err::<R, UsageError>(UsageError::StateMissing),
                    });
                }
                result
            },
            None => Err(UsageError::StateMissing),
        }
    }
}

} // verus!
