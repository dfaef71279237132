//! Lower-level traits that generalize the concept of a mock state shared between tests and
//! the tested code.

use vstd::prelude::*;
use crate::error::UsageError;

verus! {

/// Shared access to an installed mock state.
pub trait StateRef<T> {
    /// Whether an access through the reference found `state`: the installed state, or
    /// none if the state is gone or cannot be looked at.
    spec fn shows(&self, state: Option<T>) -> bool;

    /// Runs `action` on the state. `None` means that the state is gone, and `action` was
    /// not run: the action is run, on the state found, exactly if one was found.
    fn with<R, A: FnOnce(&T) -> R>(&self, action: A) -> (result: Option<R>)
        requires
            forall|state: &T| call_requires(action, (state,)),
        ensures
            result.is_some() ==> exists|state: &T|
                call_ensures(action, (state,), result->Some_0),
            exists|found: Option<T>|
                self.shows(found) && match found {
                    Some(state) => result.is_some() && call_ensures(
                        action,
                        (&state,),
                        result->Some_0,
                    ),
                    None => result.is_none(),
                },
    ;
}

/// Interface to get a mock state.
pub trait GetMock<'a, T> {
    /// Reference to the shared mock state. It is a separate entity so that whoever calls a
    /// mock implementation knows beforehand that the state is there: the call consumes
    /// its arguments.
    type Ref: StateRef<T> + 'a;

    /// Returns a reference to the shared mock state, or `None` if the mock is not set.
    fn get(&'a self) -> (state: Option<Self::Ref>);
}

/// Interface to set up a mock state.
pub trait SetMock<'a, T> {
    /// Exclusive guard of the state that was set.
    type Guard: 'a + Guard<T>;

    /// Makes `state` the mock state until the returned guard is released.
    fn set(&'a self, state: T) -> (guard: Result<Self::Guard, UsageError>);
}

/// Guard for setting a mock state from the test code.
pub trait Guard<T> {
    /// Whether an exclusive access through the guard found `state`: the mock state, or
    /// the error that kept the access from it.
    spec fn finds(&self, state: Result<T, UsageError>) -> bool;

    /// Runs `action` on the mock state without releasing the guard: the action is run, on
    /// the state found, exactly if the access found one, and its error is reported
    /// otherwise.
    fn with<R, A: FnOnce(&mut T) -> R>(&mut self, action: A) -> (result: Result<R, UsageError>)
        requires
            forall|state: &mut T| call_requires(action, (state,)),
        ensures
            result.is_ok() ==> exists|state: &mut T|
                call_ensures(action, (state,), result->Ok_0),
            exists|found: Result<T, UsageError>|
                old(self).finds(found) && match found {
                    Ok(state) => result.is_ok() && exists|handed: &mut T|
                        *handed == state && call_ensures(action, (handed,), result->Ok_0),
                    Err(err) => result.is_err() && result->Err_0 == err,
                },
    ;

    /// Removes the mock state and returns it, releasing the guard: what is returned is
    /// what the access found.
    fn into_inner(self) -> (state: Result<T, UsageError>)
        ensures
            self.finds(state),
    ;
}

/// Interface to lock mock state changes without setting a state.
pub trait LockMock<'a, T>: SetMock<'a, T> {
    /// Exclusive guard for the mock that does not contain the state.
    type EmptyGuard: 'a;

    /// Locks access to the mock state without setting the state. This is useful for shared
    /// mocks, to make sure that tests not using mocks do not observe mocks set by other
    /// tests.
    fn lock(&'a self) -> (guard: Result<Self::EmptyGuard, UsageError>);
}

/// Wrapper that allows proxying exclusive accesses to the wrapped object.
pub trait Wrap<T>: From<T> {
    /// Whether an access to the wrapper finds `inner` wrapped.
    spec fn holds(&self, inner: T) -> bool;

    /// Returns the wrapped value.
    fn into_inner(self) -> (inner: T)
        ensures
            <Self as Wrap<T>>::holds(&self, inner),
    ;

    /// Returns an exclusive reference to the wrapped value.
    fn as_mut(&mut self) -> (inner: &mut T)
        ensures
            <Self as Wrap<T>>::holds(old(self), *inner),
    ;
}

impl<T> Wrap<T> for T {
    open spec fn holds(&self, inner: T) -> bool {
        *self == inner
    }

    fn into_inner(self) -> (inner: T)
        ensures
            inner == self,
    {
        self
    }

    fn as_mut(&mut self) -> (inner: &mut T)
        ensures
            *inner == *old(self),
            *final(self) == *final(inner),
    {
        self
    }
}

} // verus!
