//! Wrapper for mock states that are changed by the mock logic.

use vstd::prelude::*;
use vstd::std_specs::convert::FromSpecImpl;
use std::cell::{RefCell, RefMut};
use crate::cells::{refcell_get_mut, refcell_into_inner, refcell_new, refcell_try_borrow_mut};
use crate::switch::{CallReal, RealCallMode, RealCallSwitch};
use crate::traits::Wrap;

verus! {

/// A lightweight wrapper around the state that allows the mock code to change it.
///
/// Mock logic only gets a shared reference to the mock state, because the state is reachable
/// from every call in progress. The wrapper hands out an exclusive reference to one caller
/// at a time. It also carries a [`RealCallSwitch`], and so allows partial mocks and spies.
#[derive(Debug)]
#[verifier::reject_recursive_types(T)]
pub struct Mut<T> {
    inner: RefCell<T>,
    switch: RealCallSwitch,
}

impl<T> Mut<T> {
    /// The switch that the wrapper carries.
    pub closed spec fn switch(&self) -> RealCallSwitch {
        self.switch
    }

    /// Whether the cell of the wrapper was made around `inner`.
    pub closed spec fn made_around(&self, inner: T) -> bool {
        call_ensures(refcell_new::<T>, (inner,), self.inner)
    }

    /// Whether `state` is what an attempt to borrow the cell of the wrapper exclusively
    /// gave.
    pub closed spec fn lends(&self, state: Option<RefMut<'_, T>>) -> bool {
        call_ensures(refcell_try_borrow_mut::<T>, (&self.inner,), state)
    }

    /// Whether `inner` is what the cell of the wrapper gave when it was taken apart.
    pub closed spec fn unwraps_to(&self, inner: T) -> bool {
        call_ensures(refcell_into_inner::<T>, (self.inner,), inner)
    }

    /// Whether `inner` is what an exclusive reference to the wrapper reached in its cell.
    pub closed spec fn reaches(&self, inner: T) -> bool {
        exists|cell: &mut RefCell<T>, reached: &mut T|
            *cell == self.inner && call_ensures(refcell_get_mut::<T>, (cell,), reached)
                && *reached == inner
    }

    /// Returns an exclusive reference to the underlying mock, or `None` if a reference to
    /// the same mock state is alive.
    ///
    /// While the reference is alive, further calls to functions in the same mock, including
    /// indirect ones, cannot get the state in this way. Keep the references short-lived.
    pub fn borrow(&self) -> (state: Option<RefMut<'_, T>>)
        ensures
            self.lends(state),
    {
        refcell_try_borrow_mut(&self.inner)
    }
}

impl<T> From<T> for Mut<T> {
    /// A wrapper around `inner` with a switch in the `Inactive` mode.
    fn from(inner: T) -> (wrapped: Self)
        ensures
            wrapped.made_around(inner),
            wrapped.switch().made_with(RealCallMode::Inactive),
    {
        Mut { inner: refcell_new(inner), switch: RealCallSwitch::new() }
    }
}

impl<T> FromSpecImpl<T> for Mut<T> {
    open spec fn obeys_from_spec() -> bool {
        false
    }

    open spec fn from_spec(inner: T) -> Self {
        arbitrary()
    }
}

impl<T: Default> Default for Mut<T> {
    /// A wrapper around the default state with a switch in the `Inactive` mode.
    fn default() -> (wrapped: Self)
        ensures
            exists|inner: T| call_ensures(T::default, (), inner) && wrapped.made_around(inner),
            wrapped.switch().made_with(RealCallMode::Inactive),
    {
        let inner = T::default();
        let wrapped = Mut { inner: refcell_new(inner), switch: RealCallSwitch::new() };
        assert(call_ensures(T::default, (), inner) && wrapped.made_around(inner));
        wrapped
    }
}

impl<T> Wrap<T> for Mut<T> {
    /// What the cell of the wrapper gives, when it is taken apart or when an exclusive
    /// reference reaches into it.
    open spec fn holds(&self, inner: T) -> bool {
        self.unwraps_to(inner) || self.reaches(inner)
    }

    /// What the cell of the wrapper gives when it is taken apart.
    fn into_inner(self) -> (inner: T)
        ensures
            self.unwraps_to(inner),
    {
        refcell_into_inner(self.inner)
    }

    /// What an exclusive reference to the wrapper reaches in its cell.
    fn as_mut(&mut self) -> (inner: &mut T) {
        let ghost cell = self.inner;
        let inner = refcell_get_mut(&mut self.inner);
        assert(exists|holder: &mut RefCell<T>, reached: &mut T|
            *holder == cell && call_ensures(refcell_get_mut::<T>, (holder,), reached) && *reached
                == *inner);
        assert(Mut::<T>::reaches(old(self), *inner));
        inner
    }
}

impl<T> CallReal for Mut<T> {
    /// The switch that the wrapper carries.
    fn real_switch(&self) -> (switch: &RealCallSwitch)
        ensures
            *switch == self.switch(),
    {
        &self.switch
    }
}

} // verus!
