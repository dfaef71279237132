//! The cell that a storage strategy keeps an installed state in.

use vstd::prelude::*;
use std::cell::{Ref, RefCell, RefMut};
use crate::cells::{ref_mut_target, ref_target, refcell_try_borrow, refcell_try_borrow_mut};
use crate::error::UsageError;

verus! {

/// What a [`Slot`] holds, as a plain value: the installed state, if any, and whether a guard
/// holds the slot.
pub struct SlotState<T> {
    /// The installed state.
    pub installed: Option<T>,
    /// Whether a guard has the sole right to install a state and to remove it.
    pub reserved: bool,
}

impl<T> SlotState<T> {
    /// The slot that nobody has touched, and that a released slot returns to.
    pub open spec fn empty() -> Self {
        SlotState { installed: None, reserved: false }
    }

    /// The slot after a guard has taken it without installing a state.
    pub open spec fn reserve(self) -> Self {
        SlotState { installed: self.installed, reserved: true }
    }

    /// The slot after a guard has taken it and installed `state`.
    pub open spec fn install(self, state: T) -> Self {
        SlotState { installed: Some(state), reserved: true }
    }

    /// The slot after a call that changes an installed state as `change` says. A call that
    /// finds no state installed finds no mock: it leaves the slot as it is.
    pub open spec fn call(self, change: spec_fn(T) -> T) -> Self {
        match self.installed {
            Some(state) => SlotState { installed: Some(change(state)), reserved: self.reserved },
            None => self,
        }
    }

    /// The slot after calls that change an installed state as `changes` say, one call for
    /// each and in their order.
    pub open spec fn calls(self, changes: Seq<spec_fn(T) -> T>) -> Self
        decreases changes.len(),
    {
        if changes.len() == 0 {
            self
        } else {
            self.call(changes[0]).calls(changes.skip(1))
        }
    }

    /// The slot after its guard has been released.
    pub open spec fn release(self) -> Self {
        Self::empty()
    }

    /// The slot after an attempt to take it for a guard and install `state`: the attempt
    /// changes nothing while another guard holds the slot.
    pub open spec fn try_install(self, state: T) -> Self {
        if self.reserved {
            self
        } else {
            self.install(state)
        }
    }

    /// The slot after an attempt to take it for a guard without installing a state: the
    /// attempt changes nothing while another guard holds the slot.
    pub open spec fn try_reserve(self) -> Self {
        if self.reserved {
            self
        } else {
            self.reserve()
        }
    }

    /// What an attempt to take the slot for a guard reports.
    pub open spec fn taken(self) -> Result<(), UsageError> {
        if self.reserved {
            Err(UsageError::AlreadyInstalled)
        } else {
            Ok(())
        }
    }

    /// What a guard that gives the slot up gets back: the installed state, or the error
    /// of a state that is gone.
    pub open spec fn recovered(self) -> Result<T, UsageError> {
        match self.installed {
            Some(installed) => Ok(installed),
            None => Err(UsageError::StateMissing),
        }
    }
}

/// Whether an attempt to get at the slot of `cell` exclusively was turned down, because
/// the slot was in use.
pub closed spec fn refused<T>(cell: &RefCell<Slot<T>>) -> bool {
    call_ensures(refcell_try_borrow_mut::<Slot<T>>, (cell,), None::<RefMut<'_, Slot<T>>>)
}

/// Whether `slot` is the slot that an exclusive access to `cell` worked on: `*slot` is
/// what the access found there, and `*final(slot)` is what it left there.
pub closed spec fn lent<T>(cell: &RefCell<Slot<T>>, slot: &mut Slot<T>) -> bool {
    exists|borrow: &mut RefMut<'_, Slot<T>>|
        call_ensures(refcell_try_borrow_mut::<Slot<T>>, (cell,), Some(*borrow)) && call_ensures(
            ref_mut_target::<Slot<T>>,
            (borrow,),
            slot,
        )
}

/// Whether an attempt to look at the slot of `cell` was turned down, because the slot was
/// being written to.
pub closed spec fn hidden<T>(cell: &RefCell<Slot<T>>) -> bool {
    call_ensures(refcell_try_borrow::<Slot<T>>, (cell,), None::<Ref<'_, Slot<T>>>)
}

/// Whether `borrow` is what a look at the slot of `cell` gave.
pub closed spec fn borrowed<'a, T>(cell: &'a RefCell<Slot<T>>, borrow: Ref<'a, Slot<T>>) -> bool {
    call_ensures(refcell_try_borrow::<Slot<T>>, (cell,), Some(borrow))
}

/// Whether `slot` is the slot that `borrow` was found to show.
pub closed spec fn shown<T>(borrow: &Ref<'_, Slot<T>>, slot: &Slot<T>) -> bool {
    call_ensures(ref_target::<Slot<T>>, (borrow,), slot)
}

/// An exclusive borrow that was turned down is an access that was refused.
pub(crate) proof fn lemma_refused<T>(cell: &RefCell<Slot<T>>)
    requires
        call_ensures(refcell_try_borrow_mut::<Slot<T>>, (cell,), None::<RefMut<'_, Slot<T>>>),
    ensures
        refused(cell),
{
}

/// The target of an exclusive borrow that was granted is the slot lent, with what the
/// access found there and what it left there.
pub(crate) proof fn lemma_lent<T>(
    cell: &RefCell<Slot<T>>,
    granted: RefMut<'_, Slot<T>>,
    found: SlotState<T>,
    left: SlotState<T>,
)
    requires
        call_ensures(refcell_try_borrow_mut::<Slot<T>>, (cell,), Some(granted)),
        exists|lender: &mut RefMut<'_, Slot<T>>, slot: &mut Slot<T>|
            call_ensures(ref_mut_target::<Slot<T>>, (lender,), slot) && *lender == granted
                && slot@ == found && final(slot)@ == left,
    ensures
        exists|slot: &mut Slot<T>|
            #[trigger] lent(cell, slot) && slot@ == found && final(slot)@ == left,
{
    let (lender, slot) = choose|lender: &mut RefMut<'_, Slot<T>>, slot: &mut Slot<T>|
        call_ensures(ref_mut_target::<Slot<T>>, (lender,), slot) && *lender == granted && slot@
            == found && final(slot)@ == left;
    assert(lent(cell, slot));
}

/// A shared borrow that was turned down is a look that was hidden.
pub(crate) proof fn lemma_hidden<T>(cell: &RefCell<Slot<T>>)
    requires
        call_ensures(refcell_try_borrow::<Slot<T>>, (cell,), None::<Ref<'_, Slot<T>>>),
    ensures
        hidden(cell),
{
}

/// A shared borrow that was granted is a look at the slot of the cell.
pub(crate) proof fn lemma_borrowed<'a, T>(cell: &'a RefCell<Slot<T>>, borrow: Ref<'a, Slot<T>>)
    requires
        call_ensures(refcell_try_borrow::<Slot<T>>, (cell,), Some(borrow)),
    ensures
        borrowed(cell, borrow),
{
}

/// The target of a shared borrow is the slot shown.
pub(crate) proof fn lemma_shown<T>(borrow: &Ref<'_, Slot<T>>, slot: &Slot<T>)
    requires
        call_ensures(ref_target::<Slot<T>>, (borrow,), slot),
    ensures
        shown(borrow, slot),
{
}

/// What becomes of `state` under `changes`, applied one after the other.
pub open spec fn changed<T>(state: T, changes: Seq<spec_fn(T) -> T>) -> T
    decreases changes.len(),
{
    if changes.len() == 0 {
        state
    } else {
        changed(changes[0](state), changes.skip(1))
    }
}

/// Calls made while a state is installed change that state, one after the other, and
/// nothing else about the slot.
pub proof fn lemma_calls_change_installed_state<T>(
    slot: SlotState<T>,
    changes: Seq<spec_fn(T) -> T>,
)
    ensures
        slot.calls(changes).reserved == slot.reserved,
        slot.installed matches Some(state) ==> slot.calls(changes).installed == Some(
            changed(state, changes),
        ),
        slot.installed.is_none() ==> slot.calls(changes) == slot,
    decreases changes.len(),
{
    if changes.len() > 0 {
        lemma_calls_change_installed_state(slot.call(changes[0]), changes.skip(1));
    }
}

/// From installation to release: the state that the guard gives back when it is released
/// reflects every call made while it was installed, in call order, and the released slot
/// holds no state, so that no call made afterwards finds one to change.
pub proof fn lemma_released_state_reflects_calls<T>(
    before: SlotState<T>,
    state: T,
    during: Seq<spec_fn(T) -> T>,
    after: Seq<spec_fn(T) -> T>,
)
    ensures
        before.install(state).calls(during).installed == Some(changed(state, during)),
        before.install(state).calls(during).release().installed.is_none(),
        before.install(state).calls(during).release().calls(after) == SlotState::<T>::empty(),
{
    lemma_calls_change_installed_state(before.install(state), during);
    lemma_calls_change_installed_state(before.install(state).calls(during).release(), after);
}

/// Guards exclude each other: while the guard of an installed state is alive, whatever
/// calls are made, a second installation fails and leaves the installed state as it is, and
/// so does an attempt to take the slot without a state. Both succeed once the guard has been
/// released. Two installed states are therefore never there at a time.
pub proof fn lemma_installation_is_exclusive<T>(
    before: SlotState<T>,
    first: T,
    second: T,
    during: Seq<spec_fn(T) -> T>,
)
    requires
        !before.reserved,
    ensures
        before.taken().is_ok(),
        before.try_install(first) == before.install(first),
        ({
            let held = before.install(first).calls(during);
            &&& held.taken() == Err::<(), UsageError>(UsageError::AlreadyInstalled)
            &&& held.try_install(second) == held
            &&& held.try_reserve() == held
            &&& held.installed == Some(changed(first, during))
            &&& held.release().taken().is_ok()
            &&& held.release().try_install(second).installed == Some(second)
        }),
{
    lemma_calls_change_installed_state(before.install(first), during);
}

/// Place for at most one mock state, together with the marker of the guard that has the
/// sole right to put a state there and to take it away.
///
/// A state is only ever installed under the marker.
#[derive(Debug)]
pub struct Slot<T> {
    state: Option<T>,
    reserved: bool,
}

impl<T> View for Slot<T> {
    type V = SlotState<T>;

    closed spec fn view(&self) -> SlotState<T> {
        SlotState { installed: self.state, reserved: self.reserved }
    }
}

impl<T> Slot<T> {
    /// Every installed state is under a guard.
    #[verifier::type_invariant]
    closed spec fn guarded(&self) -> bool {
        self.state.is_some() ==> self.reserved
    }

    /// An empty slot that nobody holds.
    pub fn new() -> (slot: Self)
        ensures
            slot@ == SlotState::<T>::empty(),
    {
        Slot { state: None, reserved: false }
    }

    /// Whether a guard holds the slot.
    pub fn is_reserved(&self) -> (reserved: bool)
        ensures
            reserved == self@.reserved,
            !reserved ==> self@.installed.is_none(),
    {
        proof {
            use_type_invariant(self);
        }
        self.reserved
    }

    /// The installed state, if there is one.
    pub fn fetch(&self) -> (state: Option<&T>)
        ensures
            state == match self@.installed {
                Some(installed) => Some(&installed),
                None => None,
            },
    {
        self.state.as_ref()
    }

    /// Exclusive access to the installed state, if there is one. Whatever is written
    /// through it is what the slot holds afterwards; the marker stays.
    pub fn fetch_mut(&mut self) -> (state: Option<&mut T>)
        ensures
            old(self)@.installed.is_none() ==> state.is_none() && final(self)@ == old(self)@,
            old(self)@.installed.is_some() ==> state.is_some() && *state->Some_0 == old(
                self,
            )@.installed->Some_0 && final(self)@ == (SlotState {
                installed: Some(*final(state->Some_0)),
                reserved: old(self)@.reserved,
            }),
            forall|change: spec_fn(T) -> T|
                state.is_some() && #[trigger] change(*state->Some_0) == *final(state->Some_0)
                    ==> final(self)@ == old(self)@.call(change),
    {
        proof {
            use_type_invariant(&*self);
        }
        as_mut(&mut self.state)
    }

    /// Takes the slot for a guard without installing a state.
    pub fn reserve(&mut self)
        requires
            !old(self)@.reserved,
        ensures
            final(self)@ == old(self)@.reserve(),
            final(self)@.installed.is_none(),
    {
        proof {
            use_type_invariant(&*self);
        }
        self.reserved = true;
    }

    /// Takes the slot for a guard and installs `state`.
    pub fn install(&mut self, state: T)
        requires
            !old(self)@.reserved,
        ensures
            final(self)@ == old(self)@.install(state),
    {
        self.reserved = true;
        self.state = Some(state);
    }

    /// Takes the slot for a guard and installs `state`, unless another guard holds the
    /// slot: then `state` is dropped and the slot stays as it is.
    pub fn try_install(&mut self, state: T) -> (taken: Result<(), UsageError>)
        ensures
            taken == old(self)@.taken(),
            final(self)@ == old(self)@.try_install(state),
    {
        if self.is_reserved() {
            Err(UsageError::AlreadyInstalled)
        } else {
            self.install(state);
            Ok(())
        }
    }

    /// Takes the slot for a guard without installing a state, unless another guard holds
    /// the slot: then the slot stays as it is.
    pub fn try_reserve(&mut self) -> (taken: Result<(), UsageError>)
        ensures
            taken == old(self)@.taken(),
            final(self)@ == old(self)@.try_reserve(),
            taken.is_ok() ==> final(self)@.installed.is_none(),
    {
        if self.is_reserved() {
            Err(UsageError::AlreadyInstalled)
        } else {
            self.reserve();
            Ok(())
        }
    }

    /// Gives the slot up and hands out the state that was installed. Fails, with the slot
    /// given up all the same, if none was.
    pub fn take(&mut self) -> (state: Result<T, UsageError>)
        ensures
            state == old(self)@.recovered(),
            final(self)@ == old(self)@.release(),
        opens_invariants none
        no_unwind
    {
        match self.release() {
            Some(state) => Ok(state),
            None => Err(UsageError::StateMissing),
        }
    }

    /// Gives the slot up: removes the installed state, if any, and hands it out, and
    /// lifts the marker.
    pub fn release(&mut self) -> (state: Option<T>)
        ensures
            state == old(self)@.installed,
            final(self)@ == old(self)@.release(),
        opens_invariants none
        no_unwind
    {
        let mut state: Option<T> = None;
        core::mem::swap(&mut self.state, &mut state);
        self.reserved = false;
        state
    }
}

/// Exclusive access to what an option holds.
fn as_mut<T>(option: &mut Option<T>) -> (inner: Option<&mut T>)
    ensures
        old(option).is_none() ==> inner.is_none() && final(option).is_none(),
        old(option).is_some() ==> inner.is_some() && *inner->Some_0 == old(option)->Some_0
            && *final(option) == Some(*final(inner->Some_0)),
    opens_invariants none
    no_unwind
{
    match option {
        Some(inner) => Some(inner),
        None => None,
    }
}

impl<T> Default for Slot<T> {
    fn default() -> (slot: Self)
        ensures
            slot@ == SlotState::<T>::empty(),
    {
        Slot::new()
    }
}

} // verus!
