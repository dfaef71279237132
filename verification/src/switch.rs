//! Switch between the real and the mocked implementation of a function.

use vstd::prelude::*;
use std::cell::Cell;
use crate::cells::{cell_get, cell_new, cell_set};
use crate::error::UsageError;

verus! {

/// State of a [`RealCallSwitch`].
#[derive(Debug, Clone, Copy, PartialEq, Eq, Structural)]
pub enum RealCallMode {
    /// Calls go to the mock.
    Inactive,
    /// Calls go to the real implementation until the scope is closed.
    Always,
    /// The next call goes to the real implementation; the ones after it go to the mock.
    Once,
}

impl RealCallMode {
    /// Whether a call made in this mode goes to the real implementation.
    pub open spec fn delegates(self) -> bool {
        self != RealCallMode::Inactive
    }

    /// The mode that a call leaves behind: `Once` is used up by it, the others stay.
    pub open spec fn after_call(self) -> RealCallMode {
        if self == RealCallMode::Once {
            RealCallMode::Inactive
        } else {
            self
        }
    }

    /// The mode after `calls` calls in a row.
    pub open spec fn after_calls(self, calls: nat) -> RealCallMode
        decreases calls,
    {
        if calls == 0 {
            self
        } else {
            self.after_call().after_calls((calls - 1) as nat)
        }
    }

    /// Whether a delegation scope may be opened in this mode.
    pub open spec fn can_open(self) -> bool {
        self == RealCallMode::Inactive
    }

    /// What an attempt to open a scope of the kind `target` gives in this mode: the new
    /// mode, or the error if a scope is open already.
    pub open spec fn opened(self, target: RealCallMode) -> Result<RealCallMode, UsageError> {
        if self.can_open() {
            Ok(target)
        } else {
            Err(UsageError::SwitchActive)
        }
    }

    /// Routes one call: says whether it goes to the real implementation, and which mode
    /// it leaves behind.
    pub fn route_call(self) -> (routed: (bool, RealCallMode))
        ensures
            routed.0 == self.delegates(),
            routed.1 == self.after_call(),
        opens_invariants none
        no_unwind
    {
        match self {
            RealCallMode::Inactive => (false, RealCallMode::Inactive),
            RealCallMode::Always => (true, RealCallMode::Always),
            RealCallMode::Once => (true, RealCallMode::Inactive),
        }
    }

    /// Opens a delegation scope of the kind `target`, which is `Always` or `Once`, on a
    /// switch that is in this mode.
    ///
    /// Scopes do not nest: the scope is opened, and `target` returned as the new mode,
    /// exactly if this mode is `Inactive`.
    pub fn open_scope(self, target: RealCallMode) -> (opened: Result<RealCallMode, UsageError>)
        requires
            target.delegates(),
        ensures
            opened == self.opened(target),
    {
        match self {
            RealCallMode::Inactive => Ok(target),
            _ => Err(UsageError::SwitchActive),
        }
    }

    /// What the check that no delegation scope is open says in this mode.
    pub open spec fn checked_inactive(self) -> Result<(), UsageError> {
        if self.can_open() {
            Ok(())
        } else {
            Err(UsageError::SwitchActive)
        }
    }

    /// Checks that no delegation scope is open in this mode.
    pub fn check_inactive(self) -> (checked: Result<(), UsageError>)
        ensures
            checked == self.checked_inactive(),
    {
        match self {
            RealCallMode::Inactive => Ok(()),
            _ => Err(UsageError::SwitchActive),
        }
    }

    /// The mode that closing a delegation scope leaves behind, whatever the scope was.
    pub fn close_scope(self) -> (closed: RealCallMode)
        ensures
            closed == RealCallMode::Inactive,
        opens_invariants none
        no_unwind
    {
        RealCallMode::Inactive
    }
}

/// A switch that no scope is open on sends every call to the mock, however many came before.
pub proof fn lemma_inactive_never_delegates(calls: nat)
    ensures
        RealCallMode::Inactive.after_calls(calls) == RealCallMode::Inactive,
        !RealCallMode::Inactive.after_calls(calls).delegates(),
    decreases calls,
{
    if calls > 0 {
        lemma_inactive_never_delegates((calls - 1) as nat);
    }
}

/// Under a `Once` scope exactly one call goes to the real implementation: the first one.
/// Of the calls made while the scope is open, the one that comes after `earlier` others is
/// delegated if and only if `earlier` is zero, so the second call already sees the mock
/// although the scope has not been closed.
pub proof fn lemma_once_delegates_first_call_only(before: RealCallMode, earlier: nat)
    requires
        before.can_open(),
    ensures
        before.opened(RealCallMode::Once) == Ok::<RealCallMode, UsageError>(RealCallMode::Once),
        RealCallMode::Once.after_calls(earlier).delegates() <==> earlier == 0,
{
    if earlier > 0 {
        lemma_inactive_never_delegates((earlier - 1) as nat);
    }
}

/// Under an `Always` scope every call goes to the real implementation, and closing the
/// scope ends that: the switch can be opened again, and calls see the mock.
pub proof fn lemma_always_delegates_until_closed(before: RealCallMode, earlier: nat)
    requires
        before.can_open(),
    ensures
        before.opened(RealCallMode::Always) == Ok::<RealCallMode, UsageError>(
            RealCallMode::Always,
        ),
        RealCallMode::Always.after_calls(earlier) == RealCallMode::Always,
        RealCallMode::Always.after_calls(earlier).delegates(),
    decreases earlier,
{
    if earlier > 0 {
        lemma_always_delegates_until_closed(before, (earlier - 1) as nat);
    }
}

/// Scopes do not nest: while one is open, whatever its kind and however many calls it has
/// seen, an attempt to open another fails unless the open one was a `Once` scope that has
/// been used up.
pub proof fn lemma_open_scope_refuses_nesting(mode: RealCallMode, target: RealCallMode)
    ensures
        mode.delegates() ==> mode.opened(target) == Err::<RealCallMode, UsageError>(
            UsageError::SwitchActive,
        ),
        !mode.delegates() ==> mode.opened(target) == Ok::<RealCallMode, UsageError>(target),
{
}

impl Default for RealCallMode {
    fn default() -> (mode: Self)
        ensures
            mode == RealCallMode::Inactive,
    {
        RealCallMode::Inactive
    }
}

/// Switch between the real and the mocked implementation, kept as a field of a mock state.
///
/// The switch is read and written through shared references, because a mock state is
/// reachable from every call that is in progress, recursive ones included. What it holds
/// at a given moment is therefore not part of its value: each operation reads the mode,
/// decides on it with a function of [`RealCallMode`], and stores what that function says.
#[derive(Debug)]
pub struct RealCallSwitch {
    mode: Cell<RealCallMode>,
}

impl RealCallSwitch {
    /// Whether the cell of the switch was made holding `mode`.
    pub closed spec fn made_with(&self, mode: RealCallMode) -> bool {
        call_ensures(cell_new::<RealCallMode>, (mode,), self.mode)
    }

    /// Whether `mode` is what a read of the cell of the switch gave.
    pub closed spec fn read_gave(&self, mode: RealCallMode) -> bool {
        call_ensures(cell_get::<RealCallMode>, (&self.mode,), mode)
    }

    /// Whether `mode` was written to the cell of the switch.
    pub closed spec fn stored(&self, mode: RealCallMode) -> bool {
        call_ensures(cell_set::<RealCallMode>, (&self.mode, mode), ())
    }

    /// A switch in the `Inactive` mode.
    pub fn new() -> (switch: Self)
        ensures
            switch.made_with(RealCallMode::Inactive),
    {
        RealCallSwitch { mode: cell_new(RealCallMode::Inactive) }
    }

    /// Says whether the call that asks goes to the real implementation, as
    /// [`RealCallMode::route_call`] decides for the mode found, and stores the mode that
    /// the call leaves behind.
    pub fn should_delegate(&self) -> (delegate: bool)
        ensures
            exists|mode: RealCallMode|
                self.read_gave(mode) && delegate == mode.delegates() && self.stored(
                    mode.after_call(),
                ),
    {
        let mode = cell_get(&self.mode);
        let (delegate, next) = mode.route_call();
        cell_set(&self.mode, next);
        assert(self.read_gave(mode) && delegate == mode.delegates() && self.stored(
            mode.after_call(),
        ));
        delegate
    }

    /// Checks that no delegation scope is open, as [`RealCallMode::check_inactive`] decides
    /// for the mode found. The switch is left as it was.
    pub fn assert_inactive(&self) -> (checked: Result<(), UsageError>)
        ensures
            checked matches Err(err) ==> err == UsageError::SwitchActive,
            exists|mode: RealCallMode| self.read_gave(mode) && checked == mode.checked_inactive(),
    {
        let mode = cell_get(&self.mode);
        assert(self.read_gave(mode));
        mode.check_inactive()
    }

    /// Sets the switch to `target` if [`RealCallMode::open_scope`] allows it for the mode
    /// found; otherwise reports the error and leaves the switch as it was.
    pub fn open(&self, target: RealCallMode) -> (opened: Result<(), UsageError>)
        requires
            target.delegates(),
        ensures
            opened matches Err(err) ==> err == UsageError::SwitchActive,
            exists|mode: RealCallMode|
                self.read_gave(mode) && match mode.opened(target) {
                    Ok(next) => opened == Ok::<(), UsageError>(()) && self.stored(next),
                    Err(err) => opened == Err::<(), UsageError>(err),
                },
    {
        let mode = cell_get(&self.mode);
        assert(self.read_gave(mode));
        match mode.open_scope(target) {
            Ok(next) => {
                cell_set(&self.mode, next);
                assert(self.stored(next));
                Ok(())
            },
            Err(err) => Err(err),
        }
    }

    /// Sets the switch back to `Inactive`, whatever it held.
    pub fn close(&self)
        ensures
            self.stored(RealCallMode::Inactive),
        opens_invariants none
        no_unwind
    {
        let next = cell_get(&self.mode).close_scope();
        cell_set(&self.mode, next);
    }
}

impl Default for RealCallSwitch {
    /// A switch in the `Inactive` mode.
    fn default() -> (switch: Self)
        ensures
            switch.made_with(RealCallMode::Inactive),
    {
        RealCallSwitch::new()
    }
}

/// Checks whether a call has to go to the real implementation instead of the mock.
pub trait CheckRealCall {
    /// Performs the check. Unless overridden, the answer is `false`: always use the mock.
    fn should_call_real(&self) -> (delegate: bool)
        default_ensures
            !delegate,
    {
        false
    }
}

/// Controls delegation to real implementations, for partial mocks and spies.
///
/// Delegation scopes of one switch must not overlap; otherwise it would be unclear which
/// calls exactly go to the real implementation. An attempt to open a second scope is reported
/// as [`UsageError::SwitchActive`].
pub trait CallReal {
    /// The switch of this mock state.
    fn real_switch(&self) -> &RealCallSwitch;

    /// Delegates all calls to the mocked functions to the real implementation until the
    /// returned guard is dropped.
    ///
    /// The result is what [`RealCallGuard::open`] gives for an `Always` scope on the
    /// switch of this state.
    fn call_real(&self) -> (guard: Result<RealCallGuard<'_>, UsageError>)
        ensures
            guard matches Err(err) ==> err == UsageError::SwitchActive,
            exists|switch: &RealCallSwitch|
                call_ensures(Self::real_switch, (self,), switch) && call_ensures(
                    RealCallGuard::open,
                    (switch, RealCallMode::Always),
                    guard,
                ),
    {
        let switch = self.real_switch();
        let guard = RealCallGuard::open(switch, RealCallMode::Always);
        assert(call_ensures(Self::real_switch, (self,), switch) && call_ensures(
            RealCallGuard::open,
            (switch, RealCallMode::Always),
            guard,
        ));
        guard
    }

    /// Delegates the first call to the mocked functions to the real implementation; further
    /// calls go to the mock even while the returned guard is alive.
    ///
    /// The result is what [`RealCallGuard::open`] gives for a `Once` scope on the switch
    /// of this state.
    fn call_real_once(&self) -> (guard: Result<RealCallGuard<'_>, UsageError>)
        ensures
            guard matches Err(err) ==> err == UsageError::SwitchActive,
            exists|switch: &RealCallSwitch|
                call_ensures(Self::real_switch, (self,), switch) && call_ensures(
                    RealCallGuard::open,
                    (switch, RealCallMode::Once),
                    guard,
                ),
    {
        let switch = self.real_switch();
        let guard = RealCallGuard::open(switch, RealCallMode::Once);
        assert(call_ensures(Self::real_switch, (self,), switch) && call_ensures(
            RealCallGuard::open,
            (switch, RealCallMode::Once),
            guard,
        ));
        guard
    }
}

impl<T: CallReal> CheckRealCall for T {
    /// Asks the switch of this state, and so uses up a `Once` scope that is open on it.
    fn should_call_real(&self) -> (delegate: bool)
        ensures
            exists|switch: &RealCallSwitch|
                call_ensures(T::real_switch, (self,), switch) && call_ensures(
                    RealCallSwitch::should_delegate,
                    (switch,),
                    delegate,
                ),
    {
        let switch = self.real_switch();
        let delegate = switch.should_delegate();
        assert(call_ensures(T::real_switch, (self,), switch) && call_ensures(
            RealCallSwitch::should_delegate,
            (switch,),
            delegate,
        ));
        delegate
    }
}

/// Guard of a delegation scope. Dropping it closes the scope.
#[must_use]
#[derive(Debug)]
pub struct RealCallGuard<'a> {
    switch: &'a RealCallSwitch,
}

impl Drop for RealCallGuard<'_> {
    /// Closes the scope: `Inactive` is written to the switch of the guard, whatever it
    /// held.
    fn drop(&mut self)
        ensures
            old(self).switch().stored(RealCallMode::Inactive),
        opens_invariants none
        no_unwind
    {
        self.switch.close();
    }
}

impl<'a> RealCallGuard<'a> {
    /// The switch whose scope the guard closes when it is dropped.
    pub closed spec fn switch(&self) -> &'a RealCallSwitch {
        self.switch
    }

    /// Opens a scope of the kind `target` on `switch`. Fails, and leaves the switch as it
    /// was, if a scope is open on it already. The guard is the guard of `switch`, and
    /// there is one exactly if `switch` let the scope be opened.
    pub fn open(switch: &'a RealCallSwitch, target: RealCallMode) -> (guard: Result<
        RealCallGuard<'a>,
        UsageError,
    >)
        requires
            target.delegates(),
        ensures
            guard matches Err(err) ==> err == UsageError::SwitchActive,
            guard matches Ok(opened) ==> opened.switch() == switch,
            exists|opened: Result<(), UsageError>|
                call_ensures(RealCallSwitch::open, (switch, target), opened) && opened.is_ok()
                    == guard.is_ok(),
    {
        let opened = switch.open(target);
        assert(call_ensures(RealCallSwitch::open, (switch, target), opened));
        match opened {
            Ok(()) => Ok(RealCallGuard { switch }),
            Err(err) => Err(err),
        }
    }

    /// Runs `action` under this guard and then closes the scope, before the guard is
    /// dropped.
    pub fn scope<R, A: FnOnce() -> R>(self, action: A) -> (result: R)
        requires
            call_requires(action, ()),
        ensures
            call_ensures(action, (), result),
            self.switch().stored(RealCallMode::Inactive),
    {
        let result = action();
        self.switch.close();
        result
    }
}

} // verus!
