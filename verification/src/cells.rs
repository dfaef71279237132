//! Bindings to the interior-mutability, locking and lazy-initialization primitives that
//! the storage strategies are built from.
//!
//! Nothing in this module is proved. What sits behind a shared reference to a cell or a lock
//! may change between any two calls, so the bindings promise nothing about the values they
//! hand out; verified code treats every such value as arbitrary and decides on it with
//! functions whose contracts are exact. What the bindings do claim is that the calls made
//! when a guard is dropped return without a panic.

use vstd::prelude::*;
use std::cell::{Cell, Ref, RefCell, RefMut};
use parking_lot::lock_api;
use thread_local::ThreadLocal as PerThread;

verus! {

/// `std::cell::Cell`, opaque to the verifier.
#[verifier::external_type_specification]
#[verifier::external_body]
#[verifier::reject_recursive_types(T)]
pub struct ExCell<T: ?Sized>(Cell<T>);

/// `Cell::new`: a cell that holds `value`.
#[verifier::external_body]
pub(crate) fn cell_new<T>(value: T) -> (cell: Cell<T>) {
    Cell::new(value)
}

/// `Cell::get`: a copy of whatever the cell holds at the time of the call. Does not panic.
#[verifier::external_body]
pub(crate) fn cell_get<T: Copy>(cell: &Cell<T>) -> (value: T)
    opens_invariants none
    no_unwind
{
    cell.get()
}

/// `Cell::set`: stores `value` in the cell. Does not panic.
#[verifier::external_body]
pub(crate) fn cell_set<T: Copy>(cell: &Cell<T>, value: T)
    opens_invariants none
    no_unwind
{
    cell.set(value)
}

/// `std::cell::RefCell`, opaque to the verifier.
#[verifier::external_type_specification]
#[verifier::external_body]
#[verifier::reject_recursive_types(T)]
pub struct ExRefCell<T: ?Sized>(RefCell<T>);

/// `std::cell::Ref`: a shared borrow of what a `RefCell` holds, which lasts as long as
/// this value.
#[verifier::external_type_specification]
#[verifier::external_body]
#[verifier::reject_recursive_types(T)]
pub struct ExRef<'b, T: ?Sized>(Ref<'b, T>);

/// `std::cell::RefMut`: an exclusive borrow of what a `RefCell` holds, which lasts as long
/// as this value.
#[verifier::external_type_specification]
#[verifier::external_body]
#[verifier::reject_recursive_types(T)]
pub struct ExRefMut<'b, T: ?Sized + 'b>(RefMut<'b, T>);

/// `RefCell::new`: a cell that holds `value` and is not borrowed.
#[verifier::external_body]
pub(crate) fn refcell_new<T>(value: T) -> (cell: RefCell<T>) {
    RefCell::new(value)
}

/// `RefCell::into_inner`: what the cell holds.
#[verifier::external_body]
pub(crate) fn refcell_into_inner<T>(cell: RefCell<T>) -> (value: T) {
    cell.into_inner()
}

/// `RefCell::get_mut`: what the cell holds, through a reference that rules out any borrow.
#[verifier::external_body]
pub(crate) fn refcell_get_mut<T>(cell: &mut RefCell<T>) -> (value: &mut T) {
    cell.get_mut()
}

/// `RefCell::try_borrow`: a shared borrow of what the cell holds, unless it is borrowed
/// exclusively at the time of the call.
#[verifier::external_body]
pub(crate) fn refcell_try_borrow<'a, T>(cell: &'a RefCell<T>) -> (borrow: Option<Ref<'a, T>>) {
    cell.try_borrow().ok()
}

/// `RefCell::try_borrow_mut`: an exclusive borrow of what the cell holds, unless it is
/// borrowed in any way at the time of the call. Does not panic.
#[verifier::external_body]
pub(crate) fn refcell_try_borrow_mut<'a, T>(cell: &'a RefCell<T>) -> (borrow: Option<
    RefMut<'a, T>,
>)
    opens_invariants none
    no_unwind
{
    cell.try_borrow_mut().ok()
}

/// `Deref::deref` of `std::cell::Ref`: the borrowed value.
#[verifier::external_body]
pub(crate) fn ref_target<'a, 'b, T>(borrow: &'a Ref<'b, T>) -> (target: &'a T) {
    &**borrow
}

/// `DerefMut::deref_mut` of `std::cell::RefMut`: the borrowed value. Does not panic.
#[verifier::external_body]
pub(crate) fn ref_mut_target<'a, 'b, T>(borrow: &'a mut RefMut<'b, T>) -> (target: &'a mut T)
    opens_invariants none
    no_unwind
{
    &mut **borrow
}

/// `thread_local::ThreadLocal`, opaque to the verifier.
#[verifier::external_type_specification]
#[verifier::external_body]
#[verifier::reject_recursive_types(T)]
pub struct ExPerThread<T: Send>(PerThread<T>);

/// `thread_local::ThreadLocal::new`: storage in which no thread has an entry yet.
#[verifier::external_body]
pub(crate) fn per_thread_new<T: Send>() -> (storage: PerThread<T>) {
    PerThread::new()
}

/// `thread_local::ThreadLocal::get_or_default`: the entry of the calling thread, made with
/// `T::default()` by the first call on that thread.
#[verifier::external_body]
pub(crate) fn per_thread_get_or_default<T: Send + Default>(storage: &PerThread<T>) -> (entry:
    &T) {
    storage.get_or_default()
}

/// `lock_api::Mutex`, the type behind `parking_lot::Mutex`, opaque to the verifier.
#[verifier::external_type_specification]
#[verifier::external_body]
#[verifier::reject_recursive_types(R)]
#[verifier::reject_recursive_types(T)]
pub struct ExMutex<R, T: ?Sized>(lock_api::Mutex<R, T>);

/// `parking_lot::RawMutex`, the lock inside a `parking_lot::Mutex`.
#[verifier::external_type_specification]
#[verifier::external_body]
pub struct ExRawMutex(parking_lot::RawMutex);

/// A held `parking_lot::Mutex`: owns the `MutexGuard`, so the lock is released when this
/// value is dropped. Between `mutex_lock` and that moment nobody else reaches the
/// protected value.
///
/// The guard is kept in a struct of this crate, opaque as a whole, because its own type is
/// declared with a bound on a trait of `lock_api`.
#[derive(Debug)]
#[verifier::external_body]
#[verifier::reject_recursive_types(T)]
pub struct Locked<'a, T> {
    guard: parking_lot::MutexGuard<'a, T>,
}

/// `parking_lot::Mutex::new`: an unlocked mutex that protects `value`.
#[verifier::external_body]
pub(crate) fn mutex_new<T>(value: T) -> (mutex: parking_lot::Mutex<T>) {
    parking_lot::Mutex::new(value)
}

/// `parking_lot::Mutex::lock`: waits until the mutex is free and takes it. A thread that
/// holds the mutex already waits for itself, forever. Nothing is promised about the value
/// found under the lock.
#[verifier::external_body]
pub(crate) fn mutex_lock<'a, T>(mutex: &'a parking_lot::Mutex<T>) -> (held: Locked<'a, T>) {
    Locked { guard: mutex.lock() }
}

/// `DerefMut::deref_mut` of `parking_lot::MutexGuard`: the protected value.
#[verifier::external_body]
pub(crate) fn locked_target<'a, 'b, T>(held: &'a mut Locked<'b, T>) -> (target: &'a mut T) {
    &mut *held.guard
}

/// `lock_api::ReentrantMutex`, the type behind `parking_lot::ReentrantMutex`, opaque to the
/// verifier.
#[verifier::external_type_specification]
#[verifier::external_body]
#[verifier::reject_recursive_types(R)]
#[verifier::reject_recursive_types(G)]
#[verifier::reject_recursive_types(T)]
pub struct ExReentrantMutex<R, G, T: ?Sized>(lock_api::ReentrantMutex<R, G, T>);

/// `parking_lot::RawThreadId`, by which a `parking_lot::ReentrantMutex` knows its owner.
#[verifier::external_type_specification]
#[verifier::external_body]
pub struct ExRawThreadId(parking_lot::RawThreadId);

/// A held `parking_lot::ReentrantMutex`: owns the `ReentrantMutexGuard`, so the lock is
/// given back when this value is dropped. The thread that holds the mutex may take it again
/// any number of times; other threads wait.
///
/// The guard is kept in a struct of this crate, opaque as a whole, because its own type is
/// declared with bounds on traits of `lock_api`.
#[derive(Debug)]
#[verifier::external_body]
#[verifier::reject_recursive_types(T)]
pub struct ReentrantLocked<'a, T> {
    guard: parking_lot::ReentrantMutexGuard<'a, T>,
}

/// `parking_lot::ReentrantMutex::new`: an unlocked mutex that protects `value`.
#[verifier::external_body]
pub(crate) fn reentrant_mutex_new<T>(value: T) -> (mutex: parking_lot::ReentrantMutex<T>) {
    parking_lot::ReentrantMutex::new(value)
}

/// `parking_lot::ReentrantMutex::lock`: waits until no other thread holds the mutex and
/// takes it; returns at once if the calling thread holds it already. It panics only when
/// the count of the locks that one thread holds at a time overflows a `usize`, which takes
/// more held locks than memory has room for.
#[verifier::external_body]
pub(crate) fn reentrant_mutex_lock<'a, T>(mutex: &'a parking_lot::ReentrantMutex<T>) -> (held:
    ReentrantLocked<'a, T>)
    opens_invariants none
    no_unwind
{
    ReentrantLocked { guard: mutex.lock() }
}

/// `Deref::deref` of `parking_lot::ReentrantMutexGuard`: the protected value. Does not
/// panic.
#[verifier::external_body]
pub(crate) fn reentrant_locked_target<'a, 'b, T>(held: &'a ReentrantLocked<'b, T>) -> (target:
    &'a T)
    opens_invariants none
    no_unwind
{
    &*held.guard
}

/// `once_cell::sync::OnceCell`, opaque to the verifier.
#[verifier::external_type_specification]
#[verifier::external_body]
#[verifier::reject_recursive_types(T)]
pub struct ExOnceCell<T>(once_cell::sync::OnceCell<T>);

/// `once_cell::sync::OnceCell::new`: an empty cell.
#[verifier::external_body]
pub(crate) fn once_cell_new<T>() -> (cell: once_cell::sync::OnceCell<T>) {
    once_cell::sync::OnceCell::new()
}

/// `once_cell::sync::OnceCell::get_or_init` with `T::default`: what the cell holds, after
/// filling it with `T::default()` if it was empty. The cell is filled once, whichever
/// thread comes first. `T::default()` must not come back to the same cell.
#[verifier::external_body]
pub(crate) fn once_cell_get_or_default<T: Default>(cell: &once_cell::sync::OnceCell<T>) -> (value:
    &T) {
    cell.get_or_init(T::default)
}

/// `Arc::clone`: another pointer to the same allocation, so that both point to one and
/// the same value.
#[verifier::external_body]
pub(crate) fn arc_clone<T>(pointer: &std::sync::Arc<T>) -> (cloned: std::sync::Arc<T>)
    ensures
        cloned == *pointer,
{
    std::sync::Arc::clone(pointer)
}

} // verus!
