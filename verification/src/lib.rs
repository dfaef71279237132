//! Mocking and spying based on lightweight function proxies.
//!
//! Mocking is performed on the level of functions: a mocked function looks up the mock state
//! that a test has set, and hands the call to the mock logic if there is one. The mock
//! logic can do whatever it wants with the arguments, including a call of the real function.
//!
//! The crate provides what this needs at run time: storage for the mock state, either per
//! thread ([`ThreadLocal`]) or for all threads ([`Shared`]); guards that keep a state set
//! and remove it when they are released ([`MockGuard`]); a switch by which the mock logic
//! falls back to the real implementation ([`RealCallSwitch`]); and a generator of answers
//! that records the calls ([`Answers`]).

pub mod answers;
pub mod cells;
pub mod error;
pub mod mock;
pub mod mutable;
pub mod shared;
pub mod slot;
pub mod switch;
pub mod tls;
pub mod traits;

pub use crate::answers::{Answers, AnswersGuard, AnswersSender};
pub use crate::error::{UnconsumedAnswers, UsageError};
pub use crate::mock::{EmptyGuard, Mock, MockGuard, MockRef, Static};
pub use crate::mutable::Mut;
pub use crate::shared::{Shared, SharedGuard, SharedRef};
pub use crate::switch::{CallReal, CheckRealCall, RealCallGuard, RealCallMode, RealCallSwitch};
pub use crate::tls::{ThreadLocal, ThreadLocalGuard, ThreadLocalRef};
pub use crate::traits::{GetMock, Guard, LockMock, SetMock, StateRef, Wrap};
