//! Deterministic lifecycle management for spawned operating-system processes.
//!
//! A [`ProcGuard`] binds a process handle to a [`ProcessTermination`] strategy
//! and fires that strategy at most once. The strategy itself is interpreted by
//! [`terminate`], a total transition function: it names the next operation to
//! perform on the process and, given what that operation reported, either the
//! operation after it or the final result. The signal and bounded-wait
//! primitives of both operating-system families are decided here as well; the
//! system calls themselves are made by the caller.
//!
//! - [`strategy`]: the nine strategies and what each is made of.
//! - [`engine`]: the transition function and the operations and events it
//!   speaks in.
//! - [`run`]: whole terminations, and what holds of every one of them.
//! - [`guard`]: the guard and its terminate-once rule.
//! - [`platform`]: interrupt delivery and the bounded wait, per family.
//! - [`error`]: the failures.

pub mod engine;
pub mod error;
pub mod guard;
pub mod platform;
pub mod run;
pub mod strategy;

pub use engine::terminate;
pub use engine::Action;
pub use engine::Event;
pub use engine::Step;
pub use error::Error;
pub use guard::GuardState;
pub use guard::ProcGuard;
pub use platform::send_ctrl_c;
pub use strategy::ProcessTermination;
