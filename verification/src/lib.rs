//! A deterministic-time-slicing (DTS) code-installation state machine for
//! stateful compute units ("canisters"), together with the round-local
//! resource accounting it depends on and the compiled-module sharing cache
//! it consumes.
//!
//! One logical install/reinstall operation may span several scheduling
//! rounds: whenever the per-slice instruction budget runs out mid-execution,
//! the machine returns a stage-tagged continuation that the scheduler stores
//! and later resumes.  The result of the operation is independent of how it
//! was sliced, and a failed operation leaves the target unit's durable state
//! untouched.

pub mod cache;
pub mod canister_state;
pub mod config;
pub mod engine;
pub mod execution_parameters;
pub mod hypervisor;
pub mod install;
pub mod module;
pub mod proto;
pub mod round_limits;
pub mod types;
