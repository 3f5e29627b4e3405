//! Runs vessels, which are WebAssembly modules, in a web page.
//!
//! A vessel asks its host for bytes from a reader and hands bytes to a writer. The decisions of
//! the host stand here: how a vessel is started ([`startup`]), what a poll of it calls
//! ([`poll`]), what its own calls are answered ([`context`]), how it learns that an operation can
//! go on ([`wakeup`]), whom to wake ([`task`]) and how a failure ends it ([`failure`]). [`life`]
//! puts them together, from a vessel's start to its end, and [`laws`] states what holds of that.
pub mod context;
pub mod failure;
pub mod laws;
pub mod life;
pub mod operation;
pub mod poll;
pub mod runtime;
pub mod startup;
pub mod task;
pub mod wakeup;

pub use runtime::WebRuntime;
