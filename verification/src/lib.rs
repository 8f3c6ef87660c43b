//! A pluggable application bootstrap runtime.
//!
//! The crate sequences the start of an application: it assembles the shared
//! context, runs the customization's and the extensions' lifecycle callbacks
//! in their registered order, folds the route surface through the
//! augmentation callbacks, and prepares the surface for the listener.
//!
//! Every effect that is not a callback (loading configuration, opening a
//! connection, binding a socket) is performed by the host. The library
//! decides what is done next and what each outcome means.
//!
//! - [`context`] and [`environment`]: what every callback is handed.
//! - [`hooks`]: the traits that applications implement, and the invocation
//!   of their callbacks.
//! - [`lifecycle`]: the stages, actions and events of a boot and the
//!   transition between them.
//! - [`orchestrator`]: the state of one boot.
//! - [`laws`]: what is proved of every boot.
//! - [`serve`]: the listener's address and the path normalization.
//! - [`error`]: why a boot is aborted.

pub mod context;
pub mod environment;
pub mod error;
pub mod hooks;
pub mod laws;
pub mod lifecycle;
pub mod orchestrator;
pub mod serve;
