//! The lifecycle of spells on a node: who may install, remove or
//! reconfigure one, in what order a spell's service, its registry entry, its
//! stored fields and its triggers come into being and go, and what is done
//! when a step fails.
//!
//! The library decides and keeps the registry; it performs no call itself.
//! An operation is started by the function that bears its name and then
//! stands at a request: to create or remove a service, to call a function of
//! the spell, to bind or remove triggers. Whoever runs the operation performs
//! the request and hands the outcome to `advance`, which says what comes
//! next, until the operation is `Done`.
//!
//! - [`permission`]: the roles of a caller and the policy that goes by them.
//! - [`registry`]: which spells are installed on which worker.
//! - [`service`]: the requests an operation makes and the events that answer
//!   them.
//! - [`install`], [`remove`], [`update`]: the operations that change
//!   something.
//! - [`inspect`]: the operations that read, and those that store a record.
//! - [`model`], [`laws`]: what holds of whole runs of the operations.

pub mod context;
pub mod error;
pub mod identity;
pub mod inspect;
pub mod install;
pub mod json;
pub mod laws;
pub mod message;
pub mod model;
pub mod permission;
pub mod registry;
pub mod remove;
pub mod service;
pub mod step;
pub mod text;
pub mod trigger;
pub mod update;
