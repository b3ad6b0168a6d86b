//! What holds of whole runs of the operations, whatever events answer their
//! requests. Each law is stated over the runs of [`crate::model`] and proved
//! from what the operations' own contracts say.

pub mod authorization;
pub mod consistency;
pub mod install;
pub mod order;
pub mod remove;
pub mod round_trip;
pub mod scoping;
pub mod update;
