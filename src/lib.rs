//! Supervision of the companion process of the SOP desktop backend: launch,
//! readiness polling, and the typed request bridge, with the record and
//! document types that the rest of the backend shares.

pub mod bridge;
pub mod commands;
pub mod document;
pub mod error;
pub mod json;
pub mod readiness;
pub mod records;
pub mod supervisor;
