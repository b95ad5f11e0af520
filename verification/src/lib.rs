//! Access to a personal-information store of calendars, events and reminders.
//!
//! The store itself is an external service reached through an asynchronous,
//! callback-based interface.  This crate holds everything around that service
//! that can be stated and checked: the plain value types that operations
//! exchange, the error taxonomy, the authorization gate that every operation
//! must pass, calendar-title resolution, partial-update semantics, the
//! ordering of fetched events, and a session state machine that sequences
//! each operation as: check authorization, resolve targets, perform the
//! native operation, translate the result.

pub mod auth;
pub mod calendars;
pub mod cli;
pub mod clock;
pub mod errors;
pub mod ids;
pub mod model;
pub mod ordering;
pub mod session;
pub mod types;
pub mod updates;
