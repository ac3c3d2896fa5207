//! Membership verification for a community chat server.
//!
//! The crate holds the decisions of the verification workflow: which step an
//! inbound token names, what each step asks of the roster store, the external
//! roster and the role gateway, and what it answers. The host performs the
//! requests and hands the results back.

pub mod decimal;
pub mod dispatch;
pub mod ea;
pub mod fresher;
pub mod laws;
pub mod notes;
pub mod notice;
pub mod records;
pub mod roles;
pub mod store;
pub mod text;
pub mod token;
pub mod url_check;
pub mod verify;
pub mod webhook;
pub mod world;
