//! Session-based authentication for a small multi-user web application.
//!
//! The crate holds the decisions of the authentication subsystem: hashing and
//! checking credentials, the table of live sessions, the sealed cookie that
//! carries a session token, the per-request guard, and the register, login
//! and logout flows. Transport, storage and rendering are left to the caller,
//! which hands in plain values and acts on the outcomes it gets back.

pub mod codec;
pub mod credential;
pub mod flows;
pub mod guard;
pub mod session;
pub mod token;
pub mod transport;
