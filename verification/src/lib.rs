//! The core of a client for the Matrix client-server API: it addresses typed
//! endpoint calls to a homeserver, unifies their failures and keeps the
//! session that a login or a guest registration establishes.

pub mod api;
pub mod client;
pub mod compose;
pub mod dispatch;
pub mod endpoint;
pub mod error;
pub mod session;
pub mod wire;

pub use client::Client;
pub use error::Error;
pub use session::Session;
