//! A language negotiation engine for HTTP services.
//!
//! The crate decides, per request, which natural language to serve, from
//! four sources tried in strict precedence order: a custom resolver's
//! outcome, a designated URL path segment, the `Accept-Language` header,
//! and a configured wildcard.  The decision logic is pure: callers hand it
//! plain values (the header text, the path segments, the custom resolver's
//! outcome) and get back a [`LangCode`] or an [`Error`].

pub mod accept_language;
pub mod config;
pub mod error;
pub mod lang;
pub mod url;

pub use config::Config;
pub use error::spec_status;
pub use error::Error;
pub use lang::LangCode;
