//! Anti-forgery tokens, typed requests to the identity provider, and the
//! per-request decisions built on them.
pub mod codec;
pub mod client;
pub mod consent;
pub mod csrf;
pub mod flows;
pub mod json;
pub mod session;
