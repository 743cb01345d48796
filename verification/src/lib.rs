//! Verified core of the Tiplink wallet gateway: session tokens, the
//! request-handling decisions of the signup, signin and swap endpoints, the
//! upstream request texts they build, and the dealer ceremony that provisions
//! sharded wallets.

pub mod text;
pub mod records;
pub mod time;
pub mod ids;
pub mod session;
pub mod encoding;
pub mod json;
pub mod http;
pub mod password;
pub mod auth;
pub mod jupiter;
pub mod ceremony;
