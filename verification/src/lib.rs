//! Verified core of a WASI preview 1 bridge served to a web view over a
//! custom protocol: request routing, request decoding and response framing.

pub mod method;
pub mod decimal;
pub mod route;
pub mod response;
pub mod request;
pub mod options;
pub mod calls;
