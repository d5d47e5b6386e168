//! Client side of a message queue that is spoken to over HTTP with peek-lock
//! semantics, together with the token cache that authorizes each request.
//!
//! The library decides and computes; it performs no input or output itself.
//! Each queue operation is offered as the request to dispatch and as the
//! reading of the reply that came back.

pub mod decimal;
pub mod http;
pub mod client_authentication;
pub mod sbclient;
pub mod consumer;
pub mod percent;
pub mod identifiers;
pub mod aadclient;
pub mod messages;
pub mod producer;
