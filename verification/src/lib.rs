//! A gateway in front of a remote chat-completion API: the decisions it takes
//! on a request, the request it sends upstream, and what it makes of the reply.

pub mod config;
pub mod dispatch;
pub mod forwarder;
pub mod json;
pub mod laws;
pub mod response;
pub mod schema;
pub mod store;
pub mod text;
pub mod transformer;
