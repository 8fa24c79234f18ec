//! A smart-home device registry with a line-oriented text command protocol.
//!
//! The registry (`home::Home`) holds named sockets and thermometers in two
//! independent namespaces and offers atomic create-if-absent and
//! mutate-if-present operations. Incoming command lines are split on the
//! `|||` field separator (`request::Request`), dispatched
//! (`handler::RequestHandler`), and answered with a fixed set of response
//! strings. `client` builds the outgoing command lines.

pub mod builder;
pub mod client;
pub mod devices;
pub mod handler;
pub mod home;
pub mod request;
pub mod server;
pub mod strutil;
