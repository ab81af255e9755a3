//! Message handling for a line-oriented JSON-RPC 2.0 endpoint that serves
//! the `initialize` / `ping` handshake: classification of incoming
//! documents, dispatch to the method handlers, construction of responses
//! and their encoding as JSON documents.
pub mod json;
pub mod message;
pub mod response;
pub mod dispatch;
