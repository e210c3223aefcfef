//! An HTTP request pipeline: admission by declared length, buffering of the
//! body into text, routing to a handler, and conversion of what the handler
//! gave into a response with a status, a content type and a content length.

pub mod body;
pub mod closed;
pub mod decimal;
pub mod error;
pub mod internal_helper;
pub mod path;
pub mod request;
pub mod response;
pub mod router;
pub mod server;
pub mod service;

pub use error::BoxError;
