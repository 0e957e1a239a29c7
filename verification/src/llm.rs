//! The language-model layer: requests, replies, streams and credentials.

pub mod api_error;
pub mod arguments;
pub mod chat_sse;
pub mod chat_stream;
pub mod content;
pub mod convert;
pub mod convert_laws;
pub mod manager;
pub mod message;
pub mod model;
pub mod pending;
pub mod replay;
pub mod reply;
pub mod reply_laws;
pub mod request;
pub mod request_laws;
pub mod response;
pub mod responses_api;
pub mod routing;
pub mod sse;
pub mod stream_event;
pub mod stream_laws;
