//! A small HTTP/1.1 server core: the request parser, the response builder and
//! serializer, and the router, each with a contract that Verus proves.
//!
//! Sockets, threads and the file system stay outside. The functions here take
//! the bytes that were read and give back the bytes to write.

pub mod api_endpoint;
pub mod api_endpoint_manager;
pub mod bytes;
pub mod error;
pub mod headers;
pub mod http_utils;
pub mod request;
pub mod response;
pub mod run;
pub mod status;
