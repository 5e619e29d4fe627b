//! Verified core of a resource-download web service.
//!
//! The crate models the transport layer of the service as plain data and
//! verified decision functions: an explicit route table with an
//! authorization gate, pagination defaults, per-endpoint request handlers
//! that turn typed parameters into resource-service calls and map service
//! replies to HTTP statuses, and the file-upload ingestion policy
//! (content-type checks, extension allow-lists, collision-free storage
//! names). The HTTP server, the filesystem and the resource service sit
//! outside this crate and exchange plain values with it.

pub mod auth;
pub mod dto;
pub mod error;
pub mod handlers;
pub mod ids;
pub mod pagination;
pub mod routes;
pub mod text;
pub mod upload;
