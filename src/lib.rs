//! A small message board: form decoding, time-range filters, HTML and JSON
//! responses, and the per-request decisions of the HTTP service.

pub mod models;
pub mod text;
pub mod form;
pub mod query;
pub mod response;
pub mod service;
