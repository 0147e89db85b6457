//! A small library for a cat-breed lookup service: a capability interface
//! over an external breed-search API, the request handler's decision logic,
//! and the service's error mapping, all with verified contracts.

pub mod handler;
pub mod query_encoding;
pub mod the_cat_api;
