//! Request pipeline of a user-management service: a closed error taxonomy
//! with its wire mapping, validation of request shapes, the cache-aside
//! listing path, the use-case decision procedures and the capability
//! registry that ties them together.

pub mod cache;
pub mod config;
pub mod dtos;
pub mod entity;
pub mod errors;
pub mod extractors;
pub mod ident;
pub mod password;
pub mod registry;
pub mod response;
pub mod runs;
pub mod stamp;
pub mod store;
pub mod usecases;
pub mod validation;
