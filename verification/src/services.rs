//! The services behind the HTTP routes.

pub mod product_laws;
pub mod product_service;
