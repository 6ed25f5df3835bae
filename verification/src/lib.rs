//! The decision core of a marketplace backend.
//!
//! Everything here is pure: the product service and the startup routine are
//! state machines that ask for store or environment work through request
//! values and are resumed with the replies. The surrounding program performs
//! the requests; this crate decides what to ask next and what to answer.

pub mod db;
pub mod models;
pub mod services;
pub mod startup;
pub mod startup_laws;
pub mod store;
pub mod text;
