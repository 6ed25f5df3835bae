//! Values that cross the API boundary.

pub mod product;
pub mod role;
pub mod user;
