//! Numeric vectors whose dimension and component type are fixed by their
//! type, with arithmetic that is proved to act on every component as the
//! component type's own arithmetic does.

pub mod algebra;
pub mod exact;
pub mod num_traits;
pub mod vector;
