//! States that the type system enforces, shown on three small subjects: a
//! vehicle repair order on its way through the workshop, in several designs
//! from loose flags on one record up to one type for each state; paths in
//! the file system; and the making of a user account.

pub mod path;
pub mod repair_order;
pub mod user_api;
