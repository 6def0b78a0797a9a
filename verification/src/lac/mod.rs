//! The link-aggregation controller: what its chip SDK answers, and the
//! controller's own entry points.

pub mod ffi;
pub mod intf;
