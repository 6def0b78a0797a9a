//! The data model: resources and their billing policies, allocations, processes.

pub mod allocation;
pub mod error;
pub mod process;
pub mod resource;
