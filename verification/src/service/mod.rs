//! Repositories of processes, and the accounting service on top of them.

pub mod model;
pub mod proc_repo;
pub mod proc_service;
pub mod process_repo;
