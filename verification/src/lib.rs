//! A resource-accounting engine: per-process ledgers of resource allocations,
//! tiered billing per resource kind, and aggregation of cost and penalty for
//! one process or for the whole population.
//!
//! - `domain`: resources and their billing policies, allocations, processes.
//! - `service`: the repositories, the accounting service, and what holds of
//!   them.
//! - `facade`: the calls of a host application on a service that it holds.
//!
//! Beside the engine stand three smaller modules: `game`, a counting game
//! played by a tree of rules; `ddd`, a ledger of customers and orders; and
//! `lac`, the status values of a link-aggregation controller.
//!
//! A repository is changed through `&mut`: the exclusive borrow is what keeps
//! two writers apart. A host that shares processes between threads puts each
//! process behind a lock of its own and calls the functions of `domain` under
//! it.

pub mod ddd;
pub mod domain;
pub mod facade;
pub mod game;
pub mod lac;
pub mod service;
pub mod text;

pub use domain::error::AccountingError;
pub use domain::resource::ResourceType;
pub use facade::compute_all;
pub use facade::compute_all_concurrent;
pub use facade::compute_process;
pub use facade::config_allocation;
pub use facade::config_process;
pub use service::proc_service::ProcService;
pub use service::process_repo::ProcessRepo;
