//! Decisions of the controller.

pub mod child_resources;
pub mod filestore_migration;
pub mod gc;
pub mod helpers;
pub mod job_manifests;
pub mod jobs;
pub mod manifests;
pub mod odoo_instance;
pub mod state_machine;
pub mod states;
