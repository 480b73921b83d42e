//! The preview controllers.
//!
//! Here each kind of job resource has a controller of its own, which starts the
//! batch job and writes its outcome to the resource; the state machine follows
//! the phases that the resources report.

pub mod job_controller;
pub mod odoo_instance;
pub mod postgres;
pub mod state_machine;
pub mod webhook;
