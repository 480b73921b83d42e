//! Decision core of the Odoo operator.

pub mod controller;
pub mod crd;
pub mod decimal;
pub mod diagram;
pub mod error;
pub mod helpers;
pub mod notify;
pub mod options;
pub mod postgres;
pub mod preview;
pub mod secret_data;
pub mod settings;
pub mod text;
pub mod tls;
pub mod webhook;
pub mod webhook_cert_repair;
