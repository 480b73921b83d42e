//! The outputs of each phase.
//!
//! While an instance is in a phase the outputs of that phase are put in place at
//! every reconciliation; they can be repeated at will.

pub mod finalizing_database_migration;
pub mod finalizing_filestore_migration;
pub mod job_states;
pub mod migrating_database;
pub mod migrating_filestore;
pub mod steady;
pub mod uninitialized;

pub use finalizing_database_migration::FinalizingDatabaseMigration;
pub use finalizing_filestore_migration::FinalizingFilestoreMigration;
pub use job_states::{BackingUp, Initializing, Restoring, Upgrading};
pub use migrating_database::MigratingDatabase;
pub use migrating_filestore::MigratingFilestore;
pub use steady::{Degraded, Error, InitFailed, Provisioning, Running, Starting, Stopped};
pub use uninitialized::Uninitialized;
