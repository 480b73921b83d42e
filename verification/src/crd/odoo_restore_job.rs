//! OdooRestoreJob: restores an OdooInstance from a backup artifact.

use vstd::prelude::*;

use crate::crd::meta::ObjectMeta;
use crate::crd::shared::{
    BackupFormat, JobResourceStatus, OdooInstanceRef, S3Config, WebhookConfig,
};

verus! {

/// Where the backup artifact comes from.
#[derive(Clone, Copy, Debug, PartialEq, Eq, Structural)]
pub enum RestoreSourceType {
    S3,
    Odoo,
}

/// A running Odoo instance whose backup endpoint provides the artifact.
#[derive(Clone, Debug)]
pub struct OdooLiveSource {
    pub url: String,
    pub source_database: Option<String>,
    pub master_password: Option<String>,
}

/// The source of the backup artifact.
#[derive(Clone, Debug)]
pub struct RestoreSource {
    pub source_type: RestoreSourceType,
    pub s3: Option<S3Config>,
    pub odoo: Option<OdooLiveSource>,
}

/// What an OdooRestoreJob asks for.
#[derive(Clone, Debug)]
pub struct OdooRestoreJobSpec {
    pub odoo_instance_ref: OdooInstanceRef,
    pub source: RestoreSource,
    pub format: BackupFormat,
    pub neutralize: bool,
    pub webhook: Option<WebhookConfig>,
}

/// The observed state of a restore.
pub type OdooRestoreJobStatus = JobResourceStatus;

/// A one-shot restore.
#[derive(Clone, Debug)]
pub struct OdooRestoreJob {
    pub metadata: ObjectMeta,
    pub spec: OdooRestoreJobSpec,
    pub status: Option<OdooRestoreJobStatus>,
}

} // verus!
