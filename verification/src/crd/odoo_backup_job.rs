//! OdooBackupJob: a one-shot backup of an OdooInstance to an object store.

use vstd::prelude::*;

use crate::crd::meta::ObjectMeta;
use crate::crd::shared::{
    BackupFormat, JobResourceStatus, OdooInstanceRef, SecretReference, WebhookConfig,
};

verus! {

/// Where the backup artifact is stored.
#[derive(Clone, Debug)]
pub struct BackupDestination {
    pub bucket: String,
    pub object_key: String,
    pub endpoint: String,
    pub region: Option<String>,
    pub insecure: bool,
    pub s3_credentials_secret_ref: Option<SecretReference>,
}

/// What an OdooBackupJob asks for.
#[derive(Clone, Debug)]
pub struct OdooBackupJobSpec {
    pub odoo_instance_ref: OdooInstanceRef,
    pub destination: BackupDestination,
    pub format: BackupFormat,
    pub with_filestore: bool,
    pub webhook: Option<WebhookConfig>,
}

/// The observed state of a backup.
pub type OdooBackupJobStatus = JobResourceStatus;

/// A one-shot backup.
#[derive(Clone, Debug)]
pub struct OdooBackupJob {
    pub metadata: ObjectMeta,
    pub spec: OdooBackupJobSpec,
    pub status: Option<OdooBackupJobStatus>,
}

} // verus!
