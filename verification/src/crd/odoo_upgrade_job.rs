//! OdooUpgradeJob: upgrades or installs modules of an OdooInstance.

use vstd::prelude::*;

use crate::crd::meta::ObjectMeta;
use crate::crd::shared::{JobResourceStatus, OdooInstanceRef, WebhookConfig};

verus! {

/// What an OdooUpgradeJob asks for.
#[derive(Clone, Debug)]
pub struct OdooUpgradeJobSpec {
    pub odoo_instance_ref: OdooInstanceRef,
    pub modules: Vec<String>,
    pub modules_install: Vec<String>,
    pub scheduled_time: Option<String>,
    pub webhook: Option<WebhookConfig>,
}

/// The observed state of a module upgrade.
pub type OdooUpgradeJobStatus = JobResourceStatus;

/// A one-shot module upgrade.
#[derive(Clone, Debug)]
pub struct OdooUpgradeJob {
    pub metadata: ObjectMeta,
    pub spec: OdooUpgradeJobSpec,
    pub status: Option<OdooUpgradeJobStatus>,
}

} // verus!
