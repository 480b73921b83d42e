//! OdooInitJob: a one-shot database initialisation of an OdooInstance.

use vstd::prelude::*;

use crate::crd::meta::ObjectMeta;
use crate::crd::shared::{JobResourceStatus, OdooInstanceRef, WebhookConfig};

verus! {

/// What an OdooInitJob asks for.
#[derive(Clone, Debug)]
pub struct OdooInitJobSpec {
    pub odoo_instance_ref: OdooInstanceRef,
    pub modules: Vec<String>,
    pub demo: bool,
    pub webhook: Option<WebhookConfig>,
}

/// The observed state of a database initialisation.
pub type OdooInitJobStatus = JobResourceStatus;

/// A one-shot database initialisation.
#[derive(Clone, Debug)]
pub struct OdooInitJob {
    pub metadata: ObjectMeta,
    pub spec: OdooInitJobSpec,
    pub status: Option<OdooInitJobStatus>,
}

/// The modules that are installed where none are named.
pub fn default_modules() -> (r: Vec<String>)
    ensures
        r@.len() == 1,
        r@[0]@ == "base"@,
{
    vec!["base".to_owned()]
}

} // verus!
