//! Names and references that several parts of the controller share.

use vstd::prelude::*;

use crate::controller::manifests::{OwnerReference, OwnerReferenceView};
use crate::crd::meta::{text_or_empty, unwrap_or_empty};
use crate::crd::odoo_instance::OdooInstance;
use crate::text::concat2;

verus! {

/// The reference by which an instance controls what belongs to it.
pub open spec fn owner_of(instance: OdooInstance) -> OwnerReferenceView {
    OwnerReferenceView {
        api_version: "bemade.org/v1alpha1"@,
        kind: "OdooInstance"@,
        name: instance.metadata.name_text(),
        uid: text_or_empty(instance.metadata.uid),
        controller: Some(true),
        block_owner_deletion: Some(true),
    }
}

/// Makes the reference by which an instance controls what belongs to it.
pub fn controller_owner_ref(instance: &OdooInstance) -> (r: OwnerReference)
    ensures
        r@ == owner_of(*instance),
{
    OwnerReference {
        api_version: "bemade.org/v1alpha1".to_owned(),
        kind: "OdooInstance".to_owned(),
        name: instance.metadata.name_any(),
        uid: unwrap_or_empty(&instance.metadata.uid),
        controller: Some(true),
        block_owner_deletion: Some(true),
    }
}

/// The claim on the filestore volume of an instance.
pub open spec fn claim_text(instance_name: Seq<char>) -> Seq<char> {
    instance_name + "-filestore-pvc"@
}

/// The claim that a filestore migration copies to.
pub open spec fn temp_claim_text(instance_name: Seq<char>) -> Seq<char> {
    instance_name + "-filestore-pvc-temp"@
}

/// The ConfigMap of an instance.
pub open spec fn conf_map_text(instance_name: Seq<char>) -> Seq<char> {
    instance_name + "-odoo-conf"@
}

/// The Secret with the database credentials of an instance.
pub open spec fn user_secret_text(instance_name: Seq<char>) -> Seq<char> {
    instance_name + "-odoo-user"@
}

/// The claim on the filestore volume of an instance.
pub fn claim_name(instance_name: &str) -> (r: String)
    ensures
        r@ == claim_text(instance_name@),
{
    concat2(instance_name, "-filestore-pvc")
}

/// The claim that a filestore migration copies to.
pub fn temp_claim_name(instance_name: &str) -> (r: String)
    ensures
        r@ == temp_claim_text(instance_name@),
{
    concat2(instance_name, "-filestore-pvc-temp")
}

/// The ConfigMap of an instance.
pub fn conf_map_name(instance_name: &str) -> (r: String)
    ensures
        r@ == conf_map_text(instance_name@),
{
    concat2(instance_name, "-odoo-conf")
}

/// The Secret with the database credentials of an instance.
pub fn user_secret_name(instance_name: &str) -> (r: String)
    ensures
        r@ == user_secret_text(instance_name@),
{
    concat2(instance_name, "-odoo-user")
}

/// The image that an instance runs, or the standard one.
pub open spec fn image_text(instance: OdooInstance) -> Seq<char> {
    match instance.spec.image {
        Some(i) => i@,
        None => "odoo:18.0"@,
    }
}

/// The image that an instance runs, or the standard one.
pub fn image_of(instance: &OdooInstance) -> (r: String)
    ensures
        r@ == image_text(*instance),
{
    match &instance.spec.image {
        Some(i) => i.clone(),
        None => "odoo:18.0".to_owned(),
    }
}

/// The claim of an instance and the one that its filestore is copied to have
/// different names.
pub proof fn law_claims_are_distinct(instance_name: Seq<char>)
    ensures
        claim_text(instance_name) != temp_claim_text(instance_name),
{
    reveal_strlit("-filestore-pvc");
    reveal_strlit("-filestore-pvc-temp");
    assert(claim_text(instance_name).len() != temp_claim_text(instance_name).len());
}

/// What belongs to an instance refers to it: by its kind, its name and its UID, as its
/// controller.
pub proof fn law_children_refer_to_the_instance(instance: &OdooInstance, r: OwnerReference)
    requires
        call_ensures(controller_owner_ref, (instance,), r),
    ensures
        r@.api_version == "bemade.org/v1alpha1"@,
        r@.kind == "OdooInstance"@,
        r@.name == instance.metadata.name_text(),
        instance.metadata.uid matches Some(u) ==> r@.uid == u@,
        r@.controller == Some(true),
        r@.block_owner_deletion == Some(true),
{
}

/// The names of what belongs to an instance begin with the name of the instance.
pub proof fn law_children_are_named_after_the_instance(
    instance_name: &str,
    claim: String,
    temp: String,
    conf: String,
    secret: String,
)
    requires
        call_ensures(claim_name, (instance_name,), claim),
        call_ensures(temp_claim_name, (instance_name,), temp),
        call_ensures(conf_map_name, (instance_name,), conf),
        call_ensures(user_secret_name, (instance_name,), secret),
    ensures
        claim@ == instance_name@ + "-filestore-pvc"@,
        temp@ == instance_name@ + "-filestore-pvc-temp"@,
        conf@ == instance_name@ + "-odoo-conf"@,
        secret@ == instance_name@ + "-odoo-user"@,
{
}

/// An instance runs the image that its spec names, and the standard one where it names
/// none.
pub proof fn law_instances_run_the_image_they_name(instance: &OdooInstance, r: String)
    requires
        call_ensures(image_of, (instance,), r),
    ensures
        instance.spec.image matches Some(i) ==> r@ == i@,
        instance.spec.image is None ==> r@ == "odoo:18.0"@,
{
}

} // verus!
