//! Validation of changes to an OdooInstance whose filestore cannot be moved: its
//! storage class never changes.

use vstd::prelude::*;

use crate::crd::odoo_instance::OdooInstance;
use crate::text::{concat4, debug_quoted, debug_text};
use crate::webhook::{
    admitted, class_text, cluster_denial, cluster_refusal, quantity, refused, size_denial,
    size_refusal, AdmissionRequest, AdmissionResponse,
};

verus! {

/// Why the change of the storage class is refused, if it is: once a class is
/// named it stays.
pub open spec fn class_denial(old: OdooInstance, new: OdooInstance) -> Option<Seq<char>> {
    let a = class_text(old);
    let b = class_text(new);
    if a.len() > 0 && b != a {
        Some(
            "spec.filestore.storageClass: cannot change storage class from "@ + debug_text(a)
                + " to "@ + debug_text(b)
                + "; the filestore PVC is immutable after creation"@,
        )
    } else {
        None
    }
}

/// Why a request is refused, if it is: creations and deletions never are, and of
/// several reasons the first one counts.
pub open spec fn denial(req: AdmissionRequest) -> Option<Seq<char>> {
    match (req.old_object, req.object) {
        (Some(old), Some(new)) => match size_denial(old, new) {
            Some(m) => Some(m),
            None => match cluster_denial(old, new) {
                Some(m) => Some(m),
                None => class_denial(old, new),
            },
        },
        _ => None,
    }
}

/// Validates an admission request.
pub fn validate(req: &AdmissionRequest) -> (r: AdmissionResponse)
    ensures
        r.allowed == (denial(*req) is None),
        denial(*req) matches Some(m) ==> r.message@ == m,
        r.allowed ==> r.message@.len() == 0,
{
    let old = match &req.old_object {
        Some(o) => o,
        None => return admitted(),
    };
    let new = match &req.object {
        Some(o) => o,
        None => return admitted(),
    };
    if let Some(m) = size_refusal(old, new) {
        return refused(m);
    }
    if let Some(m) = cluster_refusal(old, new) {
        return refused(m);
    }
    let old_class = crate::crd::meta::unwrap_or_empty(&old.spec.storage_class());
    let new_class = crate::crd::meta::unwrap_or_empty(&new.spec.storage_class());
    if !old_class.as_str().is_empty() && new_class != old_class {
        let a = debug_quoted(old_class.as_str());
        let b = debug_quoted(new_class.as_str());
        let mut m = concat4(
            "spec.filestore.storageClass: cannot change storage class from ",
            a.as_str(),
            " to ",
            b.as_str(),
        );
        m.append("; the filestore PVC is immutable after creation");
        return refused(m);
    }
    admitted()
}

/// Whatever is admitted keeps the storage class, once one is named.
pub proof fn law_storage_class_is_pinned(old: OdooInstance, new: OdooInstance)
    requires
        class_text(old).len() > 0,
        denial((AdmissionRequest { old_object: Some(old), object: Some(new) })) is None,
    ensures
        class_text(new) == class_text(old),
{
}

/// An update of the storage class alone is admitted exactly if there was none before.
pub proof fn law_storage_classes_are_named_once(req: &AdmissionRequest, r: AdmissionResponse)
    requires
        call_ensures(validate, (req,), r),
        req.old_object matches Some(old) && (old.spec.filestore matches Some(f) && f.storage_size
            is None),
        req.object matches Some(new) && (new.spec.filestore matches Some(f) && f.storage_size
            is None),
        req.old_object->0.spec.database is None,
        req.object->0.spec.database is None,
    ensures
        ({
            let a = match req.old_object->0.spec.filestore->0.storage_class {
                Some(c) => c@,
                None => Seq::empty(),
            };
            let b = match req.object->0.spec.filestore->0.storage_class {
                Some(c) => c@,
                None => Seq::empty(),
            };
            &&& r.allowed <==> a.len() == 0 || a == b
            &&& !r.allowed ==> r.message@
                == "spec.filestore.storageClass: cannot change storage class from "@ + debug_text(a)
                + " to "@ + debug_text(b) + "; the filestore PVC is immutable after creation"@
        }),
{
}

/// The cluster of a database is pinned once it is named, and what an update may do to it
/// does not depend on the filestore.
pub proof fn law_named_clusters_are_pinned(req: &AdmissionRequest, r: AdmissionResponse)
    requires
        call_ensures(validate, (req,), r),
        req.old_object is Some,
        req.object is Some,
    ensures
        ({
            let a = match req.old_object->0.spec.database {
                Some(d) => match d.cluster {
                    Some(c) => c@,
                    None => Seq::empty(),
                },
                None => Seq::empty(),
            };
            let b = match req.object->0.spec.database {
                Some(d) => match d.cluster {
                    Some(c) => c@,
                    None => Seq::empty(),
                },
                None => Seq::empty(),
            };
            &&& a.len() > 0 && a != b ==> !r.allowed
            &&& req.old_object->0.spec.filestore is None && req.object->0.spec.filestore is None
                && (a.len() == 0 || a == b) ==> r.allowed
        }),
{
}

/// A size that is no quantity is refused, whichever of the two it is, and so is a smaller
/// one.
pub proof fn law_filestores_never_shrink(req: &AdmissionRequest, r: AdmissionResponse)
    requires
        call_ensures(validate, (req,), r),
        req.old_object matches Some(old) && (old.spec.filestore matches Some(f) && (
        f.storage_size matches Some(s) && s@.len() > 0)),
        req.object matches Some(new) && (new.spec.filestore matches Some(f) && (
        f.storage_size matches Some(s) && s@.len() > 0)),
    ensures
        ({
            let a = quantity(req.old_object->0.spec.filestore->0.storage_size->0@);
            let b = quantity(req.object->0.spec.filestore->0.storage_size->0@);
            &&& a is Err || b is Err ==> !r.allowed
            &&& a is Ok && b is Ok && a->Ok_0 > b->Ok_0 ==> !r.allowed
        }),
{
}

/// Creations and deletions are admitted, and what is admitted needs no words.
pub proof fn law_creations_and_deletions_are_admitted(
    req: &AdmissionRequest,
    r: AdmissionResponse,
)
    requires
        call_ensures(validate, (req,), r),
    ensures
        req.old_object is None || req.object is None ==> r.allowed,
        r.allowed ==> r.message@.len() == 0,
{
}

} // verus!
