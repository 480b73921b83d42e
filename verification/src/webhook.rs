//! Validation of changes to an OdooInstance.
//!
//! An update is refused when it would
//! - decrease the filestore size (a volume claim cannot shrink),
//! - move a database that is pinned to a PostgreSQL cluster, or
//! - change the storage class while the instance is in a phase in which the
//!   filestore cannot be migrated.

use vstd::prelude::*;

use crate::crd::meta::opt_text;
use crate::crd::odoo_instance::{OdooInstance, OdooInstancePhase};
use crate::decimal::{all_digits, decimal_value, scale_literal, scaled_literal};
use crate::text::{
    concat2, concat3, concat4, debug_quoted, debug_text, same_text, string_of, trim_chars, trimmed,
};

verus! {

// ── Quantities ───────────────────────────────────────────────────────────────

/// Whether a character is a decimal digit.
pub open spec fn is_digit(c: char) -> bool {
    '0' <= c <= '9'
}

/// Whether a character may stand in the numeric part of a quantity.
pub open spec fn is_numeric(c: char) -> bool {
    is_digit(c) || c == '.'
}

/// The length of the numeric part at the beginning of a quantity.
pub open spec fn numeric_len(s: Seq<char>) -> nat
    decreases s.len(),
{
    if s.len() > 0 && is_numeric(s[0]) {
        1 + numeric_len(s.drop_first())
    } else {
        0
    }
}

/// The position of the first decimal point, or the length.
pub open spec fn point_at(s: Seq<char>) -> nat
    decreases s.len(),
{
    if s.len() > 0 && s[0] != '.' {
        1 + point_at(s.drop_first())
    } else {
        0
    }
}

/// The digits before the decimal point.
pub open spec fn integer_digits(s: Seq<char>) -> Seq<char> {
    s.take(point_at(s) as int)
}

/// The digits after the decimal point.
pub open spec fn fraction_digits(s: Seq<char>) -> Seq<char> {
    if point_at(s) < s.len() {
        s.skip(point_at(s) as int + 1)
    } else {
        Seq::empty()
    }
}

/// Why a numeric part is no number, if it is none: digits with at most one
/// decimal point and at least one digit.
pub open spec fn number_error(s: Seq<char>) -> Option<Seq<char>> {
    if s.len() == 0 {
        Some("cannot parse float from empty string"@)
    } else if s.len() == 1 && s[0] == '.' {
        Some("invalid float literal"@)
    } else if point_at(fraction_digits(s)) < fraction_digits(s).len() {
        Some("invalid float literal"@)
    } else {
        None
    }
}

/// The values of digit characters.
pub open spec fn digit_values(s: Seq<char>) -> Seq<u8> {
    s.map_values(|c: char| (c as int - '0' as int) as u8)
}

/// How many bytes one unit of a suffix stands for.
pub open spec fn suffix_multiplier(s: Seq<char>) -> Option<u64> {
    if s == ""@ {
        Some(1)
    } else if s == "Ki"@ {
        Some(0x400)
    } else if s == "Mi"@ {
        Some(0x10_0000)
    } else if s == "Gi"@ {
        Some(0x4000_0000)
    } else if s == "Ti"@ {
        Some(0x100_0000_0000)
    } else if s == "k"@ {
        Some(1_000)
    } else if s == "M"@ {
        Some(1_000_000)
    } else if s == "G"@ {
        Some(1_000_000_000)
    } else if s == "T"@ {
        Some(1_000_000_000_000)
    } else {
        None
    }
}

/// The number of bytes that a number and a multiplier denote: their product,
/// rounded down to whole bytes, as far as 64 bits can hold it.
pub open spec fn quantity_bytes(number: Seq<char>, multiplier: nat) -> nat {
    let integer = integer_digits(number);
    let fraction = fraction_digits(number);
    scaled_literal(
        decimal_value(digit_values(integer) + digit_values(fraction)),
        fraction.len(),
        multiplier,
    )
}

/// What a quantity denotes: a number of bytes, or the reason why it is none.
pub open spec fn quantity(s: Seq<char>) -> Result<nat, Seq<char>> {
    let t = trimmed(s);
    let number = t.take(numeric_len(t) as int);
    let suffix = t.skip(numeric_len(t) as int);
    if t.len() == 0 {
        Err("empty quantity"@)
    } else {
        match number_error(number) {
            Some(e) => Err("invalid number "@ + debug_text(number) + ": "@ + e),
            None => match suffix_multiplier(suffix) {
                Some(m) => Ok(quantity_bytes(number, m as nat)),
                None => Err("unknown suffix "@ + debug_text(suffix)),
            },
        }
    }
}

/// What the change from one quantity to another is refused with, if it is.
pub open spec fn size_change_error(old_size: Seq<char>, new_size: Seq<char>) -> Option<Seq<char>> {
    match quantity(old_size) {
        Err(e) => Some("invalid old quantity "@ + debug_text(old_size) + ": "@ + e),
        Ok(old_bytes) => match quantity(new_size) {
            Err(e) => Some("invalid new quantity "@ + debug_text(new_size) + ": "@ + e),
            Ok(new_bytes) => if new_bytes < old_bytes {
                Some(
                    "spec.filestore.storageSize: cannot decrease storage size from "@ + old_size
                        + " to "@ + new_size,
                )
            } else {
                None
            },
        },
    }
}

proof fn lemma_numeric_prefix(s: Seq<char>)
    ensures
        numeric_len(s) <= s.len(),
        forall|i: int| 0 <= i < numeric_len(s) ==> is_numeric(#[trigger] s[i]),
        numeric_len(s) < s.len() ==> !is_numeric(s[numeric_len(s) as int]),
    decreases s.len(),
{
    if s.len() > 0 && is_numeric(s[0]) {
        let t = s.drop_first();
        lemma_numeric_prefix(t);
        assert forall|i: int| 0 <= i < numeric_len(s) implies is_numeric(#[trigger] s[i]) by {
            if i > 0 {
                assert(s[i] == t[i - 1]);
            }
        }
    }
}

proof fn lemma_point(s: Seq<char>)
    ensures
        point_at(s) <= s.len(),
        forall|i: int| 0 <= i < point_at(s) ==> #[trigger] s[i] != '.',
        point_at(s) < s.len() ==> s[point_at(s) as int] == '.',
    decreases s.len(),
{
    if s.len() > 0 && s[0] != '.' {
        let t = s.drop_first();
        lemma_point(t);
        assert forall|i: int| 0 <= i < point_at(s) implies #[trigger] s[i] != '.' by {
            if i > 0 {
                assert(s[i] == t[i - 1]);
            }
        }
    }
}

/// The length of the numeric part.
fn numeric_prefix(s: &Vec<char>) -> (r: usize)
    ensures
        r == numeric_len(s@),
{
    let mut i: usize = 0;
    assert(s@.skip(0) == s@);
    while i < s.len() && (('0' <= s[i] && s[i] <= '9') || s[i] == '.')
        invariant
            i <= s.len(),
            numeric_len(s@) == i + numeric_len(s@.skip(i as int)),
        decreases s.len() - i,
    {
        assert(s@.skip(i as int).drop_first() == s@.skip(i + 1));
        i += 1;
    }
    i
}

/// The position of the first decimal point from `from` on, or the length.
fn find_point(s: &[char], from: usize) -> (r: usize)
    requires
        from <= s.len(),
    ensures
        r == from + point_at(s@.skip(from as int)),
{
    let mut i: usize = from;
    while i < s.len() && s[i] != '.'
        invariant
            from <= i <= s.len(),
            from + point_at(s@.skip(from as int)) == i + point_at(s@.skip(i as int)),
        decreases s.len() - i,
    {
        assert(s@.skip(i as int).drop_first() == s@.skip(i + 1));
        i += 1;
    }
    i
}

/// The values of the digit characters `s[from..to]`.
fn values_of(s: &[char], from: usize, to: usize) -> (r: Vec<u8>)
    requires
        from <= to <= s.len(),
        forall|i: int| from <= i < to ==> is_digit(#[trigger] s@[i]),
    ensures
        r@ == digit_values(s@.subrange(from as int, to as int)),
        all_digits(r@),
{
    let mut out: Vec<u8> = Vec::new();
    let mut i: usize = from;
    while i < to
        invariant
            from <= i <= to <= s.len(),
            forall|j: int| from <= j < to ==> is_digit(#[trigger] s@[j]),
            out@ == digit_values(s@.subrange(from as int, i as int)),
            all_digits(out@),
        decreases to - i,
    {
        let c: char = s[i];
        assert(is_digit(s@[i as int]));
        let v: u8 = (c as u32 - 48) as u8;
        let ghost before = out@;
        out.push(v);
        proof {
            assert(out@ == digit_values(s@.subrange(from as int, i + 1)));
            assert forall|j: int| 0 <= j < out@.len() implies #[trigger] out@[j] <= 9 by {
                if j < before.len() {
                    assert(out@[j] == before[j]);
                }
            }
        }
        i += 1;
    }
    out
}

/// The multiplier of a suffix.
fn multiplier_of(suffix: &str) -> (r: Option<u64>)
    ensures
        r == suffix_multiplier(suffix@),
        r matches Some(m) ==> 0 < m <= crate::decimal::MULTIPLIER_MAX,
{
    if same_text(suffix, "") {
        Some(1)
    } else if same_text(suffix, "Ki") {
        Some(0x400)
    } else if same_text(suffix, "Mi") {
        Some(0x10_0000)
    } else if same_text(suffix, "Gi") {
        Some(0x4000_0000)
    } else if same_text(suffix, "Ti") {
        Some(0x100_0000_0000)
    } else if same_text(suffix, "k") {
        Some(1_000)
    } else if same_text(suffix, "M") {
        Some(1_000_000)
    } else if same_text(suffix, "G") {
        Some(1_000_000_000)
    } else if same_text(suffix, "T") {
        Some(1_000_000_000_000)
    } else {
        None
    }
}

/// Parses a Kubernetes resource quantity into bytes.
///
/// The suffixes are `Ki`, `Mi`, `Gi`, `Ti` (binary) and `k`, `M`, `G`, `T`
/// (decimal).
pub fn parse_quantity(s: &str) -> (r: Result<u64, String>)
    ensures
        match r {
            Ok(v) => quantity(s@) == Ok::<nat, Seq<char>>(v as nat),
            Err(e) => quantity(s@) == Err::<nat, Seq<char>>(e@),
        },
{
    let t = trim_chars(s);
    if t.len() == 0 {
        return Err("empty quantity".to_owned());
    }
    let end: usize = numeric_prefix(&t);
    proof {
        lemma_numeric_prefix(t@);
    }
    let (number, suffix) = t.as_slice().split_at(end);
    assert(number@ == t@.take(end as int));
    assert(suffix@ == t@.skip(end as int));
    let point: usize = find_point(number, 0);
    assert(number@.skip(0) == number@);
    proof {
        lemma_point(number@);
    }
    let from: usize = if point < number.len() {
        point + 1
    } else {
        number.len()
    };
    assert(fraction_digits(number@) == number@.skip(from as int));
    let second: usize = find_point(number, from);
    proof {
        lemma_point(number@.skip(from as int));
    }
    let problem: Option<&str> = if number.len() == 0 {
        Some("cannot parse float from empty string")
    } else if number.len() == 1 && number[0] == '.' {
        Some("invalid float literal")
    } else if second < number.len() {
        Some("invalid float literal")
    } else {
        None
    };
    if let Some(e) = problem {
        let quoted = debug_quoted(string_of(number).as_str());
        return Err(concat4("invalid number ", quoted.as_str(), ": ", e));
    }
    let suffix_text = string_of(suffix);
    let multiplier: u64 = match multiplier_of(suffix_text.as_str()) {
        Some(m) => m,
        None => {
            let quoted = debug_quoted(suffix_text.as_str());
            return Err(concat2("unknown suffix ", quoted.as_str()));
        },
    };
    proof {
        assert forall|i: int| 0 <= i < point implies is_digit(#[trigger] number@[i]) by {
            assert(is_numeric(t@[i]));
        }
        assert forall|i: int| from <= i < number@.len() implies is_digit(#[trigger] number@[i]) by {
            assert(is_numeric(t@[i]));
            assert(number@.skip(from as int)[i - from] == number@[i]);
        }
    }
    let integer = values_of(number, 0, point);
    let fraction = values_of(number, from, number.len());
    assert(number@.subrange(0, point as int) == integer_digits(number@));
    assert(number@.subrange(from as int, number@.len() as int) == fraction_digits(number@));
    Ok(scale_literal(integer.as_slice(), fraction.as_slice(), multiplier))
}

/// Compares two quantities and refuses a decrease.
pub fn compare_quantities(old_size: &str, new_size: &str) -> (r: Result<(), String>)
    ensures
        match r {
            Ok(_) => size_change_error(old_size@, new_size@) is None,
            Err(e) => size_change_error(old_size@, new_size@) == Some(e@),
        },
{
    let old_bytes: u64 = match parse_quantity(old_size) {
        Ok(v) => v,
        Err(e) => {
            let quoted = debug_quoted(old_size);
            return Err(concat4("invalid old quantity ", quoted.as_str(), ": ", e.as_str()));
        },
    };
    let new_bytes: u64 = match parse_quantity(new_size) {
        Ok(v) => v,
        Err(e) => {
            let quoted = debug_quoted(new_size);
            return Err(concat4("invalid new quantity ", quoted.as_str(), ": ", e.as_str()));
        },
    };
    if new_bytes < old_bytes {
        return Err(
            concat4(
                "spec.filestore.storageSize: cannot decrease storage size from ",
                old_size,
                " to ",
                new_size,
            ),
        );
    }
    Ok(())
}

// ── Admission ────────────────────────────────────────────────────────────────

/// The objects of an admission request: a creation has no old object, a
/// deletion no new one.
#[derive(Clone, Debug)]
pub struct AdmissionRequest {
    pub old_object: Option<OdooInstance>,
    pub object: Option<OdooInstance>,
}

/// The answer to an admission request: whether it is allowed and, if it is not,
/// why.
#[derive(Clone, Debug)]
pub struct AdmissionResponse {
    pub allowed: bool,
    pub message: String,
}

/// Why the change of the storage size is refused, if it is: both sizes have to
/// be written for a comparison.
pub open spec fn size_denial(old: OdooInstance, new: OdooInstance) -> Option<Seq<char>> {
    match (old.spec.desired_storage_size(), new.spec.desired_storage_size()) {
        (Some(a), Some(b)) => if a.len() > 0 && b.len() > 0 {
            size_change_error(a, b)
        } else {
            None
        },
        _ => None,
    }
}

/// Why the change of the PostgreSQL cluster is refused, if it is: once a cluster
/// is named it stays.
pub open spec fn cluster_denial(old: OdooInstance, new: OdooInstance) -> Option<Seq<char>> {
    let a = old.spec.cluster_text();
    let b = new.spec.cluster_text();
    if a.len() > 0 && b != a {
        Some(
            "spec.database.cluster: changing the postgres cluster from "@ + debug_text(a)
                + " to "@ + debug_text(b) + " is not supported"@,
        )
    } else {
        None
    }
}

/// The phases in which the storage class must not change.
pub open spec fn blocks_storage_class_change(phase: OdooInstancePhase) -> bool {
    ||| phase == OdooInstancePhase::Restoring
    ||| phase == OdooInstancePhase::Upgrading
    ||| phase == OdooInstancePhase::BackingUp
    ||| phase == OdooInstancePhase::MigratingFilestore
    ||| phase == OdooInstancePhase::Uninitialized
}

/// The storage class that an object asks for, or nothing.
pub open spec fn class_text(o: OdooInstance) -> Seq<char> {
    match o.spec.desired_storage_class() {
        Some(c) => c,
        None => Seq::empty(),
    }
}

/// Why the change of the storage class is refused, if it is.
pub open spec fn class_denial(old: OdooInstance, new: OdooInstance) -> Option<Seq<char>> {
    let a = class_text(old);
    let b = class_text(new);
    if a.len() > 0 && b.len() > 0 && a != b {
        match old.reported_phase() {
            Some(p) => if blocks_storage_class_change(p) {
                Some(
                    "spec.filestore.storageClass: cannot change storage class while instance is in "@
                        + p.text() + " phase"@,
                )
            } else {
                None
            },
            None => None,
        }
    } else {
        None
    }
}

/// Why an update is refused, if it is: the first reason counts.
pub open spec fn update_denial(old: OdooInstance, new: OdooInstance) -> Option<Seq<char>> {
    match size_denial(old, new) {
        Some(m) => Some(m),
        None => match cluster_denial(old, new) {
            Some(m) => Some(m),
            None => class_denial(old, new),
        },
    }
}

/// Why a request is refused, if it is: creations and deletions never are.
pub open spec fn denial(req: AdmissionRequest) -> Option<Seq<char>> {
    match (req.old_object, req.object) {
        (Some(old), Some(new)) => update_denial(old, new),
        _ => None,
    }
}

/// Why the change of the storage size is refused, if it is.
pub fn size_refusal(old: &OdooInstance, new: &OdooInstance) -> (r: Option<String>)
    ensures
        opt_text(r) == size_denial(*old, *new),
{
    let old_size = old.spec.storage_size();
    let new_size = new.spec.storage_size();
    if let (Some(a), Some(b)) = (&old_size, &new_size) {
        if !a.as_str().is_empty() && !b.as_str().is_empty() {
            if let Err(m) = compare_quantities(a.as_str(), b.as_str()) {
                return Some(m);
            }
        }
    }
    None
}

/// Why the change of the PostgreSQL cluster is refused, if it is.
pub fn cluster_refusal(old: &OdooInstance, new: &OdooInstance) -> (r: Option<String>)
    ensures
        opt_text(r) == cluster_denial(*old, *new),
{
    let old_cluster = old.spec.cluster_or_empty();
    let new_cluster = new.spec.cluster_or_empty();
    if !old_cluster.as_str().is_empty() && new_cluster != old_cluster {
        let a = debug_quoted(old_cluster.as_str());
        let b = debug_quoted(new_cluster.as_str());
        let mut m = concat4(
            "spec.database.cluster: changing the postgres cluster from ",
            a.as_str(),
            " to ",
            b.as_str(),
        );
        m.append(" is not supported");
        return Some(m);
    }
    None
}

/// An answer that allows a request.
pub fn admitted() -> (r: AdmissionResponse)
    ensures
        r.allowed,
        r.message@.len() == 0,
{
    AdmissionResponse { allowed: true, message: String::new() }
}

/// An answer that refuses a request.
pub fn refused(message: String) -> (r: AdmissionResponse)
    ensures
        !r.allowed,
        r.message@ == message@,
{
    AdmissionResponse { allowed: false, message }
}

/// Validates an admission request.
pub fn validate(req: &AdmissionRequest) -> (r: AdmissionResponse)
    ensures
        r.allowed == (denial(*req) is None),
        denial(*req) matches Some(m) ==> r.message@ == m,
        r.allowed ==> r.message@.len() == 0,
{
    let old = match &req.old_object {
        Some(o) => o,
        None => return admitted(),
    };
    let new = match &req.object {
        Some(o) => o,
        None => return admitted(),
    };
    // 1. A volume claim cannot shrink.
    if let Some(m) = size_refusal(old, new) {
        return refused(m);
    }
    // 2. A database that is pinned to a cluster stays there.
    if let Some(m) = cluster_refusal(old, new) {
        return refused(m);
    }
    // 3. The filestore cannot be migrated in every phase.
    let old_class = crate::crd::meta::unwrap_or_empty(&old.spec.storage_class());
    let new_class = crate::crd::meta::unwrap_or_empty(&new.spec.storage_class());
    if !old_class.as_str().is_empty() && !new_class.as_str().is_empty() && old_class != new_class {
        if let Some(p) = old.status_phase() {
            let blocked = matches!(
                p,
                OdooInstancePhase::Restoring | OdooInstancePhase::Upgrading
                    | OdooInstancePhase::BackingUp | OdooInstancePhase::MigratingFilestore
                    | OdooInstancePhase::Uninitialized
            );
            if blocked {
                return refused(
                    concat3(
                        "spec.filestore.storageClass: cannot change storage class while instance is in ",
                        p.as_str(),
                        " phase",
                    ),
                );
            }
        }
    }
    admitted()
}

// ── Laws ─────────────────────────────────────────────────────────────────────

/// No admitted update makes the filestore smaller, as far as both sizes are
/// written.
pub proof fn law_no_admitted_shrink(old: OdooInstance, new: OdooInstance)
    requires
        update_denial(old, new) is None,
        old.spec.desired_storage_size() matches Some(a) && a.len() > 0,
        new.spec.desired_storage_size() matches Some(b) && b.len() > 0,
    ensures
        quantity(old.spec.desired_storage_size()->0) is Ok,
        quantity(new.spec.desired_storage_size()->0) is Ok,
        quantity(old.spec.desired_storage_size()->0)->Ok_0 <= quantity(
            new.spec.desired_storage_size()->0,
        )->Ok_0,
{
}

/// No admitted update moves a database away from the cluster that it is pinned
/// to.
pub proof fn law_cluster_is_pinned(old: OdooInstance, new: OdooInstance)
    requires
        update_denial(old, new) is None,
        old.spec.cluster_text().len() > 0,
    ensures
        new.spec.cluster_text() == old.spec.cluster_text(),
{
}

/// An update that keeps the sizes, the cluster and the storage class is
/// admitted, provided that the size, where one is written, is a quantity.
pub proof fn law_unchanged_is_admitted(old: OdooInstance, new: OdooInstance)
    requires
        new.spec.desired_storage_size() == old.spec.desired_storage_size(),
        new.spec.desired_storage_class() == old.spec.desired_storage_class(),
        new.spec.cluster_text() == old.spec.cluster_text(),
        old.spec.desired_storage_size() matches Some(s) ==> s.len() == 0 || quantity(s) is Ok,
    ensures
        update_denial(old, new) is None,
{
}

/// Outside the phases that block it, a change of the storage class alone is
/// admitted.
pub proof fn law_storage_class_change_is_admitted(old: OdooInstance, new: OdooInstance)
    requires
        size_denial(old, new) is None,
        cluster_denial(old, new) is None,
        old.reported_phase() matches Some(p) ==> !blocks_storage_class_change(p),
    ensures
        update_denial(old, new) is None,
{
}

/// In a phase that blocks it, a change from one storage class to another is
/// refused.
pub proof fn law_storage_class_change_is_blocked(old: OdooInstance, new: OdooInstance)
    requires
        class_text(old).len() > 0,
        class_text(new).len() > 0,
        class_text(old) != class_text(new),
        old.reported_phase() matches Some(p) && blocks_storage_class_change(p),
    ensures
        update_denial(old, new) is Some,
{
}

/// Admitted sizes only ever grow: two admitted updates one after the other do
/// not shrink the filestore either.
pub proof fn law_sizes_grow(first: Seq<char>, second: Seq<char>, third: Seq<char>)
    requires
        size_change_error(first, second) is None,
        size_change_error(second, third) is None,
    ensures
        size_change_error(first, third) is None,
{
}

/// The storage class cannot change while an instance has no database, or while it is
/// restored, upgraded, backed up or moved; in every other phase, and before the first
/// one, the change of the class alone is admitted.
pub proof fn law_storage_classes_change_between_jobs(
    req: &AdmissionRequest,
    r: AdmissionResponse,
)
    requires
        call_ensures(validate, (req,), r),
        req.old_object matches Some(old) && (old.spec.filestore matches Some(f)
            && f.storage_size is None && (f.storage_class matches Some(c) && c@.len() > 0)),
        req.object matches Some(new) && (new.spec.filestore matches Some(f) && f.storage_size
            is None && (f.storage_class matches Some(c) && c@.len() > 0)),
        req.old_object->0.spec.filestore->0.storage_class->0@
            != req.object->0.spec.filestore->0.storage_class->0@,
        req.old_object->0.spec.database is None,
        req.object->0.spec.database is None,
    ensures
        ({
            let phase = match req.old_object->0.status {
                Some(s) => s.phase,
                None => None,
            };
            r.allowed <==> !(phase == Some(OdooInstancePhase::Restoring) || phase == Some(
                OdooInstancePhase::Upgrading,
            ) || phase == Some(OdooInstancePhase::BackingUp) || phase == Some(
                OdooInstancePhase::MigratingFilestore,
            ) || phase == Some(OdooInstancePhase::Uninitialized))
        }),
{
}

/// The cluster of a database is pinned once it is named: an update that changes it, or
/// takes it away, is refused, and one that names it first is not refused for that.
pub proof fn law_named_clusters_are_pinned(req: &AdmissionRequest, r: AdmissionResponse)
    requires
        call_ensures(validate, (req,), r),
        req.old_object is Some,
        req.object is Some,
    ensures
        ({
            let a = match req.old_object->0.spec.database {
                Some(d) => match d.cluster {
                    Some(c) => c@,
                    None => Seq::empty(),
                },
                None => Seq::empty(),
            };
            let b = match req.object->0.spec.database {
                Some(d) => match d.cluster {
                    Some(c) => c@,
                    None => Seq::empty(),
                },
                None => Seq::empty(),
            };
            &&& a.len() > 0 && a != b ==> !r.allowed
            &&& req.old_object->0.spec.filestore is None && req.object->0.spec.filestore is None
                && (a.len() == 0 || a == b) ==> r.allowed
        }),
{
}

/// A filestore never shrinks: an update to a smaller size is refused, one to the same or
/// to a larger size is not refused for that.
pub proof fn law_filestores_never_shrink(
    old_size: &str,
    new_size: &str,
    r: Result<(), String>,
    old_bytes: nat,
    new_bytes: nat,
)
    requires
        call_ensures(compare_quantities, (old_size, new_size), r),
        quantity(old_size@) == Ok::<nat, Seq<char>>(old_bytes),
        quantity(new_size@) == Ok::<nat, Seq<char>>(new_bytes),
    ensures
        r is Ok <==> old_bytes <= new_bytes,
        r matches Err(e) ==> e@
            == "spec.filestore.storageSize: cannot decrease storage size from "@ + old_size@
            + " to "@ + new_size@,
{
}

/// A size that is no quantity is refused, whichever of the two it is.
pub proof fn law_sizes_have_to_be_quantities(req: &AdmissionRequest, r: AdmissionResponse)
    requires
        call_ensures(validate, (req,), r),
        req.old_object matches Some(old) && (old.spec.filestore matches Some(f) && (
        f.storage_size matches Some(s) && s@.len() > 0)),
        req.object matches Some(new) && (new.spec.filestore matches Some(f) && (
        f.storage_size matches Some(s) && s@.len() > 0)),
    ensures
        ({
            let a = quantity(req.old_object->0.spec.filestore->0.storage_size->0@);
            let b = quantity(req.object->0.spec.filestore->0.storage_size->0@);
            &&& a is Err || b is Err ==> !r.allowed
            &&& a is Ok && b is Ok && a->Ok_0 > b->Ok_0 ==> !r.allowed
        }),
{
}

/// Creations and deletions are admitted, and what is admitted needs no words.
pub proof fn law_creations_and_deletions_are_admitted(
    req: &AdmissionRequest,
    r: AdmissionResponse,
)
    requires
        call_ensures(validate, (req,), r),
    ensures
        req.old_object is None || req.object is None ==> r.allowed,
        r.allowed ==> r.message@.len() == 0,
{
}

/// The units of a quantity: each binary one is 1024 times the one before it, each
/// decimal one 1000 times, and a number without a unit is counted in bytes.
pub proof fn law_units_are_powers()
    ensures
        suffix_multiplier(Seq::empty()) == Some(1u64),
        suffix_multiplier("Ki"@) matches Some(a) && a == 1024,
        suffix_multiplier("Mi"@) matches Some(a) && a == 1024 * suffix_multiplier("Ki"@)->0,
        suffix_multiplier("Gi"@) matches Some(a) && a == 1024 * suffix_multiplier("Mi"@)->0,
        suffix_multiplier("Ti"@) matches Some(a) && a == 1024 * suffix_multiplier("Gi"@)->0,
        suffix_multiplier("k"@) matches Some(a) && a == 1000,
        suffix_multiplier("M"@) matches Some(a) && a == 1000 * suffix_multiplier("k"@)->0,
        suffix_multiplier("G"@) matches Some(a) && a == 1000 * suffix_multiplier("M"@)->0,
        suffix_multiplier("T"@) matches Some(a) && a == 1000 * suffix_multiplier("G"@)->0,
{
    lemma_unit_names();
    assert(""@ =~= Seq::<char>::empty());
}

/// The units are told apart.
proof fn lemma_unit_names()
    ensures
        ""@.len() == 0,
        "Ki"@.len() == 2,
        "Mi"@.len() == 2,
        "Gi"@.len() == 2,
        "Ti"@.len() == 2,
        "k"@.len() == 1,
        "M"@.len() == 1,
        "G"@.len() == 1,
        "T"@.len() == 1,
        "Mi"@[0] == 'M',
        "Ki"@[0] == 'K',
        "Gi"@[0] == 'G',
        "Ti"@[0] == 'T',
        "M"@[0] == 'M',
        "k"@[0] == 'k',
        "G"@[0] == 'G',
        "T"@[0] == 'T',
{
    reveal_strlit("");
    reveal_strlit("Ki");
    reveal_strlit("Mi");
    reveal_strlit("Gi");
    reveal_strlit("Ti");
    reveal_strlit("k");
    reveal_strlit("M");
    reveal_strlit("G");
    reveal_strlit("T");
}

/// Whether a text consists of decimal digits.
pub open spec fn is_number(s: Seq<char>) -> bool {
    s.len() > 0 && forall|i: int| 0 <= i < s.len() ==> '0' <= #[trigger] s[i] <= '9'
}

/// A whole number with a unit denotes that many units, as far as 64 bits can hold them.
pub proof fn law_numbers_are_counted_in_units(digits: Seq<char>, unit: Seq<char>)
    requires
        is_number(digits),
        suffix_multiplier(unit) is Some,
        unit.len() > 0 ==> !is_numeric(unit[0]) && !crate::text::is_white_space(unit.last()),
    ensures
        quantity(digits + unit) == Ok::<nat, Seq<char>>(
            crate::decimal::saturated(
                decimal_value(digit_values(digits)) * (suffix_multiplier(unit)->0 as nat),
            ),
        ),
{
    let s = digits + unit;
    assert(s[0] == digits[0]);
    crate::text::lemma_trimmed_is_kept(s);
    lemma_numeric_prefix(s);
    let n = numeric_len(s) as int;
    if n < digits.len() {
        assert(s[n] == digits[n]);
    }
    if n > digits.len() {
        assert(is_numeric(s[digits.len() as int]));
        assert(s[digits.len() as int] == unit[0]);
    }
    assert(n == digits.len());
    assert(s.take(n) =~= digits);
    assert(s.skip(n) =~= unit);
    lemma_point(digits);
    let p = point_at(digits) as int;
    if p < digits.len() {
        assert(digits[p] == '.');
    }
    assert(integer_digits(digits) =~= digits);
    assert(fraction_digits(digits) =~= Seq::<char>::empty());
    assert(digit_values(Seq::<char>::empty()) =~= Seq::<u8>::empty());
    assert(digit_values(digits) + Seq::<u8>::empty() =~= digit_values(digits));
    assert(digits.len() == 1 ==> digits[0] != '.');
    let v = decimal_value(digit_values(digits)) * (suffix_multiplier(unit)->0 as nat);
    assert(crate::decimal::pow10(0) == 1);
    assert(v / 1 == v);
}

/// A number with a decimal point and a unit denotes the whole bytes in that many units.
pub proof fn law_fractions_are_counted_in_units(
    s: &str,
    r: Result<u64, String>,
    whole: Seq<char>,
    tenths: Seq<char>,
    unit: Seq<char>,
)
    requires
        call_ensures(parse_quantity, (s,), r),
        s@ == whole + seq!['.'] + tenths + unit,
        is_number(whole),
        is_number(tenths),
        suffix_multiplier(unit) is Some,
        unit.len() > 0 ==> !is_numeric(unit[0]) && !crate::text::is_white_space(unit.last()),
    ensures
        r matches Ok(v) && v == crate::decimal::saturated(
            decimal_value(digit_values(whole) + digit_values(tenths)) * (suffix_multiplier(unit)->0
                as nat) / crate::decimal::pow10(tenths.len()),
        ),
{
    let number = whole + seq!['.'] + tenths;
    let t = s@;
    assert(t =~= number + unit);
    assert(t[0] == whole[0]);
    assert(unit.len() == 0 ==> t.last() == tenths.last());
    crate::text::lemma_trimmed_is_kept(t);
    lemma_numeric_prefix(t);
    let n = numeric_len(t) as int;
    if n < number.len() {
        assert(t[n] == number[n]);
        if n < whole.len() {
            assert(number[n] == whole[n]);
        } else if n > whole.len() {
            assert(number[n] == tenths[n - whole.len() - 1]);
        }
    }
    if n > number.len() {
        assert(is_numeric(t[number.len() as int]));
        assert(t[number.len() as int] == unit[0]);
    }
    assert(n == number.len());
    assert(t.take(n) =~= number);
    assert(t.skip(n) =~= unit);
    lemma_point(number);
    let p = point_at(number) as int;
    assert(number[whole.len() as int] == '.');
    if p < whole.len() {
        assert(number[p] == whole[p]);
    }
    assert(p == whole.len());
    assert(integer_digits(number) =~= whole);
    assert(fraction_digits(number) =~= tenths);
    lemma_point(tenths);
    let q = point_at(tenths) as int;
    if q < tenths.len() {
        assert(tenths[q] == '.');
    }
}

/// What is refused is refused with its reason: the sizes, the cluster or the phase that
/// it is about.
pub proof fn law_refusals_say_why(
    old_size: &str,
    new_size: &str,
    sizes: Result<(), String>,
    old: &OdooInstance,
    new: &OdooInstance,
    cluster: Option<String>,
)
    requires
        call_ensures(compare_quantities, (old_size, new_size), sizes),
        call_ensures(cluster_refusal, (old, new), cluster),
    ensures
        quantity(old_size@) matches Err(e) ==> (sizes matches Err(m) && m@
            == "invalid old quantity "@ + debug_text(old_size@) + ": "@ + e),
        quantity(old_size@) is Ok ==> (quantity(new_size@) matches Err(e) ==> (
        sizes matches Err(m) && m@ == "invalid new quantity "@ + debug_text(new_size@) + ": "@
            + e)),
        cluster matches Some(m) ==> m@ == "spec.database.cluster: changing the postgres cluster from "@
            + debug_text(old.spec.database->0.cluster->0@) + " to "@ + debug_text(
            match new.spec.database {
                Some(d) => match d.cluster {
                    Some(c) => c@,
                    None => Seq::empty(),
                },
                None => Seq::empty(),
            },
        ) + " is not supported"@,
{
}

/// A storage class that cannot change now is refused with the phase that holds it.
pub proof fn law_held_classes_name_the_phase(req: &AdmissionRequest, r: AdmissionResponse)
    requires
        call_ensures(validate, (req,), r),
        req.old_object matches Some(old) && (old.spec.filestore matches Some(f)
            && f.storage_size is None),
        req.object is Some,
        req.old_object->0.spec.database is None,
        !r.allowed,
    ensures
        req.old_object->0.status matches Some(s) && (s.phase matches Some(p) && r.message@
            == "spec.filestore.storageClass: cannot change storage class while instance is in "@
            + p.text() + " phase"@),
{
}

/// What is no quantity is told apart: nothing at all, an unknown unit, or a number that is
/// none.
pub proof fn law_broken_quantities_are_told_apart(
    s: &str,
    r: Result<u64, String>,
    digits: Seq<char>,
    unit: Seq<char>,
)
    requires
        call_ensures(parse_quantity, (s,), r),
        s@ == digits + unit,
        digits.len() == 0 || is_number(digits),
        unit.len() > 0,
        !is_numeric(unit[0]),
        !crate::text::is_white_space(unit[0]),
        !crate::text::is_white_space(unit.last()),
        suffix_multiplier(unit) is None,
    ensures
        digits.len() > 0 ==> (r matches Err(m) && m@ == "unknown suffix "@ + debug_text(unit)),
        digits.len() == 0 ==> (r matches Err(m) && m@ == "invalid number "@ + debug_text(digits)
            + ": "@ + "cannot parse float from empty string"@),
{
    let t = s@;
    assert(t.last() == unit.last());
    assert(t[0] == if digits.len() > 0 {
        digits[0]
    } else {
        unit[0]
    });
    crate::text::lemma_trimmed_is_kept(t);
    lemma_numeric_prefix(t);
    let n = numeric_len(t) as int;
    if n < digits.len() {
        assert(t[n] == digits[n]);
    }
    if n > digits.len() {
        assert(is_numeric(t[digits.len() as int]));
        assert(t[digits.len() as int] == unit[0]);
    }
    assert(t.take(n) =~= digits);
    assert(t.skip(n) =~= unit);
    if digits.len() > 0 {
        lemma_point(digits);
        let p = point_at(digits) as int;
        if p < digits.len() {
            assert(digits[p] == '.');
        }
        assert(fraction_digits(digits) =~= Seq::<char>::empty());
        assert(digits.len() == 1 ==> digits[0] != '.');
    }
}

} // verus!
