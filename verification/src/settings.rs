//! Settings of the operator that come as text.

use vstd::prelude::*;

use crate::crd::meta::opt_text;
use crate::text::{chars_of, concat4, same_text, string_of, texts, trim_chars, trimmed};

verus! {

// ── JSON documents ───────────────────────────────────────────────────────────

/// What a JSON document describes.
#[derive(Clone, Copy, Debug, PartialEq, Eq, Structural)]
pub enum DocumentShape {
    Resources,
    Affinity,
}

/// The result of reading a document, by its characters.
pub open spec fn document_view(r: Result<String, String>) -> Result<Seq<char>, Seq<char>> {
    match r {
        Ok(s) => Ok(s@),
        Err(e) => Err(e@),
    }
}

/// The result of reading a list of documents, by their characters.
pub open spec fn documents_view(r: Result<Vec<String>, String>) -> Result<
    Seq<Seq<char>>,
    Seq<char>,
> {
    match r {
        Ok(v) => Ok(texts(v@)),
        Err(e) => Err(e@),
    }
}

/// The resource requirements that a JSON text describes, written out again, or
/// what is wrong with the text.
pub uninterp spec fn resources_json(s: Seq<char>) -> Result<Seq<char>, Seq<char>>;

/// Reads resource requirements with `serde_json::from_str` and writes them with
/// `serde_json::to_string`.
///
/// The contract only claims that the outcome is determined by the characters.
#[verifier::external_body]
fn read_resources(s: &str) -> (r: Result<String, String>)
    ensures
        document_view(r) == resources_json(s@),
{
    serde_json::from_str::<k8s_openapi::api::core::v1::ResourceRequirements>(s)
        .and_then(|v| serde_json::to_string(&v))
        .map_err(|e| e.to_string())
}

/// The affinity that a JSON text describes, written out again, or what is wrong
/// with the text.
pub uninterp spec fn affinity_json(s: Seq<char>) -> Result<Seq<char>, Seq<char>>;

/// Reads an affinity with `serde_json::from_str` and writes it with
/// `serde_json::to_string`.
///
/// The contract only claims that the outcome is determined by the characters.
#[verifier::external_body]
fn read_affinity(s: &str) -> (r: Result<String, String>)
    ensures
        document_view(r) == affinity_json(s@),
{
    serde_json::from_str::<k8s_openapi::api::core::v1::Affinity>(s)
        .and_then(|v| serde_json::to_string(&v))
        .map_err(|e| e.to_string())
}

/// The tolerations that a JSON text lists, each written out again, or what is
/// wrong with the text.
pub uninterp spec fn tolerations_json(s: Seq<char>) -> Result<Seq<Seq<char>>, Seq<char>>;

/// Reads a list of tolerations with `serde_json::from_str` and writes each with
/// `serde_json::to_string`.
///
/// The contract only claims that the outcome is determined by the characters.
#[verifier::external_body]
fn read_tolerations(s: &str) -> (r: Result<Vec<String>, String>)
    ensures
        documents_view(r) == tolerations_json(s@),
{
    serde_json::from_str::<Vec<k8s_openapi::api::core::v1::Toleration>>(s)
        .and_then(|v| v.iter().map(serde_json::to_string).collect())
        .map_err(|e| e.to_string())
}

/// The document that a JSON text holds.
pub open spec fn shaped_json(shape: DocumentShape, s: Seq<char>) -> Result<Seq<char>, Seq<char>> {
    match shape {
        DocumentShape::Resources => resources_json(s),
        DocumentShape::Affinity => affinity_json(s),
    }
}

/// Whether a setting says that there is no document.
pub open spec fn is_no_document(s: Seq<char>) -> bool {
    s.len() == 0 || s == "{}"@ || s == "null"@
}

/// Whether a setting says that there is no list.
pub open spec fn is_no_list(s: Seq<char>) -> bool {
    s.len() == 0 || s == "[]"@ || s == "null"@
}

/// A setting without the white space around it, unless it says that there is no
/// document.
pub fn document_text(s: &str) -> (r: Option<String>)
    ensures
        opt_text(r) == if is_no_document(trimmed(s@)) {
            None
        } else {
            Some(trimmed(s@))
        },
{
    let t = string_of(trim_chars(s).as_slice());
    if t.as_str().is_empty() || same_text(t.as_str(), "{}") || same_text(t.as_str(), "null") {
        None
    } else {
        Some(t)
    }
}

/// A setting without the white space around it, unless it says that there is no
/// list.
pub fn list_text(s: &str) -> (r: Option<String>)
    ensures
        opt_text(r) == if is_no_list(trimmed(s@)) {
            None
        } else {
            Some(trimmed(s@))
        },
{
    let t = string_of(trim_chars(s).as_slice());
    if t.as_str().is_empty() || same_text(t.as_str(), "[]") || same_text(t.as_str(), "null") {
        None
    } else {
        Some(t)
    }
}

/// The document that a setting holds: none where it is empty or `{}` or `null`.
pub fn parse_json_opt(s: &str, field: &str, shape: DocumentShape) -> (r: Result<
    Option<String>,
    String,
>)
    ensures
        if is_no_document(trimmed(s@)) {
            r == Ok::<Option<String>, String>(None)
        } else {
            match shaped_json(shape, trimmed(s@)) {
                Ok(d) => r matches Ok(o) && opt_text(o) == Some(d),
                Err(e) => r matches Err(m) && m@ == "failed to parse --"@ + field@ + " as JSON: "@
                    + e,
            }
        },
{
    match document_text(s) {
        None => Ok(None),
        Some(t) => {
            let read = match shape {
                DocumentShape::Resources => read_resources(t.as_str()),
                DocumentShape::Affinity => read_affinity(t.as_str()),
            };
            match read {
                Ok(d) => Ok(Some(d)),
                Err(e) => Err(concat4("failed to parse --", field, " as JSON: ", e.as_str())),
            }
        },
    }
}

/// The tolerations that a setting lists: none where it is empty or `[]` or
/// `null`.
pub fn parse_json_vec(s: &str, field: &str) -> (r: Result<Vec<String>, String>)
    ensures
        if is_no_list(trimmed(s@)) {
            r matches Ok(v) && v@.len() == 0
        } else {
            match tolerations_json(trimmed(s@)) {
                Ok(d) => r matches Ok(v) && texts(v@) == d,
                Err(e) => r matches Err(m) && m@ == "failed to parse --"@ + field@
                    + " as JSON array: "@ + e,
            }
        },
{
    match list_text(s) {
        None => Ok(Vec::new()),
        Some(t) => match read_tolerations(t.as_str()) {
            Ok(v) => Ok(v),
            Err(e) => Err(concat4("failed to parse --", field, " as JSON array: ", e.as_str())),
        },
    }
}

// ── Addresses ────────────────────────────────────────────────────────────────

/// The address that a setting stands for: without a host all interfaces are
/// meant.
pub open spec fn full_address(s: Seq<char>) -> Seq<char> {
    if s.len() > 0 && s[0] == ':' {
        "0.0.0.0:"@ + s.skip(1)
    } else {
        s
    }
}

/// The address that a setting stands for.
pub fn bind_address(s: &str) -> (r: String)
    ensures
        r@ == full_address(s@),
{
    let chars = chars_of(s);
    if chars.len() > 0 && chars[0] == ':' {
        let mut out = "0.0.0.0:".to_owned();
        let mut i: usize = 1;
        assert(s@.skip(1).take(0) =~= Seq::<char>::empty());
        assert(out@ =~= "0.0.0.0:"@ + s@.skip(1).take(0));
        while i < chars.len()
            invariant
                1 <= i <= chars.len(),
                chars@ == s@,
                out@ == "0.0.0.0:"@ + s@.skip(1).take(i - 1),
            decreases chars.len() - i,
        {
            out.push(chars[i]);
            proof {
                let t = s@.skip(1);
                assert(t[i - 1] == s@[i as int]);
                assert(t.take(i as int) =~= t.take(i - 1).push(s@[i as int]));
                assert(out@ =~= "0.0.0.0:"@ + t.take(i as int));
            }
            i += 1;
        }
        assert(s@.skip(1).take(i - 1) =~= s@.skip(1));
        out
    } else {
        s.to_owned()
    }
}

/// An address with a host is taken as it is, and one that was completed stays
/// complete.
pub proof fn law_addresses_are_completed_once(s: Seq<char>)
    ensures
        full_address(full_address(s)) == full_address(s),
{
    reveal_strlit("0.0.0.0:");
    assert("0.0.0.0:"@[0] == '0');
}

/// An address that begins with a colon is completed with the address of all interfaces,
/// and any other is taken as it is.
pub proof fn law_addresses_without_a_host_mean_all(s: &str, port: Seq<char>, r: String)
    requires
        call_ensures(bind_address, (s,), r),
    ensures
        s@ == seq![':'] + port ==> r@ == "0.0.0.0:"@ + port,
        s@.len() == 0 || s@[0] != ':' ==> r@ == s@,
{
    if s@ == seq![':'] + port {
        assert(s@[0] == ':');
        assert(s@.skip(1) =~= port);
    }
}

/// A setting that is empty, `{}` or `null` gives no document, and one that is empty, `[]`
/// or `null` no list; any other is read without the white space around it.
pub proof fn law_empty_settings_give_nothing(
    s: &str,
    document: Option<String>,
    list: Option<String>,
)
    requires
        call_ensures(document_text, (s,), document),
        call_ensures(list_text, (s,), list),
    ensures
        ({
            let t = trimmed(s@);
            &&& document is None <==> t.len() == 0 || t == "{}"@ || t == "null"@
            &&& list is None <==> t.len() == 0 || t == "[]"@ || t == "null"@
            &&& document matches Some(d) ==> d@ == t
            &&& list matches Some(d) ==> d@ == t
        }),
{
}

/// Resources are read as resources and affinities as affinities, and an error names the
/// setting.
pub proof fn law_documents_are_read_by_their_shape(
    s: &str,
    field: &str,
    resources: Result<Option<String>, String>,
    affinity: Result<Option<String>, String>,
)
    requires
        call_ensures(parse_json_opt, (s, field, DocumentShape::Resources), resources),
        call_ensures(parse_json_opt, (s, field, DocumentShape::Affinity), affinity),
        trimmed(s@).len() > 0,
        trimmed(s@) != "{}"@,
        trimmed(s@) != "null"@,
    ensures
        match resources_json(trimmed(s@)) {
            Ok(d) => resources matches Ok(Some(x)) && x@ == d,
            Err(e) => resources matches Err(m) && m@ == "failed to parse --"@ + field@
                + " as JSON: "@ + e,
        },
        match affinity_json(trimmed(s@)) {
            Ok(d) => affinity matches Ok(Some(x)) && x@ == d,
            Err(e) => affinity matches Err(m) && m@ == "failed to parse --"@ + field@
                + " as JSON: "@ + e,
        },
{
}

/// Tolerations are read one by one, none from a setting that is empty, and an error names the
/// setting.
pub proof fn law_tolerations_are_read(s: &str, field: &str, r: Result<Vec<String>, String>)
    requires
        call_ensures(parse_json_vec, (s, field), r),
    ensures
        ({
            let t = trimmed(s@);
            let nothing = t.len() == 0 || t == "[]"@ || t == "null"@;
            &&& nothing ==> (r matches Ok(v) && v@.len() == 0)
            &&& !nothing ==> match tolerations_json(t) {
                Ok(d) => r matches Ok(v) && texts(v@) == d,
                Err(e) => r matches Err(m) && m@ == "failed to parse --"@ + field@
                    + " as JSON array: "@ + e,
            }
        }),
{
}

} // verus!
