//! Object metadata shared by every resource.

use vstd::prelude::*;

use crate::helpers::Instant;

verus! {

/// Standard object metadata, as far as the operator reads it.
#[derive(Clone, Debug)]
pub struct ObjectMeta {
    pub name: Option<String>,
    pub generate_name: Option<String>,
    pub namespace: Option<String>,
    pub uid: Option<String>,
    pub resource_version: Option<String>,
    pub generation: Option<i64>,
    pub finalizers: Vec<String>,
    pub creation_timestamp: Option<Instant>,
}

/// The characters of an optional string.
pub open spec fn opt_text(o: Option<String>) -> Option<Seq<char>> {
    match o {
        Some(s) => Some(s@),
        None => None,
    }
}

/// The characters of an optional string, or nothing.
pub open spec fn text_or_empty(o: Option<String>) -> Seq<char> {
    match o {
        Some(s) => s@,
        None => Seq::<char>::empty(),
    }
}

/// A copy of an optional string.
pub fn clone_opt(o: &Option<String>) -> (r: Option<String>)
    ensures
        r == *o,
{
    match o {
        Some(s) => Some(s.clone()),
        None => None,
    }
}

/// A copy of a list of strings.
pub fn clone_list(v: &Vec<String>) -> (r: Vec<String>)
    ensures
        r@ == v@,
{
    let mut out: Vec<String> = Vec::new();
    let mut i: usize = 0;
    while i < v.len()
        invariant
            i <= v.len(),
            out@ == v@.take(i as int),
        decreases v.len() - i,
    {
        out.push(v[i].clone());
        i += 1;
    }
    assert(v@.take(i as int) == v@);
    out
}

/// The value of an optional string, or the empty string.
pub fn unwrap_or_empty(o: &Option<String>) -> (r: String)
    ensures
        r@ == text_or_empty(*o),
{
    match o {
        Some(s) => s.clone(),
        None => String::new(),
    }
}

impl ObjectMeta {
    /// Metadata that holds a name and nothing else.
    pub fn named(name: &str) -> (r: Self)
        ensures
            opt_text(r.name) == Some(name@),
            r.generate_name is None,
            r.namespace is None,
            r.uid is None,
            r.resource_version is None,
            r.generation is None,
            r.finalizers@.len() == 0,
            r.creation_timestamp is None,
    {
        ObjectMeta {
            name: Some(name.to_owned()),
            generate_name: None,
            namespace: None,
            uid: None,
            resource_version: None,
            generation: None,
            finalizers: Vec::new(),
            creation_timestamp: None,
        }
    }

    /// The name that identifies the object: its name, else the prefix from
    /// which a name is generated, else nothing.
    pub open spec fn name_text(self) -> Seq<char> {
        match self.name {
            Some(n) => n@,
            None => text_or_empty(self.generate_name),
        }
    }

    /// The namespace, or nothing for an object that has none.
    pub open spec fn namespace_text(self) -> Seq<char> {
        text_or_empty(self.namespace)
    }

    /// The most useful name of the object.
    pub fn name_any(&self) -> (r: String)
        ensures
            r@ == self.name_text(),
    {
        match &self.name {
            Some(n) => n.clone(),
            None => unwrap_or_empty(&self.generate_name),
        }
    }

    /// The namespace, or the empty string.
    pub fn namespace_or_default(&self) -> (r: String)
        ensures
            r@ == self.namespace_text(),
    {
        unwrap_or_empty(&self.namespace)
    }
}

/// An object goes by its name, else by the prefix of a name that is still to be made, and
/// is in the namespace that is written.
pub proof fn law_objects_go_by_their_name(meta: &ObjectMeta, name: String, namespace: String)
    requires
        call_ensures(ObjectMeta::name_any, (meta,), name),
        call_ensures(ObjectMeta::namespace_or_default, (meta,), namespace),
    ensures
        meta.name matches Some(n) ==> name@ == n@,
        meta.name is None ==> (meta.generate_name matches Some(g) ==> name@ == g@),
        meta.name is None && meta.generate_name is None ==> name@.len() == 0,
        meta.namespace matches Some(n) ==> namespace@ == n@,
        meta.namespace is None ==> namespace@.len() == 0,
{
}

} // verus!
