//! What Secrets hold.

use vstd::prelude::*;
use vstd::utf8::{decode_utf8, valid_utf8};

use crate::text::same_text;

verus! {

/// The text that bytes stand for, with a replacement character for what is not
/// UTF-8.
pub uninterp spec fn lossy_text(bytes: Seq<u8>) -> Seq<char>;

/// Decodes bytes with `String::from_utf8_lossy`.
///
/// Bytes that are valid UTF-8 are claimed to be decoded as such.  Of other bytes
/// only that the text is determined by them is claimed: where the replacement
/// characters stand is left open.
#[verifier::external_body]
pub(crate) fn from_utf8_lossy(bytes: &[u8]) -> (r: String)
    ensures
        r@ == lossy_text(bytes@),
        valid_utf8(bytes@) ==> r@ == decode_utf8(bytes@),
{
    String::from_utf8_lossy(bytes).to_string()
}

/// The bytes under a key, if there is such a key.  The keys of a Secret are
/// distinct.
pub open spec fn bytes_under(data: Seq<(String, Vec<u8>)>, key: Seq<char>) -> Option<Seq<u8>>
    decreases data.len(),
{
    if data.len() == 0 {
        None
    } else if data[0].0@ == key {
        Some(data[0].1@)
    } else {
        bytes_under(data.skip(1), key)
    }
}

/// The text under a key, or nothing where the key is missing.
pub open spec fn text_under(data: Seq<(String, Vec<u8>)>, key: Seq<char>) -> Seq<char> {
    match bytes_under(data, key) {
        Some(b) => lossy_text(b),
        None => lossy_text(Seq::empty()),
    }
}

/// The position of a key.
fn position(data: &Vec<(String, Vec<u8>)>, key: &str) -> (r: Option<usize>)
    ensures
        match r {
            Some(i) => i < data.len() && bytes_under(data@, key@) == Some(data@[i as int].1@),
            None => bytes_under(data@, key@) is None,
        },
{
    let mut i: usize = 0;
    assert(data@.skip(0) =~= data@);
    while i < data.len()
        invariant
            i <= data.len(),
            bytes_under(data@, key@) == bytes_under(data@.skip(i as int), key@),
        decreases data.len() - i,
    {
        assert(data@.skip(i as int)[0] == data@[i as int]);
        if same_text(data[i].0.as_str(), key) {
            return Some(i);
        }
        assert(data@.skip(i as int).skip(1) =~= data@.skip(i + 1));
        i += 1;
    }
    None
}

/// The text under a key, if there is such a key.
pub fn find_text(data: &Vec<(String, Vec<u8>)>, key: &str) -> (r: Option<String>)
    ensures
        match r {
            Some(s) => bytes_under(data@, key@) matches Some(b) && s@ == lossy_text(b),
            None => bytes_under(data@, key@) is None,
        },
{
    match position(data, key) {
        Some(i) => Some(from_utf8_lossy(data[i].1.as_slice())),
        None => None,
    }
}

/// The bytes under a key, if there is such a key.
pub fn bytes_of<'a>(data: &'a Vec<(String, Vec<u8>)>, key: &str) -> (r: Option<&'a Vec<u8>>)
    ensures
        match r {
            Some(b) => bytes_under(data@, key@) == Some(b@),
            None => bytes_under(data@, key@) is None,
        },
{
    match position(data, key) {
        Some(i) => Some(&data[i].1),
        None => None,
    }
}

/// The text under a key, or the text of no bytes.
pub fn text_or_default(data: &Vec<(String, Vec<u8>)>, key: &str) -> (r: String)
    ensures
        r@ == text_under(data@, key@),
        bytes_under(data@, key@) is None ==> r@.len() == 0,
{
    match find_text(data, key) {
        Some(s) => s,
        None => {
            let none: Vec<u8> = Vec::new();
            assert(none@ =~= Seq::<u8>::empty());
            let r = from_utf8_lossy(none.as_slice());
            assert(valid_utf8(none@));
            assert(decode_utf8(none@).len() == 0);
            r
        },
    }
}

proof fn lemma_first_of_the_key(data: Seq<(String, Vec<u8>)>, key: Seq<char>, i: int)
    requires
        0 <= i < data.len(),
        data[i].0@ == key,
        forall|j: int| 0 <= j < i ==> (#[trigger] data[j]).0@ != key,
    ensures
        bytes_under(data, key) == Some(data[i].1@),
    decreases data.len(),
{
    if i > 0 {
        let rest = data.skip(1);
        assert(data[0].0@ != key);
        assert(rest[i - 1] == data[i]);
        assert forall|j: int| 0 <= j < i - 1 implies (#[trigger] rest[j]).0@ != key by {
            assert(rest[j] == data[j + 1]);
        }
        lemma_first_of_the_key(rest, key, i - 1);
    }
}

proof fn lemma_missing_key(data: Seq<(String, Vec<u8>)>, key: Seq<char>)
    requires
        forall|j: int| 0 <= j < data.len() ==> (#[trigger] data[j]).0@ != key,
    ensures
        bytes_under(data, key) is None,
    decreases data.len(),
{
    if data.len() > 0 {
        let rest = data.skip(1);
        assert(data[0].0@ != key);
        assert forall|j: int| 0 <= j < rest.len() implies (#[trigger] rest[j]).0@ != key by {
            assert(rest[j] == data[j + 1]);
        }
        lemma_missing_key(rest, key);
    }
}

/// What is found under a key is what stands there, as text where it is UTF-8; nothing is
/// found under a key that is missing.
pub proof fn law_keys_are_found(
    data: &Vec<(String, Vec<u8>)>,
    key: &str,
    bytes: Option<&Vec<u8>>,
    text: Option<String>,
    or_empty: String,
    i: int,
)
    requires
        call_ensures(bytes_of, (data, key), bytes),
        call_ensures(find_text, (data, key), text),
        call_ensures(text_or_default, (data, key), or_empty),
    ensures
        (forall|j: int| 0 <= j < data@.len() ==> (#[trigger] data@[j]).0@ != key@) ==> bytes is None
            && text is None && or_empty@.len() == 0,
        0 <= i < data@.len() && data@[i].0@ == key@ && (forall|j: int|
            0 <= j < i ==> (#[trigger] data@[j]).0@ != key@) ==> {
            &&& bytes matches Some(b) && b@ == data@[i].1@
            &&& text matches Some(t) && t@ == or_empty@ && t@ == lossy_text(data@[i].1@)
        },
{
    if forall|j: int| 0 <= j < data@.len() ==> (#[trigger] data@[j]).0@ != key@ {
        lemma_missing_key(data@, key@);
    }
    if 0 <= i < data@.len() && data@[i].0@ == key@ && (forall|j: int|
        0 <= j < i ==> (#[trigger] data@[j]).0@ != key@) {
        lemma_first_of_the_key(data@, key@, i);
    }
}

} // verus!
