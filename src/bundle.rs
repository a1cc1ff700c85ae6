use vstd::prelude::*;
use vstd::string::*;

verus! {

/// Whether the text is one JSON document, as serde_json reads it.
pub uninterp spec fn json_parses(text: Seq<char>) -> bool;

/// The compact JSON text of the value that the JSON pointer `pointer` selects
/// in the document `text`, where it selects one.
pub uninterp spec fn json_at(text: Seq<char>, pointer: Seq<char>) -> Option<Seq<char>>;

pub open spec fn opt_text(o: Option<String>) -> Option<Seq<char>> {
    match o {
        Some(s) => Some(s@),
        None => None,
    }
}

/// Relies on `serde_json::from_str` into a `Value`, `Value::pointer` and
/// `Value`'s `Display` (compact JSON): an error exactly where the text is not a
/// JSON document, else the text of the selected value, if any. Each depends on
/// its arguments alone.
#[verifier::external_body]
fn json_pointer_text(text: &str, pointer: &str) -> (r: Result<Option<String>, ()>)
    ensures
        r is Err <==> !json_parses(text@),
        r matches Ok(o) ==> opt_text(o) == json_at(text@, pointer@),
{
    let v: serde_json::Value = serde_json::from_str(text).map_err(|_| ())?;
    Ok(v.pointer(pointer).map(|x| x.to_string()))
}

/// Why the hash could not be taken from a contract bundle.
#[derive(Clone, Copy, Debug, PartialEq, Eq, Structural)]
pub enum BundleError {
    /// The bundle is not JSON.
    MalformedJson,
    /// The bundle has no `source` field.
    MissingSource,
    /// The `source` field has no `hash` field.
    MissingHash,
}

/// `lo .. hi` is what remains of `s` once the double quotes at both of its
/// ends are taken off.
pub open spec fn unquoted_span(s: Seq<char>, lo: int, hi: int) -> bool {
    &&& 0 <= lo <= hi <= s.len()
    &&& forall|j: int| 0 <= j < lo ==> #[trigger] s[j] == '"'
    &&& forall|j: int| hi <= j < s.len() ==> #[trigger] s[j] == '"'
    &&& lo < hi ==> s[lo] != '"' && s[hi - 1] != '"'
}

/// `r` is `s` without the double quotes at both of its ends.
pub open spec fn unquoted(s: Seq<char>, r: Seq<char>) -> bool {
    exists|lo: int, hi: int| unquoted_span(s, lo, hi) && r == s.subrange(lo, hi)
}

/// `s` without the double quotes at both of its ends.
pub fn unquote(s: &str) -> (r: String)
    ensures
        unquoted(s@, r@),
{
    let n = s.unicode_len();
    let mut lo: usize = 0;
    while lo < n && s.get_char(lo) == '"'
        invariant
            n == s@.len(),
            lo <= n,
            forall|j: int| 0 <= j < lo ==> #[trigger] s@[j] == '"',
        decreases n - lo,
    {
        lo = lo + 1;
    }
    let mut hi: usize = n;
    while hi > lo && s.get_char(hi - 1) == '"'
        invariant
            n == s@.len(),
            lo <= hi <= n,
            forall|j: int| 0 <= j < lo ==> #[trigger] s@[j] == '"',
            lo < n ==> s@[lo as int] != '"',
            forall|j: int| hi <= j < n ==> #[trigger] s@[j] == '"',
        decreases hi - lo,
    {
        hi = hi - 1;
    }
    let r = String::from_str(s.substring_char(lo, hi));
    assert(unquoted_span(s@, lo as int, hi as int));
    r
}

/// The `source.hash` field of a contract bundle's JSON text, written as
/// compact JSON and without the quotes at its ends.
pub fn hash_from_bundle_text(text: &str) -> (r: Result<String, BundleError>)
    ensures
        !json_parses(text@) ==> r == Err::<String, BundleError>(BundleError::MalformedJson),
        json_parses(text@) && json_at(text@, "/source"@) is None ==> r == Err::<String, BundleError>(
            BundleError::MissingSource,
        ),
        json_parses(text@) && json_at(text@, "/source"@) is Some && json_at(
            text@,
            "/source/hash"@,
        ) is None ==> r == Err::<String, BundleError>(BundleError::MissingHash),
        json_parses(text@) && json_at(text@, "/source"@) is Some ==> match json_at(
            text@,
            "/source/hash"@,
        ) {
            Some(h) => (r matches Ok(s) && unquoted(h, s@)),
            None => true,
        },
{
    match json_pointer_text(text, "/source") {
        Err(_) => Err(BundleError::MalformedJson),
        Ok(None) => Err(BundleError::MissingSource),
        Ok(Some(_)) => match json_pointer_text(text, "/source/hash") {
            Err(_) => Err(BundleError::MalformedJson),
            Ok(None) => Err(BundleError::MissingHash),
            Ok(Some(h)) => {
                let u = unquote(h.as_str());
                Ok(u)
            },
        },
    }
}

} // verus!
