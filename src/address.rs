use vstd::prelude::*;

verus! {

pub open spec fn is_word_char(c: char) -> bool {
    ('0' <= c && c <= '9') || ('a' <= c && c <= 'z') || ('A' <= c && c <= 'Z')
}

/// `word` is a nonempty run of ASCII letters and digits, and `prefix`, `word`,
/// `suffix` stand in a row somewhere in `text`.
pub open spec fn framed_in(text: Seq<char>, prefix: Seq<char>, word: Seq<char>, suffix: Seq<char>) -> bool {
    &&& word.len() > 0
    &&& forall|i: int| 0 <= i < word.len() ==> is_word_char(#[trigger] word[i])
    &&& exists|at: int|
        0 <= at && at + prefix.len() + word.len() + suffix.len() <= text.len()
            && #[trigger] text.subrange(at, at + prefix.len() + word.len() + suffix.len())
            == prefix + word + suffix
}

/// Relies on `regex::escape`, `regex::Regex::new` and `regex::Regex::captures`:
/// the pattern `<prefix>([0-9a-zA-Z]+)<suffix>`, with prefix and suffix escaped
/// to literals, matches where they and a nonempty run of ASCII letters and
/// digits stand in a row, and its group 1 is that run. `captures` finds a
/// match wherever one exists; compiling fails only past the regex size limit,
/// far above a pattern of a thousand literal characters.
#[verifier::external_body]
pub(crate) fn capture_framed_word(prefix: &str, suffix: &str, text: &str) -> (r: Option<String>)
    ensures
        r matches Some(w) ==> framed_in(text@, prefix@, w@, suffix@),
        r is None && prefix@.len() + suffix@.len() <= 1000 ==> forall|w: Seq<char>|
            !framed_in(text@, prefix@, w, suffix@),
{
    let pattern = format!("{}([0-9a-zA-Z]+){}", regex::escape(prefix), regex::escape(suffix));
    let re = regex::Regex::new(&pattern).ok()?;
    let caps = re.captures(text)?;
    caps.get(1).map(|m| m.as_str().to_string())
}

} // verus!
