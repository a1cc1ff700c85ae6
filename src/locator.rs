use vstd::prelude::*;
use vstd::string::*;

verus! {

/// A target in the live page: a CSS selector or an XPath expression.
pub enum Locator {
    Css(String),
    XPath(String),
}

/// What a locator is, as text.
pub enum LocatorView {
    Css(Seq<char>),
    XPath(Seq<char>),
}

impl View for Locator {
    type V = LocatorView;

    open spec fn view(&self) -> LocatorView {
        match self {
            Locator::Css(s) => LocatorView::Css(s@),
            Locator::XPath(s) => LocatorView::XPath(s@),
        }
    }
}

pub open spec fn apostrophe_free(s: Seq<char>) -> bool {
    forall|i: int| 0 <= i < s.len() ==> s[i] != '\''
}

/// The text that stands for one character of a value inside a single-quoted
/// argument of `concat(...)`: an apostrophe closes the literal, adds it as a
/// double-quoted literal of its own, and opens a new single-quoted literal.
pub open spec fn piece(c: char) -> Seq<char> {
    if c == '\'' {
        seq!['\'', ',', ' ', '"', '\'', '"', ',', ' ', '\'']
    } else {
        seq![c]
    }
}

/// All characters of `s`, each replaced by its piece.
pub open spec fn pieces(s: Seq<char>) -> Seq<char>
    decreases s.len(),
{
    if s.len() == 0 {
        Seq::empty()
    } else {
        pieces(s.drop_last()) + piece(s.last())
    }
}

/// The XPath expression that denotes the string `s`.
pub open spec fn literal_of(s: Seq<char>) -> Seq<char> {
    if apostrophe_free(s) {
        seq!['\''] + s + seq!['\'']
    } else {
        "concat('"@ + pieces(s) + "')"@
    }
}

// Reading an XPath expression back. The readers below follow XPath 1.0's
// grammar for string literals, which have no escapes: a literal runs from its
// opening quote to the next quote of the same kind.
/// Inside a single-quoted literal of an argument list.
pub open spec fn read_in_single(e: Seq<char>) -> Option<Seq<char>>
    decreases e.len(), 1int,
{
    if e.len() == 0 {
        None
    } else if e[0] == '\'' {
        read_after_literal(e.drop_first())
    } else {
        match read_in_single(e.drop_first()) {
            Some(v) => Some(seq![e[0]] + v),
            None => None,
        }
    }
}

/// Inside a double-quoted literal of an argument list.
pub open spec fn read_in_double(e: Seq<char>) -> Option<Seq<char>>
    decreases e.len(), 1int,
{
    if e.len() == 0 {
        None
    } else if e[0] == '"' {
        read_after_literal(e.drop_first())
    } else {
        match read_in_double(e.drop_first()) {
            Some(v) => Some(seq![e[0]] + v),
            None => None,
        }
    }
}

/// After a literal of an argument list: the list closes, or `, ` and the next
/// literal follow.
pub open spec fn read_after_literal(e: Seq<char>) -> Option<Seq<char>>
    decreases e.len(), 0int,
{
    if e.len() == 1 && e[0] == ')' {
        Some(Seq::empty())
    } else if e.len() >= 3 && e[0] == ',' && e[1] == ' ' {
        if e[2] == '\'' {
            read_in_single(e.subrange(3, e.len() as int))
        } else if e[2] == '"' {
            read_in_double(e.subrange(3, e.len() as int))
        } else {
            None
        }
    } else {
        None
    }
}

/// The string that the whole expression `e` denotes, when `e` is nothing but a
/// single-quoted literal or a `concat` of literals.
pub open spec fn denoted(e: Seq<char>) -> Option<Seq<char>> {
    if e.len() >= 8 && e.subrange(0, 8) == "concat('"@ {
        read_in_single(e.subrange(8, e.len() as int))
    } else if e.len() >= 2 && e[0] == '\'' && e.last() == '\''
        && apostrophe_free(e.subrange(1, e.len() - 1)) {
        Some(e.subrange(1, e.len() - 1))
    } else {
        None
    }
}

proof fn lemma_pieces_prepend(c: char, s: Seq<char>)
    ensures
        pieces(seq![c] + s) == piece(c) + pieces(s),
    decreases s.len(),
{
    if s.len() == 0 {
        assert(seq![c] + s =~= seq![c]);
        assert((seq![c] + s).drop_last() =~= Seq::<char>::empty());
        assert(pieces(Seq::<char>::empty()) == Seq::<char>::empty());
        assert(piece(c) + pieces(s) =~= piece(c));
        assert(pieces(seq![c]) =~= pieces(Seq::<char>::empty()) + piece(c));
    } else {
        let t = seq![c] + s;
        assert(t.drop_last() =~= seq![c] + s.drop_last());
        assert(t.last() == s.last());
        lemma_pieces_prepend(c, s.drop_last());
        assert(pieces(t) == pieces(t.drop_last()) + piece(t.last()));
        assert(pieces(s) == pieces(s.drop_last()) + piece(s.last()));
        assert(pieces(t) =~= piece(c) + pieces(s));
    }
}

proof fn lemma_read_pieces(s: Seq<char>)
    ensures
        read_in_single(pieces(s) + "')"@) == Some(s),
    decreases s.len(),
{
    reveal_strlit("')");
    let close = "')"@;
    if s.len() == 0 {
        assert(pieces(s) + close =~= close);
        assert(close.drop_first() =~= seq![')']);
        assert(read_after_literal(seq![')']) == Some(Seq::<char>::empty()));
        assert(read_in_single(close) == Some(Seq::<char>::empty()));
        assert(s =~= Seq::<char>::empty());
    } else {
        let c = s[0];
        let r = s.drop_first();
        assert(s =~= seq![c] + r);
        lemma_pieces_prepend(c, r);
        lemma_read_pieces(r);
        let tail = pieces(r) + close;
        let e = pieces(s) + close;
        assert(e =~= piece(c) + tail);
        if c == '\'' {
            // `', "'", '`: close, separator, a double-quoted apostrophe,
            // separator, open
            assert(e[0] == '\'');
            let e1 = e.drop_first();
            assert(e1 =~= seq![',', ' ', '"', '\'', '"', ',', ' ', '\''] + tail);
            assert(read_in_single(e) == read_after_literal(e1));
            let e2 = e1.subrange(3, e1.len() as int);
            assert(e2 =~= seq!['\'', '"', ',', ' ', '\''] + tail);
            assert(read_after_literal(e1) == read_in_double(e2));
            let e3 = e2.drop_first();
            assert(e3 =~= seq!['"', ',', ' ', '\''] + tail);
            let e4 = e3.drop_first();
            assert(e4 =~= seq![',', ' ', '\''] + tail);
            assert(read_in_double(e3) == read_after_literal(e4));
            assert(e4.subrange(3, e4.len() as int) =~= tail);
            assert(read_after_literal(e4) == read_in_single(tail));
            assert(read_in_double(e2) == Some(seq!['\''] + r));
        } else {
            assert(piece(c) == seq![c]);
            assert(e.drop_first() =~= tail);
            assert(e[0] == c);
            assert(seq![c] + r =~= s);
        }
    }
}

/// Substituting a text into an XPath expression through `xpath_literal` cannot
/// change the expression's structure: the substituted part, read by XPath's
/// literal grammar, is one complete string expression that denotes exactly that
/// text, whatever quotes or brackets the text holds.
pub proof fn lemma_literal_denotes_text(s: Seq<char>)
    ensures
        denoted(literal_of(s)) == Some(s),
{
    reveal_strlit("concat('");
    reveal_strlit("')");
    let e = literal_of(s);
    if apostrophe_free(s) {
        assert(e[0] == '\'');
        if e.len() >= 8 {
            assert(e.subrange(0, 8)[0] != "concat('"@[0]);
        }
        assert(e.subrange(1, e.len() - 1) =~= s);
    } else {
        assert(e.subrange(0, 8) =~= "concat('"@);
        assert(e.subrange(8, e.len() as int) =~= pieces(s) + "')"@);
        lemma_read_pieces(s);
    }
}

/// Whether `s` holds no apostrophe.
fn has_no_apostrophe(s: &str) -> (r: bool)
    ensures
        r == apostrophe_free(s@),
{
    let n = s.unicode_len();
    let mut i: usize = 0;
    while i < n
        invariant
            n == s@.len(),
            i <= n,
            apostrophe_free(s@.subrange(0, i as int)),
        decreases n - i,
    {
        if s.get_char(i) == '\'' {
            return false;
        }
        assert forall|j: int| 0 <= j < i + 1 implies #[trigger] s@.subrange(0, i + 1)[j] != '\'' by {
            if j < i {
                assert(s@.subrange(0, i + 1)[j] == s@.subrange(0, i as int)[j]);
            }
        }
        i = i + 1;
    }
    assert(s@.subrange(0, n as int) =~= s@);
    true
}

/// The XPath expression that denotes the text `s`: a single-quoted literal, or,
/// where `s` holds an apostrophe, a `concat` of literals.
pub fn xpath_literal(s: &str) -> (r: String)
    ensures
        r@ == literal_of(s@),
{
    proof {
        reveal_strlit("'");
        reveal_strlit("concat('");
        reveal_strlit("')");
        reveal_strlit("', \"'\", '");
    }
    if has_no_apostrophe(s) {
        let mut r = String::from_str("'");
        r.append(s);
        r.append("'");
        assert(r@ =~= seq!['\''] + s@ + seq!['\'']);
        return r;
    }
    let mut r = String::from_str("concat('");
    let n = s.unicode_len();
    let mut i: usize = 0;
    while i < n
        invariant
            n == s@.len(),
            i <= n,
            r@ == "concat('"@ + pieces(s@.subrange(0, i as int)),
        decreases n - i,
    {
        let c = s.get_char(i);
        let ghost before = r@;
        if c == '\'' {
            r.append("', \"'\", '");
            proof {
                reveal_strlit("', \"'\", '");
                assert("', \"'\", '"@ =~= piece(c));
            }
        } else {
            r.append(s.substring_char(i, i + 1));
            assert(s@.subrange(i as int, i + 1) =~= piece(c));
        }
        assert(r@ =~= before + piece(c));
        let ghost next = s@.subrange(0, i + 1);
        assert(next.drop_last() =~= s@.subrange(0, i as int));
        assert(next.last() == c);
        assert(pieces(next) == pieces(next.drop_last()) + piece(c));
        i = i + 1;
    }
    r.append("')");
    assert(s@.subrange(0, n as int) =~= s@);
    r
}

/// An XPath locator made of a fixed head, the literal for `text`, and a fixed tail.
fn templated(head: &str, text: &str, tail: &str) -> (r: Locator)
    ensures
        r@ == LocatorView::XPath(head@ + literal_of(text@) + tail@),
{
    let mut x = String::from_str(head);
    let lit = xpath_literal(text);
    x.append(lit.as_str());
    x.append(tail);
    Locator::XPath(x)
}

pub open spec fn field_input_view(label: Seq<char>) -> LocatorView {
    LocatorView::XPath(
        "//label/*[contains(text(),"@ + literal_of(label) + ")]/ancestor::div[1]//*/input"@,
    )
}

/// The input box of the form field labelled `label`.
pub fn field_input(label: &str) -> (r: Locator)
    ensures
        r@ == field_input_view(label@),
{
    templated("//label/*[contains(text(),", label, ")]/ancestor::div[1]//*/input")
}

pub open spec fn message_option_view(method: Seq<char>) -> LocatorView {
    LocatorView::XPath(
        "//*[contains(text(),'Message to Send')]/ancestor::div[1]/div//*[contains(text(),"@
            + literal_of(method) + ")]"@,
    )
}

/// The entry for `method` in the list of messages of a contract.
pub fn message_option(method: &str) -> (r: Locator)
    ensures
        r@ == message_option_view(method@),
{
    templated(
        "//*[contains(text(),'Message to Send')]/ancestor::div[1]/div//*[contains(text(),",
        method,
        ")]",
    )
}

pub open spec fn unit_option_view(unit: Seq<char>) -> LocatorView {
    LocatorView::XPath("//div[@role='option']/span[contains(text(),"@ + literal_of(unit) + ")]"@)
}

/// The option for the endowment unit `unit`.
pub fn unit_option(unit: &str) -> (r: Locator)
    ensures
        r@ == unit_option_view(unit@),
{
    templated("//div[@role='option']/span[contains(text(),", unit, ")]")
}

pub open spec fn text_view(text: Seq<char>) -> LocatorView {
    LocatorView::XPath("//*[contains(text(),"@ + literal_of(text) + ")]"@)
}

/// Any element whose text holds `text`.
pub fn with_text(text: &str) -> (r: Locator)
    ensures
        r@ == text_view(text@),
{
    templated("//*[contains(text(),", text, ")]")
}

pub open spec fn button_view(text: Seq<char>) -> LocatorView {
    LocatorView::XPath("//button[contains(text(),"@ + literal_of(text) + ")]"@)
}

/// A button whose text holds `text`.
pub fn button(text: &str) -> (r: Locator)
    ensures
        r@ == button_view(text@),
{
    templated("//button[contains(text(),", text, ")]")
}

/// A CSS locator.
pub fn css(selector: &str) -> (r: Locator)
    ensures
        r@ == LocatorView::Css(selector@),
{
    Locator::Css(String::from_str(selector))
}

/// An XPath locator written out in full.
pub fn xpath(expr: &str) -> (r: Locator)
    ensures
        r@ == LocatorView::XPath(expr@),
{
    Locator::XPath(String::from_str(expr))
}

} // verus!
