use vstd::prelude::*;
use vstd::string::*;
use crate::flow::{acts_on_element, Lookup, Step};
use crate::locator::{
    button, button_view, css, field_input, field_input_view, message_option, message_option_view,
    text_view, unit_option, unit_option_view, with_text, xpath, LocatorView,
};
use crate::upload_input::{pair_view, UploadInput};

verus! {

/// Every element action comes right after a lookup or after another element
/// action: nothing acts on an element that no lookup resolved.
pub open spec fn lookup_before_actions(steps: Seq<Step>) -> bool {
    forall|k: int|
        0 <= k < steps.len() && acts_on_element(#[trigger] steps[k]) ==> k > 0 && (steps[k
            - 1] is Locate || acts_on_element(steps[k - 1]))
}

fn push_step(v: &mut Vec<Step>, s: Step)
    requires
        lookup_before_actions(old(v)@),
        acts_on_element(s) ==> old(v)@.len() > 0 && (old(v)@.last() is Locate || acts_on_element(
            old(v)@.last(),
        )),
    ensures
        final(v)@ == old(v)@.push(s),
        lookup_before_actions(final(v)@),
{
    v.push(s);
    assert forall|k: int|
        0 <= k < v@.len() && acts_on_element(#[trigger] v@[k]) implies k > 0 && (v@[k - 1] is Locate
            || acts_on_element(v@[k - 1])) by {
        if k < v@.len() - 1 {
            assert(v@[k] == old(v)@[k]);
            assert(v@[k - 1] == old(v)@[k - 1]);
        }
    }
}

/// Steps `start ..` fill the form fields: for each (label, value) in order, find
/// the input labelled so, clear it, and type the value.
pub open spec fn fills_fields(steps: Seq<Step>, start: int, fields: Seq<(Seq<char>, Seq<char>)>) -> bool {
    forall|i: int|
        0 <= i < fields.len() ==> {
            &&& steps[start + 3 * i] matches Step::Locate(Lookup::Now, l) && l@ == field_input_view(
                (#[trigger] fields[i]).0,
            )
            &&& steps[start + 3 * i + 1] is Clear
            &&& steps[start + 3 * i + 2] matches Step::Type(t) && t@ == fields[i].1
        }
}

pub open spec fn fields_view(fields: Seq<(String, String)>) -> Seq<(Seq<char>, Seq<char>)> {
    fields.map_values(|p: (String, String)| pair_view(p))
}

fn push_fields(v: &mut Vec<Step>, fields: &Vec<(String, String)>)
    requires
        lookup_before_actions(old(v)@),
    ensures
        lookup_before_actions(final(v)@),
        final(v)@.len() == old(v)@.len() + 3 * fields@.len(),
        final(v)@.subrange(0, old(v)@.len() as int) == old(v)@,
        fills_fields(final(v)@, old(v)@.len() as int, fields_view(fields@)),
{
    let ghost start = old(v)@.len() as int;
    let ghost fv = fields_view(fields@);
    let mut i: usize = 0;
    while i < fields.len()
        invariant
            i <= fields@.len(),
            v@.len() == start + 3 * i,
            start == old(v)@.len(),
            fv == fields_view(fields@),
            v@.subrange(0, start) == old(v)@,
            fills_fields(v@, start, fv.subrange(0, i as int)),
            lookup_before_actions(v@),
        decreases fields@.len() - i,
    {
        let ghost before = v@;
        let label = &fields[i].0;
        let value = &fields[i].1;
        push_step(v, Step::Locate(Lookup::Now, field_input(label.as_str())));
        push_step(v, Step::Clear);
        push_step(v, Step::Type(value.clone()));
        assert(v@.subrange(0, start) =~= before.subrange(0, start));
        assert forall|j: int| 0 <= j < i + 1 implies {
            &&& v@[start + 3 * j] matches Step::Locate(Lookup::Now, l) && l@ == field_input_view(
                (#[trigger] fv.subrange(0, i + 1)[j]).0,
            )
            &&& v@[start + 3 * j + 1] is Clear
            &&& v@[start + 3 * j + 2] matches Step::Type(t) && t@ == fv.subrange(0, i + 1)[j].1
        } by {
            assert(fv.subrange(0, i + 1)[j] == fv[j]);
            if j < i {
                assert(fv.subrange(0, i as int)[j] == fv[j]);
                assert(v@[start + 3 * j] == before[start + 3 * j]);
                assert(v@[start + 3 * j + 1] == before[start + 3 * j + 1]);
                assert(v@[start + 3 * j + 2] == before[start + 3 * j + 2]);
            } else {
                assert(fv[j] == pair_view(fields@[j]));
            }
        }
        i = i + 1;
    }
    assert(fv.subrange(0, i as int) =~= fv);
}

fn join(a: &str, b: &str) -> (r: String)
    ensures
        r@ == a@ + b@,
{
    let mut r = String::from_str(a);
    r.append(b);
    r
}

pub open spec fn locates(st: Step, lookup: Lookup, l: LocatorView) -> bool {
    st matches Step::Locate(k, x) && k == lookup && x@ == l
}

pub open spec fn runs(st: Step, script: Seq<char>) -> bool {
    st matches Step::RunScript(x) && x@ == script
}

pub open spec fn navigates(st: Step, url: Seq<char>) -> bool {
    st matches Step::Navigate(x) && x@ == url
}

pub open spec fn types(st: Step, text: Seq<char>) -> bool {
    st matches Step::Type(x) && x@ == text
}

/// The script that loads jQuery into the page and marks the page with an
/// element `#jquery-ready` once it has loaded.
pub open spec fn jquery_loader() -> Seq<char> {
    "(function (){var d = document;if (!d.getElementById('jquery')) {var s = d.createElement('script');s.src = 'https://code.jquery.com/jquery-3.6.0.min.js';s.id = 'jquery';d.body.appendChild(s);(function() {var nTimer = setInterval(function() {if (window.jQuery) {$('body').append('<div id=\"jquery-ready\"></div');clearInterval(nTimer);}}, 100);})();}})();"@
}

pub open spec fn settings_view() -> LocatorView {
    LocatorView::Css(".app--SideBar-settings"@)
}

/// The first steps of an upload: the upload page at `base`, the local node
/// chosen, jQuery loaded, the account picked, the bundle at `path` attached,
/// and the constructor form opened.
pub open spec fn upload_head_steps(s: Seq<Step>, base: Seq<char>, path: Seq<char>) -> bool {
    &&& s.len() >= 23
    // the upload page, ready once its settings show
    &&& navigates(s[0], base + "/#/upload"@)
    &&& locates(s[1], Lookup::Wait, text_view("Local Node"@))
    // the intro prompt, clicked only where it shows
    &&& locates(s[2], Lookup::Optional, button_view("Skip Intro"@))
    &&& s[3] is Click
    // choose the local node in the settings
    &&& locates(s[4], Lookup::Now, settings_view())
    &&& s[5] is Click
    &&& locates(s[6], Lookup::Now, text_view("Local Node"@))
    &&& s[7] is Click
    &&& locates(s[8], Lookup::Wait, text_view("Upload & Instantiate Contract"@))
    &&& s[9] is Click
    &&& runs(s[10], jquery_loader())
    &&& locates(s[11], Lookup::Wait, LocatorView::Css("#jquery-ready"@))
    // the account
    &&& runs(s[12], "$('[role=combobox]').click()"@)
    &&& runs(s[13], "$('[name=alice]').click()"@)
    // the contract bundle
    &&& locates(s[14], Lookup::Now, LocatorView::Css(".ui--InputFile input"@))
    &&& types(s[15], path)
    &&& runs(s[16], "$(\".ui--InputFile input\").trigger('change')"@)
    &&& locates(s[17], Lookup::Now, settings_view())
    &&& s[18] is Click
    &&& locates(s[19], Lookup::Now, settings_view())
    &&& s[20] is Click
    // the constructor form
    &&& locates(s[21], Lookup::Wait, text_view("Constructor Details"@))
    &&& s[22] is Click
}

/// The last steps of an upload, from index `e` on: the endowment and its unit
/// set, the contract instantiated and signed once each, the outcome awaited,
/// and the page of the new contract opened to read its address.
pub open spec fn upload_tail_steps(
    s: Seq<Step>,
    e: int,
    base: Seq<char>,
    endowment: Seq<char>,
    unit: Seq<char>,
) -> bool {
    &&& s.len() == e + 16
    &&& fills_fields(s, e, seq![("Endowment"@, endowment)])
    &&& locates(
        s[e + 3],
        Lookup::Wait,
        LocatorView::XPath(
            "//label/*[contains(text(),'Endowment')]/ancestor::div[1]//*/div[@role='listbox']"@,
        ),
    )
    &&& s[e + 4] is Click
    &&& locates(s[e + 5], Lookup::Wait, unit_option_view(unit))
    &&& s[e + 6] is Click
    &&& runs(s[e + 7], "$(\"button:contains('Instantiate')\").click()"@)
    &&& runs(s[e + 8], "$(\"button:contains('Sign & Submit')\").click()"@)
    &&& locates(s[e + 9], Lookup::Wait, text_view("Contract successfully instantiated"@))
    &&& locates(s[e + 10], Lookup::Wait, text_view("Dismiss all notifications"@))
    &&& s[e + 11] is Click
    &&& runs(s[e + 12], "$('.ui--Status').hide()"@)
    // the page of the new contract, whose URL holds its address
    &&& locates(s[e + 13], Lookup::Now, button_view("Execute Contract"@))
    &&& s[e + 14] is Click
    &&& s[e + 15] matches Step::ExtractAddress(b) && b@ == base
}

fn upload_head(base: &str, path: &String) -> (r: Vec<Step>)
    ensures
        r@.len() == 23,
        upload_head_steps(r@, base@, path@),
        lookup_before_actions(r@),
{
    let settings = ".app--SideBar-settings";
    let mut v: Vec<Step> = Vec::new();
    v.push(Step::Navigate(join(base, "/#/upload")));
    v.push(Step::Locate(Lookup::Wait, with_text("Local Node")));
    v.push(Step::Locate(Lookup::Optional, button("Skip Intro")));
    v.push(Step::Click);
    v.push(Step::Locate(Lookup::Now, css(settings)));
    v.push(Step::Click);
    v.push(Step::Locate(Lookup::Now, with_text("Local Node")));
    v.push(Step::Click);
    v.push(Step::Locate(Lookup::Wait, with_text("Upload & Instantiate Contract")));
    v.push(Step::Click);
    v.push(Step::RunScript(String::from_str("(function (){var d = document;if (!d.getElementById('jquery')) {var s = d.createElement('script');s.src = 'https://code.jquery.com/jquery-3.6.0.min.js';s.id = 'jquery';d.body.appendChild(s);(function() {var nTimer = setInterval(function() {if (window.jQuery) {$('body').append('<div id=\"jquery-ready\"></div');clearInterval(nTimer);}}, 100);})();}})();")));
    v.push(Step::Locate(Lookup::Wait, css("#jquery-ready")));
    v.push(Step::RunScript(String::from_str("$('[role=combobox]').click()")));
    v.push(Step::RunScript(String::from_str("$('[name=alice]').click()")));
    v.push(Step::Locate(Lookup::Now, css(".ui--InputFile input")));
    v.push(Step::Type(path.clone()));
    v.push(Step::RunScript(String::from_str("$(\".ui--InputFile input\").trigger('change')")));
    v.push(Step::Locate(Lookup::Now, css(settings)));
    v.push(Step::Click);
    v.push(Step::Locate(Lookup::Now, css(settings)));
    v.push(Step::Click);
    v.push(Step::Locate(Lookup::Wait, with_text("Constructor Details")));
    v.push(Step::Click);
    v
}

fn push_upload_tail(v: &mut Vec<Step>, base: &str, endowment: &String, unit: &String)
    requires
        lookup_before_actions(old(v)@),
    ensures
        final(v)@.subrange(0, old(v)@.len() as int) == old(v)@,
        upload_tail_steps(final(v)@, old(v)@.len() as int, base@, endowment@, unit@),
        lookup_before_actions(final(v)@),
{
    let ghost e = old(v)@.len() as int;
    let mut fields: Vec<(String, String)> = Vec::new();
    fields.push((String::from_str("Endowment"), endowment.clone()));
    push_fields(v, &fields);
    let ghost filled = v@;
    v.push(
        Step::Locate(
            Lookup::Wait,
            xpath(
                "//label/*[contains(text(),'Endowment')]/ancestor::div[1]//*/div[@role='listbox']",
            ),
        ),
    );
    v.push(Step::Click);
    v.push(Step::Locate(Lookup::Wait, unit_option(unit.as_str())));
    v.push(Step::Click);
    v.push(Step::RunScript(String::from_str("$(\"button:contains('Instantiate')\").click()")));
    v.push(Step::RunScript(String::from_str("$(\"button:contains('Sign & Submit')\").click()")));
    v.push(Step::Locate(Lookup::Wait, with_text("Contract successfully instantiated")));
    v.push(Step::Locate(Lookup::Wait, with_text("Dismiss all notifications")));
    v.push(Step::Click);
    // hide the notifications, which might otherwise cover buttons while they fade
    v.push(Step::RunScript(String::from_str("$('.ui--Status').hide()")));
    v.push(Step::Locate(Lookup::Now, button("Execute Contract")));
    v.push(Step::Click);
    v.push(Step::ExtractAddress(String::from_str(base)));
    proof {
        assert(fields_view(fields@) =~= seq![("Endowment"@, endowment@)]);
        assert forall|k: int| 0 <= k < filled.len() implies v@[k] == #[trigger] filled[k] by {}
        lemma_fills_prefix(filled, v@, e, seq![("Endowment"@, endowment@)]);
        assert(v@.subrange(0, e) =~= filled.subrange(0, e));
    }
}

proof fn lemma_fills_prefix(
    a: Seq<Step>,
    b: Seq<Step>,
    start: int,
    fields: Seq<(Seq<char>, Seq<char>)>,
)
    requires
        fills_fields(a, start, fields),
        0 <= start,
        start + 3 * fields.len() <= a.len() <= b.len(),
        forall|k: int| 0 <= k < a.len() ==> b[k] == #[trigger] a[k],
    ensures
        fills_fields(b, start, fields),
{
    assert forall|i: int| 0 <= i < fields.len() implies {
        &&& b[start + 3 * i] matches Step::Locate(Lookup::Now, l) && l@ == field_input_view(
            (#[trigger] fields[i]).0,
        )
        &&& b[start + 3 * i + 1] is Clear
        &&& b[start + 3 * i + 2] matches Step::Type(t) && t@ == fields[i].1
    } by {
        assert(b[start + 3 * i] == a[start + 3 * i]);
        assert(b[start + 3 * i + 1] == a[start + 3 * i + 1]);
        assert(b[start + 3 * i + 2] == a[start + 3 * i + 2]);
    }
}

proof fn lemma_head_prefix(a: Seq<Step>, b: Seq<Step>, base: Seq<char>, path: Seq<char>)
    requires
        upload_head_steps(a, base, path),
        a.len() <= b.len(),
        forall|k: int| 0 <= k < a.len() ==> b[k] == #[trigger] a[k],
    ensures
        upload_head_steps(b, base, path),
{
    assert(b[0] == a[0] && b[1] == a[1] && b[2] == a[2] && b[3] == a[3] && b[4] == a[4]);
    assert(b[5] == a[5] && b[6] == a[6] && b[7] == a[7] && b[8] == a[8] && b[9] == a[9]);
    assert(b[10] == a[10] && b[11] == a[11] && b[12] == a[12] && b[13] == a[13]);
    assert(b[14] == a[14] && b[15] == a[15] && b[16] == a[16] && b[17] == a[17]);
    assert(b[18] == a[18] && b[19] == a[19] && b[20] == a[20] && b[21] == a[21]);
    assert(b[22] == a[22]);
}

/// The steps that upload and instantiate the contract of `input` in the UI at
/// `base`, ending with the extraction of the new contract's address.
pub fn upload_plan(input: &UploadInput, base: &str) -> (r: Vec<Step>)
    ensures
        r@.len() == 39 + 3 * input@.initial_values.len(),
        upload_head_steps(r@, base@, input@.contract_path),
        fills_fields(r@, 23, input@.initial_values),
        upload_tail_steps(
            r@,
            23 + 3 * input@.initial_values.len() as int,
            base@,
            input@.endowment,
            input@.endowment_unit,
        ),
        lookup_before_actions(r@),
{
    let mut v = upload_head(base, input.path_text());
    let ghost head = v@;
    push_fields(&mut v, input.fields());
    let ghost filled = v@;
    push_upload_tail(&mut v, base, input.endowment_text(), input.unit_text());
    proof {
        let n = input@.initial_values.len() as int;
        assert forall|k: int| 0 <= k < filled.len() implies v@[k] == #[trigger] filled[k] by {
            assert(v@.subrange(0, filled.len() as int)[k] == v@[k]);
        }
        assert forall|k: int| 0 <= k < head.len() implies filled[k] == #[trigger] head[k] by {
            assert(filled.subrange(0, head.len() as int)[k] == filled[k]);
        }
        assert forall|k: int| 0 <= k < head.len() implies v@[k] == #[trigger] head[k] by {
            assert(v@[k] == filled[k]);
        }
        lemma_head_prefix(head, v@, base@, input@.contract_path);
        lemma_fills_prefix(filled, v@, 23, input@.initial_values);
    }
    v
}

pub open spec fn execute_url(base: Seq<char>, addr: Seq<char>) -> Seq<char> {
    base + "/#/execute/"@ + addr + "/0"@
}

pub open spec fn message_list_view() -> LocatorView {
    LocatorView::XPath("//*[contains(text(),'Message to Send')]/ancestor::div[1]/div"@)
}

/// Steps of a call: the page of the contract at `addr`, `method` picked from
/// its messages, the argument fields filled, and Call pressed.
pub open spec fn invocation_steps(
    s: Seq<Step>,
    base: Seq<char>,
    addr: Seq<char>,
    method: Seq<char>,
    args: Seq<(Seq<char>, Seq<char>)>,
) -> bool {
    let c = 5 + 3 * args.len() as int;
    &&& s.len() >= c + 2
    &&& navigates(s[0], execute_url(base, addr))
    &&& locates(s[1], Lookup::Now, message_list_view())
    &&& s[2] is Click
    &&& locates(s[3], Lookup::Now, message_option_view(method))
    &&& s[4] is Click
    &&& fills_fields(s, 5, args)
    &&& locates(s[c], Lookup::Now, button_view("Call"@))
    &&& s[c + 1] is Click
}

proof fn lemma_invocation_prefix(
    a: Seq<Step>,
    b: Seq<Step>,
    base: Seq<char>,
    addr: Seq<char>,
    method: Seq<char>,
    args: Seq<(Seq<char>, Seq<char>)>,
)
    requires
        invocation_steps(a, base, addr, method, args),
        a.len() <= b.len(),
        forall|k: int| 0 <= k < a.len() ==> b[k] == #[trigger] a[k],
    ensures
        invocation_steps(b, base, addr, method, args),
{
    let c = 5 + 3 * args.len() as int;
    assert(b[0] == a[0] && b[1] == a[1] && b[2] == a[2] && b[3] == a[3] && b[4] == a[4]);
    assert(b[c] == a[c] && b[c + 1] == a[c + 1]);
    assert forall|i: int| 0 <= i < args.len() implies {
        &&& b[5 + 3 * i] matches Step::Locate(Lookup::Now, l) && l@ == field_input_view(
            (#[trigger] args[i]).0,
        )
        &&& b[5 + 3 * i + 1] is Clear
        &&& b[5 + 3 * i + 2] matches Step::Type(t) && t@ == args[i].1
    } by {
        assert(b[5 + 3 * i] == a[5 + 3 * i]);
        assert(b[5 + 3 * i + 1] == a[5 + 3 * i + 1]);
        assert(b[5 + 3 * i + 2] == a[5 + 3 * i + 2]);
    }
}

/// The steps that open the page of the contract at `addr`, pick `method` from
/// its messages, fill the argument fields, and press Call.
fn invocation_head(base: &str, addr: &str, method: &str, args: &Vec<(String, String)>) -> (r: Vec<Step>)
    ensures
        r@.len() == 7 + 3 * args@.len(),
        invocation_steps(r@, base@, addr@, method@, fields_view(args@)),
        lookup_before_actions(r@),
        forall|k: int|
            0 <= k < r@.len() ==> !(#[trigger] r@[k] matches Step::Locate(Lookup::Confirm, _)),
{
    let mut url = join(base, "/#/execute/");
    url.append(addr);
    url.append("/0");
    let mut v: Vec<Step> = Vec::new();
    v.push(Step::Navigate(url));
    // open the list of messages, then pick one
    v.push(
        Step::Locate(
            Lookup::Now,
            xpath("//*[contains(text(),'Message to Send')]/ancestor::div[1]/div"),
        ),
    );
    v.push(Step::Click);
    v.push(Step::Locate(Lookup::Now, message_option(method)));
    v.push(Step::Click);
    let ghost head = v@;
    push_fields(&mut v, args);
    let ghost filled = v@;
    v.push(Step::Locate(Lookup::Now, button("Call")));
    v.push(Step::Click);
    proof {
        assert forall|k: int| 0 <= k < 5 implies filled[k] == #[trigger] head[k] by {
            assert(filled.subrange(0, 5)[k] == filled[k]);
        }
        assert forall|k: int| 0 <= k < 5 + 3 * args@.len() implies v@[k] == #[trigger] filled[k] by {}
        assert(v@[0] == head[0]);
        assert(v@[1] == head[1]);
        assert(v@[2] == head[2]);
        assert(v@[3] == head[3]);
        assert(v@[4] == head[4]);
        assert forall|k: int| 0 <= k < v@.len() implies !(#[trigger] v@[k] matches Step::Locate(
            Lookup::Confirm,
            _,
        )) by {
            if 5 <= k < 5 + 3 * args@.len() {
                let i = (k - 5) / 3;
                assert(fields_view(args@)[i] == pair_view(args@[i]));
                assert(k == 5 + 3 * i || k == 5 + 3 * i + 1 || k == 5 + 3 * i + 2);
            } else if k < 5 {
                assert(v@[k] == head[k]);
            }
        }
    }
    v
}

/// The steps of a read-only call of `method` with `args` on the contract at
/// `addr`; the flow's output is the first result shown.
pub fn query_plan(base: &str, addr: &str, method: &str, args: &Vec<(String, String)>) -> (r: Vec<Step>)
    ensures
        r@.len() == 9 + 3 * args@.len(),
        invocation_steps(r@, base@, addr@, method@, fields_view(args@)),
        // the first output of the first outcome shown
        locates(
            r@[7 + 3 * args@.len() as int],
            Lookup::Wait,
            LocatorView::XPath(
                "//div[@class = 'outcomes']/*[1]//div[@class = 'ui--output monospace']/div[1]"@,
            ),
        ),
        r@[8 + 3 * args@.len() as int] is ReadText,
        lookup_before_actions(r@),
        // a query signs and submits nothing
        forall|k: int|
            0 <= k < r@.len() ==> !(#[trigger] r@[k] matches Step::Locate(Lookup::Confirm, _)),
{
    let mut v = invocation_head(base, addr, method, args);
    let ghost head = v@;
    v.push(
        Step::Locate(
            Lookup::Wait,
            xpath("//div[@class = 'outcomes']/*[1]//div[@class = 'ui--output monospace']/div[1]"),
        ),
    );
    v.push(Step::ReadText);
    proof {
        assert forall|k: int| 0 <= k < head.len() implies v@[k] == #[trigger] head[k] by {}
        lemma_invocation_prefix(head, v@, base@, addr@, method@, fields_view(args@));
    }
    v
}

/// The steps of a transaction `method` with `args` on the contract at `addr`:
/// call, wait until queued, sign and submit, wait for the success marker, and
/// clear the notifications.
pub fn transaction_plan(base: &str, addr: &str, method: &str, args: &Vec<(String, String)>) -> (r: Vec<Step>)
    ensures
        r@.len() == 15 + 3 * args@.len(),
        invocation_steps(r@, base@, addr@, method@, fields_view(args@)),
        ({
            let s = r@;
            let c = 5 + 3 * args@.len() as int;
            // queued, then signed and submitted, then confirmed
            &&& locates(
                s[c + 2],
                Lookup::Wait,
                LocatorView::XPath("//div[@class = 'status' and contains(text(), 'queued')]"@),
            )
            &&& locates(s[c + 3], Lookup::Now, button_view("Sign & Submit"@))
            &&& s[c + 4] is Click
            &&& locates(
                s[c + 5],
                Lookup::Confirm,
                LocatorView::XPath(
                    "//div[@class = 'status']/ancestor::div/div[@class = 'header' and contains(text(), 'ExtrinsicSuccess')]"@,
                ),
            )
            // then the notifications are cleared
            &&& locates(s[c + 6], Lookup::Wait, text_view("Dismiss all notifications"@))
            &&& s[c + 7] is Click
            &&& locates(s[c + 8], Lookup::Now, LocatorView::XPath("//*[text() = 'Clear all']"@))
            &&& s[c + 9] is Click
        }),
        lookup_before_actions(r@),
        forall|k: int|
            0 <= k < r@.len() && k != 10 + 3 * args@.len() ==> !(#[trigger] r@[k] matches Step::Locate(
                Lookup::Confirm,
                _,
            )),
{
    let mut v = invocation_head(base, addr, method, args);
    let ghost head = v@;
    v.push(
        Step::Locate(
            Lookup::Wait,
            xpath("//div[@class = 'status' and contains(text(), 'queued')]"),
        ),
    );
    v.push(Step::Locate(Lookup::Now, button("Sign & Submit")));
    v.push(Step::Click);
    v.push(
        Step::Locate(
            Lookup::Confirm,
            xpath(
                "//div[@class = 'status']/ancestor::div/div[@class = 'header' and contains(text(), 'ExtrinsicSuccess')]",
            ),
        ),
    );
    v.push(Step::Locate(Lookup::Wait, with_text("Dismiss all notifications")));
    v.push(Step::Click);
    v.push(Step::Locate(Lookup::Now, xpath("//*[text() = 'Clear all']")));
    v.push(Step::Click);
    proof {
        assert forall|k: int| 0 <= k < head.len() implies v@[k] == #[trigger] head[k] by {}
        lemma_invocation_prefix(head, v@, base@, addr@, method@, fields_view(args@));
    }
    v
}

} // verus!
