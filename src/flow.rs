use vstd::prelude::*;
use vstd::string::*;
use crate::address::{capture_framed_word, framed_in};
use crate::locator::Locator;

verus! {

/// How a lookup treats a target that is not in the page.
#[derive(Clone, Copy, Debug, PartialEq, Eq, Structural)]
pub enum Lookup {
    /// The target must be present now.
    Now,
    /// Wait until the target is present, within the wait horizon.
    Wait,
    /// The target may be absent: absence skips the element actions after it.
    Optional,
    /// The success marker of a transaction: absence after the wait horizon means
    /// the transaction did not go through.
    Confirm,
}

/// One step of a flow, for the browser side to perform.
pub enum Step {
    /// Open the URL.
    Navigate(String),
    /// Resolve the locator; the element found is the one that the element
    /// actions after it act on.
    Locate(Lookup, Locator),
    /// Click the current element.
    Click,
    /// Clear the current element, an input box.
    Clear,
    /// Type the text into the current element.
    Type(String),
    /// Run the script in the page.
    RunScript(String),
    /// Read the text of the current element: the flow's output.
    ReadText,
    /// Read the current URL and take from it the address of the contract that
    /// the page at `<base>/#/execute/<address>/0` shows.
    ExtractAddress(String),
}

/// What the browser side reports after performing a step.
pub enum Event {
    /// The step was performed; a lookup found its target.
    Done,
    /// A lookup did not find its target.
    Absent,
    /// A waiting lookup did not find its target within the wait horizon.
    TimedOut,
    /// The text that was read, or the current URL.
    Text(String),
    /// The driver failed: a stale element or a lost session.
    Fault,
}

/// Why a flow failed.
#[derive(Clone, Copy, Debug, PartialEq, Eq, Structural)]
pub enum ErrorKind {
    /// A required target was absent, after its wait horizon where it had one.
    ElementNotFound,
    /// The session changed or died during an action.
    StaleOrDisconnected,
    /// The URL reached after an upload does not hold a contract address.
    AddressExtractionFailed,
    /// A transaction never showed its success marker.
    InvocationTimeout,
    /// The browser side reported an event that does not answer the step.
    UnexpectedReply,
}

/// A failure and the index of the step at which it happened.
#[derive(Clone, Copy, Debug, PartialEq, Eq, Structural)]
pub struct FlowError {
    pub kind: ErrorKind,
    pub step: usize,
}

#[derive(Clone, Copy, Debug, PartialEq, Eq, Structural)]
pub enum Status {
    Running,
    Finished,
    Failed(FlowError),
}

/// A flow: steps, the index of the next one, the output read so far, and
/// whether it runs, finished, or failed.
pub struct Flow {
    steps: Vec<Step>,
    pos: usize,
    output: Option<String>,
    status: Status,
}

pub struct FlowState {
    pub steps: Seq<Step>,
    pub pos: int,
    pub output: Option<Seq<char>>,
    pub status: Status,
}

pub open spec fn opt_view(o: Option<String>) -> Option<Seq<char>> {
    match o {
        Some(s) => Some(s@),
        None => None,
    }
}

impl View for Flow {
    type V = FlowState;

    closed spec fn view(&self) -> FlowState {
        FlowState {
            steps: self.steps@,
            pos: self.pos as int,
            output: opt_view(self.output),
            status: self.status,
        }
    }
}

pub open spec fn acts_on_element(s: Step) -> bool {
    s is Click || s is Clear || s is Type || s is ReadText
}

/// The first index from `p` on whose step is not an element action.
pub open spec fn after_actions(steps: Seq<Step>, p: int) -> int
    decreases steps.len() - p,
{
    if 0 <= p < steps.len() && acts_on_element(steps[p]) {
        after_actions(steps, p + 1)
    } else {
        p
    }
}

impl FlowState {
    pub open spec fn wf(self) -> bool {
        &&& 0 <= self.pos <= self.steps.len()
        &&& self.status is Running ==> self.pos < self.steps.len()
        &&& self.status is Finished ==> self.pos == self.steps.len()
        &&& self.status matches Status::Failed(e) ==> e.step < self.steps.len()
    }

    /// Go on at step `p`; past the last step the flow has finished.
    pub open spec fn moved_to(self, p: int) -> FlowState {
        if p >= self.steps.len() {
            FlowState { pos: self.steps.len() as int, status: Status::Finished, ..self }
        } else {
            FlowState { pos: p, ..self }
        }
    }

    pub open spec fn failed(self, kind: ErrorKind) -> FlowState {
        FlowState { status: Status::Failed(FlowError { kind, step: self.pos as usize }), ..self }
    }

    /// The state after the browser side reported `ev` for the current step.
    /// `capture` is what was taken from the URL, for an address extraction.
    pub open spec fn transition(self, ev: Event, capture: Option<Seq<char>>) -> FlowState {
        if !(self.status is Running) {
            self
        } else if ev is Fault {
            self.failed(ErrorKind::StaleOrDisconnected)
        } else {
            match self.steps[self.pos] {
                Step::Locate(lookup, _) => match ev {
                    Event::Done => self.moved_to(self.pos + 1),
                    Event::Absent | Event::TimedOut => match lookup {
                        Lookup::Optional => self.moved_to(after_actions(self.steps, self.pos + 1)),
                        Lookup::Confirm => self.failed(ErrorKind::InvocationTimeout),
                        _ => self.failed(ErrorKind::ElementNotFound),
                    },
                    _ => self.failed(ErrorKind::UnexpectedReply),
                },
                Step::ReadText => match ev {
                    Event::Text(t) => FlowState { output: Some(t@), ..self }.moved_to(self.pos + 1),
                    _ => self.failed(ErrorKind::UnexpectedReply),
                },
                Step::ExtractAddress(_) => match ev {
                    Event::Text(_) => match capture {
                        Some(a) => FlowState { output: Some(a), ..self }.moved_to(self.pos + 1),
                        None => self.failed(ErrorKind::AddressExtractionFailed),
                    },
                    _ => self.failed(ErrorKind::UnexpectedReply),
                },
                _ => if ev is Done {
                    self.moved_to(self.pos + 1)
                } else {
                    self.failed(ErrorKind::UnexpectedReply)
                },
            }
        }
    }

    /// What may have been taken from the URL at the current step: for an
    /// address extraction, only a word framed by the execute route.
    pub open spec fn capture_allowed(self, ev: Event, capture: Option<Seq<char>>) -> bool {
        self.status is Running ==> match (self.steps[self.pos], ev) {
            (Step::ExtractAddress(base), Event::Text(url)) => {
                &&& capture matches Some(a) ==> framed_in(url@, base@ + "/#/execute/"@, a, "/0"@)
                &&& capture is None && base@.len() + 13 <= 1000 ==> forall|a: Seq<char>|
                    !framed_in(url@, base@ + "/#/execute/"@, a, "/0"@)
            },
            _ => capture is None,
        }
    }
}

fn is_element_action(s: &Step) -> (r: bool)
    ensures
        r == acts_on_element(*s),
{
    match s {
        Step::Click | Step::Clear | Step::Type(_) | Step::ReadText => true,
        _ => false,
    }
}

impl Flow {
    /// A flow that runs `steps` in order; with no steps it has finished.
    pub fn new(steps: Vec<Step>) -> (r: Flow)
        ensures
            r@.wf(),
            r@.steps == steps@,
            r@.pos == 0,
            r@.output is None,
            r@.status == (if steps@.len() == 0 {
                Status::Finished
            } else {
                Status::Running
            }),
    {
        let status = if steps.len() == 0 {
            Status::Finished
        } else {
            Status::Running
        };
        Flow { steps, pos: 0, output: None, status }
    }

    pub fn status(&self) -> (r: Status)
        ensures
            r == self@.status,
    {
        self.status
    }

    /// The output: the text read last, or the extracted address.
    pub fn output(&self) -> (r: Option<String>)
        ensures
            opt_view(r) == self@.output,
    {
        match &self.output {
            Some(s) => Some(s.clone()),
            None => None,
        }
    }

    /// The step to perform next; none once the flow has finished or failed.
    pub fn next_step(&self) -> (r: Option<&Step>)
        requires
            self@.wf(),
        ensures
            r is Some <==> self@.status is Running,
            r matches Some(s) ==> *s == self@.steps[self@.pos],
    {
        if self.status == Status::Running {
            Some(&self.steps[self.pos])
        } else {
            None
        }
    }

    /// The step at which the flow failed, where it did.
    pub fn failed_step(&self) -> (r: Option<&Step>)
        requires
            self@.wf(),
        ensures
            r is Some <==> self@.status is Failed,
            r matches Some(s) ==> (self@.status matches Status::Failed(e) && *s
                == self@.steps[e.step as int]),
    {
        match self.status {
            Status::Failed(e) => Some(&self.steps[e.step]),
            _ => None,
        }
    }

    /// Take in what the browser side reported for the current step, given what
    /// was taken from the URL where the step is an address extraction.
    pub fn on_event_with_capture(&mut self, ev: Event, capture: Option<String>)
        requires
            old(self)@.wf(),
        ensures
            final(self)@ == old(self)@.transition(ev, opt_view(capture)),
            final(self)@.wf(),
    {
        if self.status != Status::Running {
            return;
        }
        let here = self.pos;
        let fail = FlowError { kind: ErrorKind::UnexpectedReply, step: here };
        if let Event::Fault = ev {
            self.status = Status::Failed(FlowError { kind: ErrorKind::StaleOrDisconnected, ..fail });
            return;
        }
        let n = self.steps.len();
        let mut next: usize = here + 1;
        let mut error: Option<ErrorKind> = None;
        match &self.steps[here] {
            Step::Locate(lookup, _) => match ev {
                Event::Done => {},
                Event::Absent | Event::TimedOut => match lookup {
                    Lookup::Optional => {
                        while next < n && is_element_action(&self.steps[next])
                            invariant
                                here < next <= n,
                                n == self.steps@.len(),
                                after_actions(self.steps@, next as int) == after_actions(
                                    self.steps@,
                                    here + 1,
                                ),
                            decreases n - next,
                        {
                            next = next + 1;
                        }
                    },
                    Lookup::Confirm => {
                        error = Some(ErrorKind::InvocationTimeout);
                    },
                    _ => {
                        error = Some(ErrorKind::ElementNotFound);
                    },
                },
                _ => {
                    error = Some(ErrorKind::UnexpectedReply);
                },
            },
            Step::ReadText => match ev {
                Event::Text(t) => {
                    self.output = Some(t);
                },
                _ => {
                    error = Some(ErrorKind::UnexpectedReply);
                },
            },
            Step::ExtractAddress(_) => match ev {
                Event::Text(_) => match capture {
                    Some(a) => {
                        self.output = Some(a);
                    },
                    None => {
                        error = Some(ErrorKind::AddressExtractionFailed);
                    },
                },
                _ => {
                    error = Some(ErrorKind::UnexpectedReply);
                },
            },
            _ => match ev {
                Event::Done => {},
                _ => {
                    error = Some(ErrorKind::UnexpectedReply);
                },
            },
        }
        match error {
            Some(kind) => {
                self.status = Status::Failed(FlowError { kind, ..fail });
            },
            None => {
                if next >= n {
                    self.pos = n;
                    self.status = Status::Finished;
                } else {
                    self.pos = next;
                }
            },
        }
    }

    /// Take in what the browser side reported for the current step. At an
    /// address extraction the address is taken from the reported URL.
    pub fn on_event(&mut self, ev: Event)
        requires
            old(self)@.wf(),
        ensures
            final(self)@.wf(),
            exists|c: Option<Seq<char>>|
                old(self)@.capture_allowed(ev, c) && final(self)@ == old(self)@.transition(ev, c),
    {
        let mut capture: Option<String> = None;
        if self.status == Status::Running {
            if let Step::ExtractAddress(base) = &self.steps[self.pos] {
                if let Event::Text(url) = &ev {
                    let mut prefix = base.clone();
                    prefix.append("/#/execute/");
                    capture = capture_framed_word(prefix.as_str(), "/0", url.as_str());
                }
            }
        }
        proof {
            reveal_strlit("/#/execute/");
            reveal_strlit("/0");
            assert(self@.capture_allowed(ev, opt_view(capture)));
        }
        self.on_event_with_capture(ev, capture);
    }
}

/// An optional lookup never fails the flow for want of its target: whatever
/// the browser side reports for it, the flow does not fail with
/// `ElementNotFound`.
pub proof fn lemma_optional_lookup_never_not_found(
    s: FlowState,
    ev: Event,
    capture: Option<Seq<char>>,
)
    requires
        s.wf(),
        s.status is Running,
        s.steps[s.pos] matches Step::Locate(Lookup::Optional, _),
    ensures
        !(s.transition(ev, capture).status matches Status::Failed(e) && e.kind
            == ErrorKind::ElementNotFound),
        (ev is Absent || ev is TimedOut) ==> !(s.transition(ev, capture).status is Failed),
{
    let p = after_actions(s.steps, s.pos + 1);
    assert(p >= s.pos + 1) by {
        lemma_after_actions_from(s.steps, s.pos + 1);
    }
}

proof fn lemma_after_actions_from(steps: Seq<Step>, p: int)
    ensures
        after_actions(steps, p) >= p,
    decreases steps.len() - p,
{
    if 0 <= p < steps.len() && acts_on_element(steps[p]) {
        lemma_after_actions_from(steps, p + 1);
    }
}

/// A transaction whose success marker does not show within the wait horizon
/// fails with `InvocationTimeout` at that step, and the flow then performs no
/// further step: every later report leaves it as it is.
pub proof fn lemma_unconfirmed_transaction_stops(
    s: FlowState,
    capture: Option<Seq<char>>,
    later: Event,
    later_capture: Option<Seq<char>>,
)
    requires
        s.wf(),
        s.status is Running,
        s.steps[s.pos] matches Step::Locate(Lookup::Confirm, _),
    ensures
        s.transition(Event::TimedOut, capture).status == Status::Failed(
            FlowError { kind: ErrorKind::InvocationTimeout, step: s.pos as usize },
        ),
        s.transition(Event::TimedOut, capture).transition(later, later_capture) == s.transition(
            Event::TimedOut,
            capture,
        ),
{
}

/// At the address extraction that ends an upload, the flow goes on only with an
/// address that the reported URL holds at the execute route of the UI, a
/// nonempty run of letters and digits between `<base>/#/execute/` and `/0`;
/// where the URL holds none, the flow fails with `AddressExtractionFailed`;
/// where it holds one (and the base URL is under a thousand characters), the
/// flow goes on with an address.
pub proof fn lemma_address_extraction(s: FlowState, url: String, capture: Option<Seq<char>>)
    requires
        s.wf(),
        s.status is Running,
        s.steps[s.pos] is ExtractAddress,
        s.capture_allowed(Event::Text(url), capture),
    ensures
        ({
            let t = s.transition(Event::Text(url), capture);
            let base = s.steps[s.pos]->ExtractAddress_0@;
            &&& !(t.status is Failed) ==> (t.output matches Some(a) && framed_in(
                url@,
                base + "/#/execute/"@,
                a,
                "/0"@,
            ))
            &&& (forall|a: Seq<char>| !framed_in(url@, base + "/#/execute/"@, a, "/0"@))
                ==> t.status == Status::Failed(
                FlowError { kind: ErrorKind::AddressExtractionFailed, step: s.pos as usize },
            )
            &&& (base.len() + 13 <= 1000 && exists|a: Seq<char>|
                framed_in(url@, base + "/#/execute/"@, a, "/0"@)) ==> !(t.status is Failed)
        }),
{
}

/// What the browser side reports when it performs `st`: the text read, or the
/// URL, for a reading step, and `Done` for every other step.
pub open spec fn performed(st: Step, text: String) -> Event {
    match st {
        Step::ReadText | Step::ExtractAddress(_) => Event::Text(text),
        _ => Event::Done,
    }
}

/// The state after `n` steps, each performed, with `capture` taken from the URL.
pub open spec fn replay(s: FlowState, text: String, capture: Option<Seq<char>>, n: nat) -> FlowState
    decreases n,
{
    if n == 0 || !(s.status is Running) {
        s
    } else {
        replay(
            s.transition(performed(s.steps[s.pos], text), capture),
            text,
            capture,
            (n - 1) as nat,
        )
    }
}

/// A running flow whose remaining steps the browser side all performs, and
/// whose address extraction finds an address, finishes; where its last step
/// is the extraction (as in an upload), its output is that address.
pub proof fn lemma_performed_flow_finishes(s: FlowState, text: String, address: Seq<char>)
    requires
        s.wf(),
        s.status is Running,
    ensures
        ({
            let t = replay(s, text, Some(address), (s.steps.len() - s.pos) as nat);
            &&& t.status == Status::Finished
            &&& s.steps.last() is ExtractAddress ==> t.output == Some(address)
        }),
    decreases s.steps.len() - s.pos,
{
    let t = s.transition(performed(s.steps[s.pos], text), Some(address));
    assert(t.pos == s.pos + 1 || t.pos == s.steps.len());
    assert(!(t.status is Failed));
    if s.pos + 1 < s.steps.len() {
        assert(t.status is Running);
        assert(t.steps == s.steps);
        lemma_performed_flow_finishes(t, text, address);
        assert((s.steps.len() - s.pos - 1) as nat == (t.steps.len() - t.pos) as nat);
    } else {
        assert(t.status == Status::Finished);
        assert(replay(t, text, Some(address), 0) == t);
    }
}

} // verus!
