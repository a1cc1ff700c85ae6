use waterfall::{
    query_plan, transaction_plan, upload_plan, ErrorKind, Event, Flow, FlowError, Locator, Lookup,
    Status, Step, UploadInput,
};

const BASE: &str = "http://localhost:3000";

/// Plays the browser side: every step succeeds, a read gives `text`, and the
/// address extraction sees `url`.
fn run_all(steps: Vec<Step>, text: &str, url: &str) -> Flow {
    let mut flow = Flow::new(steps);
    let mut guard = 0;
    while let Some(step) = flow.next_step() {
        let ev = match step {
            Step::ReadText => Event::Text(text.to_string()),
            Step::ExtractAddress(_) => Event::Text(url.to_string()),
            _ => Event::Done,
        };
        flow.on_event(ev);
        guard += 1;
        assert!(guard < 1000);
    }
    flow
}

fn three_field_input() -> UploadInput {
    UploadInput::new("/tmp/flipper.contract".to_string())
        .push_initial_value("initValue", "true")
        .push_initial_value("owner", "alice")
        .push_initial_value("limit", "7")
        .endowment("100000", "Unit")
}

#[test]
fn upload_flow_extracts_address() {
    let plan = upload_plan(&three_field_input(), BASE);
    assert_eq!(plan.len(), 48);
    let flow = run_all(plan, "", "http://localhost:3000/#/execute/5GrwvaEF5zXb26Fz9rcQpDWS/0");
    assert_eq!(flow.status(), Status::Finished);
    assert_eq!(flow.output(), Some("5GrwvaEF5zXb26Fz9rcQpDWS".to_string()));
}

#[test]
fn upload_flow_fails_without_address() {
    let plan = upload_plan(&three_field_input(), BASE);
    let flow = run_all(plan, "", "http://localhost:3000/#/upload");
    assert_eq!(
        flow.status(),
        Status::Failed(FlowError { kind: ErrorKind::AddressExtractionFailed, step: 47 })
    );
}

#[test]
fn upload_flow_rejects_address_of_other_ui() {
    let plan = upload_plan(&three_field_input(), BASE);
    let flow = run_all(plan, "", "http://elsewhere:3000/#/execute/5Grw/0");
    assert_eq!(
        flow.status(),
        Status::Failed(FlowError { kind: ErrorKind::AddressExtractionFailed, step: 47 })
    );
}

#[test]
fn upload_plan_fills_fields_in_order() {
    let plan = upload_plan(&three_field_input(), BASE);
    match &plan[0] {
        Step::Navigate(u) => assert_eq!(u, "http://localhost:3000/#/upload"),
        _ => panic!("first step must navigate"),
    }
    match &plan[15] {
        Step::Type(p) => assert_eq!(p, "/tmp/flipper.contract"),
        _ => panic!("the contract path is typed"),
    }
    match &plan[23] {
        Step::Locate(Lookup::Now, Locator::XPath(x)) => assert_eq!(
            x,
            "//label/*[contains(text(),'initValue')]/ancestor::div[1]//*/input"
        ),
        _ => panic!("first field"),
    }
    assert!(matches!(plan[24], Step::Clear));
    match &plan[31] {
        Step::Type(v) => assert_eq!(v, "7"),
        _ => panic!("third value"),
    }
    match &plan[34] {
        Step::Type(v) => assert_eq!(v, "100000"),
        _ => panic!("endowment"),
    }
    match &plan[37] {
        Step::Locate(Lookup::Wait, Locator::XPath(x)) => {
            assert_eq!(x, "//div[@role='option']/span[contains(text(),'Unit')]")
        }
        _ => panic!("unit"),
    }
    assert!(matches!(plan[38], Step::Click));
    match &plan[39] {
        Step::RunScript(x) => assert_eq!(x, "$(\"button:contains('Instantiate')\").click()"),
        _ => panic!("instantiate"),
    }
    match &plan[40] {
        Step::RunScript(x) => assert_eq!(x, "$(\"button:contains('Sign & Submit')\").click()"),
        _ => panic!("sign and submit"),
    }
}

#[test]
fn upload_input_defaults() {
    let plan = upload_plan(&UploadInput::new("a.contract".to_string()), BASE);
    assert_eq!(plan.len(), 39);
    match &plan[25] {
        Step::Type(v) => assert_eq!(v, "1000"),
        _ => panic!("default endowment"),
    }
    match &plan[28] {
        Step::Locate(_, Locator::XPath(x)) => assert!(x.contains("'Unit'")),
        _ => panic!("default unit"),
    }
}

#[test]
fn upload_input_contract_path_replaced() {
    let input = UploadInput::new("a".to_string()).contract_path("b".to_string());
    let plan = upload_plan(&input, BASE);
    match &plan[15] {
        Step::Type(p) => assert_eq!(p, "b"),
        _ => panic!("path"),
    }
}

#[test]
fn query_returns_zero() {
    let plan = query_plan(BASE, "5Grw", "get", &Vec::new());
    assert_eq!(plan.len(), 9);
    match &plan[0] {
        Step::Navigate(u) => assert_eq!(u, "http://localhost:3000/#/execute/5Grw/0"),
        _ => panic!("navigate"),
    }
    let flow = run_all(plan, "0", "");
    assert_eq!(flow.status(), Status::Finished);
    assert_eq!(flow.output(), Some("0".to_string()));
}

/// A page whose contract holds a number; `change` adds its argument, or takes
/// it away once `switch` has flipped the direction; `get` shows the number.
struct FakeContract {
    value: i64,
    subtract: bool,
}

impl FakeContract {
    fn run(&mut self, steps: Vec<Step>, method: &str) -> Flow {
        let mut flow = Flow::new(steps);
        while let Some(step) = flow.next_step() {
            let ev = match step {
                Step::Type(v) => {
                    let arg: i64 = v.parse().unwrap();
                    if method == "change" {
                        self.value += if self.subtract { -arg } else { arg };
                    }
                    Event::Done
                }
                Step::Locate(Lookup::Confirm, _) => {
                    if method == "switch" {
                        self.subtract = !self.subtract;
                    }
                    Event::Done
                }
                Step::ReadText => Event::Text(self.value.to_string()),
                _ => Event::Done,
            };
            flow.on_event(ev);
        }
        flow
    }
}

#[test]
fn transactions_then_queries() {
    let mut page = FakeContract { value: 0, subtract: false };
    let args = vec![("by".to_string(), "13".to_string())];
    let flow = page.run(transaction_plan(BASE, "5Grw", "change", &args), "change");
    assert_eq!(flow.status(), Status::Finished);
    let flow = page.run(query_plan(BASE, "5Grw", "get", &Vec::new()), "get");
    assert_eq!(flow.output(), Some("13".to_string()));

    let flow = page.run(transaction_plan(BASE, "5Grw", "switch", &Vec::new()), "switch");
    assert_eq!(flow.status(), Status::Finished);
    let args = vec![("by".to_string(), "3".to_string())];
    page.run(transaction_plan(BASE, "5Grw", "change", &args), "change");
    let flow = page.run(query_plan(BASE, "5Grw", "get", &Vec::new()), "get");
    assert_eq!(flow.output(), Some("10".to_string()));
}

#[test]
fn unconfirmed_transaction_times_out_and_stops() {
    let args = vec![("by".to_string(), "13".to_string())];
    let plan = transaction_plan(BASE, "5Grw", "change", &args);
    assert_eq!(plan.len(), 18);
    let mut flow = Flow::new(plan);
    let mut performed = 0;
    while let Some(step) = flow.next_step() {
        let ev = match step {
            Step::Locate(Lookup::Confirm, _) => Event::TimedOut,
            _ => Event::Done,
        };
        flow.on_event(ev);
        performed += 1;
    }
    assert_eq!(performed, 14);
    assert_eq!(
        flow.status(),
        Status::Failed(FlowError { kind: ErrorKind::InvocationTimeout, step: 13 })
    );
    assert!(flow.next_step().is_none());
    assert!(matches!(flow.failed_step(), Some(Step::Locate(Lookup::Confirm, _))));
    flow.on_event(Event::Done);
    assert!(flow.next_step().is_none());
}

#[test]
fn optional_prompt_absent_is_skipped() {
    let plan = upload_plan(&UploadInput::new("a".to_string()), BASE);
    let mut flow = Flow::new(plan);
    flow.on_event(Event::Done);
    flow.on_event(Event::Done);
    assert!(matches!(flow.next_step(), Some(Step::Locate(Lookup::Optional, _))));
    flow.on_event(Event::Absent);
    assert_eq!(flow.status(), Status::Running);
    // the click on the prompt is skipped
    assert!(matches!(flow.next_step(), Some(Step::Locate(Lookup::Now, Locator::Css(_)))));
}

#[test]
fn required_lookup_absent_fails() {
    let plan = query_plan(BASE, "5Grw", "get", &Vec::new());
    let mut flow = Flow::new(plan);
    flow.on_event(Event::Done);
    flow.on_event(Event::Absent);
    assert_eq!(
        flow.status(),
        Status::Failed(FlowError { kind: ErrorKind::ElementNotFound, step: 1 })
    );
}

#[test]
fn waiting_lookup_timeout_is_not_found() {
    let plan = query_plan(BASE, "5Grw", "get", &Vec::new());
    let mut flow = Flow::new(plan);
    for _ in 0..7 {
        flow.on_event(Event::Done);
    }
    flow.on_event(Event::TimedOut);
    assert_eq!(
        flow.status(),
        Status::Failed(FlowError { kind: ErrorKind::ElementNotFound, step: 7 })
    );
}

#[test]
fn driver_fault_is_stale_or_disconnected() {
    let plan = query_plan(BASE, "5Grw", "get", &Vec::new());
    let mut flow = Flow::new(plan);
    flow.on_event(Event::Done);
    flow.on_event(Event::Done);
    flow.on_event(Event::Fault);
    assert_eq!(
        flow.status(),
        Status::Failed(FlowError { kind: ErrorKind::StaleOrDisconnected, step: 2 })
    );
}

#[test]
fn unexpected_reply_fails() {
    let plan = query_plan(BASE, "5Grw", "get", &Vec::new());
    let mut flow = Flow::new(plan);
    flow.on_event(Event::Text("x".to_string()));
    assert_eq!(
        flow.status(),
        Status::Failed(FlowError { kind: ErrorKind::UnexpectedReply, step: 0 })
    );
}

#[test]
fn empty_flow_is_finished() {
    let flow = Flow::new(Vec::new());
    assert_eq!(flow.status(), Status::Finished);
    assert!(flow.next_step().is_none());
    assert!(flow.failed_step().is_none());
    assert_eq!(flow.output(), None);
}

#[test]
fn transaction_plan_order() {
    let plan = transaction_plan(BASE, "5Grw", "flip", &Vec::new());
    assert_eq!(plan.len(), 15);
    match &plan[5] {
        Step::Locate(Lookup::Now, Locator::XPath(x)) => {
            assert_eq!(x, "//button[contains(text(),'Call')]")
        }
        _ => panic!("call"),
    }
    match &plan[7] {
        Step::Locate(Lookup::Wait, Locator::XPath(x)) => assert!(x.contains("queued")),
        _ => panic!("queued"),
    }
    match &plan[8] {
        Step::Locate(Lookup::Now, Locator::XPath(x)) => {
            assert_eq!(x, "//button[contains(text(),'Sign & Submit')]")
        }
        _ => panic!("sign"),
    }
    assert!(matches!(plan[10], Step::Locate(Lookup::Confirm, _)));
    match &plan[13] {
        Step::Locate(Lookup::Now, Locator::XPath(x)) => assert_eq!(x, "//*[text() = 'Clear all']"),
        _ => panic!("clear all"),
    }
}
