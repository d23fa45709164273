use alarm_sheets::config::Config;
use alarm_sheets::error::{AuthError, DecodeError, PipelineError, Stage};
use alarm_sheets::pipeline::{advance, begin, Action, Event, Step};
use alarm_sheets::reply::HttpReply;
use alarm_sheets::scheduler::{order_at, Notice, Order, Signal};
use std::collections::HashMap;

fn config() -> Config {
    Config {
        data_url: "https://enoc.example/query".to_string(),
        token_url: "https://enoc.example/token".to_string(),
        document: "doc-1".to_string(),
        sheet: "Sheet1".to_string(),
        interval_secs: 300,
    }
}

fn response(status: u16, body: &str) -> HttpReply {
    HttpReply::Response { status, body: body.as_bytes().to_vec() }
}

/// The outside world of a test: fixed replies, and pages kept in memory.
struct World {
    token: HttpReply,
    alarms: HttpReply,
    sink_accepts: bool,
    pages: HashMap<(String, String), Vec<Vec<String>>>,
    asked: Vec<Action>,
}

impl World {
    fn new(token: HttpReply, alarms: HttpReply) -> World {
        World { token, alarms, sink_accepts: true, pages: HashMap::new(), asked: vec![] }
    }

    fn perform(&mut self, action: Action) -> Event {
        self.asked.push(action.clone());
        match action {
            Action::GetToken { .. } => Event::Http(self.token.clone()),
            Action::GetAlarms { .. } => Event::Http(self.alarms.clone()),
            Action::WritePage { document, sheet, rows } => {
                if self.sink_accepts {
                    self.pages.insert((document, sheet), rows);
                }
                Event::Sink { accepted: self.sink_accepts }
            }
        }
    }

    fn run(&mut self, config: &Config) -> Result<(), PipelineError> {
        let mut step = begin(config);
        loop {
            match step {
                Step::Done(outcome) => return outcome,
                Step::Next { stage, action } => {
                    let event = self.perform(action);
                    step = advance(config, stage, event);
                }
            }
        }
    }

    fn wrote(&self) -> bool {
        self.asked.iter().any(|action| matches!(action, Action::WritePage { .. }))
    }

    fn fetched(&self) -> bool {
        self.asked.iter().any(|action| matches!(action, Action::GetAlarms { .. }))
    }
}

const TOKEN: &str = r#"{"token":"abc"}"#;
const ALARMS: &str =
    r#"{"results":[{"data":[{"Alarmmappings.alias":"PowerFail","Messagesalert.name":"Critical"}]}]}"#;

fn headings() -> Vec<String> {
    [
        "alarm_name",
        "severity",
        "alarm_category",
        "edgepoint_site_id",
        "old_site_id",
        "hardware",
        "site_names",
        "area",
        "province",
        "site_category",
        "occurence_time",
    ]
    .iter()
    .map(|label| label.to_string())
    .collect()
}

fn power_fail_row() -> Vec<String> {
    ["PowerFail", "Critical", "", "", "", "", "", "", "", "", ""]
        .iter()
        .map(|cell| cell.to_string())
        .collect()
}

#[test]
fn run_begins_with_the_request_for_the_token() {
    assert_eq!(
        begin(&config()),
        Step::Next {
            stage: Stage::Auth,
            action: Action::GetToken { url: "https://enoc.example/token".to_string() },
        }
    );
}

#[test]
fn run_from_token_to_page() {
    let config = config();
    let step = advance(&config, Stage::Auth, Event::Http(response(200, TOKEN)));
    assert_eq!(
        step,
        Step::Next {
            stage: Stage::Fetch,
            action: Action::GetAlarms {
                url: "https://enoc.example/query".to_string(),
                authorization: "Bearer abc".to_string(),
            },
        }
    );
    let step = advance(&config, Stage::Fetch, Event::Http(response(200, ALARMS)));
    assert_eq!(
        step,
        Step::Next {
            stage: Stage::Write,
            action: Action::WritePage {
                document: "doc-1".to_string(),
                sheet: "Sheet1".to_string(),
                rows: vec![headings(), power_fail_row()],
            },
        }
    );
    let step = advance(&config, Stage::Write, Event::Sink { accepted: true });
    assert_eq!(step, Step::Done(Ok(())));
}

#[test]
fn run_writes_one_row_for_the_one_alarm() {
    let mut world = World::new(response(200, TOKEN), response(200, ALARMS));
    assert_eq!(world.run(&config()), Ok(()));
    assert_eq!(world.asked.len(), 3);
    let page = &world.pages[&("doc-1".to_string(), "Sheet1".to_string())];
    assert_eq!(page.len(), 2);
    assert_eq!(page[0], headings());
    assert_eq!(page[1][0], "PowerFail");
    assert_eq!(page[1][1], "Critical");
    assert!(page[1][2..].iter().all(|cell| cell.is_empty()));
    assert_eq!(page[1].len(), 11);
}

#[test]
fn run_twice_leaves_the_page_as_one_run_does() {
    let mut once = World::new(response(200, TOKEN), response(200, ALARMS));
    once.pages.insert(
        ("doc-1".to_string(), "Sheet1".to_string()),
        vec![vec!["stale".to_string()], vec!["rows".to_string()], vec!["here".to_string()]],
    );
    once.pages.insert(("doc-1".to_string(), "Other".to_string()), vec![vec!["kept".to_string()]]);
    let mut twice = World::new(response(200, TOKEN), response(200, ALARMS));
    twice.pages = once.pages.clone();

    assert_eq!(once.run(&config()), Ok(()));
    assert_eq!(twice.run(&config()), Ok(()));
    assert_eq!(twice.run(&config()), Ok(()));

    assert_eq!(once.pages, twice.pages);
    let page = &twice.pages[&("doc-1".to_string(), "Sheet1".to_string())];
    assert_eq!(page, &vec![headings(), power_fail_row()]);
    assert_eq!(
        twice.pages[&("doc-1".to_string(), "Other".to_string())],
        vec![vec!["kept".to_string()]]
    );
}

#[test]
fn run_with_an_empty_first_result_set_clears_the_page() {
    let mut world = World::new(response(200, TOKEN), response(200, r#"{"results":[{"data":[]}]}"#));
    world
        .pages
        .insert(("doc-1".to_string(), "Sheet1".to_string()), vec![headings(), power_fail_row()]);
    assert_eq!(world.run(&config()), Ok(()));
    assert_eq!(
        world.pages[&("doc-1".to_string(), "Sheet1".to_string())],
        Vec::<Vec<String>>::new()
    );
}

#[test]
fn token_failure_ends_the_run_at_the_first_stage() {
    let failures = vec![
        (HttpReply::NoResponse, AuthError::Unreachable),
        (response(503, TOKEN), AuthError::Status { status: 503 }),
        (response(200, "{}"), AuthError::Body),
        (response(200, "oops"), AuthError::Body),
        (response(200, r#"{"token":"a\nb"}"#), AuthError::Unsendable),
    ];
    for (reply, cause) in failures {
        let mut world = World::new(reply, response(200, ALARMS));
        let outcome = world.run(&config());
        assert_eq!(outcome, Err(PipelineError::Auth(cause)));
        assert_eq!(outcome.unwrap_err().stage(), Stage::Auth);
        assert_eq!(
            world.asked,
            vec![Action::GetToken { url: "https://enoc.example/token".to_string() }]
        );
        assert!(!world.fetched());
        assert!(!world.wrote());
        assert!(world.pages.is_empty());
    }
}

#[test]
fn missing_or_empty_results_end_the_run_before_any_write() {
    let bodies = vec![
        (r#"{"results":[]}"#, DecodeError::EmptyResults),
        (r#"{}"#, DecodeError::MissingResults),
        (r#"{"data":[]}"#, DecodeError::MissingResults),
        (r#"{"results":null}"#, DecodeError::MissingResults),
        (r#"{"results":{"data":[]}}"#, DecodeError::MissingResults),
        (r#"{"results":"none"}"#, DecodeError::MissingResults),
    ];
    for (body, cause) in bodies {
        let mut world = World::new(response(200, TOKEN), response(200, body));
        world.pages.insert(
            ("doc-1".to_string(), "Sheet1".to_string()),
            vec![headings(), power_fail_row()],
        );
        assert_eq!(world.run(&config()), Err(PipelineError::Decode(cause)));
        assert!(world.fetched());
        assert!(!world.wrote());
        assert_eq!(
            world.pages[&("doc-1".to_string(), "Sheet1".to_string())],
            vec![headings(), power_fail_row()]
        );
    }
}

#[test]
fn status_500_ends_the_run_with_that_status() {
    let mut world = World::new(response(200, TOKEN), response(500, ALARMS));
    let outcome = world.run(&config());
    assert_eq!(outcome, Err(PipelineError::Upstream { status: 500 }));
    assert_eq!(outcome.unwrap_err().stage(), Stage::Fetch);
    assert!(!world.wrote());
}

#[test]
fn data_endpoint_without_a_response_ends_the_run() {
    let mut world = World::new(response(200, TOKEN), HttpReply::NoResponse);
    assert_eq!(world.run(&config()), Err(PipelineError::Transport));
    assert!(!world.wrote());
}

#[test]
fn sink_that_refuses_the_page_fails_the_run() {
    let mut world = World::new(response(200, TOKEN), response(200, ALARMS));
    world.sink_accepts = false;
    let outcome = world.run(&config());
    assert_eq!(outcome, Err(PipelineError::Sink));
    assert_eq!(outcome.unwrap_err().stage(), Stage::Write);
    assert!(world.wrote());
    assert!(world.pages.is_empty());
}

#[test]
fn event_of_the_wrong_kind_counts_as_a_failure_of_the_stage() {
    let config = config();
    assert_eq!(
        advance(&config, Stage::Auth, Event::Sink { accepted: true }),
        Step::Done(Err(PipelineError::Auth(AuthError::Unreachable)))
    );
    assert_eq!(
        advance(&config, Stage::Fetch, Event::Sink { accepted: true }),
        Step::Done(Err(PipelineError::Transport))
    );
    assert_eq!(
        advance(&config, Stage::Write, Event::Http(response(200, "{}"))),
        Step::Done(Err(PipelineError::Sink))
    );
    assert_eq!(
        advance(&config, Stage::Write, Event::Http(HttpReply::NoResponse)),
        Step::Done(Err(PipelineError::Sink))
    );
}

#[test]
fn run_uses_the_configured_page() {
    let mut config = config();
    config.document = "another".to_string();
    config.sheet = "Alarms".to_string();
    let mut world = World::new(response(200, TOKEN), response(200, ALARMS));
    assert_eq!(world.run(&config), Ok(()));
    assert!(world.pages.contains_key(&("another".to_string(), "Alarms".to_string())));
    assert_eq!(world.pages.len(), 1);
}

#[test]
fn scheduler_starts_a_run_on_every_tick() {
    assert_eq!(order_at(Signal::Tick, String::new()), Order::Run);
    assert_eq!(order_at(Signal::Tick, "now".to_string()), Order::Run);
}

#[test]
fn scheduler_reports_a_success_with_its_time_and_waits() {
    let made = order_at(Signal::RunEnded(Ok(())), "2024-01-02T03:04:05".to_string());
    assert_eq!(
        made,
        Order::Wait { notice: Notice::Completed { at: "2024-01-02T03:04:05".to_string() } }
    );
    let made = order_at(Signal::RunEnded(Ok(())), "later".to_string());
    assert_eq!(made, Order::Wait { notice: Notice::Completed { at: "later".to_string() } });
}

#[test]
fn scheduler_reports_a_failure_with_its_stage_and_waits() {
    let errors = vec![
        (PipelineError::Auth(AuthError::Unreachable), Stage::Auth),
        (PipelineError::Upstream { status: 500 }, Stage::Fetch),
        (PipelineError::Decode(DecodeError::EmptyResults), Stage::Fetch),
        (PipelineError::Transport, Stage::Fetch),
        (PipelineError::Sink, Stage::Write),
    ];
    for (error, stage) in errors {
        let expected = Order::Wait { notice: Notice::Failed { stage, error } };
        assert_eq!(order_at(Signal::RunEnded(Err(error)), String::new()), expected);
        assert_eq!(order_at(Signal::RunEnded(Err(error)), "ignored".to_string()), expected);
    }
}

#[test]
fn scheduler_goes_on_after_failures() {
    let config = config();
    let mut world = World::new(HttpReply::NoResponse, response(200, ALARMS));
    let mut runs = 0;
    let mut notices = vec![];
    let mut signal = Signal::Tick;
    for round in 0..6 {
        signal = match order_at(signal, format!("t{}", round)) {
            Order::Run => {
                runs += 1;
                Signal::RunEnded(world.run(&config))
            }
            Order::Wait { notice } => {
                notices.push(notice);
                world.token = response(200, TOKEN);
                Signal::Tick
            }
        };
    }
    assert_eq!(runs, 3);
    assert_eq!(
        notices,
        vec![
            Notice::Failed {
                stage: Stage::Auth,
                error: PipelineError::Auth(AuthError::Unreachable),
            },
            Notice::Completed { at: "t3".to_string() },
            Notice::Completed { at: "t5".to_string() },
        ]
    );
    assert_eq!(
        world.pages[&("doc-1".to_string(), "Sheet1".to_string())],
        vec![headings(), power_fail_row()]
    );
}
