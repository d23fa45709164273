//! A whole run against fixed answers of the outside world, and what holds of
//! every such run.

use crate::bearer::{bearer_text, header_text};
use crate::config::ConfigView;
use crate::envelope::{lemma_batch_is_first_data_list, result_set_of};
use crate::error::{DecodeError, PipelineError, Stage};
use crate::json::{json_document, JsonValue};
use crate::pipeline::{advance_model, begin_model, ActionView, EventView, StepView};
use crate::record::{record_of, row_of, AlarmRecordView};
use crate::reply::{batch_of_reply, is_success, token_of_reply, HttpReplyView};
use crate::sheet::{lemma_page_shape, page_of, Sink};
use vstd::prelude::*;

verus! {

/// What the outside world answers during one run.
pub struct Answers {
    /// The token endpoint's reply.
    pub token: HttpReplyView,
    /// The data endpoint's reply.
    pub alarms: HttpReplyView,
    /// Whether the sink replaces a page when asked to.
    pub sink_accepts: bool,
}

impl Answers {
    /// What comes of `action`.
    pub open spec fn event_for(self, action: ActionView) -> EventView {
        match action {
            ActionView::GetToken { .. } => EventView::Http(self.token),
            ActionView::GetAlarms { .. } => EventView::Http(self.alarms),
            ActionView::WritePage { .. } => EventView::Sink { accepted: self.sink_accepts },
        }
    }

    /// The store after `action` was carried out on `sink`. Only a page that
    /// the sink accepts changes it.
    pub open spec fn effect(self, sink: Sink, action: ActionView) -> Sink {
        match action {
            ActionView::WritePage { document, sheet, rows } => if self.sink_accepts {
                sink.overwrite(document, sheet, rows)
            } else {
                sink
            },
            _ => sink,
        }
    }

    /// The store after `actions` were carried out on `sink`, one after the
    /// other.
    pub open spec fn effects(self, sink: Sink, actions: Seq<ActionView>) -> Sink
        decreases actions.len(),
    {
        if actions.len() == 0 {
            sink
        } else {
            self.effects(self.effect(sink, actions[0]), actions.drop_first())
        }
    }
}

/// A run that has ended: what was asked for, in order, and how it ended.
pub struct Run {
    pub actions: Seq<ActionView>,
    pub outcome: Result<(), PipelineError>,
}

/// The run that goes on from `step` and ends within `requests` actions;
/// `None` where it does not end within them.
pub open spec fn run_from(
    config: ConfigView,
    answers: Answers,
    step: StepView,
    requests: nat,
) -> Option<Run>
    decreases requests,
{
    match step {
        StepView::Done(outcome) => Some(Run { actions: Seq::empty(), outcome }),
        StepView::Next { stage, action } => {
            if requests == 0 {
                None
            } else {
                let rest = run_from(
                    config,
                    answers,
                    advance_model(config, stage, answers.event_for(action)),
                    (requests - 1) as nat,
                );
                match rest {
                    Some(run) => Some(
                        Run { actions: seq![action] + run.actions, outcome: run.outcome },
                    ),
                    None => None,
                }
            }
        },
    }
}

/// The run from its beginning. It ends within three actions.
pub open spec fn run_once(config: ConfigView, answers: Answers) -> Run {
    run_from(config, answers, begin_model(config), 3).unwrap()
}

/// The store after one run on `sink`.
pub open spec fn sink_after(sink: Sink, config: ConfigView, answers: Answers) -> Sink {
    answers.effects(sink, run_once(config, answers).actions)
}

/// The request for the token.
pub open spec fn token_request(config: ConfigView) -> ActionView {
    ActionView::GetToken { url: config.token_url }
}

/// The request for the alarms under the token that `answers` gives.
pub open spec fn alarms_request(config: ConfigView, answers: Answers) -> ActionView {
    ActionView::GetAlarms {
        url: config.data_url,
        authorization: bearer_text(token_of_reply(answers.token).unwrap()),
    }
}

/// The request to write the page of the batch that `answers` gives.
pub open spec fn page_request(config: ConfigView, answers: Answers) -> ActionView {
    ActionView::WritePage {
        document: config.document,
        sheet: config.sheet,
        rows: page_of(batch_of_reply(answers.alarms).unwrap()),
    }
}

/// Whether `answers` gives a token that can be sent.
pub open spec fn token_usable(answers: Answers) -> bool {
    token_of_reply(answers.token) is Ok && header_text(
        bearer_text(token_of_reply(answers.token).unwrap()),
    )
}

/// Every run ends within three actions, and in one of three ways. Without
/// a token that can be sent, only the token was asked for and the run has
/// failed at the first stage. With one but without a batch, the token and the
/// alarms were asked for and the run has failed at the second stage. With
/// both, the page of the batch was handed to the sink after them, and the run
/// has succeeded where the sink accepted it and failed at the third stage
/// where it did not.
pub proof fn lemma_run_shape(config: ConfigView, answers: Answers)
    ensures
        run_from(config, answers, begin_model(config), 3) is Some,
        !token_usable(answers) ==> {
            &&& run_once(config, answers).actions == seq![token_request(config)]
            &&& run_once(config, answers).outcome is Err
            &&& run_once(config, answers).outcome->Err_0 is Auth
        },
        token_usable(answers) && batch_of_reply(answers.alarms) is Err ==> {
            &&& run_once(config, answers).actions == seq![
                token_request(config),
                alarms_request(config, answers),
            ]
            &&& run_once(config, answers).outcome == Err::<(), PipelineError>(
                batch_of_reply(answers.alarms)->Err_0,
            )
            &&& run_once(config, answers).outcome->Err_0.stage_of() == Stage::Fetch
        },
        token_usable(answers) && batch_of_reply(answers.alarms) is Ok ==> {
            &&& run_once(config, answers).actions == seq![
                token_request(config),
                alarms_request(config, answers),
                page_request(config, answers),
            ]
            &&& run_once(config, answers).outcome == if answers.sink_accepts {
                Ok::<(), PipelineError>(())
            } else {
                Err::<(), PipelineError>(PipelineError::Sink)
            }
        },
{
    reveal_with_fuel(run_from, 4);
    if token_usable(answers) {
        if batch_of_reply(answers.alarms) is Ok {
            assert(run_once(config, answers).actions =~= seq![
                token_request(config),
                alarms_request(config, answers),
                page_request(config, answers),
            ]);
        } else {
            assert(run_once(config, answers).actions =~= seq![
                token_request(config),
                alarms_request(config, answers),
            ]);
        }
    } else {
        assert(run_once(config, answers).actions =~= seq![token_request(config)]);
    }
}

/// The records of the first result set reach the page in the order in which
/// they were sent: with a token, a successful response whose envelope is
/// well formed and whose first `data` list is `items` has its page handed to
/// the sink, and in that page the row after the heading row and `i` others
/// shows the record that `items[i]` stands for.
pub proof fn lemma_rows_follow_the_response(
    config: ConfigView,
    answers: Answers,
    status: u16,
    body: Seq<u8>,
    doc: JsonValue,
    sets: Seq<JsonValue>,
    items: Seq<JsonValue>,
)
    requires
        token_usable(answers),
        answers.alarms == (HttpReplyView::Response { status, body }),
        is_success(status),
        json_document(body) == Some(doc),
        doc.get("results"@) == Some(JsonValue::Array(sets)),
        sets.len() > 0,
        forall|i: int| 0 <= i < sets.len() ==> (#[trigger] result_set_of(sets[i])) is Some,
        sets[0].get("data"@) == Some(JsonValue::Array(items)),
    ensures
        run_once(config, answers).actions == seq![
            token_request(config),
            alarms_request(config, answers),
            page_request(config, answers),
        ],
        page_request(config, answers)->rows.len() == if items.len() == 0 {
            0
        } else {
            items.len() + 1
        },
        forall|i: int|
            0 <= i < items.len() ==> record_of(items[i]) is Some && #[trigger] page_request(
                config,
                answers,
            )->rows[i + 1] == row_of(record_of(items[i])->Some_0),
{
    lemma_run_shape(config, answers);
    lemma_batch_is_first_data_list(doc, sets, items);
    let batch = batch_of_reply(answers.alarms)->Ok_0;
    lemma_page_shape(batch);
}

/// A failure of the token endpoint ends the run there: no reply, a status
/// outside 200..=299 or a body without a token. Neither the alarms nor a page
/// are asked for, and the run is reported as failed at the first stage, with
/// the token endpoint's own failure as the cause.
pub proof fn lemma_token_failure_ends_run(config: ConfigView, answers: Answers)
    requires
        token_of_reply(answers.token) is Err,
    ensures
        run_once(config, answers).actions == seq![token_request(config)],
        run_once(config, answers).outcome == Err::<(), PipelineError>(
            PipelineError::Auth(token_of_reply(answers.token)->Err_0),
        ),
        run_once(config, answers).outcome->Err_0.stage_of() == Stage::Auth,
{
    lemma_run_shape(config, answers);
    reveal_with_fuel(run_from, 2);
}

/// A document without a result set: its member `results` is missing, is
/// no list, or is a list without items.
pub open spec fn without_result_set(doc: JsonValue) -> bool {
    match doc.get("results"@) {
        Some(JsonValue::Array(sets)) => sets.len() == 0,
        _ => true,
    }
}

/// A successful response of the data endpoint whose document has no result
/// set is not read as a batch, and no run that gets it hands a page to the
/// sink: the store is as it was.
pub proof fn lemma_no_result_set_no_write(
    sink: Sink,
    config: ConfigView,
    answers: Answers,
    status: u16,
    body: Seq<u8>,
    doc: JsonValue,
)
    requires
        answers.alarms == (HttpReplyView::Response { status, body }),
        is_success(status),
        json_document(body) == Some(doc),
        without_result_set(doc),
    ensures
        batch_of_reply(answers.alarms) == Err::<Seq<AlarmRecordView>, PipelineError>(
            PipelineError::Decode(
                if doc.get("results"@) matches Some(JsonValue::Array(_)) {
                    DecodeError::EmptyResults
                } else {
                    DecodeError::MissingResults
                },
            ),
        ),
        run_once(config, answers).outcome is Err,
        forall|i: int|
            0 <= i < run_once(config, answers).actions.len() ==> !(#[trigger] run_once(
                config,
                answers,
            ).actions[i] is WritePage),
        sink_after(sink, config, answers) == sink,
{
    lemma_run_shape(config, answers);
    lemma_all_or_nothing(sink, config, answers);
}

/// A run replaces the whole page or leaves the store alone. Where it
/// succeeds, the page of the configured name holds the rows of the batch that
/// the data endpoint sent and every other page is as it was; where it fails,
/// at whatever stage, the store is as it was.
pub proof fn lemma_all_or_nothing(sink: Sink, config: ConfigView, answers: Answers)
    ensures
        match run_once(config, answers).outcome {
            Ok(()) => batch_of_reply(answers.alarms) is Ok && sink_after(sink, config, answers)
                == sink.overwrite(
                config.document,
                config.sheet,
                page_of(batch_of_reply(answers.alarms)->Ok_0),
            ),
            Err(_) => sink_after(sink, config, answers) == sink,
        },
{
    lemma_run_shape(config, answers);
    reveal_with_fuel(Answers::effects, 4);
    let actions = run_once(config, answers).actions;
    if actions.len() >= 2 {
        assert(actions.drop_first()[0] == actions[1]);
        if actions.len() >= 3 {
            assert(actions.drop_first().drop_first()[0] == actions[2]);
        }
    }
}

/// A second run that gets the answers of the first leaves the store as the
/// first left it: the page is replaced, never added to.
pub proof fn lemma_second_run_changes_nothing(sink: Sink, config: ConfigView, answers: Answers)
    ensures
        sink_after(sink_after(sink, config, answers), config, answers) == sink_after(
            sink,
            config,
            answers,
        ),
{
    let once = sink_after(sink, config, answers);
    lemma_all_or_nothing(sink, config, answers);
    lemma_all_or_nothing(once, config, answers);
    if run_once(config, answers).outcome is Ok {
        crate::sheet::lemma_overwrite_twice(
            sink,
            config.document,
            config.sheet,
            page_of(batch_of_reply(answers.alarms)->Ok_0),
        );
    }
}

} // verus!
