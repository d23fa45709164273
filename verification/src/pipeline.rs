//! One run of the pipeline as a machine: it asks for one thing at a time,
//! is told what came of it, and then asks for the next or ends the run.
//! The caller carries out what is asked for.

use crate::bearer::{authorization, bearer_text, header_text};
use crate::config::{Config, ConfigView};
use crate::error::{AuthError, PipelineError, Stage};
use crate::reply::{
    batch_from_reply, batch_of_reply, token_from_reply, token_of_reply, HttpReply, HttpReplyView,
};
use crate::sheet::{page, page_of};
use vstd::prelude::*;

verus! {

/// What the run asks its caller to do.
#[derive(Clone, Debug, PartialEq, Eq)]
pub enum Action {
    /// Send a GET request without credentials to the token endpoint.
    GetToken { url: String },
    /// Send a GET request to the data endpoint, with `authorization` as the
    /// value of the `Authorization` header.
    GetAlarms { url: String, authorization: String },
    /// Replace all rows of the page `sheet` of `document` by `rows`.
    WritePage { document: String, sheet: String, rows: Vec<Vec<String>> },
}

/// An action as a mathematical value.
pub enum ActionView {
    GetToken { url: Seq<char> },
    GetAlarms { url: Seq<char>, authorization: Seq<char> },
    WritePage { document: Seq<char>, sheet: Seq<char>, rows: Seq<Seq<Seq<char>>> },
}

impl View for Action {
    type V = ActionView;

    open spec fn view(&self) -> ActionView {
        match self {
            Action::GetToken { url } => ActionView::GetToken { url: url@ },
            Action::GetAlarms { url, authorization } => ActionView::GetAlarms {
                url: url@,
                authorization: authorization@,
            },
            Action::WritePage { document, sheet, rows } => ActionView::WritePage {
                document: document@,
                sheet: sheet@,
                rows: rows.deep_view(),
            },
        }
    }
}

/// What came of an action.
#[derive(Clone, Debug, PartialEq, Eq)]
pub enum Event {
    /// The reply to a request.
    Http(HttpReply),
    /// The sink's answer to a page: whether it has replaced the old one.
    Sink { accepted: bool },
}

/// An event as a mathematical value.
pub enum EventView {
    Http(HttpReplyView),
    Sink { accepted: bool },
}

impl View for Event {
    type V = EventView;

    open spec fn view(&self) -> EventView {
        match self {
            Event::Http(reply) => EventView::Http(reply@),
            Event::Sink { accepted } => EventView::Sink { accepted: *accepted },
        }
    }
}

/// Where a run stands after an event.
#[derive(Debug, PartialEq, Eq)]
pub enum Step {
    /// The run goes on: `action` is to be carried out, and what comes of it
    /// is to be handed in at `stage`.
    Next { stage: Stage, action: Action },
    /// The run has ended.
    Done(Result<(), PipelineError>),
}

/// A step as a mathematical value.
pub enum StepView {
    Next { stage: Stage, action: ActionView },
    Done(Result<(), PipelineError>),
}

impl View for Step {
    type V = StepView;

    open spec fn view(&self) -> StepView {
        match self {
            Step::Next { stage, action } => StepView::Next { stage: *stage, action: action@ },
            Step::Done(outcome) => StepView::Done(*outcome),
        }
    }
}

/// The reply that an event brings. The sink's answer brings none.
pub open spec fn reply_in(event: EventView) -> HttpReplyView {
    match event {
        EventView::Http(reply) => reply,
        EventView::Sink { .. } => HttpReplyView::NoResponse,
    }
}

/// Whether an event says that the sink has replaced the page. A reply to a
/// request does not say so.
pub open spec fn sink_accepted(event: EventView) -> bool {
    event == (EventView::Sink { accepted: true })
}

/// The first step of every run: the token is asked for.
pub open spec fn begin_model(config: ConfigView) -> StepView {
    StepView::Next { stage: Stage::Auth, action: ActionView::GetToken { url: config.token_url } }
}

/// The step after the token endpoint's reply: with a token that can be sent,
/// the alarms are asked for under it; else the run ends.
pub open spec fn after_token_model(config: ConfigView, event: EventView) -> StepView {
    match token_of_reply(reply_in(event)) {
        Ok(token) => {
            if header_text(bearer_text(token)) {
                StepView::Next {
                    stage: Stage::Fetch,
                    action: ActionView::GetAlarms {
                        url: config.data_url,
                        authorization: bearer_text(token),
                    },
                }
            } else {
                StepView::Done(Err(PipelineError::Auth(AuthError::Unsendable)))
            }
        },
        Err(error) => StepView::Done(Err(PipelineError::Auth(error))),
    }
}

/// The step after the data endpoint's reply: with a batch, its page is
/// handed to the sink; else the run ends.
pub open spec fn after_alarms_model(config: ConfigView, event: EventView) -> StepView {
    match batch_of_reply(reply_in(event)) {
        Ok(batch) => StepView::Next {
            stage: Stage::Write,
            action: ActionView::WritePage {
                document: config.document,
                sheet: config.sheet,
                rows: page_of(batch),
            },
        },
        Err(error) => StepView::Done(Err(error)),
    }
}

/// The step after the sink's answer: the run ends.
pub open spec fn after_write_model(event: EventView) -> StepView {
    if sink_accepted(event) {
        StepView::Done(Ok(()))
    } else {
        StepView::Done(Err(PipelineError::Sink))
    }
}

/// The step after `event` was handed in at `stage`. An event of the wrong
/// kind counts as the failure of what was asked for.
pub open spec fn advance_model(config: ConfigView, stage: Stage, event: EventView) -> StepView {
    match stage {
        Stage::Auth => after_token_model(config, event),
        Stage::Fetch => after_alarms_model(config, event),
        Stage::Write => after_write_model(event),
    }
}

/// A run that ends in failure after an event at `stage` reports an error of
/// that stage, and a run that goes on goes on at the stage that follows.
pub proof fn lemma_stages_in_order(config: ConfigView, stage: Stage, event: EventView)
    ensures
        match advance_model(config, stage, event) {
            StepView::Done(Err(error)) => error.stage_of() == stage,
            StepView::Done(Ok(())) => stage == Stage::Write,
            StepView::Next { stage: next, action } => match stage {
                Stage::Auth => next == Stage::Fetch && action is GetAlarms,
                Stage::Fetch => next == Stage::Write && action is WritePage,
                Stage::Write => false,
            },
        },
{
}

/// Begins a run.
pub fn begin(config: &Config) -> (step: Step)
    ensures
        step@ == begin_model(config@),
{
    Step::Next { stage: Stage::Auth, action: Action::GetToken { url: config.token_url.clone() } }
}

/// Takes what came of the last action and says how the run goes on.
pub fn advance(config: &Config, stage: Stage, event: Event) -> (step: Step)
    ensures
        step@ == advance_model(config@, stage, event@),
{
    match stage {
        Stage::Auth => {
            let reply = match event {
                Event::Http(reply) => reply,
                Event::Sink { .. } => HttpReply::NoResponse,
            };
            let token = match token_from_reply(&reply) {
                Ok(token) => token,
                Err(error) => {
                    return Step::Done(Err(PipelineError::Auth(error)));
                },
            };
            match authorization(&token) {
                Some(value) => Step::Next {
                    stage: Stage::Fetch,
                    action: Action::GetAlarms { url: config.data_url.clone(), authorization: value },
                },
                None => Step::Done(Err(PipelineError::Auth(AuthError::Unsendable))),
            }
        },
        Stage::Fetch => {
            let reply = match event {
                Event::Http(reply) => reply,
                Event::Sink { .. } => HttpReply::NoResponse,
            };
            match batch_from_reply(&reply) {
                Ok(batch) => Step::Next {
                    stage: Stage::Write,
                    action: Action::WritePage {
                        document: config.document.clone(),
                        sheet: config.sheet.clone(),
                        rows: page(&batch),
                    },
                },
                Err(error) => Step::Done(Err(error)),
            }
        },
        Stage::Write => {
            match event {
                Event::Sink { accepted: true } => Step::Done(Ok(())),
                _ => Step::Done(Err(PipelineError::Sink)),
            }
        },
    }
}

} // verus!
