//! What the scheduler does between runs. It has one state, in which it waits
//! for the next tick; on a tick it starts a run, and after the run, however
//! it ended, it reports and waits again. The caller keeps the timer and reads
//! the clock.

use crate::error::{PipelineError, Stage};
use vstd::prelude::*;

verus! {

/// What is reported after a run.
#[derive(Clone, Debug, PartialEq, Eq)]
pub enum Notice {
    /// The page was replaced; `at` is the time at which the run ended, as
    /// the caller read it.
    Completed { at: String },
    /// The run was abandoned at `stage` for `error`.
    Failed { stage: Stage, error: PipelineError },
}

/// A notice as a mathematical value.
pub enum NoticeView {
    Completed { at: Seq<char> },
    Failed { stage: Stage, error: PipelineError },
}

impl View for Notice {
    type V = NoticeView;

    open spec fn view(&self) -> NoticeView {
        match self {
            Notice::Completed { at } => NoticeView::Completed { at: at@ },
            Notice::Failed { stage, error } => NoticeView::Failed { stage: *stage, error: *error },
        }
    }
}

/// What wakes the scheduler.
#[derive(Clone, Copy, Debug)]
pub enum Signal {
    /// The timer has ticked.
    Tick,
    /// The run that the scheduler started has ended.
    RunEnded(Result<(), PipelineError>),
}

/// What the scheduler asks its caller to do.
#[derive(Clone, Debug, PartialEq, Eq)]
pub enum Order {
    /// Carry out one run, and signal its end.
    Run,
    /// Report `notice`, and signal the next tick.
    Wait { notice: Notice },
}

/// An order as a mathematical value.
pub enum OrderView {
    Run,
    Wait { notice: NoticeView },
}

impl View for Order {
    type V = OrderView;

    open spec fn view(&self) -> OrderView {
        match self {
            Order::Run => OrderView::Run,
            Order::Wait { notice } => OrderView::Wait { notice: notice@ },
        }
    }
}

/// The notice for a run that ended with `outcome` at the time `at`. A
/// failure is reported with its stage and cause, and without the time.
pub open spec fn notice_of(outcome: Result<(), PipelineError>, at: Seq<char>) -> NoticeView {
    match outcome {
        Ok(()) => NoticeView::Completed { at },
        Err(error) => NoticeView::Failed { stage: error.stage_of(), error },
    }
}

/// The order that answers `signal` at the time `at`. A tick starts a run.
/// The end of a run, whatever its outcome, is reported and followed by the
/// wait for the next tick.
pub open spec fn order_of(signal: Signal, at: Seq<char>) -> OrderView {
    match signal {
        Signal::Tick => OrderView::Run,
        Signal::RunEnded(outcome) => OrderView::Wait { notice: notice_of(outcome, at) },
    }
}

/// The order that answers `signal` at the time `at`, which the caller has
/// read from the clock. The time shows only in the notice of a success.
pub fn order_at(signal: Signal, at: String) -> (order: Order)
    ensures
        order@ == order_of(signal, at@),
{
    match signal {
        Signal::Tick => Order::Run,
        Signal::RunEnded(Ok(())) => Order::Wait { notice: Notice::Completed { at } },
        Signal::RunEnded(Err(error)) => Order::Wait {
            notice: Notice::Failed { stage: error.stage(), error },
        },
    }
}

/// The scheduler never stops and never passes a failure on: every tick
/// starts a run, and every end of a run, failed or not, is reported and
/// followed by the wait for the next tick.
pub proof fn lemma_scheduler_goes_on(outcome: Result<(), PipelineError>, at: Seq<char>)
    ensures
        order_of(Signal::Tick, at) is Run,
        order_of(Signal::RunEnded(outcome), at) is Wait,
        outcome is Ok ==> order_of(Signal::RunEnded(outcome), at)->notice
            == (NoticeView::Completed { at }),
        outcome is Err ==> order_of(Signal::RunEnded(outcome), at)->notice
            == (NoticeView::Failed { stage: outcome->Err_0.stage_of(), error: outcome->Err_0 }),
{
}

} // verus!
