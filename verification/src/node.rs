//! The decisions of a running node: what a sequencer does next, what it reports of
//! a published block, and what a replica has caught up with.
//!
//! The node performs an action, and hands back the event that it led to.
use vstd::prelude::*;

use crate::applier::AppliedBatch;
use crate::hash::Digest;

verus! {

/// For how many milliseconds a sequencer without work sleeps.
pub const IDLE_SLEEP_MS: u64 = 100;

/// For how many milliseconds a sequencer sleeps before it recovers.
pub const RECOVERY_SLEEP_MS: u64 = 1_000;

/// Where a sequencer stands.
#[derive(Debug)]
pub enum Phase {
    /// It asks the mempool for transactions.
    Proposing,
    /// Nothing was proposed: it publishes what is ready.
    Processing,
    /// Nothing was ready.
    Idling,
    /// It submits the proposed transactions.
    Submitting { next: usize, count: usize },
    /// It publishes what was submitted, until nothing is left.
    Flushing,
    /// A batch was published while it processed what was ready.
    ReportingReady { sequence: u64 },
    /// A batch was published while it flushed.
    ReportingFlushed { sequence: u64 },
    /// Publishing or recovering failed.
    Waiting,
    /// It recovers.
    Recovering,
    /// It recovered, and reports the batches that were published meanwhile.
    Resuming { sequences: Vec<u64>, next: usize },
}

/// What a [`Phase`] says.
#[verifier::ext_equal]
pub enum PhaseView {
    Proposing,
    Processing,
    Idling,
    Submitting { next: nat, count: nat },
    Flushing,
    ReportingReady { sequence: u64 },
    ReportingFlushed { sequence: u64 },
    Waiting,
    Recovering,
    /// The batches that are still to be reported, in order.
    Resuming { left: Seq<u64> },
}

impl View for Phase {
    type V = PhaseView;

    open spec fn view(&self) -> PhaseView {
        match self {
            Phase::Proposing => PhaseView::Proposing,
            Phase::Processing => PhaseView::Processing,
            Phase::Idling => PhaseView::Idling,
            Phase::Submitting { next, count } => PhaseView::Submitting {
                next: *next as nat,
                count: *count as nat,
            },
            Phase::Flushing => PhaseView::Flushing,
            Phase::ReportingReady { sequence } => PhaseView::ReportingReady {
                sequence: *sequence,
            },
            Phase::ReportingFlushed { sequence } => PhaseView::ReportingFlushed {
                sequence: *sequence,
            },
            Phase::Waiting => PhaseView::Waiting,
            Phase::Recovering => PhaseView::Recovering,
            Phase::Resuming { sequences, next } => PhaseView::Resuming {
                left: sequences@.skip(*next as int),
            },
        }
    }
}

impl Phase {
    /// Some transaction is left to submit, and some batch is left to report.
    pub open spec fn wf(&self) -> bool {
        match self {
            Phase::Submitting { next, count } => *next < *count,
            Phase::Resuming { sequences, next } => *next < sequences@.len(),
            _ => true,
        }
    }
}

/// What a sequencer does next.
#[derive(Clone, Copy, Debug, PartialEq, Eq, Structural)]
pub enum Action {
    /// Ask the mempool for transactions.
    Propose,
    /// Publish a batch that is ready.
    ProcessReady,
    /// Sleep.
    Sleep { milliseconds: u64 },
    /// Submit the proposed transaction with that index.
    Submit { index: usize },
    /// Publish a batch of what was submitted.
    Flush,
    /// Report a published batch to the mempool.
    Report { sequence: u64 },
    /// Publish the batches that were archived but not published.
    Recover,
}

/// What an attempt to publish a batch came to.
#[derive(Clone, Copy, Debug, PartialEq, Eq, Structural)]
pub enum Publication {
    Published { sequence: u64 },
    Nothing,
    Failed,
}

/// What an action led to.
#[derive(Debug)]
pub enum Event {
    /// The mempool proposed as many transactions as this.
    Proposed { count: usize },
    Processed(Publication),
    Slept,
    /// The transaction was taken, or refused.
    Submitted,
    Flushed(Publication),
    Reported,
    /// The batches that recovery published, or none where it failed.
    Recovered(Option<Vec<u64>>),
}

/// What an [`Event`] says.
pub enum EventView {
    Proposed { count: nat },
    Processed(Publication),
    Slept,
    Submitted,
    Flushed(Publication),
    Reported,
    Recovered(Option<Seq<u64>>),
}

impl View for Event {
    type V = EventView;

    open spec fn view(&self) -> EventView {
        match self {
            Event::Proposed { count } => EventView::Proposed { count: *count as nat },
            Event::Processed(publication) => EventView::Processed(*publication),
            Event::Slept => EventView::Slept,
            Event::Submitted => EventView::Submitted,
            Event::Flushed(publication) => EventView::Flushed(*publication),
            Event::Reported => EventView::Reported,
            Event::Recovered(resumed) => EventView::Recovered(
                match resumed {
                    Some(sequences) => Some(sequences@),
                    None => None,
                },
            ),
        }
    }
}

/// What a sequencer does in a phase.
pub open spec fn action_in(phase: PhaseView) -> Action {
    match phase {
        PhaseView::Proposing => Action::Propose,
        PhaseView::Processing => Action::ProcessReady,
        PhaseView::Idling => Action::Sleep { milliseconds: IDLE_SLEEP_MS },
        PhaseView::Submitting { next, .. } => Action::Submit { index: next as usize },
        PhaseView::Flushing => Action::Flush,
        PhaseView::ReportingReady { sequence } => Action::Report { sequence },
        PhaseView::ReportingFlushed { sequence } => Action::Report { sequence },
        PhaseView::Waiting => Action::Sleep { milliseconds: RECOVERY_SLEEP_MS },
        PhaseView::Recovering => Action::Recover,
        PhaseView::Resuming { left } => Action::Report { sequence: left[0] },
    }
}

/// The event is one that the action can lead to.
pub open spec fn answers_action(action: Action, event: EventView) -> bool {
    match action {
        Action::Propose => event is Proposed,
        Action::ProcessReady => event is Processed,
        Action::Sleep { .. } => event is Slept,
        Action::Submit { .. } => event is Submitted,
        Action::Flush => event is Flushed,
        Action::Report { .. } => event is Reported,
        Action::Recover => event is Recovered,
    }
}

/// Where a sequencer stands after an event.
pub open spec fn next_phase(phase: PhaseView, event: EventView) -> PhaseView {
    match (phase, event) {
        (PhaseView::Proposing, EventView::Proposed { count }) => if count == 0 {
            PhaseView::Processing
        } else {
            PhaseView::Submitting { next: 0, count }
        },
        (PhaseView::Processing, EventView::Processed(publication)) => match publication {
            Publication::Published { sequence } => PhaseView::ReportingReady { sequence },
            Publication::Nothing => PhaseView::Idling,
            Publication::Failed => PhaseView::Waiting,
        },
        (PhaseView::Idling, EventView::Slept) => PhaseView::Proposing,
        (PhaseView::Submitting { next, count }, EventView::Submitted) => if next + 1 < count {
            PhaseView::Submitting { next: next + 1, count }
        } else {
            PhaseView::Flushing
        },
        (PhaseView::Flushing, EventView::Flushed(publication)) => match publication {
            Publication::Published { sequence } => PhaseView::ReportingFlushed { sequence },
            Publication::Nothing => PhaseView::Proposing,
            Publication::Failed => PhaseView::Waiting,
        },
        (PhaseView::ReportingReady { .. }, EventView::Reported) => PhaseView::Proposing,
        (PhaseView::ReportingFlushed { .. }, EventView::Reported) => PhaseView::Flushing,
        (PhaseView::Waiting, EventView::Slept) => PhaseView::Recovering,
        (PhaseView::Recovering, EventView::Recovered(resumed)) => match resumed {
            Some(sequences) => resuming(sequences),
            None => PhaseView::Waiting,
        },
        (PhaseView::Resuming { left }, EventView::Reported) => resuming(left.skip(1)),
        _ => phase,
    }
}

/// Where a sequencer stands with these batches left to report after recovery.
pub open spec fn resuming(left: Seq<u64>) -> PhaseView {
    if left.len() == 0 {
        PhaseView::Proposing
    } else {
        PhaseView::Resuming { left }
    }
}

impl Phase {
    /// Where a sequencer starts.
    pub fn new() -> (phase: Phase)
        ensures
            phase.wf(),
            phase@ == PhaseView::Proposing,
    {
        Phase::Proposing
    }

    /// What the sequencer does next.
    pub fn action(&self) -> (action: Action)
        requires
            self.wf(),
        ensures
            action == action_in(self@),
    {
        match self {
            Phase::Proposing => Action::Propose,
            Phase::Processing => Action::ProcessReady,
            Phase::Idling => Action::Sleep { milliseconds: IDLE_SLEEP_MS },
            Phase::Submitting { next, count: _ } => Action::Submit { index: *next },
            Phase::Flushing => Action::Flush,
            Phase::ReportingReady { sequence } => Action::Report { sequence: *sequence },
            Phase::ReportingFlushed { sequence } => Action::Report { sequence: *sequence },
            Phase::Waiting => Action::Sleep { milliseconds: RECOVERY_SLEEP_MS },
            Phase::Recovering => Action::Recover,
            Phase::Resuming { sequences, next } => Action::Report { sequence: sequences[*next] },
        }
    }

    /// Where the sequencer stands after an event. An event that its action cannot
    /// lead to changes nothing.
    pub fn step(self, event: Event) -> (next: Phase)
        requires
            self.wf(),
        ensures
            next.wf(),
            next@ == next_phase(self@, event@),
    {
        match (self, event) {
            (Phase::Proposing, Event::Proposed { count }) => if count == 0 {
                Phase::Processing
            } else {
                Phase::Submitting { next: 0, count }
            },
            (Phase::Processing, Event::Processed(publication)) => match publication {
                Publication::Published { sequence } => Phase::ReportingReady { sequence },
                Publication::Nothing => Phase::Idling,
                Publication::Failed => Phase::Waiting,
            },
            (Phase::Idling, Event::Slept) => Phase::Proposing,
            (Phase::Submitting { next, count }, Event::Submitted) => if next + 1 < count {
                Phase::Submitting { next: next + 1, count }
            } else {
                Phase::Flushing
            },
            (Phase::Flushing, Event::Flushed(publication)) => match publication {
                Publication::Published { sequence } => Phase::ReportingFlushed { sequence },
                Publication::Nothing => Phase::Proposing,
                Publication::Failed => Phase::Waiting,
            },
            (Phase::ReportingReady { .. }, Event::Reported) => Phase::Proposing,
            (Phase::ReportingFlushed { .. }, Event::Reported) => Phase::Flushing,
            (Phase::Waiting, Event::Slept) => Phase::Recovering,
            (Phase::Recovering, Event::Recovered(resumed)) => match resumed {
                Some(sequences) => if sequences.len() == 0 {
                    Phase::Proposing
                } else {
                    assert(sequences@.skip(0) =~= sequences@);
                    Phase::Resuming { sequences, next: 0 }
                },
                None => Phase::Waiting,
            },
            (Phase::Resuming { sequences, next }, Event::Reported) => {
                assert(sequences@.skip(next as int).skip(1) =~= sequences@.skip(next + 1));
                if next < sequences.len() - 1 {
                    Phase::Resuming { sequences, next: next + 1 }
                } else {
                    Phase::Proposing
                }
            },
            (phase, _) => phase,
        }
    }
}

/// Why a published block was not reported to the mempool.
#[derive(Debug)]
pub enum ReportWarning {
    /// The archive does not hold the batch.
    Missing,
    /// The archive could not be read.
    Load(String),
    /// The payload is no block.
    Undecodable(String),
}

/// The block to report to the mempool, once its batch is published, or why there is
/// none. `archived` is what the archive gave for the batch, and `decode` decodes its
/// payload.
pub fn report_published<B, D>(archived: Result<Option<Vec<u8>>, String>, decode: D) -> (block:
    Result<B, ReportWarning>) where D: FnOnce(Vec<u8>) -> Result<B, String>
    requires
        archived matches Ok(Some(payload)) ==> call_requires(decode, (payload,)),
    ensures
        match archived {
            Ok(None) => block == Err::<B, ReportWarning>(ReportWarning::Missing),
            Err(detail) => block == Err::<B, ReportWarning>(ReportWarning::Load(detail)),
            Ok(Some(payload)) => exists|decoded: Result<B, String>|
                {
                    &&& #[trigger] call_ensures(decode, (payload,), decoded)
                    &&& block == (match decoded {
                        Ok(block) => Ok::<B, ReportWarning>(block),
                        Err(detail) => Err(ReportWarning::Undecodable(detail)),
                    })
                },
        },
{
    let payload = match archived {
        Ok(Some(payload)) => payload,
        Ok(None) => {
            return Err(ReportWarning::Missing);
        },
        Err(detail) => {
            return Err(ReportWarning::Load(detail));
        },
    };
    let decoded = decode(payload);
    let ghost outcome = decoded;
    assert(call_ensures(decode, (payload,), outcome));
    match decoded {
        Ok(block) => Ok(block),
        Err(detail) => Err(ReportWarning::Undecodable(detail)),
    }
}

/// What a replica has caught up with.
#[derive(Clone, Copy, Debug)]
pub struct CatchUp {
    pub applied: usize,
    pub height: u64,
    pub state_root: Digest,
}

/// What a replica has caught up with by applying these batches: how many they are,
/// and where the last one has led. `None` where there was none to apply.
pub fn catch_up(batches: &[AppliedBatch]) -> (summary: Option<CatchUp>)
    ensures
        summary == (if batches@.len() == 0 {
            None
        } else {
            Some(
                CatchUp {
                    applied: batches@.len() as usize,
                    height: batches@.last().output.height,
                    state_root: batches@.last().output.state_root,
                },
            )
        }),
{
    let applied: usize = batches.len();
    if applied == 0 {
        return None;
    }
    let output = batches[applied - 1].output;
    Some(CatchUp { applied, height: output.height, state_root: output.state_root })
}

} // verus!
