//! The sequencer's loop, step by step.
use vstd::prelude::*;

use crate::node::{Action, Event, EventView, Phase, PhaseView, Publication};

verus! {

/// A sequencer asks for transactions first. Where there are none it publishes what is
/// ready, and where nothing is it sleeps for a tenth of a second and asks again.
pub proof fn law_idle_loop()
    ensures
        crate::node::action_in(PhaseView::Proposing) == Action::Propose,
        ({
            let processing = crate::node::next_phase(
                PhaseView::Proposing,
                EventView::Proposed { count: 0 },
            );
            let idling = crate::node::next_phase(
                processing,
                EventView::Processed(Publication::Nothing),
            );
            &&& crate::node::action_in(processing) == Action::ProcessReady
            &&& crate::node::action_in(idling) == (Action::Sleep { milliseconds: 100 })
            &&& crate::node::next_phase(idling, EventView::Slept) == PhaseView::Proposing
        }),
{
}

/// A batch that was ready is reported under its own sequence, and the sequencer asks again.
pub proof fn law_ready_batches(sequence: u64)
    ensures
        ({
            let reporting = crate::node::next_phase(
                crate::node::next_phase(PhaseView::Proposing, EventView::Proposed { count: 0 }),
                EventView::Processed(Publication::Published { sequence }),
            );
            &&& crate::node::action_in(reporting) == (Action::Report { sequence })
            &&& crate::node::next_phase(reporting, EventView::Reported) == PhaseView::Proposing
        }),
{
}

/// The proposed transactions are submitted one after the other from the first to the last;
/// then what was submitted is published, batch for batch, each reported under its own
/// sequence before the next, until nothing is left, and the sequencer asks again.
pub proof fn law_flushing(next: nat, count: nat, sequence: u64)
    requires
        next < count <= usize::MAX,
    ensures
        crate::node::next_phase(PhaseView::Proposing, EventView::Proposed { count })
            == (PhaseView::Submitting { next: 0, count }),
        crate::node::action_in(PhaseView::Submitting { next, count }) == (Action::Submit {
            index: next as usize,
        }),
        next + 1 < count ==> crate::node::next_phase(
            PhaseView::Submitting { next, count },
            EventView::Submitted,
        ) == (PhaseView::Submitting { next: next + 1, count }),
        next + 1 == count ==> {
            let flushing = crate::node::next_phase(
                PhaseView::Submitting { next, count },
                EventView::Submitted,
            );
            let reporting = crate::node::next_phase(
                flushing,
                EventView::Flushed(Publication::Published { sequence }),
            );
            &&& crate::node::action_in(flushing) == Action::Flush
            &&& crate::node::action_in(reporting) == (Action::Report { sequence })
            &&& crate::node::next_phase(reporting, EventView::Reported) == flushing
            &&& crate::node::next_phase(flushing, EventView::Flushed(Publication::Nothing))
                == PhaseView::Proposing
        },
{
}

/// Where publishing fails the sequencer sleeps for a second and recovers, and sleeps again
/// where recovering fails. Once it has recovered it reports what was published meanwhile,
/// in order, and asks again.
pub proof fn law_recovery(phase: PhaseView, sequences: Seq<u64>)
    requires
        phase is Processing || phase is Flushing,
    ensures
        ({
            let waiting = crate::node::next_phase(
                phase,
                if phase is Processing {
                    EventView::Processed(Publication::Failed)
                } else {
                    EventView::Flushed(Publication::Failed)
                },
            );
            let recovering = crate::node::next_phase(waiting, EventView::Slept);
            let resumed = crate::node::next_phase(
                recovering,
                EventView::Recovered(Some(sequences)),
            );
            &&& crate::node::action_in(waiting) == (Action::Sleep { milliseconds: 1_000 })
            &&& crate::node::action_in(recovering) == Action::Recover
            &&& crate::node::next_phase(recovering, EventView::Recovered(None)) == waiting
            &&& sequences.len() == 0 ==> resumed == PhaseView::Proposing
            &&& sequences.len() > 0 ==> {
                &&& crate::node::action_in(resumed) == (Action::Report { sequence: sequences[0] })
                &&& crate::node::next_phase(resumed, EventView::Reported)
                    == crate::node::next_phase(
                    recovering,
                    EventView::Recovered(Some(sequences.drop_first())),
                )
            }
        }),
{
    assert(sequences.len() > 0 ==> sequences.drop_first() =~= sequences.skip(1));
}

/// An event answers the action that leads to it and no other, and one that answers another
/// action than the sequencer's changes nothing.
pub proof fn law_events_answer_actions(phase: PhaseView, action: Action, event: EventView)
    ensures
        crate::node::answers_action(action, event) <==> {
            ||| action is Propose && event is Proposed
            ||| action is ProcessReady && event is Processed
            ||| action is Sleep && event is Slept
            ||| action is Submit && event is Submitted
            ||| action is Flush && event is Flushed
            ||| action is Report && event is Reported
            ||| action is Recover && event is Recovered
        },
        !crate::node::answers_action(crate::node::action_in(phase), event)
            ==> crate::node::next_phase(phase, event) == phase,
{
}

/// A phase says where the sequencer stands: its view has the same kind and numbers, and of
/// the batches to report those that are left.
pub proof fn law_phase_views(phase: Phase)
    ensures
        phase is Proposing <==> phase@ is Proposing,
        phase is Processing <==> phase@ is Processing,
        phase is Idling <==> phase@ is Idling,
        phase is Flushing <==> phase@ is Flushing,
        phase is Waiting <==> phase@ is Waiting,
        phase is Recovering <==> phase@ is Recovering,
        phase matches Phase::Submitting { next, count } ==> phase@ == (PhaseView::Submitting {
            next: next as nat,
            count: count as nat,
        }),
        phase matches Phase::ReportingReady { sequence } ==> phase@ == (PhaseView::ReportingReady {
            sequence,
        }),
        phase matches Phase::ReportingFlushed { sequence } ==> phase@
            == (PhaseView::ReportingFlushed { sequence }),
        phase matches Phase::Resuming { sequences, next } ==> {
            &&& phase@ is Resuming
            &&& next <= sequences@.len() ==> sequences@ == sequences@.take(next as int)
                + phase@->left
        },
        phase.wf() <==> {
            &&& phase matches Phase::Submitting { next, count } ==> next < count
            &&& phase matches Phase::Resuming { sequences, next } ==> next < sequences@.len()
        },
{
    if let Phase::Resuming { sequences, next } = phase {
        if next <= sequences@.len() {
            assert(sequences@ =~= sequences@.take(next as int) + sequences@.skip(next as int));
        }
    }
}

/// An event says what an action led to: its view has the same kind, numbers and batches.
pub proof fn law_event_views(event: Event)
    ensures
        event matches Event::Proposed { count } ==> event@ == (EventView::Proposed {
            count: count as nat,
        }),
        event matches Event::Processed(publication) ==> event@ == EventView::Processed(publication),
        event matches Event::Flushed(publication) ==> event@ == EventView::Flushed(publication),
        event is Slept ==> event@ is Slept,
        event is Submitted ==> event@ is Submitted,
        event is Reported ==> event@ is Reported,
        event matches Event::Recovered(Some(sequences)) ==> event@ == EventView::Recovered(
            Some(sequences@),
        ),
        event matches Event::Recovered(None) ==> event@ == EventView::Recovered(None),
{
}

} // verus!
