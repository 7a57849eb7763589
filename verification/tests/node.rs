//! The decisions of a running node.

use coro_engine::applier::AppliedBatch;
use coro_engine::chain::BlockMeta;
use coro_engine::hash::Digest;
use coro_engine::node::{catch_up, report_published, Action, Event, Phase, Publication, ReportWarning};

/// Runs the loop over the events, and gives the actions before each and after all.
fn actions(events: Vec<Event>) -> Vec<Action> {
    let mut phase = Phase::new();
    let mut actions = vec![phase.action()];
    for event in events {
        phase = phase.step(event);
        actions.push(phase.action());
    }
    actions
}

const SLEEP: Action = Action::Sleep { milliseconds: 100 };
const WAIT: Action = Action::Sleep { milliseconds: 1_000 };

#[test]
fn idle_sequencer_processes_and_sleeps() {
    assert_eq!(
        actions(vec![
            Event::Proposed { count: 0 },
            Event::Processed(Publication::Nothing),
            Event::Slept,
            Event::Proposed { count: 0 },
            Event::Processed(Publication::Published { sequence: 8 }),
            Event::Reported,
        ]),
        [
            Action::Propose,
            Action::ProcessReady,
            SLEEP,
            Action::Propose,
            Action::ProcessReady,
            Action::Report { sequence: 8 },
            Action::Propose,
        ]
    );
}

#[test]
fn proposed_transactions_are_submitted_and_flushed() {
    assert_eq!(
        actions(vec![
            Event::Proposed { count: 2 },
            Event::Submitted,
            Event::Submitted,
            Event::Flushed(Publication::Published { sequence: 3 }),
            Event::Reported,
            Event::Flushed(Publication::Published { sequence: 4 }),
            Event::Reported,
            Event::Flushed(Publication::Nothing),
        ]),
        [
            Action::Propose,
            Action::Submit { index: 0 },
            Action::Submit { index: 1 },
            Action::Flush,
            Action::Report { sequence: 3 },
            Action::Flush,
            Action::Report { sequence: 4 },
            Action::Flush,
            Action::Propose,
        ]
    );
}

#[test]
fn failures_recover_before_anything_else() {
    assert_eq!(
        actions(vec![
            Event::Proposed { count: 1 },
            Event::Submitted,
            Event::Flushed(Publication::Failed),
            Event::Slept,
            Event::Recovered(None),
            Event::Slept,
            Event::Recovered(Some(vec![5, 6])),
            Event::Reported,
            Event::Reported,
            Event::Proposed { count: 0 },
            Event::Processed(Publication::Failed),
            Event::Slept,
            Event::Recovered(Some(Vec::new())),
        ]),
        [
            Action::Propose,
            Action::Submit { index: 0 },
            Action::Flush,
            WAIT,
            Action::Recover,
            WAIT,
            Action::Recover,
            Action::Report { sequence: 5 },
            Action::Report { sequence: 6 },
            Action::Propose,
            Action::ProcessReady,
            WAIT,
            Action::Recover,
            Action::Propose,
        ]
    );
}

#[test]
fn events_that_answer_no_action_change_nothing() {
    assert_eq!(
        actions(vec![Event::Slept, Event::Reported, Event::Recovered(Some(vec![1]))]),
        [Action::Propose, Action::Propose, Action::Propose, Action::Propose]
    );
}

#[test]
fn published_blocks_are_loaded_and_decoded() {
    let decode = |payload: Vec<u8>| {
        if payload.is_empty() {
            Err("empty".to_string())
        } else {
            Ok(payload.len())
        }
    };
    assert_eq!(report_published(Ok(Some(vec![1, 2])), decode).unwrap(), 2);
    assert!(matches!(
        report_published(Ok(Some(Vec::new())), decode),
        Err(ReportWarning::Undecodable(text)) if text == "empty"
    ));
    assert!(matches!(report_published(Ok(None), decode), Err(ReportWarning::Missing)));
    assert!(matches!(
        report_published(Err("gone".to_string()), decode),
        Err(ReportWarning::Load(text)) if text == "gone"
    ));
}

#[test]
fn catch_up_reports_the_last_batch() {
    let batch = |height: u64| {
        let meta = BlockMeta { height, state_root: Digest([height as u8; 32]), tx_count: 1 };
        AppliedBatch { metadata: meta, output: meta }
    };
    assert!(catch_up(&[]).is_none());
    let summary = catch_up(&[batch(4), batch(5)]).expect("summary");
    assert_eq!(summary.applied, 2);
    assert_eq!(summary.height, 5);
    assert_eq!(summary.state_root, Digest([5; 32]));
}
