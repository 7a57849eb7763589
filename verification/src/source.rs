//! An in-process source of canonical history, backed by a sequencer.
//!
//! The sequencer's own queries run outside. The functions here say which of them a
//! source makes, and what it hands on of their outcomes.
use vstd::prelude::*;

use crate::chain::EngineError;

verus! {

/// Serves head, cursor and payload queries straight off a sequencer.
#[derive(Debug)]
pub struct SequencerSource<S> {
    pub sequencer: S,
    /// Where `false`, payload queries find nothing, so that replicas read payloads
    /// from the data-availability layer.
    pub serve_payloads: bool,
}

/// Why a query to a sequencer failed.
#[derive(Debug)]
pub enum SequencerError<C> {
    /// The sequencer itself failed.
    Core(C),
    /// The application on top of it failed.
    Application(EngineError),
}

/// The failure that a source reports.
#[derive(Debug)]
pub enum SourceError<C> {
    /// The sequencer itself failed.
    Core(C),
    /// What the sequencer holds cannot be used.
    Decode(String),
}

/// The source reports that failure for the sequencer's: that of the sequencer itself
/// as it is, and that of the application as a decode error with its message.
pub open spec fn reports<C>(error: SourceError<C>, err: SequencerError<C>) -> bool {
    match (err, error) {
        (SequencerError::Core(err), SourceError::Core(error)) => error == err,
        (SequencerError::Application(err), SourceError::Decode(text)) => text@
            == crate::chain::error_text(err),
        _ => false,
    }
}

/// The failure that a source reports for a sequencer's.
pub fn to_core<C>(err: SequencerError<C>) -> (error: SourceError<C>)
    ensures
        reports(error, err),
{
    match err {
        SequencerError::Core(err) => SourceError::Core(err),
        SequencerError::Application(err) => SourceError::Decode(err.to_text()),
    }
}

/// What a source hands on of the outcome of a query.
pub fn query_result<T, C>(outcome: Result<T, SequencerError<C>>) -> (result: Result<
    T,
    SourceError<C>,
>)
    ensures
        match outcome {
            Ok(value) => result == Ok::<T, SourceError<C>>(value),
            Err(err) => result is Err && reports(result->Err_0, err),
        },
{
    match outcome {
        Ok(value) => Ok(value),
        Err(err) => Err(to_core(err)),
    }
}

impl<S> SequencerSource<S> {
    /// Creates a source that serves payloads from the sequencer's archive.
    pub fn new(sequencer: S) -> (source: Self)
        ensures
            source.sequencer == sequencer,
            source.serve_payloads,
    {
        SequencerSource { sequencer, serve_payloads: true }
    }

    /// Creates a source that withholds payloads, so that replicas read them from
    /// the data-availability layer.
    pub fn cursors_only(sequencer: S) -> (source: Self)
        ensures
            source.sequencer == sequencer,
            !source.serve_payloads,
    {
        SequencerSource { sequencer, serve_payloads: false }
    }

    /// The payload query that the source makes for a batch: none where it withholds
    /// payloads.
    pub fn payload_query(&self, sequence: u64) -> (query: Option<u64>)
        ensures
            query == (if self.serve_payloads {
                Some(sequence)
            } else {
                None
            }),
    {
        if !self.serve_payloads {
            return None;
        }
        Some(sequence)
    }

    /// The payload of a batch. `ask` makes the payload query. A source that
    /// withholds payloads finds nothing, and does not ask.
    pub fn payload<C, F>(&self, sequence: u64, ask: F) -> (payload: Result<
        Option<Vec<u8>>,
        SourceError<C>,
    >) where F: FnOnce(&S, u64) -> Result<Option<Vec<u8>>, SequencerError<C>>
        requires
            call_requires(ask, (&self.sequencer, sequence)),
        ensures
            !self.serve_payloads ==> payload == Ok::<Option<Vec<u8>>, SourceError<C>>(None),
            self.serve_payloads ==> exists|outcome: Result<Option<Vec<u8>>, SequencerError<C>>|
                {
                    &&& #[trigger] call_ensures(ask, (&self.sequencer, sequence), outcome)
                    &&& match outcome {
                        Ok(found) => payload == Ok::<Option<Vec<u8>>, SourceError<C>>(found),
                        Err(err) => payload is Err && reports(payload->Err_0, err),
                    }
                },
    {
        match self.payload_query(sequence) {
            None => Ok(None),
            Some(sequence) => {
                let outcome = ask(&self.sequencer, sequence);
                let ghost answer = outcome;
                assert(call_ensures(ask, (&self.sequencer, sequence), answer));
                query_result(outcome)
            },
        }
    }
}

} // verus!
