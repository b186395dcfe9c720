//! Energy attribution from a cumulative energy counter.

use crate::enrichment::Enricher;
use crate::model::{Record, RecordView};
use vstd::prelude::*;

verus! {

/// Attaches to each record the energy the system drew since the previous
/// record of the same stream.
///
/// The counter itself is read by the caller, once per sample, and handed in
/// as `reading`; `None` stands for a reading that failed.
#[derive(Debug, Clone, Copy)]
pub struct PowerCapEnricher {
    last: Option<u64>,
}

impl View for PowerCapEnricher {
    type V = Option<u64>;

    /// The previous reading, if the stream has one.
    closed spec fn view(&self) -> Option<u64> {
        self.last
    }
}

impl PowerCapEnricher {
    /// A stage with no previous reading.
    pub fn new() -> (stage: Self)
        ensures
            stage@ == None::<u64>,
    {
        PowerCapEnricher { last: None }
    }

    /// The counter never runs backwards: a reading that follows another is
    /// at least as large.
    pub open spec fn follows(last: Option<u64>, reading: Option<u64>) -> bool {
        match (last, reading) {
            (Some(before), Some(now)) => before <= now,
            _ => true,
        }
    }

    /// Energy drawn between two readings; `None` unless both exist.
    pub open spec fn delta(last: Option<u64>, reading: Option<u64>) -> Option<u64> {
        match (last, reading) {
            (Some(before), Some(now)) => Some((now - before) as u64),
            _ => None,
        }
    }

    /// Whether `reading` may follow the reading this stage remembers.
    pub fn admits(&self, reading: Option<u64>) -> (ok: bool)
        ensures
            ok == Self::follows(self@, reading),
    {
        match (self.last, reading) {
            (Some(before), Some(now)) => before <= now,
            _ => true,
        }
    }
}

impl Enricher for PowerCapEnricher {
    open spec fn accepts(state: Option<u64>, reading: Option<u64>) -> bool {
        Self::follows(state, reading)
    }

    open spec fn enriched(state: Option<u64>, record: RecordView, reading: Option<u64>) -> RecordView {
        record.with_energy(Self::delta(state, reading))
    }

    open spec fn advanced(state: Option<u64>, reading: Option<u64>) -> Option<u64> {
        reading
    }

    open spec fn cleared(state: Option<u64>) -> Option<u64> {
        None
    }

    fn enrich(&mut self, record: Record, reading: Option<u64>) -> (out: Record) {
        let result = match (self.last, reading) {
            (Some(last), Some(now)) => record.with_energy(Some(now - last)),
            _ => record,
        };
        self.last = reading;
        result
    }

    fn reset(&mut self) {
        self.last = None;
    }
}

} // verus!
