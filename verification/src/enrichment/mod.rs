//! Enrichment: derived values attached to a record from state that runs
//! along one stream of samples.

pub mod powercap;

use crate::config::Params;
use crate::enrichment::powercap::PowerCapEnricher;
use crate::model::{Record, RecordView};
use vstd::prelude::*;

verus! {

/// A transform of records with memory of the stream it has seen.
///
/// The view of a stage is what it remembers. `reading` is the value of the
/// cumulative energy counter taken for the sample at hand, `None` if it
/// could not be read.
pub trait Enricher: View + Sized {
    /// Readings the stage can take in the given state.
    spec fn accepts(state: Self::V, reading: Option<u64>) -> bool;

    /// The record that `enrich` returns.
    spec fn enriched(state: Self::V, record: RecordView, reading: Option<u64>) -> RecordView;

    /// What the stage remembers after `enrich`.
    spec fn advanced(state: Self::V, reading: Option<u64>) -> Self::V;

    /// What the stage remembers after `reset`.
    spec fn cleared(state: Self::V) -> Self::V;

    /// Attaches the derived values to `record` and remembers `reading`.
    fn enrich(&mut self, record: Record, reading: Option<u64>) -> (out: Record)
        requires
            Self::accepts(old(self)@, reading),
        ensures
            out@ == Self::enriched(old(self)@, record@, reading),
            final(self)@ == Self::advanced(old(self)@, reading),
    ;

    /// Forgets the stream seen so far.
    fn reset(&mut self)
        ensures
            final(self)@ == Self::cleared(old(self)@),
    ;
}

/// An ordered chain of stages: each record passes through all of them, the
/// first stage first.
pub struct EnrichmentStack(pub Vec<PowerCapEnricher>);

impl View for EnrichmentStack {
    type V = Seq<Option<u64>>;

    /// What each stage remembers, in the order of the chain.
    open spec fn view(&self) -> Seq<Option<u64>> {
        Seq::new(self.0@.len(), |i: int| self.0@[i]@)
    }
}

impl Enricher for EnrichmentStack {
    open spec fn accepts(state: Seq<Option<u64>>, reading: Option<u64>) -> bool {
        forall|i: int| 0 <= i < state.len() ==> PowerCapEnricher::accepts(#[trigger] state[i], reading)
    }

    open spec fn enriched(state: Seq<Option<u64>>, record: RecordView, reading: Option<u64>) -> RecordView
        decreases state.len(),
    {
        if state.len() == 0 {
            record
        } else {
            PowerCapEnricher::enriched(
                state.last(),
                Self::enriched(state.drop_last(), record, reading),
                reading,
            )
        }
    }

    open spec fn advanced(state: Seq<Option<u64>>, reading: Option<u64>) -> Seq<Option<u64>> {
        Seq::new(state.len(), |i: int| PowerCapEnricher::advanced(state[i], reading))
    }

    open spec fn cleared(state: Seq<Option<u64>>) -> Seq<Option<u64>> {
        Seq::new(state.len(), |i: int| PowerCapEnricher::cleared(state[i]))
    }

    fn enrich(&mut self, record: Record, reading: Option<u64>) -> (out: Record) {
        let ghost before = self@;
        let ghost input = record@;
        let n: usize = self.0.len();
        let mut current = record;
        let mut i: usize = 0;
        proof {
            assert(before.take(0) =~= Seq::<Option<u64>>::empty());
        }
        while i < n
            invariant
                i <= n,
                n == self.0@.len(),
                before.len() == n,
                Self::accepts(before, reading),
                current@ == Self::enriched(before.take(i as int), input, reading),
                forall|j: int| 0 <= j < i ==> (#[trigger] self.0@[j])@ == reading,
                forall|j: int| i <= j < n ==> (#[trigger] self.0@[j])@ == before[j],
            decreases n - i,
        {
            let mut stage: PowerCapEnricher = self.0[i];
            proof {
                assert(stage@ == before[i as int]);
                assert(before.take(i as int + 1).drop_last() =~= before.take(i as int));
                assert(before.take(i as int + 1).last() == before[i as int]);
            }
            current = stage.enrich(current, reading);
            self.0.set(i, stage);
            i = i + 1;
        }
        proof {
            assert(before.take(n as int) =~= before);
            assert(self@ =~= Self::advanced(before, reading));
        }
        current
    }

    fn reset(&mut self) {
        let ghost before = self@;
        let n: usize = self.0.len();
        let mut i: usize = 0;
        while i < n
            invariant
                i <= n,
                n == self.0@.len(),
                before.len() == n,
                forall|j: int| 0 <= j < i ==> (#[trigger] self.0@[j])@ == None::<u64>,
            decreases n - i,
        {
            let mut stage: PowerCapEnricher = self.0[i];
            stage.reset();
            self.0.set(i, stage);
            i = i + 1;
        }
        proof {
            assert(self@ =~= Self::cleared(before));
        }
    }
}

/// Makes the chain of stages for each new watcher.
#[derive(Debug, Clone, Copy)]
pub struct EnrichmentBuilder {
    powercap: bool,
}

impl EnrichmentBuilder {
    /// Whether the chains built hold the energy stage.
    pub closed spec fn powercap(&self) -> bool {
        self.powercap
    }

    /// What a chain built by this builder remembers at first: one stage
    /// without a previous reading where the energy stage is configured, no
    /// stage otherwise.
    pub open spec fn fresh(&self) -> Seq<Option<u64>> {
        if self.powercap() {
            seq![None::<u64>]
        } else {
            Seq::<Option<u64>>::empty()
        }
    }

    /// A fresh chain, with nothing remembered.
    pub fn build(&self) -> (stack: EnrichmentStack)
        ensures
            stack@ == self.fresh(),
    {
        let mut result: Vec<PowerCapEnricher> = Vec::new();
        if self.powercap {
            result.push(PowerCapEnricher::new());
        }
        let stack = EnrichmentStack(result);
        proof {
            assert(stack@ =~= self.fresh());
        }
        stack
    }
}

impl Params {
    /// Whether the host is to be probed for an energy counter: it is not
    /// where the energy stage was disabled.
    pub fn wants_powercap(&self) -> (wanted: bool)
        ensures
            wanted == !self.disable_powercap,
    {
        !self.disable_powercap
    }

    /// Whether the energy stage is to be used: it is unless it was disabled
    /// or the host has no energy counter. `counter_found` tells whether
    /// probing the host found one.
    pub fn create_powercap(&self, counter_found: bool) -> (used: bool)
        ensures
            used == (!self.disable_powercap && counter_found),
    {
        self.wants_powercap() && counter_found
    }

    /// The builder for the chains of this run.
    pub fn enrichment_builder(&self, counter_found: bool) -> (builder: EnrichmentBuilder)
        ensures
            builder.powercap() == (!self.disable_powercap && counter_found),
    {
        EnrichmentBuilder { powercap: self.create_powercap(counter_found) }
    }
}

impl EnrichmentStack {
    /// Whether every stage can take `reading`.
    pub fn admits(&self, reading: Option<u64>) -> (ok: bool)
        ensures
            ok == Self::accepts(self@, reading),
    {
        let n: usize = self.0.len();
        let mut i: usize = 0;
        while i < n
            invariant
                i <= n,
                n == self.0@.len(),
                forall|j: int| 0 <= j < i ==> PowerCapEnricher::accepts(#[trigger] self@[j], reading),
            decreases n - i,
        {
            if !self.0[i].admits(reading) {
                proof {
                    assert(!PowerCapEnricher::accepts(self@[i as int], reading));
                }
                return false;
            }
            i = i + 1;
        }
        true
    }
}

/// Where a chain has just been reset, the next record leaves it exactly as
/// it entered: in particular the first record after a reset never gains an
/// energy value, whatever the chain remembered before the reset and whatever
/// the counter reads.
pub proof fn lemma_first_record_after_reset_unchanged(
    state: Seq<Option<u64>>,
    record: RecordView,
    reading: Option<u64>,
)
    ensures
        EnrichmentStack::accepts(EnrichmentStack::cleared(state), reading),
        EnrichmentStack::enriched(EnrichmentStack::cleared(state), record, reading) == record,
        record.energy_delta is None ==> EnrichmentStack::enriched(
            EnrichmentStack::cleared(state),
            record,
            reading,
        ).energy_delta is None,
    decreases state.len(),
{
    let cleared = EnrichmentStack::cleared(state);
    if state.len() > 0 {
        lemma_first_record_after_reset_unchanged(state.drop_last(), record, reading);
        assert(cleared.drop_last() =~= EnrichmentStack::cleared(state.drop_last()));
    }
}

/// Enrichment touches the energy of a record and nothing else.
pub proof fn lemma_enrichment_touches_energy_only(
    state: Seq<Option<u64>>,
    record: RecordView,
    reading: Option<u64>,
)
    ensures
        EnrichmentStack::enriched(state, record, reading) == (RecordView {
            energy_delta: EnrichmentStack::enriched(state, record, reading).energy_delta,
            ..record
        }),
    decreases state.len(),
{
    if state.len() > 0 {
        lemma_enrichment_touches_energy_only(state.drop_last(), record, reading);
    }
}

/// The same for a single stage: after `reset`, `enrich` attaches nothing,
/// and from then on the stage remembers the reading it was given.
pub proof fn lemma_stage_after_reset(state: Option<u64>, record: RecordView, reading: Option<u64>)
    ensures
        PowerCapEnricher::accepts(PowerCapEnricher::cleared(state), reading),
        PowerCapEnricher::enriched(PowerCapEnricher::cleared(state), record, reading) == record,
        PowerCapEnricher::advanced(PowerCapEnricher::cleared(state), reading) == reading,
{
}

/// With two readings in a row, the second record carries the difference of
/// the two as the energy of the interval.
pub proof fn lemma_stage_attaches_difference(before: u64, now: u64, record: RecordView)
    requires
        before <= now,
    ensures
        PowerCapEnricher::enriched(
            PowerCapEnricher::advanced(None, Some(before)),
            record,
            Some(now),
        ).energy_delta == Some((now - before) as u64),
{
}

} // verus!
