//! The watcher of one container: what it asks of the runtime, and how it
//! reacts to what comes back.
//!
//! A watcher does no input or output itself. Its driver performs each
//! action the watcher returns and reports the outcome as the next event.

use crate::enrichment::{Enricher, EnrichmentStack};
use crate::error::Error;
use crate::model::{RawSample, RawSampleView, Record, RecordView};
use crate::runtime::{ContainerQuery, ContainerQueryView};
use crate::text::{strip_leading_slashes, trim_leading};
use vstd::prelude::*;
use vstd::string::*;

verus! {

/// Where a watcher stands.
#[derive(Debug, Clone, Copy, PartialEq, Eq, Structural)]
pub enum WatcherPhase {
    /// Waiting to learn whether the container is running.
    CheckingLiveness,
    /// Attached to the statistics stream of the container.
    Streaming,
    /// The container is gone and the watcher has asked to be deregistered.
    Finished,
    /// The liveness check failed; the watcher has ended with an error.
    Failed,
}

/// What the driver has to do next.
#[derive(Debug)]
pub enum WatcherAction {
    /// List the containers matching the query and report how many there are.
    CheckLiveness(ContainerQuery),
    /// Open the live statistics stream of the named container.
    OpenStream(String),
    /// Send the record on the output channel, then wait for the next sample.
    Forward(Record),
    /// Remove the name from the registry and end the task.
    Deregister(String),
    /// End the task with this error; the registration is left in place.
    Fail(Error),
    /// The event does not apply in the current phase: nothing to do.
    Ignore,
}

/// `WatcherAction` with its texts as sequences of characters.
pub enum WatcherActionView {
    CheckLiveness(ContainerQueryView),
    OpenStream(Seq<char>),
    Forward(RecordView),
    Deregister(Seq<char>),
    Fail(Seq<char>),
    Ignore,
}

impl View for WatcherAction {
    type V = WatcherActionView;

    open spec fn view(&self) -> WatcherActionView {
        match self {
            WatcherAction::CheckLiveness(query) => WatcherActionView::CheckLiveness(query@),
            WatcherAction::OpenStream(name) => WatcherActionView::OpenStream(name@),
            WatcherAction::Forward(record) => WatcherActionView::Forward(record@),
            WatcherAction::Deregister(name) => WatcherActionView::Deregister(name@),
            WatcherAction::Fail(error) => WatcherActionView::Fail(error.text()),
            WatcherAction::Ignore => WatcherActionView::Ignore,
        }
    }
}

/// The outcome of handing a record to the output channel.
#[derive(Debug, Clone, Copy, PartialEq, Eq, Structural)]
pub enum SendOutcome {
    /// The record is in the channel.
    Delivered,
    /// The channel is open and has no room.
    Full,
    /// The consumer is gone.
    Closed,
}

/// What a watcher does about the outcome of a send.
#[derive(Debug, Clone, Copy, PartialEq, Eq, Structural)]
pub enum SendDecision {
    /// Go on with the next sample.
    Proceed,
    /// Hold the record and wait until the channel has room or closes.
    Wait,
    /// Drop the record, note the loss, and go on with the next sample.
    Drop,
}

/// The outcome of a liveness listing as the watcher reads it: the number of
/// running containers that matched, or the runtime's description of why the
/// listing failed.
pub open spec fn listing_view(listing: Result<usize, String>) -> Result<usize, Seq<char>> {
    match listing {
        Ok(count) => Ok(count),
        Err(message) => Err(message@),
    }
}

/// The watcher of one container.
pub struct ContainerWatcher {
    name: String,
    enrichers: EnrichmentStack,
    phase: WatcherPhase,
}

/// The state of a watcher.
pub struct ContainerWatcherView {
    /// The container it watches, as named when the watch was started.
    pub name: Seq<char>,
    /// What each stage of its enrichment chain remembers.
    pub enrichers: Seq<Option<u64>>,
    pub phase: WatcherPhase,
}

impl View for ContainerWatcher {
    type V = ContainerWatcherView;

    closed spec fn view(&self) -> ContainerWatcherView {
        ContainerWatcherView { name: self.name@, enrichers: self.enrichers@, phase: self.phase }
    }
}

impl ContainerWatcherView {
    /// A watcher that has not yet asked anything.
    pub open spec fn fresh(name: Seq<char>, enrichers: Seq<Option<u64>>) -> ContainerWatcherView {
        ContainerWatcherView { name, enrichers, phase: WatcherPhase::CheckingLiveness }
    }

    /// The name without its leading slashes: what the statistics stream is
    /// opened for.
    pub open spec fn stream_target(self) -> Seq<char> {
        trim_leading(self.name, '/')
    }

    /// The liveness query: running containers named as the watcher's
    /// container, with or without leading slashes.
    pub open spec fn liveness_query(self) -> ContainerQueryView {
        ContainerQueryView { name: seq![self.name, self.stream_target()], status: seq!["running"@] }
    }

    /// The watcher has ended: no event moves it any more.
    pub open spec fn terminal(self) -> bool {
        self.phase == WatcherPhase::Finished || self.phase == WatcherPhase::Failed
    }

    /// Reaction to the outcome of a liveness listing.
    ///
    /// At least one match: the chain is reset and the stream is opened. No
    /// match: the watcher asks to be deregistered and ends. A failed
    /// listing ends the watcher with an error.
    pub open spec fn after_liveness(self, listing: Result<usize, Seq<char>>) -> (
        ContainerWatcherView,
        WatcherActionView,
    ) {
        if self.phase != WatcherPhase::CheckingLiveness {
            (self, WatcherActionView::Ignore)
        } else {
            match listing {
                Ok(count) => if count > 0 {
                    (
                        ContainerWatcherView {
                            phase: WatcherPhase::Streaming,
                            enrichers: EnrichmentStack::cleared(self.enrichers),
                            ..self
                        },
                        WatcherActionView::OpenStream(self.stream_target()),
                    )
                } else {
                    (
                        ContainerWatcherView { phase: WatcherPhase::Finished, ..self },
                        WatcherActionView::Deregister(self.name),
                    )
                },
                Err(message) => (
                    ContainerWatcherView { phase: WatcherPhase::Failed, ..self },
                    WatcherActionView::Fail("couldn't list containers: "@ + message),
                ),
            }
        }
    }

    /// A sample the watcher can take: while streaming, its counters must not
    /// have gone backwards, and neither must the energy counter.
    pub open spec fn admits(self, sample: RawSampleView, reading: Option<u64>) -> bool {
        self.phase == WatcherPhase::Streaming ==> sample.counters_advance()
            && EnrichmentStack::accepts(self.enrichers, reading)
    }

    /// Reaction to a sample of the stream: the enriched record is forwarded.
    pub open spec fn after_sample(self, sample: RawSampleView, reading: Option<u64>) -> (
        ContainerWatcherView,
        WatcherActionView,
    ) {
        if self.phase != WatcherPhase::Streaming {
            (self, WatcherActionView::Ignore)
        } else {
            (
                ContainerWatcherView {
                    enrichers: EnrichmentStack::advanced(self.enrichers, reading),
                    ..self
                },
                WatcherActionView::Forward(
                    EnrichmentStack::enriched(self.enrichers, sample.record(), reading),
                ),
            )
        }
    }

    /// Reaction to the end of the stream, whether it closed or broke: the
    /// watcher checks again whether the container is running.
    pub open spec fn after_stream_end(self) -> (ContainerWatcherView, WatcherActionView) {
        if self.phase != WatcherPhase::Streaming {
            (self, WatcherActionView::Ignore)
        } else {
            (
                ContainerWatcherView { phase: WatcherPhase::CheckingLiveness, ..self },
                WatcherActionView::CheckLiveness(self.liveness_query()),
            )
        }
    }
}

impl ContainerWatcherView {
    /// The watcher after a run of samples, each with its energy reading.
    pub open spec fn after_samples(self, samples: Seq<(RawSampleView, Option<u64>)>) -> ContainerWatcherView
        decreases samples.len(),
    {
        if samples.len() == 0 {
            self
        } else {
            self.after_samples(samples.drop_last()).after_sample(
                samples.last().0,
                samples.last().1,
            ).0
        }
    }

    /// The actions a run of samples leads to, in order.
    pub open spec fn answers_to(self, samples: Seq<(RawSampleView, Option<u64>)>) -> Seq<
        WatcherActionView,
    >
        decreases samples.len(),
    {
        if samples.len() == 0 {
            Seq::<WatcherActionView>::empty()
        } else {
            self.answers_to(samples.drop_last()).push(
                self.after_samples(samples.drop_last()).after_sample(
                    samples.last().0,
                    samples.last().1,
                ).1,
            )
        }
    }
}

/// What to do about the outcome of a send: a full channel holds the watcher
/// back, a closed one costs the record and nothing more.
pub open spec fn send_decision(outcome: SendOutcome) -> SendDecision {
    match outcome {
        SendOutcome::Delivered => SendDecision::Proceed,
        SendOutcome::Full => SendDecision::Wait,
        SendOutcome::Closed => SendDecision::Drop,
    }
}

impl ContainerWatcher {
    /// A watcher for the container `name`, about to check its liveness.
    pub fn new(name: String, enrichers: EnrichmentStack) -> (watcher: ContainerWatcher)
        ensures
            watcher@ == ContainerWatcherView::fresh(name@, enrichers@),
    {
        ContainerWatcher { name, enrichers, phase: WatcherPhase::CheckingLiveness }
    }

    /// The container this watcher is for.
    pub fn name(&self) -> (name: &str)
        ensures
            name@ == self@.name,
    {
        self.name.as_str()
    }

    /// Where the watcher stands.
    pub fn phase(&self) -> (phase: WatcherPhase)
        ensures
            phase == self@.phase,
    {
        self.phase
    }

    /// The query of the liveness check.
    pub fn liveness_query(&self) -> (query: ContainerQuery)
        ensures
            query@ == self@.liveness_query(),
    {
        let mut name: Vec<String> = Vec::new();
        name.push(self.name.clone());
        name.push(String::from_str(strip_leading_slashes(self.name.as_str())));
        let mut status: Vec<String> = Vec::new();
        status.push(String::from_str("running"));
        let query = ContainerQuery { name, status };
        proof {
            assert(query@.name =~= seq![self@.name, self@.stream_target()]);
            assert(query@.status =~= seq!["running"@]);
        }
        query
    }

    /// The first action of a watcher: the liveness check.
    pub fn begin(&self) -> (action: WatcherAction)
        ensures
            action@ == WatcherActionView::CheckLiveness(self@.liveness_query()),
    {
        WatcherAction::CheckLiveness(self.liveness_query())
    }

    /// Reads the outcome of a liveness listing: the container is alive when
    /// at least one running container matched; a failed listing is an error
    /// that says so.
    pub fn is_alive(listing: Result<usize, String>) -> (alive: Result<bool, Error>)
        ensures
            match listing {
                Ok(count) => alive == Ok::<bool, Error>(count > 0),
                Err(message) => alive is Err && alive->Err_0 is Custom && alive->Err_0.text()
                    == "couldn't list containers: "@ + message@,
            },
    {
        match listing {
            Ok(count) => Ok(count > 0),
            Err(message) => Err(Error::described("couldn't list containers: ", message.as_str())),
        }
    }

    /// Takes the outcome of the liveness check.
    pub fn on_liveness(&mut self, listing: Result<usize, String>) -> (action: WatcherAction)
        ensures
            (final(self)@, action@) == old(self)@.after_liveness(listing_view(listing)),
            action matches WatcherAction::Fail(error) ==> error is Custom,
    {
        match self.phase {
            WatcherPhase::CheckingLiveness => {},
            _ => {
                return WatcherAction::Ignore;
            },
        }
        match Self::is_alive(listing) {
            Ok(true) => {
                self.enrichers.reset();
                self.phase = WatcherPhase::Streaming;
                WatcherAction::OpenStream(
                    String::from_str(strip_leading_slashes(self.name.as_str())),
                )
            },
            Ok(false) => {
                self.phase = WatcherPhase::Finished;
                WatcherAction::Deregister(self.name.clone())
            },
            Err(error) => {
                self.phase = WatcherPhase::Failed;
                WatcherAction::Fail(error)
            },
        }
    }

    /// Whether the watcher can take this sample with this energy reading.
    pub fn admits(&self, sample: &RawSample, reading: Option<u64>) -> (ok: bool)
        ensures
            ok == self@.admits(sample@, reading),
    {
        match self.phase {
            WatcherPhase::Streaming => sample.counters_advance() && self.enrichers.admits(reading),
            _ => true,
        }
    }

    /// Takes a sample of the stream, with the reading of the energy counter
    /// taken for it (`None` where there is no counter or it could not be
    /// read), and returns the record to forward.
    pub fn on_sample(&mut self, sample: RawSample, reading: Option<u64>) -> (action: WatcherAction)
        requires
            old(self)@.admits(sample@, reading),
        ensures
            (final(self)@, action@) == old(self)@.after_sample(sample@, reading),
    {
        match self.phase {
            WatcherPhase::Streaming => {},
            _ => {
                return WatcherAction::Ignore;
            },
        }
        let record = Record::from(sample);
        let record = self.enrichers.enrich(record, reading);
        WatcherAction::Forward(record)
    }

    /// Takes the end of the stream.
    pub fn on_stream_end(&mut self) -> (action: WatcherAction)
        ensures
            (final(self)@, action@) == old(self)@.after_stream_end(),
    {
        match self.phase {
            WatcherPhase::Streaming => {},
            _ => {
                return WatcherAction::Ignore;
            },
        }
        self.phase = WatcherPhase::CheckingLiveness;
        WatcherAction::CheckLiveness(self.liveness_query())
    }

    /// Takes the outcome of a send. The watcher itself goes on unchanged
    /// whatever happened to the record.
    pub fn on_send(&self, outcome: SendOutcome) -> (decision: SendDecision)
        ensures
            decision == send_decision(outcome),
    {
        match outcome {
            SendOutcome::Delivered => SendDecision::Proceed,
            SendOutcome::Full => SendDecision::Wait,
            SendOutcome::Closed => SendDecision::Drop,
        }
    }
}

/// A stream that ends while the container is still running is opened
/// again: the watcher checks liveness, and on a match goes back to
/// streaming without asking to be deregistered.
pub proof fn lemma_reattach_while_running(watcher: ContainerWatcherView, matches: usize)
    requires
        watcher.phase == WatcherPhase::Streaming,
        matches > 0,
    ensures
        watcher.after_stream_end().1 == WatcherActionView::CheckLiveness(watcher.liveness_query()),
        watcher.after_stream_end().0.after_liveness(Ok(matches)).1 == WatcherActionView::OpenStream(
            watcher.stream_target(),
        ),
        watcher.after_stream_end().0.after_liveness(Ok(matches)).0.phase == WatcherPhase::Streaming,
        watcher.after_stream_end().0.after_liveness(Ok(matches)).0.name == watcher.name,
{
}

/// The first sample of every attachment is forwarded without an energy
/// value: whatever the chain remembered when the stream was opened, the
/// record of the first sample is the plain record of that sample.
pub proof fn lemma_first_sample_of_attachment_is_plain(
    watcher: ContainerWatcherView,
    matches: usize,
    sample: RawSampleView,
    reading: Option<u64>,
)
    requires
        watcher.phase == WatcherPhase::CheckingLiveness,
        matches > 0,
    ensures
        watcher.after_liveness(Ok(matches)).0.after_sample(sample, reading).1
            == WatcherActionView::Forward(sample.record()),
        sample.counters_advance() ==> watcher.after_liveness(Ok(matches)).0.admits(sample, reading),
{
    crate::enrichment::lemma_first_record_after_reset_unchanged(
        watcher.enrichers,
        sample.record(),
        reading,
    );
}

/// While a watcher is streaming, every sample is answered by exactly one
/// record, in the order of the samples, and each record is the record of
/// its own sample up to the energy value: nothing is reordered, repeated
/// or mixed between samples.
pub proof fn lemma_records_follow_samples(
    watcher: ContainerWatcherView,
    samples: Seq<(RawSampleView, Option<u64>)>,
)
    requires
        watcher.phase == WatcherPhase::Streaming,
    ensures
        watcher.after_samples(samples).phase == WatcherPhase::Streaming,
        watcher.after_samples(samples).name == watcher.name,
        watcher.answers_to(samples).len() == samples.len(),
        forall|i: int|
            0 <= i < samples.len() ==> {
                &&& (#[trigger] watcher.answers_to(samples)[i]) matches WatcherActionView::Forward(
                    record,
                )
                &&& record == (RecordView {
                    energy_delta: record.energy_delta,
                    ..samples[i].0.record()
                })
            },
    decreases samples.len(),
{
    if samples.len() > 0 {
        let shorter = samples.drop_last();
        let before = watcher.after_samples(shorter);
        lemma_records_follow_samples(watcher, shorter);
        crate::enrichment::lemma_enrichment_touches_energy_only(
            before.enrichers,
            samples.last().0.record(),
            samples.last().1,
        );
        assert forall|i: int| 0 <= i < samples.len() implies {
            &&& (#[trigger] watcher.answers_to(samples)[i]) matches WatcherActionView::Forward(
                record,
            )
            &&& record == (RecordView {
                energy_delta: record.energy_delta,
                ..samples[i].0.record()
            })
        } by {
            if i < shorter.len() {
                assert(watcher.answers_to(samples)[i] == watcher.answers_to(shorter)[i]);
                assert(samples[i] == shorter[i]);
            }
        }
    }
}

/// A watcher that has ended stays as it is: every event is ignored.
pub proof fn lemma_terminal_is_final(
    watcher: ContainerWatcherView,
    listing: Result<usize, Seq<char>>,
    sample: RawSampleView,
    reading: Option<u64>,
)
    requires
        watcher.terminal(),
    ensures
        watcher.after_liveness(listing) == (watcher, WatcherActionView::Ignore),
        watcher.after_sample(sample, reading) == (watcher, WatcherActionView::Ignore),
        watcher.after_stream_end() == (watcher, WatcherActionView::Ignore),
{
}

} // verus!
