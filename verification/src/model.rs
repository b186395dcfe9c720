//! Raw samples as the runtime reports them, and the records made of them.

use crate::text::{strip_leading_slashes, trim_leading};
use vstd::prelude::*;
use vstd::string::*;

verus! {

/// One statistics sample of one container, as plain values.
///
/// The cumulative counters come in pairs: the value at this reading and the
/// value at the reading before it on the same stream.
pub struct RawSample {
    /// Identifier the runtime gave the container.
    pub id: String,
    /// Name of the container, possibly with leading slashes.
    pub name: String,
    /// Instant of the reading, in seconds since the epoch.
    pub read: i64,
    pub pid_count: Option<u64>,
    pub pid_limit: Option<u64>,
    pub memory_usage: Option<u64>,
    pub memory_limit: Option<u64>,
    /// CPU time the container has used, at this reading.
    pub cpu_usage: u64,
    /// CPU time the container had used at the previous reading.
    pub pre_cpu_usage: u64,
    /// CPU time of the whole system, at this reading.
    pub system_cpu_usage: Option<u64>,
    /// CPU time of the whole system at the previous reading.
    pub pre_system_cpu_usage: Option<u64>,
    /// Number of CPUs online, where reported.
    pub online_cpus: Option<u64>,
    /// Number of per-CPU counters in the sample, where reported.
    pub per_cpu_samples: Option<u64>,
}

/// `RawSample` with its texts as sequences of characters.
pub struct RawSampleView {
    pub id: Seq<char>,
    pub name: Seq<char>,
    pub read: i64,
    pub pid_count: Option<u64>,
    pub pid_limit: Option<u64>,
    pub memory_usage: Option<u64>,
    pub memory_limit: Option<u64>,
    pub cpu_usage: u64,
    pub pre_cpu_usage: u64,
    pub system_cpu_usage: Option<u64>,
    pub pre_system_cpu_usage: Option<u64>,
    pub online_cpus: Option<u64>,
    pub per_cpu_samples: Option<u64>,
}

impl View for RawSample {
    type V = RawSampleView;

    open spec fn view(&self) -> RawSampleView {
        RawSampleView {
            id: self.id@,
            name: self.name@,
            read: self.read,
            pid_count: self.pid_count,
            pid_limit: self.pid_limit,
            memory_usage: self.memory_usage,
            memory_limit: self.memory_limit,
            cpu_usage: self.cpu_usage,
            pre_cpu_usage: self.pre_cpu_usage,
            system_cpu_usage: self.system_cpu_usage,
            pre_system_cpu_usage: self.pre_system_cpu_usage,
            online_cpus: self.online_cpus,
            per_cpu_samples: self.per_cpu_samples,
        }
    }
}

/// A counter that was not reported counts as zero.
pub open spec fn or_zero(counter: Option<u64>) -> u64 {
    match counter {
        Some(value) => value,
        None => 0,
    }
}

impl RawSampleView {
    /// Neither cumulative counter is smaller than at the previous reading.
    pub open spec fn counters_advance(self) -> bool {
        &&& self.pre_cpu_usage <= self.cpu_usage
        &&& or_zero(self.pre_system_cpu_usage) <= or_zero(self.system_cpu_usage)
    }

    /// CPU time the container used between the two readings.
    pub open spec fn cpu_delta(self) -> int {
        self.cpu_usage - self.pre_cpu_usage
    }

    /// CPU time the whole system used between the two readings.
    pub open spec fn system_delta(self) -> int {
        or_zero(self.system_cpu_usage) - or_zero(self.pre_system_cpu_usage)
    }

    /// Number of CPUs the percentage is normalised against: 1 if unreported.
    pub open spec fn cpu_count(self) -> u64 {
        match self.online_cpus {
            Some(count) => count,
            None => 1,
        }
    }

    /// Factor of the percentage: the number of per-CPU counters where
    /// reported, the CPU count otherwise.
    pub open spec fn cpu_factor(self) -> u64 {
        match self.per_cpu_samples {
            Some(count) => count,
            None => self.cpu_count(),
        }
    }

    /// The record this sample gives, before any enrichment.
    pub open spec fn record(self) -> RecordView
        recommends
            self.counters_advance(),
    {
        RecordView {
            container_id: self.id,
            container_name: trim_leading(self.name, '/'),
            ts: self.read,
            pid_count: self.pid_count,
            pid_limit: self.pid_limit,
            memory_usage: self.memory_usage,
            memory_limit: self.memory_limit,
            cpu_delta: self.cpu_delta() as u64,
            system_delta: self.system_delta() as u64,
            cpu_factor: self.cpu_factor(),
            cpu_count: self.cpu_count(),
            energy_delta: None,
        }
    }
}

impl RawSample {
    /// Whether neither cumulative counter went backwards.
    pub fn counters_advance(&self) -> (ok: bool)
        ensures
            ok == self@.counters_advance(),
    {
        let system_now: u64 = match self.system_cpu_usage {
            Some(value) => value,
            None => 0,
        };
        let system_before: u64 = match self.pre_system_cpu_usage {
            Some(value) => value,
            None => 0,
        };
        self.pre_cpu_usage <= self.cpu_usage && system_before <= system_now
    }
}

/// One measurement of one container at one instant.
///
/// The CPU ratio of the interval is `cpu_delta / system_delta`; the CPU
/// percentage is that ratio times `cpu_factor` times 100; the energy
/// attributed to the container is that ratio times `energy_delta`. The
/// record carries the exact integer terms, so that a zero `system_delta`
/// stays visible to whoever evaluates the quotient.
#[derive(Debug, Clone)]
pub struct Record {
    pub container_id: String,
    pub container_name: String,
    /// Instant of the measurement, in seconds since the epoch.
    pub ts: i64,
    pub pid_count: Option<u64>,
    pub pid_limit: Option<u64>,
    pub memory_usage: Option<u64>,
    pub memory_limit: Option<u64>,
    /// CPU time the container used during the interval.
    pub cpu_delta: u64,
    /// CPU time the whole system used during the interval.
    pub system_delta: u64,
    /// Factor that scales the CPU ratio into the percentage.
    pub cpu_factor: u64,
    /// Number of CPUs the percentage is normalised against.
    pub cpu_count: u64,
    /// Energy the whole system drew during the interval, where known.
    pub energy_delta: Option<u64>,
}

/// `Record` with its texts as sequences of characters.
pub struct RecordView {
    pub container_id: Seq<char>,
    pub container_name: Seq<char>,
    pub ts: i64,
    pub pid_count: Option<u64>,
    pub pid_limit: Option<u64>,
    pub memory_usage: Option<u64>,
    pub memory_limit: Option<u64>,
    pub cpu_delta: u64,
    pub system_delta: u64,
    pub cpu_factor: u64,
    pub cpu_count: u64,
    pub energy_delta: Option<u64>,
}

impl View for Record {
    type V = RecordView;

    open spec fn view(&self) -> RecordView {
        RecordView {
            container_id: self.container_id@,
            container_name: self.container_name@,
            ts: self.ts,
            pid_count: self.pid_count,
            pid_limit: self.pid_limit,
            memory_usage: self.memory_usage,
            memory_limit: self.memory_limit,
            cpu_delta: self.cpu_delta,
            system_delta: self.system_delta,
            cpu_factor: self.cpu_factor,
            cpu_count: self.cpu_count,
            energy_delta: self.energy_delta,
        }
    }
}

impl RecordView {
    /// The record with the energy of the interval set, where one is given.
    pub open spec fn with_energy(self, total_cpu_energy: Option<u64>) -> RecordView {
        match total_cpu_energy {
            Some(energy) => RecordView { energy_delta: Some(energy), ..self },
            None => self,
        }
    }
}

impl Record {
    /// Turns a raw sample into a record.
    ///
    /// The deltas are exact differences of the cumulative counters of this
    /// one sample; a sample whose counters went backwards is not accepted.
    pub fn from(item: RawSample) -> (record: Record)
        requires
            item@.counters_advance(),
        ensures
            record@ == item@.record(),
    {
        let cpu_delta: u64 = item.cpu_usage - item.pre_cpu_usage;
        let system_now: u64 = match item.system_cpu_usage {
            Some(value) => value,
            None => 0,
        };
        let system_before: u64 = match item.pre_system_cpu_usage {
            Some(value) => value,
            None => 0,
        };
        let system_delta: u64 = system_now - system_before;
        let cpu_count: u64 = match item.online_cpus {
            Some(count) => count,
            None => 1,
        };
        let cpu_factor: u64 = match item.per_cpu_samples {
            Some(count) => count,
            None => cpu_count,
        };
        let container_name = String::from_str(strip_leading_slashes(item.name.as_str()));
        Record {
            container_id: item.id,
            container_name,
            ts: item.read,
            pid_count: item.pid_count,
            pid_limit: item.pid_limit,
            memory_usage: item.memory_usage,
            memory_limit: item.memory_limit,
            cpu_delta,
            system_delta,
            cpu_factor,
            cpu_count,
            energy_delta: None,
        }
    }

    /// Sets the energy of the interval where one is given; otherwise the
    /// record is returned as it came.
    pub fn with_energy(self, total_cpu_energy: Option<u64>) -> (record: Record)
        ensures
            record@ == self@.with_energy(total_cpu_energy),
    {
        let mut record = self;
        if let Some(energy) = total_cpu_energy {
            record.energy_delta = Some(energy);
        }
        record
    }
}

/// Two samples with the same pair of CPU counters, the same pair of system
/// counters and the same CPU counts give the same CPU terms, whatever
/// container, instant or other figures they carry: the terms of a sample
/// depend on its own counters and on nothing else.
pub proof fn lemma_cpu_terms_depend_on_own_counters(a: RawSampleView, b: RawSampleView)
    requires
        a.cpu_usage == b.cpu_usage,
        a.pre_cpu_usage == b.pre_cpu_usage,
        a.system_cpu_usage == b.system_cpu_usage,
        a.pre_system_cpu_usage == b.pre_system_cpu_usage,
        a.online_cpus == b.online_cpus,
        a.per_cpu_samples == b.per_cpu_samples,
    ensures
        a.record().cpu_delta == b.record().cpu_delta,
        a.record().system_delta == b.record().system_delta,
        a.record().cpu_factor == b.record().cpu_factor,
        a.record().cpu_count == b.record().cpu_count,
{
}

/// A sample whose system counter did not move gives a record whose
/// `system_delta` is exactly zero: the degenerate interval is handed on as
/// it is, never replaced by another divisor.
pub proof fn lemma_idle_system_keeps_zero_divisor(sample: RawSampleView)
    requires
        sample.counters_advance(),
        or_zero(sample.system_cpu_usage) == or_zero(sample.pre_system_cpu_usage),
    ensures
        sample.record().system_delta == 0,
        sample.record().cpu_delta == sample.cpu_usage - sample.pre_cpu_usage,
{
}

} // verus!
