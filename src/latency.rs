//! Latency monitor: a moving average and a peak of the per-frame latency,
//! with advisory warnings on large changes.
use vstd::prelude::*;

verus! {

/// Smallest change of the average, in milliseconds, that is worth a warning.
pub const WARN_THRESHOLD_MS: u64 = 10;

/// Largest average the monitor can hold; inputs of 32 bits keep it there.
pub const AVERAGE_BOUND: u64 = 0x2_0000_0000;

/// The average after one frame.
pub open spec fn next_average(average: nat, nominal: nat, measured: nat) -> nat {
    (average + nominal + measured) / 2
}

/// Whether a new average is worth a warning, given the last warned value.
pub open spec fn warns(average: nat, last_warned: nat) -> bool {
    let delta = if average >= last_warned {
        average - last_warned
    } else {
        last_warned - average
    };
    delta >= WARN_THRESHOLD_MS && average != last_warned
}

pub open spec fn max_nat(a: nat, b: nat) -> nat {
    if a >= b {
        a
    } else {
        b
    }
}

/// Monitor state after a run of measurements, from `(average, peak,
/// last_warned)`, and the warnings given on the way.
pub open spec fn monitor_run(
    nominal: nat,
    start: (nat, nat, nat),
    measured: Seq<u32>,
) -> ((nat, nat, nat), Seq<nat>)
    decreases measured.len(),
{
    if measured.len() == 0 {
        (start, Seq::empty())
    } else {
        let (s, w) = monitor_run(nominal, start, measured.drop_last());
        let avg = next_average(s.0, nominal, measured.last() as nat);
        let peak = max_nat(s.1, avg);
        if warns(avg, s.2) {
            ((avg, peak, avg), w.push(avg))
        } else {
            ((avg, peak, s.2), w)
        }
    }
}

/// Tracks the end-to-end latency of frames.
pub struct LatencyMonitor {
    nominal_ms: u32,
    average_ms: u64,
    peak_ms: u64,
    last_warned_ms: u64,
}

impl LatencyMonitor {
    pub closed spec fn spec_nominal(&self) -> nat {
        self.nominal_ms as nat
    }

    pub closed spec fn spec_average(&self) -> nat {
        self.average_ms as nat
    }

    pub closed spec fn spec_peak(&self) -> nat {
        self.peak_ms as nat
    }

    pub closed spec fn spec_last_warned(&self) -> nat {
        self.last_warned_ms as nat
    }

    /// The state as `(average, peak, last_warned)`.
    pub open spec fn spec_state(&self) -> (nat, nat, nat) {
        (self.spec_average(), self.spec_peak(), self.spec_last_warned())
    }

    pub closed spec fn wf(&self) -> bool {
        &&& self.average_ms <= AVERAGE_BOUND
        &&& self.peak_ms <= AVERAGE_BOUND
        &&& self.last_warned_ms <= AVERAGE_BOUND
    }

    /// A monitor with all values at zero; `nominal_ms` is added to each
    /// measurement.
    pub fn new(nominal_ms: u32) -> (r: LatencyMonitor)
        ensures
            r.wf(),
            r.spec_nominal() == nominal_ms,
            r.spec_state() == (0nat, 0nat, 0nat),
    {
        LatencyMonitor { nominal_ms, average_ms: 0, peak_ms: 0, last_warned_ms: 0 }
    }

    pub fn average_ms(&self) -> (r: u64)
        ensures
            r == self.spec_average(),
    {
        self.average_ms
    }

    pub fn peak_ms(&self) -> (r: u64)
        ensures
            r == self.spec_peak(),
    {
        self.peak_ms
    }

    pub fn last_warned_ms(&self) -> (r: u64)
        ensures
            r == self.spec_last_warned(),
    {
        self.last_warned_ms
    }

    /// Records the time one frame took, in milliseconds. Returns the new
    /// average when it is worth an advisory warning.
    pub fn record(&mut self, measured_ms: u32) -> (r: Option<u64>)
        requires
            old(self).wf(),
        ensures
            final(self).wf(),
            final(self).spec_nominal() == old(self).spec_nominal(),
            ({
                let avg = next_average(
                    old(self).spec_average(),
                    old(self).spec_nominal(),
                    measured_ms as nat,
                );
                &&& final(self).spec_average() == avg
                &&& final(self).spec_peak() == max_nat(old(self).spec_peak(), avg)
                &&& (r is Some <==> warns(avg, old(self).spec_last_warned()))
                &&& (r matches Some(w) ==> w == avg)
                &&& final(self).spec_last_warned() == if r is Some {
                    avg
                } else {
                    old(self).spec_last_warned()
                }
            }),
    {
        let avg = (self.average_ms + self.nominal_ms as u64 + measured_ms as u64) / 2;
        self.average_ms = avg;
        if avg > self.peak_ms {
            self.peak_ms = avg;
        }
        let delta = if avg >= self.last_warned_ms {
            avg - self.last_warned_ms
        } else {
            self.last_warned_ms - avg
        };
        if delta >= WARN_THRESHOLD_MS && avg != self.last_warned_ms {
            self.last_warned_ms = avg;
            Some(avg)
        } else {
            None
        }
    }
}


/// Warnings come only with changes of at least the threshold: the first
/// differs enough from the starting value, each later one from the one
/// before, so an average that stays the same is warned of at most once. The
/// last warned value is the last warning given.
pub proof fn lemma_warnings_spaced(nominal: nat, start: (nat, nat, nat), measured: Seq<u32>)
    ensures
        ({
            let (s, w) = monitor_run(nominal, start, measured);
            &&& w.len() > 0 ==> warns(w[0], start.2)
            &&& forall|i: int| 0 <= i < w.len() - 1 ==> warns(#[trigger] w[i + 1], w[i])
            &&& s.2 == if w.len() > 0 {
                w.last()
            } else {
                start.2
            }
        }),
    decreases measured.len(),
{
    if measured.len() > 0 {
        lemma_warnings_spaced(nominal, start, measured.drop_last());
        let (s, w) = monitor_run(nominal, start, measured.drop_last());
        let (s2, w2) = monitor_run(nominal, start, measured);
        if w2.len() > w.len() {
            assert(w2 == w.push(w2.last()));
            assert forall|i: int| 0 <= i < w2.len() - 1 implies warns(
                #[trigger] w2[i + 1],
                w2[i],
            ) by {
                if i < w.len() - 1 {
                    assert(w2[i + 1] == w[i + 1]);
                }
            }
        }
    }
}

/// An update whose average equals the last warned value never warns, so a
/// repeated average fires at most one warning.
pub proof fn lemma_repeated_average_warns_once(average: nat)
    ensures
        !warns(average, average),
{
}

} // verus!
