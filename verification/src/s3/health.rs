//! Whether delivery is up, with hysteresis.
//!
//! Requests run concurrently and are retried, so a state that follows each outcome would flap.
//! Only a run of failures marks an outage; a single success ends it.

use crate::s3::signal::{views, Signal, SignalView};
use vstd::prelude::*;

verus! {

/// Delivery is down after this many consecutive failures.
pub const FAILURE_THRESHOLD: u32 = 3;

/// Delivery is up again after this many consecutive successes.
pub const SUCCESS_THRESHOLD: u32 = 1;

/// The delivery health of one sink.
///
/// A new sink is up: one that is idle is healthy.
#[derive(Clone, Copy, Debug, PartialEq, Eq, Structural)]
pub struct DeliveryHealth {
    pub up: bool,
    pub consecutive_failures: u32,
    pub consecutive_successes: u32,
}

/// One more, as far as the type goes.
pub open spec fn one_more(count: u32) -> u32 {
    if count == u32::MAX {
        count
    } else {
        (count + 1) as u32
    }
}

impl DeliveryHealth {
    /// The health of a new sink.
    pub open spec fn fresh() -> DeliveryHealth {
        DeliveryHealth { up: true, consecutive_failures: 0, consecutive_successes: 0 }
    }

    /// What every state of a sink satisfies: at most one kind of run is under way, and no run
    /// that is long enough to change the state has gone unnoticed.
    pub open spec fn wf(self) -> bool {
        &&& self.consecutive_failures == 0 || self.consecutive_successes == 0
        &&& self.up ==> self.consecutive_failures < FAILURE_THRESHOLD
        &&& !self.up ==> self.consecutive_successes < SUCCESS_THRESHOLD
    }

    /// The health after a success.
    pub open spec fn succeeded(self) -> DeliveryHealth {
        let run = one_more(self.consecutive_successes);
        DeliveryHealth {
            up: self.up || run >= SUCCESS_THRESHOLD,
            consecutive_failures: 0,
            consecutive_successes: run,
        }
    }

    /// The health after a failure.
    pub open spec fn failed(self) -> DeliveryHealth {
        let run = one_more(self.consecutive_failures);
        DeliveryHealth {
            up: self.up && run < FAILURE_THRESHOLD,
            consecutive_failures: run,
            consecutive_successes: 0,
        }
    }

    /// What is reported on a success: that delivery recovered, if it was down before.
    pub open spec fn success_signals(self, bucket: Seq<char>) -> Seq<SignalView> {
        if !self.up && self.succeeded().up {
            seq![SignalView::Recovered { bucket }, SignalView::DeliveryUp { up: true }]
        } else {
            Seq::empty()
        }
    }

    /// What is reported on a failure: that delivery fails, if it was up before.
    pub open spec fn failure_signals(
        self,
        bucket: Seq<char>,
        error_code: Seq<char>,
    ) -> Seq<SignalView> {
        if self.up && !self.failed().up {
            seq![
                SignalView::Failing { bucket, error_code },
                SignalView::DeliveryUp { up: false },
            ]
        } else {
            Seq::empty()
        }
    }

    pub fn new() -> (health: DeliveryHealth)
        ensures
            health == DeliveryHealth::fresh(),
            health.wf(),
            health.up,
            health.consecutive_failures == 0,
            health.consecutive_successes == 0,
    {
        DeliveryHealth { up: true, consecutive_failures: 0, consecutive_successes: 0 }
    }

    /// Takes note of a success. The signals belong to the state change: both are one critical
    /// section.
    pub fn record_success(&mut self, bucket: &str) -> (signals: Vec<Signal>)
        ensures
            *final(self) == old(self).succeeded(),
            views(signals@) == old(self).success_signals(bucket@),
            old(self).wf() ==> final(self).wf(),
            final(self).up,
            final(self).consecutive_failures == 0,
            final(self).consecutive_successes == (if old(self).consecutive_successes < u32::MAX {
                old(self).consecutive_successes + 1
            } else {
                u32::MAX as int
            }),
            old(self).up ==> signals@.len() == 0,
            !old(self).up ==> signals@.len() == 2 && (signals@[0] matches Signal::Recovered {
                bucket: b,
            } && b@ == bucket@) && signals@[1] == (Signal::DeliveryUp { up: true }),
    {
        let mut signals: Vec<Signal> = Vec::new();
        self.consecutive_failures = 0;
        self.consecutive_successes = self.consecutive_successes.saturating_add(1);
        if !self.up && self.consecutive_successes >= SUCCESS_THRESHOLD {
            self.up = true;
            signals.push(Signal::Recovered { bucket: bucket.to_owned() });
            signals.push(Signal::DeliveryUp { up: true });
        }
        assert(views(signals@) =~= old(self).success_signals(bucket@));
        signals
    }

    /// Takes note of a failure. The signals belong to the state change: both are one critical
    /// section.
    pub fn record_failure(&mut self, bucket: &str, error_code: &str) -> (signals: Vec<Signal>)
        ensures
            *final(self) == old(self).failed(),
            views(signals@) == old(self).failure_signals(bucket@, error_code@),
            old(self).wf() ==> final(self).wf(),
            final(self).up <==> old(self).up && old(self).consecutive_failures + 1 < 3,
            final(self).consecutive_successes == 0,
            final(self).consecutive_failures == (if old(self).consecutive_failures < u32::MAX {
                old(self).consecutive_failures + 1
            } else {
                u32::MAX as int
            }),
            final(self).up == old(self).up ==> signals@.len() == 0,
            final(self).up != old(self).up ==> signals@.len() == 2 && (
            signals@[0] matches Signal::Failing { bucket: b, error_code: code } && b@ == bucket@
                && code@ == error_code@) && signals@[1] == (Signal::DeliveryUp { up: false }),
    {
        let mut signals: Vec<Signal> = Vec::new();
        self.consecutive_successes = 0;
        self.consecutive_failures = self.consecutive_failures.saturating_add(1);
        if self.up && self.consecutive_failures >= FAILURE_THRESHOLD {
            self.up = false;
            signals.push(
                Signal::Failing {
                    bucket: bucket.to_owned(),
                    error_code: error_code.to_owned(),
                },
            );
            signals.push(Signal::DeliveryUp { up: false });
        }
        assert(views(signals@) =~= old(self).failure_signals(bucket@, error_code@));
        signals
    }
}

} // verus!
