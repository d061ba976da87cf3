//! What is counted and logged for each attempt to store an object.

use crate::s3::failure::PutObjectFailure;
use crate::s3::health::DeliveryHealth;
use crate::s3::signal::{views, Counter, Signal, SignalView};
use vstd::prelude::*;

verus! {

/// What is known of one object over its attempts.
#[derive(Clone, Copy, Debug, PartialEq, Eq, Structural)]
pub struct ObjectHistory {
    /// Whether an attempt ended in an error.
    pub errored: bool,
}

impl ObjectHistory {
    /// The history of an object before its first attempt.
    pub fn new() -> (history: ObjectHistory)
        ensures
            !history.errored,
    {
        ObjectHistory { errored: false }
    }
}

/// What is reported of an attempt that stored its object.
pub open spec fn delivered_signals(bucket: Seq<char>, key: Seq<char>) -> Seq<SignalView> {
    seq![
        SignalView::Delivered { bucket },
        SignalView::Put { bucket, key },
        SignalView::Count { counter: Counter::ObjectsDelivered, error_code: None },
    ]
}

/// What is reported of an attempt that ended in an error.
///
/// Every such attempt is counted. Its object is counted on the first of them.
pub open spec fn errored_signals(errored_before: bool, error_code: Seq<char>) -> Seq<SignalView> {
    let attempt = seq![
        SignalView::Count { counter: Counter::DeliveryErrors, error_code: None },
        SignalView::Count {
            counter: Counter::DeliveryErrorsByCode,
            error_code: Some(error_code),
        },
    ];
    if errored_before {
        attempt
    } else {
        attempt + seq![
            SignalView::Count { counter: Counter::ObjectsErrored, error_code: None },
            SignalView::Count {
                counter: Counter::ObjectsErroredByCode,
                error_code: Some(error_code),
            },
        ]
    }
}

/// The health of a sink after an attempt that ended in a failure, or in none.
pub open spec fn concluded_health(
    health: DeliveryHealth,
    error_code: Option<Seq<char>>,
) -> DeliveryHealth {
    match error_code {
        None => health.succeeded(),
        Some(_) => health.failed(),
    }
}

/// What is reported of an attempt that ended in a failure with an error code, or in none.
pub open spec fn concluded_signals(
    health: DeliveryHealth,
    errored_before: bool,
    bucket: Seq<char>,
    key: Seq<char>,
    error_code: Option<Seq<char>>,
) -> Seq<SignalView> {
    match error_code {
        None => delivered_signals(bucket, key) + health.success_signals(bucket),
        Some(code) => errored_signals(errored_before, code) + health.failure_signals(bucket, code),
    }
}

/// The label of a failure, where there is one.
pub open spec fn failure_label(failure: Option<&PutObjectFailure>) -> Option<Seq<char>> {
    match failure {
        Some(f) => Some(f.label()),
        None => None,
    }
}

/// Reports an attempt that stored its object.
pub fn report_delivered(bucket: &str, key: &str) -> (signals: Vec<Signal>)
    ensures
        views(signals@) == delivered_signals(bucket@, key@),
        signals@.len() == 3,
        signals@[0] matches Signal::Delivered { bucket: b } && b@ == bucket@,
        signals@[1] matches Signal::Put { bucket: b, key: k } && b@ == bucket@ && k@ == key@,
        signals@[2] == (Signal::Count { counter: Counter::ObjectsDelivered, error_code: None }),
{
    let mut signals: Vec<Signal> = Vec::new();
    signals.push(Signal::Delivered { bucket: bucket.to_owned() });
    signals.push(Signal::Put { bucket: bucket.to_owned(), key: key.to_owned() });
    signals.push(Signal::Count { counter: Counter::ObjectsDelivered, error_code: None });
    assert(views(signals@) =~= delivered_signals(bucket@, key@));
    signals
}

/// Reports an attempt that ended in an error, and takes note of it in the history of the object.
pub fn report_errored(history: &mut ObjectHistory, failure: &PutObjectFailure) -> (signals: Vec<
    Signal,
>)
    ensures
        final(history).errored,
        views(signals@) == errored_signals(old(history).errored, failure.label()),
        signals@.len() == (if old(history).errored {
            2int
        } else {
            4
        }),
        signals@[0] == (Signal::Count { counter: Counter::DeliveryErrors, error_code: None }),
        signals@[1] matches Signal::Count {
            counter: Counter::DeliveryErrorsByCode,
            error_code: Some(label),
        } && label@ == failure.label() && (failure.code matches Some(code) ==> label@ == code@),
        !old(history).errored ==> signals@[2] == (Signal::Count {
            counter: Counter::ObjectsErrored,
            error_code: None,
        }),
        !old(history).errored ==> (signals@[3] matches Signal::Count {
            counter: Counter::ObjectsErroredByCode,
            error_code: Some(label),
        } && label@ == failure.label() && (failure.code matches Some(code) ==> label@ == code@)),
{
    let mut signals: Vec<Signal> = Vec::new();
    signals.push(Signal::Count { counter: Counter::DeliveryErrors, error_code: None });
    signals.push(
        Signal::Count {
            counter: Counter::DeliveryErrorsByCode,
            error_code: Some(failure.error_code()),
        },
    );
    if !history.errored {
        history.errored = true;
        signals.push(Signal::Count { counter: Counter::ObjectsErrored, error_code: None });
        signals.push(
            Signal::Count {
                counter: Counter::ObjectsErroredByCode,
                error_code: Some(failure.error_code()),
            },
        );
    }
    assert(views(signals@) =~= errored_signals(old(history).errored, failure.label()));
    signals
}

/// Concludes an attempt to store an object: `failure` is what it ended in, where it did not store
/// the object.
///
/// The signals belong to the change of `health`: both are one critical section, so that attempts
/// that end at the same time neither interleave nor leave the gauge at the opposite of the state.
pub fn conclude(
    health: &mut DeliveryHealth,
    history: &mut ObjectHistory,
    bucket: &str,
    key: &str,
    failure: Option<&PutObjectFailure>,
) -> (signals: Vec<Signal>)
    ensures
        *final(health) == concluded_health(*old(health), failure_label(failure)),
        final(history).errored == (old(history).errored || failure is Some),
        views(signals@) == concluded_signals(
            *old(health),
            old(history).errored,
            bucket@,
            key@,
            failure_label(failure),
        ),
        old(health).wf() ==> final(health).wf(),
        failure is None ==> {
            &&& final(health).up
            &&& final(health).consecutive_failures == 0
            &&& signals@.len() == (if old(health).up {
                3int
            } else {
                5
            })
            &&& signals@[0] matches Signal::Delivered { bucket: b } && b@ == bucket@
            &&& signals@[1] matches Signal::Put { bucket: b, key: k } && b@ == bucket@ && k@ == key@
            &&& signals@[2] == (Signal::Count {
                counter: Counter::ObjectsDelivered,
                error_code: None,
            })
            &&& !old(health).up ==> (signals@[3] matches Signal::Recovered { bucket: b } && b@
                == bucket@)
            &&& !old(health).up ==> signals@[4] == (Signal::DeliveryUp { up: true })
        },
        failure matches Some(f) ==> {
            let label = match f.code {
                Some(code) => code@,
                None => f.label(),
            };
            let counts: int = if old(history).errored {
                2
            } else {
                4
            };
            &&& final(health).up <==> old(health).up && old(health).consecutive_failures + 1 < 3
            &&& final(health).consecutive_successes == 0
            &&& signals@.len() == (if final(health).up == old(health).up {
                counts
            } else {
                counts + 2
            })
            &&& signals@[0] == (Signal::Count {
                counter: Counter::DeliveryErrors,
                error_code: None,
            })
            &&& signals@[1] matches Signal::Count {
                counter: Counter::DeliveryErrorsByCode,
                error_code: Some(code),
            } && code@ == label
            &&& !old(history).errored ==> signals@[2] == (Signal::Count {
                counter: Counter::ObjectsErrored,
                error_code: None,
            })
            &&& !old(history).errored ==> (signals@[3] matches Signal::Count {
                counter: Counter::ObjectsErroredByCode,
                error_code: Some(code),
            } && code@ == label)
            &&& final(health).up != old(health).up ==> (signals@[counts] matches Signal::Failing {
                bucket: b,
                error_code: code,
            } && b@ == bucket@ && code@ == label)
            &&& final(health).up != old(health).up ==> signals@[counts + 1] == (
            Signal::DeliveryUp { up: false })
        },
{
    match failure {
        None => {
            let mut signals = report_delivered(bucket, key);
            let mut transition = health.record_success(bucket);
            let ghost first = signals@;
            let ghost second = transition@;
            signals.append(&mut transition);
            assert(views(signals@) =~= views(first) + views(second));
            signals
        },
        Some(f) => {
            let mut signals = report_errored(history, f);
            let error_code = f.error_code();
            let mut transition = health.record_failure(bucket, error_code.as_str());
            let ghost first = signals@;
            let ghost second = transition@;
            signals.append(&mut transition);
            assert(views(signals@) =~= views(first) + views(second));
            signals
        },
    }
}

} // verus!
