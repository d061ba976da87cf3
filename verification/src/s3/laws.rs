//! What holds of delivery over many attempts.

use crate::s3::checksum::{
    base64_text, buffer_contents, law_base64_tells_data_apart, md5_digest,
};
use crate::s3::delivery::{
    concluded_health, concluded_signals, delivered_signals, errored_signals, failure_label,
    ObjectHistory,
};
use crate::s3::event::GroupedCountByteSize;
use crate::s3::failure::{class_label, s3_error_code, FailureKind, PutObjectFailure};
use crate::s3::form::form_text;
use crate::s3::health::{DeliveryHealth, FAILURE_THRESHOLD};
use crate::s3::request::{respond, PutObject, S3Request, S3Response};
use crate::s3::sdk::sdk_code;
use crate::s3::signal::{views, Counter, Signal, SignalView};
use crate::text::text_of;
use aws_sdk_s3::operation::put_object::PutObjectError;
use aws_smithy_runtime_api::client::orchestrator::HttpResponse;
use aws_smithy_runtime_api::client::result::SdkError;
use vstd::prelude::*;
use vstd::seq_lib::{group_to_multiset_ensures, lemma_multiset_commutative};

verus! {

/// The health of a sink after its attempts so far; `true` stands for a success.
pub open spec fn health_after(outcomes: Seq<bool>) -> DeliveryHealth
    decreases outcomes.len(),
{
    if outcomes.len() == 0 {
        DeliveryHealth::fresh()
    } else if outcomes.last() {
        health_after(outcomes.drop_last()).succeeded()
    } else {
        health_after(outcomes.drop_last()).failed()
    }
}

/// Whether the last attempts, as many as it takes, all failed.
pub open spec fn ends_in_outage(outcomes: Seq<bool>) -> bool {
    &&& outcomes.len() >= FAILURE_THRESHOLD
    &&& forall|i: int|
        outcomes.len() - FAILURE_THRESHOLD <= i < outcomes.len() ==> !(#[trigger] outcomes[i])
}

/// How many of the last attempts failed in a row.
pub open spec fn failure_run(outcomes: Seq<bool>) -> nat
    decreases outcomes.len(),
{
    if outcomes.len() == 0 || outcomes.last() {
        0
    } else {
        failure_run(outcomes.drop_last()) + 1
    }
}

proof fn lemma_failure_run(outcomes: Seq<bool>)
    ensures
        failure_run(outcomes) <= outcomes.len(),
        forall|i: int|
            outcomes.len() - failure_run(outcomes) <= i < outcomes.len() ==> !(
            #[trigger] outcomes[i]),
        failure_run(outcomes) < outcomes.len() ==> outcomes[outcomes.len() - failure_run(outcomes)
            - 1],
    decreases outcomes.len(),
{
    if outcomes.len() > 0 && !outcomes.last() {
        let rest = outcomes.drop_last();
        lemma_failure_run(rest);
        assert forall|i: int|
            outcomes.len() - failure_run(outcomes) <= i < outcomes.len() implies !(
        #[trigger] outcomes[i]) by {
            if i < rest.len() {
                assert(rest[i] == outcomes[i]);
            }
        }
    }
}

proof fn lemma_health_counts_runs(outcomes: Seq<bool>)
    ensures
        health_after(outcomes).consecutive_failures == (if failure_run(outcomes) <= u32::MAX {
            failure_run(outcomes)
        } else {
            u32::MAX as nat
        }),
        health_after(outcomes).up <==> failure_run(outcomes) < FAILURE_THRESHOLD,
        outcomes.len() > 0 && !outcomes.last() ==> health_after(outcomes).consecutive_successes
            == 0,
    decreases outcomes.len(),
{
    if outcomes.len() > 0 {
        lemma_health_counts_runs(outcomes.drop_last());
    }
}

/// A sink reports itself down exactly while the last attempts, as many as the threshold says, all
/// failed. One success brings it up again.
pub proof fn law_down_exactly_in_an_outage(outcomes: Seq<bool>)
    ensures
        health_after(outcomes).up <==> !ends_in_outage(outcomes),
{
    lemma_health_counts_runs(outcomes);
    lemma_failure_run(outcomes);
    if failure_run(outcomes) < FAILURE_THRESHOLD && failure_run(outcomes) < outcomes.len() {
        let i = outcomes.len() - failure_run(outcomes) - 1;
        assert(outcomes[i]);
    }
}

/// Every state that a sink comes to is well-formed.
pub proof fn law_health_is_well_formed(outcomes: Seq<bool>)
    ensures
        health_after(outcomes).wf(),
    decreases outcomes.len(),
{
    if outcomes.len() > 0 {
        law_health_is_well_formed(outcomes.drop_last());
    }
}

/// Failures that never come in a run as long as the threshold leave a sink up all the time.
pub proof fn law_short_runs_do_not_flap(outcomes: Seq<bool>, n: int)
    requires
        0 <= n <= outcomes.len(),
        forall|m: int| 0 <= m <= outcomes.len() ==> !ends_in_outage(#[trigger] outcomes.take(m)),
    ensures
        health_after(outcomes.take(n)).up,
{
    law_down_exactly_in_an_outage(outcomes.take(n));
}

/// Three failures in a row take a sink down from every state, and one success brings it up from
/// every state.
pub proof fn law_runs_decide(health: DeliveryHealth)
    ensures
        !health.failed().failed().failed().up,
        health.succeeded().up,
{
}

/// The value of the gauge after some signals, where it was `level` before.
pub open spec fn gauge_after(level: bool, signals: Seq<SignalView>) -> bool
    decreases signals.len(),
{
    if signals.len() == 0 {
        level
    } else {
        match signals.last() {
            SignalView::DeliveryUp { up } => up,
            _ => gauge_after(level, signals.drop_last()),
        }
    }
}

/// The end of one attempt of a sink.
pub struct Conclusion {
    pub bucket: Seq<char>,
    pub key: Seq<char>,
    /// Whether an earlier attempt to store the object ended in an error.
    pub errored_before: bool,
    /// The label of the failure that the attempt ended in, if any.
    pub error_code: Option<Seq<char>>,
}

/// The outcomes of the attempts of a sink; `true` stands for a success.
pub open spec fn outcomes_of(run: Seq<Conclusion>) -> Seq<bool> {
    run.map_values(|end: Conclusion| end.error_code is None)
}

/// The health of a sink after its attempts so far.
pub open spec fn run_health(run: Seq<Conclusion>) -> DeliveryHealth
    decreases run.len(),
{
    if run.len() == 0 {
        DeliveryHealth::fresh()
    } else {
        concluded_health(run_health(run.drop_last()), run.last().error_code)
    }
}

/// What is reported of the attempts of a sink so far, to whatever buckets and of whatever objects.
pub open spec fn run_signals(run: Seq<Conclusion>) -> Seq<SignalView>
    decreases run.len(),
{
    if run.len() == 0 {
        Seq::empty()
    } else {
        let end = run.last();
        run_signals(run.drop_last()) + concluded_signals(
            run_health(run.drop_last()),
            end.errored_before,
            end.bucket,
            end.key,
            end.error_code,
        )
    }
}

/// Whether signals report transitions as they should, where the gauge was `level` before: each
/// value of the gauge differs from the one before it and directly follows the log line of its
/// transition, and there is no such log line otherwise.
pub open spec fn reports_transitions(level: bool, signals: Seq<SignalView>) -> bool {
    &&& forall|i: int|
        #![trigger signals[i]]
        0 <= i < signals.len() ==> (signals[i] matches SignalView::DeliveryUp { up } ==> {
            &&& up != gauge_after(level, signals.take(i))
            &&& i > 0
            &&& up ==> signals[i - 1] is Recovered
            &&& !up ==> signals[i - 1] is Failing
        })
    &&& forall|i: int|
        #![trigger signals[i]]
        0 <= i < signals.len() ==> {
            &&& signals[i] is Recovered ==> i + 1 < signals.len() && signals[i + 1]
                == (SignalView::DeliveryUp { up: true })
            &&& signals[i] is Failing ==> i + 1 < signals.len() && signals[i + 1]
                == (SignalView::DeliveryUp { up: false })
        }
}

proof fn lemma_gauge_after_more(level: bool, a: Seq<SignalView>, b: Seq<SignalView>)
    ensures
        gauge_after(level, a + b) == gauge_after(gauge_after(level, a), b),
    decreases b.len(),
{
    if b.len() == 0 {
        assert(a + b =~= a);
    } else {
        assert((a + b).drop_last() =~= a + b.drop_last());
        assert((a + b).last() == b.last());
        lemma_gauge_after_more(level, a, b.drop_last());
    }
}

proof fn lemma_reports_more(level: bool, a: Seq<SignalView>, b: Seq<SignalView>)
    requires
        reports_transitions(level, a),
        reports_transitions(gauge_after(level, a), b),
    ensures
        reports_transitions(level, a + b),
{
    let both = a + b;
    assert forall|i: int| #![trigger both[i]] 0 <= i < both.len() implies (
    both[i] matches SignalView::DeliveryUp { up } ==> {
        &&& up != gauge_after(level, both.take(i))
        &&& i > 0
        &&& up ==> both[i - 1] is Recovered
        &&& !up ==> both[i - 1] is Failing
    }) by {
        if i < a.len() {
            assert(both[i] == a[i]);
            assert(both.take(i) =~= a.take(i));
        } else {
            let k = i - a.len();
            assert(both[i] == b[k]);
            assert(both.take(i) =~= a + b.take(k));
            lemma_gauge_after_more(level, a, b.take(k));
        }
    }
    assert forall|i: int| #![trigger both[i]] 0 <= i < both.len() implies {
        &&& both[i] is Recovered ==> i + 1 < both.len() && both[i + 1] == (SignalView::DeliveryUp {
            up: true,
        })
        &&& both[i] is Failing ==> i + 1 < both.len() && both[i + 1] == (SignalView::DeliveryUp {
            up: false,
        })
    } by {
        if i < a.len() {
            assert(both[i] == a[i]);
        } else {
            assert(both[i] == b[i - a.len()]);
        }
    }
}

proof fn lemma_counts_leave_the_gauge(level: bool, signals: Seq<SignalView>)
    requires
        forall|i: int|
            0 <= i < signals.len() ==> !((#[trigger] signals[i]) is DeliveryUp),
    ensures
        gauge_after(level, signals) == level,
    decreases signals.len(),
{
    if signals.len() > 0 {
        let rest = signals.drop_last();
        assert forall|i: int| 0 <= i < rest.len() implies !((#[trigger] rest[i]) is DeliveryUp) by {
            assert(rest[i] == signals[i]);
        }
        assert(!(signals[signals.len() - 1] is DeliveryUp));
        lemma_counts_leave_the_gauge(level, rest);
    }
}

proof fn lemma_conclusion_reports(
    health: DeliveryHealth,
    errored_before: bool,
    bucket: Seq<char>,
    key: Seq<char>,
    error_code: Option<Seq<char>>,
)
    ensures
        ({
            let signals = concluded_signals(health, errored_before, bucket, key, error_code);
            &&& reports_transitions(health.up, signals)
            &&& gauge_after(health.up, signals) == concluded_health(health, error_code).up
        }),
{
    let report = match error_code {
        None => delivered_signals(bucket, key),
        Some(code) => errored_signals(errored_before, code),
    };
    let transition = match error_code {
        None => health.success_signals(bucket),
        Some(code) => health.failure_signals(bucket, code),
    };
    lemma_counts_leave_the_gauge(health.up, report);
    assert(reports_transitions(health.up, report));
    if transition.len() > 0 {
        lemma_counts_leave_the_gauge(health.up, transition.take(1));
    }
    assert(reports_transitions(health.up, transition));
    lemma_reports_more(health.up, report, transition);
    lemma_gauge_after_more(health.up, report, transition);
}

/// Over any run of attempts of a sink the values of the gauge alternate, starting with down, where
/// a new sink has published up. Each is directly preceded by the log line of its transition, and no
/// such log line appears otherwise.
pub proof fn law_run_reports_transitions(run: Seq<Conclusion>)
    ensures
        reports_transitions(true, run_signals(run)),
        gauge_after(true, run_signals(run)) == run_health(run).up,
    decreases run.len(),
{
    if run.len() > 0 {
        let earlier = run.drop_last();
        let end = run.last();
        law_run_reports_transitions(earlier);
        let signals = concluded_signals(
            run_health(earlier),
            end.errored_before,
            end.bucket,
            end.key,
            end.error_code,
        );
        lemma_conclusion_reports(
            run_health(earlier),
            end.errored_before,
            end.bucket,
            end.key,
            end.error_code,
        );
        lemma_reports_more(true, run_signals(earlier), signals);
        lemma_gauge_after_more(true, run_signals(earlier), signals);
    }
}

/// The gauge always shows the state of the sink: it is down exactly while the last attempts, as
/// many as the threshold says, all failed.
pub proof fn law_gauge_shows_health(run: Seq<Conclusion>)
    ensures
        run_health(run) == health_after(outcomes_of(run)),
        gauge_after(true, run_signals(run)) == health_after(outcomes_of(run)).up,
        gauge_after(true, run_signals(run)) <==> !ends_in_outage(outcomes_of(run)),
    decreases run.len(),
{
    if run.len() > 0 {
        law_gauge_shows_health(run.drop_last());
        assert(outcomes_of(run).drop_last() =~= outcomes_of(run.drop_last()));
    }
    law_run_reports_transitions(run);
    law_down_exactly_in_an_outage(outcomes_of(run));
}

/// A change of state is reported once, when it happens, and nothing is reported otherwise.
pub proof fn law_transitions_are_reported_once(
    health: DeliveryHealth,
    bucket: Seq<char>,
    error_code: Seq<char>,
)
    ensures
        health.success_signals(bucket) == (if health.up != health.succeeded().up {
            seq![SignalView::Recovered { bucket }, SignalView::DeliveryUp { up: true }]
        } else {
            Seq::empty()
        }),
        health.failure_signals(bucket, error_code) == (if health.up != health.failed().up {
            seq![SignalView::Failing { bucket, error_code }, SignalView::DeliveryUp { up: false }]
        } else {
            Seq::empty()
        }),
{
}

/// How often a counter goes up in some signals.
pub open spec fn ups(signals: Seq<SignalView>, counter: Counter) -> nat
    decreases signals.len(),
{
    if signals.len() == 0 {
        0
    } else {
        let rest = ups(signals.drop_last(), counter);
        match signals.last() {
            SignalView::Count { counter: c, .. } => if c == counter {
                rest + 1
            } else {
                rest
            },
            _ => rest,
        }
    }
}

/// How often a counter goes up under an error code in some signals.
pub open spec fn ups_of_code(signals: Seq<SignalView>, counter: Counter, code: Seq<char>) -> nat
    decreases signals.len(),
{
    if signals.len() == 0 {
        0
    } else {
        let rest = ups_of_code(signals.drop_last(), counter, code);
        if signals.last() == (SignalView::Count { counter, error_code: Some(code) }) {
            rest + 1
        } else {
            rest
        }
    }
}

/// The history of an object after its attempts so far; a failed attempt is given by its error code.
pub open spec fn history_after(attempts: Seq<Option<Seq<char>>>) -> ObjectHistory
    decreases attempts.len(),
{
    if attempts.len() == 0 {
        ObjectHistory { errored: false }
    } else if attempts.last() is Some {
        ObjectHistory { errored: true }
    } else {
        history_after(attempts.drop_last())
    }
}

/// What is reported of the attempts to store one object so far; a failed attempt is given by its
/// error code. When attempt `i` ends, the health of the sink is `healths[i]`: other objects have
/// their part in it.
pub open spec fn attempt_signals(
    bucket: Seq<char>,
    key: Seq<char>,
    healths: Seq<DeliveryHealth>,
    attempts: Seq<Option<Seq<char>>>,
) -> Seq<SignalView>
    decreases attempts.len(),
{
    if attempts.len() == 0 {
        Seq::empty()
    } else {
        let earlier = attempts.drop_last();
        attempt_signals(bucket, key, healths, earlier) + concluded_signals(
            healths[attempts.len() - 1],
            history_after(earlier).errored,
            bucket,
            key,
            attempts.last(),
        )
    }
}

/// How many attempts failed.
pub open spec fn failures(attempts: Seq<Option<Seq<char>>>) -> nat
    decreases attempts.len(),
{
    if attempts.len() == 0 {
        0
    } else {
        failures(attempts.drop_last()) + if attempts.last() is Some {
            1nat
        } else {
            0
        }
    }
}

/// How many attempts failed with an error code.
pub open spec fn failures_of_code(attempts: Seq<Option<Seq<char>>>, code: Seq<char>) -> nat
    decreases attempts.len(),
{
    if attempts.len() == 0 {
        0
    } else {
        failures_of_code(attempts.drop_last(), code) + if attempts.last() == Some(code) {
            1nat
        } else {
            0
        }
    }
}

/// The error code of the first failure.
pub open spec fn first_code(attempts: Seq<Option<Seq<char>>>) -> Option<Seq<char>>
    decreases attempts.len(),
{
    if attempts.len() == 0 {
        None
    } else {
        match first_code(attempts.drop_last()) {
            Some(code) => Some(code),
            None => attempts.last(),
        }
    }
}

proof fn lemma_ups_add(a: Seq<SignalView>, b: Seq<SignalView>, counter: Counter)
    ensures
        ups(a + b, counter) == ups(a, counter) + ups(b, counter),
    decreases b.len(),
{
    if b.len() == 0 {
        assert(a + b =~= a);
    } else {
        assert((a + b).drop_last() =~= a + b.drop_last());
        lemma_ups_add(a, b.drop_last(), counter);
    }
}

proof fn lemma_ups_of_code_add(
    a: Seq<SignalView>,
    b: Seq<SignalView>,
    counter: Counter,
    code: Seq<char>,
)
    ensures
        ups_of_code(a + b, counter, code) == ups_of_code(a, counter, code) + ups_of_code(
            b,
            counter,
            code,
        ),
    decreases b.len(),
{
    if b.len() == 0 {
        assert(a + b =~= a);
    } else {
        assert((a + b).drop_last() =~= a + b.drop_last());
        lemma_ups_of_code_add(a, b.drop_last(), counter, code);
    }
}

proof fn lemma_ups_of_delivered(bucket: Seq<char>, key: Seq<char>, code: Seq<char>)
    ensures
        ({
            let signals = delivered_signals(bucket, key);
            &&& ups(signals, Counter::ObjectsDelivered) == 1
            &&& ups(signals, Counter::DeliveryErrors) == 0
            &&& ups(signals, Counter::DeliveryErrorsByCode) == 0
            &&& ups(signals, Counter::ObjectsErrored) == 0
            &&& ups(signals, Counter::ObjectsErroredByCode) == 0
            &&& ups_of_code(signals, Counter::DeliveryErrorsByCode, code) == 0
            &&& ups_of_code(signals, Counter::ObjectsErroredByCode, code) == 0
        }),
{
    reveal_with_fuel(ups, 4);
    reveal_with_fuel(ups_of_code, 4);
    let signals = delivered_signals(bucket, key);
    assert(signals.drop_last().drop_last().drop_last() =~= Seq::empty());
}

proof fn lemma_ups_of_errored(errored_before: bool, error_code: Seq<char>, code: Seq<char>)
    ensures
        ({
            let signals = errored_signals(errored_before, error_code);
            let first: nat = if errored_before {
                0
            } else {
                1
            };
            let same: nat = if error_code == code {
                1
            } else {
                0
            };
            &&& ups(signals, Counter::ObjectsDelivered) == 0
            &&& ups(signals, Counter::DeliveryErrors) == 1
            &&& ups(signals, Counter::DeliveryErrorsByCode) == 1
            &&& ups(signals, Counter::ObjectsErrored) == first
            &&& ups(signals, Counter::ObjectsErroredByCode) == first
            &&& ups_of_code(signals, Counter::DeliveryErrorsByCode, code) == same
            &&& ups_of_code(signals, Counter::ObjectsErroredByCode, code) == first * same
        }),
{
    reveal_with_fuel(ups, 5);
    reveal_with_fuel(ups_of_code, 5);
    let signals = errored_signals(errored_before, error_code);
    if errored_before {
        assert(signals.drop_last().drop_last() =~= Seq::empty());
    } else {
        assert(signals[2] == (SignalView::Count {
            counter: Counter::ObjectsErrored,
            error_code: None,
        }));
        assert(signals.drop_last().drop_last().drop_last().drop_last() =~= Seq::empty());
    }
}

/// What the end of an attempt adds to the counters: nothing beyond its report, since transitions
/// count nothing.
proof fn lemma_ups_of_concluded(
    health: DeliveryHealth,
    errored_before: bool,
    bucket: Seq<char>,
    key: Seq<char>,
    error_code: Option<Seq<char>>,
    code: Seq<char>,
)
    ensures
        ({
            let signals = concluded_signals(health, errored_before, bucket, key, error_code);
            let failed: nat = if error_code is Some {
                1
            } else {
                0
            };
            let first: nat = if error_code is Some && !errored_before {
                1
            } else {
                0
            };
            let same: nat = if error_code == Some(code) {
                1
            } else {
                0
            };
            &&& ups(signals, Counter::ObjectsDelivered) == 1 - failed
            &&& ups(signals, Counter::DeliveryErrors) == failed
            &&& ups(signals, Counter::DeliveryErrorsByCode) == failed
            &&& ups(signals, Counter::ObjectsErrored) == first
            &&& ups(signals, Counter::ObjectsErroredByCode) == first
            &&& ups_of_code(signals, Counter::DeliveryErrorsByCode, code) == same
            &&& ups_of_code(signals, Counter::ObjectsErroredByCode, code) == first * same
        }),
{
    let report = match error_code {
        None => delivered_signals(bucket, key),
        Some(c) => errored_signals(errored_before, c),
    };
    let transition = match error_code {
        None => health.success_signals(bucket),
        Some(c) => health.failure_signals(bucket, c),
    };
    match error_code {
        None => {
            lemma_ups_of_delivered(bucket, key, code);
        },
        Some(c) => {
            lemma_ups_of_errored(errored_before, c, code);
        },
    }
    lemma_ups_of_transition(transition, Counter::ObjectsDelivered, code);
    lemma_ups_of_transition(transition, Counter::DeliveryErrors, code);
    lemma_ups_of_transition(transition, Counter::DeliveryErrorsByCode, code);
    lemma_ups_of_transition(transition, Counter::ObjectsErrored, code);
    lemma_ups_of_transition(transition, Counter::ObjectsErroredByCode, code);
    lemma_ups_add(report, transition, Counter::ObjectsDelivered);
    lemma_ups_add(report, transition, Counter::DeliveryErrors);
    lemma_ups_add(report, transition, Counter::DeliveryErrorsByCode);
    lemma_ups_add(report, transition, Counter::ObjectsErrored);
    lemma_ups_add(report, transition, Counter::ObjectsErroredByCode);
    lemma_ups_of_code_add(report, transition, Counter::DeliveryErrorsByCode, code);
    lemma_ups_of_code_add(report, transition, Counter::ObjectsErroredByCode, code);
}

proof fn lemma_ups_of_transition(signals: Seq<SignalView>, counter: Counter, code: Seq<char>)
    requires
        forall|i: int| 0 <= i < signals.len() ==> !((#[trigger] signals[i]) is Count),
    ensures
        ups(signals, counter) == 0,
        ups_of_code(signals, counter, code) == 0,
    decreases signals.len(),
{
    if signals.len() > 0 {
        let rest = signals.drop_last();
        assert forall|i: int| 0 <= i < rest.len() implies !((#[trigger] rest[i]) is Count) by {
            assert(rest[i] == signals[i]);
        }
        assert(!(signals[signals.len() - 1] is Count));
        lemma_ups_of_transition(rest, counter, code);
    }
}

/// Over the attempts to store one object, every failed attempt is counted, the object is counted
/// as errored once if any attempt failed, and every success is counted.
pub proof fn law_attempts_and_objects_are_counted(
    bucket: Seq<char>,
    key: Seq<char>,
    healths: Seq<DeliveryHealth>,
    attempts: Seq<Option<Seq<char>>>,
)
    ensures
        ({
            let signals = attempt_signals(bucket, key, healths, attempts);
            let errored: nat = if failures(attempts) > 0 {
                1
            } else {
                0
            };
            &&& ups(signals, Counter::DeliveryErrors) == failures(attempts)
            &&& ups(signals, Counter::ObjectsErrored) == errored
            &&& ups(signals, Counter::ObjectsDelivered) + failures(attempts) == attempts.len()
            &&& history_after(attempts).errored <==> failures(attempts) > 0
        }),
    decreases attempts.len(),
{
    if attempts.len() > 0 {
        let earlier = attempts.drop_last();
        let before = attempt_signals(bucket, key, healths, earlier);
        let health = healths[attempts.len() - 1];
        let errored = history_after(earlier).errored;
        let signals = concluded_signals(health, errored, bucket, key, attempts.last());
        law_attempts_and_objects_are_counted(bucket, key, healths, earlier);
        lemma_ups_of_concluded(health, errored, bucket, key, attempts.last(), key);
        lemma_ups_add(before, signals, Counter::DeliveryErrors);
        lemma_ups_add(before, signals, Counter::ObjectsErrored);
        lemma_ups_add(before, signals, Counter::ObjectsDelivered);
    }
}

/// The counters by error code break the other two down: a failed attempt is counted under its own
/// code, an object under the code of its first failure.
pub proof fn law_error_codes_break_the_counts_down(
    bucket: Seq<char>,
    key: Seq<char>,
    healths: Seq<DeliveryHealth>,
    attempts: Seq<Option<Seq<char>>>,
    code: Seq<char>,
)
    ensures
        ({
            let signals = attempt_signals(bucket, key, healths, attempts);
            let errored: nat = if first_code(attempts) == Some(code) {
                1
            } else {
                0
            };
            &&& ups_of_code(signals, Counter::DeliveryErrorsByCode, code) == failures_of_code(
                attempts,
                code,
            )
            &&& ups_of_code(signals, Counter::ObjectsErroredByCode, code) == errored
            &&& ups(signals, Counter::DeliveryErrorsByCode) == ups(signals, Counter::DeliveryErrors)
            &&& ups(signals, Counter::ObjectsErroredByCode) == ups(signals, Counter::ObjectsErrored)
            &&& first_code(attempts) is Some <==> history_after(attempts).errored
        }),
    decreases attempts.len(),
{
    if attempts.len() > 0 {
        let earlier = attempts.drop_last();
        let before = attempt_signals(bucket, key, healths, earlier);
        let health = healths[attempts.len() - 1];
        let errored = history_after(earlier).errored;
        let signals = concluded_signals(health, errored, bucket, key, attempts.last());
        law_error_codes_break_the_counts_down(bucket, key, healths, earlier, code);
        lemma_ups_of_concluded(health, errored, bucket, key, attempts.last(), code);
        lemma_ups_of_code_add(before, signals, Counter::DeliveryErrorsByCode, code);
        lemma_ups_of_code_add(before, signals, Counter::ObjectsErroredByCode, code);
        lemma_ups_add(before, signals, Counter::DeliveryErrors);
        lemma_ups_add(before, signals, Counter::ObjectsErrored);
        lemma_ups_add(before, signals, Counter::DeliveryErrorsByCode);
        lemma_ups_add(before, signals, Counter::ObjectsErroredByCode);
    }
}

/// The parameters of a call are those of its request, each in its own place: the body, the bucket
/// and the key under which the object is stored, whatever else the request holds; the options as
/// they are configured; the configured content encoding before that of the request, and the
/// configured content type before that of a log.
pub proof fn law_parameters_are_those_of_the_request(
    request: S3Request,
    digest: &[u8; 16],
    put: (PutObject, GroupedCountByteSize),
)
    requires
        call_ensures(S3Request::into_put_object_with, (request, digest), put),
    ensures
        put.0.stores(request, digest@),
        put.0.body == request.body,
        put.0.bucket == request.bucket,
        put.0.key == request.metadata.s3_key,
        put.0.acl == request.options.acl,
        put.0.grant_full_control == request.options.grant_full_control,
        put.0.grant_read == request.options.grant_read,
        put.0.grant_read_acp == request.options.grant_read_acp,
        put.0.grant_write_acp == request.options.grant_write_acp,
        put.0.server_side_encryption == request.options.server_side_encryption,
        put.0.ssekms_key_id == request.options.ssekms_key_id,
        put.0.storage_class == request.options.storage_class,
        match put.0.content_encoding {
            Some(encoding) => (request.options.content_encoding matches Some(configured)
                && encoding@ == configured@) || (request.options.content_encoding is None
                && request.content_encoding is Some && encoding@ == request.content_encoding->0@),
            None => request.options.content_encoding is None && request.content_encoding is None,
        },
        request.options.content_type matches Some(configured) ==> put.0.content_type@
            == configured@,
        request.options.content_type is None ==> put.0.content_type@ == "text/x-log"@,
        put.0.tagging is Some <==> request.options.tags is Some,
        request.options.tags matches Some(tags) ==> put.0.tagging->0@ == form_text(tags.pairs()),
        put.0.content_md5@ == base64_text(digest@),
        put.1 == request.request_metadata.events_estimated_json_encoded_byte_size,
{
}

/// Whatever is stored for a request, it is stored under the key of the request, in its bucket and
/// with its bytes and its options.
pub proof fn law_stored_as_requested(request: S3Request, put: PutObject, digest: Seq<u8>)
    requires
        put.stores(request, digest),
    ensures
        buffer_contents(put.body) == buffer_contents(request.body),
        put.body == request.body,
        put.bucket == request.bucket,
        put.key == request.metadata.s3_key,
        put.acl == request.options.acl,
        put.grant_full_control == request.options.grant_full_control,
        put.grant_read == request.options.grant_read,
        put.grant_read_acp == request.options.grant_read_acp,
        put.grant_write_acp == request.options.grant_write_acp,
        put.server_side_encryption == request.options.server_side_encryption,
        put.ssekms_key_id == request.options.ssekms_key_id,
        put.storage_class == request.options.storage_class,
        match put.content_encoding {
            Some(encoding) => (request.options.content_encoding matches Some(configured)
                && encoding@ == configured@) || (request.options.content_encoding is None
                && request.content_encoding is Some && encoding@ == request.content_encoding->0@),
            None => request.options.content_encoding is None && request.content_encoding is None,
        },
        request.options.content_type matches Some(configured) ==> put.content_type@ == configured@,
        request.options.content_type is None ==> put.content_type@ == "text/x-log"@,
        put.tagging is Some <==> request.options.tags is Some,
        request.options.tags matches Some(tags) ==> put.tagging->0@ == form_text(tags.pairs()),
        put.content_md5@ == base64_text(digest),
{
}

/// Requests with different keys or buckets are stored in different places, whatever else they have
/// in common: no object is stored over that of another key.
pub proof fn law_different_keys_are_different_places(
    a: S3Request,
    b: S3Request,
    x: PutObject,
    y: PutObject,
    m: Seq<u8>,
    n: Seq<u8>,
)
    requires
        x.stores(a, m),
        y.stores(b, n),
    ensures
        x.key@ == y.key@ <==> a.metadata.s3_key@ == b.metadata.s3_key@,
        x.bucket@ == y.bucket@ <==> a.bucket@ == b.bucket@,
{
}

/// Requests that agree, such as a request and its clone for a retry, store the same bytes under
/// the same key with the same parameters, and deliver the same events.
pub proof fn law_agreeing_requests_store_the_same(
    a: S3Request,
    b: S3Request,
    x: PutObject,
    y: PutObject,
)
    requires
        a.agrees(b),
        x.stores(a, md5_digest(buffer_contents(a.body))),
        y.stores(b, md5_digest(buffer_contents(b.body))),
    ensures
        buffer_contents(x.body) == buffer_contents(y.body),
        x.bucket == y.bucket,
        x.key == y.key,
        text_of(x.content_encoding) == text_of(y.content_encoding),
        x.content_type@ == y.content_type@,
        x.acl == y.acl,
        x.grant_full_control == y.grant_full_control,
        x.grant_read == y.grant_read,
        x.grant_read_acp == y.grant_read_acp,
        x.grant_write_acp == y.grant_write_acp,
        x.server_side_encryption == y.server_side_encryption,
        x.ssekms_key_id == y.ssekms_key_id,
        x.storage_class == y.storage_class,
        text_of(x.tagging) == text_of(y.tagging),
        x.content_md5@ == y.content_md5@,
        a.request_metadata.events_estimated_json_encoded_byte_size.agrees(
            b.request_metadata.events_estimated_json_encoded_byte_size,
        ),
{
}

/// Failures without an error code are told apart by where they happened, so that the ways in which
/// a destination can be down are distinguishable.
pub proof fn law_classes_are_distinguishable(a: PutObjectFailure, b: PutObjectFailure)
    requires
        a.code is None,
        b.code is None,
        a.kind != FailureKind::Unrecognized,
        b.kind != FailureKind::Unrecognized,
    ensures
        a.label() == b.label() <==> a.kind == b.kind,
{
    reveal_strlit("timeout");
    reveal_strlit("dispatch_failure");
    reveal_strlit("response_error");
    reveal_strlit("construction_failure");
    reveal_strlit("Timeout");
    reveal_strlit("unknown");
    assert("timeout"@[0] != "Timeout"@[0]);
    assert("timeout"@[0] != "unknown"@[0]);
    assert("Timeout"@[0] != "unknown"@[0]);
    assert("timeout"@.len() == 7);
    assert("dispatch_failure"@.len() == 16);
    assert("response_error"@.len() == 14);
    assert("construction_failure"@.len() == 20);
    assert(a.label() == class_label(a.kind));
    assert(b.label() == class_label(b.kind));
}

/// A failure goes by its error code, letter for letter, where it carries one, wherever it happened.
/// Else it goes by where it happened.
pub proof fn law_labels(failure: PutObjectFailure)
    ensures
        failure.code matches Some(code) ==> failure.label() == code@,
        failure.code is None ==> {
            &&& failure.kind == FailureKind::TimeoutError ==> failure.label() == "timeout"@
            &&& failure.kind == FailureKind::DispatchFailure ==> failure.label()
                == "dispatch_failure"@
            &&& failure.kind == FailureKind::ResponseError ==> failure.label() == "response_error"@
            &&& failure.kind == FailureKind::ConstructionFailure ==> failure.label()
                == "construction_failure"@
            &&& failure.kind == FailureKind::RequestTimeout ==> failure.label() == "Timeout"@
            &&& failure.kind == FailureKind::ServiceError ==> failure.label() == "unknown"@
            &&& failure.kind == FailureKind::Unrecognized ==> failure.label() == "unknown"@
        },
{
}

/// Failures with error codes have the same label exactly where their codes are the same, letter for
/// letter.
pub proof fn law_labels_tell_codes_apart(a: PutObjectFailure, b: PutObjectFailure)
    requires
        a.code is Some,
        b.code is Some,
    ensures
        a.label() == b.label() <==> a.code->0@ == b.code->0@,
{
}

/// The label that an error of the client gets is the error code that the error carries, letter for
/// letter. The other errors go by their variant.
pub proof fn law_error_codes_of_the_client(
    error: SdkError<PutObjectError, HttpResponse>,
    label: String,
)
    requires
        call_ensures(s3_error_code, (&error,), label),
    ensures
        sdk_code(error) matches Some(code) ==> label@ == code,
        error is TimeoutError ==> label@ == "timeout"@,
        error is DispatchFailure ==> label@ == "dispatch_failure"@,
        error is ResponseError ==> label@ == "response_error"@,
        error is ConstructionFailure ==> label@ == "construction_failure"@,
        error is ServiceError && sdk_code(error) is None ==> label@ == "unknown"@,
{
}

/// The view of a signal shows its texts as they are, and views of signals stand where the signals
/// stand.
pub proof fn law_views_show_signals(signals: Seq<Signal>, i: int)
    requires
        0 <= i < signals.len(),
    ensures
        views(signals).len() == signals.len(),
        match signals[i] {
            Signal::Delivered { bucket } => views(signals)[i] == (SignalView::Delivered {
                bucket: bucket@,
            }),
            Signal::Put { bucket, key } => views(signals)[i] == (SignalView::Put {
                bucket: bucket@,
                key: key@,
            }),
            Signal::Recovered { bucket } => views(signals)[i] == (SignalView::Recovered {
                bucket: bucket@,
            }),
            Signal::Failing { bucket, error_code } => views(signals)[i] == (SignalView::Failing {
                bucket: bucket@,
                error_code: error_code@,
            }),
            Signal::DeliveryUp { up } => views(signals)[i] == (SignalView::DeliveryUp { up }),
            Signal::Count { counter, error_code: Some(code) } => views(signals)[i] == (
            SignalView::Count { counter, error_code: Some(code@) }),
            Signal::Count { counter, error_code: None } => views(signals)[i] == (
            SignalView::Count { counter, error_code: None }),
        },
{
}

/// How the health of a sink changes with one attempt. A success brings it up and ends a run of
/// failures. A failure ends a run of successes, and takes the sink down if it is at least the third
/// in a row.
pub proof fn law_health_after_an_attempt(health: DeliveryHealth, error_code: Option<Seq<char>>)
    ensures
        error_code is None ==> {
            &&& concluded_health(health, error_code).up
            &&& concluded_health(health, error_code).consecutive_failures == 0
            &&& concluded_health(health, error_code).consecutive_successes == (if
            health.consecutive_successes < u32::MAX {
                health.consecutive_successes + 1
            } else {
                u32::MAX as int
            })
        },
        error_code is Some ==> {
            &&& concluded_health(health, error_code).up <==> health.up
                && health.consecutive_failures + 1 < 3
            &&& concluded_health(health, error_code).consecutive_successes == 0
            &&& concluded_health(health, error_code).consecutive_failures == (if
            health.consecutive_failures < u32::MAX {
                health.consecutive_failures + 1
            } else {
                u32::MAX as int
            })
        },
{
}

/// A sink is down exactly after three failures in a row, whatever came before them.
pub proof fn law_down_after_three_failures(run: Seq<Conclusion>)
    ensures
        !run_health(run).up <==> run.len() >= 3 && run[run.len() - 1].error_code is Some
            && run[run.len() - 2].error_code is Some && run[run.len() - 3].error_code is Some,
{
    law_gauge_shows_health(run);
    law_down_exactly_in_an_outage(outcomes_of(run));
    let outcomes = outcomes_of(run);
    if run.len() >= 3 {
        assert(outcomes[run.len() - 1] == (run[run.len() - 1].error_code is None));
        assert(outcomes[run.len() - 2] == (run[run.len() - 2].error_code is None));
        assert(outcomes[run.len() - 3] == (run[run.len() - 3].error_code is None));
    }
}

/// How often an element stands in two sequences, one after the other.
proof fn lemma_count_add(a: Seq<SignalView>, b: Seq<SignalView>, x: SignalView)
    ensures
        (a + b).to_multiset().count(x) == a.to_multiset().count(x) + b.to_multiset().count(x),
{
    lemma_multiset_commutative(a, b);
}

proof fn lemma_count_one(x: SignalView, y: SignalView)
    ensures
        seq![y].to_multiset().count(x) == (if x == y {
            1nat
        } else {
            0
        }),
        Seq::<SignalView>::empty().to_multiset().count(x) == 0,
{
    broadcast use group_to_multiset_ensures;

    assert(seq![y] =~= Seq::empty().push(y));
}

proof fn lemma_count_two(x: SignalView, y: SignalView, z: SignalView)
    ensures
        seq![y, z].to_multiset().count(x) == seq![y].to_multiset().count(x) + seq![
            z,
        ].to_multiset().count(x),
{
    assert(seq![y, z] =~= seq![y] + seq![z]);
    lemma_count_add(seq![y], seq![z], x);
}

/// What the end of an attempt reports, signal by signal. An attempt that stored its object is
/// logged with its bucket and with its key, and counted, once each. An attempt that failed is
/// counted, and by its error code, and so is its object if no attempt failed before. The state of
/// delivery is reported where it changes, with the error code of the failure that it took. Nothing
/// else is reported: no other bucket, key or error code, and nothing twice.
pub proof fn law_report_of_an_attempt(
    health: DeliveryHealth,
    errored_before: bool,
    bucket: Seq<char>,
    key: Seq<char>,
    error_code: Option<Seq<char>>,
    x: SignalView,
)
    ensures
        ({
            let signals = concluded_signals(health, errored_before, bucket, key, error_code);
            let stored = error_code is None;
            let first = !stored && !errored_before;
            let recovers = stored && !health.up;
            let fails = !stored && health.up && health.consecutive_failures + 1 >= 3;
            let reported = match x {
                SignalView::Delivered { bucket: b } => stored && b == bucket,
                SignalView::Put { bucket: b, key: k } => stored && b == bucket && k == key,
                SignalView::Recovered { bucket: b } => recovers && b == bucket,
                SignalView::Failing { bucket: b, error_code: c } => fails && b == bucket
                    && error_code == Some(c),
                SignalView::DeliveryUp { up: true } => recovers,
                SignalView::DeliveryUp { up: false } => fails,
                SignalView::Count { counter: Counter::ObjectsDelivered, error_code: c } => stored
                    && c is None,
                SignalView::Count { counter: Counter::DeliveryErrors, error_code: c } => !stored
                    && c is None,
                SignalView::Count { counter: Counter::DeliveryErrorsByCode, error_code: c } =>
                    !stored && c == error_code,
                SignalView::Count { counter: Counter::ObjectsErrored, error_code: c } => first
                    && c is None,
                SignalView::Count { counter: Counter::ObjectsErroredByCode, error_code: c } => first
                    && c == error_code,
            };
            signals.to_multiset().count(x) == (if reported {
                1nat
            } else {
                0
            })
        }),
{
    let report = match error_code {
        None => delivered_signals(bucket, key),
        Some(code) => errored_signals(errored_before, code),
    };
    let transition = match error_code {
        None => health.success_signals(bucket),
        Some(code) => health.failure_signals(bucket, code),
    };
    lemma_count_add(report, transition, x);
    if report.len() == 3 {
        lemma_count_one(x, report[0]);
        lemma_count_one(x, report[1]);
        lemma_count_one(x, report[2]);
        lemma_count_two(x, report[0], report[1]);
        assert(report =~= seq![report[0], report[1]] + seq![report[2]]);
        lemma_count_add(seq![report[0], report[1]], seq![report[2]], x);
    } else {
        lemma_count_one(x, report[0]);
        lemma_count_one(x, report[1]);
        lemma_count_two(x, report[0], report[1]);
        if report.len() == 2 {
            assert(report =~= seq![report[0], report[1]]);
        } else {
            lemma_count_one(x, report[2]);
            lemma_count_one(x, report[3]);
            lemma_count_two(x, report[2], report[3]);
            assert(report =~= seq![report[0], report[1]] + seq![report[2], report[3]]);
            lemma_count_add(seq![report[0], report[1]], seq![report[2], report[3]], x);
        }
    }
    if transition.len() == 0 {
        assert(transition =~= Seq::empty());
        lemma_count_one(x, x);
    } else {
        lemma_count_one(x, transition[0]);
        lemma_count_one(x, transition[1]);
        lemma_count_two(x, transition[0], transition[1]);
        assert(transition =~= seq![transition[0], transition[1]]);
    }
}

proof fn lemma_attempts_count(attempts: Seq<Option<Seq<char>>>, x: Option<Seq<char>>)
    requires
        attempts.len() > 0,
    ensures
        attempts.to_multiset().count(x) == attempts.drop_last().to_multiset().count(x) + (if
        attempts.last() == x {
            1nat
        } else {
            0
        }),
{
    broadcast use group_to_multiset_ensures;

    assert(attempts =~= attempts.drop_last().push(attempts.last()));
}

/// Over any attempts to store an object, each attempt that stored it is logged once with its bucket
/// and once with its bucket and key, and counted once. Attempts that failed are not logged as
/// deliveries, and no delivery to another bucket or under another key is logged.
pub proof fn law_deliveries_are_logged(
    bucket: Seq<char>,
    key: Seq<char>,
    healths: Seq<DeliveryHealth>,
    attempts: Seq<Option<Seq<char>>>,
    b: Seq<char>,
    k: Seq<char>,
)
    ensures
        ({
            let signals = attempt_signals(bucket, key, healths, attempts).to_multiset();
            let stored = attempts.to_multiset().count(None);
            &&& signals.count(SignalView::Delivered { bucket: b }) == (if b == bucket {
                stored
            } else {
                0
            })
            &&& signals.count(SignalView::Put { bucket: b, key: k }) == (if b == bucket && k
                == key {
                stored
            } else {
                0
            })
            &&& signals.count(
                SignalView::Count { counter: Counter::ObjectsDelivered, error_code: None },
            ) == stored
        }),
    decreases attempts.len(),
{
    let delivered = SignalView::Delivered { bucket: b };
    let put = SignalView::Put { bucket: b, key: k };
    let counted = SignalView::Count { counter: Counter::ObjectsDelivered, error_code: None };
    if attempts.len() == 0 {
        broadcast use group_to_multiset_ensures;

    } else {
        let earlier = attempts.drop_last();
        let before = attempt_signals(bucket, key, healths, earlier);
        let health = healths[attempts.len() - 1];
        let errored = history_after(earlier).errored;
        let signals = concluded_signals(health, errored, bucket, key, attempts.last());
        law_deliveries_are_logged(bucket, key, healths, earlier, b, k);
        lemma_attempts_count(attempts, None);
        law_report_of_an_attempt(health, errored, bucket, key, attempts.last(), delivered);
        law_report_of_an_attempt(health, errored, bucket, key, attempts.last(), put);
        law_report_of_an_attempt(health, errored, bucket, key, attempts.last(), counted);
        lemma_count_add(before, signals, delivered);
        lemma_count_add(before, signals, put);
        lemma_count_add(before, signals, counted);
    }
}

/// Over any attempts to store an object, each attempt that failed is counted once, and once by its
/// error code. The object is counted once if an attempt failed, and once by the error code of the
/// first that did.
pub proof fn law_errors_are_counted(
    bucket: Seq<char>,
    key: Seq<char>,
    healths: Seq<DeliveryHealth>,
    attempts: Seq<Option<Seq<char>>>,
    code: Seq<char>,
)
    ensures
        ({
            let signals = attempt_signals(bucket, key, healths, attempts).to_multiset();
            let stored = attempts.to_multiset().count(None);
            let errored = exists|i: int|
                0 <= i < attempts.len() && (#[trigger] attempts[i]) is Some;
            let errored_with_code = exists|i: int|
                0 <= i < attempts.len() && (#[trigger] attempts[i]) == Some(code) && forall|j: int|
                    0 <= j < i ==> (#[trigger] attempts[j]) is None;
            &&& signals.count(
                SignalView::Count { counter: Counter::DeliveryErrors, error_code: None },
            ) + stored == attempts.len()
            &&& signals.count(
                SignalView::Count {
                    counter: Counter::DeliveryErrorsByCode,
                    error_code: Some(code),
                },
            ) == attempts.to_multiset().count(Some(code))
            &&& signals.count(
                SignalView::Count { counter: Counter::ObjectsErrored, error_code: None },
            ) == (if errored {
                1nat
            } else {
                0
            })
            &&& signals.count(
                SignalView::Count {
                    counter: Counter::ObjectsErroredByCode,
                    error_code: Some(code),
                },
            ) == (if errored_with_code {
                1nat
            } else {
                0
            })
            &&& history_after(attempts).errored <==> errored
        }),
    decreases attempts.len(),
{
    let attempt = SignalView::Count { counter: Counter::DeliveryErrors, error_code: None };
    let attempt_code = SignalView::Count {
        counter: Counter::DeliveryErrorsByCode,
        error_code: Some(code),
    };
    let object = SignalView::Count { counter: Counter::ObjectsErrored, error_code: None };
    let object_code = SignalView::Count {
        counter: Counter::ObjectsErroredByCode,
        error_code: Some(code),
    };
    if attempts.len() == 0 {
        broadcast use group_to_multiset_ensures;

    } else {
        let last = attempts.len() - 1;
        let earlier = attempts.drop_last();
        let before = attempt_signals(bucket, key, healths, earlier);
        let health = healths[last];
        let errored = history_after(earlier).errored;
        let signals = concluded_signals(health, errored, bucket, key, attempts.last());
        law_errors_are_counted(bucket, key, healths, earlier, code);
        lemma_attempts_count(attempts, None);
        lemma_attempts_count(attempts, Some(code));
        law_report_of_an_attempt(health, errored, bucket, key, attempts.last(), attempt);
        law_report_of_an_attempt(health, errored, bucket, key, attempts.last(), attempt_code);
        law_report_of_an_attempt(health, errored, bucket, key, attempts.last(), object);
        law_report_of_an_attempt(health, errored, bucket, key, attempts.last(), object_code);
        lemma_count_add(before, signals, attempt);
        lemma_count_add(before, signals, attempt_code);
        lemma_count_add(before, signals, object);
        lemma_count_add(before, signals, object_code);
        assert forall|i: int| 0 <= i < last implies earlier[i] == #[trigger] attempts[i] by {}
        assert(attempts[last] == attempts.last());
        if errored {
            let i = choose|i: int| 0 <= i < earlier.len() && (#[trigger] earlier[i]) is Some;
            assert(attempts[i] is Some);
            if exists|i: int|
                0 <= i < earlier.len() && (#[trigger] earlier[i]) == Some(code) && forall|j: int|
                    0 <= j < i ==> (#[trigger] earlier[j]) is None {
                let m = choose|m: int|
                    0 <= m < earlier.len() && (#[trigger] earlier[m]) == Some(code) && forall|
                        j: int,
                    |
                        0 <= j < m ==> (#[trigger] earlier[j]) is None;
                assert(attempts[m] == Some(code));
                assert forall|j: int| 0 <= j < m implies (#[trigger] attempts[j]) is None by {
                    assert(earlier[j] is None);
                }
            }
        } else {
            assert forall|j: int| 0 <= j < last implies (#[trigger] attempts[j]) is None by {
                assert(earlier[j] is None);
            }
        }
    }
}

/// The error code that a failure carries is what the failure is counted under and logged with,
/// letter for letter, and no other code is reported.
pub proof fn law_error_code_is_reported(
    health: DeliveryHealth,
    errored_before: bool,
    bucket: Seq<char>,
    key: Seq<char>,
    failure: PutObjectFailure,
    code: Seq<char>,
)
    requires
        failure.code is Some,
    ensures
        ({
            let signals = concluded_signals(
                health,
                errored_before,
                bucket,
                key,
                failure_label(Some(&failure)),
            ).to_multiset();
            let same = code == failure.code->0@;
            let fails = health.up && health.consecutive_failures + 1 >= 3;
            &&& signals.count(
                SignalView::Count {
                    counter: Counter::DeliveryErrorsByCode,
                    error_code: Some(code),
                },
            ) == (if same {
                1nat
            } else {
                0
            })
            &&& signals.count(
                SignalView::Count {
                    counter: Counter::ObjectsErroredByCode,
                    error_code: Some(code),
                },
            ) == (if same && !errored_before {
                1nat
            } else {
                0
            })
            &&& signals.count(SignalView::Failing { bucket, error_code: code }) == (if same
                && fails {
                1nat
            } else {
                0
            })
        }),
{
    let label = failure_label(Some(&failure));
    law_labels(failure);
    let counted = SignalView::Count {
        counter: Counter::DeliveryErrorsByCode,
        error_code: Some(code),
    };
    let object = SignalView::Count {
        counter: Counter::ObjectsErroredByCode,
        error_code: Some(code),
    };
    let failing = SignalView::Failing { bucket, error_code: code };
    law_report_of_an_attempt(health, errored_before, bucket, key, label, counted);
    law_report_of_an_attempt(health, errored_before, bucket, key, label, object);
    law_report_of_an_attempt(health, errored_before, bucket, key, label, failing);
}

/// The clone of a request for a retry stores the same object as the request: the same bytes, under
/// the same key of the same bucket, with the same options, checksum and events.
pub proof fn law_clones_store_the_same(
    request: S3Request,
    copy: S3Request,
    x: (PutObject, GroupedCountByteSize),
    y: (PutObject, GroupedCountByteSize),
)
    requires
        call_ensures(S3Request::clone, (&request,), copy),
        call_ensures(S3Request::into_put_object, (request,), x),
        call_ensures(S3Request::into_put_object, (copy,), y),
    ensures
        buffer_contents(x.0.body) == buffer_contents(request.body),
        buffer_contents(y.0.body) == buffer_contents(request.body),
        x.0.key@ == request.metadata.s3_key@,
        y.0.key@ == request.metadata.s3_key@,
        x.0.bucket@ == request.bucket@,
        y.0.bucket@ == request.bucket@,
        text_of(x.0.content_encoding) == text_of(y.0.content_encoding),
        x.0.content_type@ == y.0.content_type@,
        x.0.acl == y.0.acl,
        x.0.grant_full_control == y.0.grant_full_control,
        x.0.grant_read == y.0.grant_read,
        x.0.grant_read_acp == y.0.grant_read_acp,
        x.0.grant_write_acp == y.0.grant_write_acp,
        x.0.server_side_encryption == y.0.server_side_encryption,
        x.0.ssekms_key_id == y.0.ssekms_key_id,
        x.0.storage_class == y.0.storage_class,
        text_of(x.0.tagging) == text_of(y.0.tagging),
        x.0.content_md5@ == y.0.content_md5@,
        x.1.agrees(y.1),
{
}

/// Two bodies are sent with the same checksum exactly where their digests are the same: nothing of
/// the digest is lost.
pub proof fn law_checksums_tell_digests_apart(
    a: S3Request,
    b: S3Request,
    m: &[u8; 16],
    n: &[u8; 16],
    x: (PutObject, GroupedCountByteSize),
    y: (PutObject, GroupedCountByteSize),
)
    requires
        call_ensures(S3Request::into_put_object_with, (a, m), x),
        call_ensures(S3Request::into_put_object_with, (b, n), y),
    ensures
        x.0.content_md5@ == y.0.content_md5@ <==> m@ == n@,
{
    if x.0.content_md5@ == y.0.content_md5@ {
        law_base64_tells_data_apart(m@, n@);
    }
}

/// The answer to a request whose object was stored carries the size of its events, and one whose
/// object was not stored is answered with the error.
pub proof fn law_answers_to_requests<E>(
    result: Result<(), E>,
    size: GroupedCountByteSize,
    response: Result<S3Response, E>,
)
    requires
        call_ensures(respond::<E>, (result, size), response),
    ensures
        response is Ok <==> result is Ok,
        result matches Err(e) ==> response == Err::<S3Response, E>(e),
        response matches Ok(r) ==> r.size() == size && forall|sent: &GroupedCountByteSize|
            #[trigger] call_ensures(S3Response::events_sent, (&r,), sent) ==> *sent == size,
{
}

/// A clone of a request holds all that the request holds.
pub proof fn law_clones_keep_everything(request: S3Request, copy: S3Request)
    requires
        call_ensures(S3Request::clone, (&request,), copy),
    ensures
        buffer_contents(copy.body) == buffer_contents(request.body),
        copy.bucket@ == request.bucket@,
        copy.content_encoding == request.content_encoding,
        copy.metadata.s3_key@ == request.metadata.s3_key@,
        copy.metadata.partition_key == request.metadata.partition_key,
        copy.metadata.finalizers.batches@ == request.metadata.finalizers.batches@,
        copy.request_metadata.event_count == request.request_metadata.event_count,
        copy.request_metadata.events_byte_size == request.request_metadata.events_byte_size,
        copy.request_metadata.request_encoded_size == request.request_metadata.request_encoded_size,
        copy.request_metadata.request_wire_size == request.request_metadata.request_wire_size,
        copy.options.acl == request.options.acl,
        copy.options.grant_full_control == request.options.grant_full_control,
        copy.options.grant_read == request.options.grant_read,
        copy.options.grant_read_acp == request.options.grant_read_acp,
        copy.options.grant_write_acp == request.options.grant_write_acp,
        copy.options.server_side_encryption == request.options.server_side_encryption,
        copy.options.ssekms_key_id == request.options.ssekms_key_id,
        copy.options.storage_class == request.options.storage_class,
        copy.options.content_encoding == request.options.content_encoding,
        copy.options.content_type == request.options.content_type,
        copy.options.tags is Some <==> request.options.tags is Some,
        copy.options.tags matches Some(tags) ==> tags.pairs() == request.options.tags->0.pairs(),
{
}

/// The checksum of an object is that of its bytes: requests with the same bytes are sent with the
/// same checksum, and those with the same checksum have bytes of the same digest, digests being of
/// one length.
pub proof fn law_checksums_are_of_the_body(
    a: S3Request,
    b: S3Request,
    x: (PutObject, GroupedCountByteSize),
    y: (PutObject, GroupedCountByteSize),
)
    requires
        call_ensures(S3Request::into_put_object, (a,), x),
        call_ensures(S3Request::into_put_object, (b,), y),
    ensures
        buffer_contents(a.body) == buffer_contents(b.body) ==> x.0.content_md5@ == y.0.content_md5@,
        ({
            let m = md5_digest(buffer_contents(a.body));
            let n = md5_digest(buffer_contents(b.body));
            m.len() == n.len() ==> (x.0.content_md5@ == y.0.content_md5@ <==> m == n)
        }),
{
    let m = md5_digest(buffer_contents(a.body));
    let n = md5_digest(buffer_contents(b.body));
    if m.len() == n.len() && x.0.content_md5@ == y.0.content_md5@ {
        law_base64_tells_data_apart(m, n);
    }
}

/// A failure from an error of the client goes by the error code that the error carries, letter for
/// letter. One that carries none goes by the variant of the error, and is never taken for the end
/// of the time for a whole request.
pub proof fn law_failures_of_the_client(
    error: SdkError<PutObjectError, HttpResponse>,
    failure: PutObjectFailure,
)
    requires
        call_ensures(PutObjectFailure::from_sdk, (&error,), failure),
    ensures
        sdk_code(error) matches Some(code) ==> failure.label() == code,
        sdk_code(error) is None ==> {
            &&& error is TimeoutError ==> failure.label() == "timeout"@
            &&& error is DispatchFailure ==> failure.label() == "dispatch_failure"@
            &&& error is ResponseError ==> failure.label() == "response_error"@
            &&& error is ConstructionFailure ==> failure.label() == "construction_failure"@
            &&& error is ServiceError ==> failure.label() == "unknown"@
        },
        failure.kind != FailureKind::RequestTimeout,
{
    law_labels(failure);
}

/// In which order the end of an attempt is reported: the heartbeat of the bucket, the line of the
/// object, its count; or the counts of the failure; and what changes in the state of delivery last.
pub proof fn law_order_of_a_report(
    health: DeliveryHealth,
    errored_before: bool,
    bucket: Seq<char>,
    key: Seq<char>,
    error_code: Option<Seq<char>>,
)
    ensures
        ({
            let signals = concluded_signals(health, errored_before, bucket, key, error_code);
            &&& error_code is None ==> {
                &&& signals.len() == (if health.up {
                    3int
                } else {
                    5
                })
                &&& signals[0] == (SignalView::Delivered { bucket })
                &&& signals[1] == (SignalView::Put { bucket, key })
                &&& signals[2] is Count
                &&& !health.up ==> signals[3] == (SignalView::Recovered { bucket })
            }
            &&& error_code matches Some(code) ==> {
                let counts: int = if errored_before {
                    2
                } else {
                    4
                };
                &&& forall|i: int| 0 <= i < counts ==> (#[trigger] signals[i]) is Count
                &&& if health.up && health.consecutive_failures + 1 >= 3 {
                    &&& signals.len() == counts + 2
                    &&& signals[counts] == (SignalView::Failing { bucket, error_code: code })
                } else {
                    signals.len() == counts
                }
            }
        }),
{
}

} // verus!
