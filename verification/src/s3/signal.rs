//! What is reported to logs and metrics.

use vstd::prelude::*;

verus! {

/// The gauge that is 1 while delivery is up and 0 while it is down.
pub const DELIVERY_UP_GAUGE: &'static str = "aws_s3_delivery_up";

/// A counter of delivery.
#[derive(Clone, Copy, Debug, PartialEq, Eq, Structural)]
pub enum Counter {
    /// Objects that were stored.
    ObjectsDelivered,
    /// Attempts to store an object that ended in an error.
    DeliveryErrors,
    /// The same attempts, by error code.
    DeliveryErrorsByCode,
    /// Objects of which at least one attempt ended in an error.
    ObjectsErrored,
    /// The same objects, by the code of their first error.
    ObjectsErroredByCode,
}

impl Counter {
    /// The name under which the counter is exported.
    pub open spec fn metric(self) -> Seq<char> {
        match self {
            Counter::ObjectsDelivered => "aws_s3_objects_delivered_total"@,
            Counter::DeliveryErrors => "aws_s3_delivery_errors_total"@,
            Counter::DeliveryErrorsByCode => "aws_s3_delivery_errors_count"@,
            Counter::ObjectsErrored => "aws_s3_objects_errored_total"@,
            Counter::ObjectsErroredByCode => "aws_s3_objects_errored_count"@,
        }
    }

    /// The name under which the counter is exported.
    pub fn name(&self) -> (name: &'static str)
        ensures
            name@ == self.metric(),
            self is ObjectsDelivered ==> name@ == "aws_s3_objects_delivered_total"@,
            self is DeliveryErrors ==> name@ == "aws_s3_delivery_errors_total"@,
            self is DeliveryErrorsByCode ==> name@ == "aws_s3_delivery_errors_count"@,
            self is ObjectsErrored ==> name@ == "aws_s3_objects_errored_total"@,
            self is ObjectsErroredByCode ==> name@ == "aws_s3_objects_errored_count"@,
    {
        match self {
            Counter::ObjectsDelivered => "aws_s3_objects_delivered_total",
            Counter::DeliveryErrors => "aws_s3_delivery_errors_total",
            Counter::DeliveryErrorsByCode => "aws_s3_delivery_errors_count",
            Counter::ObjectsErrored => "aws_s3_objects_errored_total",
            Counter::ObjectsErroredByCode => "aws_s3_objects_errored_count",
        }
    }

    /// Whether the counter carries an `error_code` label.
    pub open spec fn has_error_code(self) -> bool {
        self == Counter::DeliveryErrorsByCode || self == Counter::ObjectsErroredByCode
    }
}

/// The counters that are registered at zero when a sink is configured.
///
/// Those with an `error_code` label are not among them: the codes are not known in advance.
pub fn registered_counters() -> (counters: Vec<Counter>)
    ensures
        counters@ == seq![
            Counter::ObjectsDelivered,
            Counter::ObjectsErrored,
            Counter::DeliveryErrors,
        ],
        forall|counter: Counter| counters@.contains(counter) <==> !counter.has_error_code(),
{
    let counters = vec![
        Counter::ObjectsDelivered,
        Counter::ObjectsErrored,
        Counter::DeliveryErrors,
    ];
    proof {
        assert(counters@[0] == Counter::ObjectsDelivered);
        assert(counters@[1] == Counter::ObjectsErrored);
        assert(counters@[2] == Counter::DeliveryErrors);
    }
    counters
}

/// How urgent a log line is.
#[derive(Clone, Copy, Debug, PartialEq, Eq, Structural)]
pub enum LogLevel {
    Trace,
    Info,
    Warn,
}

/// What a log line belongs to.
#[derive(Clone, Copy, Debug, PartialEq, Eq, Structural)]
pub enum LogTarget {
    /// The storing of single objects.
    PutObject,
    /// The service as a whole.
    Service,
}

/// How a log line is written.
#[derive(Clone, Copy, Debug, PartialEq, Eq)]
pub struct LogLine {
    pub level: LogLevel,
    pub target: LogTarget,
    /// Whether the rate of such lines is limited, where the line says so.
    pub rate_limit: Option<bool>,
}

/// Something to report.
#[derive(Clone, Debug)]
pub enum Signal {
    /// A rate-limited log line: an object was stored in the bucket.
    Delivered { bucket: String },
    /// A trace line: the object with this key was stored.
    Put { bucket: String, key: String },
    /// A log line: delivery works again.
    Recovered { bucket: String },
    /// A warning: delivery fails, last with this error code.
    Failing { bucket: String, error_code: String },
    /// The value of the gauge of delivery.
    DeliveryUp { up: bool },
    /// A counter goes up by one.
    Count { counter: Counter, error_code: Option<String> },
}

/// A [`Signal`] with its texts as sequences.
pub enum SignalView {
    Delivered { bucket: Seq<char> },
    Put { bucket: Seq<char>, key: Seq<char> },
    Recovered { bucket: Seq<char> },
    Failing { bucket: Seq<char>, error_code: Seq<char> },
    DeliveryUp { up: bool },
    Count { counter: Counter, error_code: Option<Seq<char>> },
}

impl View for Signal {
    type V = SignalView;

    open spec fn view(&self) -> SignalView {
        match *self {
            Signal::Delivered { bucket } => SignalView::Delivered { bucket: bucket@ },
            Signal::Put { bucket, key } => SignalView::Put { bucket: bucket@, key: key@ },
            Signal::Recovered { bucket } => SignalView::Recovered { bucket: bucket@ },
            Signal::Failing { bucket, error_code } => SignalView::Failing {
                bucket: bucket@,
                error_code: error_code@,
            },
            Signal::DeliveryUp { up } => SignalView::DeliveryUp { up },
            Signal::Count { counter, error_code } => SignalView::Count {
                counter,
                error_code: match error_code {
                    Some(code) => Some(code@),
                    None => None,
                },
            },
        }
    }
}

/// The views of signals.
pub open spec fn views(signals: Seq<Signal>) -> Seq<SignalView> {
    signals.map_values(|signal: Signal| signal@)
}

impl SignalView {
    /// The message of a log line.
    pub open spec fn message(self) -> Option<Seq<char>> {
        match self {
            SignalView::Delivered { .. } => Some("Delivered object to S3-compatible storage."@),
            SignalView::Put { .. } => Some("Put object to s3-compatible storage."@),
            SignalView::Recovered { .. } => Some("S3 delivery recovered."@),
            SignalView::Failing { .. } => Some("S3 delivery failing."@),
            SignalView::DeliveryUp { .. } => None,
            SignalView::Count { .. } => None,
        }
    }

    /// How the signal is written to the log, where it is a log line.
    ///
    /// A line for each stored object is rate-limited, so that it is a heartbeat of the sink. A
    /// change of the state of delivery is never held back.
    pub open spec fn log_line(self) -> Option<LogLine> {
        match self {
            SignalView::Delivered { .. } => Some(
                LogLine {
                    level: LogLevel::Info,
                    target: LogTarget::PutObject,
                    rate_limit: Some(true),
                },
            ),
            SignalView::Put { .. } => Some(
                LogLine {
                    level: LogLevel::Trace,
                    target: LogTarget::PutObject,
                    rate_limit: None,
                },
            ),
            SignalView::Recovered { .. } => Some(
                LogLine {
                    level: LogLevel::Info,
                    target: LogTarget::Service,
                    rate_limit: Some(false),
                },
            ),
            SignalView::Failing { .. } => Some(
                LogLine {
                    level: LogLevel::Warn,
                    target: LogTarget::Service,
                    rate_limit: Some(false),
                },
            ),
            SignalView::DeliveryUp { .. } => None,
            SignalView::Count { .. } => None,
        }
    }
}

impl Signal {
    /// How the signal is written to the log, where it is a log line.
    pub fn log_line(&self) -> (line: Option<LogLine>)
        ensures
            line == self@.log_line(),
            line is Some <==> self is Delivered || self is Put || self is Recovered
                || self is Failing,
            line matches Some(l) ==> {
                &&& l.level == LogLevel::Trace <==> self is Put
                &&& l.level == LogLevel::Warn <==> self is Failing
                &&& l.target == LogTarget::PutObject <==> self is Delivered || self is Put
                &&& l.rate_limit == Some(true) <==> self is Delivered
                &&& l.rate_limit == Some(false) <==> self is Recovered || self is Failing
            },
    {
        let (level, target, rate_limit) = match self {
            Signal::Delivered { .. } => (LogLevel::Info, LogTarget::PutObject, Some(true)),
            Signal::Put { .. } => (LogLevel::Trace, LogTarget::PutObject, None),
            Signal::Recovered { .. } => (LogLevel::Info, LogTarget::Service, Some(false)),
            Signal::Failing { .. } => (LogLevel::Warn, LogTarget::Service, Some(false)),
            Signal::DeliveryUp { .. } => return None,
            Signal::Count { .. } => return None,
        };
        Some(LogLine { level, target, rate_limit })
    }

    /// The message, where the signal is a log line.
    pub fn message(&self) -> (message: Option<&'static str>)
        ensures
            match message {
                Some(m) => self@.message() == Some(m@),
                None => self@.message() is None,
            },
            message is Some <==> self is Delivered || self is Put || self is Recovered
                || self is Failing,
            self is Delivered ==> message->0@ == "Delivered object to S3-compatible storage."@,
            self is Put ==> message->0@ == "Put object to s3-compatible storage."@,
            self is Recovered ==> message->0@ == "S3 delivery recovered."@,
            self is Failing ==> message->0@ == "S3 delivery failing."@,
    {
        match self {
            Signal::Delivered { .. } => Some("Delivered object to S3-compatible storage."),
            Signal::Put { .. } => Some("Put object to s3-compatible storage."),
            Signal::Recovered { .. } => Some("S3 delivery recovered."),
            Signal::Failing { .. } => Some("S3 delivery failing."),
            Signal::DeliveryUp { .. } => None,
            Signal::Count { .. } => None,
        }
    }
}

/// No two counters are exported under one name.
pub proof fn law_counters_have_names_of_their_own(a: Counter, b: Counter)
    ensures
        a.metric() == b.metric() <==> a == b,
        a.has_error_code() <==> a == Counter::DeliveryErrorsByCode || a
            == Counter::ObjectsErroredByCode,
{
    reveal_strlit("aws_s3_objects_delivered_total");
    reveal_strlit("aws_s3_delivery_errors_total");
    reveal_strlit("aws_s3_delivery_errors_count");
    reveal_strlit("aws_s3_objects_errored_total");
    reveal_strlit("aws_s3_objects_errored_count");
    assert("aws_s3_objects_delivered_total"@.len() == 30);
    assert("aws_s3_delivery_errors_total"@.len() == 28);
    assert("aws_s3_delivery_errors_count"@.len() == 28);
    assert("aws_s3_objects_errored_total"@.len() == 28);
    assert("aws_s3_objects_errored_count"@.len() == 28);
    assert("aws_s3_delivery_errors_total"@[7] == 'd' && "aws_s3_delivery_errors_count"@[7] == 'd');
    assert("aws_s3_objects_errored_total"@[7] == 'o' && "aws_s3_objects_errored_count"@[7] == 'o');
    assert("aws_s3_delivery_errors_total"@[23] == 't' && "aws_s3_delivery_errors_count"@[23]
        == 'c');
    assert("aws_s3_objects_errored_total"@[23] == 't' && "aws_s3_objects_errored_count"@[23]
        == 'c');
}

/// Exactly the log lines have a message and are written to the log. A line for each stored object
/// is the only one whose rate is limited, a change of the state of delivery is never held back,
/// and only an outage is a warning.
pub proof fn law_log_lines(signal: SignalView)
    ensures
        signal.log_line() is Some <==> signal.message() is Some,
        signal.log_line() is None <==> signal is DeliveryUp || signal is Count,
        signal.log_line() matches Some(line) ==> {
            &&& line.level == LogLevel::Trace <==> signal is Put
            &&& line.level == LogLevel::Info <==> signal is Delivered || signal is Recovered
            &&& line.level == LogLevel::Warn <==> signal is Failing
            &&& line.target == LogTarget::PutObject <==> signal is Delivered || signal is Put
            &&& line.rate_limit == Some(true) <==> signal is Delivered
            &&& line.rate_limit == Some(false) <==> signal is Recovered || signal is Failing
        },
        signal is Delivered ==> signal.message() == Some(
            "Delivered object to S3-compatible storage."@,
        ),
        signal is Put ==> signal.message() == Some("Put object to s3-compatible storage."@),
        signal is Recovered ==> signal.message() == Some("S3 delivery recovered."@),
        signal is Failing ==> signal.message() == Some("S3 delivery failing."@),
{
}

} // verus!
