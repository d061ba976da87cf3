use aws_sdk_s3::error::ErrorMetadata;
use aws_sdk_s3::operation::put_object::PutObjectError;
use aws_smithy_runtime_api::client::orchestrator::HttpResponse;
use aws_smithy_runtime_api::client::result::{ConnectorError, SdkError};
use aws_smithy_runtime_api::http::StatusCode;
use aws_smithy_types::body::SdkBody;
use vector_delivery::s3::delivery::{conclude, report_delivered, report_errored, ObjectHistory};
use vector_delivery::s3::failure::{s3_error_code, FailureKind, PutObjectFailure};
use vector_delivery::s3::health::{DeliveryHealth, FAILURE_THRESHOLD, SUCCESS_THRESHOLD};
use vector_delivery::s3::signal::{
    registered_counters, Counter, LogLevel, LogTarget, Signal, DELIVERY_UP_GAUGE,
};

type Error = SdkError<PutObjectError, HttpResponse>;

fn answer(status: u16) -> HttpResponse {
    HttpResponse::new(StatusCode::try_from(status).unwrap(), SdkBody::empty())
}

fn refusal(code: Option<&str>) -> Error {
    let mut metadata = ErrorMetadata::builder();
    if let Some(code) = code {
        metadata = metadata.code(code);
    }
    SdkError::service_error(PutObjectError::generic(metadata.build()), answer(403))
}

fn denied() -> PutObjectFailure {
    PutObjectFailure {
        code: Some("AccessDenied".to_string()),
        kind: FailureKind::ServiceError,
    }
}

fn lines(signals: &[Signal]) -> Vec<String> {
    signals
        .iter()
        .map(|signal| match signal {
            Signal::DeliveryUp { up } => format!("{} {}", DELIVERY_UP_GAUGE, up),
            Signal::Count {
                counter,
                error_code: Some(code),
            } => format!("{} {}", counter.name(), code),
            Signal::Count {
                counter,
                error_code: None,
            } => counter.name().to_string(),
            log => log.message().unwrap().to_string(),
        })
        .collect()
}

#[test]
fn codes_of_answers_come_first() {
    assert_eq!(s3_error_code(&refusal(Some("AccessDenied"))), "AccessDenied");
    assert_eq!(s3_error_code(&refusal(Some("SlowDown"))), "SlowDown");
    assert_eq!(s3_error_code(&refusal(None)), "unknown");
}

#[test]
fn other_errors_have_the_label_of_their_class() {
    let timeout: Error = SdkError::timeout_error("late");
    let dispatch: Error = SdkError::dispatch_failure(ConnectorError::io("refused".into()));
    let response: Error = SdkError::response_error("cut off", answer(200));
    let construction: Error = SdkError::construction_failure("no bucket");
    assert_eq!(s3_error_code(&timeout), "timeout");
    assert_eq!(s3_error_code(&dispatch), "dispatch_failure");
    assert_eq!(s3_error_code(&response), "response_error");
    assert_eq!(s3_error_code(&construction), "construction_failure");
}

#[test]
fn failures_from_the_client() {
    let failure = PutObjectFailure::from_sdk(&refusal(Some("AccessDenied")));
    assert_eq!(failure.kind, FailureKind::ServiceError);
    assert_eq!(failure.code, Some("AccessDenied".to_string()));
    let failure = PutObjectFailure::from_sdk(&SdkError::timeout_error("late"));
    assert_eq!(failure.kind, FailureKind::TimeoutError);
    assert_eq!(failure.code, None);
}

#[test]
fn elapsed_requests_and_unrecognized_errors() {
    let elapsed = PutObjectFailure::request_timeout();
    assert_eq!(elapsed.error_code(), "Timeout");
    assert_eq!(elapsed.kind, FailureKind::RequestTimeout);
    assert_eq!(elapsed.code, None);
    let failure = PutObjectFailure {
        code: None,
        kind: FailureKind::Unrecognized,
    };
    assert_eq!(failure.error_code(), "unknown");
    let failure = PutObjectFailure {
        code: Some("SlowDown".to_string()),
        kind: FailureKind::TimeoutError,
    };
    assert_eq!(failure.error_code(), "SlowDown");
}

#[test]
fn a_new_sink_is_up() {
    let health = DeliveryHealth::new();
    assert!(health.up);
    assert_eq!(health.consecutive_failures, 0);
    assert_eq!(health.consecutive_successes, 0);
    assert_eq!(FAILURE_THRESHOLD, 3);
    assert_eq!(SUCCESS_THRESHOLD, 1);
}

#[test]
fn an_outage_is_reported_once_and_so_is_its_end() {
    let mut health = DeliveryHealth::new();
    assert!(health.record_failure("logs", "timeout").is_empty());
    assert!(health.record_failure("logs", "timeout").is_empty());
    assert!(health.up);
    let failing = health.record_failure("logs", "dispatch_failure");
    assert_eq!(
        lines(&failing),
        vec!["S3 delivery failing.", "aws_s3_delivery_up false"]
    );
    match &failing[0] {
        Signal::Failing { bucket, error_code } => {
            assert_eq!(bucket, "logs");
            assert_eq!(error_code, "dispatch_failure");
        }
        other => panic!("{:?}", other),
    }
    assert!(!health.up);
    assert!(health.record_failure("logs", "timeout").is_empty());
    let recovered = health.record_success("logs");
    assert_eq!(
        lines(&recovered),
        vec!["S3 delivery recovered.", "aws_s3_delivery_up true"]
    );
    assert!(health.up);
    assert!(health.record_success("logs").is_empty());
}

#[test]
fn short_runs_of_failures_are_absorbed() {
    let mut health = DeliveryHealth::new();
    for _ in 0..10 {
        assert!(health.record_failure("logs", "SlowDown").is_empty());
        assert!(health.record_failure("logs", "SlowDown").is_empty());
        assert!(health.record_success("logs").is_empty());
        assert!(health.up);
    }
}

#[test]
fn counts_stop_at_their_limit() {
    let mut health = DeliveryHealth {
        up: false,
        consecutive_failures: u32::MAX,
        consecutive_successes: 0,
    };
    assert!(health.record_failure("logs", "timeout").is_empty());
    assert_eq!(health.consecutive_failures, u32::MAX);
    let mut health = DeliveryHealth {
        up: true,
        consecutive_failures: 0,
        consecutive_successes: u32::MAX,
    };
    assert!(health.record_success("logs").is_empty());
    assert_eq!(health.consecutive_successes, u32::MAX);
}

#[test]
fn a_stored_object_is_reported() {
    assert_eq!(
        lines(&report_delivered("logs", "1.log")),
        vec![
            "Delivered object to S3-compatible storage.",
            "Put object to s3-compatible storage.",
            "aws_s3_objects_delivered_total",
        ]
    );
}

#[test]
fn an_object_errs_once_and_its_attempts_each_time() {
    let mut history = ObjectHistory::new();
    assert_eq!(
        lines(&report_errored(&mut history, &denied())),
        vec![
            "aws_s3_delivery_errors_total",
            "aws_s3_delivery_errors_count AccessDenied",
            "aws_s3_objects_errored_total",
            "aws_s3_objects_errored_count AccessDenied",
        ]
    );
    assert!(history.errored);
    assert_eq!(
        lines(&report_errored(&mut history, &PutObjectFailure::request_timeout())),
        vec![
            "aws_s3_delivery_errors_total",
            "aws_s3_delivery_errors_count Timeout",
        ]
    );
}

#[test]
fn log_lines_have_a_level_and_a_rate_limit() {
    let line = |signal: Signal| {
        signal
            .log_line()
            .map(|line| (line.level, line.target, line.rate_limit))
    };
    let bucket = "logs".to_string();
    assert_eq!(
        line(Signal::Delivered {
            bucket: bucket.clone()
        }),
        Some((LogLevel::Info, LogTarget::PutObject, Some(true)))
    );
    assert_eq!(
        line(Signal::Put {
            bucket: bucket.clone(),
            key: "1.log".to_string()
        }),
        Some((LogLevel::Trace, LogTarget::PutObject, None))
    );
    assert_eq!(
        line(Signal::Recovered {
            bucket: bucket.clone()
        }),
        Some((LogLevel::Info, LogTarget::Service, Some(false)))
    );
    assert_eq!(
        line(Signal::Failing {
            bucket,
            error_code: "timeout".to_string()
        }),
        Some((LogLevel::Warn, LogTarget::Service, Some(false)))
    );
    assert_eq!(line(Signal::DeliveryUp { up: true }), None);
    assert_eq!(
        line(Signal::Count {
            counter: Counter::DeliveryErrors,
            error_code: None
        }),
        None
    );
}

#[test]
fn gauge_values_alternate_over_buckets_and_objects() {
    let mut health = DeliveryHealth::new();
    let mut signals: Vec<Signal> = Vec::new();
    for (i, stored) in [false, false, false, false, true, true, false, false, false, true]
        .into_iter()
        .enumerate()
    {
        let bucket = format!("bucket-{}", i % 2);
        let mut history = ObjectHistory {
            errored: i % 3 == 0,
        };
        let failure = denied();
        let failure = if stored { None } else { Some(&failure) };
        signals.extend(conclude(&mut health, &mut history, &bucket, "1.log", failure));
    }
    let transitions: Vec<String> = lines(&signals)
        .into_iter()
        .filter(|line| line.starts_with("S3 delivery") || line.starts_with(DELIVERY_UP_GAUGE))
        .collect();
    assert_eq!(
        transitions,
        vec![
            "S3 delivery failing.",
            "aws_s3_delivery_up false",
            "S3 delivery recovered.",
            "aws_s3_delivery_up true",
            "S3 delivery failing.",
            "aws_s3_delivery_up false",
            "S3 delivery recovered.",
            "aws_s3_delivery_up true",
        ]
    );
}

#[test]
fn attempts_are_concluded() {
    let mut health = DeliveryHealth::new();
    for attempt in 1..=3 {
        let mut history = ObjectHistory::new();
        let signals = conclude(&mut health, &mut history, "logs", "1.log", Some(&denied()));
        assert_eq!(signals.len(), if attempt < 3 { 4 } else { 6 });
        assert!(history.errored);
    }
    assert!(!health.up);
    let mut history = ObjectHistory { errored: true };
    assert_eq!(
        lines(&conclude(&mut health, &mut history, "logs", "1.log", None)),
        vec![
            "Delivered object to S3-compatible storage.",
            "Put object to s3-compatible storage.",
            "aws_s3_objects_delivered_total",
            "S3 delivery recovered.",
            "aws_s3_delivery_up true",
        ]
    );
    assert!(health.up);
}

#[test]
fn counters_without_a_code_are_registered() {
    assert_eq!(
        registered_counters(),
        vec![
            Counter::ObjectsDelivered,
            Counter::ObjectsErrored,
            Counter::DeliveryErrors
        ]
    );
}
