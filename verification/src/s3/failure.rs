//! Why an object was not stored.

use crate::s3::sdk::{sdk_code, service_code};
use crate::text::text_of;
use aws_sdk_s3::operation::put_object::PutObjectError;
use aws_smithy_runtime_api::client::orchestrator::HttpResponse;
use aws_smithy_runtime_api::client::result::SdkError;
use vstd::prelude::*;

verus! {

/// Where an attempt to store an object failed.
#[derive(Clone, Copy, Debug, PartialEq, Eq, Structural)]
pub enum FailureKind {
    /// The request could not be built. It was not sent.
    ConstructionFailure,
    /// The client gave up waiting for an answer.
    TimeoutError,
    /// No answer was received.
    DispatchFailure,
    /// An answer was received that makes no sense.
    ResponseError,
    /// The service answered with an error.
    ServiceError,
    /// The time for the whole request, `request.timeout_secs`, elapsed.
    RequestTimeout,
    /// Something else.
    Unrecognized,
}

/// A failed attempt to store an object.
#[derive(Clone, Debug)]
pub struct PutObjectFailure {
    /// The error code of the S3 API, such as `AccessDenied`, where the service gave one.
    pub code: Option<String>,
    pub kind: FailureKind,
}

/// The coarse class of a failure that has no error code.
pub open spec fn class_label(kind: FailureKind) -> Seq<char> {
    match kind {
        FailureKind::TimeoutError => "timeout"@,
        FailureKind::DispatchFailure => "dispatch_failure"@,
        FailureKind::ResponseError => "response_error"@,
        FailureKind::ConstructionFailure => "construction_failure"@,
        FailureKind::RequestTimeout => "Timeout"@,
        FailureKind::ServiceError => "unknown"@,
        FailureKind::Unrecognized => "unknown"@,
    }
}

impl PutObjectFailure {
    /// The label that stands for the failure in logs and metrics.
    pub open spec fn label(self) -> Seq<char> {
        match text_of(self.code) {
            Some(code) => code,
            None => class_label(self.kind),
        }
    }
}

impl PutObjectFailure {
    /// Gives the failure a label of low cardinality.
    ///
    /// The error code of the S3 API comes first. Failures that have none, such as those of a
    /// destination that is down, are told apart by a coarse class, so that an outage is
    /// distinguishable from a permission error.
    pub fn error_code(&self) -> (label: String)
        ensures
            label@ == self.label(),
            self.code matches Some(code) ==> label@ == code@,
            self.code is None && self.kind == FailureKind::TimeoutError ==> label@ == "timeout"@,
            self.code is None && self.kind == FailureKind::DispatchFailure ==> label@
                == "dispatch_failure"@,
            self.code is None && self.kind == FailureKind::ResponseError ==> label@
                == "response_error"@,
            self.code is None && self.kind == FailureKind::ConstructionFailure ==> label@
                == "construction_failure"@,
            self.code is None && self.kind == FailureKind::RequestTimeout ==> label@ == "Timeout"@,
            self.code is None && self.kind == FailureKind::ServiceError ==> label@ == "unknown"@,
            self.code is None && self.kind == FailureKind::Unrecognized ==> label@ == "unknown"@,
    {
        if let Some(code) = &self.code {
            return code.clone();
        }
        let class = match self.kind {
            FailureKind::TimeoutError => "timeout",
            FailureKind::DispatchFailure => "dispatch_failure",
            FailureKind::ResponseError => "response_error",
            FailureKind::ConstructionFailure => "construction_failure",
            FailureKind::RequestTimeout => "Timeout",
            FailureKind::ServiceError => "unknown",
            FailureKind::Unrecognized => "unknown",
        };
        class.to_owned()
    }

    /// The failure of an attempt for which `request.timeout_secs` elapsed.
    pub fn request_timeout() -> (failure: PutObjectFailure)
        ensures
            failure.kind == FailureKind::RequestTimeout,
            failure.code is None,
            failure.label() == "Timeout"@,
    {
        PutObjectFailure { code: None, kind: FailureKind::RequestTimeout }
    }

    /// The failure of an attempt that ended in an error of the client.
    pub fn from_sdk(error: &SdkError<PutObjectError, HttpResponse>) -> (failure: PutObjectFailure)
        ensures
            failure.kind == sdk_kind(*error),
            text_of(failure.code) == sdk_code(*error),
            error !is ServiceError ==> failure.code is None,
            failure.code is Some <==> sdk_code(*error) is Some,
            failure.code matches Some(code) ==> Some(code@) == sdk_code(*error),
            error is ConstructionFailure <==> failure.kind == FailureKind::ConstructionFailure,
            error is TimeoutError <==> failure.kind == FailureKind::TimeoutError,
            error is DispatchFailure <==> failure.kind == FailureKind::DispatchFailure,
            error is ResponseError <==> failure.kind == FailureKind::ResponseError,
            error is ServiceError <==> failure.kind == FailureKind::ServiceError,
            failure.kind != FailureKind::RequestTimeout,
    {
        let kind = match error {
            SdkError::ConstructionFailure(_) => FailureKind::ConstructionFailure,
            SdkError::TimeoutError(_) => FailureKind::TimeoutError,
            SdkError::DispatchFailure(_) => FailureKind::DispatchFailure,
            SdkError::ResponseError(_) => FailureKind::ResponseError,
            SdkError::ServiceError(_) => FailureKind::ServiceError,
            _ => FailureKind::Unrecognized,
        };
        PutObjectFailure { code: service_code(error), kind }
    }
}

/// Where an attempt that ended in an error of the client failed.
pub open spec fn sdk_kind(error: SdkError<PutObjectError, HttpResponse>) -> FailureKind {
    match error {
        SdkError::ConstructionFailure(_) => FailureKind::ConstructionFailure,
        SdkError::TimeoutError(_) => FailureKind::TimeoutError,
        SdkError::DispatchFailure(_) => FailureKind::DispatchFailure,
        SdkError::ResponseError(_) => FailureKind::ResponseError,
        SdkError::ServiceError(_) => FailureKind::ServiceError,
        _ => FailureKind::Unrecognized,
    }
}

/// Extracts a label of low cardinality from an error of the client.
///
/// The error code that the error carries comes first, letter for letter. An error that carries
/// none has the label of its class, and so has every error that is no answer of the service.
pub fn s3_error_code(error: &SdkError<PutObjectError, HttpResponse>) -> (label: String)
    ensures
        label@ == (match sdk_code(*error) {
            Some(code) => code,
            None => class_label(sdk_kind(*error)),
        }),
        error !is ServiceError ==> label@ == class_label(sdk_kind(*error)),
        sdk_code(*error) matches Some(code) ==> label@ == code,
        error is TimeoutError ==> label@ == "timeout"@,
        error is DispatchFailure ==> label@ == "dispatch_failure"@,
        error is ResponseError ==> label@ == "response_error"@,
        error is ConstructionFailure ==> label@ == "construction_failure"@,
        error is ServiceError && sdk_code(*error) is None ==> label@ == "unknown"@,
{
    PutObjectFailure::from_sdk(error).error_code()
}

} // verus!
