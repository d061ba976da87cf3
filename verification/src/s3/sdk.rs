//! The error type of the S3 client.

use crate::text::text_of;
use aws_sdk_s3::error::ProvideErrorMetadata;
use aws_sdk_s3::operation::put_object::PutObjectError;
use aws_smithy_runtime_api::client::orchestrator::HttpResponse;
use aws_smithy_runtime_api::client::result::SdkError;
use vstd::prelude::*;

verus! {

/// The variants of the error are visible; what they hold is not.
#[verifier::external_type_specification]
#[verifier::reject_recursive_types(E)]
#[verifier::reject_recursive_types(R)]
pub struct ExSdkError<E, R>(aws_smithy_runtime_api::client::result::SdkError<E, R>);

#[verifier::external_type_specification]
#[verifier::external_body]
pub struct ExConstructionFailure(aws_smithy_runtime_api::client::result::ConstructionFailure);

#[verifier::external_type_specification]
#[verifier::external_body]
pub struct ExTimeoutError(aws_smithy_runtime_api::client::result::TimeoutError);

#[verifier::external_type_specification]
#[verifier::external_body]
pub struct ExDispatchFailure(aws_smithy_runtime_api::client::result::DispatchFailure);

#[verifier::external_type_specification]
#[verifier::external_body]
#[verifier::reject_recursive_types(R)]
pub struct ExResponseError<R>(aws_smithy_runtime_api::client::result::ResponseError<R>);

#[verifier::external_type_specification]
#[verifier::external_body]
#[verifier::reject_recursive_types(E)]
#[verifier::reject_recursive_types(R)]
pub struct ExServiceError<E, R>(aws_smithy_runtime_api::client::result::ServiceError<E, R>);

#[verifier::external_type_specification]
#[verifier::external_body]
pub struct ExPutObjectError(aws_sdk_s3::operation::put_object::PutObjectError);

#[verifier::external_type_specification]
#[verifier::external_body]
#[verifier::reject_recursive_types(B)]
pub struct ExResponse<B>(aws_smithy_runtime_api::http::Response<B>);

#[verifier::external_type_specification]
#[verifier::external_body]
pub struct ExSdkBody(aws_smithy_types::body::SdkBody);

/// The error code that an error of `PutObject` carries, as `code` of
/// `aws_sdk_s3::error::ProvideErrorMetadata` reads it.
pub uninterp spec fn sdk_code(error: SdkError<PutObjectError, HttpResponse>) -> Option<Seq<char>>;

/// Calls `code` of `aws_sdk_s3::error::ProvideErrorMetadata` on an error of `PutObject`.
///
/// Trusted: the call reads the code that the error carries. An error that is no answer of the
/// service carries none.
#[verifier::external_body]
pub(crate) fn service_code(error: &SdkError<PutObjectError, HttpResponse>) -> (code: Option<String>)
    ensures
        text_of(code) == sdk_code(*error),
        error !is ServiceError ==> code is None,
{
    error.code().map(str::to_string)
}

} // verus!
