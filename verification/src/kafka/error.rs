//! Why Kafka authentication settings are refused.

use crate::kafka::path::FilePath;
use vstd::prelude::*;

verus! {

/// An error of the Kafka authentication settings.
#[derive(Clone, Debug)]
pub enum KafkaError {
    /// A file path of the TLS settings is not valid Unicode.
    InvalidPath { path: FilePath },
    /// Both AWS MSK IAM authentication and SASL authentication are enabled.
    MskIamSaslConflict,
    /// AWS MSK IAM authentication is enabled and TLS is disabled.
    MskIamTlsRequired,
}

impl KafkaError {
    /// The text of the error message.
    ///
    /// An [`KafkaError::InvalidPath`] message goes on with the path, quoted.
    pub open spec fn text(self) -> Seq<char> {
        match self {
            KafkaError::InvalidPath { .. } => "invalid path: "@,
            KafkaError::MskIamSaslConflict =>
                "`msk_iam` cannot be combined with `sasl`; AWS MSK IAM authentication configures SASL automatically"@,
            KafkaError::MskIamTlsRequired =>
                "`msk_iam` requires TLS; `tls.enabled` must not be set to false"@,
        }
    }

    /// The text of the error message, up to the path that an [`KafkaError::InvalidPath`] message
    /// quotes at its end.
    pub fn message(&self) -> (message: &'static str)
        ensures
            message@ == self.text(),
            self is InvalidPath ==> message@ == "invalid path: "@,
            self is MskIamSaslConflict ==> message@
                == "`msk_iam` cannot be combined with `sasl`; AWS MSK IAM authentication configures SASL automatically"@,
            self is MskIamTlsRequired ==> message@
                == "`msk_iam` requires TLS; `tls.enabled` must not be set to false"@,
    {
        match self {
            KafkaError::InvalidPath { .. } => "invalid path: ",
            KafkaError::MskIamSaslConflict =>
                "`msk_iam` cannot be combined with `sasl`; AWS MSK IAM authentication configures SASL automatically",
            KafkaError::MskIamTlsRequired =>
                "`msk_iam` requires TLS; `tls.enabled` must not be set to false",
        }
    }
}

/// The reasons for a refusal read differently: each says what is wrong.
pub proof fn law_refusals_read_differently(a: KafkaError, b: KafkaError)
    ensures
        a.text() == b.text() <==> (a is InvalidPath <==> b is InvalidPath) && (
        a is MskIamSaslConflict <==> b is MskIamSaslConflict),
        a is InvalidPath ==> a.text() == "invalid path: "@,
        a is MskIamSaslConflict ==> a.text()
            == "`msk_iam` cannot be combined with `sasl`; AWS MSK IAM authentication configures SASL automatically"@,
        a is MskIamTlsRequired ==> a.text()
            == "`msk_iam` requires TLS; `tls.enabled` must not be set to false"@,
{
    reveal_strlit("invalid path: ");
    reveal_strlit(
        "`msk_iam` cannot be combined with `sasl`; AWS MSK IAM authentication configures SASL automatically",
    );
    reveal_strlit("`msk_iam` requires TLS; `tls.enabled` must not be set to false");
    assert("invalid path: "@.len() == 14);
    assert("`msk_iam` requires TLS; `tls.enabled` must not be set to false"@.len() == 62);
}

} // verus!
