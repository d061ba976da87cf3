//! The Kafka options that a user sets.

use crate::kafka::path::FilePath;
use vstd::prelude::*;

verus! {

/// Supported compression types for Kafka.
#[derive(Clone, Copy, Debug)]
pub enum KafkaCompression {
    /// No compression.
    Uncompressed,
    /// Gzip.
    Gzip,
    /// Snappy.
    Snappy,
    /// LZ4.
    Lz4,
    /// Zstandard.
    Zstd,
}

impl Default for KafkaCompression {
    fn default() -> (compression: KafkaCompression)
        ensures
            compression == KafkaCompression::Uncompressed,
    {
        KafkaCompression::Uncompressed
    }
}

/// Kafka authentication configuration.
#[derive(Clone)]
pub struct KafkaAuthConfig {
    pub sasl: Option<KafkaSaslConfig>,
    pub tls: Option<TlsEnableableConfig>,
    pub msk_iam: Option<KafkaMskIamConfig>,
}

impl Default for KafkaAuthConfig {
    fn default() -> (config: KafkaAuthConfig)
        ensures
            config == (KafkaAuthConfig { sasl: None, tls: None, msk_iam: None }),
    {
        KafkaAuthConfig { sasl: None, tls: None, msk_iam: None }
    }
}

/// Configuration for SASL authentication when interacting with Kafka.
#[derive(Clone)]
pub struct KafkaSaslConfig {
    /// Enables SASL authentication.
    ///
    /// Only `PLAIN`- and `SCRAM`-based mechanisms are supported here; other mechanisms are
    /// configured through the options of `librdkafka` itself.
    pub enabled: Option<bool>,
    /// The SASL username.
    pub username: Option<String>,
    /// The SASL password.
    pub password: Option<SensitiveString>,
    /// The SASL mechanism to use.
    pub mechanism: Option<String>,
}

impl Default for KafkaSaslConfig {
    fn default() -> (config: KafkaSaslConfig)
        ensures
            config == (KafkaSaslConfig {
                enabled: None,
                username: None,
                password: None,
                mechanism: None,
            }),
    {
        KafkaSaslConfig { enabled: None, username: None, password: None, mechanism: None }
    }
}

/// Text that is kept out of logs: the type has no textual form of its own.
#[derive(Clone)]
pub struct SensitiveString {
    text: String,
}

impl View for SensitiveString {
    type V = Seq<char>;

    closed spec fn view(&self) -> Seq<char> {
        self.text@
    }
}

impl SensitiveString {
    pub fn new(text: String) -> (sensitive: SensitiveString)
        ensures
            sensitive@ == text@,
    {
        SensitiveString { text }
    }

    /// The text itself.
    pub fn inner(&self) -> (text: &str)
        ensures
            text@ == self@,
    {
        self.text.as_str()
    }
}

/// Configuration for AWS MSK IAM authentication.
///
/// When set, clients authenticate to the cluster using SASL `OAUTHBEARER` tokens signed with the
/// AWS credentials from the default credentials provider chain.
///
/// AWS MSK IAM authentication requires TLS, so `tls` must not be disabled. It cannot be combined
/// with `sasl`.
#[derive(Clone, Debug)]
pub struct KafkaMskIamConfig {
    /// The AWS region of the MSK cluster.
    pub region: String,
}

/// TLS configuration with a switch.
#[derive(Clone)]
pub struct TlsEnableableConfig {
    /// Whether to require TLS.
    pub enabled: Option<bool>,
    pub options: TlsConfig,
}

impl Default for TlsEnableableConfig {
    fn default() -> (config: TlsEnableableConfig)
        ensures
            config.enabled is None,
            config.options.is_unset(),
            config.options.verify_certificate is None,
            config.options.verify_hostname is None,
            config.options.ca_file is None,
            config.options.crt_file is None,
            config.options.key_file is None,
            config.options.key_pass is None,
    {
        TlsEnableableConfig { enabled: None, options: TlsConfig::default() }
    }
}

/// TLS options of a client.
///
/// A file is given by its path, or in place of the path by its content in PEM format.
#[derive(Clone)]
pub struct TlsConfig {
    /// Whether the certificate of the peer is verified.
    pub verify_certificate: Option<bool>,
    /// Whether the name in the certificate of the peer is verified.
    pub verify_hostname: Option<bool>,
    /// The certificate authorities to trust.
    pub ca_file: Option<FilePath>,
    /// The certificate of the client.
    pub crt_file: Option<FilePath>,
    /// The private key of the client.
    pub key_file: Option<FilePath>,
    /// The passphrase of the private key.
    pub key_pass: Option<String>,
}

impl TlsConfig {
    /// Whether every option is left open.
    pub open spec fn is_unset(self) -> bool {
        &&& self.verify_certificate is None
        &&& self.verify_hostname is None
        &&& self.ca_file is None
        &&& self.crt_file is None
        &&& self.key_file is None
        &&& self.key_pass is None
    }
}

impl Default for TlsConfig {
    fn default() -> (config: TlsConfig)
        ensures
            config.is_unset(),
            config.verify_certificate is None,
            config.verify_hostname is None,
            config.ca_file is None,
            config.crt_file is None,
            config.key_file is None,
            config.key_pass is None,
    {
        TlsConfig {
            verify_certificate: None,
            verify_hostname: None,
            ca_file: None,
            crt_file: None,
            key_file: None,
            key_pass: None,
        }
    }
}

} // verus!
