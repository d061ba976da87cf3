//! The Kafka client configuration that the settings are written to.

use rdkafka::ClientConfig;
use vstd::prelude::*;

verus! {

/// Settings by name.
pub type Settings = Map<Seq<char>, Seq<char>>;

#[verifier::external_type_specification]
#[verifier::external_body]
pub struct ExClientConfig(rdkafka::ClientConfig);

/// The settings that a client configuration holds.
pub uninterp spec fn client_settings(client: rdkafka::ClientConfig) -> Map<Seq<char>, Seq<char>>;

/// The log level of a client configuration, by its number.
pub uninterp spec fn client_log_level(client: rdkafka::ClientConfig) -> int;

/// Calls `rdkafka::ClientConfig::set`.
///
/// Trusted: the call stores the value under the key, over any value that the key had, and leaves
/// the other settings and the log level as they were.
#[verifier::external_body]
pub(crate) fn put(client: &mut ClientConfig, key: &str, value: &str)
    ensures
        client_settings(*final(client)) == client_settings(*old(client)).insert(key@, value@),
        client_log_level(*final(client)) == client_log_level(*old(client)),
{
    client.set(key, value);
}

} // verus!
