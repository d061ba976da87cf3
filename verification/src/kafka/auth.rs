//! Turning the authentication options into client settings.

use crate::kafka::client::{client_log_level, client_settings, put, Settings};
use crate::kafka::config::{KafkaAuthConfig, KafkaSaslConfig, TlsConfig};
use crate::kafka::error::KafkaError;
use crate::kafka::laws::law_security_protocol;
use crate::kafka::path::{pathbuf_to_string, FilePath};
use crate::text::{contains, occurs_in, text_of};
use rdkafka::ClientConfig;
use vstd::prelude::*;
use vstd::utf8::{decode_utf8, valid_utf8};

verus! {

/// The text with which every PEM block starts.
pub const PEM_START_MARKER: &'static str = "-----BEGIN ";

/// `settings` with `value` under `key`, where there is a value.
pub open spec fn with_setting(
    settings: Settings,
    key: Seq<char>,
    value: Option<Seq<char>>,
) -> Settings {
    match value {
        Some(v) => settings.insert(key, v),
        None => settings,
    }
}

/// The name of the security protocol of a client that authenticates by SASL or not, over TLS or
/// not.
pub open spec fn protocol_name(sasl: bool, tls: bool) -> Seq<char> {
    if sasl {
        if tls {
            "sasl_ssl"@
        } else {
            "sasl_plaintext"@
        }
    } else {
        if tls {
            "ssl"@
        } else {
            "plaintext"@
        }
    }
}

/// The text of a switch.
pub open spec fn switch_text(on: bool) -> Seq<char> {
    if on {
        "true"@
    } else {
        "false"@
    }
}

/// The algorithm by which the host name of the peer is checked, or not checked.
pub open spec fn hostname_algorithm(verify: bool) -> Seq<char> {
    if verify {
        "https"@
    } else {
        "none"@
    }
}

/// Whether a file option can be used: it is left open or its path is valid Unicode.
pub open spec fn usable(file: Option<FilePath>) -> bool {
    match file {
        Some(path) => valid_utf8(path@),
        None => true,
    }
}

/// `settings` with those of a usable file option: content in PEM format stands under `pem_key`,
/// anything else is a location and stands under `location_key`.
pub open spec fn with_file(
    settings: Settings,
    file: Option<FilePath>,
    pem_key: Seq<char>,
    location_key: Seq<char>,
) -> Settings {
    match file {
        Some(path) => {
            let text = decode_utf8(path@);
            if occurs_in(PEM_START_MARKER@, text) {
                settings.insert(pem_key, text)
            } else {
                settings.insert(location_key, text)
            }
        },
        None => settings,
    }
}

impl KafkaSaslConfig {
    /// The text of the password.
    pub open spec fn password_text(self) -> Option<Seq<char>> {
        match self.password {
            Some(password) => Some(password@),
            None => None,
        }
    }

    /// `settings` with the credentials that are given.
    pub open spec fn credentials(self, settings: Settings) -> Settings {
        let named = with_setting(settings, "sasl.username"@, text_of(self.username));
        let secured = with_setting(named, "sasl.password"@, self.password_text());
        with_setting(secured, "sasl.mechanism"@, text_of(self.mechanism))
    }
}

impl TlsConfig {
    /// The first file option, in the order authorities, certificate, key, whose path is not valid
    /// Unicode.
    pub open spec fn invalid_path(self) -> Option<Seq<u8>> {
        if !usable(self.ca_file) {
            Some(self.ca_file->0@)
        } else if !usable(self.crt_file) {
            Some(self.crt_file->0@)
        } else if !usable(self.key_file) {
            Some(self.key_file->0@)
        } else {
            None
        }
    }

    /// `settings` with those of the TLS options.
    ///
    /// The options from the first invalid path on, in the order authorities, certificate, key,
    /// passphrase, add nothing.
    pub open spec fn transport(self, settings: Settings) -> Settings {
        let certificate = with_setting(
            settings,
            "enable.ssl.certificate.verification"@,
            match self.verify_certificate {
                Some(on) => Some(switch_text(on)),
                None => None,
            },
        );
        let hostname = with_setting(
            certificate,
            "ssl.endpoint.identification.algorithm"@,
            match self.verify_hostname {
                Some(on) => Some(hostname_algorithm(on)),
                None => None,
            },
        );
        if !usable(self.ca_file) {
            hostname
        } else {
            let ca = with_file(hostname, self.ca_file, "ssl.ca.pem"@, "ssl.ca.location"@);
            if !usable(self.crt_file) {
                ca
            } else {
                let crt = with_file(
                    ca,
                    self.crt_file,
                    "ssl.certificate.pem"@,
                    "ssl.certificate.location"@,
                );
                if !usable(self.key_file) {
                    crt
                } else {
                    let key = with_file(crt, self.key_file, "ssl.key.pem"@, "ssl.key.location"@);
                    with_setting(key, "ssl.key.password"@, text_of(self.key_pass))
                }
            }
        }
    }
}

impl KafkaAuthConfig {
    /// Whether SASL authentication is switched on.
    pub open spec fn sasl_enabled(self) -> bool {
        self.sasl is Some && self.sasl->0.enabled == Some(true)
    }

    /// Whether AWS MSK IAM authentication is configured.
    pub open spec fn msk_iam_enabled(self) -> bool {
        self.msk_iam is Some
    }

    /// Whether TLS is used: as its switch says, and with no switch where AWS MSK IAM
    /// authentication implies it.
    pub open spec fn tls_enabled(self) -> bool {
        if self.tls is Some && self.tls->0.enabled is Some {
            self.tls->0.enabled->0
        } else {
            self.msk_iam_enabled()
        }
    }

    /// Whether both ways to authenticate are asked for.
    pub open spec fn sasl_conflict(self) -> bool {
        self.msk_iam_enabled() && self.sasl_enabled()
    }

    /// Whether AWS MSK IAM authentication is asked for without the TLS that it needs.
    pub open spec fn tls_missing(self) -> bool {
        self.msk_iam_enabled() && !self.tls_enabled()
    }

    /// Whether the options exclude each other, so that nothing is set.
    pub open spec fn contradictory(self) -> bool {
        self.sasl_conflict() || self.tls_missing()
    }

    /// The first file path in use that is not valid Unicode.
    pub open spec fn invalid_path(self) -> Option<Seq<u8>> {
        if self.tls_enabled() && self.tls is Some {
            self.tls->0.options.invalid_path()
        } else {
            None
        }
    }

    /// What [`KafkaAuthConfig::apply`] makes of `settings`.
    pub open spec fn applied(self, settings: Settings) -> Settings {
        if self.contradictory() {
            settings
        } else {
            let protocol = settings.insert(
                "security.protocol"@,
                protocol_name(self.sasl_enabled() || self.msk_iam_enabled(), self.tls_enabled()),
            );
            let mechanism = if self.msk_iam_enabled() {
                protocol.insert("sasl.mechanism"@, "OAUTHBEARER"@)
            } else {
                protocol
            };
            let credentials = if self.sasl_enabled() {
                self.sasl->0.credentials(mechanism)
            } else {
                mechanism
            };
            if self.tls_enabled() && self.tls is Some {
                self.tls->0.options.transport(credentials)
            } else {
                credentials
            }
        }
    }

    /// Writes the settings that these options ask for to `client`.
    ///
    /// AWS MSK IAM authentication together with SASL authentication, or without TLS, is refused
    /// before anything is written. A path that is not valid Unicode is refused when its turn
    /// comes: what precedes it has been written.
    pub fn apply(&self, client: &mut ClientConfig) -> (result: Result<(), KafkaError>)
        ensures
            client_settings(*final(client)) == self.applied(client_settings(*old(client))),
            client_log_level(*final(client)) == client_log_level(*old(client)),
            self.contradictory() ==> *final(client) == *old(client),
            match result {
                Ok(()) => !self.contradictory() && self.invalid_path() is None,
                Err(KafkaError::MskIamSaslConflict) => self.sasl_conflict(),
                Err(KafkaError::MskIamTlsRequired) => !self.sasl_conflict() && self.tls_missing(),
                Err(KafkaError::InvalidPath { path }) => !self.contradictory()
                    && self.invalid_path() == Some(path@),
            },
            result == Err::<(), KafkaError>(KafkaError::MskIamSaslConflict) <==>
                self.msk_iam is Some && self.sasl is Some && self.sasl->0.enabled == Some(true),
            result == Err::<(), KafkaError>(KafkaError::MskIamTlsRequired) <==>
                self.msk_iam is Some && !(self.sasl is Some && self.sasl->0.enabled == Some(true))
                && self.tls is Some && self.tls->0.enabled == Some(false),
            result matches Err(KafkaError::InvalidPath { path }) ==> {
                let options = self.tls->0.options;
                &&& self.tls is Some
                &&& !valid_utf8(path.bytes@)
                &&& {
                    ||| options.ca_file is Some && path.bytes@ == options.ca_file->0.bytes@
                    ||| options.crt_file is Some && path.bytes@ == options.crt_file->0.bytes@
                    ||| options.key_file is Some && path.bytes@ == options.key_file->0.bytes@
                }
            },
            result is Err && self.msk_iam is Some && self.sasl is Some && self.sasl->0.enabled
                == Some(true) ==> *final(client) == *old(client),
            result is Err && self.msk_iam is Some && self.tls is Some && self.tls->0.enabled
                == Some(false) ==> *final(client) == *old(client),
            result is Ok ==> client_settings(*final(client)).contains_key("security.protocol"@),
            result is Ok ==> ({
                let name = client_settings(*final(client))["security.protocol"@];
                let over_tls = (self.tls is Some && self.tls->0.enabled == Some(true)) || ((
                self.tls is None || self.tls->0.enabled is None) && self.msk_iam is Some);
                let by_sasl = (self.sasl is Some && self.sasl->0.enabled == Some(true))
                    || self.msk_iam is Some;
                &&& !by_sasl && !over_tls ==> name == "plaintext"@
                &&& !by_sasl && over_tls ==> name == "ssl"@
                &&& by_sasl && !over_tls ==> name == "sasl_plaintext"@
                &&& by_sasl && over_tls ==> name == "sasl_ssl"@
            }),
    {
        proof {
            if !self.contradictory() {
                law_security_protocol(*self, client_settings(*old(client)));
            }
        }
        let sasl_enabled = match &self.sasl {
            Some(sasl) => match sasl.enabled {
                Some(enabled) => enabled,
                None => false,
            },
            None => false,
        };
        let msk_iam_enabled = self.msk_iam.is_some();
        // MSK IAM requires TLS, so it is implied unless explicitly disabled (an error below).
        let tls_enabled = match &self.tls {
            Some(tls) => match tls.enabled {
                Some(enabled) => enabled,
                None => msk_iam_enabled,
            },
            None => msk_iam_enabled,
        };

        if msk_iam_enabled {
            if sasl_enabled {
                return Err(KafkaError::MskIamSaslConflict);
            }
            if !tls_enabled {
                return Err(KafkaError::MskIamTlsRequired);
            }
        }

        let protocol = match (sasl_enabled || msk_iam_enabled, tls_enabled) {
            (false, false) => "plaintext",
            (false, true) => "ssl",
            (true, false) => "sasl_plaintext",
            (true, true) => "sasl_ssl",
        };
        put(client, "security.protocol", protocol);

        if msk_iam_enabled {
            put(client, "sasl.mechanism", "OAUTHBEARER");
        }

        if sasl_enabled {
            if let Some(sasl) = &self.sasl {
                sasl.apply(client);
            }
        }

        if tls_enabled {
            if let Some(tls) = &self.tls {
                return tls.options.apply(client);
            }
        }

        Ok(())
    }
}

impl KafkaSaslConfig {
    /// Writes the credentials that are given to `client`.
    fn apply(&self, client: &mut ClientConfig)
        ensures
            client_settings(*final(client)) == self.credentials(client_settings(*old(client))),
            client_log_level(*final(client)) == client_log_level(*old(client)),
    {
        if let Some(username) = &self.username {
            put(client, "sasl.username", username.as_str());
        }
        if let Some(password) = &self.password {
            put(client, "sasl.password", password.inner());
        }
        if let Some(mechanism) = &self.mechanism {
            put(client, "sasl.mechanism", mechanism.as_str());
        }
    }
}

impl TlsConfig {
    /// Writes the TLS options to `client`, up to the first path that is not valid Unicode.
    fn apply(&self, client: &mut ClientConfig) -> (result: Result<(), KafkaError>)
        ensures
            client_settings(*final(client)) == self.transport(client_settings(*old(client))),
            client_log_level(*final(client)) == client_log_level(*old(client)),
            match result {
                Ok(()) => self.invalid_path() is None,
                Err(KafkaError::InvalidPath { path }) => self.invalid_path() == Some(path@),
                Err(_) => false,
            },
    {
        if let Some(verify_certificate) = self.verify_certificate {
            put(
                client,
                "enable.ssl.certificate.verification",
                if verify_certificate {
                    "true"
                } else {
                    "false"
                },
            );
        }
        if let Some(verify_hostname) = self.verify_hostname {
            put(
                client,
                "ssl.endpoint.identification.algorithm",
                if verify_hostname {
                    "https"
                } else {
                    "none"
                },
            );
        }
        if let Some(path) = &self.ca_file {
            set_file(client, path, "ssl.ca.pem", "ssl.ca.location")?;
        }
        if let Some(path) = &self.crt_file {
            set_file(client, path, "ssl.certificate.pem", "ssl.certificate.location")?;
        }
        if let Some(path) = &self.key_file {
            set_file(client, path, "ssl.key.pem", "ssl.key.location")?;
        }
        if let Some(pass) = &self.key_pass {
            put(client, "ssl.key.password", pass.as_str());
        }
        Ok(())
    }
}

/// Writes a file option to `client`: content in PEM format under `pem_key`, a location under
/// `location_key`.
fn set_file(
    client: &mut ClientConfig,
    path: &FilePath,
    pem_key: &str,
    location_key: &str,
) -> (result: Result<(), KafkaError>)
    ensures
        client_log_level(*final(client)) == client_log_level(*old(client)),
        match result {
            Ok(()) => valid_utf8(path@) && client_settings(*final(client)) == with_file(
                client_settings(*old(client)),
                Some(*path),
                pem_key@,
                location_key@,
            ),
            Err(KafkaError::InvalidPath { path: refused }) => !valid_utf8(path@) && refused@
                == path@ && client_settings(*final(client)) == client_settings(*old(client)),
            Err(_) => false,
        },
{
    let text = pathbuf_to_string(path)?;
    if contains(text, PEM_START_MARKER) {
        put(client, pem_key, text);
    } else {
        put(client, location_key, text);
    }
    Ok(())
}

} // verus!
