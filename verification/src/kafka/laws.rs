//! What holds of the client settings as a whole.

use crate::kafka::auth::{
    hostname_algorithm, protocol_name, switch_text, with_file, with_setting,
    PEM_START_MARKER,
};
use crate::kafka::client::Settings;
use crate::kafka::config::{KafkaAuthConfig, KafkaSaslConfig, TlsConfig};
use crate::kafka::path::FilePath;
use crate::text::{occurs_in, text_of};
use vstd::prelude::*;
use vstd::utf8::{decode_utf8, valid_utf8};

verus! {

/// The names of all settings that the authentication options can write.
pub open spec fn setting_names() -> Set<Seq<char>> {
    set![
        "security.protocol"@,
        "sasl.mechanism"@,
        "sasl.username"@,
        "sasl.password"@,
        "enable.ssl.certificate.verification"@,
        "ssl.endpoint.identification.algorithm"@,
        "ssl.ca.pem"@,
        "ssl.ca.location"@,
        "ssl.certificate.pem"@,
        "ssl.certificate.location"@,
        "ssl.key.pem"@,
        "ssl.key.location"@,
        "ssl.key.password"@,
    ]
}

/// `name` is set in `after` as it was in `before`.
pub open spec fn kept(before: Settings, after: Settings, name: Seq<char>) -> bool {
    &&& after.contains_key(name) == before.contains_key(name)
    &&& before.contains_key(name) ==> after[name] == before[name]
}

/// No two of the names are equal: their lengths differ, or a character does.
proof fn lemma_names_differ()
    ensures
        "security.protocol"@.len() == 17,
        "sasl.mechanism"@.len() == 14,
        "sasl.username"@.len() == 13,
        "sasl.password"@.len() == 13,
        "enable.ssl.certificate.verification"@.len() == 35,
        "ssl.endpoint.identification.algorithm"@.len() == 37,
        "ssl.ca.pem"@.len() == 10,
        "ssl.ca.location"@.len() == 15,
        "ssl.certificate.pem"@.len() == 19,
        "ssl.certificate.location"@.len() == 24,
        "ssl.key.pem"@.len() == 11,
        "ssl.key.location"@.len() == 16,
        "ssl.key.password"@.len() == 16,
        "sasl.username"@ != "sasl.password"@,
        "ssl.key.location"@ != "ssl.key.password"@,
{
    reveal_strlit("security.protocol");
    reveal_strlit("sasl.mechanism");
    reveal_strlit("sasl.username");
    reveal_strlit("sasl.password");
    reveal_strlit("enable.ssl.certificate.verification");
    reveal_strlit("ssl.endpoint.identification.algorithm");
    reveal_strlit("ssl.ca.pem");
    reveal_strlit("ssl.ca.location");
    reveal_strlit("ssl.certificate.pem");
    reveal_strlit("ssl.certificate.location");
    reveal_strlit("ssl.key.pem");
    reveal_strlit("ssl.key.location");
    reveal_strlit("ssl.key.password");
    assert("sasl.username"@[5] != "sasl.password"@[5]);
    assert("ssl.key.location"@[8] != "ssl.key.password"@[8]);
}

proof fn lemma_setting_overlays(
    under: Settings,
    over: Settings,
    key: Seq<char>,
    value: Option<Seq<char>>,
)
    ensures
        with_setting(under.union_prefer_right(over), key, value) == under.union_prefer_right(
            with_setting(over, key, value),
        ),
{
    assert(with_setting(under.union_prefer_right(over), key, value) =~= under.union_prefer_right(
        with_setting(over, key, value),
    ));
}

proof fn lemma_file_overlays(
    under: Settings,
    over: Settings,
    file: Option<FilePath>,
    pem_key: Seq<char>,
    location_key: Seq<char>,
)
    ensures
        with_file(under.union_prefer_right(over), file, pem_key, location_key)
            == under.union_prefer_right(with_file(over, file, pem_key, location_key)),
{
    assert(with_file(under.union_prefer_right(over), file, pem_key, location_key)
        =~= under.union_prefer_right(with_file(over, file, pem_key, location_key)));
}

proof fn lemma_credentials_overlay(sasl: KafkaSaslConfig, under: Settings, over: Settings)
    ensures
        sasl.credentials(under.union_prefer_right(over)) == under.union_prefer_right(
            sasl.credentials(over),
        ),
{
    let named = with_setting(over, "sasl.username"@, text_of(sasl.username));
    let secured = with_setting(named, "sasl.password"@, sasl.password_text());
    lemma_setting_overlays(under, over, "sasl.username"@, text_of(sasl.username));
    lemma_setting_overlays(under, named, "sasl.password"@, sasl.password_text());
    lemma_setting_overlays(under, secured, "sasl.mechanism"@, text_of(sasl.mechanism));
}

proof fn lemma_transport_overlays(tls: TlsConfig, under: Settings, over: Settings)
    ensures
        tls.transport(under.union_prefer_right(over)) == under.union_prefer_right(
            tls.transport(over),
        ),
{
    let certificate_value = match tls.verify_certificate {
        Some(on) => Some(switch_text(on)),
        None => None,
    };
    let hostname_value = match tls.verify_hostname {
        Some(on) => Some(hostname_algorithm(on)),
        None => None,
    };
    let certificate = with_setting(
        over,
        "enable.ssl.certificate.verification"@,
        certificate_value,
    );
    let hostname = with_setting(
        certificate,
        "ssl.endpoint.identification.algorithm"@,
        hostname_value,
    );
    let ca = with_file(hostname, tls.ca_file, "ssl.ca.pem"@, "ssl.ca.location"@);
    let crt = with_file(ca, tls.crt_file, "ssl.certificate.pem"@, "ssl.certificate.location"@);
    let key = with_file(crt, tls.key_file, "ssl.key.pem"@, "ssl.key.location"@);
    lemma_setting_overlays(
        under,
        over,
        "enable.ssl.certificate.verification"@,
        certificate_value,
    );
    lemma_setting_overlays(
        under,
        certificate,
        "ssl.endpoint.identification.algorithm"@,
        hostname_value,
    );
    lemma_file_overlays(under, hostname, tls.ca_file, "ssl.ca.pem"@, "ssl.ca.location"@);
    lemma_file_overlays(
        under,
        ca,
        tls.crt_file,
        "ssl.certificate.pem"@,
        "ssl.certificate.location"@,
    );
    lemma_file_overlays(under, crt, tls.key_file, "ssl.key.pem"@, "ssl.key.location"@);
    lemma_setting_overlays(under, key, "ssl.key.password"@, text_of(tls.key_pass));
}

proof fn lemma_applied_overlays(auth: KafkaAuthConfig, under: Settings, over: Settings)
    ensures
        auth.applied(under.union_prefer_right(over)) == under.union_prefer_right(
            auth.applied(over),
        ),
{
    if !auth.contradictory() {
        let name = protocol_name(
            auth.sasl_enabled() || auth.msk_iam_enabled(),
            auth.tls_enabled(),
        );
        let protocol = with_setting(over, "security.protocol"@, Some(name));
        let bearer = if auth.msk_iam_enabled() {
            Some("OAUTHBEARER"@)
        } else {
            None
        };
        let mechanism = with_setting(protocol, "sasl.mechanism"@, bearer);
        lemma_setting_overlays(under, over, "security.protocol"@, Some(name));
        lemma_setting_overlays(under, protocol, "sasl.mechanism"@, bearer);
        let credentials = if auth.sasl_enabled() {
            auth.sasl->0.credentials(mechanism)
        } else {
            mechanism
        };
        lemma_credentials_overlay(auth.sasl->0, under, mechanism);
        lemma_transport_overlays(auth.tls->0.options, under, credentials);
    }
}

/// The options ask for one and the same settings whatever a client had set before: to apply them
/// is to lay those settings over the ones that are there.
pub proof fn law_apply_overlays(auth: KafkaAuthConfig, settings: Settings)
    ensures
        auth.applied(settings) == settings.union_prefer_right(auth.applied(Map::empty())),
{
    assert(settings.union_prefer_right(Map::empty()) =~= settings);
    lemma_applied_overlays(auth, settings, Map::empty());
}

/// To apply the options again changes nothing.
pub proof fn law_apply_twice(auth: KafkaAuthConfig, settings: Settings)
    ensures
        auth.applied(auth.applied(settings)) == auth.applied(settings),
{
    law_apply_overlays(auth, settings);
    law_apply_overlays(auth, auth.applied(settings));
    assert(auth.applied(auth.applied(settings)) =~= auth.applied(settings));
}

/// Settings other than those of authentication stay as they are.
pub proof fn law_apply_keeps_other_settings(
    auth: KafkaAuthConfig,
    settings: Settings,
    name: Seq<char>,
)
    requires
        name != "security.protocol"@,
        name != "sasl.mechanism"@,
        name != "sasl.username"@,
        name != "sasl.password"@,
        name != "enable.ssl.certificate.verification"@,
        name != "ssl.endpoint.identification.algorithm"@,
        name != "ssl.ca.pem"@,
        name != "ssl.ca.location"@,
        name != "ssl.certificate.pem"@,
        name != "ssl.certificate.location"@,
        name != "ssl.key.pem"@,
        name != "ssl.key.location"@,
        name != "ssl.key.password"@,
    ensures
        !setting_names().contains(name),
        kept(settings, auth.applied(settings), name),
        auth.applied(settings).get(name) == settings.get(name),
{
}

/// Options that exclude each other leave a client as it was.
pub proof fn law_contradictory_options_set_nothing(auth: KafkaAuthConfig, settings: Settings)
    requires
        auth.contradictory(),
    ensures
        auth.applied(settings) == settings,
{
}

/// A client that authenticates by AWS MSK IAM uses SASL over TLS, with `OAUTHBEARER` tokens,
/// whatever the TLS options are.
pub proof fn law_msk_iam_uses_bearer_tokens_over_tls(auth: KafkaAuthConfig, settings: Settings)
    requires
        auth.msk_iam_enabled(),
        !auth.contradictory(),
    ensures
        auth.applied(settings).contains_key("security.protocol"@),
        auth.applied(settings)["security.protocol"@] == "sasl_ssl"@,
        auth.applied(settings).contains_key("sasl.mechanism"@),
        auth.applied(settings)["sasl.mechanism"@] == "OAUTHBEARER"@,
{
    lemma_names_differ();
}

/// Where the options are not refused, the security protocol is one of four. It is one over TLS
/// exactly where TLS is switched on, or has no switch and AWS MSK IAM authentication is configured.
/// It is one of SASL exactly where SASL authentication is switched on or AWS MSK IAM authentication
/// is configured.
pub proof fn law_security_protocol(auth: KafkaAuthConfig, settings: Settings)
    requires
        !(auth.msk_iam is Some && auth.sasl is Some && auth.sasl->0.enabled == Some(true)),
        !(auth.msk_iam is Some && auth.tls is Some && auth.tls->0.enabled == Some(false)),
    ensures
        auth.applied(settings).contains_key("security.protocol"@),
        ({
            let name = auth.applied(settings)["security.protocol"@];
            let over_tls = (auth.tls is Some && auth.tls->0.enabled == Some(true)) || ((
            auth.tls is None || auth.tls->0.enabled is None) && auth.msk_iam is Some);
            let by_sasl = (auth.sasl is Some && auth.sasl->0.enabled == Some(true))
                || auth.msk_iam is Some;
            &&& name == "plaintext"@ || name == "ssl"@ || name == "sasl_plaintext"@ || name
                == "sasl_ssl"@
            &&& name == "ssl"@ || name == "sasl_ssl"@ <==> over_tls
            &&& name == "sasl_plaintext"@ || name == "sasl_ssl"@ <==> by_sasl
            &&& name == "plaintext"@ <==> !over_tls && !by_sasl
            &&& name == "sasl_ssl"@ <==> over_tls && by_sasl
        }),
{
    lemma_names_differ();
    lemma_protocols_differ();
}

proof fn lemma_protocols_differ()
    ensures
        "plaintext"@.len() == 9,
        "ssl"@.len() == 3,
        "sasl_plaintext"@.len() == 14,
        "sasl_ssl"@.len() == 8,
{
    reveal_strlit("plaintext");
    reveal_strlit("ssl");
    reveal_strlit("sasl_plaintext");
    reveal_strlit("sasl_ssl");
}

/// Options are refused as contradictory exactly where AWS MSK IAM authentication is configured and
/// SASL authentication is switched on, which counts first, or TLS is switched off.
pub proof fn law_refusals(auth: KafkaAuthConfig)
    ensures
        auth.sasl_conflict() <==> auth.msk_iam is Some && auth.sasl is Some
            && auth.sasl->0.enabled == Some(true),
        auth.tls_missing() <==> auth.msk_iam is Some && auth.tls is Some && auth.tls->0.enabled
            == Some(false),
        auth.contradictory() <==> auth.sasl_conflict() || auth.tls_missing(),
{
}

/// The path that is refused is the first, in the order authorities, certificate, key, that is not
/// valid Unicode, where TLS is in use. A path that is valid Unicode is never refused.
pub proof fn law_refused_path(auth: KafkaAuthConfig)
    ensures
        match auth.invalid_path() {
            Some(refused) => {
                let tls = auth.tls->0;
                let ca = tls.options.ca_file;
                let crt = tls.options.crt_file;
                let key = tls.options.key_file;
                &&& auth.tls is Some
                &&& tls.enabled == Some(true) || (tls.enabled is None && auth.msk_iam is Some)
                &&& !valid_utf8(refused)
                &&& {
                    ||| ca is Some && refused == ca->0.bytes@
                    ||| (ca is None || valid_utf8(ca->0.bytes@)) && crt is Some && refused
                        == crt->0.bytes@
                    ||| (ca is None || valid_utf8(ca->0.bytes@)) && (crt is None || valid_utf8(
                        crt->0.bytes@,
                    )) && key is Some && refused == key->0.bytes@
                }
            },
            None => auth.tls matches Some(tls) ==> {
                ||| tls.enabled == Some(false)
                ||| tls.enabled is None && auth.msk_iam is None
                ||| {
                    &&& tls.options.ca_file matches Some(file) ==> valid_utf8(file.bytes@)
                    &&& tls.options.crt_file matches Some(file) ==> valid_utf8(file.bytes@)
                    &&& tls.options.key_file matches Some(file) ==> valid_utf8(file.bytes@)
                }
            },
        },
{
}

/// Where the options are not refused, the mechanism is `OAUTHBEARER` for AWS MSK IAM
/// authentication, and the configured one for SASL authentication. Otherwise the client keeps the
/// one that it had.
pub proof fn law_mechanism(auth: KafkaAuthConfig, settings: Settings)
    ensures
        ({
            let by_sasl = auth.sasl is Some && auth.sasl->0.enabled == Some(true);
            let tls_off = auth.tls is Some && auth.tls->0.enabled == Some(false);
            let mechanism = auth.applied(settings).get("sasl.mechanism"@);
            &&& auth.msk_iam is Some && !by_sasl && !tls_off ==> mechanism == Some("OAUTHBEARER"@)
            &&& auth.msk_iam is Some && (by_sasl || tls_off) ==> mechanism == settings.get(
                "sasl.mechanism"@,
            )
            &&& auth.msk_iam is None && by_sasl ==> (match auth.sasl->0.mechanism {
                Some(configured) => mechanism == Some(configured@),
                None => mechanism == settings.get("sasl.mechanism"@),
            })
            &&& auth.msk_iam is None && !by_sasl ==> mechanism == settings.get("sasl.mechanism"@)
        }),
{
    lemma_names_differ();
}

/// Username and password are the configured ones where SASL authentication is switched on and AWS
/// MSK IAM authentication is not configured. Otherwise, and where one is left open, the client
/// keeps what it had.
pub proof fn law_username_and_password(auth: KafkaAuthConfig, settings: Settings)
    ensures
        ({
            let applied = auth.applied(settings);
            let by_sasl = auth.sasl is Some && auth.sasl->0.enabled == Some(true)
                && auth.msk_iam is None;
            let sasl = auth.sasl->0;
            &&& applied.get("sasl.username"@) == (if by_sasl && sasl.username is Some {
                Some(sasl.username->0@)
            } else {
                settings.get("sasl.username"@)
            })
            &&& applied.get("sasl.password"@) == (if by_sasl && sasl.password is Some {
                Some(sasl.password->0@)
            } else {
                settings.get("sasl.password"@)
            })
        }),
{
    lemma_names_differ();
}

/// Where TLS is in use and the options are not refused as contradictory, the switches of
/// verification are set as they are configured, even if a path is refused later. Otherwise, and
/// where one is left open, the client keeps what it had.
pub proof fn law_verification_switches(auth: KafkaAuthConfig, settings: Settings)
    ensures
        ({
            let applied = auth.applied(settings);
            let refused = auth.msk_iam is Some && auth.sasl is Some && auth.sasl->0.enabled == Some(
                true,
            );
            let used = !refused && auth.tls is Some && (auth.tls->0.enabled == Some(true) || (
            auth.tls->0.enabled is None && auth.msk_iam is Some));
            let options = auth.tls->0.options;
            &&& applied.get("enable.ssl.certificate.verification"@) == (if used
                && options.verify_certificate == Some(true) {
                Some("true"@)
            } else if used && options.verify_certificate == Some(false) {
                Some("false"@)
            } else {
                settings.get("enable.ssl.certificate.verification"@)
            })
            &&& applied.get("ssl.endpoint.identification.algorithm"@) == (if used
                && options.verify_hostname == Some(true) {
                Some("https"@)
            } else if used && options.verify_hostname == Some(false) {
                Some("none"@)
            } else {
                settings.get("ssl.endpoint.identification.algorithm"@)
            })
        }),
{
    lemma_names_differ();
}

/// Where TLS is in use and the options are not refused as contradictory, the certificate
/// authorities are set if their path is valid Unicode: as content where the text holds the start
/// of a PEM block at any position, else as a location. Otherwise the client keeps what it had.
#[verifier::rlimit(50)]
pub proof fn law_authorities(auth: KafkaAuthConfig, settings: Settings)
    ensures
        ({
            let applied = auth.applied(settings);
            let refused = auth.msk_iam is Some && auth.sasl is Some && auth.sasl->0.enabled == Some(
                true,
            );
            let used = !refused && auth.tls is Some && (auth.tls->0.enabled == Some(true) || (
            auth.tls->0.enabled is None && auth.msk_iam is Some));
            let options = auth.tls->0.options;
            let bytes = options.ca_file->0.bytes@;
            let text = decode_utf8(bytes);
            let marker = "-----BEGIN "@;
            let is_content = exists|i: int|
                0 <= i && i + marker.len() <= text.len() && #[trigger] text.subrange(
                    i,
                    i + marker.len(),
                ) == marker;
            let is_set = used && options.ca_file is Some && valid_utf8(bytes);
            &&& applied.get("ssl.ca.pem"@) == (if is_set && is_content {
                Some(text)
            } else {
                settings.get("ssl.ca.pem"@)
            })
            &&& applied.get("ssl.ca.location"@) == (if is_set && !is_content {
                Some(text)
            } else {
                settings.get("ssl.ca.location"@)
            })
        }),
{
    lemma_names_differ();
}

/// Where TLS is in use and the options are not refused as contradictory, the certificate is set
/// if its path and that of the authorities are valid Unicode: as content where the text holds the
/// start of a PEM block at any position, else as a location. Otherwise the client keeps what it
/// had.
#[verifier::rlimit(50)]
pub proof fn law_certificate(auth: KafkaAuthConfig, settings: Settings)
    ensures
        ({
            let applied = auth.applied(settings);
            let refused = auth.msk_iam is Some && auth.sasl is Some && auth.sasl->0.enabled == Some(
                true,
            );
            let used = !refused && auth.tls is Some && (auth.tls->0.enabled == Some(true) || (
            auth.tls->0.enabled is None && auth.msk_iam is Some));
            let options = auth.tls->0.options;
            let bytes = options.crt_file->0.bytes@;
            let text = decode_utf8(bytes);
            let marker = "-----BEGIN "@;
            let is_content = exists|i: int|
                0 <= i && i + marker.len() <= text.len() && #[trigger] text.subrange(
                    i,
                    i + marker.len(),
                ) == marker;
            let is_set = used && options.crt_file is Some && valid_utf8(bytes)
                && (options.ca_file is None
                || valid_utf8(options.ca_file->0.bytes@));
            &&& applied.get("ssl.certificate.pem"@) == (if is_set && is_content {
                Some(text)
            } else {
                settings.get("ssl.certificate.pem"@)
            })
            &&& applied.get("ssl.certificate.location"@) == (if is_set && !is_content {
                Some(text)
            } else {
                settings.get("ssl.certificate.location"@)
            })
        }),
{
    lemma_names_differ();
}

/// Where TLS is in use and the options are not refused as contradictory, the key is set if its
/// path and those before it are valid Unicode: as content where the text holds the start of a PEM
/// block at any position, else as a location. Otherwise the client keeps what it had.
#[verifier::rlimit(50)]
pub proof fn law_key(auth: KafkaAuthConfig, settings: Settings)
    ensures
        ({
            let applied = auth.applied(settings);
            let refused = auth.msk_iam is Some && auth.sasl is Some && auth.sasl->0.enabled == Some(
                true,
            );
            let used = !refused && auth.tls is Some && (auth.tls->0.enabled == Some(true) || (
            auth.tls->0.enabled is None && auth.msk_iam is Some));
            let options = auth.tls->0.options;
            let bytes = options.key_file->0.bytes@;
            let text = decode_utf8(bytes);
            let marker = "-----BEGIN "@;
            let is_content = exists|i: int|
                0 <= i && i + marker.len() <= text.len() && #[trigger] text.subrange(
                    i,
                    i + marker.len(),
                ) == marker;
            let is_set = used && options.key_file is Some && valid_utf8(bytes)
                && (options.ca_file is None
                || valid_utf8(options.ca_file->0.bytes@))
                && (options.crt_file is None
                || valid_utf8(options.crt_file->0.bytes@));
            &&& applied.get("ssl.key.pem"@) == (if is_set && is_content {
                Some(text)
            } else {
                settings.get("ssl.key.pem"@)
            })
            &&& applied.get("ssl.key.location"@) == (if is_set && !is_content {
                Some(text)
            } else {
                settings.get("ssl.key.location"@)
            })
        }),
{
    lemma_names_differ();
}

/// Where TLS is in use and the options are not refused as contradictory, the passphrase is set as
/// it is configured if all paths are valid Unicode. Otherwise the client keeps what it had.
#[verifier::rlimit(50)]
pub proof fn law_passphrase(auth: KafkaAuthConfig, settings: Settings)
    ensures
        ({
            let applied = auth.applied(settings);
            let refused = auth.msk_iam is Some && auth.sasl is Some && auth.sasl->0.enabled == Some(
                true,
            );
            let used = !refused && auth.tls is Some && (auth.tls->0.enabled == Some(true) || (
            auth.tls->0.enabled is None && auth.msk_iam is Some));
            let options = auth.tls->0.options;
            let is_set = used && options.key_pass is Some
                && (options.ca_file is None
                || valid_utf8(options.ca_file->0.bytes@))
                && (options.crt_file is None
                || valid_utf8(options.crt_file->0.bytes@))
                && (options.key_file is None
                || valid_utf8(options.key_file->0.bytes@));
            applied.get("ssl.key.password"@) == (if is_set {
                Some(options.key_pass->0@)
            } else {
                settings.get("ssl.key.password"@)
            })
        }),
{
    lemma_names_differ();
}

/// AWS MSK IAM authentication implies TLS. It is refused exactly where SASL authentication is
/// switched on as well, or TLS is switched off.
pub proof fn law_msk_iam_implies_tls(auth: KafkaAuthConfig)
    requires
        auth.msk_iam_enabled(),
    ensures
        auth.contradictory() <==> auth.sasl_enabled() || (auth.tls is Some
            && auth.tls->0.enabled == Some(false)),
        !auth.contradictory() ==> auth.tls_enabled(),
{
}

/// Without AWS MSK IAM authentication no combination of options is refused.
pub proof fn law_only_msk_iam_contradicts(auth: KafkaAuthConfig)
    requires
        !auth.msk_iam_enabled(),
    ensures
        !auth.contradictory(),
{
}

/// Credentials are written only where SASL authentication is switched on.
pub proof fn law_no_credentials_without_sasl(auth: KafkaAuthConfig, settings: Settings)
    requires
        !auth.sasl_enabled(),
    ensures
        kept(settings, auth.applied(settings), "sasl.username"@),
        kept(settings, auth.applied(settings), "sasl.password"@),
        !auth.msk_iam_enabled() ==> kept(settings, auth.applied(settings), "sasl.mechanism"@),
{
    lemma_names_differ();
}

/// With SASL authentication switched on, the credentials that are given are set.
pub proof fn law_credentials_are_set(auth: KafkaAuthConfig, settings: Settings)
    requires
        auth.sasl_enabled(),
        !auth.contradictory(),
    ensures
        auth.sasl->0.username matches Some(username) ==> auth.applied(settings).contains_pair(
            "sasl.username"@,
            username@,
        ),
        auth.sasl->0.password matches Some(password) ==> auth.applied(settings).contains_pair(
            "sasl.password"@,
            password@,
        ),
        auth.sasl->0.mechanism matches Some(mechanism) ==> auth.applied(settings).contains_pair(
            "sasl.mechanism"@,
            mechanism@,
        ),
{
    lemma_names_differ();
}

/// Where TLS is not used, no setting of TLS is written.
pub proof fn law_no_tls_settings_without_tls(auth: KafkaAuthConfig, settings: Settings)
    requires
        !auth.tls_enabled(),
    ensures
        kept(settings, auth.applied(settings), "enable.ssl.certificate.verification"@),
        kept(settings, auth.applied(settings), "ssl.endpoint.identification.algorithm"@),
        kept(settings, auth.applied(settings), "ssl.ca.pem"@),
        kept(settings, auth.applied(settings), "ssl.ca.location"@),
        kept(settings, auth.applied(settings), "ssl.certificate.pem"@),
        kept(settings, auth.applied(settings), "ssl.certificate.location"@),
        kept(settings, auth.applied(settings), "ssl.key.pem"@),
        kept(settings, auth.applied(settings), "ssl.key.location"@),
        kept(settings, auth.applied(settings), "ssl.key.password"@),
{
    lemma_names_differ();
}

/// `file` is set in `after` under the one of two names that fits, and the other name is as it was
/// in `before`: content in PEM format fits `pem_key`, a location fits `location_key`.
pub open spec fn file_is_set(
    before: Settings,
    after: Settings,
    file: FilePath,
    pem_key: Seq<char>,
    location_key: Seq<char>,
) -> bool {
    let text = decode_utf8(file@);
    if occurs_in(PEM_START_MARKER@, text) {
        after.contains_pair(pem_key, text) && kept(before, after, location_key)
    } else {
        after.contains_pair(location_key, text) && kept(before, after, pem_key)
    }
}

/// Where TLS is used and every path is valid Unicode, each file option is set, as content or as a
/// location, and never as both.
#[verifier::rlimit(50)]
pub proof fn law_files_are_content_or_location(auth: KafkaAuthConfig, settings: Settings)
    requires
        !auth.contradictory(),
        auth.tls_enabled(),
        auth.tls is Some,
        auth.invalid_path() is None,
    ensures
        auth.tls->0.options.ca_file matches Some(file) ==> file_is_set(
            settings,
            auth.applied(settings),
            file,
            "ssl.ca.pem"@,
            "ssl.ca.location"@,
        ),
        auth.tls->0.options.crt_file matches Some(file) ==> file_is_set(
            settings,
            auth.applied(settings),
            file,
            "ssl.certificate.pem"@,
            "ssl.certificate.location"@,
        ),
        auth.tls->0.options.key_file matches Some(file) ==> file_is_set(
            settings,
            auth.applied(settings),
            file,
            "ssl.key.pem"@,
            "ssl.key.location"@,
        ),
{
    law_authorities(auth, settings);
    law_certificate(auth, settings);
    law_key(auth, settings);
}

/// A path that is not valid Unicode keeps the passphrase of the key from being set.
pub proof fn law_invalid_path_stops_before_passphrase(auth: KafkaAuthConfig, settings: Settings)
    requires
        auth.invalid_path() is Some,
    ensures
        kept(settings, auth.applied(settings), "ssl.key.password"@),
{
    lemma_names_differ();
}

/// A section that is not in use acts as an absent one: where `b` lacks the SASL section that is
/// not switched on in `a`, or the TLS section that is not in use there, both are refused alike or
/// ask for the same settings. Not even an invalid path of such a section matters.
pub proof fn law_unused_sections_act_as_absent(
    a: KafkaAuthConfig,
    b: KafkaAuthConfig,
    settings: Settings,
)
    requires
        a.msk_iam == b.msk_iam,
        b.sasl == a.sasl || (b.sasl is None && !a.sasl_enabled()),
        b.tls == a.tls || (b.tls is None && a.msk_iam is None && !(a.tls is Some
            && a.tls->0.enabled == Some(true))),
    ensures
        a.sasl_conflict() == b.sasl_conflict(),
        a.tls_missing() == b.tls_missing(),
        a.contradictory() == b.contradictory(),
        a.invalid_path() == b.invalid_path(),
        a.applied(settings) == b.applied(settings),
{
}

} // verus!
