use vector_delivery::kafka::config::{KafkaAuthConfig, KafkaMskIamConfig};
use vector_delivery::kafka::token::{
    KafkaStatisticsContext, MskIamTokenProvider, TokenError, TokenGeneration,
    TOKEN_GENERATION_TIMEOUT_SECS,
};

fn provider() -> MskIamTokenProvider {
    KafkaAuthConfig {
        msk_iam: Some(KafkaMskIamConfig {
            region: "us-west-2".to_string(),
        }),
        ..Default::default()
    }
    .msk_iam_token_provider()
    .unwrap()
}

fn context(provider: Option<MskIamTokenProvider>) -> KafkaStatisticsContext {
    KafkaStatisticsContext {
        expose_lag_metrics: false,
        msk_iam_token_provider: provider,
    }
}

fn message(result: Result<rdkafka::client::OAuthToken, TokenError>) -> String {
    match result {
        Ok(token) => panic!("{}", token.token),
        Err(error) => error.message().to_string(),
    }
}

#[test]
fn provider_only_for_msk_iam() {
    assert_eq!(provider().region, "us-west-2");
    assert!(KafkaAuthConfig::default().msk_iam_token_provider().is_none());
}

#[test]
fn signed_token_is_handed_over() {
    let token = context(Some(provider()))
        .generate_oauth_token(TokenGeneration::Signed {
            token: "c2lnbmVk".to_string(),
            expiration_time_ms: 1_700_000_900_000,
        })
        .unwrap_or_else(|error| panic!("{}", error.message()));
    assert_eq!(token.token, "c2lnbmVk");
    assert_eq!(token.principal_name, "");
    assert_eq!(token.lifetime_ms, 1_700_000_900_000);
}

#[test]
fn token_errors() {
    assert_eq!(
        message(provider().token(TokenGeneration::Panicked)),
        "MSK IAM token generation thread panicked"
    );
    assert_eq!(
        message(provider().token(TokenGeneration::TimedOut {
            message: "deadline has elapsed".to_string()
        })),
        "deadline has elapsed"
    );
    assert_eq!(
        message(provider().token(TokenGeneration::Failed {
            message: "no credentials".to_string()
        })),
        "no credentials"
    );
}

#[test]
fn no_token_without_msk_iam() {
    let context = context(None);
    assert!(matches!(
        context.token_provider(),
        Err(TokenError::Unsupported)
    ));
    assert_eq!(
        message(context.generate_oauth_token(TokenGeneration::Panicked)),
        "OAUTHBEARER authentication is only supported via `msk_iam`"
    );
}

#[test]
fn token_generation_takes_ten_seconds_at_most() {
    assert_eq!(TOKEN_GENERATION_TIMEOUT_SECS, 10);
    let context = context(Some(provider()));
    match context.token_provider() {
        Ok(provider) => assert_eq!(provider.region, "us-west-2"),
        Err(error) => panic!("{}", error.message()),
    }
}
