//! Tokens for AWS MSK IAM authentication.

use crate::kafka::config::KafkaAuthConfig;
use rdkafka::client::OAuthToken;
use vstd::prelude::*;

verus! {

/// How long the generation of a token may take, in seconds.
pub const TOKEN_GENERATION_TIMEOUT_SECS: u64 = 10;

/// Provides SASL `OAUTHBEARER` tokens for AWS MSK IAM authentication.
#[derive(Clone, Debug)]
pub struct MskIamTokenProvider {
    /// The AWS region for which tokens are signed.
    pub region: String,
}

#[verifier::external_type_specification]
pub struct ExOAuthToken(rdkafka::client::OAuthToken);

/// How an attempt to sign a token ended.
pub enum TokenGeneration {
    /// The thread that generated the token panicked.
    Panicked,
    /// The generation took longer than [`TOKEN_GENERATION_TIMEOUT_SECS`].
    TimedOut { message: String },
    /// The signer refused.
    Failed { message: String },
    /// The signer gave a token and the time when it expires.
    Signed { token: String, expiration_time_ms: i64 },
}

/// Why there is no token.
pub enum TokenError {
    /// AWS MSK IAM authentication is not configured.
    Unsupported,
    /// The thread that generated the token panicked.
    Panicked,
    /// The generation took too long.
    TimedOut { message: String },
    /// The signer refused.
    Failed { message: String },
}

impl TokenGeneration {
    /// Whether `result` is what an attempt that ended in this way gives.
    pub open spec fn gives(self, result: Result<OAuthToken, TokenError>) -> bool {
        match self {
            TokenGeneration::Panicked => result == Err::<OAuthToken, TokenError>(
                TokenError::Panicked,
            ),
            TokenGeneration::TimedOut { message } => result == Err::<OAuthToken, TokenError>(
                TokenError::TimedOut { message },
            ),
            TokenGeneration::Failed { message } => result == Err::<OAuthToken, TokenError>(
                TokenError::Failed { message },
            ),
            TokenGeneration::Signed { token, expiration_time_ms } => result matches Ok(t)
                && t.token == token && t.principal_name@ == Seq::<char>::empty()
                && t.lifetime_ms == expiration_time_ms,
        }
    }
}

impl TokenError {
    /// The error message.
    pub open spec fn text(self) -> Seq<char> {
        match self {
            TokenError::Unsupported =>
                "OAUTHBEARER authentication is only supported via `msk_iam`"@,
            TokenError::Panicked => "MSK IAM token generation thread panicked"@,
            TokenError::TimedOut { message } => message@,
            TokenError::Failed { message } => message@,
        }
    }

    /// The error message.
    pub fn message(&self) -> (message: &str)
        ensures
            message@ == self.text(),
            self is Unsupported ==> message@
                == "OAUTHBEARER authentication is only supported via `msk_iam`"@,
            self is Panicked ==> message@ == "MSK IAM token generation thread panicked"@,
            self matches TokenError::TimedOut { message: text } ==> message@ == text@,
            self matches TokenError::Failed { message: text } ==> message@ == text@,
    {
        match self {
            TokenError::Unsupported =>
                "OAUTHBEARER authentication is only supported via `msk_iam`",
            TokenError::Panicked => "MSK IAM token generation thread panicked",
            TokenError::TimedOut { message } => message.as_str(),
            TokenError::Failed { message } => message.as_str(),
        }
    }
}

impl KafkaAuthConfig {
    /// The provider of AWS MSK IAM tokens, where that authentication is configured.
    pub fn msk_iam_token_provider(&self) -> (provider: Option<MskIamTokenProvider>)
        ensures
            match provider {
                Some(p) => self.msk_iam is Some && p.region@ == self.msk_iam->0.region@,
                None => self.msk_iam is None,
            },
    {
        match &self.msk_iam {
            Some(msk_iam) => Some(MskIamTokenProvider { region: msk_iam.region.clone() }),
            None => None,
        }
    }
}

impl MskIamTokenProvider {
    /// The token, or the error, that an attempt to sign one ends in.
    ///
    /// A token carries no principal name.
    pub fn token(&self, generation: TokenGeneration) -> (result: Result<OAuthToken, TokenError>)
        ensures
            generation.gives(result),
            match generation {
                TokenGeneration::Signed { token, expiration_time_ms } => result matches Ok(t)
                    && t.token@ == token@ && t.principal_name@.len() == 0 && t.lifetime_ms
                    == expiration_time_ms,
                TokenGeneration::Panicked => result matches Err(TokenError::Panicked),
                TokenGeneration::TimedOut { message } => result matches Err(
                    TokenError::TimedOut { message: text },
                ) && text@ == message@,
                TokenGeneration::Failed { message } => result matches Err(
                    TokenError::Failed { message: text },
                ) && text@ == message@,
            },
    {
        match generation {
            TokenGeneration::Panicked => Err(TokenError::Panicked),
            TokenGeneration::TimedOut { message } => Err(TokenError::TimedOut { message }),
            TokenGeneration::Failed { message } => Err(TokenError::Failed { message }),
            TokenGeneration::Signed { token, expiration_time_ms } => Ok(
                OAuthToken {
                    token,
                    principal_name: String::new(),
                    lifetime_ms: expiration_time_ms,
                },
            ),
        }
    }
}

/// What a Kafka client is given to answer the callbacks of the driver.
pub struct KafkaStatisticsContext {
    /// Whether statistics are exposed with the lag of each consumer.
    pub expose_lag_metrics: bool,
    pub msk_iam_token_provider: Option<MskIamTokenProvider>,
}

impl KafkaStatisticsContext {
    /// The provider to sign a token with when the driver asks for one.
    pub fn token_provider(&self) -> (provider: Result<&MskIamTokenProvider, TokenError>)
        ensures
            match self.msk_iam_token_provider {
                Some(p) => provider == Ok::<&MskIamTokenProvider, TokenError>(&p),
                None => provider == Err::<&MskIamTokenProvider, TokenError>(
                    TokenError::Unsupported,
                ),
            },
    {
        match &self.msk_iam_token_provider {
            Some(provider) => Ok(provider),
            None => Err(TokenError::Unsupported),
        }
    }

    /// The answer to the driver when it asks for a token, where an attempt to sign one with the
    /// provider ends as `generation` says.
    pub fn generate_oauth_token(&self, generation: TokenGeneration) -> (result: Result<
        OAuthToken,
        TokenError,
    >)
        ensures
            match self.msk_iam_token_provider {
                Some(_) => generation.gives(result),
                None => result == Err::<OAuthToken, TokenError>(TokenError::Unsupported),
            },
            result is Ok <==> self.msk_iam_token_provider is Some && generation is Signed,
            result matches Ok(t) ==> t.token@ == generation->token@ && t.principal_name@.len() == 0
                && t.lifetime_ms == generation->expiration_time_ms,
            result matches Err(error) ==> match error {
                TokenError::Unsupported => self.msk_iam_token_provider is None,
                TokenError::Panicked => generation is Panicked,
                TokenError::TimedOut { message } => generation matches TokenGeneration::TimedOut {
                    message: text,
                } && message@ == text@,
                TokenError::Failed { message } => generation matches TokenGeneration::Failed {
                    message: text,
                } && message@ == text@,
            },
    {
        match &self.msk_iam_token_provider {
            Some(provider) => provider.token(generation),
            None => Err(TokenError::Unsupported),
        }
    }
}

/// A signed token is handed over as it is, for as long as it is valid and with no principal name,
/// and there is a token only where one was signed. An attempt that ended in any other way gives its
/// own error, with its own message.
pub proof fn law_signed_tokens_are_handed_over(
    provider: MskIamTokenProvider,
    generation: TokenGeneration,
    result: Result<OAuthToken, TokenError>,
)
    requires
        call_ensures(MskIamTokenProvider::token, (&provider, generation), result),
    ensures
        generation.gives(result),
        result is Ok <==> generation is Signed,
        generation matches TokenGeneration::Signed { token, expiration_time_ms } ==> (
        result matches Ok(t) && t.token@ == token@ && t.lifetime_ms == expiration_time_ms
            && t.principal_name@ =~= Seq::<char>::empty()),
        generation is Panicked ==> (result matches Err(e) && e is Panicked),
        generation matches TokenGeneration::TimedOut { message } ==> (result matches Err(e)
            && e is TimedOut && e.text() == message@),
        generation matches TokenGeneration::Failed { message } ==> (result matches Err(e)
            && e is Failed && e.text() == message@),
{
}

/// What an attempt gives tells how it ended: attempts that give the same token, or errors with the
/// same text and of the same sort, ended alike.
pub proof fn law_results_tell_how_attempts_ended(
    a: TokenGeneration,
    b: TokenGeneration,
    x: Result<OAuthToken, TokenError>,
    y: Result<OAuthToken, TokenError>,
)
    requires
        a.gives(x),
        b.gives(y),
    ensures
        a is Signed <==> x is Ok,
        x matches Ok(t) ==> a->token@ == t.token@ && a->expiration_time_ms == t.lifetime_ms
            && t.principal_name@.len() == 0,
        (x matches Ok(t) && y matches Ok(u) && t.token@ == u.token@ && t.lifetime_ms
            == u.lifetime_ms) ==> a->token@ == b->token@ && a->expiration_time_ms
            == b->expiration_time_ms,
        x matches Err(e) ==> match e {
            TokenError::Unsupported => false,
            TokenError::Panicked => a is Panicked,
            TokenError::TimedOut { message } => a is TimedOut && a->TimedOut_message@ == message@,
            TokenError::Failed { message } => a is Failed && a->Failed_message@ == message@,
        },
{
}

/// The driver is answered with a token exactly where AWS MSK IAM authentication is configured and a
/// token was signed: with that token. Where it is not configured the answer is always the same.
pub proof fn law_answers_to_the_driver(
    context: KafkaStatisticsContext,
    generation: TokenGeneration,
    result: Result<OAuthToken, TokenError>,
)
    requires
        call_ensures(KafkaStatisticsContext::generate_oauth_token, (&context, generation), result),
    ensures
        result is Ok <==> context.msk_iam_token_provider is Some && generation is Signed,
        context.msk_iam_token_provider is None <==> (result matches Err(e) && e is Unsupported),
        context.msk_iam_token_provider is Some ==> (match generation {
            TokenGeneration::Signed { token, expiration_time_ms } => result matches Ok(t)
                && t.token@ == token@ && t.lifetime_ms == expiration_time_ms
                && t.principal_name@ =~= Seq::<char>::empty(),
            TokenGeneration::Panicked => result matches Err(e) && e is Panicked,
            TokenGeneration::TimedOut { message } => result matches Err(e) && e is TimedOut
                && e->TimedOut_message@ == message@,
            TokenGeneration::Failed { message } => result matches Err(e) && e is Failed
                && e->Failed_message@ == message@,
        }),
{
}

/// A provider signs for the region that is configured, and there is one exactly where a region is.
pub proof fn law_providers_sign_for_the_region(
    auth: KafkaAuthConfig,
    provider: Option<MskIamTokenProvider>,
)
    requires
        call_ensures(KafkaAuthConfig::msk_iam_token_provider, (&auth,), provider),
    ensures
        provider is Some <==> auth.msk_iam is Some,
        provider matches Some(p) ==> p.region@ == auth.msk_iam->0.region@,
{
}

/// Where no token can be had, the message says why: in fixed words where AWS MSK IAM authentication
/// is not configured or the thread panicked, else in the words of what went wrong.
pub proof fn law_token_error_texts(error: TokenError)
    ensures
        match error {
            TokenError::Unsupported => error.text()
                == "OAUTHBEARER authentication is only supported via `msk_iam`"@,
            TokenError::Panicked => error.text() == "MSK IAM token generation thread panicked"@,
            TokenError::TimedOut { message } => error.text() == message@,
            TokenError::Failed { message } => error.text() == message@,
        },
{
}

} // verus!
