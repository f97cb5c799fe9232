use vstd::prelude::*;
use vstd::string::StringExecFns;

verus! {

/// TCP port the cluster listens on unless told otherwise.
pub const DEFAULT_PORT: u16 = 5432;

/// Upper bound on the pool's concurrent connections unless told otherwise.
pub const DEFAULT_MAX_CONNECTIONS: u32 = 10;

/// Seconds granted to each outside step unless told otherwise.
pub const DEFAULT_TIMEOUT_SECS: u64 = 30;

/// Everything that can stop a connection attempt.
#[derive(Clone, Copy, Debug, PartialEq, Eq, Structural)]
pub enum ConnectError {
    /// The endpoint hostname is empty.
    InvalidEndpoint,
    /// The region identifier is empty.
    InvalidRegion,
    /// The pool was asked to hold no connection at all.
    InvalidPoolSize,
    /// No usable ambient credentials were found.
    CredentialError,
    /// Signing or fetching the token failed or timed out.
    TokenGenerationError,
    /// The TLS handshake or the authentication with the token failed.
    ConnectionError,
}

impl ConnectError {
    /// A transient failure may succeed when tried again with a fresh token;
    /// a permanent one will not.
    pub open spec fn spec_is_retryable(&self) -> bool {
        self is TokenGenerationError || self is ConnectionError
    }

    #[verifier::when_used_as_spec(spec_is_retryable)]
    pub fn is_retryable(&self) -> (r: bool)
        ensures
            r == self.spec_is_retryable(),
    {
        match self {
            ConnectError::TokenGenerationError | ConnectError::ConnectionError => true,
            _ => false,
        }
    }
}

/// Where credentials are looked for.
#[derive(Clone, Copy, Debug, PartialEq, Eq, Structural)]
pub enum CredentialSource {
    /// The provider's default chain: environment, profile, attached role.
    DefaultChain,
    /// Environment variables only.
    Environment,
    /// The shared configuration and credential files only.
    ConfigFile,
    /// The role attached to the machine only.
    AttachedRole,
}

/// The settings of one connection attempt.
#[derive(Debug)]
pub struct ConnectConfig {
    /// Hostname of the cluster.
    pub endpoint: String,
    /// Cloud region the token is scoped to.
    pub region: String,
    pub port: u16,
    pub database: String,
    /// Role the token authenticates; the administrative role by default.
    pub username: String,
    pub max_connections: u32,
    pub credentials: CredentialSource,
    pub credential_timeout_secs: u64,
    pub token_timeout_secs: u64,
    pub connect_timeout_secs: u64,
}

/// The first reason, if any, why `c` cannot be used for an attempt.
pub open spec fn config_error(c: ConnectConfig) -> Option<ConnectError> {
    if c.endpoint@.len() == 0 {
        Some(ConnectError::InvalidEndpoint)
    } else if c.region@.len() == 0 {
        Some(ConnectError::InvalidRegion)
    } else if c.max_connections == 0 {
        Some(ConnectError::InvalidPoolSize)
    } else {
        None
    }
}

impl ConnectConfig {
    pub open spec fn valid(self) -> bool {
        config_error(self) is None
    }

    /// Settings for `endpoint` in `region` on `port`, with the default
    /// database, administrative role, pool size and timeouts, looking for
    /// credentials along the default chain.
    pub fn new(endpoint: String, region: String, port: u16) -> (r: ConnectConfig)
        ensures
            r.endpoint == endpoint,
            r.region == region,
            r.port == port,
            r.database@ == "postgres"@,
            r.username@ == "admin"@,
            r.max_connections == DEFAULT_MAX_CONNECTIONS,
            r.credentials == CredentialSource::DefaultChain,
            r.credential_timeout_secs == DEFAULT_TIMEOUT_SECS,
            r.token_timeout_secs == DEFAULT_TIMEOUT_SECS,
            r.connect_timeout_secs == DEFAULT_TIMEOUT_SECS,
    {
        ConnectConfig {
            endpoint,
            region,
            port,
            database: String::from_str("postgres"),
            username: String::from_str("admin"),
            max_connections: DEFAULT_MAX_CONNECTIONS,
            credentials: CredentialSource::DefaultChain,
            credential_timeout_secs: DEFAULT_TIMEOUT_SECS,
            token_timeout_secs: DEFAULT_TIMEOUT_SECS,
            connect_timeout_secs: DEFAULT_TIMEOUT_SECS,
        }
    }

    /// The first reason why these settings cannot be used, or `Ok`.
    pub fn validate(&self) -> (r: Result<(), ConnectError>)
        ensures
            r is Ok <==> self.valid(),
            r is Err ==> Some(r->Err_0) == config_error(*self),
    {
        if self.endpoint.as_str().is_empty() {
            Err(ConnectError::InvalidEndpoint)
        } else if self.region.as_str().is_empty() {
            Err(ConnectError::InvalidRegion)
        } else if self.max_connections == 0 {
            Err(ConnectError::InvalidPoolSize)
        } else {
            Ok(())
        }
    }
}

} // verus!
