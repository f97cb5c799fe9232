use vstd::prelude::*;
use crate::config::{config_error, ConnectConfig, ConnectError, CredentialSource};

verus! {

/// Where a connection attempt stands.
#[derive(Clone, Copy, Debug, PartialEq, Eq, Structural)]
pub enum Phase {
    /// Created, not started.
    Idle,
    AwaitingCredentials,
    AwaitingToken,
    AwaitingPool,
    /// The pool is open and handed to the caller.
    Connected,
    /// Closed by the caller; final.
    Closed,
    /// The attempt failed; final.
    Failed,
}

/// What the caller observed since the last action.
#[derive(Debug)]
pub enum Event {
    /// The caller wants a connection.
    Start,
    /// The credential source yielded credentials.
    CredentialsLoaded,
    /// The credential source yielded none.
    CredentialsMissing,
    /// The token service returned this token.
    TokenIssued(String),
    /// The token service failed or did not answer in time.
    TokenFailed,
    /// The database accepted the token and the pool is open.
    PoolOpened,
    /// The handshake or the authentication failed.
    PoolRejected,
    /// The caller is done with the connection.
    Close,
}

/// The settings the pool is to be opened with.
#[derive(Debug)]
pub struct PoolRequest {
    pub host: String,
    pub port: u16,
    pub database: String,
    pub username: String,
    /// The freshly issued token, used as the password.
    pub password: String,
    pub max_connections: u32,
    /// Certificates are checked along the full chain, never opportunistically.
    pub verify_full: bool,
    pub timeout_secs: u64,
}

/// What the caller is to do next.
#[derive(Debug)]
pub enum Action {
    /// Load credentials from this source.
    LoadCredentials { source: CredentialSource, timeout_secs: u64 },
    /// Ask the token service for an administrative token for this host.
    RequestToken { hostname: String, region: String, timeout_secs: u64 },
    /// Open the pool; it establishes one connection before it is handed out.
    OpenPool(PoolRequest),
    /// The pool is ready: hand it to the user.
    Ready,
    /// Close the pool.
    ClosePool,
    /// Give up with this error.
    Fail(ConnectError),
    /// Nothing to do.
    NoOp,
}

impl Action {
    /// An action that reaches the token service or the database.
    pub open spec fn is_network(self) -> bool {
        self is RequestToken || self is OpenPool
    }
}

/// One connection attempt and its pool's lifetime. The pool keeps the token
/// it was opened with: nothing renews it, so a pool that outlives the token
/// cannot open further connections.
#[derive(Debug)]
pub struct Connector {
    pub config: ConnectConfig,
    pub phase: Phase,
    /// The token the pool was opened with; empty before one is issued.
    pub password: String,
    /// Connections known to be open in the pool.
    pub open_connections: u32,
    pub error: Option<ConnectError>,
}

/// What the pool is opened with, given the settings and the token.
pub open spec fn pool_request(c: ConnectConfig, token: String) -> PoolRequest {
    PoolRequest {
        host: c.endpoint,
        port: c.port,
        database: c.database,
        username: c.username,
        password: token,
        max_connections: c.max_connections,
        verify_full: true,
        timeout_secs: c.connect_timeout_secs,
    }
}

/// `s` failed with `e`, and the action that reports it.
pub open spec fn failed(s: Connector, e: ConnectError) -> (Connector, Action) {
    (Connector { phase: Phase::Failed, error: Some(e), ..s }, Action::Fail(e))
}

/// `s` in phase `p`, all else kept.
pub open spec fn moved(s: Connector, p: Phase) -> Connector {
    Connector { phase: p, ..s }
}

/// The transition relation: the state after `e` and the action it calls for.
/// An empty token counts as a failure of the token service. Events that do
/// not belong to the current phase change nothing.
pub open spec fn next(s: Connector, e: Event) -> (Connector, Action) {
    match s.phase {
        Phase::Idle => match e {
            Event::Start => match config_error(s.config) {
                Some(err) => failed(s, err),
                None => (
                    moved(s, Phase::AwaitingCredentials),
                    Action::LoadCredentials {
                        source: s.config.credentials,
                        timeout_secs: s.config.credential_timeout_secs,
                    },
                ),
            },
            Event::Close => (moved(s, Phase::Closed), Action::NoOp),
            _ => (s, Action::NoOp),
        },
        Phase::AwaitingCredentials => match e {
            Event::CredentialsLoaded => (
                moved(s, Phase::AwaitingToken),
                Action::RequestToken {
                    hostname: s.config.endpoint,
                    region: s.config.region,
                    timeout_secs: s.config.token_timeout_secs,
                },
            ),
            Event::CredentialsMissing => failed(s, ConnectError::CredentialError),
            Event::Close => (moved(s, Phase::Closed), Action::NoOp),
            _ => (s, Action::NoOp),
        },
        Phase::AwaitingToken => match e {
            Event::TokenIssued(t) => if t@.len() == 0 {
                failed(s, ConnectError::TokenGenerationError)
            } else {
                (
                    Connector { phase: Phase::AwaitingPool, password: t, ..s },
                    Action::OpenPool(pool_request(s.config, t)),
                )
            },
            Event::TokenFailed => failed(s, ConnectError::TokenGenerationError),
            Event::Close => (moved(s, Phase::Closed), Action::NoOp),
            _ => (s, Action::NoOp),
        },
        Phase::AwaitingPool => match e {
            Event::PoolOpened => (
                Connector { phase: Phase::Connected, open_connections: 1, ..s },
                Action::Ready,
            ),
            Event::PoolRejected => failed(s, ConnectError::ConnectionError),
            Event::Close => (moved(s, Phase::Closed), Action::NoOp),
            _ => (s, Action::NoOp),
        },
        Phase::Connected => match e {
            Event::Close => (
                Connector { phase: Phase::Closed, open_connections: 0, ..s },
                Action::ClosePool,
            ),
            _ => (s, Action::NoOp),
        },
        Phase::Closed | Phase::Failed => (s, Action::NoOp),
    }
}

impl Connector {
    /// A connector for `config`, not started.
    pub fn new(config: ConnectConfig) -> (r: Connector)
        ensures
            is_initial(r, config),
    {
        Connector {
            config,
            phase: Phase::Idle,
            password: String::new(),
            open_connections: 0,
            error: None,
        }
    }

    fn fail(&mut self, e: ConnectError) -> (r: Action)
        ensures
            (*final(self), r) == failed(*old(self), e),
    {
        self.phase = Phase::Failed;
        self.error = Some(e);
        Action::Fail(e)
    }

    /// Takes in what the caller observed and answers with what to do next.
    pub fn step(&mut self, e: Event) -> (r: Action)
        ensures
            (*final(self), r) == next(*old(self), e),
    {
        match self.phase {
            Phase::Idle => match e {
                Event::Start => match self.config.validate() {
                    Err(err) => self.fail(err),
                    Ok(()) => {
                        self.phase = Phase::AwaitingCredentials;
                        Action::LoadCredentials {
                            source: self.config.credentials,
                            timeout_secs: self.config.credential_timeout_secs,
                        }
                    },
                },
                Event::Close => {
                    self.phase = Phase::Closed;
                    Action::NoOp
                },
                _ => Action::NoOp,
            },
            Phase::AwaitingCredentials => match e {
                Event::CredentialsLoaded => {
                    self.phase = Phase::AwaitingToken;
                    Action::RequestToken {
                        hostname: self.config.endpoint.clone(),
                        region: self.config.region.clone(),
                        timeout_secs: self.config.token_timeout_secs,
                    }
                },
                Event::CredentialsMissing => self.fail(ConnectError::CredentialError),
                Event::Close => {
                    self.phase = Phase::Closed;
                    Action::NoOp
                },
                _ => Action::NoOp,
            },
            Phase::AwaitingToken => match e {
                Event::TokenIssued(t) => {
                    if t.as_str().is_empty() {
                        self.fail(ConnectError::TokenGenerationError)
                    } else {
                        let req = PoolRequest {
                            host: self.config.endpoint.clone(),
                            port: self.config.port,
                            database: self.config.database.clone(),
                            username: self.config.username.clone(),
                            password: t.clone(),
                            max_connections: self.config.max_connections,
                            verify_full: true,
                            timeout_secs: self.config.connect_timeout_secs,
                        };
                        self.phase = Phase::AwaitingPool;
                        self.password = t;
                        Action::OpenPool(req)
                    }
                },
                Event::TokenFailed => self.fail(ConnectError::TokenGenerationError),
                Event::Close => {
                    self.phase = Phase::Closed;
                    Action::NoOp
                },
                _ => Action::NoOp,
            },
            Phase::AwaitingPool => match e {
                Event::PoolOpened => {
                    self.phase = Phase::Connected;
                    self.open_connections = 1;
                    Action::Ready
                },
                Event::PoolRejected => self.fail(ConnectError::ConnectionError),
                Event::Close => {
                    self.phase = Phase::Closed;
                    Action::NoOp
                },
                _ => Action::NoOp,
            },
            Phase::Connected => match e {
                Event::Close => {
                    self.phase = Phase::Closed;
                    self.open_connections = 0;
                    Action::ClosePool
                },
                _ => Action::NoOp,
            },
            Phase::Closed | Phase::Failed => Action::NoOp,
        }
    }
}

/// `s` is a connector for `c` that has not started.
pub open spec fn is_initial(s: Connector, c: ConnectConfig) -> bool {
    &&& s.config == c
    &&& s.phase == Phase::Idle
    &&& s.password@.len() == 0
    &&& s.open_connections == 0
    &&& s.error is None
}

} // verus!
