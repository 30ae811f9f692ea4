//! The remote session: its credentials, and the bounded retry policy that
//! every use of its channels follows.
//!
//! An operation on a channel is attempted against the current connection.
//! After the `i`-th consecutive failure the caller waits `i` seconds and
//! reconnects before the next attempt; once the ceiling of failures is
//! reached the operation fails with `SessionUnavailable`.
use vstd::prelude::*;
use crate::config::ServerParams;

verus! {

/// The number of consecutive failures after which an operation gives up.
pub const MAX_ATTEMPTS: u32 = 10;

/// Why a session could not serve an operation.
#[derive(Clone, Copy, Debug, PartialEq, Eq, Structural)]
pub enum SessionError {
    AuthenticationFailed,
    /// The retry ceiling was reached.
    SessionUnavailable,
    /// The authentication kind is recognised but not implemented.
    NotSupported,
}

/// Where a retried operation stands.
#[derive(Clone, Copy, Debug, PartialEq, Eq, Structural)]
pub enum RetryStatus {
    Trying,
    Succeeded,
    Exhausted,
}

/// What the caller does next.
#[derive(Clone, Copy, Debug, PartialEq, Eq, Structural)]
pub enum RetryAction {
    /// Attempt the operation.
    Attempt,
    /// Wait the given number of seconds, reconnect, then attempt again.
    ReconnectAfter { delay_secs: u64 },
    /// The operation succeeded.
    Succeeded,
    /// The ceiling was reached: the operation fails with `SessionUnavailable`.
    Unavailable,
}

/// The failure count and status after an attempt that succeeded (`ok`) or
/// failed.
pub open spec fn retry_next(ceiling: u32, failures: u32, status: RetryStatus, ok: bool) -> (u32, RetryStatus) {
    if status != RetryStatus::Trying {
        (failures, status)
    } else if ok {
        (failures, RetryStatus::Succeeded)
    } else if failures + 1 >= ceiling {
        ((failures + 1) as u32, RetryStatus::Exhausted)
    } else {
        ((failures + 1) as u32, RetryStatus::Trying)
    }
}

/// The request that goes with a failure count and a status.
pub open spec fn retry_action_of(failures: u32, status: RetryStatus) -> RetryAction {
    match status {
        RetryStatus::Succeeded => RetryAction::Succeeded,
        RetryStatus::Exhausted => RetryAction::Unavailable,
        RetryStatus::Trying => if failures == 0 {
            RetryAction::Attempt
        } else {
            RetryAction::ReconnectAfter { delay_secs: failures as u64 }
        },
    }
}

/// The retry policy of one operation on a session channel.
pub struct Retry {
    ceiling: u32,
    failures: u32,
    status: RetryStatus,
}

impl Retry {
    #[verifier::type_invariant]
    spec fn inv(&self) -> bool {
        &&& 1 <= self.ceiling
        &&& self.failures <= self.ceiling
        &&& self.status == RetryStatus::Trying ==> self.failures < self.ceiling
        &&& self.status == RetryStatus::Exhausted ==> self.failures == self.ceiling
    }

    /// The number of consecutive failures after which the operation gives up.
    pub closed spec fn ceiling(&self) -> u32 {
        self.ceiling
    }

    /// The consecutive failures so far.
    pub closed spec fn failures(&self) -> u32 {
        self.failures
    }

    /// Where the operation stands.
    pub closed spec fn status(&self) -> RetryStatus {
        self.status
    }

    /// A fresh operation that gives up after `ceiling` consecutive failures.
    pub fn with_ceiling(ceiling: u32) -> (r: Retry)
        requires
            ceiling >= 1,
        ensures
            r.ceiling() == ceiling,
            r.failures() == 0,
            r.status() == RetryStatus::Trying,
    {
        Retry { ceiling, failures: 0, status: RetryStatus::Trying }
    }

    /// A fresh operation with the default ceiling.
    pub fn new() -> (r: Retry)
        ensures
            r.ceiling() == MAX_ATTEMPTS,
            r.failures() == 0,
            r.status() == RetryStatus::Trying,
    {
        Retry::with_ceiling(MAX_ATTEMPTS)
    }

    /// What to do next (see `retry_action_of`).
    pub fn action(&self) -> (r: RetryAction)
        ensures
            r == retry_action_of(self.failures(), self.status()),
    {
        match self.status {
            RetryStatus::Succeeded => RetryAction::Succeeded,
            RetryStatus::Exhausted => RetryAction::Unavailable,
            RetryStatus::Trying => if self.failures == 0 {
                RetryAction::Attempt
            } else {
                RetryAction::ReconnectAfter { delay_secs: self.failures as u64 }
            },
        }
    }

    /// Records the outcome of an attempt and says what to do next. After a
    /// final outcome further calls change nothing.
    pub fn on_attempt(&mut self, ok: bool) -> (r: RetryAction)
        ensures
            final(self).ceiling() == old(self).ceiling(),
            (final(self).failures(), final(self).status()) == retry_next(
                old(self).ceiling(),
                old(self).failures(),
                old(self).status(),
                ok,
            ),
            r == retry_action_of(final(self).failures(), final(self).status()),
    {
        proof {
            use_type_invariant(&*self);
        }
        if self.status == RetryStatus::Trying {
            if ok {
                self.status = RetryStatus::Succeeded;
            } else {
                let failures = self.failures + 1;
                let status = if failures >= self.ceiling {
                    RetryStatus::Exhausted
                } else {
                    RetryStatus::Trying
                };
                *self = Retry { ceiling: self.ceiling, failures, status };
            }
        }
        self.action()
    }

    /// The error the operation ends with, if it ended in failure.
    pub fn error(&self) -> (r: Option<SessionError>)
        ensures
            r == (if self.status() == RetryStatus::Exhausted {
                Some(SessionError::SessionUnavailable)
            } else {
                None
            }),
    {
        if self.status == RetryStatus::Exhausted {
            Some(SessionError::SessionUnavailable)
        } else {
            None
        }
    }
}

/// A run of the policy on a sequence of attempt outcomes: the status it ends
/// in, the number of reconnects it asked for, and the number of attempts it
/// used. Outcomes after the final one are not looked at.
pub open spec fn run_retry(ceiling: u32, failures: u32, outcomes: Seq<bool>) -> (RetryStatus, nat, nat)
    decreases outcomes.len(),
{
    if outcomes.len() == 0 {
        (RetryStatus::Trying, 0, 0)
    } else {
        let (f, s) = retry_next(ceiling, failures, RetryStatus::Trying, outcomes[0]);
        if s == RetryStatus::Trying {
            let rest = run_retry(ceiling, f, outcomes.drop_first());
            (rest.0, rest.1 + 1, rest.2 + 1)
        } else {
            (s, 0, 1)
        }
    }
}

proof fn lemma_fail_then_succeed(ceiling: u32, failures: u32, k: nat)
    requires
        failures + k < ceiling,
    ensures
        run_retry(ceiling, failures, Seq::new(k, |i: int| false).push(true)) == (
            RetryStatus::Succeeded,
            k,
            k + 1,
        ),
    decreases k,
{
    let s = Seq::new(k, |i: int| false).push(true);
    if k > 0 {
        assert(s.drop_first() =~= Seq::new((k - 1) as nat, |i: int| false).push(true));
        lemma_fail_then_succeed(ceiling, (failures + 1) as u32, (k - 1) as nat);
    }
}

/// An operation whose first `k` attempts fail and whose next one succeeds,
/// with `k` below the ceiling, succeeds after exactly `k` reconnects.
pub proof fn lemma_reconnect_then_succeed(ceiling: u32, k: nat)
    requires
        k < ceiling,
    ensures
        run_retry(ceiling, 0, Seq::new(k, |i: int| false).push(true)) == (
            RetryStatus::Succeeded,
            k,
            k + 1,
        ),
{
    lemma_fail_then_succeed(ceiling, 0, k);
}

proof fn lemma_always_failing(ceiling: u32, failures: u32, n: nat)
    requires
        failures < ceiling,
        failures + n >= ceiling,
    ensures
        run_retry(ceiling, failures, Seq::new(n, |i: int| false)) == (
            RetryStatus::Exhausted,
            (ceiling - failures - 1) as nat,
            (ceiling - failures) as nat,
        ),
    decreases n,
{
    let s = Seq::new(n, |i: int| false);
    if failures + 1 < ceiling {
        assert(s.drop_first() =~= Seq::new((n - 1) as nat, |i: int| false));
        lemma_always_failing(ceiling, (failures + 1) as u32, (n - 1) as nat);
    }
}

/// An operation whose attempts all fail, however many are offered, gives up
/// after exactly `ceiling` attempts and `ceiling - 1` reconnects, ending in
/// `SessionUnavailable`.
pub proof fn lemma_exhaustion(ceiling: u32, n: nat)
    requires
        1 <= ceiling,
        n >= ceiling,
    ensures
        run_retry(ceiling, 0, Seq::new(n, |i: int| false)) == (
            RetryStatus::Exhausted,
            (ceiling - 1) as nat,
            ceiling as nat,
        ),
        retry_action_of(ceiling, RetryStatus::Exhausted) == RetryAction::Unavailable,
{
    lemma_always_failing(ceiling, 0, n);
}

/// Login with a user name and a password.
#[derive(Clone, Debug)]
pub struct SshPasswordAuthentication {
    pub ip: String,
    pub port: i64,
    pub username: String,
    pub password: String,
}

/// Login with a user name and a key. Recognised, not implemented.
#[derive(Clone, Debug)]
pub struct SshKeyAuthentication {
    pub ip: String,
    pub port: i64,
    pub username: String,
    pub pem_key: Option<String>,
}

impl SshKeyAuthentication {
    /// Key authentication is not implemented: it always fails with
    /// `NotSupported`, before any network work.
    pub fn authenticate(&self) -> (r: Result<(), SessionError>)
        ensures
            r == Err::<(), SessionError>(SessionError::NotSupported),
    {
        Err(SessionError::NotSupported)
    }
}

/// The one authentication kind configured for a remote destination.
#[derive(Clone, Debug)]
pub enum Credential {
    Password(SshPasswordAuthentication),
    Key(SshKeyAuthentication),
}

/// A field that the chosen authentication kind needs.
#[derive(Clone, Copy, Debug, PartialEq, Eq, Structural)]
pub enum ServerField {
    Ip,
    Port,
    Username,
    Password,
}

/// A configuration that cannot start a run.
#[derive(Clone, Copy, Debug, PartialEq, Eq, Structural)]
pub enum ConfigError {
    /// A required field is absent.
    Missing(ServerField),
    /// Both a password and key authentication are configured.
    ConflictingCredentials,
    /// A destination follows the remote one: only one remote destination,
    /// given last, is allowed.
    OnlyOneRemote,
    /// The destination kind is not implemented.
    UnsupportedTarget,
    /// A source path is not an existing directory.
    InvalidSourcePath,
    /// No desktop path was given and none could be found.
    NoDesktop,
}

/// The outcome of resolving the credential from the server parameters:
/// which error comes first, or which kind is configured.
pub open spec fn credential_error(p: ServerParams) -> Option<ConfigError> {
    if p.password is Some && p.key_auth {
        Some(ConfigError::ConflictingCredentials)
    } else if p.ip is None {
        Some(ConfigError::Missing(ServerField::Ip))
    } else if p.port is None {
        Some(ConfigError::Missing(ServerField::Port))
    } else if p.username is None {
        Some(ConfigError::Missing(ServerField::Username))
    } else if p.password is None && !p.key_auth {
        Some(ConfigError::Missing(ServerField::Password))
    } else {
        None
    }
}

/// Whether a credential carries the server parameters it was built from.
pub open spec fn credential_from(c: Credential, p: ServerParams) -> bool {
    match c {
        Credential::Password(a) => p.password == Some(a.password) && p.ip == Some(a.ip) && p.port
            == Some(a.port) && p.username == Some(a.username),
        Credential::Key(k) => p.key_auth && p.password is None && p.ip == Some(k.ip) && p.port
            == Some(k.port) && p.username == Some(k.username) && k.pem_key is None,
    }
}

/// Builds the credential of a remote destination, before any network work.
/// Exactly one authentication kind must be configured, with the fields it
/// needs.
pub fn resolve_credential(p: &ServerParams) -> (r: Result<Credential, ConfigError>)
    ensures
        r is Err <==> credential_error(*p) is Some,
        r is Err ==> r == Err::<Credential, ConfigError>(credential_error(*p)->0),
        r is Ok ==> credential_from(r->Ok_0, *p),
{
    if p.password.is_some() && p.key_auth {
        return Err(ConfigError::ConflictingCredentials);
    }
    let ip = match &p.ip {
        Some(ip) => ip.clone(),
        None => {
            return Err(ConfigError::Missing(ServerField::Ip));
        },
    };
    let port = match p.port {
        Some(port) => port,
        None => {
            return Err(ConfigError::Missing(ServerField::Port));
        },
    };
    let username = match &p.username {
        Some(u) => u.clone(),
        None => {
            return Err(ConfigError::Missing(ServerField::Username));
        },
    };
    match &p.password {
        Some(pw) => Ok(
            Credential::Password(
                SshPasswordAuthentication { ip, port, username, password: pw.clone() },
            ),
        ),
        None => {
            if p.key_auth {
                Ok(Credential::Key(SshKeyAuthentication { ip, port, username, pem_key: None }))
            } else {
                Err(ConfigError::Missing(ServerField::Password))
            }
        },
    }
}

} // verus!
