use std::collections::BTreeSet;

use ppt_stealer::config::ServerParams;
use ppt_stealer::materialize::{DirAction, DirEvent, MaterializeError, Materializer, MkdirOutcome};
use ppt_stealer::session::{
    resolve_credential, ConfigError, Credential, Retry, RetryAction, ServerField, SessionError,
    SshKeyAuthentication, MAX_ATTEMPTS,
};

/// Runs a materializer against a set of existing levels; returns the result
/// and the levels created.
fn run(depth: usize, fs: &mut BTreeSet<usize>, deny: Option<usize>) -> (Result<(), MaterializeError>, Vec<usize>, usize) {
    let mut m = Materializer::new(depth);
    let mut created = vec![];
    let mut ops = 0;
    loop {
        match m.action() {
            DirAction::Stat { level } => {
                ops += 1;
                m.step(DirEvent::Stat(fs.contains(&level)));
            }
            DirAction::Mkdir { level } => {
                ops += 1;
                let outcome = if Some(level) == deny {
                    MkdirOutcome::Failed
                } else if fs.contains(&level) {
                    MkdirOutcome::AlreadyExists
                } else {
                    fs.insert(level);
                    created.push(level);
                    MkdirOutcome::Created
                };
                m.step(DirEvent::Mkdir(outcome));
            }
            DirAction::Finished(r) => return (r, created, ops),
        }
    }
}

#[test]
fn materialize_twice_creates_once() {
    let mut fs: BTreeSet<usize> = [0].into_iter().collect();
    let (r1, c1, ops1) = run(3, &mut fs, None);
    assert_eq!(r1, Ok(()));
    assert_eq!(c1, vec![1, 2, 3]);
    assert_eq!(ops1, 7);
    let (r2, c2, ops2) = run(3, &mut fs, None);
    assert_eq!(r2, Ok(()));
    assert!(c2.is_empty());
    assert_eq!(ops2, 1);
}

#[test]
fn materialize_starts_below_lowest_existing_ancestor() {
    let mut fs: BTreeSet<usize> = [0, 1].into_iter().collect();
    let (r, c, _) = run(3, &mut fs, None);
    assert_eq!(r, Ok(()));
    assert_eq!(c, vec![2, 3]);
}

#[test]
fn unreachable_base_is_fatal() {
    let mut fs: BTreeSet<usize> = BTreeSet::new();
    let (r, c, ops) = run(2, &mut fs, None);
    assert_eq!(r, Err(MaterializeError::RemoteUnreachable));
    assert!(c.is_empty());
    assert_eq!(ops, 3);
}

#[test]
fn permission_denied_fails_this_target() {
    let mut fs: BTreeSet<usize> = [0].into_iter().collect();
    let (r, c, _) = run(3, &mut fs, Some(2));
    assert_eq!(r, Err(MaterializeError::CreateFailed { level: 2 }));
    assert_eq!(c, vec![1]);
}

#[test]
fn concurrent_creation_counts_as_success() {
    let mut m = Materializer::new(1);
    m.step(DirEvent::Stat(false));
    m.step(DirEvent::Stat(true));
    assert_eq!(m.action(), DirAction::Mkdir { level: 1 });
    m.step(DirEvent::Mkdir(MkdirOutcome::AlreadyExists));
    assert_eq!(m.action(), DirAction::Finished(Ok(())));
}

#[test]
fn reconnect_then_succeed() {
    let mut r = Retry::new();
    assert_eq!(r.action(), RetryAction::Attempt);
    let mut reconnects = vec![];
    for outcome in [false, false, false, true] {
        match r.on_attempt(outcome) {
            RetryAction::ReconnectAfter { delay_secs } => reconnects.push(delay_secs),
            RetryAction::Succeeded => break,
            other => panic!("unexpected {:?}", other),
        }
    }
    assert_eq!(reconnects, vec![1, 2, 3]);
    assert_eq!(r.action(), RetryAction::Succeeded);
    assert_eq!(r.error(), None);
}

#[test]
fn always_failing_session_is_unavailable_after_ceiling() {
    let mut r = Retry::new();
    let mut attempts = 0;
    let mut reconnects = 0;
    loop {
        attempts += 1;
        assert!(attempts <= 100, "the retry loop must end");
        match r.on_attempt(false) {
            RetryAction::ReconnectAfter { .. } => reconnects += 1,
            RetryAction::Unavailable => break,
            other => panic!("unexpected {:?}", other),
        }
    }
    assert_eq!(attempts, MAX_ATTEMPTS as usize);
    assert_eq!(attempts, 10);
    assert_eq!(reconnects, 9);
    assert_eq!(r.error(), Some(SessionError::SessionUnavailable));
    assert_eq!(r.on_attempt(true), RetryAction::Unavailable);
}

#[test]
fn custom_ceiling() {
    let mut r = Retry::with_ceiling(1);
    assert_eq!(r.on_attempt(false), RetryAction::Unavailable);
}

#[test]
fn key_authentication_is_not_supported() {
    let k = SshKeyAuthentication {
        ip: "h".to_string(),
        port: 22,
        username: "u".to_string(),
        pem_key: None,
    };
    assert_eq!(k.authenticate(), Err(SessionError::NotSupported));
}

fn params(password: Option<&str>, key_auth: bool) -> ServerParams {
    ServerParams {
        ip: Some("10.0.0.2".to_string()),
        port: Some(2222),
        username: Some("me".to_string()),
        password: password.map(|s| s.to_string()),
        key_auth,
    }
}

#[test]
fn credential_resolution() {
    match resolve_credential(&params(Some("pw"), false)).unwrap() {
        Credential::Password(p) => {
            assert_eq!(p.ip, "10.0.0.2");
            assert_eq!(p.port, 2222);
            assert_eq!(p.username, "me");
            assert_eq!(p.password, "pw");
        }
        Credential::Key(_) => panic!("expected password"),
    }
    assert!(matches!(resolve_credential(&params(None, true)), Ok(Credential::Key(_))));
    assert!(matches!(
        resolve_credential(&params(Some("pw"), true)),
        Err(ConfigError::ConflictingCredentials)
    ));
    assert!(matches!(
        resolve_credential(&params(None, false)),
        Err(ConfigError::Missing(ServerField::Password))
    ));
    let mut no_ip = params(Some("pw"), false);
    no_ip.ip = None;
    assert!(matches!(resolve_credential(&no_ip), Err(ConfigError::Missing(ServerField::Ip))));
    let mut no_port = params(Some("pw"), false);
    no_port.port = None;
    assert!(matches!(resolve_credential(&no_port), Err(ConfigError::Missing(ServerField::Port))));
    let mut no_user = params(Some("pw"), false);
    no_user.username = None;
    assert!(matches!(
        resolve_credential(&no_user),
        Err(ConfigError::Missing(ServerField::Username))
    ));
}
