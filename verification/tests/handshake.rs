use pg_handshake::coordinator::{bytes_equal, next_state, HandshakeCoordinator};
use pg_handshake::protocol::{Command, ConnState, Credential, FrontendMessage, Identity};

fn identity(user: Option<&str>) -> Identity {
    Identity { user: user.map(|u| u.to_owned()), database: Some("db".to_owned()) }
}

fn credential(salt: Option<&[u8]>, secret: &[u8]) -> Credential {
    Credential { salt: salt.map(|s| s.to_vec()), secret: secret.to_vec() }
}

#[test]
fn startup_begins_authentication_with_parameters() {
    let coordinator = HandshakeCoordinator::new();
    let params = vec![
        ("user".to_owned(), "postgres".to_owned()),
        ("database".to_owned(), "db".to_owned()),
    ];
    let command = coordinator.on_message(
        &identity(Some("postgres")),
        FrontendMessage::Startup(params.clone()),
    );
    match command {
        Command::BeginAuthentication(p) => assert_eq!(p, params),
        _ => panic!("a startup message must begin authentication"),
    }
}

#[test]
fn challenge_carries_the_fetched_salt() {
    let mut coordinator = HandshakeCoordinator::new();
    let command = coordinator.on_credential(credential(Some(&[9, 8, 7, 6]), b"md5secret"));
    match command {
        Command::SendChallenge(salt) => assert_eq!(salt, vec![9, 8, 7, 6]),
        _ => panic!("a credential with a salt must yield the challenge"),
    }
    assert_eq!(coordinator.pending_secret, b"md5secret".to_vec());
}

#[test]
fn missing_salt_aborts_without_challenge() {
    let mut coordinator = HandshakeCoordinator::new();
    coordinator.on_credential(credential(Some(&[1, 2, 3, 4]), b"earlier"));
    let command = coordinator.on_credential(credential(None, b"later"));
    assert!(matches!(command, Command::AbortMissingSalt));
    assert_eq!(coordinator.pending_secret, b"earlier".to_vec());
}

#[test]
fn matching_password_as_superuser_authenticates() {
    let mut coordinator = HandshakeCoordinator::new();
    coordinator.on_credential(credential(Some(&[1, 2, 3, 4]), b"md5abcdef"));
    let command = coordinator.on_message(
        &identity(Some("postgres")),
        FrontendMessage::PasswordResponse(b"md5abcdef".to_vec()),
    );
    assert!(matches!(command, Command::FinishSession));
}

#[test]
fn wrong_password_bytes_rejected() {
    let mut coordinator = HandshakeCoordinator::new();
    coordinator.on_credential(credential(Some(&[1, 2, 3, 4]), b"md5abcdef"));
    let command = coordinator.on_message(
        &identity(Some("postgres")),
        FrontendMessage::PasswordResponse(b"md5abcdXf".to_vec()),
    );
    match command {
        Command::RejectAndClose(r) => {
            assert_eq!(r.severity, "FATAL");
            assert_eq!(r.code, "28P01");
            assert_eq!(r.message, "Password authentication failed");
        }
        _ => panic!("a mismatched password must be rejected"),
    }
}

#[test]
fn correct_password_wrong_user_rejected() {
    let mut coordinator = HandshakeCoordinator::new();
    coordinator.on_credential(credential(Some(&[1, 2, 3, 4]), b"md5abcdef"));
    let command = coordinator.on_message(
        &identity(Some("admin")),
        FrontendMessage::PasswordResponse(b"md5abcdef".to_vec()),
    );
    match command {
        Command::RejectAndClose(r) => assert_eq!(r.code, "28P01"),
        _ => panic!("a non-superuser must be rejected even with the right bytes"),
    }
}

#[test]
fn correct_password_missing_user_rejected() {
    let mut coordinator = HandshakeCoordinator::new();
    coordinator.on_credential(credential(Some(&[1, 2, 3, 4]), b"md5abcdef"));
    let command = coordinator.on_message(
        &identity(None),
        FrontendMessage::PasswordResponse(b"md5abcdef".to_vec()),
    );
    assert!(matches!(command, Command::RejectAndClose(_)));
}

#[test]
fn unrelated_message_is_ignored() {
    let mut coordinator = HandshakeCoordinator::new();
    coordinator.on_credential(credential(Some(&[1, 2, 3, 4]), b"md5abcdef"));
    let command = coordinator.on_message(&identity(Some("postgres")), FrontendMessage::Other);
    assert!(matches!(command, Command::Ignore));
    assert_eq!(coordinator.pending_secret, b"md5abcdef".to_vec());
    assert_eq!(
        next_state(ConnState::AwaitingPassword, &command),
        ConnState::AwaitingPassword
    );
}

#[test]
fn interleaved_startups_overwrite_shared_slot() {
    // Two connections share one handler instance. Both startups are
    // processed before either password response: the second credential
    // overwrites the first's expected secret in the shared slot.
    let mut coordinator = HandshakeCoordinator::new();
    coordinator.on_credential(credential(Some(&[1, 1, 1, 1]), b"md5first"));
    coordinator.on_credential(credential(Some(&[2, 2, 2, 2]), b"md5second"));
    assert_eq!(coordinator.pending_secret, b"md5second".to_vec());

    // The first connection's correct answer is now rejected...
    let first = coordinator.on_message(
        &identity(Some("postgres")),
        FrontendMessage::PasswordResponse(b"md5first".to_vec()),
    );
    assert!(matches!(first, Command::RejectAndClose(_)));

    // ...while the second's is accepted.
    let second = coordinator.on_message(
        &identity(Some("postgres")),
        FrontendMessage::PasswordResponse(b"md5second".to_vec()),
    );
    assert!(matches!(second, Command::FinishSession));
}

#[test]
fn empty_slot_matches_empty_password() {
    // A password response that arrives before any startup reads the
    // empty slot; empty presented bytes then compare equal to it.
    let coordinator = HandshakeCoordinator::new();
    let command = coordinator.on_message(
        &identity(Some("postgres")),
        FrontendMessage::PasswordResponse(Vec::new()),
    );
    assert!(matches!(command, Command::FinishSession));
}

#[test]
fn requested_transitions() {
    let begin = Command::BeginAuthentication(Vec::new());
    let challenge = Command::SendChallenge(vec![1, 2, 3, 4]);
    let abort = Command::AbortMissingSalt;
    let finish = Command::FinishSession;
    assert_eq!(next_state(ConnState::Idle, &begin), ConnState::AwaitingPassword);
    assert_eq!(
        next_state(ConnState::AwaitingPassword, &challenge),
        ConnState::AwaitingPassword
    );
    assert_eq!(
        next_state(ConnState::AwaitingPassword, &abort),
        ConnState::AwaitingPassword
    );
    assert_eq!(next_state(ConnState::AwaitingPassword, &finish), ConnState::Authenticated);

    let coordinator = HandshakeCoordinator::new();
    let reject = coordinator.on_message(
        &identity(Some("postgres")),
        FrontendMessage::PasswordResponse(b"wrong".to_vec()),
    );
    assert_eq!(next_state(ConnState::AwaitingPassword, &reject), ConnState::Rejected);
}

#[test]
fn byte_equality_is_exact() {
    assert!(bytes_equal(&b"md5abc".to_vec(), &b"md5abc".to_vec()));
    assert!(!bytes_equal(&b"md5abc".to_vec(), &b"md5abcd".to_vec()));
    assert!(!bytes_equal(&b"md5abc".to_vec(), &b"md5abX".to_vec()));
    assert!(bytes_equal(&Vec::new(), &Vec::new()));
    assert!(!bytes_equal(&Vec::new(), &b"x".to_vec()));
}
