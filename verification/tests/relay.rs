use nix_relay::auth::AuthInfo;
use nix_relay::error::Error;
use nix_relay::relay::{bearer_token, follow_auth, RelayStep};
use nix_relay::service::AuthStep;
use nix_relay::session::{
    log_step, EndReason, Frame, LogStep, RelaySession, SessionAction, SessionEvent,
};

#[test]
fn bearer_tokens_follow_the_scheme() {
    assert_eq!(bearer_token(Some(b"Bearer abc.def")).unwrap(), "abc.def");
    assert_eq!(bearer_token(Some(b"Bearer ")).unwrap(), "");
    assert_eq!(bearer_token(Some(b"Bearer  x")).unwrap(), " x");
    assert_eq!(bearer_token(Some(b"Bearer a\tb")).unwrap(), "a\tb");
    assert!(matches!(bearer_token(None), Err(Error::MissingAuth)));
    let malformed: Vec<&[u8]> = vec![
        b"",
        b"Bearer",
        b"bearer abc",
        b"Basic abc",
        b" Bearer abc",
        b"Bearer \xc3\xa9",
        b"Bearer \x7f",
        b"Bearer \n",
        b"Bearer \x00",
    ];
    for value in malformed {
        assert!(matches!(bearer_token(Some(value)), Err(Error::InvalidAuthFormat)));
    }
}

#[test]
fn requests_go_on_as_their_token_says() {
    let accepted = AuthStep::Accepted(AuthInfo { client_identity: "me".to_string() });
    assert!(matches!(
        follow_auth("t".to_string(), accepted),
        RelayStep::TakeSlot { client } if client == "me"
    ));
    let rejected = AuthStep::Rejected(Error::MissingAuth);
    assert!(matches!(
        follow_auth("t".to_string(), rejected),
        RelayStep::Reject(Error::MissingAuth)
    ));
    let waiting = AuthStep::NeedsKeys { kid: "k".to_string() };
    assert!(matches!(
        follow_auth("t".to_string(), waiting),
        RelayStep::FetchKeys { token, kid } if token == "t" && kid == "k"
    ));
}

#[test]
fn errors_have_a_status_and_a_message() {
    let s = || "why".to_string();
    let all = vec![
        (Error::MissingAuth, 401, "missing Authorization header"),
        (Error::InvalidAuthFormat, 401, "invalid Authorization header format"),
        (Error::OidcDiscovery(s()), 500, "OIDC discovery failed: why"),
        (Error::Jwks(s()), 500, "JWKS error: why"),
        (Error::JwtValidation(s()), 403, "JWT validation failed: why"),
        (Error::Unauthorized(s()), 403, "unauthorized: why"),
        (Error::TooManyConnections, 503, "too many connections"),
        (Error::DaemonSpawn(s()), 500, "daemon spawn failed: why"),
        (Error::Config(s()), 500, "config error: why"),
    ];
    for (error, status, message) in all {
        assert_eq!(error.status(), status);
        assert_eq!(error.message(), message);
        assert_eq!(error.into_response(), (status, message.to_string()));
    }
}

#[test]
fn sessions_relay_both_ways_until_they_end() {
    let mut session = RelaySession::new();
    let mut written: Vec<u8> = Vec::new();
    let mut sent: Vec<u8> = Vec::new();
    let events = vec![
        SessionEvent::ClientFrame(Frame::Binary(vec![1, 2])),
        SessionEvent::DaemonOutput(vec![9]),
        SessionEvent::ClientFrame(Frame::Other),
        SessionEvent::ClientFrame(Frame::Binary(vec![])),
        SessionEvent::ClientFrame(Frame::Binary(vec![3])),
        SessionEvent::DaemonOutput(vec![8, 7]),
        SessionEvent::DaemonOutput(vec![]),
        SessionEvent::ClientFrame(Frame::Binary(vec![4])),
        SessionEvent::DaemonOutput(vec![6]),
        SessionEvent::TimedOut,
    ];
    for event in events {
        match session.on_event(event) {
            SessionAction::WriteDaemon(data) => written.extend(data),
            SessionAction::SendClient(data) => sent.extend(data),
            SessionAction::Wait => (),
            SessionAction::End(reason) => assert_eq!(reason, EndReason::DaemonDone),
        }
    }
    assert_eq!(written, vec![1, 2, 3]);
    assert_eq!(sent, vec![9, 8, 7]);
    assert_eq!(session.end_reason(), Some(EndReason::DaemonDone));
}

#[test]
fn sessions_end_for_a_reason() {
    let ends = vec![
        (SessionEvent::ClientFrame(Frame::Close), EndReason::ClientClosed),
        (SessionEvent::ClientGone, EndReason::ClientClosed),
        (SessionEvent::ClientFailed, EndReason::ClientFailed),
        (SessionEvent::DaemonOutput(vec![]), EndReason::DaemonDone),
        (SessionEvent::DaemonFailed, EndReason::DaemonFailed),
        (SessionEvent::DaemonWriteFailed, EndReason::DaemonWriteFailed),
        (SessionEvent::ClientSendFailed, EndReason::ClientSendFailed),
        (SessionEvent::TimedOut, EndReason::TimedOut),
    ];
    for (event, reason) in ends {
        let mut session = RelaySession::new();
        assert_eq!(session.end_reason(), None);
        assert!(matches!(session.on_event(event), SessionAction::End(r) if r == reason));
        assert_eq!(session.end_reason(), Some(reason));
    }
}

#[test]
fn error_output_is_logged_until_it_ends() {
    assert_eq!(log_step(Some(5)), LogStep::Log(5));
    assert_eq!(log_step(Some(0)), LogStep::Stop);
    assert_eq!(log_step(None), LogStep::Stop);
}
