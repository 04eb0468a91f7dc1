use quic_talk::launch::{
    console_starts, identity, interrupt, role, shutdown, Interrupt, Role, Shutdown,
};
use quic_talk::message::{Body, Control, File, Message, Timestamp};
use quic_talk::resolve::{
    authority_text, check_url, connected, dialled, first_address, remote, resolve_url, server_name,
    ConnectError, ResolveError, Target, UrlParts, QUIC_DEFAULT_PORT,
};
use quic_talk::session::SessionState;
use quic_talk::state::QuicTalkState;
use quic_talk::text::{byte_list_text, decimal_text, same_text};
use quic_talk::ui::{compose, show, EmptyUser, Inbox};
use quic_talk::user::User;

const NOW: Timestamp = Timestamp { secs: 10, nanos: 20 };

fn message(data: Body) -> Message {
    let user = User::new("al\"ice".to_string(), "a@b".to_string(), "id".to_string());
    Message { time: NOW, user, data }
}

fn resolved(url: &str) -> Result<(String, u16), ResolveError> {
    resolve_url(url.to_string()).map(|t| (t.host, t.port))
}

#[test]
fn url_gives_host_and_port() {
    assert_eq!(resolved("https://localhost:12345"), Ok(("localhost".to_string(), 12345)));
    assert_eq!(resolved("https://Example.ORG/path?q"), Ok(("example.org".to_string(), 4433)));
    assert_eq!(resolved("https://[::1]:1"), Ok(("[::1]".to_string(), 1)));
    assert_eq!(QUIC_DEFAULT_PORT, 4433);
}

#[test]
fn https_port_counts_as_absent() {
    assert_eq!(resolved("https://localhost:443"), Ok(("localhost".to_string(), 4433)));
    assert_eq!(resolved("https://localhost:80"), Ok(("localhost".to_string(), 80)));
}

#[test]
fn bad_urls_are_refused() {
    assert_eq!(resolved("localhost"), Err(ResolveError::CannotParse));
    assert_eq!(resolved("https://"), Err(ResolveError::CannotParse));
    assert_eq!(resolved("http://localhost"), Err(ResolveError::WrongScheme));
    assert_eq!(resolved("mailto:a@b"), Err(ResolveError::WrongScheme));
}

#[test]
fn parts_of_a_url_are_checked() {
    let parts = |scheme: &str, host: Option<&str>, port| {
        Some(UrlParts { scheme: scheme.to_string(), host: host.map(|h| h.to_string()), port })
    };
    assert_eq!(check_url(None), Err(ResolveError::CannotParse));
    assert_eq!(check_url(parts("http", None, None)), Err(ResolveError::WrongScheme));
    assert_eq!(check_url(parts("https", None, Some(1))), Err(ResolveError::NoHost));
    assert_eq!(
        check_url(parts("https", Some("h"), Some(443))),
        Ok(Target { host: "h".to_string(), port: 443 })
    );
    assert_eq!(
        check_url(parts("https", Some("h"), None)),
        Ok(Target { host: "h".to_string(), port: 4433 })
    );
}

#[test]
fn resolve_errors_have_their_texts() {
    assert_eq!(ResolveError::CannotParse.message(), "cannot parse URL.");
    assert_eq!(ResolveError::WrongScheme.message(), "URL Scheme can only be \"https\".");
    assert_eq!(ResolveError::NoHost.message(), "invalid URL");
    assert_eq!(ResolveError::NoAddress.message(), "couldn't resolve to an address");
}

#[test]
fn first_address_is_used() {
    assert_eq!(first_address(vec![1, 2]), Some(1));
    assert_eq!(first_address::<u8>(vec![]), None);
    assert_eq!(remote("h".to_string(), vec![7, 8]), Ok(("h".to_string(), 7)));
    assert_eq!(remote::<u8>("h".to_string(), vec![]), Err(ResolveError::NoAddress));
    assert_eq!(authority_text("[::1]", 4433), "[::1]:4433");
    assert_ne!(authority_text("h", 12), authority_text("h1", 2));
    assert_eq!(server_name(Some("given".to_string()), "h".to_string()), "given");
    assert_eq!(server_name(None, "h".to_string()), "h");
}

#[test]
fn host_without_an_address_is_not_dialled() {
    assert_eq!(dialled(vec![7, 8]), Ok(7));
    assert_eq!(dialled::<u8>(vec![]), Err(ConnectError::NoAddress));
    assert_eq!(ConnectError::NoAddress.message(), "invalid hostname or port");
    assert_eq!(connected::<u8>(Ok(1)), Ok(1));
    let e = connected::<u8>(Err("timed out".to_string())).unwrap_err();
    assert_eq!(e, ConnectError::Failed("timed out".to_string()));
    assert_eq!(e.message(), "failed to connect: timed out");
}

#[test]
fn numbers_and_bytes_are_written_in_decimal() {
    for n in [0, 9, 10, 99, 100, 65535, u64::MAX] {
        assert_eq!(decimal_text(n), n.to_string());
    }
    for b in [vec![], vec![0], vec![255, 10, 9]] {
        assert_eq!(byte_list_text(&b), format!("{b:?}"));
    }
    assert!(same_text("ä", "ä"));
    assert!(!same_text("a", "b"));
}

#[test]
fn typed_line_becomes_a_message() {
    let me = Some(message(Body::Auth).user);
    assert_eq!(compose("hello", &me, NOW), Ok(message(Body::String("hello".to_string()))));
    assert_eq!(compose("höllo\n", &me, NOW), Ok(message(Body::String("höllo".to_string()))));
    assert_eq!(compose("\n\n", &me, NOW), Ok(message(Body::String("\n".to_string()))));
    assert_eq!(compose("", &me, NOW), Ok(message(Body::String(String::new()))));
    assert_eq!(compose("hello", &None, NOW), Err(EmptyUser));
    assert_eq!(EmptyUser.message(), "empty user");
}

#[test]
fn typed_line_is_shown_to_the_other() {
    let me = Some(User::new("bob".to_string(), String::new(), String::new()));
    let m = compose("hi\n", &me, NOW).unwrap();
    assert_eq!(show(&m, ""), "[Got message from bob]hi");
}

#[test]
fn files_and_bytes_are_shown() {
    let file = File { name: "a\n\"b\"".to_string(), size: 3, data: vec![1, 2, 3] };
    assert_eq!(
        show(&message(Body::File(file)), ""),
        "[Got new file from al\"ice] File { name: \"a\\n\\\"b\\\"\", size: 3, data: [1, 2, 3] }"
    );
    assert_eq!(show(&message(Body::Bytes(vec![4, 5])), ""), "[Got bytes from al\"ice][4, 5]");
}

#[test]
fn other_messages_are_shown_as_unknown() {
    for data in [
        Body::Auth,
        Body::Control(Control::CloseByPeer),
        Body::Control(Control::Acknowledge),
        Body::Control(Control::RetransmissionRequest),
        Body::Control(Control::Verified),
        Body::Control(Control::ConnectionDenied),
    ] {
        let m = message(data);
        let time = format!("{:?}", m.time);
        assert_eq!(show(&m, &time), format!("[Got unknown message]: {m:?}"));
    }
    assert_eq!(
        show(&message(Body::Auth), "T"),
        "[Got unknown message]: Message { time: T, user: User { username: \"al\\\"ice\", \
         email: \"a@b\", user_id: \"id\" }, data: Auth }"
    );
}

#[test]
fn inbox_keeps_messages_in_order() {
    let mut inbox = Inbox::new();
    inbox.receive::<()>(Ok(message(Body::Bytes(vec![1]))));
    inbox.receive(Err("broken"));
    inbox.receive::<()>(Ok(message(Body::Bytes(vec![2]))));
    let bodies: Vec<Body> = inbox.drain().into_iter().map(|m| m.data).collect();
    assert_eq!(bodies, vec![Body::Bytes(vec![1]), Body::Bytes(vec![2])]);
    assert_eq!(inbox.drain(), vec![]);
    inbox.receive(Err("broken"));
    assert_eq!(inbox.drain(), vec![]);
}

fn sessions(state: &QuicTalkState<u32>) -> Vec<u32> {
    (0..state.len()).map(|i| *state.get(i).unwrap()).collect()
}

#[test]
fn collection_removes_what_has_ended() {
    let mut state: QuicTalkState<u32> = QuicTalkState::new();
    assert_eq!(state.len(), 0);
    assert_eq!(state.get(0), None);
    for i in 0..5 {
        assert_eq!(state.push(i), i as usize + 1);
    }
    let t = SessionState::Terminated;
    state.collect(&vec![t, SessionState::Established, t, t, SessionState::Closed]);
    assert_eq!(sessions(&state), vec![1, 4]);
    state.collect(&vec![SessionState::Ready, SessionState::Authenticating]);
    assert_eq!(sessions(&state), vec![1, 4]);
    state.collect(&vec![t, t]);
    assert_eq!(sessions(&state), Vec::<u32>::new());
}

#[test]
fn only_completed_handshakes_give_sessions() {
    let mut state: QuicTalkState<u32> = QuicTalkState::new();
    assert_eq!(state.handshaken::<&str>(Ok(5)), Ok(1));
    assert_eq!(state.handshaken::<&str>(Ok(6)), Ok(2));
    assert_eq!(state.handshaken(Err("lost")), Err("lost"));
    assert_eq!(sessions(&state), vec![5, 6]);
}

#[test]
fn mode_decides_the_role() {
    assert_eq!(role("server"), Role::Server);
    assert_eq!(role("client"), Role::Client);
    assert_eq!(role("Client"), Role::Idle);
    let server = User::new(
        "server".to_string(),
        "localhost@localhost".to_string(),
        "e8b32bc4d7b564ac6075a1418ad8841e".to_string(),
    );
    let client = User::new(
        "client".to_string(),
        "localhost@localhost".to_string(),
        "a7d399659b333e931046e4959e635e32".to_string(),
    );
    assert_eq!(identity("client"), client);
    assert_eq!(identity("server"), server);
    assert_eq!(identity("other"), server);
}

#[test]
fn second_interrupt_ends_the_program() {
    assert_eq!(interrupt(0), (1, Interrupt::Close));
    assert_eq!(interrupt(1), (2, Interrupt::ForceExit));
}

#[test]
fn program_ends_when_asked() {
    assert_eq!(shutdown(false, 0), Shutdown::Run);
    assert_eq!(shutdown(false, 3), Shutdown::Run);
    assert_eq!(shutdown(true, 0), Shutdown::Exit);
    assert_eq!(shutdown(true, 3), Shutdown::CloseSessions);
}

#[test]
fn console_waits_for_a_session() {
    assert!(!console_starts(0));
    assert!(console_starts(1));
    assert!(console_starts(2));
}
