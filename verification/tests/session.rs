use quic_talk::exchange::take_piece;
use quic_talk::lifecycle::{Listener, ListenerAction, Phase, Service};
use quic_talk::message::{Body, Control, File, Message, Timestamp};
use quic_talk::session::{
    hand_on, Delivery, Dispatch, Exchange, Response, Session, SessionError, SessionState,
};
use quic_talk::user::User;

const NOW: Timestamp = Timestamp { secs: 1_700_000_000, nanos: 5 };
const LATER: Timestamp = Timestamp { secs: 1_700_000_001, nanos: 6 };

fn user(name: &str) -> User {
    User::new(name.to_string(), format!("{name}@localhost"), format!("{name}-id"))
}

fn text(name: &str, s: &str) -> Message {
    Message { time: NOW, user: user(name), data: Body::String(s.to_string()) }
}

fn control(code: Control) -> Message {
    Message { time: NOW, user: user("peer"), data: Body::Control(code) }
}

/// A session whose peer has introduced itself and has accepted the local user.
fn established(me: &str) -> Session {
    let mut s = Session::new(Some(user(me)));
    let mut phase = s.advance(Phase::Opened, true);
    phase = s.advance(phase, true);
    s.record_peer(&Message { time: NOW, user: user("peer"), data: Body::Auth });
    assert_eq!(s.advance(phase, true), Phase::Sending);
    s
}

fn replied(r: Response) -> Message {
    match r {
        Response::Reply(m) => m,
        Response::Finish => panic!("no reply"),
    }
}

fn sent(d: Dispatch) -> Message {
    match d {
        Dispatch::Send(m) => m,
        _ => panic!("nothing was sent"),
    }
}

#[test]
fn new_user_holds_its_three_texts() {
    let u = User::new("a".to_string(), "b".to_string(), "c".to_string());
    assert_eq!(u.username, "a");
    assert_eq!(u.email, "b");
    assert_eq!(u.user_id, "c");
    assert_eq!(u.clone(), u);
}

#[test]
fn cloned_messages_are_equal() {
    let file = File { name: "n".to_string(), size: 3, data: vec![1, 2, 3] };
    for data in vec![
        Body::String("s".to_string()),
        Body::Bytes(vec![9]),
        Body::File(file),
        Body::Auth,
        Body::Control(Control::Verified),
    ] {
        let m = Message { time: NOW, user: user("a"), data };
        assert_eq!(m.clone(), m);
    }
}

#[test]
fn fresh_session_is_ready_and_empty() {
    let mut s = Session::new(Some(user("me")));
    assert_eq!(s.get_state(), SessionState::Ready);
    assert!(s.has_user());
    assert!(!s.is_terminated());
    assert_eq!(s.get_peername(), Err(SessionError::NoPeer));
    assert!(matches!(s.dispatch(), Dispatch::Idle));
    assert!(!Session::new(None).has_user());
}

#[test]
fn two_peers_recognise_each_other() {
    let a = Session::new(Some(user("alice")));
    let mut b = Session::new(Some(user("bob")));
    let request = a.auth(NOW).unwrap();
    assert_eq!(request, Message { time: NOW, user: user("alice"), data: Body::Auth });
    let reply = b.verify(&request, LATER).unwrap();
    assert_eq!(
        reply,
        Message { time: LATER, user: user("bob"), data: Body::Control(Control::Verified) }
    );
    assert_eq!(Session::check_auth_reply(&reply), Ok(()));
    b.record_peer(&request);
    assert_eq!(b.get_peername(), Ok("alice".to_string()));
}

#[test]
fn authentication_needs_a_user() {
    let s = Session::new(None);
    let request = Session::new(Some(user("a"))).auth(NOW).unwrap();
    assert_eq!(s.auth(NOW), Err(SessionError::UserEmpty));
    assert_eq!(s.verify(&request, NOW), Err(SessionError::UserEmpty));
    assert_eq!(s.make_ack(NOW), Err(SessionError::UserEmpty));
}

#[test]
fn introduction_has_to_be_one() {
    let s = Session::new(Some(user("me")));
    assert_eq!(s.verify(&text("a", "hi"), NOW), Err(SessionError::UnexpectedMessage));
    assert_eq!(s.verify(&control(Control::Verified), NOW), Err(SessionError::UnexpectedMessage));
}

#[test]
fn only_verified_lets_a_session_go_on() {
    assert_eq!(Session::check_auth_reply(&control(Control::Verified)), Ok(()));
    assert_eq!(
        Session::check_auth_reply(&control(Control::ConnectionDenied)),
        Err(SessionError::ConnectionDenied)
    );
    for c in [Control::CloseByPeer, Control::Acknowledge, Control::RetransmissionRequest] {
        assert_eq!(
            Session::check_auth_reply(&control(c)),
            Err(SessionError::UnexpectedControl)
        );
    }
    assert_eq!(
        Session::check_auth_reply(&text("a", "hi")),
        Err(SessionError::UnexpectedMessage)
    );
}

#[test]
fn session_errors_have_their_texts() {
    assert_eq!(SessionError::UserEmpty.message(), "user empty");
    assert_eq!(SessionError::ConnectionDenied.message(), "connection denied");
    assert_eq!(SessionError::UnexpectedControl.message(), "unexpected control message");
    assert_eq!(SessionError::UnexpectedMessage.message(), "unexpected message type");
    assert_eq!(SessionError::NoPeer.message(), "failed to get peername");
}

#[test]
fn message_is_acknowledged_and_settled() {
    let mut sender = established("alice");
    let mut receiver = established("bob");
    for m in [text("alice", "hi"), control(Control::Acknowledge), control(Control::Verified)] {
        let ack = replied(receiver.accept(&m, LATER));
        assert_eq!(
            ack,
            Message { time: LATER, user: user("bob"), data: Body::Control(Control::Acknowledge) }
        );
        assert_eq!(receiver.get_state(), SessionState::Established);
        assert_eq!(sender.settle(m, &ack), Delivery::Acknowledged);
        assert!(matches!(sender.dispatch(), Dispatch::Idle));
    }
}

#[test]
fn message_is_not_answered_without_a_user() {
    let mut receiver = Session::new(None);
    assert!(matches!(receiver.accept(&text("a", "hi"), NOW), Response::Finish));
    assert!(matches!(receiver.accept(&control(Control::CloseByPeer), NOW), Response::Finish));
    assert_eq!(receiver.get_state(), SessionState::Closed);
}

#[test]
fn message_goes_on_once_it_is_answered() {
    let m = text("a", "hi");
    assert_eq!(hand_on(m.clone(), true), Some(m.clone()));
    assert_eq!(hand_on(m, false), None);
    let ack = control(Control::Acknowledge);
    assert_eq!(hand_on(ack, false), None);
    let close = control(Control::CloseByPeer);
    assert_eq!(hand_on(close.clone(), false), Some(close.clone()));
    assert_eq!(hand_on(close.clone(), true), Some(close));
}

#[test]
fn close_closes_the_other_end() {
    let mut a = Session::new(Some(user("alice")));
    let mut b = established("bob");
    b.send_message(text("bob", "unsent"));
    let close = a.close(NOW);
    a.closed();
    assert_eq!(
        close,
        Message { time: NOW, user: user("alice"), data: Body::Control(Control::CloseByPeer) }
    );
    assert!(a.is_terminated());
    assert_eq!(
        replied(b.accept(&close, LATER)),
        Message { time: LATER, user: user("bob"), data: Body::Control(Control::Acknowledge) }
    );
    assert_eq!(b.get_state(), SessionState::Closed);
    assert!(matches!(b.dispatch(), Dispatch::Exit));
    assert_eq!(Service::Running.poll(b.get_state()), Service::Ended);
}

#[test]
fn close_leaves_the_queue_alone() {
    let mut s = established("me");
    s.send_message(text("me", "unsent"));
    s.close(NOW);
    assert_eq!(s.get_state(), SessionState::Established);
    s.closed();
    assert_eq!(s.get_state(), SessionState::Terminated);
    assert_eq!(sent(s.dispatch()), text("me", "unsent"));
}

#[test]
fn nothing_is_sent_before_the_session_is_established() {
    let mut s = Session::new(Some(user("me")));
    s.send_message(text("me", "early"));
    assert!(matches!(s.dispatch(), Dispatch::Idle));
    let mut phase = s.advance(Phase::Opened, true);
    phase = s.advance(phase, true);
    assert!(matches!(s.dispatch(), Dispatch::Idle));
    s.record_peer(&text("peer", "introduction"));
    assert!(matches!(s.dispatch(), Dispatch::Idle));
    s.advance(phase, true);
    assert_eq!(sent(s.dispatch()), text("me", "early"));
    assert_eq!(s.get_peername(), Ok("peer".to_string()));
}

#[test]
fn session_is_not_established_without_a_peer() {
    let mut s = Session::new(Some(user("me")));
    let mut phase = s.advance(Phase::Opened, true);
    phase = s.advance(phase, true);
    assert_eq!(s.advance(phase, true), Phase::Failed);
    assert_eq!(s.get_state(), SessionState::Authenticating);
}

#[test]
fn message_that_could_not_be_sent_is_sent_next() {
    for outcome in [Exchange::NotOpened, Exchange::NotWritten, Exchange::NoAnswer] {
        let mut s = established("me");
        s.send_message(text("me", "1"));
        s.send_message(text("me", "2"));
        let unsent = sent(s.dispatch());
        assert_eq!(s.exchanged(unsent, &outcome), None);
        assert_eq!(sent(s.dispatch()), text("me", "2"));
        assert_eq!(sent(s.dispatch()), text("me", "1"));
        assert!(matches!(s.dispatch(), Dispatch::Idle));
    }
}

#[test]
fn answered_message_is_settled() {
    let mut s = established("me");
    let again = Exchange::Answered(control(Control::RetransmissionRequest));
    assert_eq!(s.exchanged(text("me", "x"), &again), Some(Delivery::Requeued));
    assert_eq!(sent(s.dispatch()), text("me", "x"));
    for (reply, delivery) in [
        (control(Control::Acknowledge), Delivery::Acknowledged),
        (control(Control::Verified), Delivery::WrongControl),
        (text("peer", "y"), Delivery::WrongMessage),
    ] {
        let answered = Exchange::Answered(reply);
        assert_eq!(s.exchanged(text("me", "x"), &answered), Some(delivery));
        assert!(matches!(s.dispatch(), Dispatch::Idle));
    }
}

#[test]
fn last_queued_message_leaves_first() {
    let mut s = established("me");
    s.send_message(text("me", "1"));
    s.send_message(text("me", "2"));
    s.send_message(text("me", "3"));
    assert_eq!(sent(s.dispatch()), text("me", "3"));
    assert_eq!(sent(s.dispatch()), text("me", "2"));
    assert_eq!(sent(s.dispatch()), text("me", "1"));
    assert!(matches!(s.dispatch(), Dispatch::Idle));
}

#[test]
fn requested_message_is_sent_again() {
    let mut s = established("me");
    s.send_message(text("me", "waiting"));
    let delivery = s.settle(text("me", "again"), &control(Control::RetransmissionRequest));
    assert_eq!(delivery, Delivery::Requeued);
    assert_eq!(sent(s.dispatch()), text("me", "again"));
    assert_eq!(sent(s.dispatch()), text("me", "waiting"));
}

#[test]
fn wrong_answers_leave_the_queue_alone() {
    let mut s = established("me");
    assert_eq!(s.settle(text("me", "x"), &control(Control::Verified)), Delivery::WrongControl);
    assert_eq!(s.settle(text("me", "x"), &control(Control::CloseByPeer)), Delivery::WrongControl);
    assert_eq!(s.settle(text("me", "x"), &text("peer", "y")), Delivery::WrongMessage);
    assert!(matches!(s.dispatch(), Dispatch::Idle));
}

#[test]
fn main_task_leads_a_session_to_its_end() {
    let mut s = Session::new(Some(user("me")));
    let mut phase = s.advance(Phase::Opened, true);
    assert_eq!((phase, s.get_state()), (Phase::Authenticating, SessionState::Authenticating));
    phase = s.advance(phase, true);
    assert_eq!((phase, s.get_state()), (Phase::Verifying, SessionState::Authenticating));
    s.record_peer(&Message { time: NOW, user: user("peer"), data: Body::Auth });
    phase = s.advance(phase, true);
    assert_eq!((phase, s.get_state()), (Phase::Sending, SessionState::Established));
    phase = s.advance(phase, true);
    assert_eq!((phase, s.get_state()), (Phase::Receiving, SessionState::Established));
    phase = s.advance(phase, true);
    assert_eq!((phase, s.get_state()), (Phase::Finished, SessionState::Terminated));
    assert_eq!(s.advance(phase, false), Phase::Finished);
}

#[test]
fn refused_session_stays_in_authentication() {
    for good_steps in [0, 1] {
        let mut s = Session::new(Some(user("me")));
        let mut phase = s.advance(Phase::Opened, true);
        for _ in 0..good_steps {
            phase = s.advance(phase, true);
        }
        phase = s.advance(phase, false);
        assert_eq!(phase, Phase::Failed);
        assert_eq!(s.advance(phase, true), Phase::Failed);
        assert_eq!(s.get_state(), SessionState::Authenticating);
    }
}

#[test]
fn task_failure_leaves_an_established_session() {
    let mut s = established("me");
    assert_eq!(s.advance(Phase::Sending, false), Phase::Failed);
    assert_eq!(s.advance(Phase::Receiving, false), Phase::Failed);
    assert_eq!(s.get_state(), SessionState::Established);
}

#[test]
fn listener_waits_accepts_and_ends() {
    let w = Listener::Waiting;
    for state in [SessionState::Ready, SessionState::Authenticating, SessionState::Terminated] {
        assert_eq!(w.poll(state), (Listener::Waiting, ListenerAction::Poll));
        assert_eq!(
            Listener::Accepting.poll(state),
            (Listener::Accepting, ListenerAction::Accept)
        );
    }
    assert_eq!(w.poll(SessionState::Established), (Listener::Accepting, ListenerAction::Poll));
    assert_eq!(w.poll(SessionState::Closed), (Listener::Accepting, ListenerAction::Poll));
    assert_eq!(
        Listener::Accepting.poll(SessionState::Closed),
        (Listener::Done, ListenerAction::Exit)
    );
    assert_eq!(Listener::Done.poll(SessionState::Ready), (Listener::Done, ListenerAction::Exit));
    assert_eq!(Listener::accepted(true), Listener::Accepting);
    assert_eq!(Listener::accepted(false), Listener::Done);
}

#[test]
fn services_run_until_the_close() {
    let mut service = Service::Running;
    for state in [SessionState::Ready, SessionState::Established, SessionState::Terminated] {
        service = service.poll(state);
        assert_eq!(service, Service::Running);
    }
    service = service.poll(SessionState::Closed);
    assert_eq!(service, Service::Ended);
    assert_eq!(service.poll(SessionState::Established), Service::Ended);
}

#[test]
fn times_before_the_epoch_are_kept() {
    let time = Timestamp { secs: -1, nanos: 999_999_999 };
    let mut s = Session::new(Some(user("me")));
    assert_eq!(s.auth(time).unwrap().time, time);
    assert_eq!(replied(s.accept(&control(Control::CloseByPeer), time)).time, time);
    assert_eq!(s.get_state(), SessionState::Closed);
}

#[test]
fn answer_is_read_piece_by_piece() {
    let mut answer = vec![];
    let buffer = [1u8, 2, 3, 4];
    assert!(!take_piece(&mut answer, &buffer, Some(3)));
    assert!(!take_piece(&mut answer, &buffer, Some(4)));
    assert_eq!(answer, vec![1, 2, 3, 1, 2, 3, 4]);
    assert!(take_piece(&mut answer, &buffer, Some(0)));
    assert!(take_piece(&mut answer, &buffer, None));
    assert_eq!(answer, vec![1, 2, 3, 1, 2, 3, 4]);
}
