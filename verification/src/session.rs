//! One session with one peer: how the two ends recognise each other, what is
//! answered to an incoming message, and what becomes of an outgoing one.
//!
//! Every operation here is a step between two actions on the connection. What
//! the connection delivers comes in as an argument, and what is to be sent goes
//! out as a result.
use vstd::prelude::*;

use crate::lifecycle::{next_phase, state_set, Phase};
use crate::message::{control_message, message_views, Body, BodyView, Control, Message, MessageView, Timestamp};
use crate::user::{user_view, User, UserView};

verus! {

/// How far a session has come.
#[derive(Debug, Clone, Copy, PartialEq, Eq, Structural)]
pub enum SessionState {
    /// The connection is established.
    Ready,
    /// Sending and receiving authentication data.
    Authenticating,
    /// Authentication is complete.
    Established,
    /// The peer has closed the session.
    Closed,
    /// The session has ended and waits to be collected.
    Terminated,
}

/// Why a step of a session cannot be taken.
#[derive(Debug, Clone, Copy, PartialEq, Eq, Structural)]
pub enum SessionError {
    /// There is no local user to speak for.
    UserEmpty,
    /// The peer refused the authentication.
    ConnectionDenied,
    /// The peer answered with a control code that does not belong here.
    UnexpectedControl,
    /// The peer sent a kind of message that does not belong here.
    UnexpectedMessage,
    /// The peer has not introduced itself.
    NoPeer,
}

impl SessionError {
    /// The text of the error.
    pub open spec fn text(self) -> Seq<char> {
        match self {
            SessionError::UserEmpty => "user empty"@,
            SessionError::ConnectionDenied => "connection denied"@,
            SessionError::UnexpectedControl => "unexpected control message"@,
            SessionError::UnexpectedMessage => "unexpected message type"@,
            SessionError::NoPeer => "failed to get peername"@,
        }
    }

    /// The text of the error, for the user.
    pub fn message(self) -> (r: &'static str)
        ensures
            r@ == self.text(),
    {
        match self {
            SessionError::UserEmpty => "user empty",
            SessionError::ConnectionDenied => "connection denied",
            SessionError::UnexpectedControl => "unexpected control message",
            SessionError::UnexpectedMessage => "unexpected message type",
            SessionError::NoPeer => "failed to get peername",
        }
    }
}

/// What is done on the stream on which a message has come in.
pub enum Response {
    /// The message is written back, then the stream is finished.
    Reply(Message),
    /// The stream is finished without an answer.
    Finish,
}

/// The content of a `Response`.
pub enum ResponseView {
    Reply(MessageView),
    Finish,
}

impl View for Response {
    type V = ResponseView;

    open spec fn view(&self) -> ResponseView {
        match *self {
            Response::Reply(m) => ResponseView::Reply(m@),
            Response::Finish => ResponseView::Finish,
        }
    }
}

/// What the dispatcher does next.
pub enum Dispatch {
    /// It ends: the peer has closed the session.
    Exit,
    /// There is nothing to send.
    Idle,
    /// The message is sent on a new stream.
    Send(Message),
}

/// The content of a `Dispatch`.
pub enum DispatchView {
    Exit,
    Idle,
    Send(MessageView),
}

impl View for Dispatch {
    type V = DispatchView;

    open spec fn view(&self) -> DispatchView {
        match *self {
            Dispatch::Exit => DispatchView::Exit,
            Dispatch::Idle => DispatchView::Idle,
            Dispatch::Send(m) => DispatchView::Send(m@),
        }
    }
}

/// What the answer to a sent message meant.
#[derive(Debug, Clone, Copy, PartialEq, Eq, Structural)]
pub enum Delivery {
    /// The peer has the message.
    Acknowledged,
    /// The peer asked for the message again: it is back in the queue.
    Requeued,
    /// The answer is a control code that says neither.
    WrongControl,
    /// The answer is no control message.
    WrongMessage,
}

/// What came of sending a message on a stream of its own.
pub enum Exchange {
    /// The stream could not be opened.
    NotOpened,
    /// The message could not be written.
    NotWritten,
    /// No answer could be read.
    NoAnswer,
    /// The peer answered.
    Answered(Message),
}

/// The content of an `Exchange`.
pub enum ExchangeView {
    NotOpened,
    NotWritten,
    NoAnswer,
    Answered(MessageView),
}

impl View for Exchange {
    type V = ExchangeView;

    open spec fn view(&self) -> ExchangeView {
        match *self {
            Exchange::NotOpened => ExchangeView::NotOpened,
            Exchange::NotWritten => ExchangeView::NotWritten,
            Exchange::NoAnswer => ExchangeView::NoAnswer,
            Exchange::Answered(reply) => ExchangeView::Answered(reply@),
        }
    }
}

/// A session with a peer.
pub struct Session {
    state: SessionState,
    serving: bool,
    send: Vec<Message>,
    peer: Option<User>,
    me: Option<User>,
}

/// The content of a `Session`.
pub struct SessionView {
    pub state: SessionState,
    /// Whether the session has been established, so that messages are sent.
    pub serving: bool,
    /// Messages to be sent. The last one leaves first.
    pub queue: Seq<MessageView>,
    /// The peer, once it has introduced itself.
    pub peer: Option<UserView>,
    /// The local user.
    pub me: Option<UserView>,
}

/// Whether a message closes the session.
pub open spec fn is_close(message: MessageView) -> bool {
    message.data == BodyView::Control(Control::CloseByPeer)
}

/// What goes on to the user of a message that has come in, given whether it could
/// be answered: the message, unless answering it failed. A close goes on even so,
/// as the peer may not wait for the answer.
pub fn hand_on(message: Message, answered: bool) -> (r: Option<Message>)
    ensures
        r == (if answered || is_close(message@) {
            Some(message)
        } else {
            None
        }),
{
    if answered {
        return Some(message);
    }
    let close = match &message.data {
        Body::Control(c) => match c {
            Control::CloseByPeer => true,
            _ => false,
        },
        _ => false,
    };
    if close {
        Some(message)
    } else {
        None
    }
}

/// What the answer to an authentication request means.
pub open spec fn auth_verdict(reply: MessageView) -> Result<(), SessionError> {
    match reply.data {
        BodyView::Control(Control::Verified) => Ok(()),
        BodyView::Control(Control::ConnectionDenied) => Err(SessionError::ConnectionDenied),
        BodyView::Control(_) => Err(SessionError::UnexpectedControl),
        _ => Err(SessionError::UnexpectedMessage),
    }
}

/// What the answer to a sent message means.
pub open spec fn delivery_of(reply: MessageView) -> Delivery {
    match reply.data {
        BodyView::Control(Control::Acknowledge) => Delivery::Acknowledged,
        BodyView::Control(Control::RetransmissionRequest) => Delivery::Requeued,
        BodyView::Control(_) => Delivery::WrongControl,
        _ => Delivery::WrongMessage,
    }
}

/// The view of a message that may have been refused.
pub open spec fn message_result(r: Result<Message, SessionError>) -> Result<MessageView, SessionError> {
    match r {
        Ok(m) => Ok(m@),
        Err(e) => Err(e),
    }
}

impl SessionView {
    /// A session on a fresh connection.
    pub open spec fn opened(me: Option<UserView>) -> SessionView {
        SessionView { state: SessionState::Ready, serving: false, queue: Seq::empty(), peer: None, me }
    }

    /// The session in another state.
    pub open spec fn with_state(self, state: SessionState) -> SessionView {
        SessionView { state, ..self }
    }

    /// A message of the local user that carries a control code.
    pub open spec fn own_control(self, time: Timestamp, code: Control) -> Result<MessageView, SessionError> {
        match self.me {
            Some(me) => Ok(control_message(me, time, code)),
            None => Err(SessionError::UserEmpty),
        }
    }

    /// The message by which the local user introduces itself.
    pub open spec fn auth_request(self, time: Timestamp) -> Result<MessageView, SessionError> {
        match self.me {
            Some(me) => Ok(MessageView { time, user: me, data: BodyView::Auth }),
            None => Err(SessionError::UserEmpty),
        }
    }

    /// What is answered to the message by which the peer introduces itself.
    pub open spec fn auth_answer(self, request: MessageView, time: Timestamp) -> Result<MessageView, SessionError> {
        match self.me {
            Some(me) => match request.data {
                BodyView::Auth => Ok(control_message(me, time, Control::Verified)),
                _ => Err(SessionError::UnexpectedMessage),
            },
            None => Err(SessionError::UserEmpty),
        }
    }

    /// The session once the peer is known as the writer of `request`.
    pub open spec fn introduced(self, request: MessageView) -> SessionView {
        SessionView { peer: Some(request.user), ..self }
    }

    /// The name of the peer.
    pub open spec fn peername(self) -> Result<Seq<char>, SessionError> {
        match self.peer {
            Some(p) => Ok(p.username),
            None => Err(SessionError::NoPeer),
        }
    }

    /// The session after a message has come in, and what is answered to it.
    pub open spec fn accepted(self, message: MessageView, time: Timestamp) -> (SessionView, ResponseView) {
        (
            if is_close(message) {
                self.with_state(SessionState::Closed)
            } else {
                self
            },
            match self.own_control(time, Control::Acknowledge) {
                Ok(ack) => ResponseView::Reply(ack),
                Err(_) => ResponseView::Finish,
            },
        )
    }

    /// The session with one more message to send.
    pub open spec fn queued(self, message: MessageView) -> SessionView {
        SessionView { queue: self.queue.push(message), ..self }
    }

    /// The session after one round of the dispatcher, and what the round does.
    pub open spec fn dispatched(self) -> (SessionView, DispatchView) {
        if self.state == SessionState::Closed {
            (self, DispatchView::Exit)
        } else if !self.serving || self.queue.len() == 0 {
            (self, DispatchView::Idle)
        } else {
            (
                SessionView { queue: self.queue.drop_last(), ..self },
                DispatchView::Send(self.queue.last()),
            )
        }
    }

    /// The session after the answer to a sent message.
    pub open spec fn settled(self, message: MessageView, reply: MessageView) -> SessionView {
        match delivery_of(reply) {
            Delivery::Requeued => self.queued(message),
            _ => self,
        }
    }

    /// The session after an attempt to send a message. One that the peer did not
    /// answer goes back into the queue.
    pub open spec fn exchanged(self, message: MessageView, outcome: ExchangeView) -> SessionView {
        match outcome {
            ExchangeView::Answered(reply) => self.settled(message, reply),
            _ => self.queued(message),
        }
    }

    /// Whether the step that the main task was waiting for in `phase` counts as
    /// having gone well. A verification has to leave the peer known.
    pub open spec fn went_well(self, phase: Phase, ok: bool) -> bool {
        ok && (phase == Phase::Verifying ==> self.peer is Some)
    }

    /// The session after its main task has been told how a step went.
    pub open spec fn advanced(self, phase: Phase, ok: bool) -> SessionView {
        let well = self.went_well(phase, ok);
        SessionView {
            state: match state_set(phase, well) {
                Some(state) => state,
                None => self.state,
            },
            serving: self.serving || (phase == Phase::Verifying && well),
            ..self
        }
    }
}

impl View for Session {
    type V = SessionView;

    closed spec fn view(&self) -> SessionView {
        SessionView {
            state: self.state,
            serving: self.serving,
            queue: message_views(self.send@),
            peer: user_view(self.peer),
            me: user_view(self.me),
        }
    }
}

impl Session {
    /// A session on a fresh connection, on behalf of `me`.
    pub fn new(me: Option<User>) -> (r: Session)
        ensures
            r@ == SessionView::opened(user_view(me)),
    {
        let r = Session { state: SessionState::Ready, serving: false, send: Vec::new(), peer: None, me };
        assert(r@.queue =~= Seq::empty());
        r
    }

    /// Puts the session into a state.
    pub fn set_state(&mut self, state: SessionState)
        ensures
            final(self)@ == old(self)@.with_state(state),
    {
        self.state = state;
    }

    /// The state of the session.
    pub fn get_state(&self) -> (r: SessionState)
        ensures
            r == self@.state,
    {
        self.state
    }

    /// Whether the session has ended.
    pub fn is_terminated(&self) -> (r: bool)
        ensures
            r == (self@.state == SessionState::Terminated),
    {
        self.state == SessionState::Terminated
    }

    /// Whether there is a local user to speak for.
    pub fn has_user(&self) -> (r: bool)
        ensures
            r == (self@.me is Some),
    {
        self.me.is_some()
    }

    /// The message by which the local user introduces itself to the peer.
    pub fn auth(&self, now: Timestamp) -> (r: Result<Message, SessionError>)
        ensures
            message_result(r) == self@.auth_request(now),
    {
        match &self.me {
            Some(me) => Ok(Message { time: now, user: me.clone(), data: Body::Auth }),
            None => Err(SessionError::UserEmpty),
        }
    }

    /// What the peer's answer to the introduction means: only `Verified` lets
    /// the session go on.
    pub fn check_auth_reply(reply: &Message) -> (r: Result<(), SessionError>)
        ensures
            r == auth_verdict(reply@),
    {
        match &reply.data {
            Body::Control(c) => match c {
                Control::Verified => Ok(()),
                Control::ConnectionDenied => Err(SessionError::ConnectionDenied),
                _ => Err(SessionError::UnexpectedControl),
            },
            _ => Err(SessionError::UnexpectedMessage),
        }
    }

    /// The answer to the message by which the peer introduces itself.
    pub fn verify(&self, request: &Message, now: Timestamp) -> (r: Result<Message, SessionError>)
        ensures
            message_result(r) == self@.auth_answer(request@, now),
    {
        match &self.me {
            Some(me) => match &request.data {
                Body::Auth => Ok(Message::control(me.clone(), now, Control::Verified)),
                _ => Err(SessionError::UnexpectedMessage),
            },
            None => Err(SessionError::UserEmpty),
        }
    }

    /// Records the peer, once the answer to its introduction has been sent.
    pub fn record_peer(&mut self, request: &Message)
        ensures
            final(self)@ == old(self)@.introduced(request@),
    {
        self.peer = Some(request.user.clone());
    }

    /// The name of the peer.
    pub fn get_peername(&self) -> (r: Result<String, SessionError>)
        ensures
            match r {
                Ok(name) => self@.peername() == Ok::<Seq<char>, SessionError>(name@),
                Err(e) => self@.peername() == Err::<Seq<char>, SessionError>(e),
            },
    {
        match &self.peer {
            Some(p) => Ok(p.username.clone()),
            None => Err(SessionError::NoPeer),
        }
    }

    /// The message that acknowledges another one.
    pub fn make_ack(&self, now: Timestamp) -> (r: Result<Message, SessionError>)
        ensures
            message_result(r) == self@.own_control(now, Control::Acknowledge),
    {
        match &self.me {
            Some(me) => Ok(Message::control(me.clone(), now, Control::Acknowledge)),
            None => Err(SessionError::UserEmpty),
        }
    }

    /// Takes in a message that the peer has sent, and says what to do on its
    /// stream. A close is answered like any other message.
    pub fn accept(&mut self, message: &Message, now: Timestamp) -> (r: Response)
        ensures
            (final(self)@, r@) == old(self)@.accepted(message@, now),
            message@.data != BodyView::Control(Control::CloseByPeer) ==> final(self)@ == old(self)@,
    {
        match &message.data {
            Body::Control(c) => match c {
                Control::CloseByPeer => {
                    self.set_state(SessionState::Closed);
                },
                _ => {},
            },
            _ => {},
        }
        match self.make_ack(now) {
            Ok(ack) => Response::Reply(ack),
            Err(_) => Response::Finish,
        }
    }

    /// Queues a message for the peer.
    pub fn send_message(&mut self, message: Message)
        ensures
            final(self)@ == old(self)@.queued(message@),
    {
        self.send.push(message);
        assert(self@.queue =~= old(self)@.queue.push(message@));
    }

    /// One round of the dispatcher: the message queued last leaves the queue.
    /// Until the session has been established there is nothing to send.
    pub fn dispatch(&mut self) -> (r: Dispatch)
        ensures
            (final(self)@, r@) == old(self)@.dispatched(),
    {
        if self.state == SessionState::Closed {
            return Dispatch::Exit;
        }
        if !self.serving {
            return Dispatch::Idle;
        }
        match self.send.pop() {
            Some(message) => {
                assert(self@.queue =~= old(self)@.queue.drop_last());
                Dispatch::Send(message)
            },
            None => Dispatch::Idle,
        }
    }

    /// Takes in the answer to a message that was sent. A message that the peer
    /// asks for again goes back into the queue.
    pub fn settle(&mut self, message: Message, reply: &Message) -> (r: Delivery)
        ensures
            r == delivery_of(reply@),
            final(self)@ == old(self)@.settled(message@, reply@),
    {
        match &reply.data {
            Body::Control(c) => match c {
                Control::Acknowledge => Delivery::Acknowledged,
                Control::RetransmissionRequest => {
                    self.send_message(message);
                    Delivery::Requeued
                },
                _ => Delivery::WrongControl,
            },
            _ => Delivery::WrongMessage,
        }
    }

    /// Takes in what came of sending a message, and says what the answer meant,
    /// if there was one. A message that failed to be sent goes back into the queue.
    pub fn exchanged(&mut self, message: Message, outcome: &Exchange) -> (r: Option<Delivery>)
        ensures
            final(self)@ == old(self)@.exchanged(message@, outcome@),
            outcome@ matches ExchangeView::Answered(reply) ==> reply.data != BodyView::Control(
                Control::RetransmissionRequest,
            ) ==> final(self)@ == old(self)@,
            r == (match outcome@ {
                ExchangeView::Answered(reply) => Some(delivery_of(reply)),
                _ => None,
            }),
    {
        match outcome {
            Exchange::Answered(reply) => Some(self.settle(message, reply)),
            _ => {
                self.send_message(message);
                None
            },
        }
    }

    /// The message that tells the peer that the session is closed. Once it has
    /// been sent, or could not be sent, `closed` ends the session.
    pub fn close(&self, now: Timestamp) -> (r: Message)
        requires
            self@.me is Some,
        ensures
            self@.own_control(now, Control::CloseByPeer) == Ok::<MessageView, SessionError>(r@),
    {
        Message::control(self.me.clone().unwrap(), now, Control::CloseByPeer)
    }

    /// Ends the session, after the peer has been told or could not be told.
    pub fn closed(&mut self)
        ensures
            final(self)@ == old(self)@.with_state(SessionState::Terminated),
    {
        self.set_state(SessionState::Terminated);
    }

    /// One step of the main task, which was waiting in `phase` and has been told
    /// whether that went well.
    pub fn advance(&mut self, phase: Phase, ok: bool) -> (r: Phase)
        ensures
            r == next_phase(phase, old(self)@.went_well(phase, ok)),
            final(self)@ == old(self)@.advanced(phase, ok),
    {
        match phase {
            Phase::Opened => {
                self.set_state(SessionState::Authenticating);
                Phase::Authenticating
            },
            Phase::Authenticating => if ok {
                Phase::Verifying
            } else {
                Phase::Failed
            },
            Phase::Verifying => if ok && self.peer.is_some() {
                self.set_state(SessionState::Established);
                self.serving = true;
                Phase::Sending
            } else {
                Phase::Failed
            },
            Phase::Sending => if ok {
                Phase::Receiving
            } else {
                Phase::Failed
            },
            Phase::Receiving => if ok {
                self.set_state(SessionState::Terminated);
                Phase::Finished
            } else {
                Phase::Failed
            },
            Phase::Finished => Phase::Finished,
            Phase::Failed => Phase::Failed,
        }
    }
}

} // verus!
