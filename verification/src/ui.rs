//! The console: what the user types becomes a message, and messages that have
//! come in become lines.
use vstd::prelude::*;

use crate::message::{message_views, Body, BodyView, Control, File, FileView, Message, MessageView, Timestamp};
use crate::text::{byte_list, byte_list_text, decimal, decimal_text, quote, quoted};
use crate::user::{user_view, User, UserView};

verus! {

/// A line without the newline at its end, if it has one.
pub open spec fn without_newline(line: Seq<char>) -> Seq<char> {
    if line.len() > 0 && line.last() == '\n' {
        line.drop_last()
    } else {
        line
    }
}

/// The message that a line stands for.
pub open spec fn typed(line: Seq<char>, me: UserView, time: Timestamp) -> MessageView {
    MessageView { time, user: me, data: BodyView::String(without_newline(line)) }
}

/// There is no local user in whose name to write.
#[derive(Debug, Clone, Copy, PartialEq, Eq, Structural)]
pub struct EmptyUser;

impl EmptyUser {
    /// The text of the error, for the user.
    pub fn message(self) -> (r: &'static str)
        ensures
            r@ == "empty user"@,
    {
        "empty user"
    }
}

/// The message that a line of the user stands for.
pub fn compose(line: &str, me: &Option<User>, now: Timestamp) -> (r: Result<Message, EmptyUser>)
    ensures
        match (r, user_view(*me)) {
            (Ok(message), Some(user)) => message@ == typed(line@, user, now),
            (Err(_), None) => true,
            _ => false,
        },
        r matches Ok(message) ==> (line@.len() == 0 || line@.last() != '\n') ==> message@.data == BodyView::String(line@),
        r matches Ok(message) ==> (line@.len() > 0 && line@.last() == '\n') ==> message@.data == BodyView::String(
            line@.drop_last(),
        ),
{
    let user = match me {
        Some(user) => user.clone(),
        None => return Err(EmptyUser),
    };
    let n: usize = line.unicode_len();
    let input: &str = if n > 0 && line.get_char(n - 1) == '\n' {
        line.substring_char(0, n - 1)
    } else {
        line
    };
    assert(input@ =~= without_newline(line@));
    Ok(Message { time: now, user, data: Body::String(input.to_owned()) })
}

/// Messages that have come in and that the user has not seen yet.
pub struct Inbox {
    messages: Vec<Message>,
}

impl View for Inbox {
    type V = Seq<MessageView>;

    closed spec fn view(&self) -> Seq<MessageView> {
        message_views(self.messages@)
    }
}

/// The inbox after the outcome of one stream: a message, or none where reading
/// the stream failed.
pub open spec fn received(inbox: Seq<MessageView>, outcome: Option<MessageView>) -> Seq<MessageView> {
    match outcome {
        Some(message) => inbox.push(message),
        None => inbox,
    }
}

impl Inbox {
    /// No messages.
    pub fn new() -> (r: Inbox)
        ensures
            r@ == Seq::<MessageView>::empty(),
    {
        let r = Inbox { messages: Vec::new() };
        assert(r@ =~= Seq::empty());
        r
    }

    /// Takes in the outcome of one stream. A failure leaves no trace.
    pub fn receive<E>(&mut self, outcome: Result<Message, E>)
        ensures
            final(self)@ == received(
                old(self)@,
                match outcome {
                    Ok(message) => Some(message@),
                    Err(_) => None,
                },
            ),
    {
        match outcome {
            Ok(message) => {
                self.messages.push(message);
                assert(self@ =~= old(self)@.push(message@));
            },
            Err(_) => {},
        }
    }

    /// Takes all messages out, the oldest first.
    pub fn drain(&mut self) -> (r: Vec<Message>)
        ensures
            message_views(r@) == old(self)@,
            final(self)@ == Seq::<MessageView>::empty(),
    {
        let mut r: Vec<Message> = Vec::new();
        std::mem::swap(&mut r, &mut self.messages);
        assert(self@ =~= Seq::empty());
        r
    }
}

/// What `{:?}` prints for a file.
pub open spec fn file_debug(file: FileView) -> Seq<char> {
    "File { name: "@ + quoted(file.name) + ", size: "@ + decimal(file.size as nat) + ", data: "@ + byte_list(
        file.data,
    ) + " }"@
}

/// What `{:?}` prints for a user.
pub open spec fn user_debug(user: UserView) -> Seq<char> {
    "User { username: "@ + quoted(user.username) + ", email: "@ + quoted(user.email) + ", user_id: "@ + quoted(
        user.user_id,
    ) + " }"@
}

/// What `{:?}` prints for a control code.
pub open spec fn control_debug(code: Control) -> Seq<char> {
    match code {
        Control::CloseByPeer => "CloseByPeer"@,
        Control::Acknowledge => "Acknowledge"@,
        Control::RetransmissionRequest => "RetransmissionRequest"@,
        Control::Verified => "Verified"@,
        Control::ConnectionDenied => "ConnectionDenied"@,
    }
}

/// What `{:?}` prints for the content of a message.
pub open spec fn body_debug(data: BodyView) -> Seq<char> {
    match data {
        BodyView::String(s) => "String("@ + quoted(s) + ")"@,
        BodyView::Bytes(b) => "Bytes("@ + byte_list(b) + ")"@,
        BodyView::File(f) => "File("@ + file_debug(f) + ")"@,
        BodyView::Auth => "Auth"@,
        BodyView::Control(c) => "Control("@ + control_debug(c) + ")"@,
    }
}

/// What `{:?}` prints for a message, given what it prints for its time.
pub open spec fn message_debug(message: MessageView, time: Seq<char>) -> Seq<char> {
    "Message { time: "@ + time + ", user: "@ + user_debug(message.user) + ", data: "@ + body_debug(
        message.data,
    ) + " }"@
}

/// The line that shows a message, given the text of its time.
pub open spec fn shown(message: MessageView, time: Seq<char>) -> Seq<char> {
    match message.data {
        BodyView::String(s) => "[Got message from "@ + message.user.username + "]"@ + s,
        BodyView::File(f) => "[Got new file from "@ + message.user.username + "] "@ + file_debug(f),
        BodyView::Bytes(b) => "[Got bytes from "@ + message.user.username + "]"@ + byte_list(b),
        _ => "[Got unknown message]: "@ + message_debug(message, time),
    }
}

fn file_text(file: &File) -> (r: String)
    ensures
        r@ == file_debug(file@),
{
    let mut r = "File { name: ".to_owned();
    r.append(quote(file.name.as_str()).as_str());
    r.append(", size: ");
    r.append(decimal_text(file.size).as_str());
    r.append(", data: ");
    r.append(byte_list_text(&file.data).as_str());
    r.append(" }");
    r
}

fn user_text(user: &User) -> (r: String)
    ensures
        r@ == user_debug(user@),
{
    let mut r = "User { username: ".to_owned();
    r.append(quote(user.username.as_str()).as_str());
    r.append(", email: ");
    r.append(quote(user.email.as_str()).as_str());
    r.append(", user_id: ");
    r.append(quote(user.user_id.as_str()).as_str());
    r.append(" }");
    r
}

fn control_text(code: Control) -> (r: &'static str)
    ensures
        r@ == control_debug(code),
{
    match code {
        Control::CloseByPeer => "CloseByPeer",
        Control::Acknowledge => "Acknowledge",
        Control::RetransmissionRequest => "RetransmissionRequest",
        Control::Verified => "Verified",
        Control::ConnectionDenied => "ConnectionDenied",
    }
}

fn body_text(data: &Body) -> (r: String)
    ensures
        r@ == body_debug(data@),
{
    let mut r = String::new();
    match data {
        Body::String(s) => {
            r.append("String(");
            r.append(quote(s.as_str()).as_str());
            r.append(")");
            assert(r@ =~= body_debug(data@));
        },
        Body::Bytes(b) => {
            r.append("Bytes(");
            r.append(byte_list_text(b).as_str());
            r.append(")");
            assert(r@ =~= body_debug(data@));
        },
        Body::File(f) => {
            r.append("File(");
            r.append(file_text(f).as_str());
            r.append(")");
            assert(r@ =~= body_debug(data@));
        },
        Body::Auth => {
            r.append("Auth");
            assert(r@ =~= body_debug(data@));
        },
        Body::Control(c) => {
            r.append("Control(");
            r.append(control_text(*c));
            r.append(")");
            assert(r@ =~= body_debug(data@));
        },
    }
    r
}

/// The debug text of a message, given the text of its time.
fn message_text(message: &Message, time: &str) -> (r: String)
    ensures
        r@ == message_debug(message@, time@),
{
    let mut r = "Message { time: ".to_owned();
    r.append(time);
    r.append(", user: ");
    r.append(user_text(&message.user).as_str());
    r.append(", data: ");
    r.append(body_text(&message.data).as_str());
    r.append(" }");
    r
}

/// The line that shows a message that has come in. Only a message of an unknown
/// kind shows its time, as the text `time`.
pub fn show(message: &Message, time: &str) -> (r: String)
    ensures
        r@ == shown(message@, time@),
{
    match &message.data {
        Body::String(s) => {
            let mut r = "[Got message from ".to_owned();
            r.append(message.user.username.as_str());
            r.append("]");
            r.append(s.as_str());
            r
        },
        Body::File(f) => {
            let mut r = "[Got new file from ".to_owned();
            r.append(message.user.username.as_str());
            r.append("] ");
            r.append(file_text(f).as_str());
            r
        },
        Body::Bytes(b) => {
            let mut r = "[Got bytes from ".to_owned();
            r.append(message.user.username.as_str());
            r.append("]");
            r.append(byte_list_text(b).as_str());
            r
        },
        _ => {
            let mut r = "[Got unknown message]: ".to_owned();
            r.append(message_text(message, time).as_str());
            r
        },
    }
}

/// What one user types, the other sees behind the first one's name, whatever the
/// time.
pub proof fn typed_line_is_shown(line: Seq<char>, me: UserView, sent: Timestamp, time: Seq<char>)
    ensures
        shown(typed(line, me, sent), time) == "[Got message from "@ + me.username + "]"@ + without_newline(
            line,
        ),
{
}

/// The inbox after the outcomes of several streams.
pub open spec fn received_all(inbox: Seq<MessageView>, outcomes: Seq<Option<MessageView>>) -> Seq<MessageView>
    decreases outcomes.len(),
{
    if outcomes.len() == 0 {
        inbox
    } else {
        received(received_all(inbox, outcomes.drop_last()), outcomes.last())
    }
}

/// The messages among the outcomes of several streams, in the order of the
/// streams.
pub open spec fn messages_among(outcomes: Seq<Option<MessageView>>) -> Seq<MessageView> {
    outcomes.filter(|o: Option<MessageView>| o is Some).map_values(|o: Option<MessageView>| o->0)
}

/// The inbox holds what it held before, followed by the messages of the streams
/// that could be read, in the order of the streams. Streams that failed leave no
/// trace.
pub proof fn messages_are_shown_in_order(inbox: Seq<MessageView>, outcomes: Seq<Option<MessageView>>)
    ensures
        received_all(inbox, outcomes) == inbox + messages_among(outcomes),
    decreases outcomes.len(),
{
    reveal(Seq::filter);
    if outcomes.len() > 0 {
        messages_are_shown_in_order(inbox, outcomes.drop_last());
    }
    assert(received_all(inbox, outcomes) =~= inbox + messages_among(outcomes));
}

} // verus!
