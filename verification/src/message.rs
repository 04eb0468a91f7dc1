//! What travels between two peers.
use vstd::prelude::*;

use crate::user::{User, UserView};

verus! {

/// A point in time, as the offset from the Unix epoch: whole seconds, negative
/// before the epoch, and the nanoseconds that have passed since the last one.
#[derive(Debug, Clone, Copy, PartialEq, Eq, Structural)]
pub struct Timestamp {
    pub secs: i64,
    pub nanos: u32,
}

/// A message: when it was written, by whom, and what it says.
#[derive(Debug, PartialEq, Eq)]
pub struct Message {
    pub time: Timestamp,
    pub user: User,
    pub data: Body,
}

/// The content of a message.
#[derive(Debug, PartialEq, Eq)]
pub enum Body {
    String(String),
    Bytes(Vec<u8>),
    File(File),
    Auth,
    Control(Control),
}

/// A file that is sent as a whole.
#[derive(Debug, PartialEq, Eq)]
pub struct File {
    pub name: String,
    pub size: u64,
    pub data: Vec<u8>,
}

/// Messages by which the two ends of a session steer it.
#[derive(Debug, Clone, Copy, PartialEq, Eq, Structural)]
pub enum Control {
    CloseByPeer,
    Acknowledge,
    RetransmissionRequest,
    Verified,
    ConnectionDenied,
}

/// The content of a `Message`.
pub struct MessageView {
    pub time: Timestamp,
    pub user: UserView,
    pub data: BodyView,
}

/// The content of a `Body`.
pub enum BodyView {
    String(Seq<char>),
    Bytes(Seq<u8>),
    File(FileView),
    Auth,
    Control(Control),
}

/// The content of a `File`.
pub struct FileView {
    pub name: Seq<char>,
    pub size: u64,
    pub data: Seq<u8>,
}

impl View for File {
    type V = FileView;

    open spec fn view(&self) -> FileView {
        FileView { name: self.name@, size: self.size, data: self.data@ }
    }
}

impl View for Body {
    type V = BodyView;

    open spec fn view(&self) -> BodyView {
        match *self {
            Body::String(s) => BodyView::String(s@),
            Body::Bytes(b) => BodyView::Bytes(b@),
            Body::File(f) => BodyView::File(f@),
            Body::Auth => BodyView::Auth,
            Body::Control(c) => BodyView::Control(c),
        }
    }
}

impl View for Message {
    type V = MessageView;

    open spec fn view(&self) -> MessageView {
        MessageView { time: self.time, user: self.user@, data: self.data@ }
    }
}

impl Clone for File {
    fn clone(&self) -> (r: Self)
        ensures
            r@ == self@,
    {
        File { name: self.name.clone(), size: self.size, data: self.data.clone() }
    }
}

impl Clone for Body {
    fn clone(&self) -> (r: Self)
        ensures
            r@ == self@,
    {
        match self {
            Body::String(s) => Body::String(s.clone()),
            Body::Bytes(b) => Body::Bytes(b.clone()),
            Body::File(f) => Body::File(f.clone()),
            Body::Auth => Body::Auth,
            Body::Control(c) => Body::Control(*c),
        }
    }
}

impl Clone for Message {
    fn clone(&self) -> (r: Self)
        ensures
            r@ == self@,
    {
        Message { time: self.time, user: self.user.clone(), data: self.data.clone() }
    }
}

/// The views of a list of messages, in the same order.
pub open spec fn message_views(messages: Seq<Message>) -> Seq<MessageView> {
    messages.map_values(|m: Message| m@)
}

/// The message that carries nothing but a control code.
pub open spec fn control_message(user: UserView, time: Timestamp, code: Control) -> MessageView {
    MessageView { time, user, data: BodyView::Control(code) }
}

impl Message {
    /// A message from `user` that carries nothing but a control code.
    pub fn control(user: User, time: Timestamp, code: Control) -> (r: Message)
        ensures
            r@ == control_message(user@, time, code),
    {
        Message { time, user, data: Body::Control(code) }
    }
}

} // verus!
