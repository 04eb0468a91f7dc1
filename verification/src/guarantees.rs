//! What the operations give for what they are given, stated on the inputs and the
//! results themselves.
use vstd::prelude::*;
use vstd::utf8::encode_utf8;

use crate::credentials::{
    byte_strings, byte_strings_option, chain_in, chain_result, chosen_key, extension_view, is_der, key_in,
    key_result, pair_view, pem_certificates, pem_pkcs8_keys, pem_rsa_keys, texts, CredentialError, Credentials,
    FileProblem, FileProblemView, FileRead, FileReadView, LocalStore, LocalStoreView, NamedFiles,
    NamedFilesError, NamedFilesErrorView, NamedFilesView, StoreError, StoreErrorView,
};
use crate::endpoint::offered_protocols;
use crate::exchange::{answer, ends, piece_of, Piece};
use crate::launch::{identity_of, role_of, Role};
use crate::lifecycle::{
    listener_after, listener_next, next_phase, service_next, state_set, Listener, ListenerAction, Phase,
    Service,
};
use crate::message::{
    control_message, message_views, Body, BodyView, Control, File, Message, MessageView, Timestamp,
};
use crate::resolve::{
    authority, parts_view, target_of, target_result, ConnectError, ConnectErrorView, ResolveError, Target,
    TargetView, UrlParts, UrlView,
};
use crate::session::{
    auth_verdict, delivery_of, is_close, message_result, Delivery, Dispatch, DispatchView, Exchange,
    ExchangeView, Response, ResponseView, SessionError, SessionState, SessionView,
};
use crate::text::{byte_items, byte_list, decimal, digits_only, quoted};
use crate::transport::{default_limits, widened};
use crate::trust::{trust_anchor, trusted, TrustError, TrustErrorView};
use crate::ui::{received, shown, typed};
use crate::user::{user_view, User, UserView};

verus! {

/// An answer that is no request for the message leaves the session exactly as it
/// was: what was waiting in the queue still waits, in its order, and nothing is
/// added.
pub proof fn answer_leaves_the_session_alone(s: SessionView, message: MessageView, reply: MessageView)
    requires
        reply.data != BodyView::Control(Control::RetransmissionRequest),
    ensures
        s.exchanged(message, ExchangeView::Answered(reply)) == s,
        s.settled(message, reply) == s,
{
}

/// A message that the peer asks for again, or that failed to be sent, stands
/// behind all those that were waiting already. Nothing else changes.
pub proof fn message_comes_back_behind_the_queue(
    s: SessionView,
    message: MessageView,
    reply: MessageView,
    outcome: ExchangeView,
)
    requires
        reply.data == BodyView::Control(Control::RetransmissionRequest),
        outcome is Answered ==> outcome == ExchangeView::Answered(reply),
    ensures
        ({
            let after = s.exchanged(message, outcome);
            &&& after.queue.len() == s.queue.len() + 1
            &&& forall|i: int| 0 <= i < s.queue.len() ==> #[trigger] after.queue[i] == s.queue[i]
            &&& after.queue[s.queue.len() as int] == message
            &&& after.state == s.state && after.serving == s.serving
            &&& after.peer == s.peer && after.me == s.me
            &&& s.settled(message, reply) == s.exchanged(message, ExchangeView::Answered(reply))
        }),
{
}

/// Once the peer has the message that was queued last, the one that was queued
/// before it is the next to be sent, and so on: a queue is sent to its end.
pub proof fn acknowledged_message_is_followed_by_the_one_before(s: SessionView, reply: MessageView)
    requires
        s.serving,
        s.state != SessionState::Closed,
        s.queue.len() >= 2,
        reply.data == BodyView::Control(Control::Acknowledge),
    ensures
        ({
            let n = s.queue.len() as int;
            let (sending, first) = s.dispatched();
            let (after, second) = sending.exchanged(s.queue[n - 1], ExchangeView::Answered(reply)).dispatched();
            &&& first == DispatchView::Send(s.queue[n - 1])
            &&& second == DispatchView::Send(s.queue[n - 2])
            &&& after.queue == s.queue.take(n - 2)
        }),
{
    assert(s.dispatched().0.queue.drop_last() =~= s.queue.take(s.queue.len() - 2));
}

/// What an answer means is read off its content: the two codes that say something
/// of the message are told apart from all others, and control codes from all other
/// content.
pub proof fn answers_are_told_apart(reply: MessageView)
    ensures
        delivery_of(reply) == Delivery::Acknowledged <==> reply.data == BodyView::Control(Control::Acknowledge),
        delivery_of(reply) == Delivery::Requeued <==> reply.data == BodyView::Control(
            Control::RetransmissionRequest,
        ),
        delivery_of(reply) == Delivery::WrongMessage <==> !(reply.data is Control),
{
}

/// A message whose content is not the control code `CloseByPeer`, be it a text,
/// bytes, a file or another control code, leaves the session as it was.
pub proof fn only_a_close_changes_the_receiver(s: SessionView, message: MessageView, time: Timestamp)
    requires
        message.data != BodyView::Control(Control::CloseByPeer),
    ensures
        s.accepted(message, time).0 == s,
        !is_close(message),
{
}

/// The control code `CloseByPeer` closes the session, whoever wrote it and
/// whenever, and changes nothing else of it.
pub proof fn a_close_closes(s: SessionView, message: MessageView, time: Timestamp)
    requires
        message.data == BodyView::Control(Control::CloseByPeer),
    ensures
        ({
            let after = s.accepted(message, time).0;
            &&& after.state == SessionState::Closed
            &&& after.serving == s.serving
            &&& after.queue == s.queue
            &&& after.peer == s.peer
            &&& after.me == s.me
        }),
        is_close(message),
{
}

/// Every message is answered alike: in the name of the local user, at the time of
/// its arrival, with an acknowledgement. Without a local user there is no answer.
pub proof fn every_message_is_answered_alike(s: SessionView, message: MessageView, time: Timestamp)
    ensures
        s.me is None ==> s.accepted(message, time).1 == ResponseView::Finish,
        s.me matches Some(me) ==> (s.accepted(message, time).1 matches ResponseView::Reply(ack) && ack.time == time
            && ack.user == me && ack.data == BodyView::Control(Control::Acknowledge)),
{
}

/// The dispatcher ends exactly where the peer has closed the session. Otherwise it
/// sends the message that was queued last, as soon as the session has been
/// established and as long as one is queued. Sending takes that message out of the
/// queue, and changes nothing else.
pub proof fn dispatcher_sends_what_was_queued_last(s: SessionView)
    ensures
        s.dispatched().1 == DispatchView::Exit <==> s.state == SessionState::Closed,
        s.dispatched().1 is Send <==> s.state != SessionState::Closed && s.serving && s.queue.len() > 0,
        !(s.dispatched().1 is Send) ==> s.dispatched().0 == s,
        s.dispatched().1 matches DispatchView::Send(message) ==> ({
            let after = s.dispatched().0;
            &&& after.queue.push(message) == s.queue
            &&& after.state == s.state && after.serving == s.serving
            &&& after.peer == s.peer && after.me == s.me
        }),
{
    if s.queue.len() > 0 {
        assert(s.queue.drop_last().push(s.queue.last()) =~= s.queue);
    }
}

/// A message that is queued stands behind all those that were queued before, and
/// nothing else changes.
pub proof fn queueing_keeps_what_is_queued(s: SessionView, message: MessageView)
    ensures
        ({
            let after = s.queued(message);
            &&& after.queue.len() == s.queue.len() + 1
            &&& forall|i: int| 0 <= i < s.queue.len() ==> #[trigger] after.queue[i] == s.queue[i]
            &&& after.queue[s.queue.len() as int] == message
            &&& after.state == s.state && after.serving == s.serving
            &&& after.peer == s.peer && after.me == s.me
        }),
{
}

/// A fresh session has nothing to send, knows no peer, and has not been
/// established.
pub proof fn fresh_session_is_empty(me: Option<UserView>)
    ensures
        ({
            let s = SessionView::opened(me);
            s.state == SessionState::Ready && !s.serving && s.queue.len() == 0 && s.peer is None && s.me == me
        }),
{
}

/// Putting a session into a state sets that state, and changes nothing else.
pub proof fn setting_a_state_changes_only_the_state(s: SessionView, state: SessionState)
    ensures
        ({
            let after = s.with_state(state);
            after.state == state && after.serving == s.serving && after.queue == s.queue && after.peer == s.peer
                && after.me == s.me
        }),
{
}

/// The peer is known by the name in its last introduction, and an introduction
/// changes nothing else of the session.
pub proof fn peer_is_known_by_its_introduction(s: SessionView, request: MessageView)
    ensures
        ({
            let after = s.introduced(request);
            &&& after.peer == Some(request.user)
            &&& after.peername() == Ok::<Seq<char>, SessionError>(request.user.username)
            &&& after.state == s.state && after.serving == s.serving
            &&& after.queue == s.queue && after.me == s.me
        }),
        s.peer is None <==> s.peername() == Err::<Seq<char>, SessionError>(SessionError::NoPeer),
        s.peer matches Some(peer) ==> s.peername() == Ok::<Seq<char>, SessionError>(peer.username),
{
}

/// The local user introduces itself under its own name, at the time that is given.
pub proof fn user_introduces_itself(s: SessionView, time: Timestamp)
    ensures
        s.me is None <==> s.auth_request(time) == Err::<MessageView, SessionError>(SessionError::UserEmpty),
        s.me matches Some(me) ==> (s.auth_request(time) matches Ok(request) && request.time == time && request.user
            == me && request.data == BodyView::Auth),
{
}

/// An introduction is answered exactly where it is one and there is a local user:
/// in the name of that user, with the code `Verified`, whoever introduces itself.
pub proof fn only_introductions_are_verified(s: SessionView, request: MessageView, time: Timestamp)
    ensures
        s.auth_answer(request, time) is Ok <==> s.me is Some && request.data == BodyView::Auth,
        s.auth_answer(request, time) matches Ok(reply) ==> reply.time == time && Some(reply.user) == s.me
            && reply.data == BodyView::Control(Control::Verified),
        s.auth_answer(request, time) matches Err(e) ==> e == (if s.me is None {
            SessionError::UserEmpty
        } else {
            SessionError::UnexpectedMessage
        }),
{
}

/// Only the code `Verified` is taken for the peer's consent, whoever sends it.
pub proof fn only_verified_is_consent(reply: MessageView)
    ensures
        auth_verdict(reply) is Ok <==> reply.data == BodyView::Control(Control::Verified),
        auth_verdict(reply) == Err::<(), SessionError>(SessionError::ConnectionDenied) <==> reply.data
            == BodyView::Control(Control::ConnectionDenied),
        auth_verdict(reply) == Err::<(), SessionError>(SessionError::UnexpectedMessage) <==> !(reply.data is Control),
        auth_verdict(reply) matches Err(e) ==> e != SessionError::UserEmpty && e != SessionError::NoPeer,
{
}

/// A control message of the local user carries the code, the time and the user that
/// are given, and there is one exactly where there is a local user.
pub proof fn control_messages_carry_their_code(s: SessionView, user: UserView, time: Timestamp, code: Control)
    ensures
        ({
            let message = control_message(user, time, code);
            message.time == time && message.user == user && message.data == BodyView::Control(code)
        }),
        s.me is None <==> s.own_control(time, code) == Err::<MessageView, SessionError>(SessionError::UserEmpty),
        s.me matches Some(me) ==> (s.own_control(time, code) matches Ok(message) && message.time == time
            && message.user == me && message.data == BodyView::Control(code)),
{
}

/// The main task goes from step to step while they go well, and no step is left
/// out. The first step always leads on; an end and a failure are final.
pub proof fn main_task_goes_step_by_step(phase: Phase, ok: bool)
    ensures
        next_phase(Phase::Opened, ok) == Phase::Authenticating,
        next_phase(Phase::Authenticating, true) == Phase::Verifying,
        next_phase(Phase::Verifying, true) == Phase::Sending,
        next_phase(Phase::Sending, true) == Phase::Receiving,
        next_phase(Phase::Receiving, true) == Phase::Finished,
        phase == Phase::Finished || phase == Phase::Failed ==> next_phase(phase, ok) == phase,
        next_phase(phase, false) == Phase::Failed <==> phase != Phase::Opened && phase != Phase::Finished,
        state_set(phase, ok) == Some(SessionState::Authenticating) <==> phase == Phase::Opened,
        state_set(phase, ok) == Some(SessionState::Established) <==> phase == Phase::Verifying && ok,
        state_set(phase, ok) == Some(SessionState::Terminated) <==> phase == Phase::Receiving && ok,
        state_set(phase, ok) != Some(SessionState::Ready) && state_set(phase, ok) != Some(SessionState::Closed),
{
}

/// The main task changes the state of its session at three points only: when it
/// starts, when the peer is known and has been verified, and when both services
/// have ended. Messages are sent from the second point on. The queue and the
/// participants are never touched.
pub proof fn main_task_changes_the_state_at_three_points(s: SessionView, phase: Phase, ok: bool)
    ensures
        ({
            let after = s.advanced(phase, ok);
            let verified = phase == Phase::Verifying && ok && s.peer is Some;
            &&& after.state == (if phase == Phase::Opened {
                SessionState::Authenticating
            } else if verified {
                SessionState::Established
            } else if phase == Phase::Receiving && ok {
                SessionState::Terminated
            } else {
                s.state
            })
            &&& after.serving <==> s.serving || verified
            &&& after.queue == s.queue && after.peer == s.peer && after.me == s.me
        }),
        s.went_well(phase, ok) <==> ok && (phase != Phase::Verifying || s.peer is Some),
{
}

/// The listener starts to take in streams when it sees the session established,
/// and ends when it sees it closed, or when a stream cannot be had. It then stays
/// ended, and until then it goes on.
pub proof fn listener_runs_from_establishment_to_close(state: SessionState, ok: bool)
    ensures
        listener_next(Listener::Waiting, state).1 == ListenerAction::Poll,
        listener_next(Listener::Waiting, state).0 == Listener::Accepting <==> state == SessionState::Established
            || state == SessionState::Closed,
        listener_next(Listener::Waiting, state).0 != Listener::Done,
        state == SessionState::Closed ==> listener_next(Listener::Accepting, state) == (
            Listener::Done,
            ListenerAction::Exit,
        ),
        state != SessionState::Closed ==> listener_next(Listener::Accepting, state) == (
            Listener::Accepting,
            ListenerAction::Accept,
        ),
        listener_next(Listener::Done, state) == (Listener::Done, ListenerAction::Exit),
        listener_after(true) == Listener::Accepting,
        listener_after(false) == Listener::Done,
{
}

/// A service that runs goes on in every state but `Closed`, and one that has ended
/// does not start again.
pub proof fn services_run_until_the_close(service: Service, state: SessionState)
    ensures
        service_next(service, state) == Service::Running <==> service == Service::Running && state
            != SessionState::Closed,
{
}

/// A line that does not end in a newline is the text of its message, unchanged and
/// at any length. The message is that of the user who typed it, at the time when
/// it was typed.
pub proof fn line_is_sent_unchanged(line: Seq<char>, me: UserView, time: Timestamp)
    requires
        line.len() > 0 ==> line[line.len() - 1] != '\n',
    ensures
        typed(line, me, time).data == BodyView::String(line),
        typed(line, me, time).user == me,
        typed(line, me, time).time == time,
{
}

/// A text that is followed by one newline gives exactly that text, whatever the
/// text is made of.
pub proof fn newline_is_cut_off(text: Seq<char>, me: UserView, time: Timestamp)
    ensures
        typed(text + seq!['\n'], me, time).data == BodyView::String(text),
        typed(text + seq!['\n'], me, time).user == me,
        typed(text + seq!['\n'], me, time).time == time,
{
    let line = text + seq!['\n'];
    assert(line.last() == '\n');
    assert(line.drop_last() =~= text);
}

/// Different texts, typed with or without a newline at their end, are different
/// messages.
pub proof fn different_texts_are_different_messages(a: Seq<char>, b: Seq<char>, me: UserView, time: Timestamp)
    requires
        typed(a + seq!['\n'], me, time) == typed(b + seq!['\n'], me, time),
    ensures
        a == b,
{
    newline_is_cut_off(a, me, time);
    newline_is_cut_off(b, me, time);
}

/// A text, bytes and a file are shown whole, behind the name of their writer. The
/// time does not show.
pub proof fn messages_are_shown_whole(message: MessageView, time: Seq<char>)
    ensures
        message.data matches BodyView::String(s) ==> shown(message, time) == "[Got message from "@
            + message.user.username + "]"@ + s,
        message.data matches BodyView::Bytes(b) ==> shown(message, time) == "[Got bytes from "@
            + message.user.username + "]"@ + byte_list(b),
        message.data matches BodyView::File(f) ==> shown(message, time) == "[Got new file from "@
            + message.user.username + "] "@ + ("File { name: "@ + quoted(f.name) + ", size: "@ + decimal(f.size as nat)
            + ", data: "@ + byte_list(f.data) + " }"@),
{
}

/// Any other message is shown as unknown, with everything that it holds.
pub proof fn other_messages_are_shown_as_unknown(message: MessageView, time: Seq<char>)
    requires
        message.data is Auth || message.data is Control,
    ensures
        shown(message, time) == "[Got unknown message]: "@ + ("Message { time: "@ + time + ", user: "@ + (
        "User { username: "@ + quoted(message.user.username) + ", email: "@ + quoted(message.user.email)
            + ", user_id: "@ + quoted(message.user.user_id) + " }"@) + ", data: "@ + (match message.data {
            BodyView::Control(Control::CloseByPeer) => "Control("@ + "CloseByPeer"@ + ")"@,
            BodyView::Control(Control::Acknowledge) => "Control("@ + "Acknowledge"@ + ")"@,
            BodyView::Control(Control::RetransmissionRequest) => "Control("@ + "RetransmissionRequest"@ + ")"@,
            BodyView::Control(Control::Verified) => "Control("@ + "Verified"@ + ")"@,
            BodyView::Control(Control::ConnectionDenied) => "Control("@ + "ConnectionDenied"@ + ")"@,
            _ => "Auth"@,
        }) + " }"@),
{
}

/// A message that could be read joins the inbox behind all the others; a failure
/// leaves the inbox as it was.
pub proof fn inbox_grows_by_what_could_be_read(inbox: Seq<MessageView>, message: MessageView)
    ensures
        received(inbox, Some(message)).len() == inbox.len() + 1,
        forall|i: int| 0 <= i < inbox.len() ==> #[trigger] received(inbox, Some(message))[i] == inbox[i],
        received(inbox, Some(message))[inbox.len() as int] == message,
        received(inbox, None) == inbox,
{
}

/// A key file with the extension `der` is the key, whatever its contents and their
/// length, and is never refused.
pub proof fn der_key_is_taken_as_it_is(contents: Seq<u8>)
    ensures
        key_in(Some("der"@), contents) == Ok::<Seq<u8>, CredentialError>(contents),
{
}

/// A certificate file with the extension `der` is a chain of one certificate,
/// whatever its contents and their length, and is never refused.
pub proof fn der_certificate_is_taken_as_it_is(contents: Seq<u8>)
    ensures
        chain_in(Some("der"@), contents) matches Ok(chain) && chain.len() == 1 && chain[0] == contents,
{
}

/// Any other file is PEM. Of its keys the first PKCS #8 key is used, however many
/// there are, and only where there is none the first PKCS #1 key. Of its
/// certificates all are used, in their order.
pub proof fn other_files_are_pem(extension: Option<Seq<char>>, contents: Seq<u8>)
    requires
        extension != Some("der"@),
    ensures
        key_in(extension, contents) == (match pem_pkcs8_keys(contents) {
            None => Err(CredentialError::MalformedPkcs8),
            Some(keys) => if keys.len() > 0 {
                Ok(keys[0])
            } else {
                match pem_rsa_keys(contents) {
                    None => Err(CredentialError::MalformedPkcs1),
                    Some(others) => if others.len() > 0 {
                        Ok(others[0])
                    } else {
                        Err(CredentialError::NoPrivateKeys)
                    },
                }
            },
        }),
        pem_certificates(contents) matches Some(chain) ==> chain_in(extension, contents) == Ok::<
            Seq<Seq<u8>>,
            CredentialError,
        >(chain),
        pem_certificates(contents) is None ==> chain_in(extension, contents) == Err::<Seq<Seq<u8>>, CredentialError>(
            CredentialError::InvalidCertificate,
        ),
        !is_der(extension),
        is_der(Some("der"@)),
{
}

/// A PKCS #8 key is preferred to any PKCS #1 key, and the first of its kind to any
/// other.
pub proof fn first_pkcs8_key_is_preferred(
    key: Seq<u8>,
    more: Seq<Seq<u8>>,
    rsa: Option<Seq<Seq<u8>>>,
)
    ensures
        chosen_key(Some(seq![key] + more), rsa) == Ok::<Seq<u8>, CredentialError>(key),
        chosen_key(Some(Seq::empty()), Some(seq![key] + more)) == Ok::<Seq<u8>, CredentialError>(key),
        chosen_key(Some(Seq::empty()), Some(Seq::empty())) == Err::<Seq<u8>, CredentialError>(
            CredentialError::NoPrivateKeys,
        ),
        chosen_key(Some(Seq::empty()), None) == Err::<Seq<u8>, CredentialError>(CredentialError::MalformedPkcs1),
        chosen_key(None, rsa) == Err::<Seq<u8>, CredentialError>(CredentialError::MalformedPkcs8),
{
    assert((seq![key] + more)[0] == key);
}

/// Two named DER files give exactly their contents as key and certificate.
pub proof fn named_der_files_are_served(key: Seq<u8>, certificate: Seq<u8>)
    ensures
        NamedFilesView::ReadKey.after_read(Some("der"@), FileReadView::Contents(key)).after_read(
            Some("der"@),
            FileReadView::Contents(certificate),
        ) == (NamedFilesView::Ready { chain: seq![certificate], key }),
{
}

/// A named file that cannot be read is reported with its reason: the key file
/// first, and the certificate file once the key has been found. Credentials that
/// are ready, and a failure, are final.
pub proof fn unread_named_files_are_reported(
    files: NamedFilesView,
    key: Seq<u8>,
    extension: Option<Seq<char>>,
    read: FileReadView,
    reason: Seq<char>,
)
    ensures
        NamedFilesView::ReadKey.after_read(extension, FileReadView::NotFound) == (NamedFilesView::Failed {
            error: NamedFilesErrorView::ReadKey(FileProblemView::NotFound),
        }),
        NamedFilesView::ReadKey.after_read(extension, FileReadView::Failed(reason)) == (NamedFilesView::Failed {
            error: NamedFilesErrorView::ReadKey(FileProblemView::Failed(reason)),
        }),
        (NamedFilesView::ReadChain { key }).after_read(extension, FileReadView::NotFound) == (NamedFilesView::Failed {
            error: NamedFilesErrorView::ReadChain(FileProblemView::NotFound),
        }),
        (NamedFilesView::ReadChain { key }).after_read(extension, FileReadView::Failed(reason)) == (
        NamedFilesView::Failed { error: NamedFilesErrorView::ReadChain(FileProblemView::Failed(reason)) }),
        files is Ready || files is Failed ==> files.after_read(extension, read) == files,
{
}

/// A named key that has been found is kept until the chain has been read, and
/// served with it.
pub proof fn found_key_is_served(
    key_extension: Option<Seq<char>>,
    key_file: Seq<u8>,
    chain_extension: Option<Seq<char>>,
    chain_file: Seq<u8>,
)
    ensures
        key_in(key_extension, key_file) matches Ok(key) ==> chain_in(chain_extension, chain_file) matches Ok(chain)
            ==> NamedFilesView::ReadKey.after_read(key_extension, FileReadView::Contents(key_file)).after_read(
            chain_extension,
            FileReadView::Contents(chain_file),
        ) == (NamedFilesView::Ready { chain, key }),
        key_in(key_extension, key_file) matches Err(e) ==> NamedFilesView::ReadKey.after_read(
            key_extension,
            FileReadView::Contents(key_file),
        ) == (NamedFilesView::Failed { error: NamedFilesErrorView::Credential(e) }),
{
}

/// A store that holds both files serves exactly what they hold, as it stands.
pub proof fn stored_files_are_served(certificate: Seq<u8>, key: Seq<u8>)
    ensures
        LocalStoreView::ReadCertificate.after_read(FileReadView::Contents(certificate)).after_read(
            FileReadView::Contents(key),
        ) == (LocalStoreView::Ready { certificate, key }),
{
}

/// A new certificate is made exactly where a file of the store is missing. A file
/// that is there and cannot be read is an error with its reason, and nothing is
/// overwritten.
pub proof fn only_a_missing_file_leads_to_a_new_certificate(
    store: LocalStoreView,
    read: FileReadView,
    reason: Seq<char>,
)
    requires
        store is ReadCertificate || store is ReadKey,
    ensures
        store.after_read(read) == LocalStoreView::Generate <==> read == FileReadView::NotFound,
        store.after_read(FileReadView::Failed(reason)) == (LocalStoreView::Failed {
            error: StoreErrorView::Read(reason),
        }),
{
}

/// What was made is written and served as it was made: first the directory, then
/// the certificate, then the key. What goes wrong is reported by the step at which
/// it went wrong.
pub proof fn made_credentials_are_written_in_order(certificate: Seq<u8>, key: Seq<u8>)
    ensures
        LocalStoreView::Generate.after_generated(Some((certificate, key))) == (LocalStoreView::CreateDirectory {
            certificate,
            key,
        }),
        LocalStoreView::Generate.after_generated(None) == (LocalStoreView::Failed {
            error: StoreErrorView::Generate,
        }),
        (LocalStoreView::CreateDirectory { certificate, key }).after_written(true) == (
        LocalStoreView::WriteCertificate { certificate, key }),
        (LocalStoreView::WriteCertificate { certificate, key }).after_written(true) == (LocalStoreView::WriteKey {
            certificate,
            key,
        }),
        (LocalStoreView::WriteKey { certificate, key }).after_written(true) == (LocalStoreView::Ready {
            certificate,
            key,
        }),
        (LocalStoreView::CreateDirectory { certificate, key }).after_written(false) == (LocalStoreView::Failed {
            error: StoreErrorView::CreateDirectory,
        }),
        (LocalStoreView::WriteCertificate { certificate, key }).after_written(false) == (LocalStoreView::Failed {
            error: StoreErrorView::WriteCertificate,
        }),
        (LocalStoreView::WriteKey { certificate, key }).after_written(false) == (LocalStoreView::Failed {
            error: StoreErrorView::WriteKey,
        }),
{
}

/// An event that does not belong to what is being done changes nothing.
pub proof fn stray_events_change_nothing(
    store: LocalStoreView,
    read: FileReadView,
    made: Option<(Seq<u8>, Seq<u8>)>,
    ok: bool,
)
    ensures
        !(store is ReadCertificate || store is ReadKey) ==> store.after_read(read) == store,
        !(store is Generate) ==> store.after_generated(made) == store,
        !(store is CreateDirectory || store is WriteCertificate || store is WriteKey) ==> store.after_written(ok)
            == store,
{
}

/// A certificate that is read is trusted, and nothing else: whether it was named or
/// found plays no part, nor does its size. Bytes that are no certificate are
/// refused.
pub proof fn read_certificate_is_trusted(named: bool, der: Seq<u8>)
    ensures
        trust_anchor(der) matches Some(anchor) ==> (trusted(named, FileReadView::Contents(der)) matches Ok(anchors)
            && anchors.len() == 1 && anchors[0] == anchor),
        trust_anchor(der) is None ==> (trusted(named, FileReadView::Contents(der)) matches Err(e) && e
            == TrustErrorView::BadCertificate),
{
}

/// Without a certificate to read nothing is trusted. That is an error, with its
/// reason, exactly where the user has named the certificate.
pub proof fn unread_certificate_is_not_trusted(reason: Seq<char>)
    ensures
        trusted(true, FileReadView::NotFound) matches Err(e) && e == TrustErrorView::CannotRead(
            FileProblemView::NotFound,
        ),
        trusted(true, FileReadView::Failed(reason)) matches Err(e) && e == TrustErrorView::CannotRead(
            FileProblemView::Failed(reason),
        ),
        trusted(false, FileReadView::NotFound) matches Ok(anchors) && anchors.len() == 0,
        trusted(false, FileReadView::Failed(reason)) matches Ok(anchors) && anchors.len() == 0,
{
}

/// An `https` URL with a host leads to that host. The port is the one that the URL
/// shows, whichever it is, and 4433 exactly where it shows none.
pub proof fn url_leads_to_its_host_and_port(host: Seq<char>, port: u16)
    ensures
        target_of(Some(UrlView { scheme: "https"@, host: Some(host), port: Some(port) })) == Ok::<
            TargetView,
            ResolveError,
        >(TargetView { host, port }),
        target_of(Some(UrlView { scheme: "https"@, host: Some(host), port: None })) == Ok::<
            TargetView,
            ResolveError,
        >(TargetView { host, port: 4433 }),
{
}

/// A text that is no URL, another scheme and a missing host are refused, each in
/// its own way; the scheme is looked at before the host.
pub proof fn other_urls_are_refused(scheme: Seq<char>, host: Option<Seq<char>>, port: Option<u16>)
    ensures
        target_of(None) == Err::<TargetView, ResolveError>(ResolveError::CannotParse),
        scheme != "https"@ ==> target_of(Some(UrlView { scheme, host, port })) == Err::<TargetView, ResolveError>(
            ResolveError::WrongScheme,
        ),
        target_of(Some(UrlView { scheme: "https"@, host: None, port })) == Err::<TargetView, ResolveError>(
            ResolveError::NoHost,
        ),
{
}

/// What is looked up is the host, a colon and the port in decimal.
pub proof fn authority_is_host_colon_port(host: Seq<char>, port: u16)
    ensures
        authority(host, port).len() > host.len() + 1,
        authority(host, port).take(host.len() as int) == host,
        authority(host, port)[host.len() as int] == ':',
        number(authority(host, port).skip(host.len() as int + 1)) == port,
{
    reveal_strlit(":");
    digits_only(port as nat);
    decimal_can_be_read_back(port as nat);
    assert(authority(host, port).take(host.len() as int) =~= host);
    assert(authority(host, port).skip(host.len() as int + 1) =~= decimal(port as nat));
}

/// The number that digits stand for.
pub open spec fn number(digits: Seq<char>) -> int
    decreases digits.len(),
{
    if digits.len() == 0 {
        0
    } else {
        10 * number(digits.drop_last()) + (digits.last() as int - '0' as int)
    }
}

/// A number in decimal stands for that number, and begins with no zero but for
/// zero itself.
pub proof fn decimal_can_be_read_back(n: nat)
    ensures
        number(decimal(n)) == n,
        decimal(n).len() > 0,
        decimal(n)[0] == '0' ==> decimal(n).len() == 1,
    decreases n,
{
    reveal_with_fuel(number, 2);
    if n >= 10 {
        decimal_can_be_read_back(n / 10);
        digits_only(n / 10);
        assert(decimal(n).drop_last() =~= decimal(n / 10));
        assert(decimal(n)[0] == decimal(n / 10)[0]);
        if decimal(n)[0] == '0' {
            assert(decimal(n / 10).len() == 1);
            assert(decimal(n / 10).drop_last() =~= Seq::<char>::empty());
            assert(number(decimal(n / 10)) == 0);
        }
    } else {
        assert(decimal(n).drop_last() =~= Seq::<char>::empty());
        assert(decimal(n).last() as int == n + 48);
    }
}

/// A list of bytes is that of its parts, one behind the other and separated by a
/// comma and a space; a single byte is written in decimal.
pub proof fn byte_list_is_made_of_its_parts(a: Seq<u8>, b: Seq<u8>, byte: u8)
    ensures
        byte_list(a) == "["@ + byte_items(a) + "]"@,
        byte_items(Seq::empty()) == Seq::<char>::empty(),
        byte_items(seq![byte]) == decimal(byte as nat),
        a.len() > 0 && b.len() > 0 ==> byte_items(a + b) == byte_items(a) + ", "@ + byte_items(b),
    decreases b.len(),
{
    if a.len() > 0 && b.len() == 1 {
        assert((a + b).drop_last() =~= a);
    } else if a.len() > 0 && b.len() > 1 {
        byte_list_is_made_of_its_parts(a, b.drop_last(), byte);
        assert((a + b).drop_last() =~= a + b.drop_last());
        assert(byte_items(a + b) =~= byte_items(a) + ", "@ + byte_items(b));
    }
}

/// A read ends the answer exactly where it is at the end of the stream or gave
/// nothing. What it gave otherwise are the first bytes of the buffer, as many as
/// were read.
pub proof fn a_read_gives_what_was_read(buffer: Seq<u8>, n: usize)
    requires
        n <= buffer.len(),
    ensures
        ends(piece_of(buffer, None)),
        ends(piece_of(buffer, Some(n))) <==> n == 0,
        piece_of(buffer, Some(n)) matches Some(bytes) && bytes.len() == n && forall|i: int|
            0 <= i < n ==> #[trigger] bytes[i] == buffer[i],
{
}

/// The answer is all that was read before the end, in order and without a gap,
/// and nothing that comes after the end.
pub proof fn answer_is_all_that_was_read(read: Seq<Seq<u8>>, rest: Seq<Piece>)
    requires
        forall|i: int| 0 <= i < read.len() ==> (#[trigger] read[i]).len() > 0,
        rest.len() > 0 ==> (rest[0] is None || rest[0] == Some(Seq::<u8>::empty())),
    ensures
        answer(read.map_values(|bytes: Seq<u8>| Some(bytes)) + rest) == read.flatten(),
    decreases read.len(),
{
    let pieces = read.map_values(|bytes: Seq<u8>| Some(bytes)) + rest;
    if read.len() == 0 {
        assert(pieces =~= rest);
    } else {
        let others = read.drop_first();
        assert(forall|i: int| 0 <= i < others.len() ==> #[trigger] others[i] == read[i + 1]);
        answer_is_all_that_was_read(others, rest);
        assert(pieces.first() == Some(read[0]));
        assert(pieces.drop_first() =~= others.map_values(|bytes: Seq<u8>| Some(bytes)) + rest);
    }
}

/// The mode decides the role, and only the two modes that have one; the local user
/// is the client in the mode `client`, and the server in every other.
pub proof fn mode_decides_role_and_user(mode: Seq<char>)
    ensures
        role_of(mode) == Role::Server <==> mode == "server"@,
        role_of(mode) == Role::Client <==> mode == "client"@,
        mode == "client"@ ==> identity_of(mode).username == "client"@ && identity_of(mode).user_id
            == "a7d399659b333e931046e4959e635e32"@,
        mode != "client"@ ==> identity_of(mode).username == "server"@ && identity_of(mode).user_id
            == "e8b32bc4d7b564ac6075a1418ad8841e"@,
        identity_of(mode).email == "localhost@localhost"@,
{
    reveal_strlit("client");
    reveal_strlit("server");
    assert("client"@[0] != "server"@[0]);
}

/// Both ends offer one application protocol.
pub proof fn one_protocol_is_offered()
    ensures
        offered_protocols().len() == 1,
        offered_protocols()[0] == encode_utf8("hq-29"@),
{
}

/// The limits that hold where none is set, and a limit that is set, which is kept.
pub proof fn limits_are_kept(n: u32)
    ensures
        default_limits().one_way == 100,
        default_limits().idle == Some(10_000u64),
        default_limits().probes,
        widened(None) is None,
        widened(Some(n)) matches Some(wide) && wide == n,
{
}

/// An error that has a reason ends in that reason, whole.
pub proof fn reasons_are_told(reason: Seq<char>, e: CredentialError, problem: FileProblemView)
    ensures
        StoreErrorView::Read(reason).text() == "failed to read certificate: "@ + reason,
        ConnectErrorView::Failed(reason).text() == "failed to connect: "@ + reason,
        ConnectErrorView::NoAddress.text() == "invalid hostname or port"@,
        NamedFilesErrorView::ReadKey(problem).text() == "failed to read private key"@,
        NamedFilesErrorView::ReadChain(problem).text() == "failed to read certificate chain"@,
        NamedFilesErrorView::Credential(e).text() == e.text(),
{
}

/// The view of a message holds everything that the message holds.
pub proof fn view_of_a_message_is_complete(message: Message, user: User, body: Body, file: File)
    ensures
        message@.time == message.time && message@.user == message.user@ && message@.data == message.data@,
        user@.username == user.username@ && user@.email == user.email@ && user@.user_id == user.user_id@,
        file@.name == file.name@ && file@.size == file.size && file@.data == file.data@,
        body matches Body::String(s) ==> body@ == BodyView::String(s@),
        body matches Body::Bytes(b) ==> body@ == BodyView::Bytes(b@),
        body matches Body::File(f) ==> body@ == BodyView::File(f@),
        body matches Body::Control(c) ==> body@ == BodyView::Control(c),
        body is Auth ==> body@ == BodyView::Auth,
{
}

/// The views of lists hold the views of their elements, each at its place.
pub proof fn views_of_lists_are_complete(messages: Seq<Message>, list: Seq<Vec<u8>>, names: Seq<String>)
    ensures
        message_views(messages).len() == messages.len(),
        forall|i: int| 0 <= i < messages.len() ==> #[trigger] message_views(messages)[i] == messages[i]@,
        byte_strings(list).len() == list.len(),
        forall|i: int| 0 <= i < list.len() ==> #[trigger] byte_strings(list)[i] == list[i]@,
        texts(names).len() == names.len(),
        forall|i: int| 0 <= i < names.len() ==> #[trigger] texts(names)[i] == names[i]@,
{
}

/// The views of what a session gives and takes hold everything that it holds.
pub proof fn views_of_steps_are_complete(message: Message, user: User, e: SessionError)
    ensures
        Response::Reply(message)@ == ResponseView::Reply(message@),
        Response::Finish@ == ResponseView::Finish,
        Dispatch::Send(message)@ == DispatchView::Send(message@),
        Dispatch::Idle@ == DispatchView::Idle,
        Dispatch::Exit@ == DispatchView::Exit,
        Exchange::Answered(message)@ == ExchangeView::Answered(message@),
        Exchange::NotOpened@ == ExchangeView::NotOpened,
        Exchange::NotWritten@ == ExchangeView::NotWritten,
        Exchange::NoAnswer@ == ExchangeView::NoAnswer,
        message_result(Ok(message)) == Ok::<MessageView, SessionError>(message@),
        message_result(Err(e)) == Err::<MessageView, SessionError>(e),
        user_view(Some(user)) == Some(user@),
        user_view(None) is None,
{
}

/// The views of URLs, targets and failed connections hold everything that they
/// hold.
pub proof fn views_of_targets_are_complete(parts: UrlParts, target: Target, reason: String, e: ResolveError)
    ensures
        parts@.scheme == parts.scheme@ && parts@.port == parts.port,
        parts.host matches Some(host) ==> parts@.host == Some(host@),
        parts.host is None ==> parts@.host is None,
        parts_view(Some(parts)) == Some(parts@),
        parts_view(None) is None,
        target@.host == target.host@ && target@.port == target.port,
        target_result(Ok(target)) == Ok::<TargetView, ResolveError>(target@),
        target_result(Err(e)) == Err::<TargetView, ResolveError>(e),
        ConnectError::Failed(reason)@ == ConnectErrorView::Failed(reason@),
        ConnectError::NoAddress@ == ConnectErrorView::NoAddress,
{
}

/// The views of what is read, and of what goes wrong with it, hold everything that
/// they hold.
pub proof fn views_of_files_are_complete(
    bytes: Vec<u8>,
    chain: Vec<Vec<u8>>,
    extension: String,
    reason: String,
    problem: FileProblem,
    e: CredentialError,
)
    ensures
        FileRead::Contents(bytes)@ == FileReadView::Contents(bytes@),
        FileRead::NotFound@ == FileReadView::NotFound,
        FileRead::Failed(reason)@ == FileReadView::Failed(reason@),
        FileProblem::NotFound@ == FileProblemView::NotFound,
        FileProblem::Failed(reason)@ == FileProblemView::Failed(reason@),
        TrustError::CannotRead(problem)@ == TrustErrorView::CannotRead(problem@),
        TrustError::BadCertificate@ == TrustErrorView::BadCertificate,
        NamedFilesError::ReadKey(problem)@ == NamedFilesErrorView::ReadKey(problem@),
        NamedFilesError::ReadChain(problem)@ == NamedFilesErrorView::ReadChain(problem@),
        NamedFilesError::Credential(e)@ == NamedFilesErrorView::Credential(e),
        StoreError::Read(reason)@ == StoreErrorView::Read(reason@),
        StoreError::Generate@ == StoreErrorView::Generate,
        StoreError::CreateDirectory@ == StoreErrorView::CreateDirectory,
        StoreError::WriteCertificate@ == StoreErrorView::WriteCertificate,
        StoreError::WriteKey@ == StoreErrorView::WriteKey,
        extension_view(Some(extension)) == Some(extension@),
        extension_view(None) is None,
        key_result(Ok(bytes)) == Ok::<Seq<u8>, CredentialError>(bytes@),
        key_result(Err(e)) == Err::<Seq<u8>, CredentialError>(e),
        chain_result(Ok(chain)) matches Ok(certificates) && certificates.len() == chain@.len() && forall|i: int|
            0 <= i < chain@.len() ==> #[trigger] certificates[i] == chain@[i]@,
        chain_result(Err(e)) == Err::<Seq<Seq<u8>>, CredentialError>(e),
        byte_strings_option(None) is None,
        byte_strings_option(Some(chain)) == Some(byte_strings(chain@)),
{
}

/// The views of where the credentials stand hold everything that they hold.
pub proof fn views_of_stores_are_complete(
    certificate: Vec<u8>,
    key: Vec<u8>,
    credentials: Credentials,
    error: StoreError,
    named_error: NamedFilesError,
)
    ensures
        LocalStore::ReadCertificate@ == LocalStoreView::ReadCertificate,
        (LocalStore::ReadKey { certificate })@ == (LocalStoreView::ReadKey { certificate: certificate@ }),
        LocalStore::Generate@ == LocalStoreView::Generate,
        (LocalStore::CreateDirectory { certificate, key })@ == (LocalStoreView::CreateDirectory {
            certificate: certificate@,
            key: key@,
        }),
        (LocalStore::WriteCertificate { certificate, key })@ == (LocalStoreView::WriteCertificate {
            certificate: certificate@,
            key: key@,
        }),
        (LocalStore::WriteKey { certificate, key })@ == (LocalStoreView::WriteKey {
            certificate: certificate@,
            key: key@,
        }),
        (LocalStore::Ready { certificate, key })@ == (LocalStoreView::Ready { certificate: certificate@, key: key@ }),
        (LocalStore::Failed { error })@ == (LocalStoreView::Failed { error: error@ }),
        pair_view(Some((certificate, key))) == Some((certificate@, key@)),
        pair_view(None) is None,
        NamedFiles::ReadKey@ == NamedFilesView::ReadKey,
        (NamedFiles::ReadChain { key })@ == (NamedFilesView::ReadChain { key: key@ }),
        (NamedFiles::Ready { credentials })@ == (NamedFilesView::Ready {
            chain: byte_strings(credentials.chain@),
            key: credentials.key@,
        }),
        (NamedFiles::Failed { error: named_error })@ == (NamedFilesView::Failed { error: named_error@ }),
{
}

} // verus!
