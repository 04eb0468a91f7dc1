//! What a call gives back for what it is given: of any call with these arguments
//! and this result, so much is certain.
use vstd::prelude::*;
use vstd::utf8::encode_utf8;

use crate::credentials::{
    byte_strings, choose_key, credential_source, is_self_signed, load_chain, load_key, pem_certificates, pem_chain, pem_pkcs8_keys,
    pem_rsa_keys, CredentialError, CredentialSource, Credentials, FileProblem, FileRead, LocalStore, NamedFiles,
    NamedFilesError, StoreError,
};
use crate::endpoint::{
    accepted_config, asks_for_certificate, client_anchors, client_protocols, client_setup, client_tls,
    is_rsa_or_ed25519_key, server_protocols, server_setup, server_tls, shown_chain, signs_with, ClientSetup,
    InvalidKey, ServerSetup,
};
use crate::exchange::take_piece;
use crate::guarantees::{
    authority_is_host_colon_port, decimal_can_be_read_back, mode_decides_role_and_user, number,
};
use crate::launch::{console_starts, identity, interrupt, role, shutdown, Interrupt, Role, Shutdown};
use crate::lifecycle::{Listener, ListenerAction, Phase, Service};
use crate::message::{Body, Control, Message, Timestamp};
use crate::resolve::{
    authority_text, check_url, connected, dialled, first_address, remote, resolve_url, server_name, url_of,
    ConnectError, ResolveError, Target, UrlParts,
};
use crate::session::{hand_on, Delivery, Dispatch, Exchange, Response, Session, SessionError, SessionState};
use crate::state::{
    collection_empties_an_ended_program, collection_keeps_what_has_not_ended,
    collection_spares_running_sessions, QuicTalkState,
};
use crate::text::{byte_items, byte_list_text, decimal, decimal_text, digits_only, quoted, same_text};
use crate::transport::{
    client_config, client_limits, client_speaks, retries, server_config, server_limits, server_speaks,
};
use crate::trust::{trust_anchor, trust_anchors, trust_source, trusted_roots, TrustError, TrustSource};
use crate::ui::{compose, show, EmptyUser, Inbox};
use crate::user::User;

verus! {

/// Two views of a session differ in their queues alone.
pub open spec fn same_but_for_the_queue(s: Session, t: Session) -> bool {
    s@.state == t@.state && s@.serving == t@.serving && s@.peer == t@.peer && s@.me == t@.me
}

/// A new session belongs to the user that is given, and is otherwise empty.
pub proof fn call_of_new_session(me: Option<User>, r: Session)
    requires
        call_ensures(Session::new, (me,), r),
    ensures
        r@.state == SessionState::Ready && !r@.serving && r@.queue.len() == 0 && r@.peer is None,
        me matches Some(user) ==> r@.me == Some(user@),
        me is None ==> r@.me is None,
{
}

/// What is asked of a session is read off it.
pub proof fn call_of_getters(s: Session, state: SessionState, terminated: bool, user: bool)
    requires
        call_ensures(Session::get_state, (&s,), state),
        call_ensures(Session::is_terminated, (&s,), terminated),
        call_ensures(Session::has_user, (&s,), user),
    ensures
        state == s@.state,
        terminated <==> s@.state == SessionState::Terminated,
        user <==> s@.me is Some,
{
}

/// The name of the peer is the one under which it has introduced itself.
pub proof fn call_of_get_peername(s: Session, r: Result<String, SessionError>)
    requires
        call_ensures(Session::get_peername, (&s,), r),
    ensures
        s@.peer matches Some(peer) ==> (r matches Ok(name) && name@ == peer.username),
        s@.peer is None ==> r == Err::<String, SessionError>(SessionError::NoPeer),
{
}

/// A state that is set is the state of the session, and nothing else changes.
pub proof fn call_of_set_state(s: &mut Session, state: SessionState, r: ())
    requires
        call_ensures(Session::set_state, (s, state), r),
    ensures
        final(s)@.state == state,
        final(s)@.serving == old(s)@.serving && final(s)@.queue == old(s)@.queue,
        final(s)@.peer == old(s)@.peer && final(s)@.me == old(s)@.me,
{
}

/// Ending a session leaves it `Terminated`, and nothing else changes.
pub proof fn call_of_closed(s: &mut Session, r: ())
    requires
        call_ensures(Session::closed, (s,), r),
    ensures
        final(s)@.state == SessionState::Terminated,
        final(s)@.serving == old(s)@.serving && final(s)@.queue == old(s)@.queue,
        final(s)@.peer == old(s)@.peer && final(s)@.me == old(s)@.me,
{
}

/// The close tells the peer so in the name of the local user.
pub proof fn call_of_close(s: Session, now: Timestamp, r: Message)
    requires
        call_ensures(Session::close, (&s, now), r),
    ensures
        r.time == now,
        Some(r.user@) == s@.me,
        r.data == Body::Control(Control::CloseByPeer),
{
}

/// The local user introduces itself under its own name.
pub proof fn call_of_auth(s: Session, now: Timestamp, r: Result<Message, SessionError>)
    requires
        call_ensures(Session::auth, (&s, now), r),
    ensures
        s@.me is Some ==> (r matches Ok(m) && m.time == now && Some(m.user@) == s@.me && m.data is Auth),
        s@.me is None ==> r == Err::<Message, SessionError>(SessionError::UserEmpty),
{
}

/// Only the code `Verified` is consent.
pub proof fn call_of_check_auth_reply(reply: Message, r: Result<(), SessionError>)
    requires
        call_ensures(Session::check_auth_reply, (&reply,), r),
    ensures
        r is Ok <==> reply.data == Body::Control(Control::Verified),
        r == Err::<(), SessionError>(SessionError::ConnectionDenied) <==> reply.data == Body::Control(
            Control::ConnectionDenied,
        ),
        r == Err::<(), SessionError>(SessionError::UnexpectedMessage) <==> !(reply.data is Control),
{
}

/// Every introduction is answered with `Verified`, and nothing else is.
pub proof fn call_of_verify(s: Session, request: Message, now: Timestamp, r: Result<Message, SessionError>)
    requires
        call_ensures(Session::verify, (&s, &request, now), r),
    ensures
        r is Ok <==> s@.me is Some && request.data is Auth,
        r matches Ok(m) ==> m.time == now && Some(m.user@) == s@.me && m.data == Body::Control(Control::Verified),
        r == Err::<Message, SessionError>(SessionError::UserEmpty) <==> s@.me is None,
{
}

/// The peer is the writer of the introduction.
pub proof fn call_of_record_peer(s: &mut Session, request: Message, r: ())
    requires
        call_ensures(Session::record_peer, (s, &request), r),
    ensures
        final(s)@.peer == Some(request.user@),
        final(s)@.state == old(s)@.state && final(s)@.serving == old(s)@.serving,
        final(s)@.queue == old(s)@.queue && final(s)@.me == old(s)@.me,
{
}

/// An acknowledgement is one of the local user.
pub proof fn call_of_make_ack(s: Session, now: Timestamp, r: Result<Message, SessionError>)
    requires
        call_ensures(Session::make_ack, (&s, now), r),
    ensures
        s@.me is Some ==> (r matches Ok(m) && m.time == now && Some(m.user@) == s@.me && m.data == Body::Control(
            Control::Acknowledge,
        )),
        s@.me is None ==> r == Err::<Message, SessionError>(SessionError::UserEmpty),
{
}

/// A message that comes in changes the session exactly where its content is the
/// code `CloseByPeer`, and then only the state; it is acknowledged in any case.
pub proof fn call_of_accept(s: &mut Session, message: Message, now: Timestamp, r: Response)
    requires
        call_ensures(Session::accept, (s, &message, now), r),
    ensures
        message.data != Body::Control(Control::CloseByPeer) ==> final(s)@ == old(s)@,
        message.data is String || message.data is Bytes || message.data is File || message.data is Auth ==> final(s)@.state == old(s)@.state,
        message.data == Body::Control(Control::CloseByPeer) ==> final(s)@.state == SessionState::Closed,
        same_participants_and_queue(*old(s), *final(s)),
        old(s)@.me is None <==> r is Finish,
        r matches Response::Reply(ack) ==> ack.time == now && Some(ack.user@) == old(s)@.me && ack.data
            == Body::Control(Control::Acknowledge),
{
}

/// Two views of a session differ in their states alone.
pub open spec fn same_participants_and_queue(s: Session, t: Session) -> bool {
    s@.serving == t@.serving && s@.queue == t@.queue && s@.peer == t@.peer && s@.me == t@.me
}

/// A message goes on where it could be answered, and a close in any case.
pub proof fn call_of_hand_on(message: Message, answered: bool, r: Option<Message>)
    requires
        call_ensures(hand_on, (message, answered), r),
    ensures
        r is Some <==> answered || message.data == Body::Control(Control::CloseByPeer),
        r matches Some(m) ==> m == message,
{
}

/// A message that is queued is added behind the others.
pub proof fn call_of_send_message(s: &mut Session, message: Message, r: ())
    requires
        call_ensures(Session::send_message, (s, message), r),
    ensures
        final(s)@.queue == old(s)@.queue.push(message@),
        same_but_for_the_queue(*old(s), *final(s)),
{
}

/// The dispatcher sends the message that was queued last, and only in an
/// established session that the peer has not closed.
pub proof fn call_of_dispatch(s: &mut Session, r: Dispatch)
    requires
        call_ensures(Session::dispatch, (s,), r),
    ensures
        r is Exit <==> old(s)@.state == SessionState::Closed,
        r is Send <==> old(s)@.state != SessionState::Closed && old(s)@.serving && old(s)@.queue.len() > 0,
        r matches Dispatch::Send(message) ==> final(s)@.queue.push(message@) == old(s)@.queue,
        !(r is Send) ==> final(s)@.queue == old(s)@.queue,
        same_but_for_the_queue(*old(s), *final(s)),
{
    if old(s)@.queue.len() > 0 {
        assert(old(s)@.queue.drop_last().push(old(s)@.queue.last()) =~= old(s)@.queue);
    }
}

/// An answer leaves the queue alone, unless it asks for the message again.
pub proof fn call_of_settle(s: &mut Session, message: Message, reply: Message, r: Delivery)
    requires
        call_ensures(Session::settle, (s, message, &reply), r),
    ensures
        reply.data == Body::Control(Control::RetransmissionRequest) ==> final(s)@.queue == old(s)@.queue.push(message@),
        reply.data != Body::Control(Control::RetransmissionRequest) ==> final(s)@.queue == old(s)@.queue,
        same_but_for_the_queue(*old(s), *final(s)),
        r == Delivery::Acknowledged <==> reply.data == Body::Control(Control::Acknowledge),
        r == Delivery::Requeued <==> reply.data == Body::Control(Control::RetransmissionRequest),
        r == Delivery::WrongMessage <==> !(reply.data is Control),
{
}

/// After an attempt that the peer answered with anything but a request for the
/// message, the queue is exactly what it was before: nothing is lost and nothing
/// is added. After any other attempt the message is behind what was queued.
pub proof fn call_of_exchanged(s: &mut Session, message: Message, outcome: Exchange, r: Option<Delivery>)
    requires
        call_ensures(Session::exchanged, (s, message, &outcome), r),
    ensures
        outcome matches Exchange::Answered(reply) ==> reply.data != Body::Control(Control::RetransmissionRequest)
            ==> final(s)@ == old(s)@,
        outcome matches Exchange::Answered(reply) ==> reply.data == Body::Control(Control::RetransmissionRequest)
            ==> final(s)@.queue == old(s)@.queue.push(message@),
        !(outcome is Answered) ==> final(s)@.queue == old(s)@.queue.push(message@),
        same_but_for_the_queue(*old(s), *final(s)),
        r is None <==> !(outcome is Answered),
        outcome matches Exchange::Answered(reply) ==> (r == Some(Delivery::Acknowledged) <==> reply.data
            == Body::Control(Control::Acknowledge)),
        outcome matches Exchange::Answered(reply) ==> (r == Some(Delivery::Requeued) <==> reply.data
            == Body::Control(Control::RetransmissionRequest)),
        outcome matches Exchange::Answered(reply) ==> (r == Some(Delivery::WrongMessage) <==> !(reply.data is Control)),
{
}

/// A step of the main task leaves the queue and the participants alone. The
/// session is established by a verification that went well and left the peer
/// known, and by nothing else.
pub proof fn call_of_advance(s: &mut Session, phase: Phase, ok: bool, r: Phase)
    requires
        call_ensures(Session::advance, (s, phase, ok), r),
    ensures
        final(s)@.queue == old(s)@.queue && final(s)@.peer == old(s)@.peer && final(s)@.me == old(s)@.me,
        r == Phase::Sending <==> phase == Phase::Verifying && ok && old(s)@.peer is Some,
        r == Phase::Sending ==> final(s)@.state == SessionState::Established && final(s)@.serving,
        r != Phase::Sending ==> final(s)@.serving == old(s)@.serving,
        r == Phase::Authenticating <==> phase == Phase::Opened,
        r == Phase::Authenticating ==> final(s)@.state == SessionState::Authenticating,
        r == Phase::Verifying <==> phase == Phase::Authenticating && ok,
        r == Phase::Receiving <==> phase == Phase::Sending && ok,
        r == Phase::Finished <==> phase == Phase::Finished || (phase == Phase::Receiving && ok),
        phase == Phase::Receiving && ok ==> final(s)@.state == SessionState::Terminated,
        phase == Phase::Finished || r == Phase::Verifying || r == Phase::Receiving || r == Phase::Failed ==> final(s)@.state == old(s)@.state,
        r != Phase::Opened,
{
}

/// A line without a newline at its end is sent unchanged; of any other exactly that
/// newline is left out.
pub proof fn call_of_compose(line: &str, me: Option<User>, now: Timestamp, r: Result<Message, EmptyUser>)
    requires
        call_ensures(compose, (line, &me, now), r),
    ensures
        r is Ok <==> me is Some,
        r matches Ok(m) ==> m.time == now && m.user@ == me->0@ && m.data is String,
        r matches Ok(m) ==> (m.data matches Body::String(text) && (text@ == line@ || text@ + seq!['\n'] == line@)),
        r matches Ok(m) ==> (line@.len() == 0 || line@[line@.len() - 1] != '\n') ==> (m.data matches Body::String(
            text,
        ) && text@ == line@),
        r matches Ok(m) ==> (line@.len() > 0 && line@[line@.len() - 1] == '\n') ==> (m.data matches Body::String(
            text,
        ) && text@ + seq!['\n'] == line@),
{
    if line@.len() > 0 && line@.last() == '\n' {
        assert(line@.drop_last() + seq!['\n'] =~= line@);
    }
}

/// A text, bytes and a file are shown whole, behind the name of their writer.
pub proof fn call_of_show(message: Message, time: &str, r: String)
    requires
        call_ensures(show, (&message, time), r),
    ensures
        message.data matches Body::String(s) ==> r@ == "[Got message from "@ + message.user.username@ + "]"@ + s@,
        message.data matches Body::Bytes(b) ==> r@ == "[Got bytes from "@ + message.user.username@ + "]"@ + ("["@
            + byte_items(b@) + "]"@),
        message.data matches Body::File(f) ==> r@ == "[Got new file from "@ + message.user.username@ + "] "@ + (
        "File { name: "@ + quoted(f.name@) + ", size: "@ + decimal(f.size as nat) + ", data: "@ + ("["@ + byte_items(
            f.data@,
        ) + "]"@) + " }"@),
{
}

/// The inbox starts empty, takes in every message that could be read, and gives all
/// of them out, in order.
pub proof fn call_of_inbox<E>(
    fresh: Inbox,
    inbox: &mut Inbox,
    outcome: Result<Message, E>,
    full: &mut Inbox,
    messages: Vec<Message>,
    r: (),
)
    requires
        call_ensures(Inbox::new, (), fresh),
        call_ensures(Inbox::receive::<E>, (inbox, outcome), r),
        call_ensures(Inbox::drain, (full,), messages),
    ensures
        fresh@.len() == 0,
        outcome matches Ok(message) ==> final(inbox)@ == old(inbox)@.push(message@),
        outcome is Err ==> final(inbox)@ == old(inbox)@,
        messages@.len() == old(full)@.len(),
        forall|i: int| 0 <= i < messages@.len() ==> (#[trigger] messages@[i])@ == old(full)@[i],
        final(full)@.len() == 0,
{
}

/// A key file with the extension `der` is the key as it stands.
pub proof fn call_of_load_key(extension: Option<String>, contents: Vec<u8>, r: Result<Vec<u8>, CredentialError>)
    requires
        call_ensures(load_key, (extension, contents), r),
    ensures
        (extension matches Some(e) && e@ == "der"@) ==> (r matches Ok(key) && key@ == contents@),
        !(extension matches Some(e) && e@ == "der"@) ==> (match (pem_pkcs8_keys(contents@), pem_rsa_keys(contents@)) {
            (None, _) => r == Err::<Vec<u8>, CredentialError>(CredentialError::MalformedPkcs8),
            (Some(keys), rsa) => if keys.len() > 0 {
                r matches Ok(key) && key@ == keys[0]
            } else {
                match rsa {
                    None => r == Err::<Vec<u8>, CredentialError>(CredentialError::MalformedPkcs1),
                    Some(others) => if others.len() > 0 {
                        r matches Ok(key) && key@ == others[0]
                    } else {
                        r == Err::<Vec<u8>, CredentialError>(CredentialError::NoPrivateKeys)
                    },
                }
            },
        }),
{
}

/// A certificate file with the extension `der` is the one certificate of the
/// chain, as it stands; any other gives all its certificates, in order.
pub proof fn call_of_load_chain(
    extension: Option<String>,
    contents: Vec<u8>,
    r: Result<Vec<Vec<u8>>, CredentialError>,
)
    requires
        call_ensures(load_chain, (extension, contents), r),
    ensures
        (extension matches Some(e) && e@ == "der"@) ==> (r matches Ok(chain) && chain@.len() == 1 && chain@[0]@
            == contents@),
        !(extension matches Some(e) && e@ == "der"@) ==> (match pem_certificates(contents@) {
            None => r == Err::<Vec<Vec<u8>>, CredentialError>(CredentialError::InvalidCertificate),
            Some(found) => r matches Ok(chain) && chain@.len() == found.len() && forall|i: int|
                0 <= i < found.len() ==> (#[trigger] chain@[i])@ == found[i],
        }),
{
    if r is Ok && !(extension matches Some(e) && e@ == "der"@) {
        let chain = r->Ok_0;
        assert(forall|i: int|
            0 <= i < chain@.len() ==> (#[trigger] chain@[i])@ == byte_strings(chain@)[i]);
    }
}

/// The first PKCS #8 key is used, and the first PKCS #1 key where there is none.
pub proof fn call_of_choose_key(
    pkcs8: Option<Vec<Vec<u8>>>,
    rsa: Option<Vec<Vec<u8>>>,
    r: Result<Vec<u8>, CredentialError>,
)
    requires
        call_ensures(choose_key, (pkcs8, rsa), r),
    ensures
        pkcs8 is None ==> r == Err::<Vec<u8>, CredentialError>(CredentialError::MalformedPkcs8),
        pkcs8 matches Some(keys) ==> keys@.len() > 0 ==> (r matches Ok(key) && key@ == keys@[0]@),
        pkcs8 matches Some(keys) ==> keys@.len() == 0 ==> (match rsa {
            None => r == Err::<Vec<u8>, CredentialError>(CredentialError::MalformedPkcs1),
            Some(others) => if others@.len() > 0 {
                r matches Ok(key) && key@ == others@[0]@
            } else {
                r == Err::<Vec<u8>, CredentialError>(CredentialError::NoPrivateKeys)
            },
        }),
{
}

/// The certificates that were found are the chain, all of them and in order.
pub proof fn call_of_pem_chain(found: Option<Vec<Vec<u8>>>, r: Result<Vec<Vec<u8>>, CredentialError>)
    requires
        call_ensures(pem_chain, (found,), r),
    ensures
        found is None ==> r == Err::<Vec<Vec<u8>>, CredentialError>(CredentialError::InvalidCertificate),
        found matches Some(list) ==> (r matches Ok(chain) && chain@.len() == list@.len() && forall|i: int|
            0 <= i < list@.len() ==> (#[trigger] chain@[i])@ == list@[i]@),
{
    if found is Some && r is Ok {
        let (list, chain) = (found->0, r->Ok_0);
        assert(byte_strings(list@) == byte_strings(chain@));
        assert(byte_strings(list@).len() == list@.len());
        assert(forall|i: int| 0 <= i < chain@.len() ==> (#[trigger] chain@[i])@ == byte_strings(chain@)[i]);
        assert(forall|i: int| 0 <= i < list@.len() ==> byte_strings(list@)[i] == (#[trigger] list@[i])@);
    }
}

/// The user's files are used where both are named, and the local store otherwise.
pub proof fn call_of_credential_source<P>(key: Option<P>, certificate: Option<P>, r: CredentialSource<P>)
    requires
        call_ensures(credential_source::<P>, (key, certificate), r),
    ensures
        r is Local <==> key is None || certificate is None,
        r matches CredentialSource::Files { key: k, certificate: c } ==> key == Some(k) && certificate == Some(c),
{
}

/// The user's certificate is trusted where one is named.
pub proof fn call_of_trust_source<P>(trusted_ca: Option<P>, r: TrustSource<P>)
    requires
        call_ensures(trust_source::<P>, (trusted_ca,), r),
    ensures
        trusted_ca matches Some(path) ==> r == TrustSource::File(path),
        trusted_ca is None ==> r is Local,
{
}

/// The named files are read in order, and what goes wrong is reported with its
/// reason.
pub proof fn call_of_named_files(
    fresh: NamedFiles,
    files: NamedFiles,
    extension: Option<String>,
    read: FileRead,
    r: NamedFiles,
)
    requires
        call_ensures(NamedFiles::open, (), fresh),
        call_ensures(NamedFiles::file_read, (files, extension, read), r),
    ensures
        fresh is ReadKey,
        files is ReadKey && read is NotFound ==> (r matches NamedFiles::Failed {
            error: NamedFilesError::ReadKey(FileProblem::NotFound),
        }),
        files is ReadChain && read is NotFound ==> (r matches NamedFiles::Failed {
            error: NamedFilesError::ReadChain(FileProblem::NotFound),
        }),
        files is ReadKey ==> (read matches FileRead::Failed(reason) ==> (r matches NamedFiles::Failed {
            error: NamedFilesError::ReadKey(FileProblem::Failed(why)),
        } && why@ == reason@)),
        files is ReadChain ==> (read matches FileRead::Failed(reason) ==> (r matches NamedFiles::Failed {
            error: NamedFilesError::ReadChain(FileProblem::Failed(why)),
        } && why@ == reason@)),
        files is ReadKey ==> (read matches FileRead::Contents(contents) ==> (extension matches Some(e) ==> e@ == "der"@
            ==> (r matches NamedFiles::ReadChain { key } && key@ == contents@))),
        files matches NamedFiles::ReadChain { key } ==> (read matches FileRead::Contents(contents) ==> (
        extension matches Some(e) ==> e@ == "der"@ ==> (r matches NamedFiles::Ready { credentials }
            && credentials.key@ == key@ && credentials.chain@.len() == 1 && credentials.chain@[0]@ == contents@))),
        files matches NamedFiles::ReadChain { key } ==> (r matches NamedFiles::Ready { credentials }
            ==> credentials.key@ == key@),
        files is Ready || files is Failed ==> r@ == files@,
{
    if r is Ready {
        let chain = r->Ready_credentials.chain;
        assert(byte_strings(chain@).len() == chain@.len());
        if chain@.len() > 0 {
            assert(byte_strings(chain@)[0] == chain@[0]@);
        }
    }
}

/// The store reads the certificate, then the key. It makes new ones exactly where
/// one of them is missing.
pub proof fn call_of_store_reads(fresh: LocalStore, store: LocalStore, read: FileRead, r: LocalStore)
    requires
        call_ensures(LocalStore::open, (), fresh),
        call_ensures(LocalStore::file_read, (store, read), r),
    ensures
        fresh is ReadCertificate,
        store is ReadCertificate || store is ReadKey ==> (r is Generate <==> read is NotFound),
        store is ReadCertificate ==> (read matches FileRead::Contents(bytes) ==> (r matches LocalStore::ReadKey {
            certificate,
        } && certificate@ == bytes@)),
        store matches LocalStore::ReadKey { certificate: c } ==> (read matches FileRead::Contents(bytes) ==> (
        r matches LocalStore::Ready { certificate, key } && certificate@ == c@ && key@ == bytes@)),
        store is ReadCertificate || store is ReadKey ==> (read matches FileRead::Failed(reason) ==> (
        r matches LocalStore::Failed { error: StoreError::Read(why) } && why@ == reason@)),
        !(store is ReadCertificate || store is ReadKey) ==> r@ == store@,
{
}

/// What was made is written as it was made, in three steps, and then served. A step
/// that fails ends in its own error.
pub proof fn call_of_store_writes(
    store: LocalStore,
    made: Option<(Vec<u8>, Vec<u8>)>,
    prepared: LocalStore,
    ok: bool,
    written: LocalStore,
)
    requires
        call_ensures(LocalStore::generated, (store, made), prepared),
        call_ensures(LocalStore::written, (store, ok), written),
    ensures
        store is Generate ==> (made matches Some(pair) ==> (prepared matches LocalStore::CreateDirectory {
            certificate,
            key,
        } && certificate@ == pair.0@ && key@ == pair.1@)),
        store is Generate && made is None ==> (prepared matches LocalStore::Failed { error: StoreError::Generate }),
        !(store is Generate) ==> prepared@ == store@,
        (store matches LocalStore::CreateDirectory { certificate: c, key: k } && ok) ==> (
        written matches LocalStore::WriteCertificate { certificate, key } && certificate@
            == store->CreateDirectory_certificate@ && key@ == store->CreateDirectory_key@),
        (store matches LocalStore::WriteCertificate { certificate: c, key: k } && ok) ==> (
        written matches LocalStore::WriteKey { certificate, key } && certificate@
            == store->WriteCertificate_certificate@ && key@ == store->WriteCertificate_key@),
        (store matches LocalStore::WriteKey { certificate: c, key: k } && ok) ==> (written matches LocalStore::Ready {
            certificate,
            key,
        } && certificate@ == store->WriteKey_certificate@ && key@ == store->WriteKey_key@),
        store is CreateDirectory && !ok ==> (written matches LocalStore::Failed { error: StoreError::CreateDirectory }),
        store is WriteCertificate && !ok ==> (written matches LocalStore::Failed {
            error: StoreError::WriteCertificate,
        }),
        store is WriteKey && !ok ==> (written matches LocalStore::Failed { error: StoreError::WriteKey }),
{
}

/// A certificate is made for `localhost`, and its key goes with it. Where none is
/// to be made, nothing happens.
pub proof fn call_of_store_generate(store: LocalStore, r: LocalStore)
    requires
        call_ensures(LocalStore::generate, (store,), r),
    ensures
        !(store is Generate) ==> r@ == store@,
        store is Generate ==> (r matches LocalStore::Failed { error: StoreError::Generate }) || (
        r matches LocalStore::CreateDirectory { certificate, key } && is_self_signed(
            seq!["localhost"@],
            certificate@,
            key@,
        )),
{
    if store is Generate {
        let made = choose|made: Option<(Seq<u8>, Seq<u8>)>|
            {
                &&& r@ == #[trigger] store@.after_generated(made)
                &&& store@ is Generate ==> (made matches Some(pair) ==> is_self_signed(
                    seq!["localhost"@],
                    pair.0,
                    pair.1,
                ))
            };
        assert(r@ == store@.after_generated(made));
    }
}

/// The credentials of a store that is ready are its certificate and its key.
pub proof fn call_of_store_credentials(store: LocalStore, r: Option<Credentials>)
    requires
        call_ensures(LocalStore::credentials, (store,), r),
    ensures
        r is Some <==> store is Ready,
        r matches Some(c) ==> c.chain@.len() == 1 && c.chain@[0]@ == store->Ready_certificate@ && c.key@
            == store->Ready_key@,
{
    if r is Some {
        let chain = r->0.chain;
        assert(byte_strings(chain@).len() == chain@.len());
        assert(byte_strings(chain@)[0] == chain@[0]@);
    }
}

/// A server shows the chain and signs with the key that it is given.
pub proof fn call_of_server_tls(credentials: Credentials, r: Result<rustls::ServerConfig, InvalidKey>)
    requires
        call_ensures(server_tls, (credentials,), r),
    ensures
        is_rsa_or_ed25519_key(credentials.key@) ==> r is Ok,
        r matches Ok(config) ==> !asks_for_certificate(config) && server_protocols(config).len() == 1
            && server_protocols(config)[0] == encode_utf8("hq-29"@),
        r matches Ok(config) ==> signs_with(config, credentials.key@) && shown_chain(config).len()
            == credentials.chain@.len() && forall|i: int|
            0 <= i < credentials.chain@.len() ==> #[trigger] shown_chain(config)[i] == credentials.chain@[i]@,
{
}

/// A client trusts the certificate that was read, and nothing else. A certificate
/// that the user has named has to be there.
pub proof fn call_of_client_tls(named: bool, read: FileRead, r: Result<rustls::ClientConfig, TrustError>)
    requires
        call_ensures(client_tls, (named, read), r),
    ensures
        read matches FileRead::Contents(der) ==> (trust_anchor(der@) matches Some(anchor) ==> (r matches Ok(config)
            && client_anchors(config).len() == 1 && client_anchors(config)[0] == anchor)),
        read matches FileRead::Contents(der) ==> (trust_anchor(der@) is None ==> (r matches Err(e)
            && e is BadCertificate)),
        !named && !(read is Contents) ==> (r matches Ok(config) && client_anchors(config).len() == 0),
        r matches Ok(config) ==> client_protocols(config).len() == 1 && client_protocols(config)[0] == encode_utf8(
            "hq-29"@,
        ),
        named && read is NotFound ==> (r matches Err(TrustError::CannotRead(FileProblem::NotFound))),
        named ==> (read matches FileRead::Failed(reason) ==> (r matches Err(
            TrustError::CannotRead(FileProblem::Failed(why)),
        ) && why@ == reason@)),
{
}

/// A configuration is passed on, and that there is none is the key's fault.
pub proof fn call_of_accepted_config(
    made: Result<rustls::ServerConfig, rustls::Error>,
    r: Result<rustls::ServerConfig, InvalidKey>,
)
    requires
        call_ensures(accepted_config, (made,), r),
    ensures
        made matches Ok(config) ==> r == Ok::<rustls::ServerConfig, InvalidKey>(config),
        made is Err ==> r is Err,
{
}

/// The store of a client holds the certificate that was read, and nothing else.
pub proof fn call_of_trusted_roots(named: bool, read: FileRead, r: Result<rustls::RootCertStore, TrustError>)
    requires
        call_ensures(trusted_roots, (named, read), r),
    ensures
        read matches FileRead::Contents(der) ==> (trust_anchor(der@) matches Some(anchor) ==> (r matches Ok(store)
            && trust_anchors(store).len() == 1 && trust_anchors(store)[0] == anchor)),
        read matches FileRead::Contents(der) ==> (trust_anchor(der@) is None ==> (r matches Err(e)
            && e is BadCertificate)),
        !named && !(read is Contents) ==> (r matches Ok(store) && trust_anchors(store).len() == 0),
        named && !(read is Contents) ==> (r matches Err(e) && e is CannotRead),
{
}

/// What the user asks of the endpoints is what they are set up with.
pub proof fn call_of_setups(key_log: bool, other: bool, server: ServerSetup, client: ClientSetup)
    requires
        call_ensures(server_setup, (key_log, other), server),
        call_ensures(client_setup, (key_log, other), client),
    ensures
        server.key_log == key_log && server.stateless_retry == other && server.one_way_streams == 0,
        client.key_log == key_log && client.rebind == other && client.idle_timeout is None && client.mtu_discovery,
{
}

/// The endpoints speak by the TLS configurations that they are given, under the
/// limits that were set up.
pub proof fn call_of_configs(
    server_tls: rustls::ServerConfig,
    server: ServerSetup,
    listening: quinn::ServerConfig,
    client_tls: rustls::ClientConfig,
    client: ClientSetup,
    dialling: quinn::ClientConfig,
)
    requires
        call_ensures(server_config, (server_tls, &server), listening),
        call_ensures(client_config, (client_tls, &client), dialling),
    ensures
        server_speaks(listening, server_tls),
        retries(listening) == server.stateless_retry,
        server_limits(listening).one_way == server.one_way_streams,
        server_limits(listening).idle == Some(10_000u64) && server_limits(listening).probes,
        client_speaks(dialling, client_tls),
        client_limits(dialling).idle is None <==> client.idle_timeout is None,
        client.idle_timeout matches Some(n) ==> (client_limits(dialling).idle matches Some(limit) && limit == n),
        client_limits(dialling).probes == client.mtu_discovery && client_limits(dialling).one_way == 100,
{
}

/// The port of the target is the one that the URL shows, and 4433 exactly where it
/// shows none; the host is that of the URL.
pub proof fn call_of_check_url(parts: Option<UrlParts>, r: Result<Target, ResolveError>)
    requires
        call_ensures(check_url, (parts,), r),
    ensures
        parts is None <==> r == Err::<Target, ResolveError>(ResolveError::CannotParse),
        parts matches Some(p) ==> (p.scheme@ != "https"@ <==> r == Err::<Target, ResolveError>(
            ResolveError::WrongScheme,
        )),
        parts matches Some(p) ==> (p.scheme@ == "https"@ && p.host is None <==> r == Err::<Target, ResolveError>(
            ResolveError::NoHost,
        )),
        r matches Ok(t) ==> (parts matches Some(p) && (p.host matches Some(host) && host@ == t.host@) && (
        p.port matches Some(port) ==> t.port == port) && (p.port is None ==> t.port == 4433)),
        r != Err::<Target, ResolveError>(ResolveError::NoAddress),
{
}

/// The same holds of a text, by the URL that it denotes.
pub proof fn call_of_resolve_url(url: String, r: Result<Target, ResolveError>)
    requires
        call_ensures(resolve_url, (url,), r),
    ensures
        r is Ok <==> (url_of(url@) matches Some(parts) && parts.scheme == "https"@ && parts.host is Some),
        r matches Ok(t) ==> url_of(url@)->0.host == Some(t.host@) && (url_of(url@)->0.port matches Some(port) ==> t.port
            == port) && (url_of(url@)->0.port is None ==> t.port == 4433),
{
}

/// What is looked up is the host, a colon and the port.
pub proof fn call_of_authority_text(host: &str, port: u16, r: String)
    requires
        call_ensures(authority_text, (host, port), r),
    ensures
        r@.len() > host@.len() + 1,
        r@.take(host@.len() as int) == host@,
        r@[host@.len() as int] == ':',
        number(r@.skip(host@.len() as int + 1)) == port,
{
    authority_is_host_colon_port(host@, port);
}

/// Of the addresses the first is used, however many there are. That there is none
/// is an error.
pub proof fn call_of_addresses<A>(
    addresses: Vec<A>,
    host: String,
    first: Option<A>,
    target: Result<(String, A), ResolveError>,
    address: Result<A, ConnectError>,
)
    requires
        call_ensures(first_address::<A>, (addresses,), first),
        call_ensures(remote::<A>, (host, addresses), target),
        call_ensures(dialled::<A>, (addresses,), address),
    ensures
        addresses@.len() > 0 ==> first == Some(addresses@[0]),
        addresses@.len() > 0 ==> target == Ok::<(String, A), ResolveError>((host, addresses@[0])),
        addresses@.len() > 0 ==> address == Ok::<A, ConnectError>(addresses@[0]),
        addresses@.len() == 0 ==> first is None && target == Err::<(String, A), ResolveError>(ResolveError::NoAddress)
            && address == Err::<A, ConnectError>(ConnectError::NoAddress),
{
}

/// A connection is passed on, and so is the reason why there is none.
pub proof fn call_of_connected<C>(outcome: Result<C, String>, r: Result<C, ConnectError>)
    requires
        call_ensures(connected::<C>, (outcome,), r),
    ensures
        outcome matches Ok(connection) ==> r == Ok::<C, ConnectError>(connection),
        outcome matches Err(reason) ==> (r matches Err(ConnectError::Failed(why)) && why@ == reason@),
{
}

/// A name that the user gives is preferred to the host of the URL.
pub proof fn call_of_server_name(given: Option<String>, host: String, r: String)
    requires
        call_ensures(server_name, (given, host), r),
    ensures
        given matches Some(name) ==> r@ == name@,
        given is None ==> r@ == host@,
{
}

/// The mode decides who the local user is and what is run.
pub proof fn call_of_mode(mode: &str, user: User, running: Role)
    requires
        call_ensures(identity, (mode,), user),
        call_ensures(role, (mode,), running),
    ensures
        running == Role::Server <==> mode@ == "server"@,
        running == Role::Client <==> mode@ == "client"@,
        mode@ == "client"@ ==> user.username@ == "client"@ && user.user_id@ == "a7d399659b333e931046e4959e635e32"@,
        mode@ != "client"@ ==> user.username@ == "server"@ && user.user_id@ == "e8b32bc4d7b564ac6075a1418ad8841e"@,
        user.email@ == "localhost@localhost"@,
{
    mode_decides_role_and_user(mode@);
}

/// The console waits for a session. The first interrupt asks the program to close,
/// every later one ends it; the program ends by itself only when it has been asked
/// to, and closes its sessions where it has any.
pub proof fn call_of_program(
    sessions: usize,
    starts: bool,
    before: usize,
    interrupted: (usize, Interrupt),
    should_close: bool,
    next: Shutdown,
)
    requires
        call_ensures(console_starts, (sessions,), starts),
        call_ensures(interrupt, (before,), interrupted),
        call_ensures(shutdown, (should_close, sessions), next),
    ensures
        starts <==> sessions > 0,
        interrupted.0 == before + 1,
        interrupted.1 == Interrupt::Close <==> before == 0,
        next == Shutdown::Run <==> !should_close,
        next == Shutdown::Exit <==> should_close && sessions == 0,
        next == Shutdown::CloseSessions <==> should_close && sessions > 0,
{
}

/// The tasks of a session go on until they see it closed.
pub proof fn call_of_tasks(
    listener: Listener,
    state: SessionState,
    polled: (Listener, ListenerAction),
    ok: bool,
    listening: Listener,
    service: Service,
    serving: Service,
)
    requires
        call_ensures(Listener::poll, (listener, state), polled),
        call_ensures(Listener::accepted, (ok,), listening),
        call_ensures(Service::poll, (service, state), serving),
    ensures
        polled.1 == ListenerAction::Accept <==> listener == Listener::Accepting && state != SessionState::Closed,
        polled.1 == ListenerAction::Exit <==> listener == Listener::Done || (listener == Listener::Accepting && state
            == SessionState::Closed),
        polled.0 == Listener::Waiting <==> listener == Listener::Waiting && state != SessionState::Established && state
            != SessionState::Closed,
        polled.0 == Listener::Done <==> polled.1 == ListenerAction::Exit,
        listening == (if ok { Listener::Accepting } else { Listener::Done }),
        serving == Service::Running <==> service == Service::Running && state != SessionState::Closed,
{
}

/// Sessions are added at the end, and a failed handshake adds none.
pub proof fn call_of_additions<S, E>(
    fresh: QuicTalkState<S>,
    list: &mut QuicTalkState<S>,
    session: S,
    count: usize,
    other: &mut QuicTalkState<S>,
    outcome: Result<S, E>,
    r: Result<usize, E>,
)
    requires
        call_ensures(QuicTalkState::<S>::new, (), fresh),
        call_ensures(QuicTalkState::<S>::push, (list, session), count),
        call_ensures(QuicTalkState::<S>::handshaken::<E>, (other, outcome), r),
    ensures
        fresh@.len() == 0,
        final(list)@ == old(list)@.push(session),
        count == old(list)@.len() + 1,
        outcome matches Ok(s) ==> final(other)@ == old(other)@.push(s) && (r matches Ok(n) && n == old(other)@.len()
            + 1),
        outcome matches Err(e) ==> final(other)@ == old(other)@ && r == Err::<usize, E>(e),
{
}

/// The sessions are found by their place, and a collection removes exactly those
/// that have ended.
pub proof fn call_of_lookups<S>(
    list: QuicTalkState<S>,
    index: usize,
    found: Option<&S>,
    count: usize,
    collected: &mut QuicTalkState<S>,
    states: Vec<SessionState>,
    r: (),
)
    requires
        call_ensures(QuicTalkState::<S>::get, (&list, index), found),
        call_ensures(QuicTalkState::<S>::len, (&list,), count),
        states@.len() == old(collected)@.len(),
        call_ensures(QuicTalkState::<S>::collect, (collected, &states), r),
    ensures
        found is Some <==> index < list@.len(),
        found matches Some(session) ==> *session == list@[index as int],
        count == list@.len(),
        forall|i: int|
            0 <= i < states@.len() && states@[i] != SessionState::Terminated ==> final(collected)@.contains(
                #[trigger] old(collected)@[i],
            ),
        (forall|i: int| 0 <= i < states@.len() ==> states@[i] != SessionState::Terminated) ==> final(collected)@ == old(collected)@,
        (forall|i: int| 0 <= i < states@.len() ==> states@[i] == SessionState::Terminated) ==> final(collected)@.len() == 0,
{
    collection_keeps_what_has_not_ended(old(collected)@, states@);
    if forall|i: int| 0 <= i < states@.len() ==> states@[i] != SessionState::Terminated {
        collection_spares_running_sessions(old(collected)@, states@);
    }
    if forall|i: int| 0 <= i < states@.len() ==> states@[i] == SessionState::Terminated {
        collection_empties_an_ended_program(old(collected)@, states@);
    }
}

/// A piece of an answer is added whole, behind what was read before, until the
/// stream ends or gives nothing.
pub proof fn call_of_take_piece(so_far: &mut Vec<u8>, buffer: &[u8], read: Option<usize>, complete: bool)
    requires
        read matches Some(n) ==> n <= buffer@.len(),
        call_ensures(take_piece, (so_far, buffer, read), complete),
    ensures
        complete <==> read is None || read == Some(0usize),
        complete ==> final(so_far)@ == old(so_far)@,
        read matches Some(n) ==> final(so_far)@ == old(so_far)@ + buffer@.take(n as int),
{
    if read matches Some(n) && n == 0 {
        assert(old(so_far)@ + buffer@.take(0) =~= old(so_far)@);
    }
}

/// Texts are compared character by character, and numbers are written in decimal.
pub proof fn call_of_texts(a: &str, b: &str, same: bool, n: u64, text: String, data: Vec<u8>, list: String)
    requires
        call_ensures(same_text, (a, b), same),
        call_ensures(decimal_text, (n,), text),
        call_ensures(byte_list_text, (&data,), list),
    ensures
        same <==> a@ == b@,
        number(text@) == n,
        forall|i: int| 0 <= i < text@.len() ==> '0' <= #[trigger] text@[i] <= '9',
        list@ == "["@ + byte_items(data@) + "]"@,
{
    decimal_can_be_read_back(n as nat);
    digits_only(n as nat);
}

/// A user holds the three texts that it is made of, and a control message its user,
/// its time and its code.
pub proof fn call_of_constructors(
    username: String,
    email: String,
    user_id: String,
    user: User,
    writer: User,
    time: Timestamp,
    code: Control,
    message: Message,
)
    requires
        call_ensures(User::new, (username, email, user_id), user),
        call_ensures(Message::control, (writer, time, code), message),
    ensures
        user.username@ == username@ && user.email@ == email@ && user.user_id@ == user_id@,
        message.user@ == writer@ && message.time == time && message.data == Body::Control(code),
{
}

} // verus!
