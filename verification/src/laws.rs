//! What holds of two sessions that talk to each other, and of one session over
//! several steps.
use vstd::prelude::*;

use crate::lifecycle::{listener_after, listener_next, next_phase, service_after, state_set, Listener, ListenerAction, Phase, Service};
use crate::message::{BodyView, Control, MessageView, Timestamp};
use crate::session::{auth_verdict, delivery_of, is_close, Delivery, DispatchView, ExchangeView, ResponseView, SessionError, SessionState, SessionView};
use crate::state::survivors;
use crate::user::UserView;

verus! {

/// Two peers that both have a user recognise each other: the introduction that
/// one sends is answered by the other, the answer is accepted, and the one who
/// answered knows the first by name.
pub proof fn introduction_is_verified(a: SessionView, b: SessionView, sent: Timestamp, answered: Timestamp)
    requires
        a.me is Some,
        b.me is Some,
    ensures
        a.auth_request(sent) matches Ok(request) && b.auth_answer(request, answered) matches Ok(reply)
            && auth_verdict(reply) == Ok::<(), SessionError>(())
            && b.introduced(request).peername() == Ok::<Seq<char>, SessionError>(a.me->0.username),
{
}

/// Without a local user a session neither introduces itself nor answers an
/// introduction.
pub proof fn no_user_no_authentication(s: SessionView, request: MessageView, time: Timestamp)
    requires
        s.me is None,
    ensures
        s.auth_request(time) == Err::<MessageView, SessionError>(SessionError::UserEmpty),
        s.auth_answer(request, time) == Err::<MessageView, SessionError>(SessionError::UserEmpty),
{
}

/// Every message, a close among them, is acknowledged by a receiver that has a
/// user; the acknowledgement settles the message with its sender, whose session it
/// leaves as it was. A message that is not a close leaves the receiver's session
/// as it was too.
pub proof fn messages_are_acknowledged(
    sender: SessionView,
    receiver: SessionView,
    message: MessageView,
    time: Timestamp,
)
    requires
        receiver.me is Some,
    ensures
        ({
            let (after, response) = receiver.accepted(message, time);
            &&& !is_close(message) ==> after == receiver
            &&& response matches ResponseView::Reply(ack) && delivery_of(ack) == Delivery::Acknowledged
                && sender.settled(message, ack) == sender
        }),
{
}

/// The close of one end closes the other, and the dispatcher, the listener and
/// the other tasks of that end come to rest.
pub proof fn close_closes_the_peer(
    closing: SessionView,
    other: SessionView,
    sent: Timestamp,
    received: Timestamp,
    seen: Seq<SessionState>,
)
    requires
        closing.me is Some,
    ensures
        closing.own_control(sent, Control::CloseByPeer) matches Ok(message) && ({
            let after = other.accepted(message, received).0;
            &&& after == other.with_state(SessionState::Closed)
            &&& after.dispatched() == (after, DispatchView::Exit)
            &&& listener_next(Listener::Accepting, after.state) == (Listener::Done, ListenerAction::Exit)
            &&& service_after(seen.push(after.state)) == Service::Ended
        }),
{
    assert(seen.push(SessionState::Closed).last() == SessionState::Closed);
}

/// A message that is queued in an established session is the next to be sent, and
/// sending it leaves the queue as it was before.
pub proof fn queued_message_is_sent_next(s: SessionView, message: MessageView)
    requires
        s.serving,
        s.state != SessionState::Closed,
    ensures
        s.queued(message).dispatched() == (s, DispatchView::Send(message)),
{
    assert(s.queue.push(message).drop_last() =~= s.queue);
}

/// A message that the peer asks for again is the next to be sent.
pub proof fn requested_message_is_sent_again(s: SessionView, message: MessageView, reply: MessageView)
    requires
        s.serving,
        s.state != SessionState::Closed,
        reply.data == BodyView::Control(Control::RetransmissionRequest),
    ensures
        s.settled(message, reply) == s.queued(message),
        s.settled(message, reply).dispatched() == (s, DispatchView::Send(message)),
{
    queued_message_is_sent_next(s, message);
}

/// A message that failed to be sent, at whatever point, is the next to be sent.
pub proof fn unsent_message_is_sent_again(s: SessionView, message: MessageView, outcome: ExchangeView)
    requires
        s.serving,
        s.state != SessionState::Closed,
        !(outcome is Answered),
    ensures
        s.exchanged(message, outcome) == s.queued(message),
        s.exchanged(message, outcome).dispatched() == (s, DispatchView::Send(message)),
{
    queued_message_is_sent_next(s, message);
}

/// An answer brings a message back into the queue exactly where the peer asks for
/// the message again.
pub proof fn only_a_request_brings_a_message_back(s: SessionView, message: MessageView, reply: MessageView)
    ensures
        s.settled(message, reply) != s <==> reply.data == BodyView::Control(
            Control::RetransmissionRequest,
        ),
{
    if reply.data == BodyView::Control(Control::RetransmissionRequest) {
        assert(s.settled(message, reply).queue.len() == s.queue.len() + 1);
    }
}

/// No message is lost: one that the dispatcher takes out of the queue is back in
/// it after the exchange, at its place, unless the peer has answered with anything
/// but a request for the message.
pub proof fn messages_are_not_lost(s: SessionView, message: MessageView, outcome: ExchangeView)
    requires
        s.dispatched().1 == DispatchView::Send(message),
    ensures
        s.dispatched().0.exchanged(message, outcome) == s || (outcome matches ExchangeView::Answered(reply)
            && delivery_of(reply) != Delivery::Requeued),
{
    assert(s.queue.drop_last().push(s.queue.last()) =~= s.queue);
}

/// The session after a number of rounds of the dispatcher, and the messages that
/// those rounds sent, in the order in which they were sent.
pub open spec fn rounds(s: SessionView, n: nat) -> (SessionView, Seq<MessageView>)
    decreases n,
{
    if n == 0 {
        (s, Seq::empty())
    } else {
        let (before, sent) = rounds(s, (n - 1) as nat);
        match before.dispatched() {
            (after, DispatchView::Send(message)) => (after, sent.push(message)),
            (after, _) => (after, sent),
        }
    }
}

/// The dispatcher of an established session sends every queued message once, the
/// one queued last first.
pub proof fn dispatcher_empties_the_queue(s: SessionView)
    requires
        s.serving,
        s.state != SessionState::Closed,
    ensures
        rounds(s, s.queue.len()).0 == (SessionView { queue: Seq::empty(), ..s }),
        rounds(s, s.queue.len()).1 == s.queue.reverse(),
{
    rounds_send_from_the_end(s, s.queue.len());
    assert(s.queue.take(0) =~= Seq::empty());
    assert(rounds(s, s.queue.len()).1 =~= s.queue.reverse());
}

proof fn rounds_send_from_the_end(s: SessionView, n: nat)
    requires
        s.serving,
        s.state != SessionState::Closed,
        n <= s.queue.len(),
    ensures
        rounds(s, n).0 == (SessionView { queue: s.queue.take(s.queue.len() - n), ..s }),
        rounds(s, n).1 == Seq::new(n, |i: int| s.queue[s.queue.len() - 1 - i]),
    decreases n,
{
    if n == 0 {
        assert(s.queue.take(s.queue.len() as int) =~= s.queue);
        assert(rounds(s, n).1 =~= Seq::new(n, |i: int| s.queue[s.queue.len() - 1 - i]));
    } else {
        rounds_send_from_the_end(s, (n - 1) as nat);
        let (before, sent) = rounds(s, (n - 1) as nat);
        assert(before.queue.drop_last() =~= s.queue.take(s.queue.len() - n));
        assert(before.queue.last() == s.queue[s.queue.len() - n]);
        assert(rounds(s, n).1 =~= Seq::new(n, |i: int| s.queue[s.queue.len() - 1 - i]));
    }
}

/// Whether two views of a session agree on who takes part in it.
pub open spec fn same_participants(s: SessionView, t: SessionView) -> bool {
    s.me == t.me && s.peer == t.peer
}

/// Whatever happens in a session, its local user stays the same, and the peer
/// changes only by an introduction.
pub proof fn participants_are_fixed(run: Run, step: Step)
    ensures
        run.after(step).session.me == run.session.me,
        !(step is Introduced) ==> same_participants(run.session, run.after(step).session),
{
}

/// A session that the peer has closed is collected once both of the tasks that
/// look after its messages have ended.
pub proof fn closed_session_is_collected<S>(session: S, s: SessionView, message: MessageView, time: Timestamp)
    requires
        is_close(message),
    ensures
        ({
            let closed = s.accepted(message, time).0;
            let ended = closed.advanced(Phase::Sending, true).advanced(Phase::Receiving, true);
            &&& survivors(seq![session], seq![closed.state]) == seq![session]
            &&& survivors(seq![session], seq![ended.state]) == Seq::<S>::empty()
        }),
{
    reveal_with_fuel(survivors, 2);
    let closed = s.accepted(message, time).0;
    assert(survivors(seq![session], seq![closed.state]) =~= seq![session]);
}

/// The listener takes in no stream before it has seen the session established or
/// closed, and none once it sees it closed.
pub proof fn listener_accepts_only_in_a_session(listener: Listener, state: SessionState)
    ensures
        listener_next(listener, state).1 == ListenerAction::Accept ==> listener == Listener::Accepting && state
            != SessionState::Closed,
        listener == Listener::Waiting && listener_next(listener, state).0 == Listener::Accepting ==> state
            == SessionState::Established || state == SessionState::Closed,
{
}

/// A task that looks after messages ends exactly when it sees the session closed.
pub proof fn services_end_at_the_close(seen: Seq<SessionState>)
    ensures
        service_after(seen) == Service::Ended <==> seen.contains(SessionState::Closed),
    decreases seen.len(),
{
    if seen.len() > 0 {
        let earlier = seen.drop_last();
        services_end_at_the_close(earlier);
        if earlier.contains(SessionState::Closed) {
            let i = choose|i: int| 0 <= i < earlier.len() && earlier[i] == SessionState::Closed;
            assert(seen[i] == SessionState::Closed);
        }
        if seen.contains(SessionState::Closed) {
            let i = choose|i: int| 0 <= i < seen.len() && seen[i] == SessionState::Closed;
            if i < earlier.len() {
                assert(earlier[i] == SessionState::Closed);
            } else {
                assert(seen.last() == SessionState::Closed);
            }
        } else if seen.last() == SessionState::Closed {
            assert(seen[seen.len() - 1] == SessionState::Closed);
        }
    }
}

/// Something that happens in a session.
pub enum Step {
    /// The main task is told how the step that it was waiting for went.
    Main(bool),
    /// The peer has introduced itself.
    Introduced(MessageView),
    /// A message comes in.
    Received(MessageView, Timestamp),
    /// The listener looks at the state of the session.
    Polled,
    /// The listener has waited for a stream, and is told whether there is one.
    Listened(bool),
    /// The user writes a message.
    Queued(MessageView),
    /// The dispatcher makes a round.
    Dispatched,
    /// An attempt to send a message has ended.
    Exchanged(MessageView, ExchangeView),
    /// The local user ends the session.
    Closed,
}

/// A session, its main task and its listener.
pub struct Run {
    pub session: SessionView,
    pub phase: Phase,
    pub listener: Listener,
}

impl Run {
    /// A session on a fresh connection.
    pub open spec fn opened(me: Option<UserView>) -> Run {
        Run { session: SessionView::opened(me), phase: Phase::Opened, listener: Listener::Waiting }
    }

    /// The session and its tasks after a step.
    pub open spec fn after(self, step: Step) -> Run {
        let s = self.session;
        match step {
            Step::Main(ok) => Run {
                session: s.advanced(self.phase, ok),
                phase: next_phase(self.phase, s.went_well(self.phase, ok)),
                ..self
            },
            Step::Introduced(request) => Run { session: s.introduced(request), ..self },
            Step::Received(message, time) => Run { session: s.accepted(message, time).0, ..self },
            Step::Polled => Run { listener: listener_next(self.listener, s.state).0, ..self },
            Step::Listened(ok) => Run { listener: listener_after(ok), ..self },
            Step::Queued(message) => Run { session: s.queued(message), ..self },
            Step::Dispatched => Run { session: s.dispatched().0, ..self },
            Step::Exchanged(message, outcome) => Run { session: s.exchanged(message, outcome), ..self },
            Step::Closed => Run { session: s.with_state(SessionState::Terminated), ..self },
        }
    }
}

/// A session and its tasks after the `steps`, in whatever order they come.
pub open spec fn run(me: Option<UserView>, steps: Seq<Step>) -> Run
    decreases steps.len(),
{
    if steps.len() == 0 {
        Run::opened(me)
    } else {
        run(me, steps.drop_last()).after(steps.last())
    }
}

/// How the steps of the main task went. The first one only starts the task, the
/// next two are the peer's verdict and the peer's introduction, the last two the
/// ends of the tasks that look after messages.
pub open spec fn outcomes(me: Option<UserView>, steps: Seq<Step>) -> Seq<bool>
    decreases steps.len(),
{
    if steps.len() == 0 {
        Seq::empty()
    } else {
        let before = run(me, steps.drop_last());
        match steps.last() {
            Step::Main(ok) => outcomes(me, steps.drop_last()).push(before.session.went_well(before.phase, ok)),
            _ => outcomes(me, steps.drop_last()),
        }
    }
}

/// The states that the main task has written, in order.
pub open spec fn written(me: Option<UserView>, steps: Seq<Step>) -> Seq<SessionState>
    decreases steps.len(),
{
    if steps.len() == 0 {
        Seq::empty()
    } else {
        let before = run(me, steps.drop_last());
        let earlier = written(me, steps.drop_last());
        match steps.last() {
            Step::Main(ok) => match state_set(before.phase, before.session.went_well(before.phase, ok)) {
                Some(state) => earlier.push(state),
                None => earlier,
            },
            _ => earlier,
        }
    }
}

/// The messages that the dispatcher has sent, in order.
pub open spec fn dispatches(me: Option<UserView>, steps: Seq<Step>) -> Seq<MessageView>
    decreases steps.len(),
{
    if steps.len() == 0 {
        Seq::empty()
    } else {
        let earlier = dispatches(me, steps.drop_last());
        match (steps.last(), run(me, steps.drop_last()).session.dispatched().1) {
            (Step::Dispatched, DispatchView::Send(message)) => earlier.push(message),
            _ => earlier,
        }
    }
}

/// Whether the first `n` awaited steps have been taken and have all gone well.
/// The step before them only starts the task, so how it went plays no part.
pub open spec fn passed(outcomes: Seq<bool>, n: int) -> bool {
    outcomes.len() > n && forall|i: int| 1 <= i <= n ==> #[trigger] outcomes[i]
}

/// Whether neither end closes the session in the `steps`.
pub open spec fn undisturbed(steps: Seq<Step>) -> bool {
    forall|i: int|
        0 <= i < steps.len() ==> match #[trigger] steps[i] {
            Step::Closed => false,
            Step::Received(message, _) => !is_close(message),
            _ => true,
        }
}

/// The phase of a main task whose steps went as the `outcomes` say.
pub open spec fn phase_of(outcomes: Seq<bool>) -> Phase {
    if passed(outcomes, 4) {
        Phase::Finished
    } else if outcomes.len() == 4 && passed(outcomes, 3) {
        Phase::Receiving
    } else if outcomes.len() == 3 && passed(outcomes, 2) {
        Phase::Sending
    } else if outcomes.len() == 2 && passed(outcomes, 1) {
        Phase::Verifying
    } else if outcomes.len() == 1 {
        Phase::Authenticating
    } else if outcomes.len() == 0 {
        Phase::Opened
    } else {
        Phase::Failed
    }
}

/// The states that a main task has written whose steps went as the `outcomes`
/// say.
pub open spec fn states_of(outcomes: Seq<bool>) -> Seq<SessionState> {
    if passed(outcomes, 4) {
        seq![SessionState::Authenticating, SessionState::Established, SessionState::Terminated]
    } else if passed(outcomes, 2) {
        seq![SessionState::Authenticating, SessionState::Established]
    } else if outcomes.len() > 0 {
        seq![SessionState::Authenticating]
    } else {
        Seq::empty()
    }
}

proof fn one_more_outcome(earlier: Seq<bool>, well: bool)
    ensures
        phase_of(earlier.push(well)) == next_phase(phase_of(earlier), well),
        states_of(earlier.push(well)) == (match state_set(phase_of(earlier), well) {
            Some(state) => states_of(earlier).push(state),
            None => states_of(earlier),
        }),
        passed(earlier.push(well), 2) == (passed(earlier, 2) || (phase_of(earlier) == Phase::Verifying && well)),
{
    let all = earlier.push(well);
    let n = all.len() as int;
    assert(forall|i: int| 0 <= i < n - 1 ==> #[trigger] all[i] == earlier[i]);
    assert(all[n - 1] == well);
    assert(passed(all, 1) == (n > 1 && all[1]));
    assert(passed(all, 2) == (n > 2 && all[1] && all[2]));
    assert(passed(all, 3) == (n > 3 && all[1] && all[2] && all[3]));
    assert(passed(all, 4) == (n > 4 && all[1] && all[2] && all[3] && all[4]));
    assert(passed(earlier, 1) == (n > 2 && earlier[1]));
    assert(passed(earlier, 2) == (n > 3 && earlier[1] && earlier[2]));
    assert(passed(earlier, 3) == (n > 4 && earlier[1] && earlier[2] && earlier[3]));
    assert(passed(earlier, 4) == (n > 5 && earlier[1] && earlier[2] && earlier[3] && earlier[4]));
    assert(states_of(all) =~= (match state_set(phase_of(earlier), well) {
        Some(state) => states_of(earlier).push(state),
        None => states_of(earlier),
    }));
}

proof fn run_in_closed_form(me: Option<UserView>, steps: Seq<Step>)
    ensures
        ({
            let r = run(me, steps);
            let o = outcomes(me, steps);
            &&& r.phase == phase_of(o)
            &&& written(me, steps) == states_of(o)
            &&& r.session.serving == passed(o, 2)
            &&& r.session.serving ==> r.session.peer is Some
            &&& r.session.state == SessionState::Established ==> r.session.serving
            &&& undisturbed(steps) ==> r.session.state == (if o.len() == 0 {
                SessionState::Ready
            } else {
                states_of(o).last()
            })
        }),
    decreases steps.len(),
{
    if steps.len() > 0 {
        let earlier = steps.drop_last();
        run_in_closed_form(me, earlier);
        if undisturbed(steps) {
            assert forall|i: int| 0 <= i < earlier.len() implies match #[trigger] earlier[i] {
                Step::Closed => false,
                Step::Received(message, _) => !is_close(message),
                _ => true,
            } by {
                assert(earlier[i] == steps[i]);
            }
            assert(steps[steps.len() - 1] == steps.last());
        }
        match steps.last() {
            Step::Main(ok) => {
                let before = run(me, earlier);
                let well = before.session.went_well(before.phase, ok);
                one_more_outcome(outcomes(me, earlier), well);
                assert(outcomes(me, steps) == outcomes(me, earlier).push(well));
            },
            _ => {},
        }
    } else {
        assert(written(me, steps) =~= states_of(outcomes(me, steps)));
    }
}

/// Whatever happens in a session, it has been established exactly when the peer
/// has accepted the local user and has introduced itself.
pub proof fn established_after_both_checks(me: Option<UserView>, steps: Seq<Step>)
    ensures
        run(me, steps).session.serving <==> passed(outcomes(me, steps), 2),
        run(me, steps).session.state == SessionState::Established ==> passed(outcomes(me, steps), 2),
        undisturbed(steps) ==> ({
            let state = run(me, steps).session.state;
            let o = outcomes(me, steps);
            &&& state == SessionState::Established <==> passed(o, 2) && !passed(o, 4)
            &&& state == SessionState::Terminated <==> passed(o, 4)
            &&& state == SessionState::Authenticating <==> o.len() > 0 && !passed(o, 2)
            &&& state == SessionState::Ready <==> o.len() == 0
        }),
{
    run_in_closed_form(me, steps);
    let o = outcomes(me, steps);
    if passed(o, 4) {
        assert(passed(o, 2)) by {
            assert(o[1] && o[2]);
        }
    }
}

/// What the main task has been told of its steps, in order.
pub open spec fn reports(steps: Seq<Step>) -> Seq<bool>
    decreases steps.len(),
{
    if steps.len() == 0 {
        Seq::empty()
    } else {
        match steps.last() {
            Step::Main(ok) => reports(steps.drop_last()).push(ok),
            _ => reports(steps.drop_last()),
        }
    }
}

/// Whether the peer has introduced itself in the `steps`.
pub open spec fn heard_from_peer(steps: Seq<Step>) -> bool {
    exists|i: int| 0 <= i < steps.len() && #[trigger] steps[i] is Introduced
}

/// Whether the verification, which is the third step of the main task, is reported
/// to have gone well only once the peer has introduced itself.
pub open spec fn verified_by_introduction(steps: Seq<Step>) -> bool {
    forall|i: int|
        0 <= i < steps.len() && (#[trigger] steps[i] matches Step::Main(ok) && ok) && reports(
            steps.take(i),
        ).len() == 2 ==> heard_from_peer(steps.take(i))
}

proof fn introduced_peer_is_known(me: Option<UserView>, steps: Seq<Step>)
    requires
        heard_from_peer(steps),
    ensures
        run(me, steps).session.peer is Some,
    decreases steps.len(),
{
    let earlier = steps.drop_last();
    if !(steps.last() is Introduced) {
        let i = choose|i: int| 0 <= i < steps.len() && #[trigger] steps[i] is Introduced;
        assert(earlier[i] is Introduced);
        introduced_peer_is_known(me, earlier);
    }
}

proof fn outcomes_are_as_reported(me: Option<UserView>, steps: Seq<Step>)
    requires
        verified_by_introduction(steps),
    ensures
        outcomes(me, steps) == reports(steps),
    decreases steps.len(),
{
    if steps.len() > 0 {
        let earlier = steps.drop_last();
        assert forall|i: int|
            0 <= i < earlier.len() && (#[trigger] earlier[i] matches Step::Main(ok) && ok) && reports(
                earlier.take(i),
            ).len() == 2 implies heard_from_peer(earlier.take(i)) by {
            assert(steps[i] == earlier[i]);
            assert(steps.take(i) =~= earlier.take(i));
        }
        outcomes_are_as_reported(me, earlier);
        run_in_closed_form(me, earlier);
        let last = steps.len() - 1;
        assert(steps.take(last) =~= earlier);
        assert(steps[last] == steps.last());
        if heard_from_peer(earlier) {
            introduced_peer_is_known(me, earlier);
        }
    }
}

/// Where the verification succeeds only by an introduction of the peer, a session
/// has been established exactly when both tasks, the one that introduces the local
/// user and the one that verifies the peer, have ended well.
pub proof fn established_after_both_tasks(me: Option<UserView>, steps: Seq<Step>)
    requires
        verified_by_introduction(steps),
    ensures
        run(me, steps).session.serving <==> passed(reports(steps), 2),
        run(me, steps).session.state == SessionState::Established ==> passed(reports(steps), 2),
        undisturbed(steps) && passed(reports(steps), 2) && !passed(reports(steps), 4) ==> run(me, steps).session.state
            == SessionState::Established,
{
    outcomes_are_as_reported(me, steps);
    established_after_both_checks(me, steps);
}

/// Whatever happens in a session, once it has been established its peer is known
/// by name.
pub proof fn established_session_knows_its_peer(me: Option<UserView>, steps: Seq<Step>)
    ensures
        run(me, steps).session.state == SessionState::Established ==> run(me, steps).session.serving,
        run(me, steps).session.serving ==> run(me, steps).session.peername() is Ok,
{
    run_in_closed_form(me, steps);
}

/// Whatever happens in a session, nothing of its queue is sent before it has been
/// established.
pub proof fn nothing_is_sent_before_establishment(me: Option<UserView>, steps: Seq<Step>)
    requires
        !run(me, steps).session.serving,
    ensures
        dispatches(me, steps) == Seq::<MessageView>::empty(),
    decreases steps.len(),
{
    if steps.len() > 0 {
        nothing_is_sent_before_establishment(me, steps.drop_last());
    }
}

/// The main task writes `Authenticating`, `Established` and `Terminated`, in that
/// order and each at most once.
pub proof fn states_are_written_in_order(me: Option<UserView>, steps: Seq<Step>)
    ensures
        written(me, steps).len() <= 3,
        written(me, steps) == seq![
            SessionState::Authenticating,
            SessionState::Established,
            SessionState::Terminated,
        ].take(written(me, steps).len() as int),
{
    run_in_closed_form(me, steps);
    assert(written(me, steps) =~= seq![
        SessionState::Authenticating,
        SessionState::Established,
        SessionState::Terminated,
    ].take(written(me, steps).len() as int));
}

/// The main task writes `Terminated` only after both tasks that look after
/// messages have seen the session closed: the steps that wait for the two go well
/// only where the tasks, which have seen the given states, have ended.
pub proof fn terminated_only_after_closed(
    me: Option<UserView>,
    steps: Seq<Step>,
    sender_saw: Seq<SessionState>,
    receiver_saw: Seq<SessionState>,
)
    requires
        passed(outcomes(me, steps), 3) ==> service_after(sender_saw) == Service::Ended,
        passed(outcomes(me, steps), 4) ==> service_after(receiver_saw) == Service::Ended,
    ensures
        written(me, steps).contains(SessionState::Terminated) ==> sender_saw.contains(SessionState::Closed)
            && receiver_saw.contains(SessionState::Closed),
{
    run_in_closed_form(me, steps);
    services_end_at_the_close(sender_saw);
    services_end_at_the_close(receiver_saw);
    let o = outcomes(me, steps);
    if passed(o, 4) {
        assert(passed(o, 3)) by {
            assert(o[1] && o[2] && o[3]);
        }
    }
}

/// Where the connection yields no stream, the listener ends for good. The state
/// of the session, its queue and its main task stay as they are.
pub proof fn lost_connection_ends_the_listener_only(run: Run, state: SessionState)
    ensures
        run.after(Step::Listened(false)) == (Run { listener: Listener::Done, ..run }),
        listener_next(Listener::Done, state) == (Listener::Done, ListenerAction::Exit),
{
}

/// The local user's close tells the peer, in the user's name, and ends the
/// session, which is then collected. What is queued stays queued.
pub proof fn close_ends_the_session<S>(session: S, s: SessionView, time: Timestamp)
    requires
        s.me is Some,
    ensures
        s.own_control(time, Control::CloseByPeer) == Ok::<MessageView, SessionError>(
            MessageView { time, user: s.me->0, data: BodyView::Control(Control::CloseByPeer) },
        ),
        ({
            let after = s.with_state(SessionState::Terminated);
            &&& after.state == SessionState::Terminated
            &&& after.queue == s.queue
            &&& survivors(seq![session], seq![after.state]) == Seq::<S>::empty()
        }),
{
    reveal_with_fuel(survivors, 2);
}

} // verus!
