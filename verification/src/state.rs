//! The sessions of the program.
use vstd::prelude::*;

use crate::session::SessionState;

verus! {

/// The sessions that are running, in the order in which they were added. `S`
/// stands for a session.
pub struct QuicTalkState<S> {
    sessions: Vec<S>,
}

impl<S> View for QuicTalkState<S> {
    type V = Seq<S>;

    closed spec fn view(&self) -> Seq<S> {
        self.sessions@
    }
}

/// Those of the `sessions` whose state is not `Terminated`, in the same order.
pub open spec fn survivors<S>(sessions: Seq<S>, states: Seq<SessionState>) -> Seq<S>
    decreases sessions.len(),
{
    if sessions.len() == 0 {
        Seq::empty()
    } else {
        let earlier = survivors(sessions.drop_last(), states.drop_last());
        if states.last() == SessionState::Terminated {
            earlier
        } else {
            earlier.push(sessions.last())
        }
    }
}

/// The sessions after a number of handshakes, each of which gives a session or
/// fails. The first failure ends the taking in of connections.
pub open spec fn taken_in<S>(sessions: Seq<S>, handshakes: Seq<Option<S>>) -> Seq<S>
    decreases handshakes.len(),
{
    if handshakes.len() == 0 {
        sessions
    } else {
        match handshakes[0] {
            Some(session) => taken_in(sessions.push(session), handshakes.drop_first()),
            None => sessions,
        }
    }
}

impl<S> QuicTalkState<S> {
    /// No sessions.
    pub fn new() -> (r: Self)
        ensures
            r@ == Seq::<S>::empty(),
    {
        QuicTalkState { sessions: Vec::with_capacity(10) }
    }

    /// Adds a session, and says how many there are now.
    pub fn push(&mut self, session: S) -> (count: usize)
        ensures
            final(self)@ == old(self)@.push(session),
            count == final(self)@.len(),
    {
        self.sessions.push(session);
        self.sessions.len()
    }

    /// Takes in the outcome of a handshake. A session is added, and it is said how
    /// many there are now; a failure is passed on, and ends the taking in of
    /// connections.
    pub fn handshaken<E>(&mut self, outcome: Result<S, E>) -> (r: Result<usize, E>)
        ensures
            match (outcome, r) {
                (Ok(session), Ok(count)) => final(self)@ == old(self)@.push(session) && count == final(self)@.len(),
                (Err(failure), Err(e)) => final(self)@ == old(self)@ && e == failure,
                _ => false,
            },
    {
        match outcome {
            Ok(session) => Ok(self.push(session)),
            Err(e) => Err(e),
        }
    }

    /// How many sessions there are.
    pub fn len(&self) -> (r: usize)
        ensures
            r == self@.len(),
    {
        self.sessions.len()
    }

    /// The session at an index, if there is one.
    pub fn get(&self, index: usize) -> (r: Option<&S>)
        ensures
            r == (if index < self@.len() { Some(&self@[index as int]) } else { None }),
    {
        if index < self.sessions.len() {
            Some(&self.sessions[index])
        } else {
            None
        }
    }

    /// Removes the sessions that have ended, given the state of each session.
    pub fn collect(&mut self, states: &Vec<SessionState>)
        requires
            states@.len() == old(self)@.len(),
        ensures
            final(self)@ == survivors(old(self)@, states@),
    {
        let ghost all = self.sessions@;
        let mut i: usize = 0;
        let mut looked_at: usize = 0;
        assert(self.sessions@ =~= survivors(all.take(0), states@.take(0)) + all.skip(0));
        while i < self.sessions.len()
            invariant
                looked_at <= states@.len() == all.len(),
                i == survivors(all.take(looked_at as int), states@.take(looked_at as int)).len(),
                self.sessions@ == survivors(all.take(looked_at as int), states@.take(looked_at as int))
                    + all.skip(looked_at as int),
            decreases all.len() - looked_at,
        {
            let ghost kept = survivors(all.take(looked_at as int), states@.take(looked_at as int));
            let ghost n = looked_at as int;
            assert(looked_at < states.len());
            assert(all.take(n + 1).drop_last() =~= all.take(n));
            assert(states@.take(n + 1).drop_last() =~= states@.take(n));
            if states[looked_at] == SessionState::Terminated {
                self.sessions.remove(i);
                assert(self.sessions@ =~= kept + all.skip(n + 1));
            } else {
                i += 1;
                assert(self.sessions@ =~= kept.push(all[n]) + all.skip(n + 1));
            }
            looked_at += 1;
        }
        assert(all.take(all.len() as int) =~= all);
        assert(states@.take(all.len() as int) =~= states@);
        assert(self.sessions@ =~= survivors(all, states@));
    }
}

/// The sessions of all handshakes before the first that fails are taken in, in
/// their order, and none after it.
pub proof fn first_failed_handshake_is_the_last<S>(
    sessions: Seq<S>,
    completed: Seq<S>,
    rest: Seq<Option<S>>,
)
    requires
        rest.len() > 0 ==> rest[0] is None,
    ensures
        taken_in(sessions, completed.map_values(|s: S| Some(s)) + rest) == sessions + completed,
    decreases completed.len(),
{
    let handshakes = completed.map_values(|s: S| Some(s)) + rest;
    if completed.len() > 0 {
        let others = completed.drop_first();
        first_failed_handshake_is_the_last(sessions.push(completed[0]), others, rest);
        assert(handshakes.drop_first() =~= others.map_values(|s: S| Some(s)) + rest);
        assert(sessions.push(completed[0]) + others =~= sessions + completed);
    } else {
        assert(handshakes =~= rest);
        assert(sessions + completed =~= sessions);
    }
}

/// A collection keeps the sessions that have not ended, and keeps no other.
pub proof fn collection_keeps_what_has_not_ended<S>(sessions: Seq<S>, states: Seq<SessionState>)
    requires
        states.len() == sessions.len(),
    ensures
        survivors(sessions, states).len() <= sessions.len(),
        forall|i: int|
            0 <= i < sessions.len() && states[i] != SessionState::Terminated ==> survivors(
                sessions,
                states,
            ).contains(#[trigger] sessions[i]),
        forall|k: int|
            0 <= k < survivors(sessions, states).len() ==> exists|i: int|
                0 <= i < sessions.len() && states[i] != SessionState::Terminated && #[trigger] survivors(
                    sessions,
                    states,
                )[k] == #[trigger] sessions[i],
    decreases sessions.len(),
{
    if sessions.len() > 0 {
        let n = sessions.len() - 1;
        let s = sessions.drop_last();
        let t = states.drop_last();
        collection_keeps_what_has_not_ended(s, t);
        let kept = survivors(s, t);
        let all = survivors(sessions, states);
        assert forall|i: int|
            0 <= i < sessions.len() && states[i] != SessionState::Terminated implies all.contains(
            #[trigger] sessions[i],
        ) by {
            if i < n {
                assert(kept.contains(s[i]));
                let k = choose|k: int| 0 <= k < kept.len() && kept[k] == s[i];
                assert(all[k] == sessions[i]);
            } else {
                assert(all[kept.len() as int] == sessions[i]);
            }
        }
        assert forall|k: int| 0 <= k < all.len() implies exists|i: int|
            0 <= i < sessions.len() && states[i] != SessionState::Terminated && #[trigger] all[k]
                == #[trigger] sessions[i] by {
            if k < kept.len() {
                assert(all[k] == kept[k]);
                let i = choose|i: int|
                    0 <= i < s.len() && t[i] != SessionState::Terminated && kept[k] == #[trigger] s[i];
                assert(all[k] == sessions[i] && states[i] != SessionState::Terminated);
            } else {
                assert(all[k] == sessions[n]);
            }
        }
    }
}

/// Where no session has ended, a collection changes nothing.
pub proof fn collection_spares_running_sessions<S>(sessions: Seq<S>, states: Seq<SessionState>)
    requires
        states.len() == sessions.len(),
        forall|i: int| 0 <= i < states.len() ==> #[trigger] states[i] != SessionState::Terminated,
    ensures
        survivors(sessions, states) == sessions,
    decreases sessions.len(),
{
    if sessions.len() > 0 {
        collection_spares_running_sessions(sessions.drop_last(), states.drop_last());
        assert(sessions.drop_last().push(sessions.last()) =~= sessions);
    } else {
        assert(survivors(sessions, states) =~= sessions);
    }
}

/// Where every session has ended, a collection leaves none.
pub proof fn collection_empties_an_ended_program<S>(sessions: Seq<S>, states: Seq<SessionState>)
    requires
        states.len() == sessions.len(),
        forall|i: int| 0 <= i < states.len() ==> #[trigger] states[i] == SessionState::Terminated,
    ensures
        survivors(sessions, states).len() == 0,
    decreases sessions.len(),
{
    if sessions.len() > 0 {
        collection_empties_an_ended_program(sessions.drop_last(), states.drop_last());
    }
}

/// The sessions that a collection keeps stay in their order: what is collected
/// of two lists, one behind the other, is what is collected of each.
pub proof fn collection_keeps_the_order<S>(
    sessions: Seq<S>,
    states: Seq<SessionState>,
    more_sessions: Seq<S>,
    more_states: Seq<SessionState>,
)
    requires
        states.len() == sessions.len(),
        more_states.len() == more_sessions.len(),
    ensures
        survivors(sessions + more_sessions, states + more_states) == survivors(sessions, states)
            + survivors(more_sessions, more_states),
    decreases more_sessions.len(),
{
    if more_sessions.len() == 0 {
        assert(sessions + more_sessions =~= sessions);
        assert(states + more_states =~= states);
        assert(survivors(sessions, states) + survivors(more_sessions, more_states) =~= survivors(
            sessions,
            states,
        ));
    } else {
        collection_keeps_the_order(sessions, states, more_sessions.drop_last(), more_states.drop_last());
        assert((sessions + more_sessions).drop_last() =~= sessions + more_sessions.drop_last());
        assert((states + more_states).drop_last() =~= states + more_states.drop_last());
        assert(survivors(sessions + more_sessions, states + more_states) =~= survivors(sessions, states)
            + survivors(more_sessions, more_states));
    }
}

} // verus!
