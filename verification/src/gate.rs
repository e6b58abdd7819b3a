//! Access gate: grants read access to a bounded number of reacting users.
//!
//! The access gate watches the announcement message and, for each qualifying
//! reaction event in arrival order, grants the reacting user read access to
//! the gated channel — never to more than `limit` distinct users. Concurrent
//! reaction bursts are serialized by the surrounding application into a
//! single sequence of [`GateState::on_reaction`] calls (a single-consumer
//! loop), so every interleaving the transport can produce is some sequence
//! of steps of this machine; the capacity bound below therefore holds under
//! any interleaving. A user who already holds a grant and reacts again is
//! granted nothing new and consumes no further slot against the limit.

use vstd::prelude::*;
use crate::ids::UserId;

verus! {

/// Mathematical model of the access gate: the distinct users granted so far, in
/// grant order, and the grant limit.
pub ghost struct GateModel {
    pub granted: Seq<UserId>,
    pub limit: u32,
}

impl GateModel {
    /// The access gate's invariant: grants are distinct users and never outnumber
    /// the limit.
    pub open spec fn wf(self) -> bool {
        self.granted.no_duplicates() && self.granted.len() <= self.limit
    }

    /// The access gate has used up its capacity and observes no further events.
    pub open spec fn finished(self) -> bool {
        self.granted.len() >= self.limit
    }
}

/// The access gate as first created: nobody granted yet.
pub open spec fn gate_init(limit: u32) -> GateModel {
    GateModel { granted: Seq::empty(), limit }
}

/// A reaction by `user` earns a new grant: the access gate still has capacity and
/// `user` does not hold a grant already.
pub open spec fn gate_grants(m: GateModel, user: UserId) -> bool {
    !m.finished() && !m.granted.contains(user)
}

/// One reaction event: a qualifying user is appended to the granted list;
/// anything else leaves the access gate unchanged.
pub open spec fn gate_step(m: GateModel, user: UserId) -> GateModel {
    if gate_grants(m, user) {
        GateModel { granted: m.granted.push(user), limit: m.limit }
    } else {
        m
    }
}

/// The access gate after consuming a whole sequence of reaction events in arrival
/// order.
pub open spec fn gate_run(m: GateModel, events: Seq<UserId>) -> GateModel
    decreases events.len(),
{
    if events.len() == 0 {
        m
    } else {
        gate_run(gate_step(m, events[0]), events.drop_first())
    }
}

/// What the access gate decided about one reaction event.
#[derive(Clone, Copy, PartialEq, Eq, Structural, Debug)]
pub enum GateDecision {
    /// The user is granted read access and a slot is consumed.
    Grant,
    /// The user already holds a grant; nothing changes.
    AlreadyGranted,
    /// The limit was already reached; the event is not consumed.
    Finished,
}

/// Executable gate state: the distinct users granted so far and the limit.
pub struct GateState {
    pub granted: Vec<UserId>,
    pub limit: u32,
}

impl View for GateState {
    type V = GateModel;

    open spec fn view(&self) -> GateModel {
        GateModel { granted: self.granted@, limit: self.limit }
    }
}

impl GateState {
    /// A fresh gate that will grant read access to at most `limit` users.
    pub fn new(limit: u32) -> (s: GateState)
        ensures
            s@ == gate_init(limit),
            s@.wf(),
    {
        GateState { granted: Vec::new(), limit }
    }

    /// How many users hold a grant.
    pub fn granted_count(&self) -> (n: usize)
        ensures
            n == self@.granted.len(),
    {
        self.granted.len()
    }

    /// The grant limit the access gate was created with.
    pub fn limit(&self) -> (n: u32)
        ensures
            n == self@.limit,
    {
        self.limit
    }

    /// The access gate has reached its limit and stops subscribing to events.
    pub fn is_finished(&self) -> (r: bool)
        ensures
            r == self@.finished(),
    {
        self.granted.len() >= self.limit as usize
    }

    /// Whether `user` already holds a grant.
    pub fn is_granted(&self, user: UserId) -> (r: bool)
        ensures
            r == self@.granted.contains(user),
    {
        let mut i: usize = 0;
        while i < self.granted.len()
            invariant
                i <= self.granted@.len(),
                forall|j: int| 0 <= j < i ==> self.granted@[j] != user,
            decreases self.granted@.len() - i,
        {
            if self.granted[i] == user {
                assert(self.granted@.contains(user)) by {
                    assert(self.granted@[i as int] == user);
                }
                return true;
            }
            i += 1;
        }
        false
    }

    /// Consume one reaction event, in arrival order. Grants read access to a
    /// new user while capacity remains; an already-granted user is treated
    /// idempotently and consumes no further slot.
    pub fn on_reaction(&mut self, user: UserId) -> (d: GateDecision)
        ensures
            final(self)@ == gate_step(old(self)@, user),
            d == (if old(self)@.finished() {
                GateDecision::Finished
            } else if old(self)@.granted.contains(user) {
                GateDecision::AlreadyGranted
            } else {
                GateDecision::Grant
            }),
            d == GateDecision::Grant <==> gate_grants(old(self)@, user),
            old(self)@.wf() ==> final(self)@.wf(),
    {
        if self.granted.len() >= self.limit as usize {
            GateDecision::Finished
        } else if self.is_granted(user) {
            GateDecision::AlreadyGranted
        } else {
            self.granted.push(user);
            GateDecision::Grant
        }
    }
}

/// One step keeps the access gate well formed: the granted users stay distinct and
/// never outnumber the limit.
pub proof fn lemma_gate_step_preserves_wf(m: GateModel, user: UserId)
    requires
        m.wf(),
    ensures
        gate_step(m, user).wf(),
        gate_step(m, user).limit == m.limit,
{
}

/// Under every sequence of reaction events — hence under every interleaving
/// of concurrent reactions once serialized — the number of granted users
/// never exceeds the limit.
pub proof fn lemma_gate_run_capacity(m: GateModel, events: Seq<UserId>)
    requires
        m.wf(),
    ensures
        gate_run(m, events).wf(),
        gate_run(m, events).limit == m.limit,
        gate_run(m, events).granted.len() <= m.limit,
    decreases events.len(),
{
    if events.len() > 0 {
        lemma_gate_step_preserves_wf(m, events[0]);
        lemma_gate_run_capacity(gate_step(m, events[0]), events.drop_first());
    }
}

/// A finished gate observes no further events: whatever arrives afterwards
/// changes nothing.
pub proof fn lemma_gate_finished_stable(m: GateModel, events: Seq<UserId>)
    requires
        m.finished(),
    ensures
        gate_run(m, events) == m,
    decreases events.len(),
{
    if events.len() > 0 {
        lemma_gate_finished_stable(m, events.drop_first());
    }
}

/// A user who already holds a grant and reacts again changes nothing: the
/// grant is idempotent and the remaining capacity is exactly what one grant
/// left.
pub proof fn lemma_gate_regrant_idempotent(m: GateModel, user: UserId)
    requires
        m.granted.contains(user),
    ensures
        gate_step(m, user) == m,
{
}

/// While capacity lasts, every distinct new reacting user is granted: a run
/// of distinct, not-yet-granted users that fits in the remaining capacity is
/// granted in full, in arrival order.
pub proof fn lemma_gate_grants_all_within_capacity(m: GateModel, events: Seq<UserId>)
    requires
        m.wf(),
        events.no_duplicates(),
        forall|i: int| 0 <= i < events.len() ==> !m.granted.contains(#[trigger] events[i]),
        m.granted.len() + events.len() <= m.limit,
    ensures
        gate_run(m, events).granted == m.granted + events,
    decreases events.len(),
{
    if events.len() == 0 {
        assert(gate_run(m, events).granted =~= m.granted + events);
    } else {
        let user = events[0];
        let next = gate_step(m, user);
        assert(gate_grants(m, user));
        assert(next.granted == m.granted.push(user));
        assert(next.wf()) by {
            lemma_gate_step_preserves_wf(m, user);
        }
        assert(forall|i: int|
            0 <= i < events.drop_first().len() ==> !next.granted.contains(
                #[trigger] events.drop_first()[i],
            )) by {
            assert(forall|i: int| 0 <= i < events.drop_first().len() ==> events.drop_first()[i]
                == events[i + 1]);
        }
        lemma_gate_grants_all_within_capacity(next, events.drop_first());
        assert(gate_run(m, events).granted =~= m.granted + events);
    }
}

/// Exactly at its limit: a gate observing as many distinct, fresh reacting
/// users as its whole capacity grants precisely those users, in arrival
/// order, and is then finished.
pub proof fn lemma_gate_fills_exactly(limit: u32, events: Seq<UserId>)
    requires
        events.no_duplicates(),
        events.len() == limit,
    ensures
        gate_run(gate_init(limit), events).granted == events,
        gate_run(gate_init(limit), events).finished(),
{
    lemma_gate_run_capacity(gate_init(limit), events);
    lemma_gate_grants_all_within_capacity(gate_init(limit), events);
    assert(Seq::<UserId>::empty() + events =~= events);
    assert(gate_run(gate_init(limit), events).granted.len() == limit);
}

/// No grant without a reaction: every user the access gate ends up having
/// granted either held a grant already or appears among the observed
/// reaction events.
pub proof fn lemma_gate_grants_only_reactors(m: GateModel, events: Seq<UserId>)
    ensures
        forall|u: UserId|
            gate_run(m, events).granted.contains(u) ==> m.granted.contains(u) || events.contains(
                u,
            ),
    decreases events.len(),
{
    if events.len() > 0 {
        let first = events[0];
        let rest = events.drop_first();
        let next = gate_step(m, first);
        lemma_gate_grants_only_reactors(next, rest);
        assert(gate_run(m, events) == gate_run(next, rest));
        assert forall|u: UserId|
            gate_run(m, events).granted.contains(u) implies m.granted.contains(u)
            || events.contains(u) by {
            assert(gate_run(next, rest).granted.contains(u));
            if next.granted.contains(u) {
                if gate_grants(m, first) {
                    let j = choose|j: int|
                        0 <= j < next.granted.len() && next.granted[j] == u;
                    if j < m.granted.len() {
                        assert(m.granted.contains(u)) by {
                            assert(m.granted[j] == u);
                        }
                    } else {
                        assert(events.contains(u)) by {
                            assert(events[0] == u);
                        }
                    }
                }
            } else {
                assert(rest.contains(u));
                let i = choose|i: int| 0 <= i < rest.len() && rest[i] == u;
                assert(events.contains(u)) by {
                    assert(events[i + 1] == u);
                }
            }
        }
    }
}

/// A gate created with limit zero is finished from the outset: it grants
/// read access to nobody, whatever events arrive.
pub proof fn lemma_gate_zero_limit(events: Seq<UserId>)
    ensures
        gate_init(0).finished(),
        gate_run(gate_init(0), events).granted.len() == 0,
{
    lemma_gate_finished_stable(gate_init(0), events);
}

} // verus!
