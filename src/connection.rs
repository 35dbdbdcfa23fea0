//! The life of one connection: it connects, may wait for a partner, relays,
//! and closes. It pairs once and never goes back to waiting.
use vstd::prelude::*;
use crate::identity::{Player, hyphenated};
use crate::matchmaker::{Pairing, PairError};

verus! {

/// Where a connection stands.
#[derive(Clone, Copy, Debug, PartialEq, Eq, Structural)]
pub enum Phase {
    Connecting,
    AwaitingMatch,
    Relaying,
    Closed,
}

/// What happened to a connection.
#[derive(Clone, Copy, Debug, PartialEq, Eq, Structural)]
pub enum ConnEvent {
    /// Its pairing request left its package in the slot.
    Queued,
    /// Its pairing request was answered with a partner's package.
    Matched,
    /// Its pairing request was refused.
    Refused,
    /// While it waited, a poll handed it a partner's package.
    PartnerArrived,
    /// Its relay stopped.
    RelayStopped,
}

/// The phase after an event, or `None` where the event cannot happen in
/// that phase.
pub open spec fn next_phase(p: Phase, e: ConnEvent) -> Option<Phase> {
    match (p, e) {
        (Phase::Connecting, ConnEvent::Queued) => Some(Phase::AwaitingMatch),
        (Phase::Connecting, ConnEvent::Matched) => Some(Phase::Relaying),
        (Phase::Connecting, ConnEvent::Refused) => Some(Phase::Closed),
        (Phase::AwaitingMatch, ConnEvent::PartnerArrived) => Some(Phase::Relaying),
        (Phase::Relaying, ConnEvent::RelayStopped) => Some(Phase::Closed),
        _ => None,
    }
}

/// The position of a phase in the order in which a connection passes them.
pub open spec fn rank(p: Phase) -> nat {
    match p {
        Phase::Connecting => 0,
        Phase::AwaitingMatch => 1,
        Phase::Relaying => 2,
        Phase::Closed => 3,
    }
}

/// A connection only moves forward: no event leads back to an earlier
/// phase, and nothing leads into waiting but the first pairing request.
pub proof fn lemma_phases_move_forward(p: Phase, e: ConnEvent)
    ensures
        next_phase(p, e) matches Some(q) ==> rank(p) < rank(q),
        next_phase(p, e) == Some(Phase::AwaitingMatch) ==> p == Phase::Connecting && e
            == ConnEvent::Queued,
{
}

/// The event that the answer to a pairing request is.
pub fn pairing_event<S>(r: &Result<Pairing<S>, PairError<S>>) -> (e: ConnEvent)
    ensures
        e == match r {
            Ok(Pairing::Wait) => ConnEvent::Queued,
            Ok(Pairing::Matched(_)) => ConnEvent::Matched,
            Err(_) => ConnEvent::Refused,
        },
{
    match r {
        Ok(Pairing::Wait) => ConnEvent::Queued,
        Ok(Pairing::Matched(_)) => ConnEvent::Matched,
        Err(_) => ConnEvent::Refused,
    }
}

/// One connection's phase.
pub struct Connection {
    phase: Phase,
}

impl Connection {
    /// A connection that has just connected.
    pub fn new() -> (r: Connection)
        ensures
            r.phase() == Phase::Connecting,
    {
        Connection { phase: Phase::Connecting }
    }

    /// The connection's phase.
    pub closed spec fn phase(&self) -> Phase {
        self.phase
    }

    /// The connection's phase.
    pub fn current(&self) -> (r: Phase)
        ensures
            r == self.phase(),
    {
        self.phase
    }

    /// Takes an event: moves to the next phase and returns true where the
    /// event can happen in the current phase; otherwise changes nothing and
    /// returns false.
    pub fn advance(&mut self, e: ConnEvent) -> (r: bool)
        ensures
            r == next_phase(old(self).phase(), e).is_some(),
            final(self).phase() == match next_phase(old(self).phase(), e) {
                Some(q) => q,
                None => old(self).phase(),
            },
    {
        let next = match (self.phase, e) {
            (Phase::Connecting, ConnEvent::Queued) => Some(Phase::AwaitingMatch),
            (Phase::Connecting, ConnEvent::Matched) => Some(Phase::Relaying),
            (Phase::Connecting, ConnEvent::Refused) => Some(Phase::Closed),
            (Phase::AwaitingMatch, ConnEvent::PartnerArrived) => Some(Phase::Relaying),
            (Phase::Relaying, ConnEvent::RelayStopped) => Some(Phase::Closed),
            _ => None,
        };
        match next {
            Some(q) => {
                self.phase = q;
                true
            },
            None => false,
        }
    }
}

/// The text that tells a connection who its partner is.
pub open spec fn announcement_text(partner: Player) -> Seq<char> {
    seq!['c', 'o', 'n', 'n', 'e', 'c', 't', 'e', 'd', ' ', 'w', 'i', 't', 'h', ' ']
        + seq!['p', 'l', 'a', 'y', 'e', 'r', ' '] + hyphenated(partner.id)
}

/// The message sent to a connection once it is paired, naming its partner.
pub fn announcement(partner: &Player) -> (r: String)
    ensures
        r@ == announcement_text(*partner),
{
    let mut r = String::from_str("connected with ");
    proof {
        reveal_strlit("connected with ");
    }
    let d = partner.describe();
    r.append(d.as_str());
    r
}

} // verus!
