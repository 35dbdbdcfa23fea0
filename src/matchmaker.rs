//! The pairing slot: a single shared cell in which the first of two
//! connections leaves its handshake package and from which the second takes
//! it, leaving its own for the first to pick up.
//!
//! Every method is one critical section: the caller holds the lock round the
//! call, and waits (sleeps, then polls again) outside it.
use vstd::prelude::*;
use vstd::multiset::Multiset;
use crate::identity::Player;

verus! {

/// What a connection hands over when it asks for a partner: its identity and
/// the stream of messages that its peer sends.
pub struct Package<S> {
    pub player: Player,
    pub recv: S,
}

/// What the slot holds.
pub enum SlotState<S> {
    /// No connection is waiting.
    Empty,
    /// The first connection of a pair waits for a partner.
    Waiting(Package<S>),
    /// The second connection of a pair has taken the waiter's package and
    /// left its own, which the waiter has not picked up yet.
    HandOff(Package<S>),
}

/// What a successful pairing request tells its caller.
pub enum Pairing<S> {
    /// The caller's package now waits in the slot: poll for the partner's.
    Wait,
    /// A partner was waiting: here is its package.
    Matched(Package<S>),
}

/// Why a pairing request was refused. The caller's own package comes back.
pub enum PairError<S> {
    /// A hand-off between two other connections is still pending.
    HandOffPending(Package<S>),
    /// The waiting connection has the caller's own identity.
    SameIdentity(Package<S>),
}

/// The slot after a request with `pkg`, and the request's result.
pub open spec fn request_spec<S>(st: SlotState<S>, pkg: Package<S>) -> (SlotState<S>, Result<
    Pairing<S>,
    PairError<S>,
>) {
    match st {
        SlotState::Empty => (SlotState::Waiting(pkg), Ok(Pairing::Wait)),
        SlotState::Waiting(w) => if w.player == pkg.player {
            (st, Err(PairError::SameIdentity(pkg)))
        } else {
            (SlotState::HandOff(pkg), Ok(Pairing::Matched(w)))
        },
        SlotState::HandOff(_) => (st, Err(PairError::HandOffPending(pkg))),
    }
}

/// The slot after the waiter `me` polls it, and what the poll hands over.
pub open spec fn poll_spec<S>(st: SlotState<S>, me: Player) -> (SlotState<S>, Option<Package<S>>) {
    match st {
        SlotState::HandOff(p) => if p.player != me {
            (SlotState::Empty, Some(p))
        } else {
            (st, None)
        },
        _ => (st, None),
    }
}

/// The packages that the slot holds.
pub open spec fn held<S>(st: SlotState<S>) -> Multiset<Package<S>> {
    match st {
        SlotState::Empty => Multiset::empty(),
        SlotState::Waiting(p) => Multiset::singleton(p),
        SlotState::HandOff(p) => Multiset::singleton(p),
    }
}

/// The packages that a request hands back to its caller.
pub open spec fn handed<S>(r: Result<Pairing<S>, PairError<S>>) -> Multiset<Package<S>> {
    match r {
        Ok(Pairing::Wait) => Multiset::empty(),
        Ok(Pairing::Matched(p)) => Multiset::singleton(p),
        Err(PairError::HandOffPending(p)) => Multiset::singleton(p),
        Err(PairError::SameIdentity(p)) => Multiset::singleton(p),
    }
}

/// The packages that a poll hands to the waiter.
pub open spec fn polled<S>(r: Option<Package<S>>) -> Multiset<Package<S>> {
    match r {
        Some(p) => Multiset::singleton(p),
        None => Multiset::empty(),
    }
}

/// Rendezvous: when `a` finds the slot empty and `b`, of another identity,
/// comes next, `a` is told to wait, `b` gets `a`'s package at once, and `a`'s
/// next poll gets `b`'s package and empties the slot. Neither gets its own.
pub proof fn lemma_rendezvous<S>(a: Package<S>, b: Package<S>)
    requires
        a.player != b.player,
    ensures
        ({
            let (s1, ra) = request_spec(SlotState::Empty, a);
            let (s2, rb) = request_spec(s1, b);
            let (s3, rc) = poll_spec(s2, a.player);
            &&& ra == Ok::<Pairing<S>, PairError<S>>(Pairing::Wait)
            &&& rb == Ok::<Pairing<S>, PairError<S>>(Pairing::Matched(a))
            &&& rc == Some(b)
            &&& s3 == SlotState::<S>::Empty
            &&& a != b
        }),
{
}

/// The second arrival of a pair never waits: while another identity waits,
/// a request is answered with the waiter's package.
pub proof fn lemma_second_arrival_completes<S>(w: Package<S>, pkg: Package<S>)
    requires
        w.player != pkg.player,
    ensures
        request_spec(SlotState::Waiting(w), pkg) == (SlotState::HandOff(pkg), Ok::<
            Pairing<S>,
            PairError<S>,
        >(Pairing::Matched(w))),
{
}

/// The waiter's polls: while no partner has come, a poll changes nothing and
/// hands over nothing, so the waiter may poll any number of times; the first
/// poll after a partner's request hands over the partner's package.
pub proof fn lemma_wait_path<S>(a: Package<S>, b: Package<S>)
    requires
        a.player != b.player,
    ensures
        poll_spec(SlotState::Waiting(a), a.player) == (SlotState::Waiting(a), None::<Package<S>>),
        poll_spec(request_spec(SlotState::Waiting(a), b).0, a.player) == (
            SlotState::<S>::Empty,
            Some(b),
        ),
{
}

/// A request made while a hand-off is pending is refused, deterministically:
/// the pending package stays where it is and the caller gets its own back.
pub proof fn lemma_pending_hand_off_refuses<S>(p: Package<S>, c: Package<S>)
    ensures
        request_spec(SlotState::HandOff(p), c) == (SlotState::HandOff(p), Err::<
            Pairing<S>,
            PairError<S>,
        >(PairError::HandOffPending(c))),
{
}

/// No package is lost or duplicated: what the slot held, with the package
/// offered, is what it holds afterwards with what the request handed back;
/// what it held before a poll is what it holds after, with what the poll
/// handed over. So the slot never holds more than one package.
pub proof fn lemma_packages_conserved<S>(st: SlotState<S>, pkg: Package<S>, me: Player)
    ensures
        ({
            let (s1, r) = request_spec(st, pkg);
            held(st).insert(pkg) =~= held(s1).add(handed(r))
        }),
        ({
            let (s1, r) = poll_spec(st, me);
            held(st) =~= held(s1).add(polled(r))
        }),
        held(st).len() <= 1,
{
}

/// The rendezvous point shared by all connections.
pub struct Matchmaker<S> {
    state: SlotState<S>,
}

impl<S> View for Matchmaker<S> {
    type V = SlotState<S>;

    closed spec fn view(&self) -> SlotState<S> {
        self.state
    }
}

impl<S> Matchmaker<S> {
    /// An empty slot.
    pub fn new() -> (r: Matchmaker<S>)
        ensures
            r@ == SlotState::<S>::Empty,
    {
        Matchmaker { state: SlotState::Empty }
    }

    /// Asks for a partner. On an empty slot the caller's package is left
    /// there and the caller is told to wait; on a slot where another
    /// identity waits, the two packages change places and the caller gets
    /// the waiter's at once. A pending hand-off, or a waiter with the
    /// caller's own identity, refuses the request and leaves the slot as it
    /// was.
    pub fn find_match(&mut self, player: Player, recv: S) -> (r: Result<Pairing<S>, PairError<S>>)
        ensures
            (final(self)@, r) == request_spec(old(self)@, Package { player, recv }),
    {
        let pkg = Package { player, recv };
        let mut st = SlotState::Empty;
        core::mem::swap(&mut self.state, &mut st);
        match st {
            SlotState::Empty => {
                self.state = SlotState::Waiting(pkg);
                Ok(Pairing::Wait)
            },
            SlotState::Waiting(w) => {
                if w.player == pkg.player {
                    self.state = SlotState::Waiting(w);
                    Err(PairError::SameIdentity(pkg))
                } else {
                    self.state = SlotState::HandOff(pkg);
                    Ok(Pairing::Matched(w))
                }
            },
            SlotState::HandOff(h) => {
                self.state = SlotState::HandOff(h);
                Err(PairError::HandOffPending(pkg))
            },
        }
    }

    /// The waiter `me` looks into the slot: where a partner has left its
    /// package, the waiter takes it and the slot becomes empty; otherwise
    /// nothing changes.
    pub fn poll_match(&mut self, me: Player) -> (r: Option<Package<S>>)
        ensures
            (final(self)@, r) == poll_spec(old(self)@, me),
    {
        let mut st = SlotState::Empty;
        core::mem::swap(&mut self.state, &mut st);
        match st {
            SlotState::HandOff(p) => {
                if p.player != me {
                    Some(p)
                } else {
                    self.state = SlotState::HandOff(p);
                    None
                }
            },
            other => {
                self.state = other;
                None
            },
        }
    }
}

} // verus!
