//! The relay that runs once two connections are paired: every message of
//! the partner's inbound stream goes, verbatim and in order, to the
//! connection's own outbound sink, until the stream ends or a write fails.
use vstd::prelude::*;

verus! {

/// The kind of a message frame.
#[derive(Clone, Copy, Debug, PartialEq, Eq, Structural)]
pub enum FrameKind {
    Text,
    Binary,
    Ping,
    Pong,
}

/// One message: its kind and its payload bytes (UTF-8 for text).
#[derive(Clone, Debug)]
pub struct Frame {
    pub kind: FrameKind,
    pub payload: Vec<u8>,
}

/// What a frame carries.
pub type FrameView = (FrameKind, Seq<u8>);

impl View for Frame {
    type V = FrameView;

    open spec fn view(&self) -> FrameView {
        (self.kind, self.payload@)
    }
}

/// What the partner's inbound stream produced next.
pub enum Inbound {
    /// A message.
    Message(Frame),
    /// The stream is over: it ended, failed, or the partner closed it.
    End,
}

/// What the connection does next.
pub enum RelayAction {
    /// Write this frame to the outbound sink.
    Forward(Frame),
    /// Stop relaying and close the connection.
    Stop,
}

/// The state of a relay: whether it still runs, and the frames it has
/// handed to the sink so far.
pub struct RelayModel {
    pub open: bool,
    pub written: Seq<FrameView>,
}

/// The relay's state and action after one inbound event.
pub open spec fn relay_step(m: RelayModel, ev: Inbound) -> (RelayModel, RelayAction) {
    if !m.open {
        (m, RelayAction::Stop)
    } else {
        match ev {
            Inbound::Message(f) => (
                RelayModel { open: true, written: m.written.push(f@) },
                RelayAction::Forward(f),
            ),
            Inbound::End => (RelayModel { open: false, written: m.written }, RelayAction::Stop),
        }
    }
}

/// The relay's state after a sequence of inbound events.
pub open spec fn relay_run(m: RelayModel, evs: Seq<Inbound>) -> RelayModel
    decreases evs.len(),
{
    if evs.len() == 0 {
        m
    } else {
        relay_step(relay_run(m, evs.drop_last()), evs.last()).0
    }
}

/// The actions taken on a sequence of inbound events.
pub open spec fn relay_actions(m: RelayModel, evs: Seq<Inbound>) -> Seq<RelayAction>
    decreases evs.len(),
{
    if evs.len() == 0 {
        Seq::empty()
    } else {
        relay_actions(m, evs.drop_last()).push(
            relay_step(relay_run(m, evs.drop_last()), evs.last()).1,
        )
    }
}

/// A relay that has just started.
pub open spec fn fresh_relay() -> RelayModel {
    RelayModel { open: true, written: Seq::empty() }
}

/// The relay loop's decisions.
pub struct Relay {
    open: bool,
    written: Ghost<Seq<FrameView>>,
}

impl View for Relay {
    type V = RelayModel;

    closed spec fn view(&self) -> RelayModel {
        RelayModel { open: self.open, written: self.written@ }
    }
}

impl Relay {
    /// A relay that runs and has written nothing.
    pub fn new() -> (r: Relay)
        ensures
            r@ == fresh_relay(),
    {
        Relay { open: true, written: Ghost(Seq::empty()) }
    }

    /// Whether the relay still runs.
    pub fn is_open(&self) -> (r: bool)
        ensures
            r == self@.open,
    {
        self.open
    }

    /// Decides what to do with the next inbound event: a message is
    /// forwarded unchanged while the relay runs; the end of the stream
    /// stops it.
    pub fn on_inbound(&mut self, ev: Inbound) -> (r: RelayAction)
        ensures
            (final(self)@, r) == relay_step(old(self)@, ev),
    {
        if !self.open {
            return RelayAction::Stop;
        }
        match ev {
            Inbound::Message(f) => {
                self.written = Ghost(self.written@.push(f@));
                RelayAction::Forward(f)
            },
            Inbound::End => {
                self.open = false;
                RelayAction::Stop
            },
        }
    }

    /// A write to the sink failed: the relay stops.
    pub fn on_write_failed(&mut self)
        ensures
            final(self)@ == (RelayModel { open: false, written: old(self)@.written }),
    {
        self.open = false;
    }
}

/// How many bytes the command-line client reads from its input at a time.
pub const CHUNK_SIZE: usize = 1024;

/// The message that the command-line client sends for one read of its
/// input: the `n` bytes read, as one binary frame; none where the read gave
/// nothing (the input is over).
pub fn input_frame(buf: Vec<u8>, n: usize) -> (r: Option<Frame>)
    requires
        n <= buf.len(),
    ensures
        n == 0 ==> r.is_none(),
        n > 0 ==> (r matches Some(f) && f@ == (FrameKind::Binary, buf@.subrange(0, n as int))),
{
    if n == 0 {
        return None;
    }
    let mut payload = buf;
    payload.truncate(n);
    Some(Frame { kind: FrameKind::Binary, payload })
}

/// Relay fidelity: for any messages that arrive in order, the relay
/// forwards each one, unchanged, in that order, one write per message, and
/// keeps running.
pub proof fn lemma_relay_fidelity(fs: Seq<Frame>)
    ensures
        ({
            let evs = fs.map_values(|f: Frame| Inbound::Message(f));
            &&& relay_run(fresh_relay(), evs) == (RelayModel {
                open: true,
                written: fs.map_values(|f: Frame| f@),
            })
            &&& relay_actions(fresh_relay(), evs) == fs.map_values(
                |f: Frame| RelayAction::Forward(f),
            )
        }),
    decreases fs.len(),
{
    let evs = fs.map_values(|f: Frame| Inbound::Message(f));
    if fs.len() > 0 {
        let init = fs.drop_last();
        lemma_relay_fidelity(init);
        assert(evs.drop_last() == init.map_values(|f: Frame| Inbound::Message(f)));
        assert(fs.map_values(|f: Frame| f@) == init.map_values(|f: Frame| f@).push(fs.last()@));
        assert(fs.map_values(|f: Frame| RelayAction::Forward(f)) == init.map_values(
            |f: Frame| RelayAction::Forward(f),
        ).push(RelayAction::Forward(fs.last())));
    } else {
        assert(fs.map_values(|f: Frame| f@) == Seq::<FrameView>::empty());
        assert(fs.map_values(|f: Frame| RelayAction::Forward(f)) == Seq::<RelayAction>::empty());
    }
}

/// A whole relay session: for messages that arrive in order and then the end
/// of the stream, the relay forwards each message unchanged, in order, one
/// write per message, then stops once; it has written exactly those
/// messages and no longer runs.
pub proof fn lemma_relay_session(fs: Seq<Frame>)
    ensures
        ({
            let evs = fs.map_values(|f: Frame| Inbound::Message(f)).push(Inbound::End);
            &&& relay_run(fresh_relay(), evs) == (RelayModel {
                open: false,
                written: fs.map_values(|f: Frame| f@),
            })
            &&& relay_actions(fresh_relay(), evs) == fs.map_values(
                |f: Frame| RelayAction::Forward(f),
            ).push(RelayAction::Stop)
            &&& relay_actions(fresh_relay(), evs).len() == fs.len() + 1
        }),
{
    let msgs = fs.map_values(|f: Frame| Inbound::Message(f));
    let evs = msgs.push(Inbound::End);
    lemma_relay_fidelity(fs);
    assert(evs.drop_last() == msgs);
}

/// Once the relay has stopped, it stays stopped and writes nothing more,
/// whatever arrives.
pub proof fn lemma_stopped_stays_stopped(m: RelayModel, evs: Seq<Inbound>)
    requires
        !m.open,
    ensures
        relay_run(m, evs) == m,
        forall|i: int| 0 <= i < evs.len() ==> #[trigger] relay_actions(m, evs)[i] == RelayAction::Stop,
        relay_actions(m, evs).len() == evs.len(),
    decreases evs.len(),
{
    if evs.len() > 0 {
        lemma_stopped_stays_stopped(m, evs.drop_last());
    }
}

} // verus!
