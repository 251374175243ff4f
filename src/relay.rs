use vstd::prelude::*;
use crate::copier::{
    bytes_read, lemma_byte_exact, action_of, result_of, CopyAction, CopyEvent, CopyResult, Copier, CopierView, Phase, BUF_SIZE,
};

verus! {

/// One direction of a relay.
#[derive(Clone, Copy, Debug, PartialEq, Eq, Structural)]
pub enum Direction {
    /// From the inbound connection to the outbound one.
    Forward,
    /// From the outbound connection back to the inbound one.
    Backward,
}

/// The outcomes of both directions of one relay, for logging.
#[derive(Clone, Copy, Debug, PartialEq, Eq)]
pub struct RelayOutcome {
    pub forward: CopyResult,
    pub backward: CopyResult,
}

/// The abstract state of a relay: one copier per direction.
pub struct RelayView {
    pub forward: CopierView,
    pub backward: CopierView,
}

impl RelayView {
    pub open spec fn initial() -> RelayView {
        RelayView { forward: CopierView::initial(), backward: CopierView::initial() }
    }

    pub open spec fn side(self, d: Direction) -> CopierView {
        match d {
            Direction::Forward => self.forward,
            Direction::Backward => self.backward,
        }
    }

    /// The state after event `e` in direction `d`: only that direction moves.
    pub open spec fn next(self, d: Direction, e: CopyEvent) -> RelayView {
        match d {
            Direction::Forward => RelayView { forward: self.forward.next(e), ..self },
            Direction::Backward => RelayView { backward: self.backward.next(e), ..self },
        }
    }

    /// The state after the events of `evs`, in order.
    pub open spec fn run(self, evs: Seq<(Direction, CopyEvent)>) -> RelayView
        decreases evs.len(),
    {
        if evs.len() == 0 {
            self
        } else {
            self.run(evs.drop_last()).next(evs.last().0, evs.last().1)
        }
    }
}

/// The events of `evs` that belong to direction `d`, in order.
pub open spec fn events_of(evs: Seq<(Direction, CopyEvent)>, d: Direction) -> Seq<CopyEvent>
    decreases evs.len(),
{
    if evs.len() == 0 {
        Seq::empty()
    } else if evs.last().0 == d {
        events_of(evs.drop_last(), d).push(evs.last().1)
    } else {
        events_of(evs.drop_last(), d)
    }
}

/// A relay's outcome: present exactly when both directions are over.
pub open spec fn outcome_of(r: RelayView) -> Option<RelayOutcome> {
    if r.forward.is_terminal() && r.backward.is_terminal() {
        Some(RelayOutcome {
            forward: result_of(r.forward).unwrap(),
            backward: result_of(r.backward).unwrap(),
        })
    } else {
        None
    }
}

/// Independence of the two directions: however the reports of the two
/// directions interleave, each direction ends up exactly where its own
/// reports alone would have taken a fresh copier.
pub proof fn lemma_directions_independent(evs: Seq<(Direction, CopyEvent)>, d: Direction)
    ensures
        RelayView::initial().run(evs).side(d) == CopierView::initial().run(events_of(evs, d)),
    decreases evs.len(),
{
    if evs.len() > 0 {
        lemma_directions_independent(evs.drop_last(), d);
        let p = events_of(evs.drop_last(), d);
        if evs.last().0 == d {
            assert(p.push(evs.last().1).drop_last() =~= p);
        }
    }
}

/// Byte-exactness in both directions at once: however the reports of the
/// two directions interleave, each direction has offered its destination a
/// prefix of exactly the bytes its own source sent, never a byte of the
/// other direction's, and once it has finished it has delivered all of them.
pub proof fn lemma_relay_byte_exact(evs: Seq<(Direction, CopyEvent)>, d: Direction)
    ensures
        bytes_read(CopierView::initial(), events_of(evs, d))
            == RelayView::initial().run(evs).side(d).delivered
                + RelayView::initial().run(evs).side(d).pending,
        RelayView::initial().run(evs).side(d).phase == Phase::Finished
            ==> RelayView::initial().run(evs).side(d).delivered
                == bytes_read(CopierView::initial(), events_of(evs, d)),
{
    lemma_directions_independent(evs, d);
    lemma_byte_exact(events_of(evs, d));
}

/// A join, not a race: the relay reports an outcome only once both
/// directions are over. While one direction has ended, cleanly or by a
/// failure, the other goes on exactly as a lone copier would.
pub proof fn lemma_join_not_race(r: RelayView, d: Direction, e: CopyEvent)
    ensures
        outcome_of(r).is_some() <==> (r.forward.is_terminal() && r.backward.is_terminal()),
        r.next(d, e).side(d) == r.side(d).next(e),
        r.next(d, e).side(other(d)) == r.side(other(d)),
{
}

/// Half-close propagation: once the inbound peer's stream has ended and the
/// outbound connection's write half has been shut down, the relay is not
/// over while the way back still runs, and that way still carries every
/// byte it reads.
pub proof fn lemma_half_close(r: RelayView, e: CopyEvent)
    requires
        r.forward.phase == Phase::Finished,
        !r.backward.is_terminal(),
    ensures
        outcome_of(r).is_none(),
        r.next(Direction::Backward, e).backward == r.backward.next(e),
        r.next(Direction::Backward, e).forward == r.forward,
{
}

/// The other direction.
pub open spec fn other(d: Direction) -> Direction {
    match d {
        Direction::Forward => Direction::Backward,
        Direction::Backward => Direction::Forward,
    }
}

/// One relayed connection: a copier from the inbound connection to the
/// outbound one and a copier back, which the driver runs concurrently.
pub struct Relay {
    forward: Copier,
    backward: Copier,
}

impl View for Relay {
    type V = RelayView;

    closed spec fn view(&self) -> RelayView {
        RelayView { forward: self.forward@, backward: self.backward@ }
    }
}

impl Relay {
    pub closed spec fn wf(&self) -> bool {
        self.forward.wf() && self.backward.wf()
    }

    /// A relay whose two directions have done nothing yet.
    pub fn new() -> (r: Relay)
        ensures
            r.wf(),
            r@ == RelayView::initial(),
    {
        Relay { forward: Copier::new(), backward: Copier::new() }
    }

    /// The operation that direction `d` asks for next.
    pub fn action(&self, d: Direction) -> (r: CopyAction)
        ensures
            r == action_of(self@.side(d)),
    {
        match d {
            Direction::Forward => self.forward.action(),
            Direction::Backward => self.backward.action(),
        }
    }

    /// The bytes that direction `d` should write next.
    pub fn unwritten(&self, d: Direction) -> (r: &[u8])
        requires
            self.wf(),
        ensures
            r@ == self@.side(d).pending,
    {
        match d {
            Direction::Forward => self.forward.unwritten(),
            Direction::Backward => self.backward.unwritten(),
        }
    }

    /// Records what a read of direction `d` returned.
    pub fn on_read(&mut self, d: Direction, data: &[u8])
        requires
            old(self).wf(),
            old(self)@.side(d).phase == Phase::Reading,
            data@.len() <= BUF_SIZE,
        ensures
            final(self).wf(),
            final(self)@ == old(self)@.next(d, CopyEvent::Read(data@)),
    {
        match d {
            Direction::Forward => self.forward.on_read(data),
            Direction::Backward => self.backward.on_read(data),
        }
    }

    /// Records that a read of direction `d` failed.
    pub fn on_read_failed(&mut self, d: Direction)
        requires
            old(self).wf(),
            old(self)@.side(d).phase == Phase::Reading,
        ensures
            final(self).wf(),
            final(self)@ == old(self)@.next(d, CopyEvent::ReadFailed),
    {
        match d {
            Direction::Forward => self.forward.on_read_failed(),
            Direction::Backward => self.backward.on_read_failed(),
        }
    }

    /// Records that a write of direction `d` accepted `n` bytes.
    pub fn on_written(&mut self, d: Direction, n: usize)
        requires
            old(self).wf(),
            old(self)@.side(d).phase == Phase::Writing,
            n <= old(self)@.side(d).pending.len(),
        ensures
            final(self).wf(),
            final(self)@ == old(self)@.next(d, CopyEvent::Wrote(n as nat)),
    {
        match d {
            Direction::Forward => self.forward.on_written(n),
            Direction::Backward => self.backward.on_written(n),
        }
    }

    /// Records that a write of direction `d` failed.
    pub fn on_write_failed(&mut self, d: Direction)
        requires
            old(self).wf(),
            old(self)@.side(d).phase == Phase::Writing,
        ensures
            final(self).wf(),
            final(self)@ == old(self)@.next(d, CopyEvent::WriteFailed),
    {
        match d {
            Direction::Forward => self.forward.on_write_failed(),
            Direction::Backward => self.backward.on_write_failed(),
        }
    }

    /// Records the outcome of the shutdown asked for by direction `d`.
    pub fn on_shutdown(&mut self, d: Direction, ok: bool)
        requires
            old(self).wf(),
            old(self)@.side(d).phase == Phase::ShuttingDown,
        ensures
            final(self).wf(),
            final(self)@ == old(self)@.next(
                d,
                if ok { CopyEvent::ShutdownDone } else { CopyEvent::ShutdownFailed },
            ),
    {
        match d {
            Direction::Forward => self.forward.on_shutdown(ok),
            Direction::Backward => self.backward.on_shutdown(ok),
        }
    }

    /// The outcome of both directions, once both are over.
    pub fn outcome(&self) -> (r: Option<RelayOutcome>)
        requires
            self.wf(),
        ensures
            r == outcome_of(self@),
    {
        match (self.forward.result(), self.backward.result()) {
            (Some(f), Some(b)) => Some(RelayOutcome { forward: f, backward: b }),
            _ => None,
        }
    }
}

} // verus!
