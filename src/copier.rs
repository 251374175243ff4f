use vstd::prelude::*;
use vstd::slice::slice_subrange;

verus! {

/// Most bytes asked for by one read from the source.
pub const BUF_SIZE: usize = 1024;

/// Which half of the copy failed.
#[derive(Clone, Copy, Debug, PartialEq, Eq, Structural)]
pub enum Side {
    /// Reading from the source connection.
    Read,
    /// Writing to, or shutting down, the destination connection.
    Write,
}

/// Where a copier stands.
#[derive(Clone, Copy, Debug, PartialEq, Eq, Structural)]
pub enum Phase {
    /// Waiting for the next read from the source.
    Reading,
    /// Bytes of the last read are still to be written to the destination.
    Writing,
    /// The source ended; the destination's write half is to be shut down.
    ShuttingDown,
    /// The destination was shut down after every byte was delivered.
    Finished,
    /// An I/O operation failed; nothing more is attempted.
    Failed(Side),
}

/// The I/O operation a copier asks its driver to perform next.
#[derive(Clone, Copy, Debug, PartialEq, Eq, Structural)]
pub enum CopyAction {
    /// Read at most `BUF_SIZE` bytes from the source.
    Read,
    /// Write the bytes of `Copier::unwritten` to the destination.
    Write,
    /// Shut down the write half of the destination.
    Shutdown,
    /// The copy is over; `Copier::result` holds its outcome.
    Stop,
}

/// A failed copy: the side that failed and the bytes delivered before it.
#[derive(Clone, Copy, Debug, PartialEq, Eq, Structural)]
pub struct CopyFailure {
    pub side: Side,
    pub moved: u64,
}

/// The outcome of a copy: the bytes moved, or the failure.
pub type CopyResult = Result<u64, CopyFailure>;

/// What the driver reports back after performing a `CopyAction`.
pub enum CopyEvent {
    /// A read returned these bytes; none means the source ended.
    Read(Seq<u8>),
    /// A read failed.
    ReadFailed,
    /// A write call accepted this many bytes.
    Wrote(nat),
    /// A write call failed.
    WriteFailed,
    /// The destination's write half was shut down.
    ShutdownDone,
    /// Shutting down the destination's write half failed.
    ShutdownFailed,
}

/// The abstract state of a copier.
pub struct CopierView {
    pub phase: Phase,
    /// Every byte read from the source, in order.
    pub received: Seq<u8>,
    /// Every byte accepted by the destination, in order.
    pub delivered: Seq<u8>,
    /// Bytes read but not yet accepted by the destination.
    pub pending: Seq<u8>,
}

/// A byte count as reported: the length, or `u64::MAX` past that.
pub open spec fn count_of(s: Seq<u8>) -> u64 {
    if s.len() <= u64::MAX as nat { s.len() as u64 } else { u64::MAX }
}

impl CopierView {
    /// The state of a copier that has done nothing yet.
    pub open spec fn initial() -> CopierView {
        CopierView {
            phase: Phase::Reading,
            received: Seq::empty(),
            delivered: Seq::empty(),
            pending: Seq::empty(),
        }
    }

    /// Consistency of the byte accounting.
    pub open spec fn inv(self) -> bool {
        &&& self.received == self.delivered + self.pending
        &&& self.phase == Phase::Writing ==> self.pending.len() > 0
        &&& self.pending.len() > 0 ==> (self.phase == Phase::Writing || self.phase is Failed)
        &&& self.pending.len() <= BUF_SIZE
    }

    /// Whether the copy is over.
    pub open spec fn is_terminal(self) -> bool {
        self.phase == Phase::Finished || self.phase is Failed
    }

    /// Whether `e` is a report of the operation this state asks for.
    pub open spec fn accepts(self, e: CopyEvent) -> bool {
        match e {
            CopyEvent::Read(data) => self.phase == Phase::Reading && data.len() <= BUF_SIZE,
            CopyEvent::ReadFailed => self.phase == Phase::Reading,
            CopyEvent::Wrote(n) => self.phase == Phase::Writing && n <= self.pending.len(),
            CopyEvent::WriteFailed => self.phase == Phase::Writing,
            CopyEvent::ShutdownDone => self.phase == Phase::ShuttingDown,
            CopyEvent::ShutdownFailed => self.phase == Phase::ShuttingDown,
        }
    }

    /// The state after event `e`; an event the state does not accept changes nothing.
    pub open spec fn next(self, e: CopyEvent) -> CopierView {
        if !self.accepts(e) {
            self
        } else {
            match e {
                CopyEvent::Read(data) => if data.len() == 0 {
                    CopierView { phase: Phase::ShuttingDown, ..self }
                } else {
                    CopierView {
                        phase: Phase::Writing,
                        received: self.received + data,
                        pending: data,
                        ..self
                    }
                },
                CopyEvent::ReadFailed => CopierView { phase: Phase::Failed(Side::Read), ..self },
                CopyEvent::Wrote(n) => if n == 0 {
                    CopierView { phase: Phase::Failed(Side::Write), ..self }
                } else {
                    CopierView {
                        phase: if n == self.pending.len() { Phase::Reading } else { Phase::Writing },
                        delivered: self.delivered + self.pending.take(n as int),
                        pending: self.pending.skip(n as int),
                        ..self
                    }
                },
                CopyEvent::WriteFailed => CopierView { phase: Phase::Failed(Side::Write), ..self },
                CopyEvent::ShutdownDone => CopierView { phase: Phase::Finished, ..self },
                CopyEvent::ShutdownFailed => CopierView { phase: Phase::Failed(Side::Write), ..self },
            }
        }
    }

    /// The state after the events of `evs`, in order.
    pub open spec fn run(self, evs: Seq<CopyEvent>) -> CopierView
        decreases evs.len(),
    {
        if evs.len() == 0 {
            self
        } else {
            self.run(evs.drop_last()).next(evs.last())
        }
    }
}

/// Every event keeps the byte accounting consistent.
pub proof fn lemma_next_inv(v: CopierView, e: CopyEvent)
    requires
        v.inv(),
    ensures
        v.next(e).inv(),
{
    if v.accepts(e) {
        match e {
            CopyEvent::Read(data) => {
                if data.len() > 0 {
                    assert(v.received + data =~= v.delivered + data);
                }
            },
            CopyEvent::Wrote(n) => {
                if n > 0 {
                    let p = v.pending;
                    assert(p =~= p.take(n as int) + p.skip(n as int));
                    assert(v.delivered + p =~= (v.delivered + p.take(n as int)) + p.skip(n as int));
                }
            },
            _ => {},
        }
    }
}

/// Every run keeps the byte accounting consistent.
pub proof fn lemma_run_inv(v: CopierView, evs: Seq<CopyEvent>)
    requires
        v.inv(),
    ensures
        v.run(evs).inv(),
    decreases evs.len(),
{
    if evs.len() > 0 {
        lemma_run_inv(v, evs.drop_last());
        lemma_next_inv(v.run(evs.drop_last()), evs.last());
    }
}

/// The bytes that the source handed over during the events of `evs`, run
/// from state `v`, in order: the data of every read that the copier took.
pub open spec fn bytes_read(v: CopierView, evs: Seq<CopyEvent>) -> Seq<u8>
    decreases evs.len(),
{
    if evs.len() == 0 {
        Seq::empty()
    } else {
        let before = bytes_read(v, evs.drop_last());
        match evs.last() {
            CopyEvent::Read(data) => if v.run(evs.drop_last()).accepts(evs.last()) {
                before + data
            } else {
                before
            },
            _ => before,
        }
    }
}

/// From a fresh copier, what has been read is exactly what the source sent.
pub proof fn lemma_received_is_bytes_read(evs: Seq<CopyEvent>)
    ensures
        CopierView::initial().run(evs).received == bytes_read(CopierView::initial(), evs),
    decreases evs.len(),
{
    if evs.len() > 0 {
        lemma_received_is_bytes_read(evs.drop_last());
        let v = CopierView::initial();
        let prev = v.run(evs.drop_last());
        match evs.last() {
            CopyEvent::Read(data) => {
                if prev.accepts(evs.last()) && data.len() == 0 {
                    assert(bytes_read(v, evs.drop_last()) + data =~= bytes_read(v, evs.drop_last()));
                }
            },
            _ => {},
        }
    }
}

/// Byte-exactness: whatever the driver reports, the destination has been
/// offered exactly a prefix of the bytes B that the source sent, in order,
/// and what is still owed is the rest of B. Once the copy has finished, and
/// only then has the destination been told that the stream ended, the
/// destination has received exactly B, and the reported count is its length.
pub proof fn lemma_byte_exact(evs: Seq<CopyEvent>)
    ensures
        bytes_read(CopierView::initial(), evs)
            == CopierView::initial().run(evs).delivered + CopierView::initial().run(evs).pending,
        CopierView::initial().run(evs).phase == Phase::Finished ==> {
            &&& CopierView::initial().run(evs).delivered == bytes_read(CopierView::initial(), evs)
            &&& result_of(CopierView::initial().run(evs))
                == Some(Ok::<u64, CopyFailure>(count_of(bytes_read(CopierView::initial(), evs))))
        },
{
    let v = CopierView::initial();
    assert(v.received =~= v.delivered + v.pending);
    lemma_run_inv(v, evs);
    lemma_received_is_bytes_read(evs);
    let s = v.run(evs);
    if s.phase == Phase::Finished {
        assert(s.pending.len() == 0);
        assert(s.received =~= s.delivered);
    }
}

/// A copy that is over stays over: no later report changes it, so nothing
/// is read or written after the end of the stream or after a failure.
pub proof fn lemma_terminal_absorbs(v: CopierView, evs: Seq<CopyEvent>)
    requires
        v.is_terminal(),
    ensures
        v.run(evs) == v,
    decreases evs.len(),
{
    if evs.len() > 0 {
        lemma_terminal_absorbs(v, evs.drop_last());
    }
}

/// What a copier in state `v` reports as its outcome, once it is over.
pub open spec fn result_of(v: CopierView) -> Option<CopyResult> {
    match v.phase {
        Phase::Finished => Some(Ok(count_of(v.delivered))),
        Phase::Failed(side) => Some(Err(CopyFailure { side, moved: count_of(v.delivered) })),
        _ => None,
    }
}

/// The action a copier in state `v` asks for.
pub open spec fn action_of(v: CopierView) -> CopyAction {
    match v.phase {
        Phase::Reading => CopyAction::Read,
        Phase::Writing => CopyAction::Write,
        Phase::ShuttingDown => CopyAction::Shutdown,
        _ => CopyAction::Stop,
    }
}

/// Moves the bytes of one direction of a relay: reads from a source
/// connection, writes each read in full to a destination connection, and
/// shuts the destination's write half down once the source ends.
pub struct Copier {
    phase: Phase,
    /// Bytes of the last read.
    buf: Vec<u8>,
    /// How many bytes at the front of `buf` the destination has accepted.
    written: usize,
    /// Bytes delivered so far, saturating.
    moved: u64,
    received: Ghost<Seq<u8>>,
    delivered: Ghost<Seq<u8>>,
}

impl View for Copier {
    type V = CopierView;

    closed spec fn view(&self) -> CopierView {
        CopierView {
            phase: self.phase,
            received: self.received@,
            delivered: self.delivered@,
            pending: self.buf@.skip(self.written as int),
        }
    }
}

impl Copier {
    /// Consistency of the fields with the abstract state.
    pub closed spec fn wf(&self) -> bool {
        &&& self@.inv()
        &&& self.written <= self.buf.len()
        &&& self.moved == count_of(self.delivered@)
    }

    /// A copier that has done nothing yet; it first asks for a read.
    pub fn new() -> (r: Copier)
        ensures
            r.wf(),
            r@ == CopierView::initial(),
    {
        let r = Copier {
            phase: Phase::Reading,
            buf: Vec::new(),
            written: 0,
            moved: 0,
            received: Ghost(Seq::empty()),
            delivered: Ghost(Seq::empty()),
        };
        assert(r@.pending =~= Seq::<u8>::empty());
        r
    }

    /// The operation to perform next.
    pub fn action(&self) -> (r: CopyAction)
        ensures
            r == action_of(self@),
    {
        match self.phase {
            Phase::Reading => CopyAction::Read,
            Phase::Writing => CopyAction::Write,
            Phase::ShuttingDown => CopyAction::Shutdown,
            _ => CopyAction::Stop,
        }
    }

    /// The bytes that the next write should offer the destination.
    pub fn unwritten(&self) -> (r: &[u8])
        requires
            self.wf(),
        ensures
            r@ == self@.pending,
    {
        slice_subrange(self.buf.as_slice(), self.written, self.buf.len())
    }

    /// The outcome: `None` while the copy runs.
    pub fn result(&self) -> (r: Option<CopyResult>)
        requires
            self.wf(),
        ensures
            r == result_of(self@),
    {
        match self.phase {
            Phase::Finished => Some(Ok(self.moved)),
            Phase::Failed(side) => Some(Err(CopyFailure { side, moved: self.moved })),
            _ => None,
        }
    }

    /// Records what a read returned; no bytes means the source ended.
    pub fn on_read(&mut self, data: &[u8])
        requires
            old(self).wf(),
            old(self)@.phase == Phase::Reading,
            data@.len() <= BUF_SIZE,
        ensures
            final(self).wf(),
            final(self)@ == old(self)@.next(CopyEvent::Read(data@)),
    {
        if data.len() == 0 {
            self.phase = Phase::ShuttingDown;
        } else {
            let mut buf: Vec<u8> = Vec::with_capacity(data.len());
            let mut i: usize = 0;
            while i < data.len()
                invariant
                    i <= data@.len(),
                    buf@ == data@.take(i as int),
                decreases data@.len() - i,
            {
                buf.push(data[i]);
                i = i + 1;
                assert(buf@ =~= data@.take(i as int));
            }
            assert(buf@ =~= data@);
            self.buf = buf;
            self.written = 0;
            self.phase = Phase::Writing;
            self.received = Ghost(self.received@ + data@);
            assert(self.buf@.skip(0) =~= data@);
        }
    }

    /// Records that a read failed.
    pub fn on_read_failed(&mut self)
        requires
            old(self).wf(),
            old(self)@.phase == Phase::Reading,
        ensures
            final(self).wf(),
            final(self)@ == old(self)@.next(CopyEvent::ReadFailed),
    {
        self.phase = Phase::Failed(Side::Read);
    }

    /// Records that a write call accepted the first `n` bytes of `unwritten`;
    /// a write that accepts nothing fails the copy.
    pub fn on_written(&mut self, n: usize)
        requires
            old(self).wf(),
            old(self)@.phase == Phase::Writing,
            n <= old(self)@.pending.len(),
        ensures
            final(self).wf(),
            final(self)@ == old(self)@.next(CopyEvent::Wrote(n as nat)),
    {
        if n == 0 {
            self.phase = Phase::Failed(Side::Write);
        } else {
            let ghost pending = self@.pending;
            self.delivered = Ghost(self.delivered@ + pending.take(n as int));
            self.written = self.written + n;
            if self.moved <= u64::MAX - n as u64 {
                self.moved = self.moved + n as u64;
            } else {
                self.moved = u64::MAX;
            }
            if self.written == self.buf.len() {
                self.phase = Phase::Reading;
            }
            assert(self@.pending =~= pending.skip(n as int));
            assert(self@.received =~= self@.delivered + self@.pending);
        }
    }

    /// Records that a write call failed.
    pub fn on_write_failed(&mut self)
        requires
            old(self).wf(),
            old(self)@.phase == Phase::Writing,
        ensures
            final(self).wf(),
            final(self)@ == old(self)@.next(CopyEvent::WriteFailed),
    {
        self.phase = Phase::Failed(Side::Write);
    }

    /// Records the outcome of shutting the destination's write half down.
    pub fn on_shutdown(&mut self, ok: bool)
        requires
            old(self).wf(),
            old(self)@.phase == Phase::ShuttingDown,
        ensures
            final(self).wf(),
            final(self)@ == old(self)@.next(
                if ok { CopyEvent::ShutdownDone } else { CopyEvent::ShutdownFailed },
            ),
    {
        if ok {
            self.phase = Phase::Finished;
        } else {
            self.phase = Phase::Failed(Side::Write);
        }
    }
}

} // verus!
