//! One direction of a session.
//!
//! A direction is a loop: read a chunk from one connection, write it in full
//! to the other, report it, read again. A read of zero bytes is the orderly
//! end of the stream; a failed read or write ends the loop with an error.
//!
//! The loop itself runs where the sockets are. Here stands what it decides:
//! `CopyLoop::step` takes the loop's state and what the last read or write
//! came to, and gives the next state and what to do next. The second half of
//! the file follows the bytes through a run and proves that the loop loses,
//! repeats and reorders nothing.

use vstd::prelude::*;

verus! {

/// The size of the buffer that each read fills: no chunk is longer.
pub const CHUNK_SIZE: usize = 8192;

/// The two directions of a session.
#[derive(Clone, Copy, Debug, PartialEq, Eq, Structural)]
pub enum Direction {
    /// From the inbound connection to the outbound one.
    ClientToTarget,
    /// From the outbound connection to the inbound one.
    TargetToClient,
}

impl Direction {
    /// The other direction.
    pub open spec fn spec_opposite(self) -> Direction {
        match self {
            Direction::ClientToTarget => Direction::TargetToClient,
            Direction::TargetToClient => Direction::ClientToTarget,
        }
    }

    /// The other direction.
    #[verifier::when_used_as_spec(spec_opposite)]
    pub fn opposite(self) -> (other: Direction)
        ensures
            other == self.spec_opposite(),
    {
        match self {
            Direction::ClientToTarget => Direction::TargetToClient,
            Direction::TargetToClient => Direction::ClientToTarget,
        }
    }
}

/// The two operations of a loop, either of which can fail.
#[derive(Clone, Copy, Debug, PartialEq, Eq, Structural)]
pub enum Operation {
    Read,
    Write,
}

/// What a read or a write came to.
#[derive(Clone, Debug, PartialEq, Eq)]
pub enum CopyEvent {
    /// A read returned `len` bytes. Zero is the end of the stream.
    ReadDone { len: usize },
    /// A read failed.
    ReadFailed { cause: String },
    /// The chunk that was to be written has been written in full.
    WriteDone,
    /// A write failed.
    WriteFailed { cause: String },
}

/// How a loop ended.
#[derive(Clone, Debug, PartialEq, Eq)]
pub enum CopyEnd {
    /// The source reached the end of its stream.
    Eof,
    /// A read or a write failed.
    Failed { operation: Operation, cause: String },
}

/// Where a loop stands.
#[derive(Clone, Debug, PartialEq, Eq)]
pub enum Phase {
    /// A read is under way.
    Reading,
    /// The write of the last chunk, of `pending` bytes, is under way.
    Writing { pending: usize },
    /// The loop is over.
    Finished(CopyEnd),
}

/// What the loop's driver does next.
#[derive(Clone, Copy, Debug, PartialEq, Eq, Structural)]
pub enum CopyAction {
    /// Write the first `len` bytes of the buffer that the read filled, all of
    /// them, before anything else.
    Write { len: usize },
    /// Report a chunk of `len` bytes as transferred, then read again.
    Record { len: usize },
    /// The loop is over: its state says how it ended.
    Stop,
    /// The event is not one that the loop was waiting for: it changes
    /// nothing and asks for nothing.
    Ignore,
}

/// The state of one direction's loop.
#[derive(Clone, Debug, PartialEq, Eq)]
pub struct CopyLoop {
    /// Where the loop stands.
    pub phase: Phase,
    /// The bytes written so far, as a 64-bit register.
    pub total: u64,
}

/// `total` after `len` more bytes, in a 64-bit register.
pub open spec fn add_to_total(total: u64, len: usize) -> u64 {
    ((total + len) % 0x1_0000_0000_0000_0000) as u64
}

/// The loop's transition: the state and the action that follow `event` in
/// `state`.
///
/// While reading, a read of zero bytes ends the loop cleanly, a read of more
/// asks for that many bytes to be written, and a failed read ends the loop.
/// While writing, a finished write adds the chunk to the total and asks for
/// it to be reported and for the next read, and a failed write ends the
/// loop. Every other pairing of state and event leaves the state as it is.
pub open spec fn copy_step(state: CopyLoop, event: CopyEvent) -> (CopyLoop, CopyAction) {
    match (state.phase, event) {
        (Phase::Reading, CopyEvent::ReadDone { len }) => if len == 0 {
            (CopyLoop { phase: Phase::Finished(CopyEnd::Eof), total: state.total }, CopyAction::Stop)
        } else {
            (
                CopyLoop { phase: Phase::Writing { pending: len }, total: state.total },
                CopyAction::Write { len },
            )
        },
        (Phase::Reading, CopyEvent::ReadFailed { cause }) => (
            CopyLoop {
                phase: Phase::Finished(CopyEnd::Failed { operation: Operation::Read, cause }),
                total: state.total,
            },
            CopyAction::Stop,
        ),
        (Phase::Writing { pending }, CopyEvent::WriteDone) => (
            CopyLoop { phase: Phase::Reading, total: add_to_total(state.total, pending) },
            CopyAction::Record { len: pending },
        ),
        (Phase::Writing { pending }, CopyEvent::WriteFailed { cause }) => (
            CopyLoop {
                phase: Phase::Finished(CopyEnd::Failed { operation: Operation::Write, cause }),
                total: state.total,
            },
            CopyAction::Stop,
        ),
        _ => (state, CopyAction::Ignore),
    }
}

impl CopyLoop {
    /// A loop at its start: nothing written, the first read under way.
    pub open spec fn spec_new() -> CopyLoop {
        CopyLoop { phase: Phase::Reading, total: 0 }
    }

    /// A loop at its start: nothing written, the first read under way.
    #[verifier::when_used_as_spec(spec_new)]
    pub fn new() -> (state: CopyLoop)
        ensures
            state == CopyLoop::spec_new(),
    {
        CopyLoop { phase: Phase::Reading, total: 0 }
    }

    /// Whether the loop is over.
    pub open spec fn spec_is_finished(&self) -> bool {
        self.phase is Finished
    }

    /// Whether the loop is over.
    #[verifier::when_used_as_spec(spec_is_finished)]
    pub fn is_finished(&self) -> (over: bool)
        ensures
            over == self.spec_is_finished(),
    {
        match &self.phase {
            Phase::Finished(_) => true,
            _ => false,
        }
    }

    /// Takes the loop one event further: the next state and what to do next.
    pub fn step(self, event: CopyEvent) -> (next: (CopyLoop, CopyAction))
        ensures
            next == copy_step(self, event),
    {
        let CopyLoop { phase, total } = self;
        match phase {
            Phase::Reading => match event {
                CopyEvent::ReadDone { len } => {
                    if len == 0 {
                        (CopyLoop { phase: Phase::Finished(CopyEnd::Eof), total }, CopyAction::Stop)
                    } else {
                        (
                            CopyLoop { phase: Phase::Writing { pending: len }, total },
                            CopyAction::Write { len },
                        )
                    }
                },
                CopyEvent::ReadFailed { cause } => (
                    CopyLoop {
                        phase: Phase::Finished(
                            CopyEnd::Failed { operation: Operation::Read, cause },
                        ),
                        total,
                    },
                    CopyAction::Stop,
                ),
                CopyEvent::WriteDone => (
                    CopyLoop { phase: Phase::Reading, total },
                    CopyAction::Ignore,
                ),
                CopyEvent::WriteFailed { cause } => (
                    CopyLoop { phase: Phase::Reading, total },
                    CopyAction::Ignore,
                ),
            },
            Phase::Writing { pending } => match event {
                CopyEvent::WriteDone => {
                    let grown: u64 = total.wrapping_add(pending as u64);
                    (
                        CopyLoop { phase: Phase::Reading, total: grown },
                        CopyAction::Record { len: pending },
                    )
                },
                CopyEvent::WriteFailed { cause } => (
                    CopyLoop {
                        phase: Phase::Finished(
                            CopyEnd::Failed { operation: Operation::Write, cause },
                        ),
                        total,
                    },
                    CopyAction::Stop,
                ),
                CopyEvent::ReadDone { len } => (
                    CopyLoop { phase: Phase::Writing { pending }, total },
                    CopyAction::Ignore,
                ),
                CopyEvent::ReadFailed { cause } => (
                    CopyLoop { phase: Phase::Writing { pending }, total },
                    CopyAction::Ignore,
                ),
            },
            Phase::Finished(end) => (
                CopyLoop { phase: Phase::Finished(end), total },
                CopyAction::Ignore,
            ),
        }
    }
}

/// What happens on the wire in one step of a run, with the bytes that a
/// read brought. `CopyEvent` is what the loop is told of it.
pub enum WireEvent {
    /// A read brought these bytes. None is the end of the stream.
    Read(Seq<u8>),
    /// A read failed.
    ReadError(String),
    /// The chunk that was to be written has been written in full.
    Written,
    /// A write failed.
    WriteError(String),
}

/// What the loop is told of a step on the wire: of a read, how many bytes
/// it brought.
pub open spec fn event_of(wire: WireEvent) -> CopyEvent {
    match wire {
        WireEvent::Read(bytes) => CopyEvent::ReadDone { len: bytes.len() as usize },
        WireEvent::ReadError(cause) => CopyEvent::ReadFailed { cause },
        WireEvent::Written => CopyEvent::WriteDone,
        WireEvent::WriteError(cause) => CopyEvent::WriteFailed { cause },
    }
}

/// The bytes that a step on the wire brought: those of a read, else none.
pub open spec fn bytes_of(wire: WireEvent) -> Seq<u8> {
    match wire {
        WireEvent::Read(bytes) => bytes,
        _ => Seq::empty(),
    }
}

/// No read brings more than the buffer holds.
pub open spec fn fits_buffer(wire: WireEvent) -> bool {
    bytes_of(wire).len() <= CHUNK_SIZE
}

/// The account of a run: the loop's state, and where the bytes are.
pub struct Ledger {
    /// The loop's state.
    pub state: CopyLoop,
    /// All bytes that reads took from the source, in order.
    pub taken: Seq<u8>,
    /// The bytes of the chunk whose write is under way.
    pub pending: Seq<u8>,
    /// All bytes that finished writes gave to the sink, in order.
    pub delivered: Seq<u8>,
}

/// The account at the start of a run.
pub open spec fn ledger_start() -> Ledger {
    Ledger {
        state: CopyLoop::spec_new(),
        taken: Seq::empty(),
        pending: Seq::empty(),
        delivered: Seq::empty(),
    }
}

/// The account after one more step on the wire, with a driver that does what
/// the loop's action says: on `Write`, the first `len` bytes of what the read
/// brought are under way to the sink; on `Record`, they have arrived.
pub open spec fn ledger_step(before: Ledger, wire: WireEvent) -> Ledger {
    let (state, action) = copy_step(before.state, event_of(wire));
    match action {
        CopyAction::Write { len } => Ledger {
            state,
            taken: before.taken + bytes_of(wire),
            pending: bytes_of(wire).subrange(0, len as int),
            delivered: before.delivered,
        },
        CopyAction::Record { len } => Ledger {
            state,
            taken: before.taken,
            pending: Seq::empty(),
            delivered: before.delivered + before.pending,
        },
        CopyAction::Stop => Ledger {
            state,
            taken: before.taken + bytes_of(wire),
            pending: before.pending,
            delivered: before.delivered,
        },
        CopyAction::Ignore => before,
    }
}

/// The account after a whole run.
pub open spec fn ledger_after(wire: Seq<WireEvent>) -> Ledger
    decreases wire.len(),
{
    if wire.len() == 0 {
        ledger_start()
    } else {
        ledger_step(ledger_after(wire.drop_last()), wire.last())
    }
}

/// The account balances: what was taken is what was delivered followed by
/// what is under way, nothing is under way unless a write is, and the loop's
/// total counts the delivered bytes.
pub open spec fn balanced(ledger: Ledger) -> bool {
    &&& ledger.taken == ledger.delivered + ledger.pending
    &&& ledger.state.total == ledger.delivered.len() % 0x1_0000_0000_0000_0000
    &&& match ledger.state.phase {
        Phase::Reading => ledger.pending.len() == 0,
        Phase::Writing { pending } => pending == ledger.pending.len() && pending > 0,
        Phase::Finished(CopyEnd::Eof) => ledger.pending.len() == 0,
        Phase::Finished(CopyEnd::Failed { operation, cause }) => operation == Operation::Read
            ==> ledger.pending.len() == 0,
    }
}

/// The run of a stream that arrives in `chunks` and meets no error: each
/// chunk is read and then written, in turn.
pub open spec fn clean_run(chunks: Seq<Seq<u8>>) -> Seq<WireEvent>
    decreases chunks.len(),
{
    if chunks.len() == 0 {
        Seq::empty()
    } else {
        clean_run(chunks.drop_last()).push(WireEvent::Read(chunks.last())).push(
            WireEvent::Written,
        )
    }
}

/// The stream that arrives in `chunks`: their bytes, one chunk after the
/// other.
pub open spec fn payload(chunks: Seq<Seq<u8>>) -> Seq<u8>
    decreases chunks.len(),
{
    if chunks.len() == 0 {
        Seq::empty()
    } else {
        payload(chunks.drop_last()) + chunks.last()
    }
}

/// One step on the wire keeps the account balanced.
pub proof fn lemma_step_keeps_balance(before: Ledger, wire: WireEvent)
    requires
        balanced(before),
        fits_buffer(wire),
    ensures
        balanced(ledger_step(before, wire)),
{
    let after = ledger_step(before, wire);
    let action = copy_step(before.state, event_of(wire)).1;
    let bytes = bytes_of(wire);
    match action {
        CopyAction::Write { len } => {
            assert(len == bytes.len());
            assert(bytes.subrange(0, len as int) =~= bytes);
            assert(after.taken =~= after.delivered + after.pending);
        },
        CopyAction::Record { len } => {
            assert(after.taken =~= after.delivered + after.pending);
            let width: int = 0x1_0000_0000_0000_0000;
            let had: int = before.delivered.len() as int;
            vstd::arithmetic::div_mod::lemma_add_mod_noop(had, len as int, width);
            vstd::arithmetic::div_mod::lemma_small_mod(len as nat, width as nat);
        },
        CopyAction::Stop => {
            assert(bytes.len() == 0);
            assert(after.taken =~= after.delivered + after.pending);
        },
        CopyAction::Ignore => {},
    }
}

/// Whatever happens on the wire, in whatever order, the account balances
/// after every step. So at every moment the sink has received a prefix of
/// what was taken from the source, byte for byte and in order, and all that
/// is missing from it is the one chunk whose write is under way. When a loop
/// ends on the end of the stream or on a failed read, nothing is missing:
/// every byte read before the end has been written.
pub proof fn lemma_run_is_balanced(wire: Seq<WireEvent>)
    requires
        forall|i: int| 0 <= i < wire.len() ==> fits_buffer(#[trigger] wire[i]),
    ensures
        balanced(ledger_after(wire)),
        ledger_after(wire).delivered.is_prefix_of(ledger_after(wire).taken),
        ledger_after(wire).state.phase is Reading || ledger_after(wire).state.phase
            == Phase::Finished(CopyEnd::Eof) ==> ledger_after(wire).delivered == ledger_after(
            wire,
        ).taken,
    decreases wire.len(),
{
    if wire.len() > 0 {
        let earlier = wire.drop_last();
        assert forall|i: int| 0 <= i < earlier.len() implies fits_buffer(#[trigger] earlier[i]) by {
            assert(earlier[i] == wire[i]);
        }
        lemma_run_is_balanced(earlier);
        lemma_step_keeps_balance(ledger_after(earlier), wire.last());
    }
    let ledger = ledger_after(wire);
    if ledger.pending.len() == 0 {
        assert(ledger.delivered + ledger.pending =~= ledger.delivered);
    }
}

/// A stream that arrives in chunks and meets no error is read and written
/// chunk by chunk; after the last chunk the loop is reading again, and the
/// sink has the whole stream so far.
pub proof fn lemma_clean_run_keeps_up(chunks: Seq<Seq<u8>>)
    requires
        forall|i: int| 0 <= i < chunks.len() ==> 0 < (#[trigger] chunks[i]).len() <= CHUNK_SIZE,
    ensures
        ledger_after(clean_run(chunks)).state.phase is Reading,
        ledger_after(clean_run(chunks)).taken == payload(chunks),
        ledger_after(clean_run(chunks)).delivered == payload(chunks),
        balanced(ledger_after(clean_run(chunks))),
    decreases chunks.len(),
{
    if chunks.len() > 0 {
        let earlier = chunks.drop_last();
        assert forall|i: int| 0 <= i < earlier.len() implies 0 < (#[trigger] earlier[i]).len()
            <= CHUNK_SIZE by {
            assert(earlier[i] == chunks[i]);
        }
        lemma_clean_run_keeps_up(earlier);
        let chunk = chunks.last();
        let start = ledger_after(clean_run(earlier));
        let read = clean_run(earlier).push(WireEvent::Read(chunk));
        let whole = read.push(WireEvent::Written);
        assert(whole.drop_last() =~= read);
        assert(read.drop_last() =~= clean_run(earlier));
        let half = ledger_step(start, WireEvent::Read(chunk));
        assert(ledger_after(read) == half);
        lemma_step_keeps_balance(start, WireEvent::Read(chunk));
        let full = ledger_step(half, WireEvent::Written);
        assert(ledger_after(whole) == full);
        lemma_step_keeps_balance(half, WireEvent::Written);
        assert(chunk.subrange(0, chunk.len() as int) =~= chunk);
        assert(full.delivered =~= payload(chunks));
        assert(full.taken =~= payload(chunks));
    }
}

/// A stream that is sent in full and then closed arrives in full: whatever
/// bytes it holds, whether none, a few, or more than one buffer takes, and
/// however the reads cut it into chunks, the loop ends on the end of the
/// stream, and the sink has received exactly the bytes that the source gave,
/// in their order. The loop's total is their number, as far as 64 bits count.
pub proof fn lemma_clean_stream_arrives_whole(chunks: Seq<Seq<u8>>)
    requires
        forall|i: int| 0 <= i < chunks.len() ==> 0 < (#[trigger] chunks[i]).len() <= CHUNK_SIZE,
    ensures
        ({
            let end = ledger_after(clean_run(chunks).push(WireEvent::Read(Seq::empty())));
            &&& end.state.phase == Phase::Finished(CopyEnd::Eof)
            &&& end.delivered == payload(chunks)
            &&& end.taken == payload(chunks)
            &&& end.pending.len() == 0
            &&& payload(chunks).len() <= u64::MAX ==> end.state.total == payload(chunks).len()
        }),
{
    lemma_clean_run_keeps_up(chunks);
    let run = clean_run(chunks);
    let last = WireEvent::Read(Seq::<u8>::empty());
    let whole = run.push(last);
    assert(whole.drop_last() =~= run);
    let end = ledger_step(ledger_after(run), last);
    assert(ledger_after(whole) == end);
    lemma_step_keeps_balance(ledger_after(run), last);
    assert(end.taken =~= payload(chunks));
    if payload(chunks).len() <= u64::MAX {
        vstd::arithmetic::div_mod::lemma_small_mod(
            payload(chunks).len(),
            0x1_0000_0000_0000_0000,
        );
    }
}

} // verus!
