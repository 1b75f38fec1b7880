//! Moving one buffer that the host wrote into guest memory into storage that
//! the guest owns.
//!
//! The host hands over a descriptor. Reading the memory it points to and giving
//! that memory back to the allocator are not done here: a transfer says which
//! of the two comes next, and is told what came of it. A descriptor that stands
//! for nothing is never read and never released.

use vstd::prelude::*;
use crate::hostcalls::types::{GuestSlice, ProtocolViolation};

verus! {

/// What a transfer asks for next.
#[derive(Debug, Clone, Copy, PartialEq, Eq, Structural)]
pub enum Step {
    /// Read descriptor number `index` of the array that starts at `base`.
    Descriptor { base: usize, index: usize },
    /// Copy `len` bytes that start at `ptr`.
    Copy { ptr: usize, len: usize },
    /// Give the buffer at `ptr` back to the allocator.
    Release { ptr: usize },
    /// Nothing is left to do.
    Finished,
    /// The transfer cannot go on.
    Abort(ProtocolViolation),
}

/// The answer to a [`Step`].
#[derive(Debug, PartialEq, Eq)]
pub enum Event {
    /// The descriptor that was read.
    Descriptor(GuestSlice),
    /// The bytes that were copied.
    Bytes(Vec<u8>),
    /// The buffer was given back.
    Released,
}

/// An [`Event`] as contracts see it.
pub enum EventView {
    Descriptor(GuestSlice),
    Bytes(Seq<u8>),
    Released,
}

impl View for Event {
    type V = EventView;

    open spec fn view(&self) -> EventView {
        match *self {
            Event::Descriptor(d) => EventView::Descriptor(d),
            Event::Bytes(v) => EventView::Bytes(v@),
            Event::Released => EventView::Released,
        }
    }
}

/// Where a transfer stands.
#[derive(Debug, Clone, Copy, PartialEq, Eq, Structural)]
pub enum Phase {
    /// A descriptor was asked for.
    AwaitDescriptor,
    /// Bytes were asked for.
    AwaitBytes,
    /// The release of a buffer that was copied was asked for.
    AwaitRelease,
    /// The release of the descriptor array was asked for.
    AwaitOuterRelease,
    /// Everything was copied and released.
    Done,
    /// The transfer cannot go on.
    Failed(ProtocolViolation),
}

/// How many of `steps` are releases.
pub open spec fn count_releases(steps: Seq<Step>) -> nat
    decreases steps.len(),
{
    if steps.len() == 0 {
        0
    } else {
        count_releases(steps.drop_last()) + (if steps.last() is Release {
            1nat
        } else {
            0nat
        })
    }
}

/// The releases of two runs of steps add up.
pub proof fn lemma_count_releases_concat(a: Seq<Step>, b: Seq<Step>)
    ensures
        count_releases(a + b) == count_releases(a) + count_releases(b),
    decreases b.len(),
{
    if b.len() == 0 {
        assert(a + b =~= a);
    } else {
        assert((a + b).drop_last() =~= a + b.drop_last());
        assert((a + b).last() == b.last());
        lemma_count_releases_concat(a, b.drop_last());
    }
}

/// Whether each read that `steps` ask for is of something: no bytes are copied
/// from a null pointer, none are copied where there are none, and no
/// descriptor is read from an array at a null pointer.
pub open spec fn reads_something(steps: Seq<Step>) -> bool {
    forall|k: int|
        0 <= k < steps.len() ==> match #[trigger] steps[k] {
            Step::Copy { ptr, len } => ptr != 0 && len != 0,
            Step::Descriptor { base, index } => base != 0,
            _ => true,
        }
}

/// The state of a [`ByteTransfer`] as contracts see it.
pub struct ByteState {
    pub source: GuestSlice,
    pub phase: Phase,
    pub bytes: Seq<u8>,
    /// Every step that was asked for, oldest first.
    pub journal: Seq<Step>,
}

impl ByteState {
    /// The steps of a whole transfer from `source`.
    pub open spec fn script(source: GuestSlice) -> Seq<Step> {
        if source.is_nothing() {
            seq![Step::Finished]
        } else {
            seq![
                Step::Copy { ptr: source.ptr, len: source.len },
                Step::Release { ptr: source.ptr },
                Step::Finished,
            ]
        }
    }

    /// The state right after the host handed `source` over, and the first step.
    pub open spec fn begin(source: GuestSlice) -> (ByteState, Step) {
        if source.is_nothing() {
            (
                ByteState {
                    source,
                    phase: Phase::Done,
                    bytes: Seq::empty(),
                    journal: seq![Step::Finished],
                },
                Step::Finished,
            )
        } else {
            let step = Step::Copy { ptr: source.ptr, len: source.len };
            (
                ByteState {
                    source,
                    phase: Phase::AwaitBytes,
                    bytes: Seq::empty(),
                    journal: seq![step],
                },
                step,
            )
        }
    }

    /// The state after `event`, and the step that follows it.
    pub open spec fn advance(self, event: EventView) -> (ByteState, Step) {
        match (self.phase, event) {
            (Phase::AwaitBytes, EventView::Bytes(bytes)) if bytes.len() == self.source.len => {
                let step = Step::Release { ptr: self.source.ptr };
                (
                    ByteState {
                        phase: Phase::AwaitRelease,
                        bytes,
                        journal: self.journal.push(step),
                        ..self
                    },
                    step,
                )
            },
            (Phase::AwaitRelease, EventView::Released) => (
                ByteState {
                    phase: Phase::Done,
                    journal: self.journal.push(Step::Finished),
                    ..self
                },
                Step::Finished,
            ),
            _ => {
                let step = Step::Abort(ProtocolViolation::OutOfTurn);
                (
                    ByteState {
                        phase: Phase::Failed(ProtocolViolation::OutOfTurn),
                        journal: self.journal.push(step),
                        ..self
                    },
                    step,
                )
            },
        }
    }

    /// What holds of every state that `begin` and `advance` lead to.
    pub open spec fn wf(self) -> bool {
        &&& reads_something(self.journal)
        &&& match self.phase {
            Phase::AwaitBytes => {
                &&& !self.source.is_nothing()
                &&& self.bytes.len() == 0
                &&& self.journal == Self::script(self.source).take(1)
            },
            Phase::AwaitRelease => {
                &&& !self.source.is_nothing()
                &&& self.bytes.len() == self.source.len
                &&& self.journal == Self::script(self.source).take(2)
            },
            Phase::Done => {
                &&& self.bytes.len() == (if self.source.is_nothing() {
                    0
                } else {
                    self.source.len as int
                })
                &&& self.journal == Self::script(self.source)
            },
            Phase::Failed(violation) => {
                &&& self.journal.len() > 0
                &&& self.journal.last() == Step::Abort(violation)
            },
            _ => false,
        }
    }

    /// What the transfer yields when it is asked for its result now.
    pub open spec fn outcome(self) -> Result<Seq<u8>, ProtocolViolation> {
        match self.phase {
            Phase::Done => Ok(self.bytes),
            Phase::Failed(violation) => Err(violation),
            _ => Err(ProtocolViolation::OutOfTurn),
        }
    }
}

/// A `begin` leads to a well-formed state.
pub proof fn lemma_byte_begin_wf(source: GuestSlice)
    ensures
        ByteState::begin(source).0.wf(),
{
    let state = ByteState::begin(source).0;
    if !source.is_nothing() {
        assert(state.journal =~= ByteState::script(source).take(1));
    }
}

/// An `advance` leads from a well-formed state to a well-formed state.
pub proof fn lemma_byte_advance_wf(state: ByteState, event: EventView)
    requires
        state.wf(),
    ensures
        state.advance(event).0.wf(),
{
    let next = state.advance(event).0;
    let script = ByteState::script(state.source);
    match next.phase {
        Phase::AwaitRelease => {
            assert(next.journal =~= script.take(2));
        },
        Phase::Done => {
            assert(next.journal =~= script);
        },
        _ => {},
    }
}

/// Whatever a transfer has asked for, it never asked to read what is not
/// there: not from a null pointer, and not zero bytes.
pub proof fn lemma_byte_reads_something(state: ByteState)
    requires
        state.wf(),
    ensures
        reads_something(state.journal),
{
}

/// A descriptor that stands for nothing yields no bytes, and nothing is read or
/// released for it: the transfer is over as it begins.
pub proof fn lemma_byte_nothing_is_empty(source: GuestSlice)
    requires
        source.is_nothing(),
    ensures
        ByteState::begin(source).1 == Step::Finished,
        ByteState::begin(source).0.outcome() == Ok::<Seq<u8>, ProtocolViolation>(Seq::empty()),
        ByteState::begin(source).0.journal == seq![Step::Finished],
{
}

/// A transfer that came to its end released exactly the buffer that it copied,
/// after copying it; one of nothing released nothing.
pub proof fn lemma_byte_done_released_once(state: ByteState)
    requires
        state.wf(),
        state.phase == Phase::Done,
    ensures
        state.journal == ByteState::script(state.source),
        count_releases(state.journal) == (if state.source.is_nothing() {
            0nat
        } else {
            1nat
        }),
        !state.source.is_nothing() ==> state.journal[0] == (Step::Copy {
            ptr: state.source.ptr,
            len: state.source.len,
        }) && state.journal[1] == (Step::Release { ptr: state.source.ptr }),
{
    let j = state.journal;
    if state.source.is_nothing() {
        assert(j.drop_last() =~= Seq::<Step>::empty());
        assert(count_releases(j.drop_last()) == 0);
    } else {
        let j2 = j.drop_last();
        let j1 = j2.drop_last();
        assert(j1.drop_last() =~= Seq::<Step>::empty());
        assert(count_releases(j1.drop_last()) == 0);
        assert(count_releases(j1) == 0);
        assert(count_releases(j2) == 1);
    }
}

/// The state after a buffer was transferred that holds `bytes`: the bytes
/// were copied and the buffer was released, unless the descriptor stands for
/// nothing.
pub open spec fn transferred(source: GuestSlice, bytes: Seq<u8>) -> ByteState {
    if source.is_nothing() {
        ByteState::begin(source).0
    } else {
        ByteState::begin(source).0.advance(EventView::Bytes(bytes)).0.advance(
            EventView::Released,
        ).0
    }
}

/// A transfer that is given what the memory holds yields what the memory
/// holds: the bytes of the buffer, or none where the descriptor stands for
/// nothing. It has asked for exactly the steps of its script.
pub proof fn lemma_byte_transfer_yields(source: GuestSlice, bytes: Seq<u8>)
    requires
        !source.is_nothing() ==> bytes.len() == source.len,
    ensures
        transferred(source, bytes).wf(),
        transferred(source, bytes).outcome() == Ok::<Seq<u8>, ProtocolViolation>(
            if source.is_nothing() {
                Seq::empty()
            } else {
                bytes
            },
        ),
        transferred(source, bytes).journal == ByteState::script(source),
{
    lemma_byte_begin_wf(source);
    if !source.is_nothing() {
        let started = ByteState::begin(source).0;
        lemma_byte_advance_wf(started, EventView::Bytes(bytes));
        lemma_byte_advance_wf(started.advance(EventView::Bytes(bytes)).0, EventView::Released);
    }
}

/// Moves one buffer of bytes out of memory that the host filled.
pub struct ByteTransfer {
    source: GuestSlice,
    phase: Phase,
    data: Vec<u8>,
    journal: Ghost<Seq<Step>>,
}

impl View for ByteTransfer {
    type V = ByteState;

    closed spec fn view(&self) -> ByteState {
        ByteState {
            source: self.source,
            phase: self.phase,
            bytes: self.data@,
            journal: self.journal@,
        }
    }
}

impl ByteTransfer {
    /// Starts on the descriptor that the host handed over. Of one that stands
    /// for nothing, the result is empty at once.
    pub fn begin(source: GuestSlice) -> (started: (ByteTransfer, Step))
        ensures
            (started.0@, started.1) == ByteState::begin(source),
            started.0@.wf(),
    {
        proof {
            lemma_byte_begin_wf(source);
        }
        let (phase, step) = if source.holds_nothing() {
            (Phase::Done, Step::Finished)
        } else {
            (Phase::AwaitBytes, Step::Copy { ptr: source.ptr, len: source.len })
        };
        let journal = Ghost(Seq::<Step>::empty().push(step));
        (ByteTransfer { source, phase, data: Vec::new(), journal }, step)
    }

    /// Takes the answer to the step that was asked for last, and asks for the next.
    pub fn advance(&mut self, event: Event) -> (step: Step)
        ensures
            (final(self)@, step) == old(self)@.advance(event@),
            old(self)@.wf() ==> final(self)@.wf(),
    {
        proof {
            if self@.wf() {
                lemma_byte_advance_wf(self@, event@);
            }
        }
        let step = match (self.phase, event) {
            (Phase::AwaitBytes, Event::Bytes(bytes)) if bytes.len() == self.source.len => {
                self.data = bytes;
                self.phase = Phase::AwaitRelease;
                Step::Release { ptr: self.source.ptr }
            },
            (Phase::AwaitRelease, Event::Released) => {
                self.phase = Phase::Done;
                Step::Finished
            },
            _ => {
                self.phase = Phase::Failed(ProtocolViolation::OutOfTurn);
                Step::Abort(ProtocolViolation::OutOfTurn)
            },
        };
        self.journal = Ghost(self.journal@.push(step));
        step
    }

    /// The bytes, once the transfer is done. Asked earlier, or after it failed,
    /// says why there are none.
    pub fn finish(self) -> (result: Result<Vec<u8>, ProtocolViolation>)
        ensures
            match self@.outcome() {
                Ok(bytes) => result matches Ok(v) && v@ == bytes,
                Err(violation) => result == Err::<Vec<u8>, ProtocolViolation>(violation),
            },
    {
        match self.phase {
            Phase::Done => Ok(self.data),
            Phase::Failed(violation) => Err(violation),
            _ => Err(ProtocolViolation::OutOfTurn),
        }
    }
}

} // verus!
