//! Moving an array of descriptors, and the buffer behind each of them, into
//! storage that the guest owns.
//!
//! The host hands over the address of the array and the number of its
//! elements. Each element is read, its bytes are copied unless it stands for
//! nothing, and its buffer is released before the next element is looked at.
//! The array itself is released last.

use vstd::prelude::*;
use crate::hostcalls::buffer::{
    count_releases, lemma_count_releases_concat, reads_something, Event, EventView, Phase, Step,
};
use crate::hostcalls::types::{GuestSlice, ProtocolViolation};

verus! {

/// The steps that one element takes: its descriptor is read, its bytes are
/// copied if there are any, and its buffer is released.
pub open spec fn element_steps(base: usize, index: usize, d: GuestSlice) -> Seq<Step> {
    if d.is_nothing() {
        seq![Step::Descriptor { base, index }, Step::Release { ptr: d.ptr }]
    } else {
        seq![
            Step::Descriptor { base, index },
            Step::Copy { ptr: d.ptr, len: d.len },
            Step::Release { ptr: d.ptr },
        ]
    }
}

/// The steps that the elements `ds` of the array at `base` take, first element first.
pub open spec fn elements_script(base: usize, ds: Seq<GuestSlice>) -> Seq<Step>
    decreases ds.len(),
{
    if ds.len() == 0 {
        Seq::empty()
    } else {
        elements_script(base, ds.drop_last()) + element_steps(
            base,
            (ds.len() - 1) as usize,
            ds.last(),
        )
    }
}

/// What a list of buffers holds: the bytes of each, in order.
pub open spec fn contents(buffers: Seq<Vec<u8>>) -> Seq<Seq<u8>> {
    buffers.map_values(|buffer: Vec<u8>| buffer@)
}

/// The bytes that an element yields: none if its descriptor stands for nothing.
pub open spec fn element_len(d: GuestSlice) -> int {
    if d.is_nothing() {
        0
    } else {
        d.len as int
    }
}

/// The state of a [`ListTransfer`] as contracts see it.
pub struct ListState {
    /// Where the array starts, and how many descriptors it holds.
    pub source: GuestSlice,
    pub phase: Phase,
    /// The descriptor whose bytes were asked for.
    pub current: GuestSlice,
    /// The bytes of the elements that were taken so far.
    pub items: Seq<Seq<u8>>,
    /// The descriptors of those elements.
    pub described: Seq<GuestSlice>,
    /// Every step that was asked for, oldest first.
    pub journal: Seq<Step>,
}

impl ListState {
    /// The state after the failure `violation`.
    pub open spec fn fail(self, violation: ProtocolViolation) -> (ListState, Step) {
        (
            ListState {
                phase: Phase::Failed(violation),
                journal: self.journal.push(Step::Abort(violation)),
                ..self
            },
            Step::Abort(violation),
        )
    }

    /// The state in which `step` was asked for and `phase` was entered.
    pub open spec fn ask(self, phase: Phase, step: Step) -> (ListState, Step) {
        (ListState { phase, journal: self.journal.push(step), ..self }, step)
    }

    /// The state with one more element, whose release was asked for.
    pub open spec fn take(self, d: GuestSlice, bytes: Seq<u8>) -> (ListState, Step) {
        ListState { items: self.items.push(bytes), described: self.described.push(d), ..self }.ask(
            Phase::AwaitRelease,
            Step::Release { ptr: d.ptr },
        )
    }

    /// The state right after the host handed `source` over, and the first step.
    pub open spec fn begin(source: GuestSlice) -> (ListState, Step) {
        let start = ListState {
            source,
            phase: Phase::Done,
            current: source,
            items: Seq::empty(),
            described: Seq::empty(),
            journal: Seq::empty(),
        };
        if source.is_nothing() {
            start.ask(Phase::Done, Step::Finished)
        } else {
            start.ask(Phase::AwaitDescriptor, Step::Descriptor { base: source.ptr, index: 0 })
        }
    }

    /// The state after `event`, and the step that follows it.
    pub open spec fn advance(self, event: EventView) -> (ListState, Step) {
        match (self.phase, event) {
            (Phase::AwaitDescriptor, EventView::Descriptor(d)) => {
                if d.is_nothing() {
                    self.take(d, Seq::empty())
                } else {
                    ListState { current: d, ..self }.ask(
                        Phase::AwaitBytes,
                        Step::Copy { ptr: d.ptr, len: d.len },
                    )
                }
            },
            (Phase::AwaitBytes, EventView::Bytes(bytes)) if bytes.len() == self.current.len => {
                self.take(self.current, bytes)
            },
            (Phase::AwaitRelease, EventView::Released) => {
                if self.items.len() < self.source.len {
                    self.ask(
                        Phase::AwaitDescriptor,
                        Step::Descriptor {
                            base: self.source.ptr,
                            index: self.items.len() as usize,
                        },
                    )
                } else {
                    self.ask(Phase::AwaitOuterRelease, Step::Release { ptr: self.source.ptr })
                }
            },
            (Phase::AwaitOuterRelease, EventView::Released) => self.ask(
                Phase::Done,
                Step::Finished,
            ),
            _ => self.fail(ProtocolViolation::OutOfTurn),
        }
    }

    /// The steps of a whole transfer in which the array held `described`.
    pub open spec fn script(source: GuestSlice, described: Seq<GuestSlice>) -> Seq<Step> {
        if source.is_nothing() {
            seq![Step::Finished]
        } else {
            elements_script(source.ptr, described) + seq![
                Step::Release { ptr: source.ptr },
                Step::Finished,
            ]
        }
    }

    /// What holds of every state that `begin` and `advance` lead to.
    pub open spec fn wf(self) -> bool {
        let base = self.source.ptr;
        let taken = elements_script(base, self.described);
        let next = Step::Descriptor { base, index: self.described.len() as usize };
        &&& reads_something(self.journal)
        &&& self.items.len() == self.described.len()
        &&& self.described.len() <= self.source.len
        &&& forall|i: int|
            0 <= i < self.items.len() ==> (#[trigger] self.items[i]).len() == element_len(
                self.described[i],
            )
        &&& match self.phase {
            Phase::AwaitDescriptor => {
                &&& !self.source.is_nothing()
                &&& self.described.len() < self.source.len
                &&& self.journal == taken.push(next)
            },
            Phase::AwaitBytes => {
                &&& !self.source.is_nothing()
                &&& self.described.len() < self.source.len
                &&& !self.current.is_nothing()
                &&& self.journal == taken.push(next).push(
                    Step::Copy { ptr: self.current.ptr, len: self.current.len },
                )
            },
            Phase::AwaitRelease => {
                &&& !self.source.is_nothing()
                &&& self.described.len() > 0
                &&& self.journal == taken
            },
            Phase::AwaitOuterRelease => {
                &&& !self.source.is_nothing()
                &&& self.described.len() == self.source.len
                &&& self.journal == taken.push(Step::Release { ptr: base })
            },
            Phase::Done => {
                &&& self.described.len() == (if self.source.is_nothing() {
                    0
                } else {
                    self.source.len as int
                })
                &&& self.journal == Self::script(self.source, self.described)
            },
            Phase::Failed(violation) => {
                &&& self.journal.len() > 0
                &&& self.journal.last() == Step::Abort(violation)
            },
        }
    }

    /// What the transfer yields when it is asked for its result now.
    pub open spec fn outcome(self) -> Result<Seq<Seq<u8>>, ProtocolViolation> {
        match self.phase {
            Phase::Done => Ok(self.items),
            Phase::Failed(violation) => Err(violation),
            _ => Err(ProtocolViolation::OutOfTurn),
        }
    }
}

/// The steps of the elements up to and with `d` are those of the elements
/// before it, followed by the steps of `d`.
pub proof fn lemma_elements_script_push(base: usize, ds: Seq<GuestSlice>, d: GuestSlice)
    requires
        ds.len() <= usize::MAX,
    ensures
        elements_script(base, ds.push(d)) == elements_script(base, ds) + element_steps(
            base,
            ds.len() as usize,
            d,
        ),
{
    assert(ds.push(d).drop_last() =~= ds);
}

/// A `begin` leads to a well-formed state.
pub proof fn lemma_list_begin_wf(source: GuestSlice)
    ensures
        ListState::begin(source).0.wf(),
{
    let state = ListState::begin(source).0;
    if source.is_nothing() {
        assert(state.journal =~= ListState::script(source, state.described));
    } else {
        assert(state.journal =~= elements_script(source.ptr, state.described).push(
            Step::Descriptor { base: source.ptr, index: 0 },
        ));
    }
}

/// An `advance` leads from a well-formed state to a well-formed state.
pub proof fn lemma_list_advance_wf(state: ListState, event: EventView)
    requires
        state.wf(),
    ensures
        state.advance(event).0.wf(),
{
    let next = state.advance(event).0;
    let base = state.source.ptr;
    match (state.phase, event) {
        (Phase::AwaitDescriptor, EventView::Descriptor(d)) => {
            if d.is_nothing() {
                lemma_elements_script_push(base, state.described, d);
                assert(next.journal =~= elements_script(base, next.described));
            }
        },
        (Phase::AwaitBytes, EventView::Bytes(bytes)) => {
            if bytes.len() == state.current.len {
                lemma_elements_script_push(base, state.described, state.current);
                assert(next.journal =~= elements_script(base, next.described));
            }
        },
        (Phase::AwaitOuterRelease, EventView::Released) => {
            assert(next.journal =~= ListState::script(state.source, state.described));
        },
        _ => {},
    }
}

/// An array that stands for nothing yields no elements, and nothing is read or
/// released for it: the transfer is over as it begins.
pub proof fn lemma_list_nothing_is_empty(source: GuestSlice)
    requires
        source.is_nothing(),
    ensures
        ListState::begin(source).1 == Step::Finished,
        ListState::begin(source).0.outcome() == Ok::<Seq<Seq<u8>>, ProtocolViolation>(Seq::empty()),
        ListState::begin(source).0.journal == seq![Step::Finished],
{
    assert(ListState::begin(source).0.journal =~= seq![Step::Finished]);
}

/// Whatever a transfer has asked for, it never asked to read what is not
/// there: no bytes from a null pointer, no zero bytes, and no descriptor of an
/// array at a null pointer.
pub proof fn lemma_list_reads_something(state: ListState)
    requires
        state.wf(),
    ensures
        reads_something(state.journal),
{
}

/// An element whose descriptor stands for nothing is empty, and the next step
/// releases it without a read.
pub proof fn lemma_list_nothing_element_is_empty(state: ListState, d: GuestSlice)
    requires
        state.wf(),
        state.phase == Phase::AwaitDescriptor,
        d.is_nothing(),
    ensures
        state.advance(EventView::Descriptor(d)).1 == (Step::Release { ptr: d.ptr }),
        state.advance(EventView::Descriptor(d)).0.items == state.items.push(Seq::empty()),
{
}

/// The elements' script releases one buffer for each element.
pub proof fn lemma_elements_script_releases(base: usize, ds: Seq<GuestSlice>)
    ensures
        count_releases(elements_script(base, ds)) == ds.len(),
    decreases ds.len(),
{
    if ds.len() > 0 {
        let before = elements_script(base, ds.drop_last());
        let steps = element_steps(base, (ds.len() - 1) as usize, ds.last());
        lemma_elements_script_releases(base, ds.drop_last());
        lemma_count_releases_concat(before, steps);
        lemma_element_steps_release_once(base, (ds.len() - 1) as usize, ds.last());
    } else {
        assert(elements_script(base, ds) =~= Seq::<Step>::empty());
    }
}

/// The steps of one element release one buffer, as their last step.
pub proof fn lemma_element_steps_release_once(base: usize, index: usize, d: GuestSlice)
    ensures
        count_releases(element_steps(base, index, d)) == 1,
        element_steps(base, index, d).last() == (Step::Release { ptr: d.ptr }),
{
    let s = element_steps(base, index, d);
    if d.is_nothing() {
        let s1 = s.drop_last();
        assert(s1.drop_last() =~= Seq::<Step>::empty());
        assert(count_releases(s1.drop_last()) == 0);
        assert(count_releases(s1) == 0);
    } else {
        let s2 = s.drop_last();
        let s1 = s2.drop_last();
        assert(s1.drop_last() =~= Seq::<Step>::empty());
        assert(count_releases(s1.drop_last()) == 0);
        assert(count_releases(s1) == 0);
        assert(count_releases(s2) == 0);
    }
}

/// Where the steps of element number `i` start in the elements' script.
pub open spec fn element_offset(base: usize, ds: Seq<GuestSlice>, i: int) -> int {
    elements_script(base, ds.take(i)).len() as int
}

/// The steps of element number `i` stand in the elements' script as one run,
/// which starts where the steps of the elements before it end.
pub proof fn lemma_elements_script_run(base: usize, ds: Seq<GuestSlice>, i: int)
    requires
        0 <= i < ds.len() <= usize::MAX,
    ensures
        element_offset(base, ds, i) + element_steps(base, i as usize, ds[i]).len()
            <= elements_script(base, ds).len(),
        elements_script(base, ds).subrange(
            element_offset(base, ds, i),
            element_offset(base, ds, i) + element_steps(base, i as usize, ds[i]).len(),
        ) == element_steps(base, i as usize, ds[i]),
    decreases ds.len(),
{
    let whole = elements_script(base, ds);
    let before = elements_script(base, ds.drop_last());
    let steps = element_steps(base, i as usize, ds[i]);
    let at = element_offset(base, ds, i);
    if i == ds.len() - 1 {
        assert(ds.take(i) =~= ds.drop_last());
        assert(whole.subrange(at, at + steps.len()) =~= steps);
    } else {
        lemma_elements_script_run(base, ds.drop_last(), i);
        assert(ds.drop_last().take(i) =~= ds.take(i));
        assert(whole.subrange(at, at + steps.len()) =~= before.subrange(at, at + steps.len()));
    }
}

/// In a transfer that came to its end, the steps of element number `i` stand
/// in the journal as one run: its descriptor is read, its bytes are copied if
/// it holds any, and only then its buffer is released.
pub proof fn lemma_list_done_element_run(state: ListState, i: int)
    requires
        state.wf(),
        state.phase == Phase::Done,
        !state.source.is_nothing(),
        0 <= i < state.source.len,
    ensures
        state.described.len() == state.source.len,
        0 <= element_offset(state.source.ptr, state.described, i),
        element_offset(state.source.ptr, state.described, i) + element_steps(
            state.source.ptr,
            i as usize,
            state.described[i],
        ).len() <= state.journal.len() - 2,
        state.journal.subrange(
            element_offset(state.source.ptr, state.described, i),
            element_offset(state.source.ptr, state.described, i) + element_steps(
                state.source.ptr,
                i as usize,
                state.described[i],
            ).len(),
        ) == element_steps(state.source.ptr, i as usize, state.described[i]),
        state.items[i].len() == element_len(state.described[i]),
{
    let base = state.source.ptr;
    let inner = elements_script(base, state.described);
    let at = element_offset(base, state.described, i);
    let steps = element_steps(base, i as usize, state.described[i]);
    lemma_elements_script_run(base, state.described, i);
    assert(state.journal.subrange(at, at + steps.len()) =~= inner.subrange(at, at + steps.len()));
}

/// A transfer of an array of `n` descriptors that came to its end asked for
/// `n` releases of element buffers and one of the array, and for nothing else
/// than its script: each element was read, then copied if it held anything,
/// then released, and the array was released after the last of them.
pub proof fn lemma_list_done_releases(state: ListState)
    requires
        state.wf(),
        state.phase == Phase::Done,
        !state.source.is_nothing(),
    ensures
        state.described.len() == state.source.len,
        state.journal == elements_script(state.source.ptr, state.described) + seq![
            Step::Release { ptr: state.source.ptr },
            Step::Finished,
        ],
        count_releases(state.journal) == state.source.len + 1,
{
    let base = state.source.ptr;
    let inner = elements_script(base, state.described);
    let tail = seq![Step::Release { ptr: base }, Step::Finished];
    lemma_elements_script_releases(base, state.described);
    lemma_count_releases_concat(inner, tail);
    let t1 = tail.drop_last();
    assert(t1.drop_last() =~= Seq::<Step>::empty());
    assert(count_releases(t1.drop_last()) == 0);
    assert(count_releases(t1) == 1);
}

/// The bytes that a transfer yields for an element whose descriptor is `d`
/// and whose buffer holds `bytes`.
pub open spec fn element_bytes(d: GuestSlice, bytes: Seq<u8>) -> Seq<u8> {
    if d.is_nothing() {
        Seq::empty()
    } else {
        bytes
    }
}

/// The state after one whole element: its descriptor `d` was read, its bytes
/// `bytes` were copied if it holds any, and its buffer was released.
pub open spec fn after_element(state: ListState, d: GuestSlice, bytes: Seq<u8>) -> ListState {
    let described = state.advance(EventView::Descriptor(d)).0;
    if d.is_nothing() {
        described.advance(EventView::Released).0
    } else {
        described.advance(EventView::Bytes(bytes)).0.advance(EventView::Released).0
    }
}

/// The state after the elements `ds`, whose buffers hold `buffers`, were taken
/// one after the other.
pub open spec fn after_elements(
    state: ListState,
    ds: Seq<GuestSlice>,
    buffers: Seq<Seq<u8>>,
) -> ListState
    decreases ds.len(),
{
    if ds.len() == 0 {
        state
    } else {
        after_element(
            after_elements(state, ds.drop_last(), buffers.drop_last()),
            ds.last(),
            buffers.last(),
        )
    }
}

/// The state after an array was transferred whose elements are `ds` and whose
/// buffers hold `buffers`: each element was taken in turn, and the array was
/// released.
pub open spec fn transferred(
    source: GuestSlice,
    ds: Seq<GuestSlice>,
    buffers: Seq<Seq<u8>>,
) -> ListState {
    if source.is_nothing() {
        ListState::begin(source).0
    } else {
        after_elements(ListState::begin(source).0, ds, buffers).advance(EventView::Released).0
    }
}

/// Taking the first elements of an array leaves the transfer waiting for the
/// descriptor of the next one, or for the release of the array when there is
/// none.
proof fn lemma_after_elements(source: GuestSlice, ds: Seq<GuestSlice>, buffers: Seq<Seq<u8>>)
    requires
        !source.is_nothing(),
        ds.len() == buffers.len(),
        ds.len() <= source.len,
        forall|i: int| 0 <= i < ds.len() && !ds[i].is_nothing() ==> buffers[i].len() == ds[i].len,
    ensures
        ({
            let state = after_elements(ListState::begin(source).0, ds, buffers);
            &&& state.wf()
            &&& state.source == source
            &&& state.described == ds
            &&& state.items == Seq::new(ds.len(), |i: int| element_bytes(ds[i], buffers[i]))
            &&& state.phase == (if ds.len() < source.len {
                Phase::AwaitDescriptor
            } else {
                Phase::AwaitOuterRelease
            })
        }),
    decreases ds.len(),
{
    let start = ListState::begin(source).0;
    lemma_list_begin_wf(source);
    let state = after_elements(start, ds, buffers);
    let expected = Seq::new(ds.len(), |i: int| element_bytes(ds[i], buffers[i]));
    if ds.len() == 0 {
        assert(state.items =~= expected);
        assert(state.described =~= ds);
    } else {
        let d = ds.last();
        let bytes = buffers.last();
        let before = after_elements(start, ds.drop_last(), buffers.drop_last());
        lemma_after_elements(source, ds.drop_last(), buffers.drop_last());
        let described = before.advance(EventView::Descriptor(d)).0;
        lemma_list_advance_wf(before, EventView::Descriptor(d));
        if d.is_nothing() {
            lemma_list_advance_wf(described, EventView::Released);
        } else {
            let copied = described.advance(EventView::Bytes(bytes)).0;
            lemma_list_advance_wf(described, EventView::Bytes(bytes));
            lemma_list_advance_wf(copied, EventView::Released);
        }
        assert(state.described =~= ds);
        assert(state.items =~= expected);
    }
}

/// A transfer that is given what the memory holds yields what the memory
/// holds: driven through an array whose descriptors are `ds` and whose buffers
/// hold `buffers`, it ends with the bytes of each element in the order of the
/// array, empty where the descriptor stands for nothing, and it has asked for
/// exactly the steps of its script.
pub proof fn lemma_list_transfer_yields(
    source: GuestSlice,
    ds: Seq<GuestSlice>,
    buffers: Seq<Seq<u8>>,
)
    requires
        ds.len() == buffers.len(),
        !source.is_nothing() ==> ds.len() == source.len,
        source.is_nothing() ==> ds.len() == 0,
        forall|i: int| 0 <= i < ds.len() && !ds[i].is_nothing() ==> buffers[i].len() == ds[i].len,
    ensures
        transferred(source, ds, buffers).wf(),
        transferred(source, ds, buffers).phase == Phase::Done,
        transferred(source, ds, buffers).outcome() == Ok::<Seq<Seq<u8>>, ProtocolViolation>(
            Seq::new(ds.len(), |i: int| element_bytes(ds[i], buffers[i])),
        ),
        transferred(source, ds, buffers).journal == ListState::script(source, ds),
{
    let expected = Seq::new(ds.len(), |i: int| element_bytes(ds[i], buffers[i]));
    lemma_list_begin_wf(source);
    if source.is_nothing() {
        assert(ListState::begin(source).0.items =~= expected);
        assert(ListState::begin(source).0.described =~= ds);
    } else {
        lemma_after_elements(source, ds, buffers);
        let taken = after_elements(ListState::begin(source).0, ds, buffers);
        lemma_list_advance_wf(taken, EventView::Released);
    }
}

/// Moves the buffers behind an array of descriptors out of memory that the
/// host filled.
pub struct ListTransfer {
    source: GuestSlice,
    phase: Phase,
    current: GuestSlice,
    items: Vec<Vec<u8>>,
    described: Ghost<Seq<GuestSlice>>,
    journal: Ghost<Seq<Step>>,
}

impl View for ListTransfer {
    type V = ListState;

    closed spec fn view(&self) -> ListState {
        ListState {
            source: self.source,
            phase: self.phase,
            current: self.current,
            items: contents(self.items@),
            described: self.described@,
            journal: self.journal@,
        }
    }
}

impl ListTransfer {
    /// Starts on the array that the host handed over: `source` holds its
    /// address and the number of its descriptors. Of one that stands for
    /// nothing, the result is empty at once.
    pub fn begin(source: GuestSlice) -> (started: (ListTransfer, Step))
        ensures
            (started.0@, started.1) == ListState::begin(source),
            started.0@.wf(),
    {
        proof {
            lemma_list_begin_wf(source);
        }
        let (phase, step) = if source.holds_nothing() {
            (Phase::Done, Step::Finished)
        } else {
            (Phase::AwaitDescriptor, Step::Descriptor { base: source.ptr, index: 0 })
        };
        let transfer = ListTransfer {
            source,
            phase,
            current: source,
            items: Vec::new(),
            described: Ghost(Seq::empty()),
            journal: Ghost(Seq::<Step>::empty().push(step)),
        };
        assert(contents(transfer.items@) =~= Seq::<Seq<u8>>::empty());
        (transfer, step)
    }

    /// Adds an element and asks for the release of its buffer.
    fn take(&mut self, d: GuestSlice, bytes: Vec<u8>) -> (step: Step)
        ensures
            (final(self)@, step) == old(self)@.take(d, bytes@),
    {
        let step = Step::Release { ptr: d.ptr };
        self.items.push(bytes);
        self.described = Ghost(self.described@.push(d));
        self.phase = Phase::AwaitRelease;
        self.journal = Ghost(self.journal@.push(step));
        assert(contents(self.items@) =~= contents(old(self).items@).push(bytes@));
        step
    }

    /// Takes the answer to the step that was asked for last, and asks for the next.
    pub fn advance(&mut self, event: Event) -> (step: Step)
        ensures
            (final(self)@, step) == old(self)@.advance(event@),
            old(self)@.wf() ==> final(self)@.wf(),
    {
        proof {
            if self@.wf() {
                lemma_list_advance_wf(self@, event@);
            }
        }
        match (self.phase, event) {
            (Phase::AwaitDescriptor, Event::Descriptor(d)) => {
                if d.holds_nothing() {
                    self.take(d, Vec::new())
                } else {
                    self.current = d;
                    self.ask(Phase::AwaitBytes, Step::Copy { ptr: d.ptr, len: d.len })
                }
            },
            (Phase::AwaitBytes, Event::Bytes(bytes)) if bytes.len() == self.current.len => {
                let d = self.current;
                self.take(d, bytes)
            },
            (Phase::AwaitRelease, Event::Released) => {
                let index = self.items.len();
                if index < self.source.len {
                    self.ask(
                        Phase::AwaitDescriptor,
                        Step::Descriptor { base: self.source.ptr, index },
                    )
                } else {
                    self.ask(Phase::AwaitOuterRelease, Step::Release { ptr: self.source.ptr })
                }
            },
            (Phase::AwaitOuterRelease, Event::Released) => self.ask(Phase::Done, Step::Finished),
            _ => self.ask(
                Phase::Failed(ProtocolViolation::OutOfTurn),
                Step::Abort(ProtocolViolation::OutOfTurn),
            ),
        }
    }

    /// Enters `phase` and asks for `step`.
    fn ask(&mut self, phase: Phase, step: Step) -> (asked: Step)
        ensures
            (final(self)@, asked) == old(self)@.ask(phase, step),
    {
        self.phase = phase;
        self.journal = Ghost(self.journal@.push(step));
        step
    }

    /// The bytes of each element, in the order of the array, once the transfer
    /// is done. Asked earlier, or after it failed, says why there are none.
    pub fn finish(self) -> (result: Result<Vec<Vec<u8>>, ProtocolViolation>)
        ensures
            match self@.outcome() {
                Ok(items) => result matches Ok(v) && contents(v@) == items,
                Err(violation) => result == Err::<Vec<Vec<u8>>, ProtocolViolation>(violation),
            },
    {
        match self.phase {
            Phase::Done => Ok(self.items),
            Phase::Failed(violation) => Err(violation),
            _ => Err(ProtocolViolation::OutOfTurn),
        }
    }
}

} // verus!
