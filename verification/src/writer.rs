//! Putting a request before the host, one write at a time.
//!
//! The host is asked for a new request, then told each header, then the body.
//! Each answer decides whether the next write is made. A header whose values
//! are no visible text is found when its turn comes, after the headers before
//! it were written.

use vstd::prelude::*;
use vstd::slice::slice_to_vec;
use crate::client::SendError;
use crate::hostcalls::list::contents;
use crate::hostcalls::types::{HostcallStatus, ProtocolViolation, RequestHandle};
use crate::message::{texts_of, to_strs, visible_texts, RequestParts};

verus! {

/// One write to a request or a response that the host holds.
#[derive(Debug, PartialEq, Eq)]
pub enum Write {
    /// Set the header `name` to `values`.
    Header { name: String, values: Vec<String> },
    /// Set the body.
    Body(Vec<u8>),
    /// Set the status code.
    ResponseCode(u16),
}

/// A [`Write`] as contracts see it.
pub enum WriteView {
    Header { name: Seq<char>, values: Seq<Seq<char>> },
    Body(Seq<u8>),
    ResponseCode(u16),
}

impl View for Write {
    type V = WriteView;

    open spec fn view(&self) -> WriteView {
        match *self {
            Write::Header { name, values } => WriteView::Header {
                name: name@,
                values: texts_of(values@),
            },
            Write::Body(body) => WriteView::Body(body@),
            Write::ResponseCode(code) => WriteView::ResponseCode(code),
        }
    }
}

/// What a [`RequestWriter`] asks for next.
#[derive(Debug, PartialEq, Eq)]
pub enum WriteStep {
    /// Ask the host for a new request.
    Create { method: String, uri: String },
    /// Make `write` to the request whose raw handle is `req`.
    Apply { req: i32, write: Write },
    /// The request is ready to be sent.
    Ready(RequestHandle),
    /// The request cannot be sent.
    Failed(SendError),
    /// The writer was told something that it had not asked for.
    Abort(ProtocolViolation),
}

/// A [`WriteStep`] as contracts see it.
pub enum WriteStepView {
    Create { method: Seq<char>, uri: Seq<char> },
    Apply { req: i32, write: WriteView },
    Ready(RequestHandle),
    Failed(SendError),
    Abort(ProtocolViolation),
}

impl View for WriteStep {
    type V = WriteStepView;

    open spec fn view(&self) -> WriteStepView {
        match *self {
            WriteStep::Create { method, uri } => WriteStepView::Create {
                method: method@,
                uri: uri@,
            },
            WriteStep::Apply { req, write } => WriteStepView::Apply { req, write: write@ },
            WriteStep::Ready(req) => WriteStepView::Ready(req),
            WriteStep::Failed(error) => WriteStepView::Failed(error),
            WriteStep::Abort(violation) => WriteStepView::Abort(violation),
        }
    }
}

/// The host's answer to a [`WriteStep`].
#[derive(Debug, Clone, Copy, PartialEq, Eq)]
pub enum WriteEvent {
    /// The raw handle that the host returned for the new request.
    Created(i32),
    /// The status that the host returned for a write.
    Status(HostcallStatus),
}

/// Where a [`RequestWriter`] stands.
#[derive(Debug, Clone, Copy, PartialEq, Eq, Structural)]
pub enum WritePhase {
    /// A new request was asked for.
    Creating,
    /// The header of this number was written.
    Header(usize),
    /// The body was written.
    Body,
    /// The request was handed out, ready to be sent.
    Ready,
    /// The request was given up.
    Failed(SendError),
    /// The writer was told something that it had not asked for.
    Aborted(ProtocolViolation),
}

/// Whether every value of each of the first `count` headers of `request` is
/// visible text.
pub open spec fn headers_are_text(request: RequestParts, count: int) -> bool {
    forall|i: int|
        0 <= i < count && i < request.headers@.len() ==> visible_texts(
            contents((#[trigger] request.headers@[i]).values@),
        ) is Some
}

/// Whether every value of every header of `request` is visible text.
pub open spec fn is_text(request: RequestParts) -> bool {
    headers_are_text(request, request.headers@.len() as int)
}

/// The state of a [`RequestWriter`] as contracts see it.
pub struct WriterState {
    pub request: RequestParts,
    pub phase: WritePhase,
    /// The raw handle of the request, once the host has made it.
    pub handle: i32,
}

impl WriterState {
    /// The state in which the request cannot be sent because of `error`.
    pub open spec fn fail(self, error: SendError) -> (WriterState, WriteStepView) {
        (WriterState { phase: WritePhase::Failed(error), ..self }, WriteStepView::Failed(error))
    }

    /// The write that comes when the headers before number `index` are
    /// written: header number `index` if there is one and its values are
    /// visible text, the body if there is none.
    pub open spec fn write_from(self, index: int) -> (WriterState, WriteStepView) {
        if 0 <= index < self.request.headers@.len() {
            let header = self.request.headers@[index];
            match visible_texts(contents(header.values@)) {
                Some(values) => (
                    WriterState { phase: WritePhase::Header(index as usize), ..self },
                    WriteStepView::Apply {
                        req: self.handle,
                        write: WriteView::Header { name: header.name@, values },
                    },
                ),
                None => self.fail(SendError::HeaderToStr),
            }
        } else {
            (
                WriterState { phase: WritePhase::Body, ..self },
                WriteStepView::Apply {
                    req: self.handle,
                    write: WriteView::Body(self.request.body@),
                },
            )
        }
    }

    /// The state in which `request` is about to be written, and the first step.
    pub open spec fn begin(request: RequestParts) -> (WriterState, WriteStepView) {
        (
            WriterState { request, phase: WritePhase::Creating, handle: RequestHandle::ERROR },
            WriteStepView::Create { method: request.method@, uri: request.uri@ },
        )
    }

    /// The state after `event`, and the step that follows it.
    pub open spec fn advance(self, event: WriteEvent) -> (WriterState, WriteStepView) {
        match (self.phase, event) {
            (WritePhase::Creating, WriteEvent::Created(reply)) => {
                if reply == RequestHandle::ERROR {
                    self.fail(SendError::Hostcall)
                } else {
                    WriterState { handle: reply, ..self }.write_from(0)
                }
            },
            (WritePhase::Header(index), WriteEvent::Status(HostcallStatus::Okay)) => {
                self.write_from(index + 1)
            },
            (WritePhase::Body, WriteEvent::Status(HostcallStatus::Okay)) => (
                WriterState { phase: WritePhase::Ready, ..self },
                WriteStepView::Ready(RequestHandle(self.handle)),
            ),
            (WritePhase::Header(_), WriteEvent::Status(HostcallStatus::Invalid)) => self.fail(
                SendError::Hostcall,
            ),
            (WritePhase::Body, WriteEvent::Status(HostcallStatus::Invalid)) => self.fail(
                SendError::Hostcall,
            ),
            _ => (
                WriterState { phase: WritePhase::Aborted(ProtocolViolation::OutOfTurn), ..self },
                WriteStepView::Abort(ProtocolViolation::OutOfTurn),
            ),
        }
    }

    /// What holds of every state that `begin` and `advance` lead to: there is
    /// a handle once the host made the request, and every header that was
    /// written is visible text.
    pub open spec fn wf(self) -> bool {
        match self.phase {
            WritePhase::Creating => self.handle == RequestHandle::ERROR,
            WritePhase::Header(index) => {
                &&& index < self.request.headers@.len()
                &&& self.handle != RequestHandle::ERROR
                &&& headers_are_text(self.request, index + 1)
            },
            WritePhase::Body | WritePhase::Ready => {
                &&& self.handle != RequestHandle::ERROR
                &&& is_text(self.request)
            },
            _ => true,
        }
    }
}

/// An `advance` leads from a well-formed state to a well-formed state.
pub proof fn lemma_writer_advance_wf(state: WriterState, event: WriteEvent)
    requires
        state.wf(),
    ensures
        state.advance(event).0.wf(),
{
    let next = state.advance(event).0;
    match next.phase {
        WritePhase::Header(index) => {
            assert forall|i: int| 0 <= i < index + 1 && i < state.request.headers@.len() implies
                visible_texts(contents((#[trigger] state.request.headers@[i]).values@)) is Some by {
                if i < index {
                    assert(headers_are_text(state.request, index as int));
                }
            }
        },
        _ => {},
    }
}

/// The request is ready only when the host has accepted the body, and the
/// handle that is handed out is the one that the host made, never the value
/// that stands for a failure.
pub proof fn lemma_ready_follows_body(state: WriterState, event: WriteEvent)
    requires
        state.wf(),
        state.advance(event).1 is Ready,
    ensures
        state.phase == WritePhase::Body,
        event == WriteEvent::Status(HostcallStatus::Okay),
        state.advance(event).1 == WriteStepView::Ready(RequestHandle(state.handle)),
        !RequestHandle(state.handle).is_error_spec(),
{
}

/// No request is ready, and no body is written, while a header value is not
/// visible text.
pub proof fn lemma_ready_request_is_text(state: WriterState)
    requires
        state.wf(),
        state.phase == WritePhase::Body || state.phase == WritePhase::Ready,
    ensures
        is_text(state.request),
{
}

/// The state after the host made the request `handle` and accepted the first
/// `count` writes.
pub open spec fn after_writes(request: RequestParts, handle: i32, count: nat) -> (
    WriterState,
    WriteStepView,
)
    decreases count,
{
    if count == 0 {
        WriterState::begin(request).0.advance(WriteEvent::Created(handle))
    } else {
        after_writes(request, handle, (count - 1) as nat).0.advance(
            WriteEvent::Status(HostcallStatus::Okay),
        )
    }
}


/// A request whose header values are all visible text, put before a host
/// that accepts every write, is written in order: after `count` writes were
/// accepted the next one sets header number `count`, after the last header
/// it sets the body, and after the body the request is ready under the handle
/// that the host gave.
pub proof fn lemma_writes_in_order(request: RequestParts, handle: i32, count: nat)
    requires
        is_text(request),
        handle != RequestHandle::ERROR,
        count <= request.headers@.len() + 1,
    ensures
        after_writes(request, handle, count).0.wf(),
        after_writes(request, handle, count).0.request == request,
        after_writes(request, handle, count).0.handle == handle,
        after_writes(request, handle, count).0.phase == (if count < request.headers@.len() {
            WritePhase::Header(count as usize)
        } else if count == request.headers@.len() {
            WritePhase::Body
        } else {
            WritePhase::Ready
        }),
        count < request.headers@.len() ==> after_writes(request, handle, count).1
            == (WriteStepView::Apply {
            req: handle,
            write: WriteView::Header {
                name: request.headers@[count as int].name@,
                values: visible_texts(contents(request.headers@[count as int].values@)).unwrap(),
            },
        }),
        count == request.headers@.len() ==> after_writes(request, handle, count).1
            == (WriteStepView::Apply { req: handle, write: WriteView::Body(request.body@) }),
        count == request.headers@.len() + 1 ==> after_writes(request, handle, count).1
            == WriteStepView::Ready(RequestHandle(handle)),
    decreases count,
{
    assert(request.headers.len() == request.headers@.len());
    if count > 0 {
        lemma_writes_in_order(request, handle, (count - 1) as nat);
    }
    if count < request.headers@.len() {
        assert(visible_texts(contents(request.headers@[count as int].values@)) is Some);
    }
}

/// Writes a request to the host, step by step.
pub struct RequestWriter {
    request: RequestParts,
    phase: WritePhase,
    handle: i32,
}

impl View for RequestWriter {
    type V = WriterState;

    closed spec fn view(&self) -> WriterState {
        WriterState { request: self.request, phase: self.phase, handle: self.handle }
    }
}

impl RequestWriter {
    /// Starts on `request`: the first step asks the host for a new request
    /// with its method and its URI.
    pub fn begin(request: RequestParts) -> (started: (RequestWriter, WriteStep))
        ensures
            (started.0@, started.1@) == WriterState::begin(request),
            started.0@.wf(),
    {
        let step = WriteStep::Create { method: request.method.clone(), uri: request.uri.clone() };
        (RequestWriter { request, phase: WritePhase::Creating, handle: RequestHandle::ERROR }, step)
    }

    /// Gives the request up because of `error`.
    fn fail(&mut self, error: SendError) -> (step: WriteStep)
        ensures
            (final(self)@, step@) == old(self)@.fail(error),
    {
        self.phase = WritePhase::Failed(error);
        WriteStep::Failed(error)
    }

    /// Asks for the write that comes when the headers before number `index`
    /// are written.
    fn write_from(&mut self, index: usize) -> (step: WriteStep)
        ensures
            (final(self)@, step@) == old(self)@.write_from(index as int),
    {
        if index < self.request.headers.len() {
            let header = &self.request.headers[index];
            match to_strs(&header.values) {
                Some(values) => {
                    let name = header.name.clone();
                    self.phase = WritePhase::Header(index);
                    WriteStep::Apply { req: self.handle, write: Write::Header { name, values } }
                },
                None => self.fail(SendError::HeaderToStr),
            }
        } else {
            let body = slice_to_vec(self.request.body.as_slice());
            self.phase = WritePhase::Body;
            WriteStep::Apply { req: self.handle, write: Write::Body(body) }
        }
    }

    /// Takes the host's answer to the step that was asked for last, and asks
    /// for the next.
    pub fn advance(&mut self, event: WriteEvent) -> (step: WriteStep)
        ensures
            (final(self)@, step@) == old(self)@.advance(event),
            old(self)@.wf() ==> final(self)@.wf(),
    {
        proof {
            if self@.wf() {
                lemma_writer_advance_wf(self@, event);
            }
        }
        match (self.phase, event) {
            (WritePhase::Creating, WriteEvent::Created(reply)) => {
                if reply == RequestHandle::ERROR {
                    self.fail(SendError::Hostcall)
                } else {
                    self.handle = reply;
                    self.write_from(0)
                }
            },
            (WritePhase::Header(index), WriteEvent::Status(HostcallStatus::Okay)) => {
                let count = self.request.headers.len();
                let next = if index < count {
                    index + 1
                } else {
                    count
                };
                self.write_from(next)
            },
            (WritePhase::Body, WriteEvent::Status(HostcallStatus::Okay)) => {
                self.phase = WritePhase::Ready;
                WriteStep::Ready(RequestHandle::from(self.handle))
            },
            (WritePhase::Header(_), WriteEvent::Status(HostcallStatus::Invalid)) => self.fail(
                SendError::Hostcall,
            ),
            (WritePhase::Body, WriteEvent::Status(HostcallStatus::Invalid)) => self.fail(
                SendError::Hostcall,
            ),
            _ => {
                self.phase = WritePhase::Aborted(ProtocolViolation::OutOfTurn);
                WriteStep::Abort(ProtocolViolation::OutOfTurn)
            },
        }
    }
}

} // verus!
