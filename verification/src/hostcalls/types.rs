//! The values that cross the boundary: status bytes, buffer descriptors and handles.
//!
//! A handle is a typed integer. Whatever it names lives in the host; the guest
//! only compares it with the values reserved for its kind.

use vstd::prelude::*;
use vstd::std_specs::convert::FromSpecImpl;

verus! {

/// Status byte that the host returns from a write accessor.
#[derive(Debug, Clone, Copy, PartialEq, Eq, Structural)]
pub enum HostcallStatus {
    Okay,
    Invalid,
}

impl HostcallStatus {
    /// Decodes a status byte: `0` is `Okay`, `1` is `Invalid`, anything else is no status.
    pub fn try_from_u8(v: u8) -> (status: Option<HostcallStatus>)
        ensures
            status == (if v == 0 {
                Some(HostcallStatus::Okay)
            } else if v == 1 {
                Some(HostcallStatus::Invalid)
            } else {
                None
            }),
    {
        if v == 0 {
            Some(HostcallStatus::Okay)
        } else if v == 1 {
            Some(HostcallStatus::Invalid)
        } else {
            None
        }
    }
}

/// Data from the host that cannot be valid under the protocol. None of these is
/// an ordinary failure: the guest and the host disagree about the boundary, and
/// the invocation cannot go on.
#[derive(Debug, Clone, Copy, PartialEq, Eq, Structural)]
pub enum ProtocolViolation {
    /// A descriptor's byte length is no multiple of its element size.
    MisalignedLength,
    /// A status code that does not fit in 16 bits.
    ResponseCodeOutOfRange,
    /// The blocking multi-wait reported that nothing was ready.
    SelectNotReady,
    /// An address record that is neither 4 nor 16 bytes long.
    AddressLength,
    /// A transfer was fed something it had not asked for, or asked for its
    /// result before it had finished.
    OutOfTurn,
}

/// A pointer into guest memory and a byte length. The pointer is kept as the
/// address it holds; zero is the null pointer.
#[derive(Debug, Clone, Copy, PartialEq, Eq, Structural)]
pub struct GuestSlice {
    pub ptr: usize,
    pub len: usize,
}

impl GuestSlice {
    /// The descriptor of `len` bytes at the address `ptr`.
    pub fn new(ptr: usize, len: usize) -> (slice: GuestSlice)
        ensures
            slice == (GuestSlice { ptr, len }),
    {
        GuestSlice { ptr, len }
    }

    /// The address the descriptor points to.
    pub fn raw(&self) -> (ptr: usize)
        ensures
            ptr == self.ptr,
    {
        self.ptr
    }

    /// Whether the descriptor stands for no data: a null pointer and a zero
    /// length both do, and neither may be dereferenced.
    pub open spec fn is_nothing(self) -> bool {
        self.ptr == 0 || self.len == 0
    }

    /// Executable form of [`GuestSlice::is_nothing`]. The length is looked at first.
    pub fn holds_nothing(&self) -> (b: bool)
        ensures
            b == self.is_nothing(),
    {
        self.len == 0 || self.ptr == 0
    }

    /// How many elements of `elem_size` bytes the descriptor covers.
    pub open spec fn spec_element_count(self, elem_size: usize) -> Result<usize, ProtocolViolation>
        recommends
            elem_size > 0,
    {
        if self.len as int % elem_size as int == 0 {
            Ok((self.len as int / elem_size as int) as usize)
        } else {
            Err(ProtocolViolation::MisalignedLength)
        }
    }

    /// Counts the elements of `elem_size` bytes each. A length that is no whole
    /// number of elements is a violation.
    pub fn element_count(&self, elem_size: usize) -> (count: Result<usize, ProtocolViolation>)
        requires
            elem_size > 0,
        ensures
            count == self.spec_element_count(elem_size),
    {
        if self.len % elem_size != 0 {
            Err(ProtocolViolation::MisalignedLength)
        } else {
            Ok(self.len / elem_size)
        }
    }
}

/// Names a request held by the host. A request that was created is written
/// to until it is sent; the incoming one is only read.
#[derive(Debug, PartialEq, Eq, Hash, Structural)]
pub struct RequestHandle(pub i32);

impl From<i32> for RequestHandle {
    fn from(i: i32) -> (h: RequestHandle) {
        RequestHandle(i)
    }
}

impl FromSpecImpl<i32> for RequestHandle {
    open spec fn obeys_from_spec() -> bool {
        true
    }

    open spec fn from_spec(i: i32) -> RequestHandle {
        RequestHandle(i)
    }
}

impl From<RequestHandle> for i32 {
    fn from(req: RequestHandle) -> (i: i32) {
        req.0
    }
}

impl FromSpecImpl<RequestHandle> for i32 {
    open spec fn obeys_from_spec() -> bool {
        true
    }

    open spec fn from_spec(req: RequestHandle) -> i32 {
        req.0
    }
}

impl<'a> From<&'a RequestHandle> for i32 {
    fn from(req: &'a RequestHandle) -> (i: i32) {
        req.0
    }
}

impl<'a> FromSpecImpl<&'a RequestHandle> for i32 {
    open spec fn obeys_from_spec() -> bool {
        true
    }

    open spec fn from_spec(req: &'a RequestHandle) -> i32 {
        req.0
    }
}

impl<'a> From<&'a mut RequestHandle> for i32 {
    fn from(req: &'a mut RequestHandle) -> (i: i32) {
        req.0
    }
}

impl<'a> FromSpecImpl<&'a mut RequestHandle> for i32 {
    open spec fn obeys_from_spec() -> bool {
        true
    }

    open spec fn from_spec(req: &'a mut RequestHandle) -> i32 {
        req.0
    }
}

impl RequestHandle {
    /// Raw value of the request that came in to the handler.
    pub const INCOMING: i32 = 0;

    /// Raw value that the host returns in place of a request that it could not make.
    pub const ERROR: i32 = -1;

    /// The request that came in to the handler.
    pub fn incoming() -> (h: RequestHandle)
        ensures
            h.0 == RequestHandle::INCOMING,
    {
        RequestHandle(RequestHandle::INCOMING)
    }

    /// Whether this is the value that the host returns for a failure.
    pub open spec fn is_error_spec(&self) -> bool {
        self.0 == RequestHandle::ERROR
    }

    /// Whether this is the value that the host returns in place of a request.
    #[verifier::when_used_as_spec(is_error_spec)]
    pub fn is_error(&self) -> (b: bool)
        ensures
            b == (self.0 == RequestHandle::ERROR),
    {
        self.0 == RequestHandle::ERROR
    }
}

/// Names a response held by the host. A response that came back from a
/// request is only read; the outgoing one is only written to.
#[derive(Debug, PartialEq, Eq, Hash, Structural)]
pub struct ResponseHandle(pub i32);

impl From<i32> for ResponseHandle {
    fn from(i: i32) -> (h: ResponseHandle) {
        ResponseHandle(i)
    }
}

impl FromSpecImpl<i32> for ResponseHandle {
    open spec fn obeys_from_spec() -> bool {
        true
    }

    open spec fn from_spec(i: i32) -> ResponseHandle {
        ResponseHandle(i)
    }
}

impl From<ResponseHandle> for i32 {
    fn from(resp: ResponseHandle) -> (i: i32) {
        resp.0
    }
}

impl FromSpecImpl<ResponseHandle> for i32 {
    open spec fn obeys_from_spec() -> bool {
        true
    }

    open spec fn from_spec(resp: ResponseHandle) -> i32 {
        resp.0
    }
}

impl<'a> From<&'a ResponseHandle> for i32 {
    fn from(resp: &'a ResponseHandle) -> (i: i32) {
        resp.0
    }
}

impl<'a> FromSpecImpl<&'a ResponseHandle> for i32 {
    open spec fn obeys_from_spec() -> bool {
        true
    }

    open spec fn from_spec(resp: &'a ResponseHandle) -> i32 {
        resp.0
    }
}

impl<'a> From<&'a mut ResponseHandle> for i32 {
    fn from(resp: &'a mut ResponseHandle) -> (i: i32) {
        resp.0
    }
}

impl<'a> FromSpecImpl<&'a mut ResponseHandle> for i32 {
    open spec fn obeys_from_spec() -> bool {
        true
    }

    open spec fn from_spec(resp: &'a mut ResponseHandle) -> i32 {
        resp.0
    }
}

impl ResponseHandle {
    /// Raw value of the response that the handler sends back.
    pub const OUTGOING: i32 = 0;

    /// Raw value that the host returns in place of a response when the request failed.
    pub const ERROR: i32 = -1;

    /// Raw value that the host returns from a poll while the request is still in flight.
    pub const NOT_READY: i32 = -2;

    /// The response that the handler sends back.
    pub fn outgoing() -> (h: ResponseHandle)
        ensures
            h.0 == ResponseHandle::OUTGOING,
    {
        ResponseHandle(ResponseHandle::OUTGOING)
    }

    /// Whether this is the value that the host returns in place of a response.
    pub fn is_error(&self) -> (b: bool)
        ensures
            b == (self.0 == ResponseHandle::ERROR),
    {
        self.0 == ResponseHandle::ERROR
    }

    /// Whether this is the value that a poll returns while the request is in flight.
    pub fn is_not_ready(&self) -> (b: bool)
        ensures
            b == (self.0 == ResponseHandle::NOT_READY),
    {
        self.0 == ResponseHandle::NOT_READY
    }
}

/// Names a request in flight. It is used up by the operation that learns how the request ended.
#[derive(Debug, PartialEq, Eq, Hash, Structural)]
pub struct PendingRequestHandle(pub i32);

impl From<i32> for PendingRequestHandle {
    fn from(i: i32) -> (h: PendingRequestHandle) {
        PendingRequestHandle(i)
    }
}

impl FromSpecImpl<i32> for PendingRequestHandle {
    open spec fn obeys_from_spec() -> bool {
        true
    }

    open spec fn from_spec(i: i32) -> PendingRequestHandle {
        PendingRequestHandle(i)
    }
}

impl From<PendingRequestHandle> for i32 {
    fn from(pending: PendingRequestHandle) -> (i: i32) {
        pending.0
    }
}

impl FromSpecImpl<PendingRequestHandle> for i32 {
    open spec fn obeys_from_spec() -> bool {
        true
    }

    open spec fn from_spec(pending: PendingRequestHandle) -> i32 {
        pending.0
    }
}

impl<'a> From<&'a PendingRequestHandle> for i32 {
    fn from(pending: &'a PendingRequestHandle) -> (i: i32) {
        pending.0
    }
}

impl<'a> FromSpecImpl<&'a PendingRequestHandle> for i32 {
    open spec fn obeys_from_spec() -> bool {
        true
    }

    open spec fn from_spec(pending: &'a PendingRequestHandle) -> i32 {
        pending.0
    }
}

impl<'a> From<&'a mut PendingRequestHandle> for i32 {
    fn from(pending: &'a mut PendingRequestHandle) -> (i: i32) {
        pending.0
    }
}

impl<'a> FromSpecImpl<&'a mut PendingRequestHandle> for i32 {
    open spec fn obeys_from_spec() -> bool {
        true
    }

    open spec fn from_spec(pending: &'a mut PendingRequestHandle) -> i32 {
        pending.0
    }
}

impl PendingRequestHandle {
    /// Raw value that the host returns in place of a pending request that it could not start.
    pub const ERROR: i32 = -1;

    /// Whether this is the value that the host returns in place of a request in flight.
    pub fn is_error(&self) -> (b: bool)
        ensures
            b == (self.0 == PendingRequestHandle::ERROR),
    {
        self.0 == PendingRequestHandle::ERROR
    }
}

/// What one poll of a request in flight found.
#[derive(Debug, PartialEq, Eq, Structural)]
pub enum PollResult {
    /// Still in flight; the handle inside can be polled again.
    NotReady(PendingRequestHandle),
    Response(ResponseHandle),
    Error,
}

} // verus!
