//! The hostcall protocol: what the guest makes of the values the host returns.
//!
//! Nothing here calls the host. Each operation takes what the host answered
//! and says what that answer means: a handle or a failure, a status code, or a
//! transfer of the memory that the answer points to.

pub mod buffer;
pub mod list;
pub mod types;

pub use crate::hostcalls::buffer::{ByteTransfer, Event, Phase, Step};
pub use crate::hostcalls::list::ListTransfer;
pub use crate::hostcalls::types::{
    GuestSlice, HostcallStatus, PendingRequestHandle, PollResult, ProtocolViolation, RequestHandle,
    ResponseHandle,
};

use crate::hostcalls::buffer::ByteState;
use crate::hostcalls::list::ListState;
use vstd::prelude::*;
use vstd::string::StringSliceAdditionalSpecFns;
use vstd::utf8::{decode_utf8, valid_utf8};

verus! {

/// The text that `String::from_utf8_lossy` makes of `bytes`.
pub uninterp spec fn utf8_lossy(bytes: Seq<u8>) -> Seq<char>;

/// Calls `String::from_utf8_lossy`, and owns what it returns. The text is a
/// function of the bytes; of bytes that are valid UTF-8 it is what they
/// encode, and nothing is replaced.
#[verifier::external_body]
fn from_utf8_lossy(bytes: &[u8]) -> (text: String)
    ensures
        text@ == utf8_lossy(bytes@),
        valid_utf8(bytes@) ==> text@ == decode_utf8(bytes@),
{
    String::from_utf8_lossy(bytes).into_owned()
}

/// The text of a method or a path that was copied out of guest memory. What is
/// no valid UTF-8 in it is replaced, not refused.
pub fn text(bytes: &Vec<u8>) -> (text: String)
    ensures
        text@ == utf8_lossy(bytes@),
        valid_utf8(bytes@) ==> text@ == decode_utf8(bytes@),
{
    from_utf8_lossy(bytes.as_slice())
}

/// The texts of header names or header values that were copied out of guest
/// memory, in their order.
pub fn texts(items: &Vec<Vec<u8>>) -> (texts: Vec<String>)
    ensures
        texts@.len() == items@.len(),
        forall|i: int| 0 <= i < items@.len() ==> (#[trigger] texts@[i])@ == utf8_lossy(items@[i]@),
        forall|i: int|
            0 <= i < items@.len() && valid_utf8(items@[i]@) ==> (#[trigger] texts@[i])@
                == decode_utf8(items@[i]@),
{
    let mut texts: Vec<String> = Vec::new();
    let mut i: usize = 0;
    while i < items.len()
        invariant
            i <= items@.len(),
            texts@.len() == i,
            forall|k: int| 0 <= k < i ==> (#[trigger] texts@[k])@ == utf8_lossy(items@[k]@),
            forall|k: int|
                0 <= k < i && valid_utf8(items@[k]@) ==> (#[trigger] texts@[k])@ == decode_utf8(
                    items@[k]@,
                ),
        decreases items@.len() - i,
    {
        texts.push(text(&items[i]));
        i += 1;
    }
    texts
}

/// The descriptors of `values`, each given with the address at which it lies:
/// one for each value, in order, with that address and the number of its bytes.
pub open spec fn descriptors_of(values: Seq<(usize, &str)>) -> Seq<GuestSlice> {
    values.map_values(
        |value: (usize, &str)|
            GuestSlice { ptr: value.0, len: value.1.spec_bytes().len() as usize },
    )
}

/// Describes the values of a header to the host: one descriptor for each
/// value, in order. Each value comes with the address at which it lies.
pub fn describe(values: &[(usize, &str)]) -> (descriptors: Vec<GuestSlice>)
    ensures
        descriptors@ == descriptors_of(values@),
{
    let mut descriptors: Vec<GuestSlice> = Vec::new();
    let mut i: usize = 0;
    while i < values.len()
        invariant
            i <= values@.len(),
            descriptors@ == descriptors_of(values@.take(i as int)),
        decreases values@.len() - i,
    {
        let (address, value) = values[i];
        descriptors.push(GuestSlice::new(address, value.as_bytes().len()));
        assert(values@.take(i + 1) =~= values@.take(i as int).push(values@[i as int]));
        assert(descriptors@ =~= descriptors_of(values@.take(i + 1)));
        i += 1;
    }
    assert(values@.take(values@.len() as int) =~= values@);
    descriptors
}

impl RequestHandle {
    /// What the host's answer to the creation of a request means: the request,
    /// unless the host refused the method or the URL.
    pub fn create(reply: i32) -> (req: Option<RequestHandle>)
        ensures
            req == (if reply == RequestHandle::ERROR {
                None
            } else {
                Some(RequestHandle(reply))
            }),
    {
        let req = RequestHandle::from(reply);
        if req.is_error() {
            None
        } else {
            Some(req)
        }
    }

    /// What the host's answer to sending this request means: the response,
    /// unless the request failed. The request is used up either way.
    pub fn send(self, reply: i32) -> (resp: Option<ResponseHandle>)
        ensures
            resp == (if reply == ResponseHandle::ERROR {
                None
            } else {
                Some(ResponseHandle(reply))
            }),
    {
        let resp = ResponseHandle::from(reply);
        if resp.is_error() {
            None
        } else {
            Some(resp)
        }
    }

    /// What the host's answer to sending this request without waiting means:
    /// the request in flight, unless the host could not start on it. The
    /// request is used up either way.
    pub fn send_async(self, reply: i32) -> (pending: Option<PendingRequestHandle>)
        ensures
            pending == (if reply == PendingRequestHandle::ERROR {
                None
            } else {
                Some(PendingRequestHandle(reply))
            }),
    {
        let pending = PendingRequestHandle::from(reply);
        if pending.is_error() {
            None
        } else {
            Some(pending)
        }
    }

    /// Starts on the values of one header: `values` is what the host answered,
    /// the address of an array of descriptors and the number of its elements.
    /// [`texts`] turns the result into strings.
    pub fn get_header(&self, values: GuestSlice) -> (started: (ListTransfer, Step))
        ensures
            (started.0@, started.1) == ListState::begin(values),
            started.0@.wf(),
    {
        ListTransfer::begin(values)
    }

    /// Starts on the names of all headers: `names` is what the host answered,
    /// the address of an array of descriptors and the number of its elements.
    /// [`texts`] turns the result into strings.
    pub fn get_headers(&self, names: GuestSlice) -> (started: (ListTransfer, Step))
        ensures
            (started.0@, started.1) == ListState::begin(names),
            started.0@.wf(),
    {
        ListTransfer::begin(names)
    }

    /// Starts on the method, which the host wrote to `method`. [`text`] turns
    /// the result into a string.
    pub fn get_method(&self, method: GuestSlice) -> (started: (ByteTransfer, Step))
        ensures
            (started.0@, started.1) == ByteState::begin(method),
            started.0@.wf(),
    {
        ByteTransfer::begin(method)
    }

    /// Starts on the body, which the host wrote to `body`.
    pub fn get_body(&self, body: GuestSlice) -> (started: (ByteTransfer, Step))
        ensures
            (started.0@, started.1) == ByteState::begin(body),
            started.0@.wf(),
    {
        ByteTransfer::begin(body)
    }

    /// Starts on the path, which the host wrote to `path`. [`text`] turns the
    /// result into a string.
    pub fn get_path(&self, path: GuestSlice) -> (started: (ByteTransfer, Step))
        ensures
            (started.0@, started.1) == ByteState::begin(path),
            started.0@.wf(),
    {
        ByteTransfer::begin(path)
    }

    /// What is handed to the host, beside the name, to set a header of this
    /// request to `values`: their descriptors, in order. The status that the
    /// host returns is read by [`HostcallStatus::try_from_u8`].
    pub fn set_header(&mut self, values: &[(usize, &str)]) -> (descriptors: Vec<GuestSlice>)
        ensures
            descriptors@ == descriptors_of(values@),
            *final(self) == *old(self),
    {
        describe(values)
    }
}

impl ResponseHandle {
    /// Starts on the names of all headers: `names` is what the host answered,
    /// the address of an array of descriptors and the number of its elements.
    /// [`texts`] turns the result into strings.
    pub fn get_headers(&self, names: GuestSlice) -> (started: (ListTransfer, Step))
        ensures
            (started.0@, started.1) == ListState::begin(names),
            started.0@.wf(),
    {
        ListTransfer::begin(names)
    }

    /// Starts on the values of one header: `values` is what the host answered,
    /// the address of an array of descriptors and the number of its elements.
    /// [`texts`] turns the result into strings.
    pub fn get_header(&self, values: GuestSlice) -> (started: (ListTransfer, Step))
        ensures
            (started.0@, started.1) == ListState::begin(values),
            started.0@.wf(),
    {
        ListTransfer::begin(values)
    }

    /// Starts on the body, which the host wrote to `body`.
    pub fn get_body(&self, body: GuestSlice) -> (started: (ByteTransfer, Step))
        ensures
            (started.0@, started.1) == ByteState::begin(body),
            started.0@.wf(),
    {
        ByteTransfer::begin(body)
    }

    /// What is handed to the host, beside the name, to set a header of this
    /// response to `values`: their descriptors, in order. The status that the
    /// host returns is read by [`HostcallStatus::try_from_u8`].
    pub fn set_header(&mut self, values: &[(usize, &str)]) -> (descriptors: Vec<GuestSlice>)
        ensures
            descriptors@ == descriptors_of(values@),
            *final(self) == *old(self),
    {
        describe(values)
    }

    /// The status code that the host reported as `code`. One that does not fit
    /// in 16 bits is a violation: it is never cut down to fit.
    pub fn get_response_code(&self, code: u32) -> (status: Result<u16, ProtocolViolation>)
        ensures
            code <= u16::MAX ==> status == Ok::<u16, ProtocolViolation>(code as u16),
            code > u16::MAX ==> status == Err::<u16, ProtocolViolation>(
                ProtocolViolation::ResponseCodeOutOfRange,
            ),
    {
        if code > 0xffff {
            Err(ProtocolViolation::ResponseCodeOutOfRange)
        } else {
            Ok(code as u16)
        }
    }
}

/// What a poll of `pending` means when the host answered `reply`.
pub open spec fn poll_outcome(pending: PendingRequestHandle, reply: i32) -> PollResult {
    if reply == ResponseHandle::ERROR {
        PollResult::Error
    } else if reply == ResponseHandle::NOT_READY {
        PollResult::NotReady(pending)
    } else {
        PollResult::Response(ResponseHandle(reply))
    }
}

/// What polling `pending` again and again means when the host answered
/// `replies`, one for each poll: a poll that was told to come back is followed
/// by a poll of the handle it returned, and the first other answer stands.
pub open spec fn poll_until(pending: PendingRequestHandle, replies: Seq<i32>) -> PollResult
    decreases replies.len(),
{
    if replies.len() == 0 {
        PollResult::NotReady(pending)
    } else {
        match poll_until(pending, replies.drop_last()) {
            PollResult::NotReady(again) => poll_outcome(again, replies.last()),
            settled => settled,
        }
    }
}

/// However often a request in flight was polled before it was ready, the
/// handle in hand is the one that was polled first, and polling it once more
/// gives what the host answers then.
pub proof fn lemma_poll_again(pending: PendingRequestHandle, waiting: Seq<i32>, reply: i32)
    requires
        forall|i: int| 0 <= i < waiting.len() ==> waiting[i] == ResponseHandle::NOT_READY,
    ensures
        poll_until(pending, waiting) == PollResult::NotReady(pending),
        poll_until(pending, waiting.push(reply)) == poll_outcome(pending, reply),
    decreases waiting.len(),
{
    if waiting.len() > 0 {
        let earlier = waiting.drop_last();
        lemma_poll_again(pending, earlier, waiting.last());
    }
    assert(waiting.push(reply).drop_last() =~= waiting);
    if waiting.len() > 0 {
        assert(waiting.drop_last().push(waiting.last()) =~= waiting);
    }
}

impl PendingRequestHandle {
    /// What the host's answer to waiting for this request means: the response,
    /// unless the request failed. The handle is used up either way.
    pub fn wait(self, reply: i32) -> (resp: Option<ResponseHandle>)
        ensures
            resp == (if reply == ResponseHandle::ERROR {
                None
            } else {
                Some(ResponseHandle(reply))
            }),
    {
        let resp = ResponseHandle::from(reply);
        if resp.is_error() {
            None
        } else {
            Some(resp)
        }
    }

    /// What the host's answer to one poll of this request means. While the
    /// request is in flight the handle comes back, to be polled again; a
    /// response or a failure uses it up.
    pub fn poll(self, reply: i32) -> (result: PollResult)
        ensures
            result == poll_outcome(self, reply),
    {
        let pr_raw: i32 = self.into();
        let resp = ResponseHandle::from(reply);
        if resp.is_error() {
            PollResult::Error
        } else if resp.is_not_ready() {
            PollResult::NotReady(PendingRequestHandle::from(pr_raw))
        } else {
            PollResult::Response(resp)
        }
    }
}

/// The raw values of `prs`, in their order.
pub open spec fn raw_handles(prs: Seq<&PendingRequestHandle>) -> Seq<i32> {
    prs.map_values(|pr: &PendingRequestHandle| pr.0)
}

/// What is handed to the host to wait for the first of `prs` that completes:
/// the raw value of each, in the order given. None of them is changed or used
/// up.
pub fn select_set(prs: &[&PendingRequestHandle]) -> (raw: Vec<i32>)
    ensures
        raw@ == raw_handles(prs@),
{
    let mut raw: Vec<i32> = Vec::new();
    let mut i: usize = 0;
    while i < prs.len()
        invariant
            i <= prs@.len(),
            raw@ == raw_handles(prs@.take(i as int)),
        decreases prs@.len() - i,
    {
        raw.push(i32::from(prs[i]));
        assert(prs@.take(i + 1) =~= prs@.take(i as int).push(prs@[i as int]));
        assert(raw@ =~= raw_handles(prs@.take(i + 1)));
        i += 1;
    }
    assert(prs@.take(prs@.len() as int) =~= prs@);
    raw
}

/// What the host's answer to a wait for the first of several requests means.
/// `reply` is the response and `completed` names the request that it belongs
/// to. On a failure only the request is named. The request that is named is
/// used up: it serves to tell which one it was, and for nothing else. That
/// nothing was ready is no answer to a wait that blocks.
pub fn select(reply: i32, completed: i32) -> (result: Result<
    Result<(PendingRequestHandle, ResponseHandle), PendingRequestHandle>,
    ProtocolViolation,
>)
    ensures
        result == (if reply == ResponseHandle::ERROR {
            Ok(Err(PendingRequestHandle(completed)))
        } else if reply == ResponseHandle::NOT_READY {
            Err(ProtocolViolation::SelectNotReady)
        } else {
            Ok(Ok((PendingRequestHandle(completed), ResponseHandle(reply))))
        }),
{
    let resp = ResponseHandle::from(reply);
    let pr_out = PendingRequestHandle::from(completed);
    if resp.is_error() {
        Ok(Err(pr_out))
    } else if resp.is_not_ready() {
        Err(ProtocolViolation::SelectNotReady)
    } else {
        Ok(Ok((pr_out, resp)))
    }
}

/// What the host's answer to a lookup in the store means. A key that was not
/// found has no value, and the memory that `value` names is left alone.
/// Otherwise the value is what the transfer of `value` yields.
pub fn kvstore_get(found: bool, value: GuestSlice) -> (started: Option<(ByteTransfer, Step)>)
    ensures
        !found ==> started is None,
        found ==> (started matches Some(s) && (s.0@, s.1) == ByteState::begin(value) && s.0@.wf()),
{
    if found {
        Some(ByteTransfer::begin(value))
    } else {
        None
    }
}

} // verus!
