//! Sending requests: the steps that put a request before the host, and what
//! the host's answers to sending, waiting, polling and selecting mean.

use vstd::prelude::*;
use crate::hostcalls;
use crate::hostcalls::types::{PendingRequestHandle, ProtocolViolation, ResponseHandle};
use crate::message::{
    are_headers, header_pairs, headers_ok, is_status_code, pair_headers, pairs_of, status_ok,
    Field, RequestParts, ResponseParts,
};
use crate::writer::{RequestWriter, WriteStep, WriterState};

verus! {

/// Why a request was not sent, or has no response.
#[derive(Debug, Clone, Copy, PartialEq, Eq, Structural)]
pub enum SendError {
    /// The host reported a failure. It does not say which.
    Hostcall,
    /// A header value of the request is no visible text.
    HeaderToStr,
    /// What the host returned does not make a response.
    Http,
}

impl SendError {
    /// What is shown for the error, without the detail that only the `http`
    /// crate can add to it.
    pub open spec fn description(self) -> &'static str {
        match self {
            SendError::Hostcall => "Hostcall send error",
            SendError::HeaderToStr => "Header to str send error",
            SendError::Http => "Http send error",
        }
    }

    /// What is shown for the error, without the detail that only the `http`
    /// crate can add to it.
    pub fn to_string(&self) -> (text: String)
        ensures
            text@ == self.description()@,
    {
        match self {
            SendError::Hostcall => "Hostcall send error".to_owned(),
            SendError::HeaderToStr => "Header to str send error".to_owned(),
            SendError::Http => "Http send error".to_owned(),
        }
    }
}

/// A request in flight.
#[derive(Debug, PartialEq, Eq, Structural)]
pub struct PendingRequest(pub PendingRequestHandle);

/// What one poll of a request in flight found: the request again, to be
/// polled later, or the response `R`.
#[derive(Debug, PartialEq, Eq)]
pub enum PollResult<R> {
    NotReady(PendingRequest),
    Response(R),
}

impl PendingRequest {
    /// What the host's answer to waiting for this request means: the
    /// response to read, unless the request failed.
    pub fn wait(self, reply: i32) -> (result: Result<ResponseHandle, SendError>)
        ensures
            result == (if reply == ResponseHandle::ERROR {
                Err(SendError::Hostcall)
            } else {
                Ok(ResponseHandle(reply))
            }),
    {
        match self.0.wait(reply) {
            Some(resp) => Ok(resp),
            None => Err(SendError::Hostcall),
        }
    }

    /// What the host's answer to one poll of this request means: the request
    /// again while it is in flight, the response to read once there is one,
    /// and an error where the request failed.
    pub fn poll(self, reply: i32) -> (result: Result<PollResult<ResponseHandle>, SendError>)
        ensures
            result == (if reply == ResponseHandle::ERROR {
                Err(SendError::Hostcall)
            } else if reply == ResponseHandle::NOT_READY {
                Ok(PollResult::NotReady(self))
            } else {
                Ok(PollResult::Response(ResponseHandle(reply)))
            }),
    {
        match self.0.poll(reply) {
            hostcalls::PollResult::Response(resp) => Ok(PollResult::Response(resp)),
            hostcalls::PollResult::NotReady(pending) => Ok(
                PollResult::NotReady(PendingRequest(pending)),
            ),
            hostcalls::PollResult::Error => Err(SendError::Hostcall),
        }
    }
}

/// The raw values of the handles of `prs`, in their order.
pub open spec fn raw_requests(prs: Seq<&PendingRequest>) -> Seq<i32> {
    prs.map_values(|pr: &PendingRequest| pr.0.0)
}

/// What is handed to the host to wait for the first of `prs` that completes:
/// the raw value of each, in the order given. None of them is changed or used
/// up.
pub fn select_set(prs: &[&PendingRequest]) -> (raw: Vec<i32>)
    ensures
        raw@ == raw_requests(prs@),
{
    let mut raw: Vec<i32> = Vec::new();
    let mut i: usize = 0;
    while i < prs.len()
        invariant
            i <= prs@.len(),
            raw@ == raw_requests(prs@.take(i as int)),
        decreases prs@.len() - i,
    {
        raw.push(i32::from(&prs[i].0));
        assert(prs@.take(i + 1) =~= prs@.take(i as int).push(prs@[i as int]));
        assert(raw@ =~= raw_requests(prs@.take(i + 1)));
        i += 1;
    }
    assert(prs@.take(prs@.len() as int) =~= prs@);
    raw
}

/// What the host's answer to a wait for the first of several requests means:
/// the request that completed and the response to read, or the request that
/// failed. The request that is named is used up either way.
pub fn select(reply: i32, completed: i32) -> (result: Result<
    Result<(PendingRequest, ResponseHandle), PendingRequest>,
    ProtocolViolation,
>)
    ensures
        result == (if reply == ResponseHandle::ERROR {
            Ok(Err(PendingRequest(PendingRequestHandle(completed))))
        } else if reply == ResponseHandle::NOT_READY {
            Err(ProtocolViolation::SelectNotReady)
        } else {
            Ok(Ok((PendingRequest(PendingRequestHandle(completed)), ResponseHandle(reply))))
        }),
{
    match hostcalls::select(reply, completed) {
        Ok(Ok((pr, resp))) => Ok(Ok((PendingRequest(pr), resp))),
        Ok(Err(pr)) => Ok(Err(PendingRequest(pr))),
        Err(violation) => Err(violation),
    }
}

/// Pairs the request that completed with the response that was read for it.
/// A response that could not be read counts as a request that failed: why it
/// could not be read is dropped.
pub fn selected<R, E>(pr: PendingRequest, read: Result<R, E>) -> (result: Result<
    (PendingRequest, R),
    PendingRequest,
>)
    ensures
        result == (match read {
            Ok(resp) => Ok((pr, resp)),
            Err(_) => Err(pr),
        }),
{
    match read {
        Ok(resp) => Ok((pr, resp)),
        Err(_) => Err(pr),
    }
}

/// Starts to put `request` before the host. The writer that comes back says
/// what to ask of the host, answer by answer, until the request is ready to be
/// sent or is known not to be.
pub fn prepare_req(request: RequestParts) -> (started: (RequestWriter, WriteStep))
    ensures
        (started.0@, started.1@) == WriterState::begin(request),
        started.0@.wf(),
{
    RequestWriter::begin(request)
}

/// Whether a response with these headers and this status code can be made.
pub open spec fn is_response(fields: Seq<Field>, code: u16) -> bool {
    are_headers(header_pairs(fields)) && is_status_code(code)
}

/// The response with this status code, these headers and this body, where
/// `valid` says that they can stand in one.
pub fn response_from(
    valid: bool,
    status: u16,
    headers: Vec<(String, String)>,
    body: Vec<u8>,
) -> (result: Result<ResponseParts, SendError>)
    ensures
        valid ==> (result matches Ok(parts) && parts.status == status && parts.headers == headers
            && parts.body == body),
        !valid ==> result matches Err(SendError::Http),
{
    if valid {
        Ok(ResponseParts { status, headers, body })
    } else {
        Err(SendError::Http)
    }
}

/// Makes a response of what was read from the host: the headers in the order
/// of their names, each name with its values in their order, the status code
/// and the body. There is none where a name, a value or the status code is
/// not one that the `http` crate takes.
pub fn build_response(fields: &Vec<Field>, code: u16, body: Vec<u8>) -> (result: Result<
    ResponseParts,
    SendError,
>)
    ensures
        is_response(fields@, code) ==> (result matches Ok(parts) && parts.status == code
            && pairs_of(parts.headers@) == header_pairs(fields@) && parts.body == body),
        !is_response(fields@, code) ==> result matches Err(SendError::Http),
{
    let headers = pair_headers(fields);
    let valid = headers_ok(&headers) && status_ok(code);
    response_from(valid, code, headers, body)
}

} // verus!
