//! Around the handler: the request that came in is made of what was read from
//! the host, and the response that goes out is turned into writes.

use vstd::prelude::*;
use vstd::slice::slice_to_vec;
use crate::hostcalls::list::contents;
use crate::message::{header_pairs, pair_headers, pairs_of, to_strs, visible_texts, Field, Header};
use crate::writer::{Write, WriteView};

verus! {

/// The request that came in, as it was read from the host.
#[derive(Debug, PartialEq, Eq)]
pub struct IncomingRequest {
    pub method: String,
    pub path: String,
    pub headers: Vec<(String, String)>,
    pub body: Vec<u8>,
}

/// The response that the handler made.
#[derive(Debug, PartialEq, Eq)]
pub struct OutgoingResponse {
    pub status: u16,
    pub headers: Vec<Header>,
    pub body: Vec<u8>,
}

/// Makes the incoming request of what was read from the host: the headers in
/// the order of their names, each name with its values in their order, the
/// method, the path and the body.
pub fn build_req(fields: &Vec<Field>, method: String, path: String, body: Vec<u8>) -> (request:
    IncomingRequest)
    ensures
        request.method == method,
        request.path == path,
        pairs_of(request.headers@) == header_pairs(fields@),
        request.body == body,
{
    IncomingRequest { method, path, headers: pair_headers(fields), body }
}

/// What a list of writes holds.
pub open spec fn writes_of(writes: Seq<Write>) -> Seq<WriteView> {
    writes.map_values(|w: Write| w@)
}

/// The write that sets `header`, where its values are visible text.
pub open spec fn header_write(header: Header) -> Option<WriteView> {
    match visible_texts(contents(header.values@)) {
        Some(values) => Some(WriteView::Header { name: header.name@, values }),
        None => None,
    }
}

/// The writes that set the first of `headers`, in order, up to one whose
/// values are no visible text, and whether there is no such header.
pub open spec fn header_writes(headers: Seq<Header>) -> (Seq<WriteView>, bool)
    decreases headers.len(),
{
    if headers.len() == 0 {
        (Seq::empty(), true)
    } else {
        let (writes, complete) = header_writes(headers.drop_last());
        match header_write(headers.last()) {
            Some(write) if complete => (writes.push(write), true),
            _ => (writes, false),
        }
    }
}

/// The writes that send `response`: one for each header in order, then the
/// body, then the status code. They stop before a header whose values are no
/// visible text, and are then not all that the response needs.
pub open spec fn response_writes(response: OutgoingResponse) -> Result<
    Seq<WriteView>,
    Seq<WriteView>,
> {
    let (writes, complete) = header_writes(response.headers@);
    if complete {
        Ok(
            writes.push(WriteView::Body(response.body@)).push(
                WriteView::ResponseCode(response.status),
            ),
        )
    } else {
        Err(writes)
    }
}

/// Once a header was found whose values are no visible text, the writes stay
/// as they are however many headers follow.
proof fn lemma_header_writes_stop(headers: Seq<Header>, at: int, upto: int)
    requires
        0 <= at <= upto <= headers.len(),
        !header_writes(headers.take(at)).1,
    ensures
        header_writes(headers.take(upto)) == header_writes(headers.take(at)),
    decreases upto - at,
{
    if at < upto {
        lemma_header_writes_stop(headers, at, upto - 1);
        assert(headers.take(upto).drop_last() =~= headers.take(upto - 1));
    }
}

/// Turns the response that the handler made into the writes that send it.
/// What the host answers to them changes nothing: all of them are made. Where
/// a header value is no visible text, the writes before that header are all
/// there is, and they come back as an error.
pub fn build_resp(response: &OutgoingResponse) -> (writes: Result<Vec<Write>, Vec<Write>>)
    ensures
        match response_writes(*response) {
            Ok(expected) => writes matches Ok(w) && writes_of(w@) == expected,
            Err(expected) => writes matches Err(w) && writes_of(w@) == expected,
        },
{
    let ghost headers = response.headers@;
    let mut writes: Vec<Write> = Vec::new();
    let mut i: usize = 0;
    assert(writes_of(writes@) =~= header_writes(headers.take(0)).0);
    while i < response.headers.len()
        invariant
            headers == response.headers@,
            i <= headers.len(),
            header_writes(headers.take(i as int)) == (writes_of(writes@), true),
        decreases headers.len() - i,
    {
        let header = &response.headers[i];
        assert(headers.take(i + 1).drop_last() =~= headers.take(i as int));
        assert(headers.take(i + 1).last() == headers[i as int]);
        match to_strs(&header.values) {
            Some(values) => {
                let ghost earlier = writes_of(writes@);
                let write = Write::Header { name: header.name.clone(), values };
                assert(Some(write@) == header_write(headers[i as int]));
                writes.push(write);
                assert(writes_of(writes@) =~= earlier.push(
                    header_write(headers[i as int]).unwrap(),
                ));
            },
            None => {
                proof {
                    lemma_header_writes_stop(headers, i + 1, headers.len() as int);
                    assert(headers.take(headers.len() as int) =~= headers);
                }
                return Err(writes);
            },
        }
        i += 1;
    }
    assert(headers.take(i as int) =~= headers);
    let ghost set = writes_of(writes@);
    writes.push(Write::Body(slice_to_vec(response.body.as_slice())));
    writes.push(Write::ResponseCode(response.status));
    assert(writes_of(writes@) =~= set.push(WriteView::Body(response.body@)).push(
        WriteView::ResponseCode(response.status),
    ));
    Ok(writes)
}

} // verus!
