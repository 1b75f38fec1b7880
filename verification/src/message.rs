//! Requests and responses as plain values, and the rules of the `http` crate
//! on what may stand in them.

use vstd::prelude::*;
use vstd::utf8::encode_utf8;
use crate::hostcalls::list::contents;

verus! {

/// A header as it is sent: its name, and each of its values as the bytes it
/// is made of.
#[derive(Debug, PartialEq, Eq)]
pub struct Header {
    pub name: String,
    pub values: Vec<Vec<u8>>,
}

/// A header as it is read: its name and each of its values, as text.
#[derive(Debug, PartialEq, Eq)]
pub struct Field {
    pub name: String,
    pub values: Vec<String>,
}

/// A request to send: what is read of it when it is put before the host.
#[derive(Debug, PartialEq, Eq)]
pub struct RequestParts {
    pub method: String,
    pub uri: String,
    pub headers: Vec<Header>,
    pub body: Vec<u8>,
}

/// A message that was read from the host: a status code (of a response), the
/// headers as pairs of a name and one value, and the body.
#[derive(Debug, PartialEq, Eq)]
pub struct ResponseParts {
    pub status: u16,
    pub headers: Vec<(String, String)>,
    pub body: Vec<u8>,
}

/// What a list of strings holds: the text of each, in order.
pub open spec fn texts_of(strings: Seq<String>) -> Seq<Seq<char>> {
    strings.map_values(|s: String| s@)
}

/// What a list of pairs of strings holds: the texts of each, in order.
pub open spec fn pairs_of(pairs: Seq<(String, String)>) -> Seq<(Seq<char>, Seq<char>)> {
    pairs.map_values(|p: (String, String)| (p.0@, p.1@))
}

/// Whether `b` may stand in a header value that is read as text: a visible
/// ASCII character, a space or a tab.
pub open spec fn is_visible_ascii(b: u8) -> bool {
    (32 <= b < 127) || b == 9
}

/// Whether every byte of `bytes` may stand in a header value that is read as text.
pub open spec fn is_visible(bytes: Seq<u8>) -> bool {
    forall|i: int| 0 <= i < bytes.len() ==> is_visible_ascii(#[trigger] bytes[i])
}

/// The text whose characters are the bytes of `bytes`.
pub open spec fn ascii_text(bytes: Seq<u8>) -> Seq<char> {
    bytes.map_values(|b: u8| b as char)
}

/// Whether `b` may stand in a header value at all: any byte but a control
/// character, and the tab.
pub open spec fn is_value_byte(b: u8) -> bool {
    (b >= 32 && b != 127) || b == 9
}

/// Whether `text` may be a header value.
pub open spec fn is_header_value(text: Seq<char>) -> bool {
    let bytes = encode_utf8(text);
    forall|i: int| 0 <= i < bytes.len() ==> is_value_byte(#[trigger] bytes[i])
}

/// Whether `code` may be the status of a response.
pub open spec fn is_status_code(code: u16) -> bool {
    100 <= code < 600
}

/// Whether `HeaderName::from_bytes` of the `http` crate takes `name`.
pub uninterp spec fn header_name_valid(name: Seq<char>) -> bool;

/// A header name of this many bytes or more cannot be looked at.
pub const MAX_HEADER_NAME_LEN: usize = 65536;

/// Calls `http::header::HeaderValue::from_bytes` and, on the value made,
/// `HeaderValue::to_str`. There is a text exactly where every byte is a
/// visible ASCII character, a space or a tab, and its characters are then the
/// bytes.
#[verifier::external_body]
fn header_to_str(value: &[u8]) -> (text: Option<String>)
    ensures
        text is Some <==> is_visible(value@),
        text matches Some(s) ==> s@ == ascii_text(value@),
{
    match http::header::HeaderValue::from_bytes(value) {
        Ok(v) => match v.to_str() {
            Ok(s) => Some(s.to_owned()),
            Err(_) => None,
        },
        Err(_) => None,
    }
}

/// Calls `http::header::HeaderName::from_bytes` and says whether it took the
/// name. It panics on a name of 65536 bytes or more, so none is handed to it.
#[verifier::external_body]
fn header_name_ok(name: &str) -> (ok: bool)
    requires
        encode_utf8(name@).len() < MAX_HEADER_NAME_LEN,
    ensures
        ok == header_name_valid(name@),
{
    http::header::HeaderName::from_bytes(name.as_bytes()).is_ok()
}

/// Calls `http::header::HeaderValue::from_str` and says whether it took the
/// value: it does where no byte is a control character other than the tab.
#[verifier::external_body]
fn header_value_ok(value: &str) -> (ok: bool)
    ensures
        ok == is_header_value(value@),
{
    http::header::HeaderValue::from_str(value).is_ok()
}

/// Calls `http::StatusCode::from_u16` and says whether it took the code: it
/// does from 100 up to 599.
#[verifier::external_body]
fn status_code_ok(code: u16) -> (ok: bool)
    ensures
        ok == is_status_code(code),
{
    http::StatusCode::from_u16(code).is_ok()
}

/// Whether a header of this name and this value may stand in a message.
pub open spec fn is_header(name: Seq<char>, value: Seq<char>) -> bool {
    &&& encode_utf8(name).len() < MAX_HEADER_NAME_LEN
    &&& header_name_valid(name)
    &&& is_header_value(value)
}

/// Whether a header of this name and this value may stand in a message.
pub fn header_ok(name: &str, value: &str) -> (ok: bool)
    ensures
        ok == is_header(name@, value@),
{
    name.as_bytes().len() < MAX_HEADER_NAME_LEN && header_name_ok(name) && header_value_ok(value)
}

/// Whether `code` may be the status of a response.
pub fn status_ok(code: u16) -> (ok: bool)
    ensures
        ok == is_status_code(code),
{
    status_code_ok(code)
}

/// The texts of `values`, where each of them is visible text.
pub open spec fn visible_texts(values: Seq<Seq<u8>>) -> Option<Seq<Seq<char>>> {
    if forall|i: int| 0 <= i < values.len() ==> is_visible(#[trigger] values[i]) {
        Some(values.map_values(|v: Seq<u8>| ascii_text(v)))
    } else {
        None
    }
}

/// Reads each header value as text. There is no result where one of them
/// holds a byte that is no visible ASCII character, space or tab.
pub fn to_strs(values: &Vec<Vec<u8>>) -> (texts: Option<Vec<String>>)
    ensures
        match visible_texts(contents(values@)) {
            Some(expected) => texts matches Some(t) && texts_of(t@) == expected,
            None => texts is None,
        },
{
    let ghost all = contents(values@);
    let mut texts: Vec<String> = Vec::new();
    let mut i: usize = 0;
    while i < values.len()
        invariant
            i <= values@.len(),
            all == contents(values@),
            texts@.len() == i,
            forall|k: int| 0 <= k < i ==> is_visible(#[trigger] all[k]),
            forall|k: int| 0 <= k < i ==> (#[trigger] texts@[k])@ == ascii_text(all[k]),
        decreases values@.len() - i,
    {
        match header_to_str(values[i].as_slice()) {
            Some(text) => texts.push(text),
            None => {
                assert(!is_visible(all[i as int]));
                return None;
            },
        }
        i += 1;
    }
    assert(texts_of(texts@) =~= all.map_values(|v: Seq<u8>| ascii_text(v)));
    Some(texts)
}

/// The pairs that one header makes: its name with each of its values, in order.
pub open spec fn field_pairs(field: Field) -> Seq<(Seq<char>, Seq<char>)> {
    field.values@.map_values(|value: String| (field.name@, value@))
}

/// The pairs that `fields` make: those of the first header first.
pub open spec fn header_pairs(fields: Seq<Field>) -> Seq<(Seq<char>, Seq<char>)>
    decreases fields.len(),
{
    if fields.len() == 0 {
        Seq::empty()
    } else {
        header_pairs(fields.drop_last()) + field_pairs(fields.last())
    }
}

/// Whether each of `pairs` may stand in a message as a header.
pub open spec fn are_headers(pairs: Seq<(Seq<char>, Seq<char>)>) -> bool {
    forall|i: int| 0 <= i < pairs.len() ==> is_header((#[trigger] pairs[i]).0, pairs[i].1)
}

/// Pairs the name of each header with each of its values, in the order in
/// which the host gave them. A header without a value makes no pair.
pub fn pair_headers(fields: &Vec<Field>) -> (pairs: Vec<(String, String)>)
    ensures
        pairs_of(pairs@) == header_pairs(fields@),
{
    let mut pairs: Vec<(String, String)> = Vec::new();
    let mut i: usize = 0;
    assert(pairs_of(pairs@) =~= header_pairs(fields@.take(0)));
    while i < fields.len()
        invariant
            i <= fields@.len(),
            pairs_of(pairs@) == header_pairs(fields@.take(i as int)),
        decreases fields@.len() - i,
    {
        let field = &fields[i];
        let ghost before = pairs_of(pairs@);
        let mut j: usize = 0;
        assert(pairs_of(pairs@) =~= before + field_pairs(*field).take(0));
        while j < field.values.len()
            invariant
                j <= field.values@.len(),
                pairs_of(pairs@) == before + field_pairs(*field).take(j as int),
            decreases field.values@.len() - j,
        {
            let ghost earlier = pairs@;
            let name = field.name.clone();
            let value = field.values[j].clone();
            pairs.push((name, value));
            assert(pairs_of(pairs@) =~= pairs_of(earlier).push(
                (field.name@, field.values@[j as int]@),
            ));
            assert(field_pairs(*field).take(j + 1) =~= field_pairs(*field).take(j as int).push(
                (field.name@, field.values@[j as int]@),
            ));
            assert(pairs_of(pairs@) =~= before + field_pairs(*field).take(j + 1));
            j += 1;
        }
        assert(field_pairs(*field).take(j as int) =~= field_pairs(*field));
        assert(fields@.take(i + 1).drop_last() =~= fields@.take(i as int));
        i += 1;
    }
    assert(fields@.take(i as int) =~= fields@);
    pairs
}

/// Whether each of `pairs` may stand in a message as a header.
pub fn headers_ok(pairs: &Vec<(String, String)>) -> (ok: bool)
    ensures
        ok == are_headers(pairs_of(pairs@)),
{
    let mut i: usize = 0;
    while i < pairs.len()
        invariant
            i <= pairs@.len(),
            are_headers(pairs_of(pairs@).take(i as int)),
        decreases pairs@.len() - i,
    {
        if !header_ok(pairs[i].0.as_str(), pairs[i].1.as_str()) {
            assert(!is_header(pairs_of(pairs@)[i as int].0, pairs_of(pairs@)[i as int].1));
            return false;
        }
        assert forall|k: int| 0 <= k < i + 1 implies is_header(
            (#[trigger] pairs_of(pairs@).take(i + 1)[k]).0,
            pairs_of(pairs@).take(i + 1)[k].1,
        ) by {
            if k < i {
                assert(pairs_of(pairs@).take(i as int)[k] == pairs_of(pairs@).take(i + 1)[k]);
            }
        }
        i += 1;
    }
    assert(pairs_of(pairs@).take(i as int) =~= pairs_of(pairs@));
    true
}

} // verus!
