use std::collections::HashMap;

use http_guest::client::{
    build_response, prepare_req, response_from, select, select_set, selected, PendingRequest,
    PollResult, SendError,
};
use http_guest::hostcalls::{
    texts, ByteTransfer, Event, GuestSlice, HostcallStatus, ListTransfer, PendingRequestHandle,
    ProtocolViolation, RequestHandle, ResponseHandle, Step,
};
use http_guest::message::{
    header_ok, headers_ok, pair_headers, status_ok, to_strs, Field, Header, RequestParts,
    ResponseParts,
};
use http_guest::scaffolding::{build_req, build_resp, OutgoingResponse};
use http_guest::writer::{RequestWriter, Write, WriteEvent, WriteStep};

/// A request or a response as the host keeps it.
#[derive(Debug, Clone, Default)]
struct Message {
    method: String,
    url: String,
    headers: Vec<(String, Vec<String>)>,
    body: Vec<u8>,
}

/// A host that answers every request with a response that mirrors it.
struct Host {
    requests: HashMap<i32, Message>,
    responses: HashMap<i32, Message>,
    next: i32,
    buffers: HashMap<usize, Vec<u8>>,
    arrays: HashMap<usize, Vec<GuestSlice>>,
    next_ptr: usize,
    frees: usize,
    refuse_method: Option<String>,
    refuse_header: Option<String>,
    refuse_body: bool,
    calls: Vec<String>,
}

impl Host {
    fn new() -> Host {
        Host {
            requests: HashMap::new(),
            responses: HashMap::new(),
            next: 1,
            buffers: HashMap::new(),
            arrays: HashMap::new(),
            next_ptr: 0x1000,
            frees: 0,
            refuse_method: None,
            refuse_header: None,
            refuse_body: false,
            calls: Vec::new(),
        }
    }

    fn create(&mut self, method: &str, url: &str) -> i32 {
        self.calls.push(format!("create {} {}", method, url));
        if self.refuse_method.as_deref() == Some(method) {
            return -1;
        }
        let handle = self.next;
        self.next += 1;
        let message =
            Message { method: method.to_string(), url: url.to_string(), ..Message::default() };
        self.requests.insert(handle, message);
        handle
    }

    fn apply(&mut self, req: i32, write: &Write) -> HostcallStatus {
        let message = self.requests.get_mut(&req).expect("write to a request that is not there");
        match write {
            Write::Header { name, values } => {
                self.calls.push(format!("header {} {:?}", name, values));
                if self.refuse_header.as_deref() == Some(name.as_str()) {
                    return HostcallStatus::Invalid;
                }
                message.headers.push((name.clone(), values.clone()));
            }
            Write::Body(body) => {
                self.calls.push(format!("body {}", body.len()));
                if self.refuse_body {
                    return HostcallStatus::Invalid;
                }
                message.body = body.clone();
            }
            Write::ResponseCode(_) => panic!("a request has no status code"),
        }
        HostcallStatus::Okay
    }

    fn send(&mut self, req: i32) -> i32 {
        let message = self.requests.remove(&req).expect("send of a request that is not there");
        let handle = self.next;
        self.next += 1;
        self.responses.insert(handle, message);
        handle
    }

    fn place(&mut self, bytes: &[u8]) -> GuestSlice {
        let ptr = self.next_ptr;
        self.next_ptr += 0x100;
        self.buffers.insert(ptr, bytes.to_vec());
        GuestSlice::new(ptr, bytes.len())
    }

    fn place_list(&mut self, items: &[String]) -> GuestSlice {
        let descriptors: Vec<GuestSlice> =
            items.iter().map(|item| self.place(item.as_bytes())).collect();
        let ptr = self.next_ptr;
        self.next_ptr += 0x100;
        let count = descriptors.len();
        self.arrays.insert(ptr, descriptors);
        GuestSlice::new(ptr, count)
    }

    fn resp_get_headers(&mut self, resp: i32) -> GuestSlice {
        let names: Vec<String> =
            self.responses[&resp].headers.iter().map(|(name, _)| name.clone()).collect();
        self.place_list(&names)
    }

    fn resp_get_header(&mut self, resp: i32, name: &str) -> GuestSlice {
        let values: Vec<String> = self.responses[&resp]
            .headers
            .iter()
            .filter(|(n, _)| n == name)
            .flat_map(|(_, values)| values.clone())
            .collect();
        self.place_list(&values)
    }

    fn resp_get_body(&mut self, resp: i32) -> GuestSlice {
        let body = self.responses[&resp].body.clone();
        self.place(&body)
    }

    fn answer(&mut self, step: Step) -> Option<Event> {
        match step {
            Step::Descriptor { base, index } => Some(Event::Descriptor(self.arrays[&base][index])),
            Step::Copy { ptr, len } => Some(Event::Bytes(self.buffers[&ptr][..len].to_vec())),
            Step::Release { ptr } => {
                assert!(self.buffers.remove(&ptr).is_some() || self.arrays.remove(&ptr).is_some());
                self.frees += 1;
                Some(Event::Released)
            }
            Step::Finished | Step::Abort(_) => None,
        }
    }

    fn take_bytes(&mut self, started: (ByteTransfer, Step)) -> Vec<u8> {
        let (mut transfer, mut step) = started;
        while let Some(event) = self.answer(step) {
            step = transfer.advance(event);
        }
        transfer.finish().unwrap()
    }

    fn take_list(&mut self, started: (ListTransfer, Step)) -> Vec<Vec<u8>> {
        let (mut transfer, mut step) = started;
        while let Some(event) = self.answer(step) {
            step = transfer.advance(event);
        }
        transfer.finish().unwrap()
    }

    /// Puts `request` before the host as its writer says.
    fn write(&mut self, request: RequestParts) -> Result<RequestHandle, SendError> {
        let (mut writer, mut step) = prepare_req(request);
        loop {
            let event = match step {
                WriteStep::Create { method, uri } => {
                    WriteEvent::Created(self.create(&method, &uri))
                }
                WriteStep::Apply { req, write } => WriteEvent::Status(self.apply(req, &write)),
                WriteStep::Ready(req) => return Ok(req),
                WriteStep::Failed(error) => return Err(error),
                WriteStep::Abort(violation) => panic!("{:?}", violation),
            };
            step = writer.advance(event);
        }
    }

    /// Reads the response `resp` as a guest does.
    fn read(&mut self, resp: &ResponseHandle, code: u32) -> Result<ResponseParts, SendError> {
        let raw = i32::from(resp);
        let names = self.resp_get_headers(raw);
        let names = texts(&self.take_list(resp.get_headers(names)));
        let mut fields = Vec::new();
        for name in names {
            let values = self.resp_get_header(raw, &name);
            let values = texts(&self.take_list(resp.get_header(values)));
            fields.push(Field { name, values });
        }
        let status = resp.get_response_code(code).unwrap();
        let body = self.resp_get_body(raw);
        let body = self.take_bytes(resp.get_body(body));
        build_response(&fields, status, body)
    }
}

fn header(name: &str, values: &[&str]) -> Header {
    let values = values.iter().map(|v| v.as_bytes().to_vec()).collect();
    Header { name: name.to_string(), values }
}

fn field(name: &str, values: &[&str]) -> Field {
    Field { name: name.to_string(), values: values.iter().map(|v| v.to_string()).collect() }
}

fn pair(name: &str, value: &str) -> (String, String) {
    (name.to_string(), value.to_string())
}

fn request(headers: Vec<Header>, body: &[u8]) -> RequestParts {
    RequestParts {
        method: "POST".to_string(),
        uri: "http://example.com/echo".to_string(),
        headers,
        body: body.to_vec(),
    }
}

#[test]
fn round_trip_through_a_mirroring_host() {
    let mut host = Host::new();
    let parts = request(vec![header("X-A", &["1", "2"]), header("X-B", &["3"])], b"payload");
    let req = host.write(parts).unwrap();
    let resp = req.send(host.send(1)).unwrap();
    let response = host.read(&resp, 200).unwrap();
    assert_eq!(response.status, 200);
    assert_eq!(response.headers, vec![pair("X-A", "1"), pair("X-A", "2"), pair("X-B", "3")]);
    assert_eq!(response.body, b"payload".to_vec());
    // names, values of X-A, values of X-B, body: 2 + 1, 2 + 1, 1 + 1, 1
    assert_eq!(host.frees, 9);
    assert!(host.buffers.is_empty());
    assert!(host.arrays.is_empty());
}

#[test]
fn writer_asks_for_each_write_in_order() {
    let parts = request(vec![header("X-A", &["1", "2"]), header("X-B", &["3"])], b"payload");
    let (mut writer, step) = RequestWriter::begin(parts);
    assert_eq!(
        step,
        WriteStep::Create { method: "POST".to_string(), uri: "http://example.com/echo".to_string() }
    );
    assert_eq!(
        writer.advance(WriteEvent::Created(4)),
        WriteStep::Apply {
            req: 4,
            write: Write::Header {
                name: "X-A".to_string(),
                values: vec!["1".to_string(), "2".to_string()]
            }
        }
    );
    assert_eq!(
        writer.advance(WriteEvent::Status(HostcallStatus::Okay)),
        WriteStep::Apply {
            req: 4,
            write: Write::Header { name: "X-B".to_string(), values: vec!["3".to_string()] }
        }
    );
    assert_eq!(
        writer.advance(WriteEvent::Status(HostcallStatus::Okay)),
        WriteStep::Apply { req: 4, write: Write::Body(b"payload".to_vec()) }
    );
    assert_eq!(
        writer.advance(WriteEvent::Status(HostcallStatus::Okay)),
        WriteStep::Ready(RequestHandle::from(4))
    );
    assert_eq!(
        writer.advance(WriteEvent::Status(HostcallStatus::Okay)),
        WriteStep::Abort(ProtocolViolation::OutOfTurn)
    );
}

#[test]
fn writer_without_headers_writes_the_body_at_once() {
    let (mut writer, _) = RequestWriter::begin(request(vec![], b""));
    assert_eq!(
        writer.advance(WriteEvent::Created(0)),
        WriteStep::Apply { req: 0, write: Write::Body(vec![]) }
    );
}

#[test]
fn writer_stops_when_the_host_refuses() {
    let mut host = Host::new();
    host.refuse_method = Some("POST".to_string());
    assert_eq!(host.write(request(vec![header("X-A", &["1"])], b"")), Err(SendError::Hostcall));
    assert_eq!(host.calls, vec!["create POST http://example.com/echo".to_string()]);

    let mut host = Host::new();
    host.refuse_header = Some("X-B".to_string());
    let parts = request(
        vec![header("X-A", &["1"]), header("X-B", &["2"]), header("X-C", &["3"])],
        b"body",
    );
    assert_eq!(host.write(parts), Err(SendError::Hostcall));
    assert_eq!(host.calls.len(), 3);

    let mut host = Host::new();
    host.refuse_body = true;
    assert_eq!(host.write(request(vec![header("X-A", &["1"])], b"body")), Err(SendError::Hostcall));
    assert_eq!(host.calls.len(), 3);
}

#[test]
fn writer_finds_a_value_that_is_no_text_when_its_turn_comes() {
    let mut host = Host::new();
    let mut headers = vec![header("X-A", &["fine"])];
    headers.push(Header { name: "X-B".to_string(), values: vec![b"ok".to_vec(), vec![0xe9]] });
    headers.push(header("X-C", &["never"]));
    assert_eq!(host.write(request(headers, b"body")), Err(SendError::HeaderToStr));
    assert_eq!(
        host.calls,
        vec![
            "create POST http://example.com/echo".to_string(),
            "header X-A [\"fine\"]".to_string()
        ]
    );
}

#[test]
fn writer_refuses_what_it_did_not_ask_for() {
    let (mut writer, _) = RequestWriter::begin(request(vec![], b""));
    assert_eq!(
        writer.advance(WriteEvent::Status(HostcallStatus::Okay)),
        WriteStep::Abort(ProtocolViolation::OutOfTurn)
    );
    let (mut writer, _) = RequestWriter::begin(request(vec![], b""));
    writer.advance(WriteEvent::Created(2));
    assert_eq!(
        writer.advance(WriteEvent::Created(3)),
        WriteStep::Abort(ProtocolViolation::OutOfTurn)
    );
}

#[test]
fn header_values_are_text_only_when_visible() {
    assert_eq!(
        to_strs(&vec![b"a b".to_vec(), b"\tc~".to_vec(), vec![]]),
        Some(vec!["a b".to_string(), "\tc~".to_string(), String::new()])
    );
    assert_eq!(to_strs(&vec![]), Some(vec![]));
    assert_eq!(to_strs(&vec![vec![0x7f]]), None);
    assert_eq!(to_strs(&vec![vec![0x1f]]), None);
    assert_eq!(to_strs(&vec![vec![0x80]]), None);
    assert_eq!(to_strs(&vec![b"fine".to_vec(), vec![b'a', 0xff]]), None);
    assert_eq!(to_strs(&vec![vec![0x0a]]), None);
}

#[test]
fn headers_and_status_codes_are_held_to_the_rules() {
    assert!(header_ok("X-A", "1"));
    assert!(header_ok("content-type", "text/plain; charset=utf-8"));
    assert!(header_ok("x-b", "caf\u{e9}"));
    assert!(header_ok("x-b", ""));
    assert!(!header_ok("", "1"));
    assert!(!header_ok("bad name", "1"));
    assert!(!header_ok("x-b", "line\nbreak"));
    assert!(!header_ok("x-b", "\u{7f}"));
    assert!(header_ok(&"a".repeat(65535), "1"));
    assert!(!header_ok(&"a".repeat(65536), "1"));
    assert!(!header_ok(&"a".repeat(70000), "1"));
    assert!(status_ok(100));
    assert!(status_ok(200));
    assert!(status_ok(599));
    assert!(!status_ok(99));
    assert!(!status_ok(600));
    assert!(!status_ok(0));
    assert!(!status_ok(u16::MAX));
    assert!(headers_ok(&vec![pair("a", "1"), pair("b", "2")]));
    assert!(headers_ok(&vec![]));
    assert!(!headers_ok(&vec![pair("a", "1"), pair("b c", "2")]));
}

#[test]
fn headers_are_paired_in_order() {
    let fields = vec![field("X-A", &["1", "2"]), field("X-Empty", &[]), field("X-B", &["3"])];
    assert_eq!(
        pair_headers(&fields),
        vec![pair("X-A", "1"), pair("X-A", "2"), pair("X-B", "3")]
    );
    assert_eq!(pair_headers(&vec![]), vec![]);
}

#[test]
fn response_is_built_or_refused() {
    let fields = vec![field("X-A", &["1", "2"]), field("X-B", &["3"])];
    assert_eq!(
        build_response(&fields, 404, b"gone".to_vec()),
        Ok(ResponseParts {
            status: 404,
            headers: vec![pair("X-A", "1"), pair("X-A", "2"), pair("X-B", "3")],
            body: b"gone".to_vec(),
        })
    );
    assert_eq!(build_response(&fields, 42, vec![]), Err(SendError::Http));
    assert_eq!(build_response(&vec![field("no good", &["1"])], 200, vec![]), Err(SendError::Http));
    assert_eq!(build_response(&vec![field("x", &["a\rb"])], 200, vec![]), Err(SendError::Http));
    // A name without a value is never looked at.
    assert_eq!(
        build_response(&vec![field("no good", &[])], 200, vec![1]),
        Ok(ResponseParts { status: 200, headers: vec![], body: vec![1] })
    );
    assert_eq!(response_from(false, 200, vec![], vec![]), Err(SendError::Http));
    assert_eq!(
        response_from(true, 7, vec![pair("a b", "c")], vec![9]),
        Ok(ResponseParts { status: 7, headers: vec![pair("a b", "c")], body: vec![9] })
    );
}

#[test]
fn select_names_the_request_that_completed() {
    let a = PendingRequest(PendingRequestHandle::from(10));
    let b = PendingRequest(PendingRequestHandle::from(11));
    let c = PendingRequest(PendingRequestHandle::from(12));
    assert_eq!(select_set(&[&a, &b, &c]), vec![10, 11, 12]);
    assert_eq!(select_set(&[]), Vec::<i32>::new());

    // The host reports that b completed with response 40.
    let (done, resp) = select(40, 11).unwrap().unwrap();
    assert_eq!(done, b);
    assert_eq!(resp, ResponseHandle::from(40));

    // a and c are as they were, and can be waited for, polled or selected again.
    assert_eq!(select_set(&[&a, &c]), vec![10, 12]);
    let a = match a.poll(ResponseHandle::NOT_READY) {
        Ok(PollResult::NotReady(a)) => a,
        other => panic!("unexpected {:?}", other),
    };
    assert_eq!(a, PendingRequest(PendingRequestHandle::from(10)));
    assert_eq!(c.wait(41), Ok(ResponseHandle::from(41)));
    assert_eq!(select(ResponseHandle::ERROR, 10), Ok(Err(a)));
    assert_eq!(select(ResponseHandle::NOT_READY, 10), Err(ProtocolViolation::SelectNotReady));
}

#[test]
fn selected_folds_a_response_that_could_not_be_read_into_a_failure() {
    let pr = || PendingRequest(PendingRequestHandle::from(3));
    assert_eq!(selected(pr(), Ok::<u8, SendError>(5)), Ok((pr(), 5)));
    assert_eq!(selected(pr(), Err::<u8, SendError>(SendError::Http)), Err(pr()));
    assert_eq!(selected(pr(), Err::<u8, SendError>(SendError::HeaderToStr)), Err(pr()));
    assert_eq!(selected(pr(), Err::<u8, SendError>(SendError::Hostcall)), Err(pr()));
}

#[test]
fn send_errors_are_shown() {
    assert_eq!(SendError::Hostcall.to_string(), "Hostcall send error");
    assert_eq!(SendError::HeaderToStr.to_string(), "Header to str send error");
    assert_eq!(SendError::Http.to_string(), "Http send error");
}

#[test]
fn pending_request_waits_and_polls() {
    let pr = || PendingRequest(PendingRequestHandle::from(3));
    assert_eq!(pr().wait(8), Ok(ResponseHandle::from(8)));
    assert_eq!(pr().wait(0), Ok(ResponseHandle::from(0)));
    assert_eq!(pr().wait(-1), Err(SendError::Hostcall));
    assert_eq!(pr().wait(-2), Ok(ResponseHandle::from(-2)));
    assert_eq!(pr().poll(8), Ok(PollResult::Response(ResponseHandle::from(8))));
    assert_eq!(pr().poll(-2), Ok(PollResult::NotReady(pr())));
    assert_eq!(pr().poll(-1), Err(SendError::Hostcall));
}

#[test]
fn incoming_request_is_made_of_what_was_read() {
    let fields = vec![field("host", &["example.com"]), field("accept", &["a", "b"])];
    let req = build_req(&fields, "GET".to_string(), "/index".to_string(), b"q".to_vec());
    assert_eq!(req.method, "GET");
    assert_eq!(req.path, "/index");
    assert_eq!(
        req.headers,
        vec![pair("host", "example.com"), pair("accept", "a"), pair("accept", "b")]
    );
    assert_eq!(req.body, b"q".to_vec());
}

#[test]
fn outgoing_response_becomes_writes() {
    let response = OutgoingResponse {
        status: 201,
        headers: vec![header("x-a", &["1", "2"]), header("x-b", &[])],
        body: b"made".to_vec(),
    };
    assert_eq!(
        build_resp(&response),
        Ok(vec![
            Write::Header {
                name: "x-a".to_string(),
                values: vec!["1".to_string(), "2".to_string()]
            },
            Write::Header { name: "x-b".to_string(), values: vec![] },
            Write::Body(b"made".to_vec()),
            Write::ResponseCode(201),
        ])
    );
    let empty = OutgoingResponse { status: 204, headers: vec![], body: vec![] };
    assert_eq!(build_resp(&empty), Ok(vec![Write::Body(vec![]), Write::ResponseCode(204)]));
    let bad = OutgoingResponse {
        status: 200,
        headers: vec![
            header("x-a", &["1"]),
            Header { name: "x-b".to_string(), values: vec![vec![0xc3, 0xa9]] },
            header("x-c", &["3"]),
        ],
        body: vec![],
    };
    assert_eq!(
        build_resp(&bad),
        Err(vec![Write::Header { name: "x-a".to_string(), values: vec!["1".to_string()] }])
    );
    let bad_first = OutgoingResponse {
        status: 200,
        headers: vec![Header { name: "x".to_string(), values: vec![vec![0x00]] }],
        body: vec![7],
    };
    assert_eq!(build_resp(&bad_first), Err(vec![]));
}
