use http_guest::guest_allocator::{default_malloc_impl, free};
use http_guest::hostcalls::{
    describe, select, select_set, GuestSlice, HostcallStatus, PendingRequestHandle, PollResult,
    ProtocolViolation, RequestHandle, ResponseHandle,
};
use http_guest::rand::guest_rng;
use http_guest::time::{Time, MAX_SUBSEC_NANOS};

#[test]
fn status_bytes_decode() {
    assert_eq!(HostcallStatus::try_from_u8(0), Some(HostcallStatus::Okay));
    assert_eq!(HostcallStatus::try_from_u8(1), Some(HostcallStatus::Invalid));
    assert_eq!(HostcallStatus::try_from_u8(2), None);
    assert_eq!(HostcallStatus::try_from_u8(255), None);
}

#[test]
fn handles_know_their_reserved_values() {
    assert_eq!(RequestHandle::incoming(), RequestHandle::from(0));
    assert_eq!(ResponseHandle::outgoing(), ResponseHandle::from(0));
    assert_eq!(RequestHandle::INCOMING, 0);
    assert_eq!(RequestHandle::ERROR, -1);
    assert_eq!(ResponseHandle::OUTGOING, 0);
    assert_eq!(ResponseHandle::ERROR, -1);
    assert_eq!(ResponseHandle::NOT_READY, -2);
    assert_eq!(PendingRequestHandle::ERROR, -1);
    assert!(RequestHandle::from(-1).is_error());
    assert!(!RequestHandle::from(0).is_error());
    assert!(!RequestHandle::from(-2).is_error());
    assert!(ResponseHandle::from(-1).is_error());
    assert!(!ResponseHandle::from(-2).is_error());
    assert!(ResponseHandle::from(-2).is_not_ready());
    assert!(!ResponseHandle::from(-1).is_not_ready());
    assert!(!ResponseHandle::from(7).is_not_ready());
    assert!(PendingRequestHandle::from(-1).is_error());
    assert!(!PendingRequestHandle::from(1).is_error());
}

#[test]
fn handles_convert_to_and_from_raw_values() {
    let mut req = RequestHandle::from(5);
    assert_eq!(i32::from(&req), 5);
    assert_eq!(i32::from(&mut req), 5);
    assert_eq!(i32::from(req), 5);
    let mut resp = ResponseHandle::from(i32::MAX);
    assert_eq!(i32::from(&resp), i32::MAX);
    assert_eq!(i32::from(&mut resp), i32::MAX);
    assert_eq!(i32::from(resp), i32::MAX);
    let mut pending = PendingRequestHandle::from(i32::MIN);
    assert_eq!(i32::from(&pending), i32::MIN);
    assert_eq!(i32::from(&mut pending), i32::MIN);
    let raw: i32 = pending.into();
    assert_eq!(raw, i32::MIN);
}

#[test]
fn create_and_send_tell_failure_from_a_handle() {
    assert_eq!(RequestHandle::create(3), Some(RequestHandle::from(3)));
    assert_eq!(RequestHandle::create(0), Some(RequestHandle::from(0)));
    assert_eq!(RequestHandle::create(-2), Some(RequestHandle::from(-2)));
    assert_eq!(RequestHandle::create(-1), None);
    assert_eq!(RequestHandle::from(3).send(9), Some(ResponseHandle::from(9)));
    assert_eq!(RequestHandle::from(3).send(-1), None);
    assert_eq!(RequestHandle::from(3).send_async(4), Some(PendingRequestHandle::from(4)));
    assert_eq!(RequestHandle::from(3).send_async(-1), None);
    assert_eq!(PendingRequestHandle::from(4).wait(9), Some(ResponseHandle::from(9)));
    assert_eq!(PendingRequestHandle::from(4).wait(-1), None);
}

#[test]
fn poll_not_ready_returns_same_handle() {
    let mut pending = PendingRequestHandle::from(7);
    for _ in 0..5 {
        pending = match pending.poll(ResponseHandle::NOT_READY) {
            PollResult::NotReady(again) => again,
            other => panic!("unexpected {:?}", other),
        };
        assert_eq!(pending, PendingRequestHandle::from(7));
    }
    assert_eq!(pending.poll(12), PollResult::Response(ResponseHandle::from(12)));
    assert_eq!(PendingRequestHandle::from(7).poll(-1), PollResult::Error);
    let ready = PendingRequestHandle::from(7).poll(0);
    assert_eq!(ready, PollResult::Response(ResponseHandle::from(0)));
}

#[test]
fn select_of_three_where_the_second_resolves_first() {
    let a = PendingRequestHandle::from(21);
    let b = PendingRequestHandle::from(22);
    let c = PendingRequestHandle::from(23);
    assert_eq!(select_set(&[&a, &b, &c]), vec![21, 22, 23]);
    assert_eq!(select(50, 22), Ok(Ok((PendingRequestHandle::from(22), ResponseHandle::from(50)))));
    // a and c are untouched: they go into a later select, a poll and a wait.
    assert_eq!(select_set(&[&c, &a]), vec![23, 21]);
    assert_eq!(a.poll(-2), PollResult::NotReady(PendingRequestHandle::from(21)));
    assert_eq!(c.wait(51), Some(ResponseHandle::from(51)));
}

#[test]
fn select_failure_and_violation() {
    assert_eq!(select(-1, 22), Ok(Err(PendingRequestHandle::from(22))));
    assert_eq!(select(-2, 22), Err(ProtocolViolation::SelectNotReady));
    assert_eq!(select(0, 0), Ok(Ok((PendingRequestHandle::from(0), ResponseHandle::from(0)))));
    assert_eq!(select_set(&[]), Vec::<i32>::new());
}

#[test]
fn response_code_out_of_range_is_a_violation() {
    let resp = ResponseHandle::from(2);
    assert_eq!(resp.get_response_code(200), Ok(200));
    assert_eq!(resp.get_response_code(0), Ok(0));
    assert_eq!(resp.get_response_code(65535), Ok(65535));
    assert_eq!(resp.get_response_code(65536), Err(ProtocolViolation::ResponseCodeOutOfRange));
    assert_eq!(resp.get_response_code(65536 + 200), Err(ProtocolViolation::ResponseCodeOutOfRange));
    assert_eq!(resp.get_response_code(u32::MAX), Err(ProtocolViolation::ResponseCodeOutOfRange));
}

#[test]
fn random_words_are_cut_to_their_low_half() {
    let mut rng = guest_rng();
    assert_eq!(rng.next_u32(0), 0);
    assert_eq!(rng.next_u32(0x1234_5678_89ab_cdef), 0x89ab_cdef);
    assert_eq!(rng.next_u32(u64::MAX), u32::MAX);
    assert_eq!(rng.next_u32(0xffff_ffff_0000_0000), 0);
    assert_eq!(rng.clone().next_u32(0x1_0000_0001), 1);
}

#[test]
fn time_since_epoch_in_coarse_ticks() {
    assert_eq!(Time::since_epoch(0, 0), Some(0));
    assert_eq!(Time::since_epoch(1, 0), Some(4294967296));
    assert_eq!(Time::since_epoch(0, 500_000_000), Some(2147483648));
    assert_eq!(Time::since_epoch(1, 500_000_000), Some(6442450944));
    assert_eq!(Time::since_epoch(5, 999_999_999), Some(25769803771));
    assert_eq!(Time::since_epoch(3, 1), Some(12884901892));
    assert_eq!(Time::since_epoch(1 << 40, 1), Some(u64::MAX));
    assert_eq!(Time::since_epoch(0, MAX_SUBSEC_NANOS), Some(8589934587));
    assert_eq!(Time::since_epoch(0, MAX_SUBSEC_NANOS + 1), None);
    assert_eq!(Time::since_epoch(7, u32::MAX), None);
    let ticks = Time::since_epoch(1_700_000_000, 123_456_789).unwrap();
    let duration = coarsetime::Duration::from_ticks(ticks);
    assert_eq!(duration, coarsetime::Duration::new(1_700_000_000, 123_456_789));
    assert_eq!(duration.as_secs(), 1_700_000_000);
}

#[test]
fn allocator_hands_out_zeroed_buffers() {
    assert_eq!(default_malloc_impl(0), Vec::<u8>::new());
    assert_eq!(default_malloc_impl(5), vec![0, 0, 0, 0, 0]);
    assert_eq!(default_malloc_impl(4096).len(), 4096);
    assert!(default_malloc_impl(4096).iter().all(|b| *b == 0));
    assert!(!free(0));
    assert!(free(1));
    assert!(free(usize::MAX));
}

#[test]
fn header_values_are_described_in_order() {
    let values = [(0x10, "ab"), (0x20, ""), (0x30, "h\u{e9}")];
    let expected =
        vec![GuestSlice::new(0x10, 2), GuestSlice::new(0x20, 0), GuestSlice::new(0x30, 3)];
    assert_eq!(describe(&values), expected);
    assert_eq!(RequestHandle::from(4).set_header(&values), expected);
    assert_eq!(ResponseHandle::outgoing().set_header(&values), expected);
    assert_eq!(describe(&[]), vec![]);
}
