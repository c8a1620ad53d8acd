use rpc_transport::connection::Connection;
use rpc_transport::dispatch::{CodecOutcome, DispatchState, Dispatcher, StepAction, StopReason};
use rpc_transport::envelope::{Control, InboundEnvelope, Request, Response};
use rpc_transport::framing::encode_frame;
use rpc_transport::routing::RouteAction;

fn request(payload: &[u8]) -> Request {
    Request { payload: payload.to_vec(), control: None }
}

fn response(token: u64, payload: &[u8]) -> InboundEnvelope {
    InboundEnvelope::Response(Response {
        payload: payload.to_vec(),
        control: Some(Control { mailbox_slot: token, req_resp: true }),
    })
}

#[test]
fn begin_request_stamps_and_registers() {
    let mut conn: Connection<u64> = Connection::new();
    let mut req = request(b"ping");
    let token = conn.begin_request(&mut req, 11).expect("token space is fresh");
    assert_eq!(token, 0);
    assert_eq!(req.payload, b"ping".to_vec());
    assert_eq!(req.control, Some(Control { mailbox_slot: token, req_resp: true }));
    assert!(conn.has_waiter(token));
    assert_eq!(conn.pending(), 1);
}

#[test]
fn tokens_are_distinct_per_request() {
    let mut conn: Connection<u64> = Connection::new();
    let t1 = conn.begin_request(&mut request(b"a"), 1).expect("fresh");
    let t2 = conn.begin_request(&mut request(b"b"), 2).expect("fresh");
    assert_ne!(t1, t2);
    assert_eq!(conn.pending(), 2);
}

#[test]
fn responses_resolve_their_own_callers_in_either_order() {
    // two requests issued back-to-back; the peer answers the second first
    let mut conn: Connection<u64> = Connection::new();
    let t1 = conn.begin_request(&mut request(b"first"), 11).expect("fresh");
    let t2 = conn.begin_request(&mut request(b"second"), 22).expect("fresh");

    match conn.route_inbound(response(t2, b"answer two")) {
        RouteAction::Deliver(slot, resp) => {
            assert_eq!(slot, 22);
            assert_eq!(resp.payload, b"answer two".to_vec());
        }
        _ => panic!("the second caller's response must be delivered"),
    }
    match conn.route_inbound(response(t1, b"answer one")) {
        RouteAction::Deliver(slot, resp) => {
            assert_eq!(slot, 11);
            assert_eq!(resp.payload, b"answer one".to_vec());
        }
        _ => panic!("the first caller's response must be delivered"),
    }
    assert_eq!(conn.pending(), 0);
}

#[test]
fn unmatched_delivery_is_non_fatal() {
    let mut conn: Connection<u64> = Connection::new();
    let mut disp = Dispatcher::new();

    // a response for a token that was never registered is dropped...
    let action = disp.on_envelope(CodecOutcome::Envelope(response(99, b"stray")), &mut conn);
    match action {
        StepAction::Routed(RouteAction::DropUnmatched(resp)) => {
            assert_eq!(resp.payload, b"stray".to_vec());
        }
        _ => panic!("a stray response is dropped as unmatched"),
    }
    // ...the loop keeps running, and a registered delivery still succeeds
    assert_eq!(disp.current_state(), DispatchState::Running);
    let token = conn.begin_request(&mut request(b"ping"), 7).expect("fresh");
    match disp.on_envelope(CodecOutcome::Envelope(response(token, b"pong")), &mut conn) {
        StepAction::Routed(RouteAction::Deliver(slot, resp)) => {
            assert_eq!(slot, 7);
            assert_eq!(resp.payload, b"pong".to_vec());
        }
        _ => panic!("the registered waiter must still be served"),
    }
}

#[test]
fn response_without_control_is_dropped_not_fatal() {
    let mut conn: Connection<u64> = Connection::new();
    let mut disp = Dispatcher::new();
    let bare = InboundEnvelope::Response(Response { payload: b"x".to_vec(), control: None });
    match disp.on_envelope(CodecOutcome::Envelope(bare), &mut conn) {
        StepAction::Routed(RouteAction::DropMalformed(resp)) => {
            assert_eq!(resp.payload, b"x".to_vec());
        }
        _ => panic!("a response without control is dropped as malformed"),
    }
    assert_eq!(disp.current_state(), DispatchState::Running);
}

#[test]
fn unrecognized_envelope_is_dropped_not_fatal() {
    let mut conn: Connection<u64> = Connection::new();
    let mut disp = Dispatcher::new();
    match disp.on_envelope(CodecOutcome::Envelope(InboundEnvelope::Unrecognized), &mut conn) {
        StepAction::Routed(RouteAction::DropUnhandled) => {}
        _ => panic!("an unhandled envelope kind is dropped"),
    }
    assert_eq!(disp.current_state(), DispatchState::Running);
}

#[test]
fn end_of_stream_mid_read_stops_the_loop_for_good() {
    let mut conn: Connection<u64> = Connection::new();
    let token = conn.begin_request(&mut request(b"ping"), 7).expect("fresh");
    let mut disp = Dispatcher::new();

    // the header read returns nothing: the peer closed the stream
    assert_eq!(disp.on_header(&Vec::new()), None);
    assert_eq!(disp.current_state(), DispatchState::Stopped(StopReason::ConnectionClosed));

    // once stopped, nothing is delivered any more, whatever arrives
    match disp.on_envelope(CodecOutcome::Envelope(response(token, b"late")), &mut conn) {
        StepAction::Halted(reason) => assert_eq!(reason, StopReason::ConnectionClosed),
        _ => panic!("a stopped loop delivers nothing"),
    }
    assert!(conn.has_waiter(token));
    assert_eq!(disp.on_header(&encode_frame(&b"more".to_vec())), None);
    assert!(!disp.on_body(&b"more".to_vec(), 4));
}

#[test]
fn short_body_read_stops_the_loop_as_closed() {
    let mut disp = Dispatcher::new();
    let frame = encode_frame(&b"pong".to_vec());
    let length = disp.on_header(&frame[..5].to_vec()).expect("well-formed header");
    assert_eq!(length, 4);
    // only two of the four announced bytes arrive before the stream ends
    assert!(!disp.on_body(&frame[5..7].to_vec(), length));
    assert_eq!(disp.current_state(), DispatchState::Stopped(StopReason::ConnectionClosed));
}

#[test]
fn bad_magic_stops_the_loop_as_protocol_error() {
    let mut disp = Dispatcher::new();
    // the bytes after the wrong sentinel would announce a huge length
    assert_eq!(disp.on_header(&vec![12u8, 0xff, 0xff, 0xff, 0xff]), None);
    assert_eq!(disp.current_state(), DispatchState::Stopped(StopReason::Protocol));
}

#[test]
fn codec_refusal_stops_the_loop_as_protocol_error() {
    let mut conn: Connection<u64> = Connection::new();
    let mut disp = Dispatcher::new();
    match disp.on_envelope::<u64>(CodecOutcome::Malformed, &mut conn) {
        StepAction::Halted(reason) => assert_eq!(reason, StopReason::Protocol),
        _ => panic!("a body the codec refuses is fatal to the loop"),
    }
    assert_eq!(disp.current_state(), DispatchState::Stopped(StopReason::Protocol));
}

#[test]
fn ping_pong_exchange_round_trip() {
    // the caller's side
    let mut conn: Connection<u64> = Connection::new();
    let mut req = request(b"ping");
    let token = conn.begin_request(&mut req, 42).expect("fresh");

    // the wire: the frame around the encoded request announces exactly the
    // payload codec's output size (the peer checks this before replying)
    let encoded_request = req.payload.clone();
    let frame = encode_frame(&encoded_request);
    assert_eq!(frame.len(), 5 + encoded_request.len());
    assert_eq!(frame[1] as usize, encoded_request.len());
    assert_eq!(&frame[2..5], &[0, 0, 0]);

    // the peer echoes the token with payload "pong"; the reader routes it
    let mut disp = Dispatcher::new();
    match disp.on_envelope(CodecOutcome::Envelope(response(token, b"pong")), &mut conn) {
        StepAction::Routed(RouteAction::Deliver(slot, resp)) => {
            assert_eq!(slot, 42);
            assert_eq!(resp.payload, b"pong".to_vec());
            assert_eq!(resp.control, Some(Control { mailbox_slot: token, req_resp: true }));
        }
        _ => panic!("the caller's response must be delivered"),
    }
    // the mailbox entry is consumed by the delivery
    assert!(!conn.has_waiter(token));
    assert_eq!(conn.pending(), 0);
}

#[test]
fn full_reader_loop_over_two_frames_then_eof() {
    let mut conn: Connection<u64> = Connection::new();
    let t1 = conn.begin_request(&mut request(b"a"), 1).expect("fresh");
    let t2 = conn.begin_request(&mut request(b"b"), 2).expect("fresh");

    // the peer answers the second request first; bodies stand for what the
    // payload codec would decode
    let replies = vec![(t2, b"beta".to_vec()), (t1, b"alfa".to_vec())];
    let mut wire: Vec<u8> = Vec::new();
    for (_, payload) in &replies {
        wire.extend_from_slice(&encode_frame(payload));
    }

    let mut disp = Dispatcher::new();
    let mut delivered: Vec<(u64, Vec<u8>)> = Vec::new();
    let mut cursor = 0usize;
    let mut reply = 0usize;
    loop {
        let header: Vec<u8> = wire[cursor..wire.len().min(cursor + 5)].to_vec();
        let length = match disp.on_header(&header) {
            Some(l) => l,
            None => break,
        };
        cursor += 5;
        let body: Vec<u8> = wire[cursor..wire.len().min(cursor + length as usize)].to_vec();
        if !disp.on_body(&body, length) {
            break;
        }
        cursor += length as usize;
        // the stand-in codec: the reply list says which token each body bears
        let (token, _) = replies[reply];
        reply += 1;
        match disp.on_envelope(CodecOutcome::Envelope(response(token, &body)), &mut conn) {
            StepAction::Routed(RouteAction::Deliver(slot, resp)) => {
                delivered.push((slot, resp.payload));
            }
            StepAction::Routed(_) => {}
            StepAction::Halted(_) => break,
        }
    }
    assert_eq!(disp.current_state(), DispatchState::Stopped(StopReason::ConnectionClosed));
    assert_eq!(delivered, vec![(2, b"beta".to_vec()), (1, b"alfa".to_vec())]);
    assert_eq!(conn.pending(), 0);
}

#[test]
fn remove_waiter_evicts_a_pending_entry() {
    let mut conn: Connection<u64> = Connection::new();
    let token = conn.begin_request(&mut request(b"ping"), 5).expect("fresh");
    assert_eq!(conn.remove_waiter(token), Some(5));
    assert!(!conn.has_waiter(token));
    // the response that arrives after the eviction is dropped as unmatched
    match conn.route_inbound(response(token, b"late")) {
        RouteAction::DropUnmatched(resp) => assert_eq!(resp.payload, b"late".to_vec()),
        _ => panic!("an evicted token has no waiter"),
    }
}
