use thespis_remote::error::{ErrorContext, ThesRemoteErr};
use thespis_remote::peer::state::{CallRoute, ConnErrOutcome};
use thespis_remote::peer::{
    classify, Call, CloseConnection, ConnectionError, Incoming, IncomingCall, IncomingSend, Peer, PeerEvent,
    Response,
};
use thespis_remote::pub_sub::PubSub;
use thespis_remote::relay_map::RelayMap;
use thespis_remote::thes_wf::ThesWF;
use thespis_remote::wire_format::{ConnID, ServiceID, ServiceRegistry, WireErr, WireFormat};

fn sid(n: u64) -> ServiceID {
    ServiceID::from_u64(n)
}

fn call_msg(s: u64) -> ThesWF {
    let mut wf = ThesWF::default();
    wf.set_sid(sid(s));
    ThesWF::write(&mut wf, b"payload");
    wf
}

#[test]
fn identify() {
    let p = Peer::new(3, None);
    assert_eq!(p.identify(), "Peer: id: 3");
    let q = Peer::new(12, Some("server".to_string()));
    assert_eq!(q.identify(), "Peer: id: 12, name: server");
    assert_eq!(Peer::identify_addr(0, Some("x")), "Peer: id: 0, name: x");
}

#[test]
fn conn_ids_skip_zero() {
    let mut p = Peer::new(1, None);
    assert_eq!(u64::from(p.next_conn_id()), 1);
    assert_eq!(u64::from(p.next_conn_id()), 2);
}

#[test]
fn calls_get_fresh_connection_ids() {
    let mut p = Peer::new(1, None);
    let w = p.prepare_call(Call::new(call_msg(5))).expect("open");
    assert_eq!(u64::from(w.cid()), 1);
    assert_eq!(u64::from(w.sid()), 5);
    assert_eq!(w.msg(), b"payload");
    assert_eq!(w.len(), call_msg(5).len());
    let w2 = p.prepare_call(Call::new(call_msg(5))).expect("open");
    assert_eq!(u64::from(w2.cid()), 2);
    assert_eq!(Call::new(call_msg(9)).service(), sid(9));
}

#[test]
fn response_goes_to_the_waiting_call_once() {
    let mut p = Peer::new(1, None);
    let w = p.prepare_call(Call::new(call_msg(5))).expect("open");
    p.expect_response(w.cid(), w.sid());
    assert!(p.incoming_call_response(w.cid()));
    // A second response for the same call is dropped.
    assert!(!p.incoming_call_response(w.cid()));
}

#[test]
fn timeout_then_late_response() {
    let mut p = Peer::new(1, None);
    let cid = ConnID::from_u64(4);
    p.expect_response(cid, sid(5));
    assert_eq!(p.timeout(cid, sid(5)), Some(ConnectionError::Timeout { sid: sid(5) }));
    assert_eq!(p.timeout(cid, sid(5)), None);
    assert!(!p.incoming_call_response(cid));
}

#[test]
fn closed_peer_refuses_calls() {
    let mut p = Peer::new(7, Some("p".to_string()));
    let ps: PubSub<u8> = PubSub::new(vec![sid(10)]);
    p.register_services(0, &ps);
    p.expect_response(ConnID::from_u64(1), sid(3));
    let ev = p.close_connection(&CloseConnection { remote: true, reason: "gone".to_string() });
    assert_eq!(ev, PeerEvent::ClosedByRemote);
    assert_eq!(p.close_connection(&CloseConnection { remote: false, reason: String::new() }), PeerEvent::Closed);
    match p.prepare_call(Call::new(call_msg(5))) {
        Err(ThesRemoteErr::ConnectionClosed { ctx }) => {
            assert_eq!(ctx.context.as_deref(), Some("Handler<Call> for Peer"));
            assert_eq!(ctx.peer_id, Some(7));
        }
        other => panic!("unexpected {:?}", other),
    }
    assert!(p.list_services().is_empty());
    assert!(!p.incoming_call_response(ConnID::from_u64(1)));
    let call = IncomingCall { frame: call_msg(10), sid: sid(10), cid: ConnID::from_u64(3), permit: true };
    assert!(matches!(p.incoming_call(&call), CallRoute::Ignore));
    // Once closed, incoming sends and error messages are ignored too.
    let send = IncomingSend { frame: call_msg(10), sid: sid(10) };
    assert!(p.incoming_send(&send).is_none());
    let e = ConnectionError::UnknownService { sid: None, cid: None };
    assert!(matches!(p.incoming_conn_err(ConnID::from_u64(1), Some(e)), ConnErrOutcome::Ignore));
}

#[test]
fn new_call_id_is_not_awaited() {
    let mut p = Peer::new(1, None);
    let mut awaited = Vec::new();
    for _ in 0..5 {
        let w = p.prepare_call(Call::new(call_msg(5))).expect("open");
        assert!(!w.cid().is_null());
        assert!(!awaited.contains(&w.cid()));
        p.expect_response(w.cid(), w.sid());
        awaited.push(w.cid());
    }
    // Answering one does not make its id come back.
    assert!(p.incoming_call_response(awaited[2]));
    let w = p.prepare_call(Call::new(call_msg(5))).expect("open");
    assert_eq!(u64::from(w.cid()), 6);
}

#[test]
fn services_register_route_and_remove() {
    let mut p = Peer::new(2, None);
    let relay: RelayMap<u8> = RelayMap::new(0, vec![sid(10), sid(11)]);
    p.register_services(4, &relay);
    let mut listed: Vec<u64> = p.list_services().into_iter().map(u64::from).collect();
    listed.sort();
    assert_eq!(listed, vec![10, 11]);

    let send = IncomingSend { frame: call_msg(10), sid: sid(10) };
    let (prov, ctx) = p.incoming_send(&send).expect("open").expect("known");
    assert_eq!(prov.sm, 4);
    assert!(!prov.apply_backpressure);
    assert_eq!(ctx.context.as_deref(), Some("Peer: Handle incoming send"));
    assert_eq!(ctx.sid, Some(sid(10)));

    let call = IncomingCall { frame: call_msg(11), sid: sid(11), cid: ConnID::from_u64(9), permit: true };
    match p.incoming_call(&call) {
        CallRoute::Deliver { provider, keep_permit, ctx } => {
            assert_eq!(provider.sm, 4);
            assert!(!keep_permit);
            assert_eq!(ctx.cid, Some(ConnID::from_u64(9)));
        }
        other => panic!("unexpected {:?}", other),
    }

    p.remove_services(&[sid(10)]);
    let send = IncomingSend { frame: call_msg(10), sid: sid(10) };
    match p.incoming_send(&send) {
        Some(Err(ThesRemoteErr::UnknownService { ctx })) => assert_eq!(ctx.sid, Some(sid(10))),
        other => panic!("unexpected {:?}", other),
    }
    let call = IncomingCall { frame: call_msg(10), sid: sid(10), cid: ConnID::from_u64(9), permit: false };
    match p.incoming_call(&call) {
        CallRoute::Fail(ThesRemoteErr::UnknownService { ctx }) => {
            assert_eq!(ctx.context.as_deref(), Some("Peer: Handle incoming call"));
            assert_eq!(ctx.cid, Some(ConnID::from_u64(9)));
        }
        other => panic!("unexpected {:?}", other),
    }
}

#[test]
fn classify_by_ids() {
    let mut m = ThesWF::default();
    m.set_sid(ServiceID::null());
    m.set_cid(ConnID::from_u64(3));
    assert!(matches!(classify(m), Incoming::ConnErr(_)));
    let mut m = ThesWF::default();
    m.set_sid(ServiceID::full());
    m.set_cid(ConnID::from_u64(3));
    assert!(matches!(classify(m), Incoming::CallResponse(_)));
    let mut m = ThesWF::default();
    m.set_sid(sid(5));
    assert!(matches!(classify(m), Incoming::Send(IncomingSend { sid: s, .. }) if s == sid(5)));
    let mut m = ThesWF::default();
    m.set_sid(sid(5));
    m.set_cid(ConnID::from_u64(8));
    assert!(matches!(classify(m), Incoming::Call(IncomingCall { permit: false, .. })));
}

#[test]
fn remote_errors() {
    let mut p = Peer::new(1, None);
    let cid = ConnID::from_u64(6);
    p.expect_response(cid, sid(2));
    let e = ConnectionError::UnknownService { sid: Some(sid(2)), cid: Some(cid) };
    assert!(matches!(p.incoming_conn_err(cid, Some(e.clone())), ConnErrOutcome::ToCaller(x) if x == e));
    assert!(matches!(p.incoming_conn_err(cid, Some(e.clone())), ConnErrOutcome::Event(PeerEvent::RemoteError(x)) if x == e));
    match p.incoming_conn_err(cid, None) {
        ConnErrOutcome::Event(PeerEvent::Error(ThesRemoteErr::Deserialize { ctx })) => assert_eq!(ctx.cid, Some(cid)),
        other => panic!("unexpected {:?}", other),
    }
}

fn ctx_with(cid: Option<ConnID>) -> ErrorContext {
    ErrorContext { context: None, peer_id: None, peer_name: None, sid: Some(sid(8)), cid }
}

#[test]
fn request_error_table() {
    let p = Peer::new(1, None);
    let c = Some(ConnID::from_u64(3));
    let r = p.request_error(ThesRemoteErr::Spawn { ctx: ctx_with(c) });
    assert_eq!(r.reply, Some((ConnID::from_u64(3), ConnectionError::InternalServerError { sid: Some(sid(8)), cid: c })));
    assert!(r.close);
    let r = p.request_error(ThesRemoteErr::Deserialize { ctx: ctx_with(c) });
    assert_eq!(r.reply, Some((ConnID::from_u64(3), ConnectionError::Deserialize { sid: Some(sid(8)), cid: c })));
    assert!(!r.close);
    let r = p.request_error(ThesRemoteErr::UnknownService { ctx: ctx_with(c) });
    assert_eq!(r.reply, Some((ConnID::from_u64(3), ConnectionError::UnknownService { sid: Some(sid(8)), cid: c })));
    let r = p.request_error(ThesRemoteErr::PubSubNoCall { ctx: ctx_with(c) });
    assert_eq!(r.reply, Some((ConnID::from_u64(3), ConnectionError::PubSubNoCall { sid: Some(sid(8)), cid: c })));
    for e in [
        ThesRemoteErr::NoHandler { ctx: ctx_with(c) },
        ThesRemoteErr::HandlerDead { ctx: ctx_with(c) },
        ThesRemoteErr::Serialize { ctx: ctx_with(c) },
        ThesRemoteErr::RelayGone { ctx: ctx_with(c), relay_id: 1, relay_name: None },
    ] {
        let r = p.request_error(e.clone());
        assert_eq!(r.event, PeerEvent::Error(e));
        assert_eq!(r.reply, Some((ConnID::from_u64(3), ConnectionError::InternalServerError { sid: Some(sid(8)), cid: c })));
        assert!(!r.close);
    }
    // A failure of the wire format in a call is reported with its message, and closes.
    let r = p.request_error(ThesRemoteErr::WireFormat {
        ctx: ctx_with(c),
        source: WireErr::Deserialize { context: ": bad".to_string() },
    });
    assert_eq!(
        r.reply,
        Some((
            ConnID::from_u64(3),
            ConnectionError::DeserializeWireFormat {
                context: "Failed to deserialize incoming data. The connection will be closed because the stream integrity can no longer be assumed: bad".to_string()
            }
        ))
    );
    assert!(r.close);
    // A send gets no feedback.
    let r = p.request_error(ThesRemoteErr::Spawn { ctx: ctx_with(None) });
    assert_eq!(r.reply, None);
    assert!(!r.close);
    // Wire format errors of the stream have no connection id.
    let w = p.incoming_wire_error(WireErr::Deserialize { context: "x".to_string() });
    assert_eq!(p.request_error(w).reply, None);
}

#[test]
fn error_messages_for_the_remote() {
    let m: ThesWF = Peer::prep_error(ConnID::from_u64(9), b"err");
    assert!(m.sid().is_null());
    assert_eq!(u64::from(m.cid()), 9);
    assert_eq!(m.msg(), b"err");
    assert!(matches!(classify(m), Incoming::ConnErr(_)));
}

#[test]
fn connection_error_display() {
    let reg = ServiceRegistry::new();
    let e = ConnectionError::Deserialize { sid: Some(sid(1)), cid: None };
    assert_eq!(
        e.to_display_string(&reg),
        "Remote failed to deserialize your actor message (sid: Some(0x0000000000000001), cid: None)."
    );
    let e = ConnectionError::Timeout { sid: sid(2) };
    assert_eq!(e.to_display_string(&reg), "Timed out waiting for a response to a call (sid: 0x0000000000000002).");
    let e = ConnectionError::DeserializeWireFormat { context: "ctx".to_string() };
    assert_eq!(e.to_display_string(&reg), "Remote failed to deserialize the wire format: ctx");
}

#[test]
fn pub_sub_subscribers() {
    let mut ps: PubSub<&str> = PubSub::new(vec![sid(1)]);
    ps.subscribe(3, "a");
    ps.subscribe(4, "b");
    ps.subscribe(3, "c");
    let mut ids = ps.subscriber_ids();
    ids.sort();
    assert_eq!(ids, vec![3, 4]);
    assert_eq!(ps.subscriber(3), Some(&"c"));
    ps.unsubscribe(3);
    assert_eq!(ps.subscriber_ids(), vec![4]);
    let ctx = ErrorContext::default();
    assert_eq!(ps.call_service(ctx.clone()), Err(ThesRemoteErr::PubSubNoCall { ctx }));
}

#[test]
fn relay_outcomes() {
    let mut resp = ThesWF::default();
    resp.set_sid(ServiceID::full());
    resp.set_cid(ConnID::from_u64(100));
    match RelayMap::<u8>::relay_response(ConnID::from_u64(5), Ok(resp)) {
        Response::CallResponse(c) => assert_eq!(u64::from(c.into_message().cid()), 5),
        other => panic!("unexpected {:?}", other),
    }
    match RelayMap::<u8>::relay_response::<ThesWF>(ConnID::from_u64(5), Err(b"e".to_vec())) {
        Response::WireFormat(w) => {
            assert!(w.sid().is_null());
            assert_eq!(u64::from(w.cid()), 5);
        }
        other => panic!("unexpected {:?}", other),
    }
    let gone = RelayMap::<u8>::relay_gone(ErrorContext::default(), 3, Some("relay".to_string()));
    match gone {
        ThesRemoteErr::RelayGone { ctx, relay_id, relay_name } => {
            assert_eq!(ctx.context.as_deref(), Some("Process incoming Call to relay"));
            assert_eq!(relay_id, 3);
            assert_eq!(relay_name.as_deref(), Some("relay"));
        }
        other => panic!("unexpected {:?}", other),
    }
    assert!(matches!(RelayMap::<u8>::send_outcome::<ThesWF>(true, ErrorContext::default()), Ok(Response::Nothing)));
    assert!(matches!(
        RelayMap::<u8>::send_outcome::<ThesWF>(false, ErrorContext::default()),
        Err(ThesRemoteErr::HandlerDead { .. })
    ));
}

#[test]
fn relayed_response_keeps_length() {
    let mut resp = ThesWF::default();
    resp.set_sid(ServiceID::full());
    resp.set_cid(ConnID::from_u64(100));
    ThesWF::write(&mut resp, b"answer");
    let len = resp.len();
    match RelayMap::<u8>::relay_response(ConnID::from_u64(5), Ok(resp)) {
        Response::CallResponse(c) => {
            let m = c.into_message();
            assert_eq!(m.len(), len);
            assert_eq!(m.msg(), b"answer");
            assert!(m.sid().is_full());
        }
        other => panic!("unexpected {:?}", other),
    }
}
