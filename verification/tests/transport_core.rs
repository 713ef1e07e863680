use utransport_socket::codec::encode_envelope;
use utransport_socket::dispatch::{handle_frame, loop_step, Dispatched, LoopAction, ReadEvent};
use utransport_socket::message::{Attributes, Envelope, Kind, Uuid128};
use utransport_socket::registry::Registry;
use utransport_socket::send::{prepare_send, send_status};
use utransport_socket::status::Code;
use utransport_socket::topic::Topic;
use utransport_socket::transport::{receive_status, register_listener};

fn attributes(kind: Kind, source: Option<Topic>, sink: Option<Topic>) -> Attributes {
    Attributes {
        kind,
        id: Some(Uuid128 { msb: 1, lsb: 2 }),
        source,
        sink,
        priority: 0,
        ttl: None,
        permission_level: None,
        comm_status: None,
        request_id: None,
        token: None,
        trace_parent: None,
    }
}

fn topic_a() -> Topic {
    Topic::new("vehicle-a", 0x10AB, 1, 0x8000)
}

fn topic_b() -> Topic {
    Topic::new("vehicle-b", 0x20CD, 2, 0x8001)
}

#[test]
fn registry_rejects_duplicate_pair() {
    let mut reg = Registry::new();
    assert!(reg.register(topic_a(), 11).is_ok());
    let second = reg.register(topic_a(), 11);
    assert_eq!(second.unwrap_err().code, Code::AlreadyExists);
    let snapshot = reg.listeners_for(&topic_a()).unwrap();
    assert_eq!(snapshot.iter().filter(|l| **l == 11).count(), 1);
    assert_eq!(snapshot.len(), 1);
}

#[test]
fn registry_allows_two_listeners_on_one_topic() {
    let mut reg = Registry::new();
    assert!(reg.register(topic_a(), 11).is_ok());
    assert!(reg.register(topic_a(), 12).is_ok());
    let snapshot = reg.listeners_for(&topic_a()).unwrap();
    assert_eq!(snapshot.len(), 2);
    assert!(snapshot.contains(&11));
    assert!(snapshot.contains(&12));
}

#[test]
fn registry_prunes_topic_when_last_listener_leaves() {
    let mut reg = Registry::new();
    assert!(reg.register(topic_a(), 11).is_ok());
    assert!(reg.unregister(&topic_a(), 11).is_ok());
    let lookup = reg.listeners_for(&topic_a());
    assert_eq!(lookup.unwrap_err().code, Code::NotFound);
}

#[test]
fn registry_unregister_unknown_pair_is_not_found() {
    let mut reg = Registry::new();
    assert_eq!(reg.unregister(&topic_a(), 11).unwrap_err().code, Code::NotFound);
    assert!(reg.register(topic_a(), 11).is_ok());
    assert_eq!(reg.unregister(&topic_a(), 12).unwrap_err().code, Code::NotFound);
    assert_eq!(reg.unregister(&topic_b(), 11).unwrap_err().code, Code::NotFound);
}

#[test]
fn register_listener_rejects_authority_only_topic() {
    let mut reg = Registry::new();
    let authority_only = Topic::new("vehicle-a", 0, 0, 0);
    let r = register_listener(&mut reg, authority_only, 11);
    assert_eq!(r.unwrap_err().code, Code::Unimplemented);
}

#[test]
fn register_listener_rejects_topic_without_entity() {
    let mut reg = Registry::new();
    let no_entity = Topic::new("", 0, 0, 0x8000);
    let r = register_listener(&mut reg, no_entity, 11);
    assert_eq!(r.unwrap_err().code, Code::InvalidArgument);
}

#[test]
fn publish_routes_by_source_to_all_its_listeners_only() {
    let mut reg = Registry::new();
    register_listener(&mut reg, topic_a(), 11).unwrap();
    register_listener(&mut reg, topic_a(), 12).unwrap();
    register_listener(&mut reg, topic_b(), 99).unwrap();
    let envelope = Envelope {
        attributes: attributes(Kind::Publish, Some(topic_a()), None),
        payload: vec![1, 2, 3],
    };
    let frame = prepare_send(&envelope).unwrap();
    match handle_frame(&reg, &frame) {
        Dispatched::Deliver(listeners, delivered) => {
            assert_eq!(listeners.len(), 2);
            assert!(listeners.contains(&11));
            assert!(listeners.contains(&12));
            assert!(!listeners.contains(&99));
            assert_eq!(delivered.payload, vec![1, 2, 3]);
            assert_eq!(delivered.attributes.kind, Kind::Publish);
        }
        _ => panic!("expected delivery to the source topic's listeners"),
    }
}

#[test]
fn request_routes_by_sink() {
    let mut reg = Registry::new();
    register_listener(&mut reg, topic_b(), 21).unwrap();
    let envelope = Envelope {
        attributes: attributes(Kind::Request, Some(topic_a()), Some(topic_b())),
        payload: vec![9],
    };
    let frame = prepare_send(&envelope).unwrap();
    match handle_frame(&reg, &frame) {
        Dispatched::Deliver(listeners, _) => {
            assert_eq!(listeners, vec![21]);
        }
        _ => panic!("expected delivery to the sink topic's listener"),
    }
}

#[test]
fn request_routed_by_sink_not_source() {
    let mut reg = Registry::new();
    register_listener(&mut reg, topic_a(), 11).unwrap();
    let envelope = Envelope {
        attributes: attributes(Kind::Request, Some(topic_a()), Some(topic_b())),
        payload: vec![],
    };
    let frame = prepare_send(&envelope).unwrap();
    match handle_frame(&reg, &frame) {
        Dispatched::NoListeners => {}
        _ => panic!("a request must route by its sink, not its source"),
    }
}

#[test]
fn response_envelopes_are_not_routed() {
    let mut reg = Registry::new();
    register_listener(&mut reg, topic_a(), 11).unwrap();
    let mut a = attributes(Kind::Response, Some(topic_a()), Some(topic_a()));
    a.request_id = Some(Uuid128 { msb: 3, lsb: 4 });
    let envelope = Envelope { attributes: a, payload: vec![] };
    let frame = encode_envelope(&envelope);
    match handle_frame(&reg, &frame) {
        Dispatched::Unrouted => {}
        _ => panic!("responses carry no routing behaviour in this transport"),
    }
}

#[test]
fn missing_listeners_are_non_fatal() {
    let reg = Registry::new();
    let envelope = Envelope {
        attributes: attributes(Kind::Publish, Some(topic_a()), None),
        payload: vec![7],
    };
    let frame = prepare_send(&envelope).unwrap();
    match loop_step(&reg, ReadEvent::Data(frame)) {
        LoopAction::Continue => {}
        _ => panic!("a topic with no listeners must not stop the loop"),
    }
}

#[test]
fn corrupt_frame_is_skipped() {
    let reg = Registry::new();
    let garbage = vec![0xFF, 0xFF, 0xFF, 0x01, 0x02];
    match loop_step(&reg, ReadEvent::Data(garbage)) {
        LoopAction::Continue => {}
        _ => panic!("a frame that does not decode must be skipped"),
    }
}

#[test]
fn empty_read_is_not_a_close() {
    let reg = Registry::new();
    match loop_step(&reg, ReadEvent::Data(Vec::new())) {
        LoopAction::Continue => {}
        _ => panic!("a zero-length read means no data yet"),
    }
}

#[test]
fn read_failure_stops_the_loop() {
    let reg = Registry::new();
    match loop_step(&reg, ReadEvent::Failure) {
        LoopAction::Stop => {}
        _ => panic!("only a read failure terminates the loop"),
    }
}

#[test]
fn concurrent_fanout_names_each_listener_once() {
    let mut reg = Registry::new();
    register_listener(&mut reg, topic_a(), 1).unwrap();
    register_listener(&mut reg, topic_a(), 2).unwrap();
    register_listener(&mut reg, topic_a(), 3).unwrap();
    let envelope = Envelope {
        attributes: attributes(Kind::Publish, Some(topic_a()), None),
        payload: vec![42],
    };
    let frame = prepare_send(&envelope).unwrap();
    match handle_frame(&reg, &frame) {
        Dispatched::Deliver(listeners, _) => {
            assert_eq!(listeners.len(), 3);
            for l in [1u64, 2, 3] {
                assert_eq!(listeners.iter().filter(|x| **x == l).count(), 1);
            }
        }
        _ => panic!("expected delivery to the three listeners"),
    }
}

#[test]
fn send_rejects_publish_with_default_source() {
    let envelope = Envelope {
        attributes: attributes(Kind::Publish, Some(Topic::new("", 0, 0, 0)), None),
        payload: vec![1],
    };
    let status = prepare_send(&envelope).unwrap_err();
    assert_eq!(status.code, Code::InvalidArgument);
    assert_eq!(status.message, "publish attributes lack a well-formed source");
}

#[test]
fn send_rejects_oversized_envelope() {
    let envelope = Envelope {
        attributes: attributes(Kind::Publish, Some(topic_a()), None),
        payload: vec![0u8; 0x4000_0000],
    };
    let status = prepare_send(&envelope).unwrap_err();
    assert_eq!(status.code, Code::Unavailable);
}

#[test]
fn send_rejects_publish_without_source() {
    let envelope = Envelope {
        attributes: attributes(Kind::Publish, None, None),
        payload: vec![1],
    };
    assert_eq!(prepare_send(&envelope).unwrap_err().code, Code::InvalidArgument);
}

#[test]
fn send_rejects_request_without_sink() {
    let envelope = Envelope {
        attributes: attributes(Kind::Request, Some(topic_a()), None),
        payload: vec![],
    };
    assert_eq!(prepare_send(&envelope).unwrap_err().code, Code::InvalidArgument);
}

#[test]
fn send_rejects_response_without_request_id() {
    let envelope = Envelope {
        attributes: attributes(Kind::Response, Some(topic_a()), Some(topic_b())),
        payload: vec![],
    };
    assert_eq!(prepare_send(&envelope).unwrap_err().code, Code::InvalidArgument);
}

#[test]
fn send_rejects_unspecified_kind() {
    let envelope = Envelope {
        attributes: attributes(Kind::Unspecified, Some(topic_a()), Some(topic_b())),
        payload: vec![],
    };
    assert_eq!(prepare_send(&envelope).unwrap_err().code, Code::InvalidArgument);
}

#[test]
fn send_accepts_valid_response() {
    let mut a = attributes(Kind::Response, Some(topic_a()), Some(topic_b()));
    a.request_id = Some(Uuid128 { msb: 8, lsb: 9 });
    let envelope = Envelope { attributes: a, payload: vec![5] };
    assert!(prepare_send(&envelope).is_ok());
}

#[test]
fn send_status_reports_explicit_outcome() {
    assert_eq!(send_status(true).code, Code::Success);
    assert!(send_status(true).is_ok());
    assert_eq!(send_status(false).code, Code::Unavailable);
}

#[test]
fn receive_is_unimplemented() {
    assert_eq!(receive_status().code, Code::Unimplemented);
}

#[test]
fn frame_survives_encode_and_decode() {
    let mut a = attributes(Kind::Request, Some(topic_a()), Some(topic_b()));
    a.ttl = Some(1000);
    a.priority = 3;
    a.comm_status = Some(0);
    a.request_id = Some(Uuid128 { msb: 77, lsb: 88 });
    a.token = Some("token-value".to_string());
    a.trace_parent = Some("trace-value".to_string());
    let envelope = Envelope { attributes: a, payload: vec![0, 1, 2, 250] };
    let frame = encode_envelope(&envelope);
    let decoded = utransport_socket::codec::decode_frame(&frame).unwrap();
    assert_eq!(decoded.payload, vec![0, 1, 2, 250]);
    assert_eq!(decoded.attributes.kind, Kind::Request);
    assert_eq!(decoded.attributes.id, Some(Uuid128 { msb: 1, lsb: 2 }));
    assert!(decoded.attributes.source.as_ref().unwrap() == &topic_a());
    assert!(decoded.attributes.sink.as_ref().unwrap() == &topic_b());
    assert_eq!(decoded.attributes.priority, 3);
    assert_eq!(decoded.attributes.ttl, Some(1000));
    assert_eq!(decoded.attributes.comm_status, Some(0));
    assert_eq!(decoded.attributes.request_id, Some(Uuid128 { msb: 77, lsb: 88 }));
    assert_eq!(decoded.attributes.token.as_deref(), Some("token-value"));
    assert_eq!(decoded.attributes.trace_parent.as_deref(), Some("trace-value"));
}

#[test]
fn publish_then_unregister_scenario() {
    let mut reg = Registry::new();
    register_listener(&mut reg, topic_a(), 1).unwrap();
    let envelope = Envelope {
        attributes: attributes(Kind::Publish, Some(topic_a()), None),
        payload: b"x".to_vec(),
    };
    let frame = prepare_send(&envelope).unwrap();
    match loop_step(&reg, ReadEvent::Data(frame.clone())) {
        LoopAction::Deliver(listeners, delivered) => {
            assert_eq!(listeners, vec![1]);
            assert_eq!(delivered.payload, b"x".to_vec());
        }
        _ => panic!("the registered listener must receive the envelope"),
    }
    reg.unregister(&topic_a(), 1).unwrap();
    match loop_step(&reg, ReadEvent::Data(frame)) {
        LoopAction::Continue => {}
        _ => panic!("no invocation may occur after unregistration"),
    }
    assert_eq!(reg.listeners_for(&topic_a()).unwrap_err().code, Code::NotFound);
}

#[test]
fn internal_code_is_constructible() {
    let s = utransport_socket::status::Status::fail_with_code(Code::Internal, "issue in connecting socket");
    assert_eq!(s.code, Code::Internal);
    assert_eq!(s.message, "issue in connecting socket");
    assert!(!s.is_ok());
}
