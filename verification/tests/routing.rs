//! Tests of the multiplexer's routing state: FIFO order, event routing,
//! unknown handling, and the error-handler slot.  Sinks are plain numbers
//! here; the state machine never looks inside them.

use rsvici::error::{Category, ErrorCode};
use rsvici::listener::{EventRequest, Listener, Registration, Routing};
use rsvici::packet::Packet;
use rsvici::packet_type::PacketType;

fn response() -> Packet {
    Packet::new(PacketType::CmdResponse, Vec::new())
}

fn event(name: &[u8], body: &[u8]) -> Packet {
    Packet::new(PacketType::Event(name.to_vec()), body.to_vec())
}

fn register(l: &mut Listener<u64, u64>, name: &[u8], handler: u64) {
    let left = l.on_event_request(
        EventRequest {
            event: name.to_vec(),
            registration: Registration::Register,
            handler,
        },
        true,
    );
    assert!(left.is_none());
    match l.on_response(Packet::new(PacketType::EventConfirm, Vec::new())) {
        Routing::RegisterConfirmed { event, handler, .. } => {
            l.finish_register(event, handler, true).unwrap();
        }
        _ => panic!("expected a confirmed registration"),
    }
}

fn unregister(l: &mut Listener<u64, u64>, name: &[u8], handler: u64) {
    let left = l.on_event_request(
        EventRequest {
            event: name.to_vec(),
            registration: Registration::Unregister,
            handler,
        },
        true,
    );
    assert!(left.is_none());
    match l.on_response(Packet::new(PacketType::EventConfirm, Vec::new())) {
        Routing::UnregisterConfirmed { .. } => {}
        _ => panic!("expected a confirmed unregistration"),
    }
}

#[test]
fn fifo_preserves_write_order() {
    let mut l: Listener<u64, u64> = Listener::new();
    for handler in [10, 11, 12] {
        assert!(l.on_command_request(handler, true).is_none());
    }
    assert_eq!(l.pending_commands(), 3);
    for expected in [10, 11, 12] {
        match l.on_response(response()) {
            Routing::CommandResponse { handler, .. } => assert_eq!(handler, expected),
            _ => panic!("expected a command response delivery"),
        }
    }
    assert_eq!(l.pending_commands(), 0);
}

#[test]
fn failed_write_does_not_enqueue() {
    let mut l: Listener<u64, u64> = Listener::new();
    assert_eq!(l.on_command_request(7, false), Some(7));
    assert_eq!(l.pending_commands(), 0);
    let left = l.on_event_request(
        EventRequest {
            event: b"log".to_vec(),
            registration: Registration::Register,
            handler: 8,
        },
        false,
    );
    assert_eq!(left.unwrap().handler, 8);
    assert_eq!(l.pending_events(), 0);
}

#[test]
fn unknown_command_pops_exactly_one() {
    let mut l: Listener<u64, u64> = Listener::new();
    assert!(l.on_command_request(1, true).is_none());
    assert!(l.on_command_request(2, true).is_none());
    assert_eq!(l.pending_commands(), 2);

    match l.on_response(Packet::new(PacketType::CmdUnknown, Vec::new())) {
        Routing::CommandUnknown { handler, error } => {
            assert_eq!(handler, 1);
            assert_eq!(error.classify(), Category::UnknownCmd);
        }
        _ => panic!("expected an unknown-command delivery"),
    }
    assert_eq!(l.pending_commands(), 1);

    // the remaining sink still gets the next response
    match l.on_response(response()) {
        Routing::CommandResponse { handler, .. } => assert_eq!(handler, 2),
        _ => panic!("expected a command response delivery"),
    }
}

#[test]
fn events_route_to_their_subscriber_and_no_other() {
    let mut l: Listener<u64, u64> = Listener::new();
    register(&mut l, b"log", 5);
    register(&mut l, b"ike-updown", 6);
    assert_eq!(l.subscription_count(), 2);

    match l.on_response(event(b"log", b"one")) {
        Routing::SubscriptionDelivery { index, packet } => {
            assert_eq!(*l.subscription_handler(index), 5);
            assert_eq!(packet.payload(), &b"one".to_vec());
        }
        _ => panic!("expected a subscription delivery"),
    }
    match l.on_response(event(b"ike-updown", b"two")) {
        Routing::SubscriptionDelivery { index, .. } => {
            assert_eq!(*l.subscription_handler(index), 6);
        }
        _ => panic!("expected a subscription delivery"),
    }
}

#[test]
fn events_after_unregistration_are_unexpected() {
    let mut l: Listener<u64, u64> = Listener::new();
    register(&mut l, b"log", 5);
    match l.on_response(event(b"log", b"x")) {
        Routing::SubscriptionDelivery { .. } => {}
        _ => panic!("expected a subscription delivery"),
    }

    unregister(&mut l, b"log", 15);
    assert_eq!(l.subscription_count(), 0);
    match l.on_response(event(b"log", b"y")) {
        Routing::Background { error } => {
            assert_eq!(error.classify(), Category::Data);
            match error.code() {
                ErrorCode::UnexpectedPacket(t) => assert_eq!(t.tag(), 7),
                _ => panic!("expected an unexpected-packet error"),
            }
        }
        _ => panic!("expected a background error"),
    }
}

#[test]
fn registration_takes_effect_only_when_delivered() {
    let mut l: Listener<u64, u64> = Listener::new();
    assert!(l
        .on_event_request(
            EventRequest {
                event: b"log".to_vec(),
                registration: Registration::Register,
                handler: 5,
            },
            true,
        )
        .is_none());
    match l.on_response(Packet::new(PacketType::EventConfirm, Vec::new())) {
        Routing::RegisterConfirmed { event, handler, .. } => {
            // the confirmation's delivery found the sink closed
            let e = l.finish_register(event, handler, false).unwrap_err();
            assert_eq!(e.classify(), Category::Closed);
            assert!(matches!(
                e.code(),
                ErrorCode::HandlerClosedWhileStreaming(t) if t.tag() == 5
            ));
        }
        _ => panic!("expected a confirmed registration"),
    }
    assert_eq!(l.subscription_count(), 0);
    assert!(matches!(
        l.on_response(event(b"log", b"x")),
        Routing::Background { .. }
    ));
}

#[test]
fn unknown_event_for_a_pending_unregister_is_defensive() {
    let mut l: Listener<u64, u64> = Listener::new();
    register(&mut l, b"log", 5);

    assert!(l
        .on_event_request(
            EventRequest {
                event: b"log".to_vec(),
                registration: Registration::Unregister,
                handler: 9,
            },
            true,
        )
        .is_none());
    match l.on_response(Packet::new(PacketType::EventUnknown, Vec::new())) {
        Routing::EventRequestUnknown { handler, error } => {
            assert_eq!(handler, 9);
            assert_eq!(error.classify(), Category::UnknownEvent);
            assert!(matches!(
                error.code(),
                ErrorCode::UnknownEvent(name) if name == b"log"
            ));
        }
        _ => panic!("expected an unknown-event delivery"),
    }
    // the entry is gone even though the registration could never have
    // succeeded had the daemon not known the event
    assert_eq!(l.subscription_count(), 0);
}

#[test]
fn unknown_event_for_a_pending_register_keeps_the_table() {
    let mut l: Listener<u64, u64> = Listener::new();
    register(&mut l, b"log", 5);
    assert!(l
        .on_event_request(
            EventRequest {
                event: b"child-updown".to_vec(),
                registration: Registration::Register,
                handler: 9,
            },
            true,
        )
        .is_none());
    match l.on_response(Packet::new(PacketType::EventUnknown, Vec::new())) {
        Routing::EventRequestUnknown { handler, .. } => assert_eq!(handler, 9),
        _ => panic!("expected an unknown-event delivery"),
    }
    assert_eq!(l.subscription_count(), 1);
}

#[test]
fn at_most_one_error_handler() {
    let mut l: Listener<u64, u64> = Listener::new();
    assert!(l.error_handler_ref().is_none());
    l.install_error_handler(Some(1));
    assert_eq!(l.error_handler_ref(), Some(&1));
    // installing a second handler replaces the first: it stops receiving
    l.install_error_handler(Some(2));
    assert_eq!(l.error_handler_ref(), Some(&2));
    l.clear_error_handler();
    assert!(l.error_handler_ref().is_none());
}

#[test]
fn request_types_from_the_daemon_are_unexpected() {
    let mut l: Listener<u64, u64> = Listener::new();
    for packet_type in [
        PacketType::CmdRequest(b"x".to_vec()),
        PacketType::EventRegister(b"x".to_vec()),
        PacketType::EventUnregister(b"x".to_vec()),
    ] {
        match l.on_response(Packet::new(packet_type, Vec::new())) {
            Routing::Background { error } => assert_eq!(error.classify(), Category::Data),
            _ => panic!("expected a background error"),
        }
    }
}
