use concurrency_examples::server::{ConnectionRegistry, ListenerAction, ListenerEvent};

#[test]
fn connections_are_numbered_from_one() {
    let mut reg = ConnectionRegistry::new();
    assert_eq!(reg.num_connections(), 0);
    assert_eq!(reg.on_event(ListenerEvent::Accepted), ListenerAction::Serve(1));
    assert_eq!(reg.on_event(ListenerEvent::AcceptFailed), ListenerAction::Skip);
    assert_eq!(reg.on_event(ListenerEvent::Accepted), ListenerAction::Serve(2));
    assert_eq!(reg.on_event(ListenerEvent::Accepted), ListenerAction::Serve(3));
    assert_eq!(reg.num_connections(), 3);
    assert_eq!(reg.on_event(ListenerEvent::ShutdownSignalled), ListenerAction::Stop);
    assert_eq!(reg.num_connections(), 3);
}

#[test]
fn the_counter_holds_255_connections() {
    let mut reg = ConnectionRegistry::new();
    for i in 1..=255u8 {
        assert!(reg.can_accept());
        assert_eq!(reg.on_event(ListenerEvent::Accepted), ListenerAction::Serve(i));
    }
    assert!(!reg.can_accept());
    assert_eq!(reg.on_event(ListenerEvent::AcceptFailed), ListenerAction::Skip);
}
