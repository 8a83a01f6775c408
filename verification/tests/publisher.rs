use attack_simulator::communication::{
    bind_failure_message, greeting_text, listener_action, CommunicationManager, ListenerAction,
    ListenerEvent, Protocol, DEFAULT_PORT, LISTENER_WAIT_MS,
};

#[test]
fn manager_defaults() {
    let manager = CommunicationManager::new();
    assert!(manager.protocol == Protocol::TCP);
    assert_eq!(manager.port, 8080);
    assert_eq!(DEFAULT_PORT, 8080);
    assert!(!manager.is_running());
    assert_eq!(manager.endpoint(), "127.0.0.1:8080");
}

#[test]
fn manager_start_names_the_listener() {
    let mut manager = CommunicationManager::new();
    let plan = manager.start();
    assert!(manager.is_running());
    assert_eq!(plan.protocol, Protocol::TCP);
    assert_eq!(plan.address, "127.0.0.1:8080");
    manager.stop();
    assert!(!manager.is_running());
    manager.set_protocol(Protocol::UDP);
    manager.set_port(9001);
    let plan = manager.start();
    assert_eq!(plan.protocol, Protocol::UDP);
    assert_eq!(plan.address, "127.0.0.1:9001");
    assert!(manager.is_running());
}

#[test]
fn manager_stop_when_stopped_changes_nothing() {
    let mut manager = CommunicationManager::new();
    manager.stop();
    assert!(!manager.is_running());
    assert_eq!(manager.port, 8080);
    assert_eq!(manager.protocol, Protocol::TCP);
}

#[test]
fn manager_settings_apply_to_the_next_attempt() {
    let mut manager = CommunicationManager::new();
    let first = manager.send_metrics(Some(String::from("{}")));
    assert_eq!(first.protocol, Protocol::TCP);
    assert_eq!(first.address, "127.0.0.1:8080");
    manager.set_protocol(Protocol::UDP);
    manager.set_port(65535);
    assert!(!manager.is_running());
    let second = manager.send_metrics(Some(String::from("{}")));
    assert_eq!(second.protocol, Protocol::UDP);
    assert_eq!(second.address, "127.0.0.1:65535");
    manager.set_port(0);
    assert_eq!(manager.endpoint(), "127.0.0.1:0");
}

#[test]
fn manager_sends_the_record_as_given() {
    let manager = CommunicationManager::new();
    let text = "{\"cpu_usage\":30.0,\"memory_usage\":0.0,\"network_traffic\":0.0}";
    let delivery = manager.send_metrics(Some(String::from(text)));
    assert_eq!(delivery.payload, text);
}

#[test]
fn manager_sends_an_error_text_for_an_unserialisable_record() {
    let manager = CommunicationManager::new();
    let delivery = manager.send_metrics(None);
    assert_eq!(delivery.payload, "{\"error\": \"Failed to serialize metrics\"}");
    assert_eq!(delivery.address, "127.0.0.1:8080");
}

#[test]
fn listener_answers_waits_and_closes() {
    assert_eq!(listener_action(ListenerEvent::Incoming), ListenerAction::Reply);
    assert_eq!(listener_action(ListenerEvent::WouldBlock), ListenerAction::Wait(100));
    assert_eq!(listener_action(ListenerEvent::Failed), ListenerAction::Close);
    assert_eq!(LISTENER_WAIT_MS, 100);
}

#[test]
fn listener_greetings() {
    assert_eq!(greeting_text(Protocol::TCP), "Connection established to attack simulator");
    assert_eq!(greeting_text(Protocol::UDP), "Attack metrics received");
}

#[test]
fn bind_failures_name_the_transport() {
    assert_eq!(
        bind_failure_message(Protocol::TCP, "Address already in use"),
        "Failed to bind TCP socket: Address already in use"
    );
    assert_eq!(
        bind_failure_message(Protocol::UDP, "Permission denied"),
        "Failed to bind UDP socket: Permission denied"
    );
}
