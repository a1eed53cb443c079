use ws_broadcast::events::{Channel, ServerEvent};
use ws_broadcast::handler::ConnectionHandler;
use ws_broadcast::server::Supervisor;
use ws_broadcast::text::{address_list_text, decimal_text, greet, started_text};

#[test]
fn greets_by_name() {
    assert_eq!(greet("Ann"), "Hello, Ann! You've been greeted from Rust!");
    assert_eq!(greet(""), "Hello, ! You've been greeted from Rust!");
}

#[test]
fn decimal_numbers() {
    assert_eq!(decimal_text(0), "0");
    assert_eq!(decimal_text(7), "7");
    assert_eq!(decimal_text(10), "10");
    assert_eq!(decimal_text(7000), "7000");
    assert_eq!(decimal_text(u64::MAX), "18446744073709551615");
}

#[test]
fn start_status() {
    assert_eq!(started_text(7000), "WebSocket server started on port 7000");
    assert_eq!(started_text(65535), "WebSocket server started on port 65535");
}

#[test]
fn address_lists() {
    assert_eq!(address_list_text(&Vec::new()), "");
    assert_eq!(address_list_text(&vec!["127.0.0.1".to_string()]), "[127.0.0.1]");
    let two = vec!["127.0.0.1".to_string(), "192.168.1.5".to_string()];
    assert_eq!(address_list_text(&two), "[127.0.0.1] - [192.168.1.5]");
}

#[test]
fn connection_event_texts() {
    let mut s = Supervisor::new();
    let run = s.start(7000).unwrap();
    let mut known = ConnectionHandler::new(run, 1);
    let mut unknown = ConnectionHandler::new(run, 2);
    let opened = known.on_open(Some("10.0.0.1".to_string()), &mut s).unwrap();
    assert_eq!(opened.text(), "new connection 10.0.0.1");
    assert!(opened.channel() == Channel::Server);
    let opened = unknown.on_open(None, &mut s).unwrap();
    assert_eq!(opened.text(), "new connection unknown");
    let received = known.on_message("hello".to_string());
    assert_eq!(received.text(), "10.0.0.1: hello");
    assert!(received.channel() == Channel::Accept);
    assert_eq!(unknown.on_message("yo".to_string()).text(), "unknown: yo");
    let closed = unknown.on_close(1001, "going away".to_string(), &mut s).unwrap();
    assert_eq!(closed.text(), "connection closed unknown: 1001 - going away");
    assert!(closed.channel() == Channel::Server);
}

#[test]
fn server_event_texts() {
    let sent = ServerEvent::MessageBroadcast { text: "hi".to_string(), recipients: 2 };
    assert_eq!(sent.text(), "hi");
    assert!(sent.channel() == Channel::Send);
    let listening = ServerEvent::Listening { port: 7000 };
    assert_eq!(listening.text(), "listening on port 7000");
    let failed = ServerEvent::ListenFailed { cause: "address in use".to_string() };
    assert_eq!(failed.text(), "listen failed: address in use");
    assert!(failed.channel() == Channel::Server);
    let ips = ServerEvent::LocalAddresses { list: "[127.0.0.1]".to_string() };
    assert_eq!(ips.text(), "[127.0.0.1]");
    assert!(ips.channel() == Channel::Addresses);
}
