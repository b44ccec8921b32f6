use mo_de_backend::game::events::ServerEvent;
use mo_de_backend::ws::Hub;
use tokio::sync::mpsc::unbounded_channel;

fn log(message: &str) -> ServerEvent {
    ServerEvent::Log { message: message.to_string() }
}

#[test]
fn broadcast_reaches_every_connection_of_the_room() {
    let mut hub = Hub::new();
    let (tx1, mut rx1) = unbounded_channel();
    let (tx2, mut rx2) = unbounded_channel();
    let (tx3, mut rx3) = unbounded_channel();
    hub.join("room", 1, tx1);
    hub.join("room", 2, tx2);
    hub.join("other", 3, tx3);
    hub.broadcast("room", log("hello"));
    assert!(matches!(rx1.try_recv(), Ok(ServerEvent::Log { message }) if message == "hello"));
    assert!(matches!(rx2.try_recv(), Ok(ServerEvent::Log { message }) if message == "hello"));
    assert!(rx3.try_recv().is_err());
    hub.broadcast("nowhere", log("lost"));
    assert!(rx1.try_recv().is_err());
}

#[test]
fn send_to_reaches_one_player() {
    let mut hub = Hub::default();
    let (tx1, mut rx1) = unbounded_channel();
    let (tx2, mut rx2) = unbounded_channel();
    hub.join("room", 1, tx1);
    hub.join("room", 2, tx2);
    hub.send_to("room", 2, ServerEvent::Error { message: "no".to_string() });
    assert!(rx1.try_recv().is_err());
    assert!(matches!(rx2.try_recv(), Ok(ServerEvent::Error { message }) if message == "no"));
    hub.send_to("room", 9, log("nobody"));
    assert!(rx1.try_recv().is_err());
    assert!(rx2.try_recv().is_err());
}

#[test]
fn rejoining_replaces_the_old_connection() {
    let mut hub = Hub::new();
    let (old_tx, mut old_rx) = unbounded_channel();
    let (new_tx, mut new_rx) = unbounded_channel();
    hub.join("room", 1, old_tx);
    hub.join("room", 1, new_tx);
    hub.broadcast("room", log("again"));
    assert!(old_rx.try_recv().is_err());
    assert!(matches!(new_rx.try_recv(), Ok(ServerEvent::Log { .. })));
    assert!(new_rx.try_recv().is_err());
}

#[test]
fn leaving_stops_the_events() {
    let mut hub = Hub::new();
    let (tx1, mut rx1) = unbounded_channel();
    let (tx2, mut rx2) = unbounded_channel();
    hub.join("room", 1, tx1);
    hub.join("room", 2, tx2);
    hub.leave("room", 1);
    hub.broadcast("room", log("bye"));
    assert!(rx1.try_recv().is_err());
    assert!(rx2.try_recv().is_ok());
    hub.leave("room", 2);
    hub.broadcast("room", log("empty"));
    assert!(rx2.try_recv().is_err());
    hub.leave("missing", 5);
}
