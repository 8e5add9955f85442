use bitfinex_ws::error::Error;
use bitfinex_ws::events::{DataEvent, NotificationEvent};
use bitfinex_ws::session::{
    close_message, text_message, Action, Delivery, Incoming, Input, Phase, QueuePoll, Sender,
    Session, WsMessage,
};

fn queued(t: &str) -> Input {
    Input::Queue(QueuePoll::Item(WsMessage::Text(t.to_string())))
}

fn frame(t: &str) -> Input {
    Input::Frame(Incoming::Text(t.to_string()))
}

#[test]
fn queued_commands_are_sent_in_order_before_a_read() {
    let mut s = Session::new();
    let mut sent = Vec::new();
    for c in ["c1", "c2", "c3"] {
        match s.step(queued(c)) {
            Action::Send(t) => sent.push(t),
            other => panic!("unexpected {:?}", other),
        }
        assert!(!s.wants_frame());
    }
    assert!(matches!(s.step(Input::Queue(QueuePoll::Empty)), Action::Nothing));
    assert!(s.wants_frame());
    assert_eq!(sent, vec!["c1", "c2", "c3"]);
}

#[test]
fn close_is_written_once_and_ends_the_loop() {
    let mut s = Session::new();
    assert!(matches!(s.step(queued("c1")), Action::Send(_)));
    assert!(matches!(s.step(Input::Queue(QueuePoll::Item(WsMessage::Close))), Action::Close));
    assert!(s.is_closed());
    assert!(matches!(s.step(queued("c2")), Action::Nothing));
    assert!(matches!(s.step(Input::Queue(QueuePoll::Item(WsMessage::Close))), Action::Nothing));
    assert!(matches!(s.step(frame("[1,[1]]")), Action::Nothing));
    assert_eq!(s.phase, Phase::Closed);
}

#[test]
fn heartbeats_are_not_delivered() {
    for id in [0, 15, -1, i32::MAX] {
        let mut s = Session::new();
        s.step(Input::Queue(QueuePoll::Empty));
        let a = s.step(frame(&format!("[{},\"hb\"]", id)));
        assert!(matches!(a, Action::Nothing));
        assert_eq!(s.phase, Phase::Draining);
    }
}

#[test]
fn frames_are_routed_to_handler_calls() {
    let mut s = Session::new();
    s.step(Input::Queue(QueuePoll::Empty));
    let a = s.step(frame("{\"event\":\"info\",\"version\":2,\"serverId\":\"x\",\"platform\":{\"status\":1}}"));
    assert!(matches!(a, Action::Deliver(Delivery::Connect(NotificationEvent::Info(_)))));
    s.step(Input::Queue(QueuePoll::Empty));
    let a = s.step(frame("{\"event\":\"auth\",\"status\":\"OK\",\"chanId\":0}"));
    assert!(matches!(a, Action::Deliver(Delivery::Auth(NotificationEvent::Auth(_)))));
    s.step(Input::Queue(QueuePoll::Empty));
    let a = s.step(frame("{\"event\":\"subscribed\",\"channel\":\"ticker\",\"chanId\":15}"));
    assert!(matches!(a, Action::Deliver(Delivery::Subscribed(NotificationEvent::Subscribed(_)))));
    s.step(Input::Queue(QueuePoll::Empty));
    let a = s.step(frame("[15,[1,2,3]]"));
    assert!(matches!(a, Action::Deliver(Delivery::Data(DataEvent::Update { chan_id: 15, .. }))));
}

#[test]
fn decode_error_is_reported_and_the_loop_goes_on() {
    let mut s = Session::new();
    s.step(Input::Queue(QueuePoll::Empty));
    let a = s.step(frame("{\"event\":\"nonsense\"}"));
    assert!(matches!(a, Action::Deliver(Delivery::Error(Error::Decode))));
    assert_eq!(s.phase, Phase::Draining);
}

#[test]
fn control_frames_are_skipped() {
    let mut s = Session::new();
    s.step(Input::Queue(QueuePoll::Empty));
    assert!(matches!(s.step(Input::Frame(Incoming::Ping)), Action::Nothing));
    assert_eq!(s.phase, Phase::Draining);
}

#[test]
fn terminal_conditions_close_the_loop() {
    let mut s = Session::new();
    assert!(matches!(s.step(Input::Queue(QueuePoll::Disconnected)), Action::Fail(Error::Disconnected)));
    assert!(s.is_closed());

    let mut s = Session::new();
    s.step(Input::Queue(QueuePoll::Empty));
    assert!(matches!(s.step(Input::Frame(Incoming::Close)), Action::Fail(Error::ProtocolClose)));
    assert!(s.is_closed());

    let mut s = Session::new();
    s.step(Input::Queue(QueuePoll::Empty));
    assert!(matches!(s.step(Input::Frame(Incoming::Other)), Action::Fail(Error::UnexpectedFrame)));

    let mut s = Session::new();
    let a = s.step(Input::TransportFailed("reset".to_string()));
    assert!(matches!(a, Action::Fail(Error::Transport(ref m)) if m == "reset"));
    assert!(s.is_closed());
}

#[test]
fn sender_queues_text_and_close_in_order() {
    let (tx, rx) = std::sync::mpsc::channel();
    let a = Sender::new(tx);
    let b = a.clone();
    a.send("one").unwrap();
    b.send("two").unwrap();
    a.shutdown().unwrap();
    assert!(matches!(rx.try_recv(), Ok(WsMessage::Text(ref t)) if t == "one"));
    assert!(matches!(rx.try_recv(), Ok(WsMessage::Text(ref t)) if t == "two"));
    assert!(matches!(rx.try_recv(), Ok(WsMessage::Close)));
}

#[test]
fn sender_fails_when_the_session_is_gone() {
    let (tx, rx) = std::sync::mpsc::channel();
    let a = Sender::new(tx);
    drop(rx);
    assert!(matches!(a.send("x"), Err(Error::Disconnected)));
    assert!(matches!(a.shutdown(), Err(Error::Disconnected)));
}

#[test]
fn queue_items_are_built_as_asked() {
    assert!(matches!(text_message("{\"event\":\"x\"}"), WsMessage::Text(ref t) if t == "{\"event\":\"x\"}"));
    assert!(matches!(text_message(""), WsMessage::Text(ref t) if t.is_empty()));
    assert!(matches!(close_message(), WsMessage::Close));
}

#[test]
fn timed_out_read_returns_to_the_queue() {
    let mut s = Session::new();
    s.step(Input::Queue(QueuePoll::Empty));
    assert!(s.wants_frame());
    assert!(matches!(s.step(Input::Frame(Incoming::TimedOut)), Action::Nothing));
    assert!(!s.wants_frame());
    assert!(matches!(s.step(Input::Queue(QueuePoll::Item(WsMessage::Close))), Action::Close));
    assert!(s.is_closed());
}

#[test]
fn texts_then_close_then_more() {
    let mut s = Session::new();
    let mut actions = Vec::new();
    let inputs = vec![
        queued("c1"),
        queued("c2"),
        Input::Queue(QueuePoll::Item(WsMessage::Close)),
        Input::Queue(QueuePoll::Item(WsMessage::Close)),
        queued("c3"),
    ];
    for i in inputs {
        actions.push(s.step(i));
    }
    assert!(matches!(actions[0], Action::Send(ref t) if t == "c1"));
    assert!(matches!(actions[1], Action::Send(ref t) if t == "c2"));
    assert!(matches!(actions[2], Action::Close));
    assert!(matches!(actions[3], Action::Nothing));
    assert!(matches!(actions[4], Action::Nothing));
}
