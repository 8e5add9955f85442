use crate::error::Error;
use crate::events::{spec_decode_text, decode_frame, DataEvent, Event, NotificationEvent};
use vstd::prelude::*;

verus! {

/// An item of the outbound queue.
#[derive(Debug)]
pub enum WsMessage {
    Close,
    Text(String),
}

/// What a non-blocking poll of the outbound queue gave.
#[derive(Debug)]
pub enum QueuePoll {
    Item(WsMessage),
    Empty,
    Disconnected,
}

/// What a read of the connection gave. `TimedOut` is a read that the read
/// timeout cut short: the loop then goes back to the queue, so that a close
/// request waits no longer than one timeout behind a silent connection.
#[derive(Debug)]
pub enum Incoming {
    Text(String),
    Binary,
    Ping,
    Pong,
    Close,
    Other,
    TimedOut,
}

/// What the session loop learns from the outside world.
#[derive(Debug)]
pub enum Input {
    Queue(QueuePoll),
    Frame(Incoming),
    TransportFailed(String),
}

/// Where the session loop stands: draining the outbound queue, waiting for
/// one inbound frame, or closed for good.
#[derive(Debug, Clone, Copy, PartialEq, Eq, Structural)]
pub enum Phase {
    Draining,
    Reading,
    Closed,
}

/// A call of the consumer's handler, one variant per handler method.
#[derive(Debug)]
pub enum Delivery {
    Connect(NotificationEvent),
    Auth(NotificationEvent),
    Subscribed(NotificationEvent),
    Data(DataEvent),
    Error(Error),
}

/// What the session loop does next.
#[derive(Debug)]
pub enum Action {
    Nothing,
    Send(String),
    Close,
    Deliver(Delivery),
    Fail(Error),
}

/// The handler call that a decoded frame leads to; heartbeats lead to none,
/// and a frame that did not decode to an error report.
pub open spec fn delivery_of(decoded: Option<Event>) -> Action {
    match decoded {
        None => Action::Deliver(Delivery::Error(Error::Decode)),
        Some(Event::Data(DataEvent::Heartbeat { .. })) => Action::Nothing,
        Some(Event::Data(d)) => Action::Deliver(Delivery::Data(d)),
        Some(Event::Notification(n)) => match n {
            NotificationEvent::Info(_) => Action::Deliver(Delivery::Connect(n)),
            NotificationEvent::Auth(_) => Action::Deliver(Delivery::Auth(n)),
            NotificationEvent::Subscribed(_) => Action::Deliver(Delivery::Subscribed(n)),
        },
    }
}

/// One decision of the session loop.
pub open spec fn spec_step(phase: Phase, input: Input) -> (Phase, Action) {
    match phase {
        Phase::Closed => (Phase::Closed, Action::Nothing),
        Phase::Draining => match input {
            Input::Queue(QueuePoll::Item(WsMessage::Text(t))) => (Phase::Draining, Action::Send(t)),
            Input::Queue(QueuePoll::Item(WsMessage::Close)) => (Phase::Closed, Action::Close),
            Input::Queue(QueuePoll::Empty) => (Phase::Reading, Action::Nothing),
            Input::Queue(QueuePoll::Disconnected) => (
                Phase::Closed,
                Action::Fail(Error::Disconnected),
            ),
            Input::TransportFailed(m) => (Phase::Closed, Action::Fail(Error::Transport(m))),
            Input::Frame(_) => (Phase::Draining, Action::Nothing),
        },
        Phase::Reading => match input {
            Input::Frame(Incoming::Text(t)) => (Phase::Draining, delivery_of(spec_decode_text(t@))),
            Input::Frame(Incoming::Close) => (Phase::Closed, Action::Fail(Error::ProtocolClose)),
            Input::Frame(Incoming::Other) => (Phase::Closed, Action::Fail(Error::UnexpectedFrame)),
            Input::Frame(_) => (Phase::Draining, Action::Nothing),
            Input::TransportFailed(m) => (Phase::Closed, Action::Fail(Error::Transport(m))),
            Input::Queue(_) => (Phase::Reading, Action::Nothing),
        },
    }
}

/// The phase after a run of inputs, and the actions taken on the way.
pub open spec fn run(phase: Phase, inputs: Seq<Input>) -> (Phase, Seq<Action>)
    decreases inputs.len(),
{
    if inputs.len() == 0 {
        (phase, Seq::empty())
    } else {
        let (next, first) = spec_step(phase, inputs[0]);
        let (last, rest) = run(next, inputs.drop_first());
        (last, seq![first] + rest)
    }
}

/// The decisions of a session loop. The loop itself (polling the queue,
/// reading and writing the connection, calling the handler) belongs to the
/// caller, which feeds each outcome back through `step`.
#[derive(Debug)]
pub struct Session {
    pub phase: Phase,
}

/// The action for the outcome of decoding a frame.
fn delivery(decoded: Result<Event, Error>) -> (a: Action)
    requires
        decoded matches Err(e) ==> e is Decode,
    ensures
        a == delivery_of(
            match decoded {
                Ok(e) => Some(e),
                Err(_) => None,
            },
        ),
{
    match decoded {
        Err(e) => Action::Deliver(Delivery::Error(e)),
        Ok(Event::Data(d)) => match d {
            DataEvent::Heartbeat { .. } => Action::Nothing,
            d => Action::Deliver(Delivery::Data(d)),
        },
        Ok(Event::Notification(n)) => match n {
            NotificationEvent::Info(_) => Action::Deliver(Delivery::Connect(n)),
            NotificationEvent::Auth(_) => Action::Deliver(Delivery::Auth(n)),
            NotificationEvent::Subscribed(_) => Action::Deliver(Delivery::Subscribed(n)),
        },
    }
}

impl Session {
    /// A session that starts by draining the outbound queue.
    pub fn new() -> (r: Session)
        ensures
            r.phase == Phase::Draining,
    {
        Session { phase: Phase::Draining }
    }

    /// Whether the loop has ended.
    pub fn is_closed(&self) -> (r: bool)
        ensures
            r == (self.phase == Phase::Closed),
    {
        self.phase == Phase::Closed
    }

    /// Whether the next input is to come from the connection rather than the queue.
    pub fn wants_frame(&self) -> (r: bool)
        ensures
            r == (self.phase == Phase::Reading),
    {
        self.phase == Phase::Reading
    }

    /// Takes one outcome of the outside world and decides what to do.
    pub fn step(&mut self, input: Input) -> (a: Action)
        ensures
            (final(self).phase, a) == spec_step(old(self).phase, input),
    {
        match self.phase {
            Phase::Closed => Action::Nothing,
            Phase::Draining => match input {
                Input::Queue(QueuePoll::Item(WsMessage::Text(t))) => Action::Send(t),
                Input::Queue(QueuePoll::Item(WsMessage::Close)) => {
                    self.phase = Phase::Closed;
                    Action::Close
                },
                Input::Queue(QueuePoll::Empty) => {
                    self.phase = Phase::Reading;
                    Action::Nothing
                },
                Input::Queue(QueuePoll::Disconnected) => {
                    self.phase = Phase::Closed;
                    Action::Fail(Error::Disconnected)
                },
                Input::TransportFailed(m) => {
                    self.phase = Phase::Closed;
                    Action::Fail(Error::Transport(m))
                },
                Input::Frame(_) => Action::Nothing,
            },
            Phase::Reading => match input {
                Input::Frame(Incoming::Text(t)) => {
                    self.phase = Phase::Draining;
                    delivery(decode_frame(t.as_str()))
                },
                Input::Frame(Incoming::Close) => {
                    self.phase = Phase::Closed;
                    Action::Fail(Error::ProtocolClose)
                },
                Input::Frame(Incoming::Other) => {
                    self.phase = Phase::Closed;
                    Action::Fail(Error::UnexpectedFrame)
                },
                Input::Frame(_) => {
                    self.phase = Phase::Draining;
                    Action::Nothing
                },
                Input::TransportFailed(m) => {
                    self.phase = Phase::Closed;
                    Action::Fail(Error::Transport(m))
                },
                Input::Queue(_) => Action::Nothing,
            },
        }
    }
}

#[verifier::external_type_specification]
#[verifier::external_body]
#[verifier::reject_recursive_types(T)]
pub struct ExMpscSender<T>(std::sync::mpsc::Sender<T>);

/// Relies on `std::sync::mpsc::Sender::send`: it fails only when the
/// receiving side is gone, and then hands the message back.
#[verifier::external_body]
fn queue_send(tx: &std::sync::mpsc::Sender<WsMessage>, msg: WsMessage) -> (r: Result<(), WsMessage>)
    ensures
        r matches Err(m) ==> m == msg,
{
    tx.send(msg).map_err(|e| e.0)
}

/// Relies on `Clone` of `std::sync::mpsc::Sender`: the clone feeds the same queue.
#[verifier::external_body]
fn queue_clone(tx: &std::sync::mpsc::Sender<WsMessage>) -> std::sync::mpsc::Sender<WsMessage> {
    tx.clone()
}

/// A producer handle of the outbound queue. Any number of them may feed the
/// one queue that the session loop drains.
pub struct Sender {
    tx: std::sync::mpsc::Sender<WsMessage>,
}

/// The queue item that carries a text command.
pub fn text_message(raw: &str) -> (m: WsMessage)
    ensures
        m matches WsMessage::Text(t) && t@ == raw@,
{
    WsMessage::Text(raw.to_owned())
}

/// The queue item that asks the session loop to close.
pub fn close_message() -> (m: WsMessage)
    ensures
        m is Close,
{
    WsMessage::Close
}

impl Clone for Sender {
    fn clone(&self) -> Self {
        Sender { tx: queue_clone(&self.tx) }
    }
}

impl Sender {
    /// The sending side of the queue that this handle feeds.
    pub closed spec fn queue(&self) -> std::sync::mpsc::Sender<WsMessage> {
        self.tx
    }

    /// A handle over the sending side of a queue.
    pub fn new(tx: std::sync::mpsc::Sender<WsMessage>) -> (r: Sender)
        ensures
            r.queue() == tx,
    {
        Sender { tx }
    }

    /// Queues a text command. Fails with `Disconnected` when the session side is gone.
    pub fn send(&self, raw: &str) -> (r: Result<(), Error>)
        ensures
            r matches Err(e) ==> e is Disconnected,
    {
        match queue_send(&self.tx, text_message(raw)) {
            Ok(()) => Ok(()),
            Err(_) => Err(Error::Disconnected),
        }
    }

    /// Queues the close request that ends the session loop. Fails with
    /// `Disconnected` when the session side is gone.
    pub fn shutdown(&self) -> (r: Result<(), Error>)
        ensures
            r matches Err(e) ==> e is Disconnected,
    {
        match queue_send(&self.tx, close_message()) {
            Ok(()) => Ok(()),
            Err(_) => Err(Error::Disconnected),
        }
    }
}

} // verus!
