use crate::command::channel_name;
use crate::events::{
    event_is, spec_classify, spec_decode, spec_decode_text, ChannelKind, DataEvent, Event,
    FrameKind, NotificationEvent, SubscriptionMessage,
};
use crate::json::{int_in, is_str, lookup, parsed_json, Json};
use crate::session::{run, spec_step, Action, Incoming, Input, Phase, QueuePoll, WsMessage};
use vstd::prelude::*;

verus! {

/// The acknowledgment that the server sends for a subscription to channel
/// kind `k`: event `subscribed`, the channel name that the subscribe command
/// carries, the channel id, and precision `R0` exactly for the raw book.
pub open spec fn is_ack_for(entries: Seq<(String, Json)>, k: ChannelKind, chan_id: u32) -> bool {
    &&& event_is(entries, "subscribed"@)
    &&& is_str(lookup(entries, "channel"@), channel_name(k))
    &&& int_in(lookup(entries, "chanId"@), 0, u32::MAX as int) == Some(chan_id as int)
    &&& (is_str(lookup(entries, "prec"@), "R0"@) <==> k == ChannelKind::RawBook)
}

/// The acknowledgment of a subscription to any channel kind decodes to a
/// `Subscribed` notification of that same kind and channel id.
pub proof fn subscription_ack_decodes(k: ChannelKind, chan_id: u32, entries: Vec<(String, Json)>)
    requires
        is_ack_for(entries@, k, chan_id),
    ensures
        spec_decode(Json::Object(entries)) == Some(
            Event::Notification(
                NotificationEvent::Subscribed(
                    SubscriptionMessage { channel: k, chan_id, params: entries },
                ),
            ),
        ),
{
    reveal_strlit("subscribed");
    reveal_strlit("info");
    reveal_strlit("ticker");
    reveal_strlit("trades");
    reveal_strlit("candles");
    reveal_strlit("book");
    assert("subscribed"@[0] != "info"@[0]);
    assert("ticker"@[1] != "trades"@[1]);
    assert("ticker"@[0] != "candles"@[0] && "ticker"@[0] != "book"@[0]);
    assert("trades"@[0] != "candles"@[0] && "trades"@[0] != "book"@[0]);
    assert("candles"@[0] != "book"@[0]);
}

/// A frame `[chan_id, "hb"]`.
pub open spec fn is_heartbeat_frame(j: Json, chan_id: i32) -> bool {
    match j {
        Json::Array(items) => items@.len() == 2 && int_in(Some(items@[0]), i32::MIN as int, i32::MAX as int)
            == Some(chan_id as int) && is_str(Some(items@[1]), "hb"@),
        _ => false,
    }
}

/// A heartbeat frame, whatever its channel id, is dropped: reading it leads to
/// no handler call, and the loop goes back to draining the queue.
pub proof fn heartbeat_never_delivered(text: String, chan_id: i32)
    requires
        parsed_json(text@) matches Some(j) && is_heartbeat_frame(j, chan_id),
    ensures
        spec_decode_text(text@) == Some(Event::Data(DataEvent::Heartbeat { chan_id })),
        spec_step(Phase::Reading, Input::Frame(Incoming::Text(text))) == (
            Phase::Draining,
            Action::Nothing,
        ),
{
}

/// The inputs that polling a queue holding the text commands `texts` gives.
pub open spec fn texts_polled(texts: Seq<String>) -> Seq<Input> {
    texts.map_values(|t: String| Input::Queue(QueuePoll::Item(WsMessage::Text(t))))
}

/// The actions that send `texts`, in order.
pub open spec fn sends(texts: Seq<String>) -> Seq<Action> {
    texts.map_values(|t: String| Action::Send(t))
}

/// The inputs that a queue holding text commands `texts` and then nothing gives.
pub open spec fn queued_texts(texts: Seq<String>) -> Seq<Input> {
    texts_polled(texts) + seq![Input::Queue(QueuePoll::Empty)]
}

/// While draining, queued text commands are sent one by one, in order, and
/// the loop goes on draining with whatever follows them.
pub proof fn texts_sent_in_order(texts: Seq<String>, tail: Seq<Input>)
    ensures
        run(Phase::Draining, texts_polled(texts) + tail) == (
            run(Phase::Draining, tail).0,
            sends(texts) + run(Phase::Draining, tail).1,
        ),
    decreases texts.len(),
{
    let inputs = texts_polled(texts) + tail;
    if texts.len() == 0 {
        assert(inputs =~= tail);
        assert(sends(texts) + run(Phase::Draining, tail).1 =~= run(Phase::Draining, tail).1);
    } else {
        texts_sent_in_order(texts.drop_first(), tail);
        assert(inputs[0] == Input::Queue(QueuePoll::Item(WsMessage::Text(texts[0]))));
        assert(inputs.drop_first() =~= texts_polled(texts.drop_first()) + tail);
        assert(sends(texts) + run(Phase::Draining, tail).1 =~= seq![Action::Send(texts[0])] + (
        sends(texts.drop_first()) + run(Phase::Draining, tail).1));
    }
}

/// Commands queued in order are all written, in that order, before the loop
/// turns to reading the connection.
pub proof fn drained_in_order(texts: Seq<String>)
    ensures
        run(Phase::Draining, queued_texts(texts)) == (
            Phase::Reading,
            sends(texts) + seq![Action::Nothing],
        ),
{
    let tail = seq![Input::Queue(QueuePoll::Empty)];
    texts_sent_in_order(texts, tail);
    assert(tail.drop_first() =~= Seq::<Input>::empty());
    assert(run(Phase::Reading, tail.drop_first()) == (Phase::Reading, Seq::<Action>::empty()));
    assert(run(Phase::Draining, tail).1 =~= seq![Action::Nothing]);
}

/// Once closed, the loop stays closed and does nothing more.
pub proof fn closed_stays_closed(inputs: Seq<Input>)
    ensures
        run(Phase::Closed, inputs) == (
            Phase::Closed,
            Seq::new(inputs.len(), |i: int| Action::Nothing),
        ),
    decreases inputs.len(),
{
    if inputs.len() == 0 {
        assert(Seq::new(0, |i: int| Action::Nothing) =~= Seq::<Action>::empty());
    } else {
        closed_stays_closed(inputs.drop_first());
        assert(seq![Action::Nothing] + Seq::new(
            (inputs.len() - 1) as nat,
            |i: int| Action::Nothing,
        ) =~= Seq::new(inputs.len(), |i: int| Action::Nothing));
    }
}

/// A close request drained from the queue leads to exactly one close of the
/// connection, after which nothing is written or read, whatever comes.
pub proof fn close_is_final(rest: Seq<Input>)
    ensures
        run(Phase::Draining, seq![Input::Queue(QueuePoll::Item(WsMessage::Close))] + rest) == (
            Phase::Closed,
            seq![Action::Close] + Seq::new(rest.len(), |i: int| Action::Nothing),
        ),
{
    let inputs = seq![Input::Queue(QueuePoll::Item(WsMessage::Close))] + rest;
    assert(inputs.drop_first() =~= rest);
    closed_stays_closed(rest);
}

/// A queue holding text commands, then a close request, then anything (another
/// close request, say): the texts are written in order, then the connection is
/// closed once, and nothing after it is written or read.
pub proof fn drain_then_close(texts: Seq<String>, rest: Seq<Input>)
    ensures
        run(
            Phase::Draining,
            texts_polled(texts) + (seq![Input::Queue(QueuePoll::Item(WsMessage::Close))] + rest),
        ) == (
            Phase::Closed,
            sends(texts) + (seq![Action::Close] + Seq::new(rest.len(), |i: int| Action::Nothing)),
        ),
{
    texts_sent_in_order(texts, seq![Input::Queue(QueuePoll::Item(WsMessage::Close))] + rest);
    close_is_final(rest);
}

/// A read cut short by the timeout sends the loop back to the queue, so a
/// close request queued meanwhile is acted on at once.
pub proof fn timeout_returns_to_queue()
    ensures
        run(
            Phase::Reading,
            seq![
                Input::Frame(Incoming::TimedOut),
                Input::Queue(QueuePoll::Item(WsMessage::Close)),
            ],
        ) == (Phase::Closed, seq![Action::Nothing, Action::Close]),
{
    let inputs = seq![
        Input::Frame(Incoming::TimedOut),
        Input::Queue(QueuePoll::Item(WsMessage::Close)),
    ];
    assert(inputs.drop_first() =~= seq![Input::Queue(QueuePoll::Item(WsMessage::Close))]);
    assert(inputs.drop_first().drop_first() =~= Seq::<Input>::empty());
    assert(inputs[0] == Input::Frame(Incoming::TimedOut));
    assert(spec_step(Phase::Reading, inputs[0]) == (Phase::Draining, Action::Nothing));
    assert(inputs.drop_first()[0] == Input::Queue(QueuePoll::Item(WsMessage::Close)));
    assert(run(Phase::Closed, inputs.drop_first().drop_first()) == (
        Phase::Closed,
        Seq::<Action>::empty(),
    ));
    assert(seq![Action::Close] + Seq::<Action>::empty() =~= seq![Action::Close]);
    assert(run(Phase::Draining, inputs.drop_first()) == (Phase::Closed, seq![Action::Close]));
    assert(seq![Action::Nothing] + seq![Action::Close] =~= seq![Action::Nothing, Action::Close]);
}

/// Classification reads the shape and the `event` member alone: two objects
/// with the same `event` member are classified alike, whatever other members
/// (a symbol that holds `info`, say) they carry, and every array is data.
pub proof fn classified_by_event_member(a: Vec<(String, Json)>, b: Vec<(String, Json)>, items: Vec<Json>)
    requires
        lookup(a@, "event"@) == lookup(b@, "event"@),
    ensures
        spec_classify(Json::Object(a)) == spec_classify(Json::Object(b)),
        spec_classify(Json::Object(a)) == Some(FrameKind::Info) <==> event_is(a@, "info"@),
        spec_classify(Json::Array(items)) == Some(FrameKind::Data),
{
    reveal_strlit("subscribed");
    reveal_strlit("info");
    reveal_strlit("auth");
    assert("subscribed"@[0] != "info"@[0]);
    assert("auth"@[0] != "info"@[0]);
}

} // verus!
