use bitfinex_ws::error::Error;
use bitfinex_ws::events::{
    classify, classify_frame, decode_frame, ChannelKind, DataEvent, Event, FrameKind, NotificationEvent,
};
use bitfinex_ws::json::Json;

fn data(text: &str) -> DataEvent {
    match decode_frame(text) {
        Ok(Event::Data(d)) => d,
        other => panic!("not a data frame: {:?}", other),
    }
}

fn notification(text: &str) -> NotificationEvent {
    match decode_frame(text) {
        Ok(Event::Notification(n)) => n,
        other => panic!("not a notification: {:?}", other),
    }
}

fn number_text(j: &Json) -> &str {
    match j {
        Json::Number(_, t) => t.as_str(),
        other => panic!("not a number: {:?}", other),
    }
}

#[test]
fn ticker_update_decodes() {
    let d = data("[15,[7616.7,0.2,7617,0.3,-130,-0.017,7617,10000,7800,7500]]");
    match d {
        DataEvent::Update { chan_id, payload: Json::Array(fields) } => {
            assert_eq!(chan_id, 15);
            assert_eq!(fields.len(), 10);
            assert_eq!(number_text(&fields[0]), "7616.7");
            assert!(matches!(fields[4], Json::Number(Some(-130), _)));
            assert_eq!(number_text(&fields[5]), "-0.017");
        }
        other => panic!("unexpected {:?}", other),
    }
}

#[test]
fn book_snapshot_decodes() {
    let d = data("[17,[[7254.7,3,3.3],[7254.6,2,1.2]]]");
    match d {
        DataEvent::Snapshot { chan_id, rows } => {
            assert_eq!(chan_id, 17);
            assert_eq!(rows.len(), 2);
        }
        other => panic!("unexpected {:?}", other),
    }
}

#[test]
fn empty_snapshot_decodes() {
    assert!(matches!(data("[3,[]]"), DataEvent::Snapshot { chan_id: 3, ref rows } if rows.is_empty()));
}

#[test]
fn trades_update_decodes_with_label() {
    let d = data("[17,\"te\",[401597395,1574694478808,0.005,7245.3]]");
    match d {
        DataEvent::LabeledUpdate { chan_id, label, payload: Json::Array(f) } => {
            assert_eq!(chan_id, 17);
            assert_eq!(label, "te");
            assert_eq!(f.len(), 4);
        }
        other => panic!("unexpected {:?}", other),
    }
}

#[test]
fn wallet_snapshot_decodes_with_label() {
    let d = data("[0,\"ws\",[[\"exchange\",\"BTC\",1.5,0,null],[\"margin\",\"USD\",10,0,null]]]");
    match d {
        DataEvent::LabeledSnapshot { chan_id, label, rows } => {
            assert_eq!(chan_id, 0);
            assert_eq!(label, "ws");
            assert_eq!(rows.len(), 2);
        }
        other => panic!("unexpected {:?}", other),
    }
}

#[test]
fn balance_update_decodes_with_label() {
    let d = data("[0,\"bu\",[4131.85,4131.85]]");
    assert!(matches!(d, DataEvent::LabeledUpdate { chan_id: 0, ref label, .. } if label == "bu"));
}

#[test]
fn candle_update_decodes() {
    let d = data("[343,[1574698260000,7379.6,7379.6,7379.6,7379.6,0.5]]");
    assert!(matches!(d, DataEvent::Update { chan_id: 343, payload: Json::Array(ref f) } if f.len() == 6));
}

#[test]
fn scalar_update_decodes() {
    assert!(matches!(data("[9,{\"a\":1}]"), DataEvent::Update { chan_id: 9, payload: Json::Object(_) }));
}

#[test]
fn heartbeat_decodes() {
    assert!(matches!(data("[15,\"hb\"]"), DataEvent::Heartbeat { chan_id: 15 }));
    assert!(matches!(data("[-2,\"hb\"]"), DataEvent::Heartbeat { chan_id: -2 }));
}

#[test]
fn info_notice_decodes() {
    let n = notification("{\"event\":\"info\",\"version\":2,\"serverId\":\"5b73a436\",\"platform\":{\"status\":1}}");
    match n {
        NotificationEvent::Info(m) => {
            assert_eq!(m.version, 2);
            assert_eq!(m.server_id, "5b73a436");
            assert_eq!(m.platform.status, 1);
        }
        other => panic!("unexpected {:?}", other),
    }
}

#[test]
fn auth_reply_decodes() {
    let n = notification("{\"event\":\"auth\",\"status\":\"OK\",\"chanId\":0,\"userId\":1234,\"authId\":\"a-b\"}");
    match n {
        NotificationEvent::Auth(m) => {
            assert!(m.is_ok());
            assert_eq!(m.chan_id, 0);
            assert_eq!(m.code, None);
            assert_eq!(m.msg, None);
            assert_eq!(m.user_id, Some(1234));
            assert_eq!(m.auth_id.as_deref(), Some("a-b"));
        }
        other => panic!("unexpected {:?}", other),
    }
}

#[test]
fn failed_auth_reply_decodes() {
    let n = notification("{\"event\":\"auth\",\"status\":\"FAILED\",\"chanId\":0,\"code\":10100,\"msg\":\"apikey: invalid\"}");
    match n {
        NotificationEvent::Auth(m) => {
            assert!(!m.is_ok());
            assert_eq!(m.code, Some(10100));
            assert_eq!(m.msg.as_deref(), Some("apikey: invalid"));
        }
        other => panic!("unexpected {:?}", other),
    }
}

fn subscribed_kind(text: &str) -> (ChannelKind, u32) {
    match notification(text) {
        NotificationEvent::Subscribed(m) => (m.channel, m.chan_id),
        other => panic!("unexpected {:?}", other),
    }
}

#[test]
fn subscription_acks_keep_channel_kind() {
    assert_eq!(
        subscribed_kind("{\"event\":\"subscribed\",\"channel\":\"ticker\",\"chanId\":15,\"symbol\":\"tBTCUSD\",\"pair\":\"BTCUSD\"}"),
        (ChannelKind::Ticker, 15)
    );
    assert_eq!(
        subscribed_kind("{\"event\":\"subscribed\",\"channel\":\"trades\",\"chanId\":17,\"symbol\":\"fUSD\",\"currency\":\"USD\"}"),
        (ChannelKind::Trades, 17)
    );
    assert_eq!(
        subscribed_kind("{\"event\":\"subscribed\",\"channel\":\"candles\",\"chanId\":343,\"key\":\"trade:1m:tBTCUSD\"}"),
        (ChannelKind::Candles, 343)
    );
    assert_eq!(
        subscribed_kind("{\"event\":\"subscribed\",\"channel\":\"book\",\"chanId\":5,\"symbol\":\"tBTCUSD\",\"prec\":\"P0\",\"freq\":\"F0\",\"len\":\"25\"}"),
        (ChannelKind::Book, 5)
    );
    assert_eq!(
        subscribed_kind("{\"event\":\"subscribed\",\"channel\":\"book\",\"chanId\":6,\"prec\":\"R0\",\"pair\":\"tBTCUSD\"}"),
        (ChannelKind::RawBook, 6)
    );
}

#[test]
fn symbol_holding_info_is_not_an_info_notice() {
    let text = "{\"event\":\"subscribed\",\"channel\":\"ticker\",\"chanId\":8,\"symbol\":\"tinfoUSD\",\"pair\":\"infoUSD\"}";
    assert_eq!(classify_frame(text), Some(FrameKind::Subscribed));
    assert_eq!(subscribed_kind(text), (ChannelKind::Ticker, 8));
    assert_eq!(classify_frame("[8,\"auth info subscribed\",[1]]"), Some(FrameKind::Data));
}

#[test]
fn classify_by_shape_and_event() {
    let kind = classify_frame;
    assert_eq!(kind("{\"event\":\"info\",\"version\":2}"), Some(FrameKind::Info));
    assert_eq!(kind("{\"event\":\"auth\"}"), Some(FrameKind::AuthReply));
    assert_eq!(kind("{\"event\":\"error\",\"msg\":\"info\"}"), None);
    assert_eq!(kind("{\"msg\":\"info\"}"), None);
    assert_eq!(kind("\"info\""), None);
    assert_eq!(kind("[1,\"hb\"]"), Some(FrameKind::Data));
    assert_eq!(kind("{"), None);
    let obj = Json::Object(vec![("event".to_string(), Json::Str("subscribed".to_string()))]);
    assert_eq!(classify(&obj), Some(FrameKind::Subscribed));
    assert_eq!(classify(&Json::Array(vec![])), Some(FrameKind::Data));
    assert_eq!(classify(&Json::Null), None);
}

#[test]
fn malformed_frames_are_decode_errors() {
    for t in [
        "not json",
        "{\"event\":\"error\",\"code\":10300}",
        "{\"event\":\"info\"}",
        "{\"event\":\"subscribed\",\"channel\":\"status\",\"chanId\":1}",
        "[]",
        "[\"x\",\"hb\"]",
        "[1]",
        "[1,2,3,4]",
        "[1,2,[3]]",
        "[3000000000,\"hb\"]",
        "42",
    ] {
        assert!(matches!(decode_frame(t), Err(Error::Decode)), "{}", t);
    }
}

#[test]
fn subscription_params_keep_members_and_numbers() {
    match notification("{\"event\":\"subscribed\",\"channel\":\"ticker\",\"chanId\":1,\"b\":1,\"a\":-2.5}") {
        NotificationEvent::Subscribed(sub) => {
            let m = sub.params;
            assert_eq!(m.len(), 5);
            assert!(matches!(m.iter().find(|(k, _)| k == "a"), Some((_, Json::Number(None, t))) if t == "-2.5"));
            assert!(matches!(m.iter().find(|(k, _)| k == "b"), Some((_, Json::Number(Some(1), _)))));
        }
        other => panic!("unexpected {:?}", other),
    }
}
