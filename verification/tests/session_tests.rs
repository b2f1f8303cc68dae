use ofi_engine_rust::config::OFIConfig;
use ofi_engine_rust::decimal::Decimal;
use ofi_engine_rust::engine::OFIEngine;
use ofi_engine_rust::feed::{
    BitgetArg, BitgetData, BitgetLevel, BitgetOrderBookData, BitgetTradeData, BitgetWsResponse,
};
use ofi_engine_rust::session::{
    action_deadline_ms, FeedSession, SessionAction, SessionEvent, SessionState, BACKOFF_MS,
    INACTIVITY_LIMIT_MS, PING_INTERVAL_MS, SUBSCRIBE_TIMEOUT_MS,
};
use ofi_engine_rust::signals::{SignalType, StrategyParams};

fn fixed(text: &str) -> Decimal {
    Decimal::parse(text).expect("a decimal numeral")
}

fn fresh_engine() -> OFIEngine {
    let mut config = OFIConfig::default();
    config.trade_storage_limit = 100;
    config.strong_signal_confidence = fixed("0.9");
    config.reversal_signal_confidence = fixed("0.7");
    config.exhaustion_signal_confidence = fixed("0.6");
    let params = StrategyParams {
        imbalance_threshold: fixed("5"),
        absorption_threshold: fixed("1"),
        delta_threshold: fixed("100"),
        lookback_period_ms: 60_000,
        market_condition_multiplier: Decimal::one(),
    };
    OFIEngine::new(params, config)
}

fn envelope(channel: &str, data: Option<BitgetData>) -> BitgetWsResponse {
    BitgetWsResponse {
        action: None,
        arg: BitgetArg {
            inst_type: "USDT-FUTURES".to_string(),
            channel: channel.to_string(),
            inst_id: "BTCUSDT".to_string(),
        },
        data,
    }
}

fn stacked_book(ts: u64) -> BitgetWsResponse {
    let bids = ["100", "99", "98", "97", "96"]
        .iter()
        .map(|p| BitgetLevel { price: p.to_string(), quantity: "10".to_string() })
        .collect();
    let asks = vec![BitgetLevel { price: "101".to_string(), quantity: "1".to_string() }];
    envelope("books", Some(BitgetData::Books(vec![BitgetOrderBookData { bids, asks, ts: ts.to_string() }])))
}

fn buy(ts: u64, size: &str) -> BitgetWsResponse {
    let trade = BitgetTradeData {
        ts: ts.to_string(),
        price: "100".to_string(),
        size: size.to_string(),
        side: "buy".to_string(),
    };
    envelope("trade", Some(BitgetData::Trades(vec![trade])))
}

fn streaming(session: &mut FeedSession, now: u64) {
    assert_eq!(session.step(SessionEvent::Start, now), SessionAction::Connect);
    assert_eq!(session.step(SessionEvent::Connected, now), SessionAction::Subscribe);
    assert_eq!(session.step(SessionEvent::SubscriptionSent, now), SessionAction::Nothing);
    assert_eq!(session.state(), SessionState::Streaming);
}

#[test]
fn a_session_starts_idle() {
    let session = FeedSession::new("BTCUSDT");
    assert_eq!(session.state(), SessionState::Idle);
    assert_eq!(session.attempts(), 0);
    assert_eq!(session.symbol(), "BTCUSDT");
}

#[test]
fn the_first_connection_is_opened_at_once() {
    let mut session = FeedSession::new("BTCUSDT");
    assert_eq!(session.step(SessionEvent::Start, 0), SessionAction::Connect);
    assert_eq!(session.state(), SessionState::Connecting);
    assert_eq!(session.attempts(), 1);
    assert_eq!(session.step(SessionEvent::Connected, 10), SessionAction::Subscribe);
    assert_eq!(session.state(), SessionState::Subscribed);
    assert_eq!(session.step(SessionEvent::SubscriptionSent, 20), SessionAction::Nothing);
    assert_eq!(session.state(), SessionState::Streaming);
    assert_eq!(session.step(SessionEvent::FrameReceived, 30), SessionAction::Handle);
    assert_eq!(session.state(), SessionState::Streaming);
}

#[test]
fn a_failed_connection_is_tried_again_after_a_pause() {
    let mut session = FeedSession::new("BTCUSDT");
    assert_eq!(session.step(SessionEvent::Start, 0), SessionAction::Connect);
    assert_eq!(session.step(SessionEvent::ConnectFailed, 100), SessionAction::Close);
    assert_eq!(session.state(), SessionState::Closing);
    assert_eq!(session.step(SessionEvent::Closed, 100), SessionAction::Nothing);
    assert_eq!(session.state(), SessionState::Idle);
    assert_eq!(session.step(SessionEvent::Start, 100), SessionAction::Sleep);
    assert_eq!(session.state(), SessionState::Backoff);
    assert_eq!(action_deadline_ms(SessionAction::Sleep), Some(5_000));
    assert_eq!(session.step(SessionEvent::BackoffElapsed, 5_100), SessionAction::Connect);
    assert_eq!(session.state(), SessionState::Connecting);
    assert_eq!(session.attempts(), 2);
}

#[test]
fn a_subscription_that_is_not_sent_fails_the_session() {
    let mut session = FeedSession::new("BTCUSDT");
    session.step(SessionEvent::Start, 0);
    session.step(SessionEvent::Connected, 0);
    assert_eq!(action_deadline_ms(SessionAction::Subscribe), Some(10_000));
    assert_eq!(session.step(SessionEvent::SubscriptionFailed, 10_000), SessionAction::Close);
    assert_eq!(session.state(), SessionState::Closing);
}

#[test]
fn every_end_of_the_stream_closes_the_connection() {
    for event in [
        SessionEvent::ReadFailed,
        SessionEvent::StreamEnded,
        SessionEvent::CloseReceived,
        SessionEvent::PingFailed,
    ] {
        let mut session = FeedSession::new("BTCUSDT");
        streaming(&mut session, 0);
        assert_eq!(session.step(event, 1_000), SessionAction::Close);
        assert_eq!(session.state(), SessionState::Closing);
    }
}

#[test]
fn pings_go_out_while_the_venue_talks() {
    let mut session = FeedSession::new("BTCUSDT");
    streaming(&mut session, 1_000);
    assert_eq!(session.step(SessionEvent::PingDue, 1_000 + PING_INTERVAL_MS), SessionAction::Ping);
    assert_eq!(session.step(SessionEvent::PingDue, 1_000 + INACTIVITY_LIMIT_MS), SessionAction::Ping);
    assert_eq!(session.state(), SessionState::Streaming);
    assert_eq!(session.step(SessionEvent::PingDue, 1_001 + INACTIVITY_LIMIT_MS), SessionAction::Close);
    assert_eq!(session.state(), SessionState::Closing);
}

#[test]
fn a_frame_renews_the_time_of_the_last_message() {
    let mut session = FeedSession::new("BTCUSDT");
    streaming(&mut session, 0);
    assert_eq!(session.step(SessionEvent::FrameReceived, 100_000), SessionAction::Handle);
    assert_eq!(session.step(SessionEvent::PingDue, 125_000), SessionAction::Ping);
    assert_eq!(session.step(SessionEvent::PingDue, 220_000), SessionAction::Ping);
    assert_eq!(session.step(SessionEvent::PingDue, 220_001), SessionAction::Close);
}

#[test]
fn a_clock_that_goes_back_is_no_silence() {
    let mut session = FeedSession::new("BTCUSDT");
    streaming(&mut session, 500_000);
    assert_eq!(session.step(SessionEvent::PingDue, 1), SessionAction::Ping);
}

#[test]
fn a_stop_request_ends_the_session_from_every_state() {
    let reach: [fn(&mut FeedSession); 6] = [
        |_| {},
        |s| {
            s.step(SessionEvent::Start, 0);
        },
        |s| {
            s.step(SessionEvent::Start, 0);
            s.step(SessionEvent::Connected, 0);
        },
        |s| streaming(s, 0),
        |s| {
            streaming(s, 0);
            s.step(SessionEvent::ReadFailed, 0);
        },
        |s| {
            streaming(s, 0);
            s.step(SessionEvent::ReadFailed, 0);
            s.step(SessionEvent::Closed, 0);
            s.step(SessionEvent::Start, 0);
        },
    ];
    for prepare in reach {
        let mut session = FeedSession::new("BTCUSDT");
        prepare(&mut session);
        assert_eq!(session.step(SessionEvent::StopRequested, 9), SessionAction::Finish);
        assert_eq!(session.state(), SessionState::Stopped);
        for event in [SessionEvent::Start, SessionEvent::BackoffElapsed, SessionEvent::Connected, SessionEvent::StopRequested] {
            assert_eq!(session.step(event, 10), SessionAction::Nothing);
            assert_eq!(session.state(), SessionState::Stopped);
        }
    }
}

#[test]
fn a_closed_signal_channel_ends_the_session() {
    let mut session = FeedSession::new("BTCUSDT");
    streaming(&mut session, 0);
    assert_eq!(session.step(SessionEvent::SignalChannelClosed, 5), SessionAction::Finish);
    assert_eq!(session.state(), SessionState::Stopped);
}

#[test]
fn events_out_of_place_change_nothing() {
    let mut session = FeedSession::new("BTCUSDT");
    for event in [
        SessionEvent::Connected,
        SessionEvent::FrameReceived,
        SessionEvent::PingDue,
        SessionEvent::BackoffElapsed,
        SessionEvent::Closed,
        SessionEvent::ReadFailed,
    ] {
        assert_eq!(session.step(event, 1), SessionAction::Nothing);
        assert_eq!(session.state(), SessionState::Idle);
        assert_eq!(session.attempts(), 0);
    }
    streaming(&mut session, 0);
    assert_eq!(session.step(SessionEvent::Start, 1), SessionAction::Nothing);
    assert_eq!(session.step(SessionEvent::Connected, 1), SessionAction::Nothing);
    assert_eq!(session.state(), SessionState::Streaming);
}

#[test]
fn deadlines_of_the_actions() {
    assert_eq!(action_deadline_ms(SessionAction::Subscribe), Some(SUBSCRIBE_TIMEOUT_MS));
    assert_eq!(action_deadline_ms(SessionAction::Sleep), Some(BACKOFF_MS));
    assert_eq!(action_deadline_ms(SessionAction::Handle), Some(10_000));
    assert_eq!(action_deadline_ms(SessionAction::Connect), Some(10_000));
    assert_eq!(action_deadline_ms(SessionAction::Ping), None);
    assert_eq!(action_deadline_ms(SessionAction::Close), None);
    assert_eq!(action_deadline_ms(SessionAction::Finish), None);
    assert_eq!(action_deadline_ms(SessionAction::Nothing), None);
}

#[test]
fn messages_lead_to_signals_once_per_window() {
    let mut session = FeedSession::new("BTCUSDT");
    let mut engine = fresh_engine();
    streaming(&mut session, 0);
    assert!(session.handle_message(&mut engine, &stacked_book(2_000), 10).is_none());
    let signal = session.handle_message(&mut engine, &buy(1_950, "5"), 20).unwrap();
    assert_eq!(signal.signal_type, SignalType::StrongBuy);
    assert_eq!(signal.symbol, "BTCUSDT");
    // the same verdict again within five seconds is held back
    assert!(session.handle_message(&mut engine, &buy(1_960, "1"), 1_020).is_none());
    assert!(session.handle_message(&mut engine, &stacked_book(2_100), 5_020).is_none());
    // and handed on again after them
    let again = session.handle_message(&mut engine, &buy(1_970, "1"), 5_021).unwrap();
    assert_eq!(again.signal_type, SignalType::StrongBuy);
}

#[test]
fn a_message_without_data_leads_to_no_signal() {
    let mut session = FeedSession::new("BTCUSDT");
    let mut engine = fresh_engine();
    session.handle_message(&mut engine, &stacked_book(2_000), 10);
    session.handle_message(&mut engine, &buy(1_950, "5"), 20);
    assert!(session.handle_message(&mut engine, &envelope("trade", None), 50_000).is_none());
    // the deduplication was not touched: the next signal passes
    assert!(session.handle_message(&mut engine, &buy(1_960, "1"), 50_001).is_some());
}

#[test]
fn the_session_analyses_its_own_symbol() {
    let mut session = FeedSession::new("ETHUSDT");
    let mut engine = fresh_engine();
    session.handle_message(&mut engine, &stacked_book(2_000), 10);
    assert!(session.handle_message(&mut engine, &buy(1_950, "5"), 20).is_none());
    assert_eq!(engine.analyze_symbol("BTCUSDT").signal_type, SignalType::StrongBuy);
}

#[test]
fn a_session_resumes_after_a_transport_failure() {
    let mut session = FeedSession::new("BTCUSDT");
    let mut engine = fresh_engine();
    streaming(&mut session, 0);
    assert!(session.handle_message(&mut engine, &stacked_book(2_000), 10).is_none());
    // three trades arrive; the first of them raises a signal
    assert_eq!(session.step(SessionEvent::FrameReceived, 100), SessionAction::Handle);
    assert!(session.handle_message(&mut engine, &buy(1_950, "5"), 100).is_some());
    assert_eq!(session.step(SessionEvent::FrameReceived, 200), SessionAction::Handle);
    assert!(session.handle_message(&mut engine, &buy(1_960, "1"), 200).is_none());
    assert_eq!(session.step(SessionEvent::FrameReceived, 300), SessionAction::Handle);
    assert!(session.handle_message(&mut engine, &buy(1_970, "1"), 300).is_none());
    // the transport fails
    assert_eq!(session.step(SessionEvent::ReadFailed, 400), SessionAction::Close);
    assert_eq!(session.state(), SessionState::Closing);
    assert_eq!(session.step(SessionEvent::Closed, 400), SessionAction::Nothing);
    assert_eq!(session.step(SessionEvent::Start, 400), SessionAction::Sleep);
    assert_eq!(action_deadline_ms(SessionAction::Sleep), Some(5_000));
    assert_eq!(session.step(SessionEvent::BackoffElapsed, 5_400), SessionAction::Connect);
    assert_eq!(session.state(), SessionState::Connecting);
    assert_eq!(session.step(SessionEvent::Connected, 5_500), SessionAction::Subscribe);
    assert_eq!(session.step(SessionEvent::SubscriptionSent, 5_600), SessionAction::Nothing);
    assert_eq!(session.state(), SessionState::Streaming);
    assert_eq!(session.attempts(), 2);
    // book and trades are still there, and the next signal is due again
    assert_eq!(engine.analyze_symbol("BTCUSDT").signal_type, SignalType::StrongBuy);
    assert_eq!(session.step(SessionEvent::FrameReceived, 5_700), SessionAction::Handle);
    let signal = session.handle_message(&mut engine, &buy(1_980, "1"), 5_700).unwrap();
    assert_eq!(signal.signal_type, SignalType::StrongBuy);
    assert!(session.handle_message(&mut engine, &buy(1_990, "1"), 5_800).is_none());
}
