use databento_adapter::errors::AdapterError;
use databento_adapter::historical::{collect_instruments, process_batch};
use databento_adapter::live::{
    FairnessGate, LiveController, LiveSession, SymbolMap, RELOCK_INTERVAL_NS,
};
use databento_adapter::model::{
    CanonicalRecord, InstrumentDefRecord, InstrumentId, MarketBody, MarketDataRecord, VendorRecord,
};
use databento_adapter::normalize::normalize_market;
use databento_adapter::publishers::{PublisherDirectory, PublisherRecord};
use databento_adapter::schema::Schema;

fn glbx_directory() -> PublisherDirectory {
    let records = vec![PublisherRecord {
        publisher_id: 1,
        dataset: "GLBX.MDP3".to_string(),
        venue: "XCME".to_string(),
    }];
    PublisherDirectory::from_records(&records)
}

fn trade_record(instrument_id: u32, price: i64, size: u64, ts_event: u64) -> MarketDataRecord {
    MarketDataRecord {
        publisher_id: 1,
        instrument_id,
        ts_event,
        body: MarketBody::TradeEvent { price, size },
    }
}

#[test]
fn normalize_round_trip_preserves_trade_fields() {
    let id = InstrumentId { symbol: "ESZ4".to_string(), venue: "XCME".to_string() };
    let body = MarketBody::TradeEvent { price: 4500250000000, size: 7 };
    let (primary, secondary) = normalize_market(&body, id, 2, 111, 222).unwrap();
    assert!(secondary.is_none());
    match primary {
        CanonicalRecord::Trade { id, price, size, ts_event, ts_init } => {
            assert_eq!(id.symbol, "ESZ4");
            assert_eq!(id.venue, "XCME");
            assert_eq!(price.raw, 4500250000000);
            assert_eq!(price.precision, 2);
            assert_eq!(size.raw, 7);
            assert_eq!(size.precision, 2);
            assert_eq!(ts_event, 111);
            assert_eq!(ts_init, 222);
        },
        other => panic!("expected a trade, got {other:?}"),
    }
}

#[test]
fn normalize_round_trip_preserves_bar_fields() {
    let id = InstrumentId { symbol: "ESZ4".to_string(), venue: "XCME".to_string() };
    let body = MarketBody::BarUpdate { open: 1, high: 4, low: 0, close: 3, volume: 250 };
    let (primary, secondary) = normalize_market(&body, id, 2, 10, 20).unwrap();
    assert!(secondary.is_none());
    match primary {
        CanonicalRecord::Bar { open, high, low, close, volume, ts_event, ts_init, .. } => {
            assert_eq!(open.raw, 1);
            assert_eq!(high.raw, 4);
            assert_eq!(low.raw, 0);
            assert_eq!(close.raw, 3);
            assert_eq!(volume.raw, 250);
            assert_eq!(ts_event, 10);
            assert_eq!(ts_init, 20);
        },
        other => panic!("expected a bar, got {other:?}"),
    }
}

#[test]
fn normalize_yields_the_derived_trade_second() {
    let id = InstrumentId { symbol: "ESZ4".to_string(), venue: "XCME".to_string() };
    let body = MarketBody::QuoteUpdate {
        bid_px: 100,
        ask_px: 101,
        bid_sz: 5,
        ask_sz: 6,
        last_px: 100,
        last_sz: 2,
        is_trade: true,
    };
    let (primary, secondary) = normalize_market(&body, id, 2, 1, 2).unwrap();
    assert!(matches!(primary, CanonicalRecord::Quote { .. }));
    match secondary.unwrap() {
        CanonicalRecord::Trade { price, size, .. } => {
            assert_eq!(price.raw, 100);
            assert_eq!(size.raw, 2);
        },
        other => panic!("expected a trade, got {other:?}"),
    }
}

#[test]
fn normalize_rejects_an_unrecognized_record_kind() {
    let id = InstrumentId { symbol: "ESZ4".to_string(), venue: "XCME".to_string() };
    let r = normalize_market(&MarketBody::Other, id, 2, 1, 2);
    assert_eq!(r.unwrap_err(), AdapterError::UnsupportedRecord);
}

#[test]
fn dispatch_preserves_arrival_order_with_primary_before_secondary() {
    let dir = glbx_directory();
    let mut session = LiveSession::new();
    let records = vec![
        VendorRecord::SymbolMapping {
            instrument_id: 1,
            symbol: "ESZ4".to_string(),
            ts_event: 1,
        },
        VendorRecord::MarketData(trade_record(1, 10, 1, 2)),
        VendorRecord::MarketData(MarketDataRecord {
            publisher_id: 1,
            instrument_id: 1,
            ts_event: 3,
            body: MarketBody::QuoteUpdate {
                bid_px: 99,
                ask_px: 101,
                bid_sz: 4,
                ask_sz: 5,
                last_px: 100,
                last_sz: 2,
                is_trade: true,
            },
        }),
        VendorRecord::ErrorNotice { msg: "vendor hiccup".to_string() },
        VendorRecord::MarketData(MarketDataRecord {
            publisher_id: 1,
            instrument_id: 1,
            ts_event: 4,
            body: MarketBody::BarUpdate { open: 1, high: 2, low: 1, close: 2, volume: 9 },
        }),
    ];
    let out = session.dispatch_all(&dir, &records, 2, 50).unwrap();
    assert_eq!(out.len(), 4);
    assert!(matches!(&out[0], CanonicalRecord::Trade { ts_event: 2, .. }));
    assert!(matches!(&out[1], CanonicalRecord::Quote { ts_event: 3, .. }));
    assert!(matches!(&out[2], CanonicalRecord::Trade { ts_event: 3, .. }));
    assert!(matches!(&out[3], CanonicalRecord::Bar { ts_event: 4, .. }));
}

#[test]
fn trade_resolves_only_after_its_mapping() {
    let dir = glbx_directory();
    let mut session = LiveSession::new();
    let mapping = VendorRecord::SymbolMapping {
        instrument_id: 1,
        symbol: "ESZ4".to_string(),
        ts_event: 1,
    };
    let trade = VendorRecord::MarketData(trade_record(1, 4500, 3, 2));
    assert!(session.on_record(&dir, &mapping, 2, 9).unwrap().is_empty());
    let out = session.on_record(&dir, &trade, 2, 9).unwrap();
    assert_eq!(out.len(), 1);
    match &out[0] {
        CanonicalRecord::Trade { id, .. } => {
            assert_eq!(id.symbol, "ESZ4");
            assert_eq!(id.venue, "XCME");
        },
        other => panic!("expected a trade, got {other:?}"),
    }
}

#[test]
fn reordering_mapping_and_trade_fails_resolution() {
    let dir = glbx_directory();
    let mut session = LiveSession::new();
    let trade = VendorRecord::MarketData(trade_record(1, 4500, 3, 2));
    let r = session.on_record(&dir, &trade, 2, 9);
    assert_eq!(r.unwrap_err(), AdapterError::UnresolvedSymbol(1));
}

#[test]
fn dispatch_fails_on_an_unknown_publisher() {
    let dir = glbx_directory();
    let mut session = LiveSession::new();
    session
        .on_record(
            &dir,
            &VendorRecord::SymbolMapping {
                instrument_id: 5,
                symbol: "AAPL".to_string(),
                ts_event: 1,
            },
            2,
            9,
        )
        .unwrap();
    let stray = VendorRecord::MarketData(MarketDataRecord {
        publisher_id: 42,
        instrument_id: 5,
        ts_event: 2,
        body: MarketBody::TradeEvent { price: 1, size: 1 },
    });
    assert_eq!(session.on_record(&dir, &stray, 2, 9).unwrap_err(), AdapterError::UnknownPublisher(42));
}

#[test]
fn notices_are_not_forwarded() {
    let dir = glbx_directory();
    let mut session = LiveSession::new();
    let err_note = VendorRecord::ErrorNotice { msg: "bad day".to_string() };
    let sys_note = VendorRecord::SystemNotice { msg: "heartbeat".to_string() };
    assert!(session.on_record(&dir, &err_note, 2, 9).unwrap().is_empty());
    assert!(session.on_record(&dir, &sys_note, 2, 9).unwrap().is_empty());
}

#[test]
fn instrument_definitions_are_forwarded_and_malformed_ones_skipped() {
    let dir = glbx_directory();
    let mut session = LiveSession::new();
    let good = VendorRecord::InstrumentDef(InstrumentDefRecord {
        publisher_id: 1,
        raw_symbol: "ESZ4".to_string(),
        ts_event: 7,
    });
    let malformed = VendorRecord::InstrumentDef(InstrumentDefRecord {
        publisher_id: 1,
        raw_symbol: String::new(),
        ts_event: 8,
    });
    let out = session.on_record(&dir, &good, 2, 9).unwrap();
    assert_eq!(out.len(), 1);
    assert!(matches!(&out[0], CanonicalRecord::Instrument { ts_event: 7, .. }));
    assert!(session.on_record(&dir, &malformed, 2, 9).unwrap().is_empty());
}

#[test]
fn historical_trades_batch_returns_trades_in_order() {
    let dir = glbx_directory();
    let mut syms = SymbolMap::new();
    syms.on_mapping(1, "ESZ4".to_string());
    let recs = vec![
        trade_record(1, 100, 1, 1700000000000000001),
        trade_record(1, 101, 2, 1700000000000000002),
        trade_record(1, 102, 3, 1700000000000000003),
    ];
    let out = process_batch(&dir, &syms, &recs, Schema::Trades, 2, 9).unwrap();
    assert_eq!(out.len(), 3);
    for (j, rec) in out.iter().enumerate() {
        match rec {
            CanonicalRecord::Trade { id, ts_event, .. } => {
                assert_eq!(id.venue, "XCME");
                assert_eq!(*ts_event, 1700000000000000001 + j as u64);
            },
            other => panic!("expected a trade, got {other:?}"),
        }
    }
}

#[test]
fn historical_batch_aborts_on_a_schema_mismatch() {
    let dir = glbx_directory();
    let mut syms = SymbolMap::new();
    syms.on_mapping(1, "ESZ4".to_string());
    let recs = vec![
        trade_record(1, 100, 1, 1),
        MarketDataRecord {
            publisher_id: 1,
            instrument_id: 1,
            ts_event: 2,
            body: MarketBody::QuoteUpdate {
                bid_px: 99,
                ask_px: 101,
                bid_sz: 1,
                ask_sz: 1,
                last_px: 0,
                last_sz: 0,
                is_trade: false,
            },
        },
    ];
    let r = process_batch(&dir, &syms, &recs, Schema::Trades, 2, 9);
    assert_eq!(r.unwrap_err(), AdapterError::SchemaMismatch);
}

#[test]
fn historical_empty_batch_is_a_valid_result() {
    let dir = glbx_directory();
    let syms = SymbolMap::new();
    let out = process_batch(&dir, &syms, &Vec::new(), Schema::Trades, 2, 9).unwrap();
    assert!(out.is_empty());
}

#[test]
fn definition_batch_skips_malformed_definitions_and_keeps_order() {
    let dir = glbx_directory();
    let defs = vec![
        InstrumentDefRecord { publisher_id: 1, raw_symbol: "ESZ4".to_string(), ts_event: 1 },
        InstrumentDefRecord { publisher_id: 1, raw_symbol: String::new(), ts_event: 2 },
        InstrumentDefRecord { publisher_id: 1, raw_symbol: "NQZ4".to_string(), ts_event: 3 },
    ];
    let out = collect_instruments(&dir, &defs, 9).unwrap();
    assert_eq!(out.len(), 2);
    match (&out[0], &out[1]) {
        (
            CanonicalRecord::Instrument { id: first, ts_event: 1, .. },
            CanonicalRecord::Instrument { id: second, ts_event: 3, .. },
        ) => {
            assert_eq!(first.symbol, "ESZ4");
            assert_eq!(second.symbol, "NQZ4");
            assert_eq!(first.venue, "XCME");
        },
        other => panic!("expected two instruments, got {other:?}"),
    }
}

#[test]
fn definition_batch_fails_on_an_unknown_publisher() {
    let dir = glbx_directory();
    let defs = vec![InstrumentDefRecord {
        publisher_id: 9,
        raw_symbol: "ESZ4".to_string(),
        ts_event: 1,
    }];
    assert_eq!(collect_instruments(&dir, &defs, 9).unwrap_err(), AdapterError::UnknownPublisher(9));
}

#[test]
fn gate_releases_within_one_interval_under_continuous_timeouts() {
    let mut gate = FairnessGate::new(0);
    let mut now: u64 = 0;
    let mut last_release: u64 = 0;
    // Polls arrive once a millisecond, as under continuous decode timeouts.
    for _ in 0..100 {
        now += 1_000_000;
        let released = gate.poll(now);
        if released {
            assert!(now - last_release <= RELOCK_INTERVAL_NS);
            last_release = now;
        } else {
            assert!(now - last_release < RELOCK_INTERVAL_NS);
        }
    }
    assert!(last_release > 0);
}

#[test]
fn gate_releases_exactly_when_the_interval_has_elapsed() {
    let mut gate = FairnessGate::new(1_000);
    assert!(!gate.poll(1_000 + RELOCK_INTERVAL_NS - 1));
    assert!(gate.poll(1_000 + RELOCK_INTERVAL_NS));
    assert!(!gate.poll(1_000 + RELOCK_INTERVAL_NS + 1));
}

#[test]
fn close_before_connect_fails_as_never_started() {
    let mut ctl = LiveController::new();
    assert_eq!(ctl.close(), Err(AdapterError::NotStarted));
}

#[test]
fn connection_is_made_once_and_closed_once() {
    let mut ctl = LiveController::new();
    assert_eq!(ctl.connection_action(), Ok(true));
    ctl.on_connected();
    assert_eq!(ctl.connection_action(), Ok(false));
    assert_eq!(ctl.close(), Ok(()));
    assert_eq!(ctl.close(), Err(AdapterError::ClientClosed));
    assert_eq!(ctl.connection_action(), Err(AdapterError::ClientClosed));
}

#[test]
fn a_failed_connect_leaves_the_client_free_to_retry() {
    let mut ctl = LiveController::new();
    assert_eq!(ctl.connection_action(), Ok(true));
    // The connect failed: nothing is recorded, so the next call retries and
    // close still reports that the client was never started.
    assert_eq!(ctl.connection_action(), Ok(true));
    assert_eq!(ctl.close(), Err(AdapterError::NotStarted));
    assert_eq!(ctl.connection_action(), Ok(true));
}
