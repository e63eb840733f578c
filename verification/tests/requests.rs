use databento_adapter::errors::AdapterError;
use databento_adapter::historical::{build_bar_range_request, build_range_request, make_time_range};
use databento_adapter::live::build_subscription;
use databento_adapter::schema::{bar_schema_for_aggregation, BarAggregation, Schema};

#[test]
fn bar_schema_selection_maps_each_supported_aggregation() {
    assert_eq!(bar_schema_for_aggregation(BarAggregation::Second), Ok(Schema::Ohlcv1S));
    assert_eq!(bar_schema_for_aggregation(BarAggregation::Minute), Ok(Schema::Ohlcv1M));
    assert_eq!(bar_schema_for_aggregation(BarAggregation::Hour), Ok(Schema::Ohlcv1H));
    assert_eq!(bar_schema_for_aggregation(BarAggregation::Day), Ok(Schema::Ohlcv1D));
}

#[test]
fn bar_schema_selection_is_deterministic() {
    for _ in 0..3 {
        assert_eq!(bar_schema_for_aggregation(BarAggregation::Minute), Ok(Schema::Ohlcv1M));
    }
}

#[test]
fn bar_schema_selection_rejects_other_aggregations() {
    assert_eq!(
        bar_schema_for_aggregation(BarAggregation::Tick),
        Err(AdapterError::UnsupportedAggregation)
    );
    assert_eq!(
        bar_schema_for_aggregation(BarAggregation::Volume),
        Err(AdapterError::UnsupportedAggregation)
    );
    assert_eq!(
        bar_schema_for_aggregation(BarAggregation::Value),
        Err(AdapterError::UnsupportedAggregation)
    );
}

#[test]
fn bar_request_fails_before_anything_else_on_unsupported_aggregation() {
    let r = build_bar_range_request(
        "GLBX.MDP3".to_string(),
        "ESZ4".to_string(),
        BarAggregation::Tick,
        10,
        Some(5),
        Some(0),
    );
    assert_eq!(r.unwrap_err(), AdapterError::UnsupportedAggregation);
}

#[test]
fn bar_request_carries_the_selected_schema() {
    let r = build_bar_range_request(
        "GLBX.MDP3".to_string(),
        "ESZ4".to_string(),
        BarAggregation::Hour,
        10,
        Some(20),
        None,
    )
    .unwrap();
    assert_eq!(r.schema, Schema::Ohlcv1H);
    assert_eq!(r.range.start, 10);
    assert_eq!(r.range.end, Some(20));
    assert_eq!(r.limit, None);
}

#[test]
fn time_range_accepts_an_open_end() {
    let tr = make_time_range(1700000000000000000, None).unwrap();
    assert_eq!(tr.start, 1700000000000000000);
    assert_eq!(tr.end, None);
}

#[test]
fn time_range_accepts_an_equal_start_and_end() {
    let tr = make_time_range(5, Some(5)).unwrap();
    assert_eq!(tr.end, Some(5));
}

#[test]
fn time_range_rejects_an_end_before_the_start() {
    assert_eq!(make_time_range(10, Some(9)).unwrap_err(), AdapterError::BadTimeRange);
}

#[test]
fn range_request_normalizes_a_zero_limit_to_none() {
    let r = build_range_request(
        "GLBX.MDP3".to_string(),
        "ESZ4".to_string(),
        Schema::Trades,
        1,
        None,
        Some(0),
    )
    .unwrap();
    assert_eq!(r.limit, None);
}

#[test]
fn range_request_keeps_a_positive_limit() {
    let r = build_range_request(
        "GLBX.MDP3".to_string(),
        "ESZ4".to_string(),
        Schema::Trades,
        1,
        None,
        Some(100),
    )
    .unwrap();
    assert_eq!(r.limit, Some(100));
    assert_eq!(r.dataset, "GLBX.MDP3");
    assert_eq!(r.symbols, "ESZ4");
    assert_eq!(r.schema, Schema::Trades);
}

#[test]
fn subscription_accepts_a_vendor_schema_name() {
    let sub = build_subscription(
        "trades".to_string(),
        "ESZ4".to_string(),
        None,
        Some(1700000000000000000),
    )
    .unwrap();
    assert_eq!(sub.schema, "trades");
    assert_eq!(sub.symbols, "ESZ4");
    assert_eq!(sub.stype_in, "raw_symbol");
    assert_eq!(sub.start, Some(1700000000000000000));
}

#[test]
fn subscription_rejects_an_unknown_schema_name() {
    let r = build_subscription("bogus-schema".to_string(), "ESZ4".to_string(), None, None);
    assert_eq!(r.unwrap_err(), AdapterError::BadSchema);
}

#[test]
fn subscription_accepts_every_bar_schema_name() {
    for name in ["ohlcv-1s", "ohlcv-1m", "ohlcv-1h", "ohlcv-1d", "definition", "mbp-1"] {
        let sub = build_subscription(name.to_string(), "ESZ4".to_string(), None, None).unwrap();
        assert_eq!(sub.schema, name);
    }
}

#[test]
fn subscription_keeps_a_given_symbol_type() {
    let sub = build_subscription(
        "trades".to_string(),
        "12345".to_string(),
        Some("instrument_id".to_string()),
        None,
    )
    .unwrap();
    assert_eq!(sub.stype_in, "instrument_id");
}

#[test]
fn subscription_rejects_an_unknown_symbol_type() {
    let r = build_subscription(
        "trades".to_string(),
        "ESZ4".to_string(),
        Some("bogus-type".to_string()),
        None,
    );
    assert_eq!(r.unwrap_err(), AdapterError::BadSymbolType);
}
