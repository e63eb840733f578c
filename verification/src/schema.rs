use vstd::prelude::*;
use crate::errors::AdapterError;

verus! {

/// Aggregation granularities a caller may request for bar data.
#[derive(Clone, Copy, PartialEq, Eq, Structural, Debug)]
pub enum BarAggregation {
    Second,
    Minute,
    Hour,
    Day,
    Tick,
    Volume,
    Value,
}

/// The vendor's named record layouts that this adapter requests.
#[derive(Clone, Copy, PartialEq, Eq, Structural, Debug)]
pub enum Schema {
    Definition,
    Mbp1,
    Trades,
    Ohlcv1S,
    Ohlcv1M,
    Ohlcv1H,
    Ohlcv1D,
}

/// Maps a bar aggregation onto the vendor schema that carries bars of that
/// granularity. Only second, minute, hour and day granularities have a
/// corresponding vendor schema; every other aggregation is unsupported.
pub open spec fn spec_bar_schema(agg: BarAggregation) -> Option<Schema> {
    match agg {
        BarAggregation::Second => Some(Schema::Ohlcv1S),
        BarAggregation::Minute => Some(Schema::Ohlcv1M),
        BarAggregation::Hour => Some(Schema::Ohlcv1H),
        BarAggregation::Day => Some(Schema::Ohlcv1D),
        _ => None,
    }
}

/// Selects the vendor schema for a requested bar aggregation, or reports the
/// aggregation as unsupported. Pure and total: no request is issued here.
pub fn bar_schema_for_aggregation(agg: BarAggregation) -> (r: Result<Schema, AdapterError>)
    ensures
        r matches Ok(s) ==> spec_bar_schema(agg) == Some(s),
        r matches Err(e) ==> spec_bar_schema(agg) is None && e == AdapterError::UnsupportedAggregation,
{
    match agg {
        BarAggregation::Second => Ok(Schema::Ohlcv1S),
        BarAggregation::Minute => Ok(Schema::Ohlcv1M),
        BarAggregation::Hour => Ok(Schema::Ohlcv1H),
        BarAggregation::Day => Ok(Schema::Ohlcv1D),
        _ => Err(AdapterError::UnsupportedAggregation),
    }
}

} // verus!
