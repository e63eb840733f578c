use vstd::prelude::*;
use crate::errors::AdapterError;
use crate::model::{CanonicalRecord, InstrumentDefRecord, InstrumentId, MarketBody, Price, Quantity};

verus! {

/// What normalizing one market-data payload yields: the canonical record (and,
/// for a trade-flagged quote update, the derived trade record second), or the
/// report that the record kind is not normalized. The mapping is deterministic
/// and does no I/O; the vendor's fixed-point price and quantity fields are
/// carried over exactly, tagged with the caller's price precision.
pub open spec fn spec_normalize_market(
    body: MarketBody,
    id: InstrumentId,
    precision: u8,
    ts_event: u64,
    ts_init: u64,
) -> Result<(CanonicalRecord, Option<CanonicalRecord>), AdapterError> {
    match body {
        MarketBody::QuoteUpdate { bid_px, ask_px, bid_sz, ask_sz, last_px, last_sz, is_trade } => {
            let quote = CanonicalRecord::Quote {
                id: id,
                bid_price: Price { raw: bid_px, precision },
                ask_price: Price { raw: ask_px, precision },
                bid_size: Quantity { raw: bid_sz, precision },
                ask_size: Quantity { raw: ask_sz, precision },
                ts_event: ts_event,
                ts_init: ts_init,
            };
            if is_trade {
                let trade = CanonicalRecord::Trade {
                    id: id,
                    price: Price { raw: last_px, precision },
                    size: Quantity { raw: last_sz, precision },
                    ts_event: ts_event,
                    ts_init: ts_init,
                };
                Ok((quote, Some(trade)))
            } else {
                Ok((quote, None))
            }
        },
        MarketBody::TradeEvent { price, size } => Ok((
            CanonicalRecord::Trade {
                id: id,
                price: Price { raw: price, precision },
                size: Quantity { raw: size, precision },
                ts_event: ts_event,
                ts_init: ts_init,
            },
            None,
        )),
        MarketBody::BarUpdate { open, high, low, close, volume } => Ok((
            CanonicalRecord::Bar {
                id: id,
                open: Price { raw: open, precision },
                high: Price { raw: high, precision },
                low: Price { raw: low, precision },
                close: Price { raw: close, precision },
                volume: Quantity { raw: volume, precision },
                ts_event: ts_event,
                ts_init: ts_init,
            },
            None,
        )),
        MarketBody::Other => Err(AdapterError::UnsupportedRecord),
    }
}

/// Normalizes one market-data payload into its canonical record(s). Used
/// identically by the historical and the live path.
pub fn normalize_market(
    body: &MarketBody,
    id: InstrumentId,
    precision: u8,
    ts_event: u64,
    ts_init: u64,
) -> (r: Result<(CanonicalRecord, Option<CanonicalRecord>), AdapterError>)
    ensures
        r == spec_normalize_market(*body, id, precision, ts_event, ts_init),
{
    match body {
        MarketBody::QuoteUpdate { bid_px, ask_px, bid_sz, ask_sz, last_px, last_sz, is_trade } => {
            let second = if *is_trade {
                Some(CanonicalRecord::Trade {
                    id: id.duplicate(),
                    price: Price { raw: *last_px, precision },
                    size: Quantity { raw: *last_sz, precision },
                    ts_event,
                    ts_init,
                })
            } else {
                None
            };
            let quote = CanonicalRecord::Quote {
                id,
                bid_price: Price { raw: *bid_px, precision },
                ask_price: Price { raw: *ask_px, precision },
                bid_size: Quantity { raw: *bid_sz, precision },
                ask_size: Quantity { raw: *ask_sz, precision },
                ts_event,
                ts_init,
            };
            Ok((quote, second))
        },
        MarketBody::TradeEvent { price, size } => Ok((
            CanonicalRecord::Trade {
                id,
                price: Price { raw: *price, precision },
                size: Quantity { raw: *size, precision },
                ts_event,
                ts_init,
            },
            None,
        )),
        MarketBody::BarUpdate { open, high, low, close, volume } => Ok((
            CanonicalRecord::Bar {
                id,
                open: Price { raw: *open, precision },
                high: Price { raw: *high, precision },
                low: Price { raw: *low, precision },
                close: Price { raw: *close, precision },
                volume: Quantity { raw: *volume, precision },
                ts_event,
                ts_init,
            },
            None,
        )),
        MarketBody::Other => Err(AdapterError::UnsupportedRecord),
    }
}

/// Round-trip: normalizing any vendor record of a kind this adapter handles
/// succeeds, and reading the canonical fields back gives the instrument
/// identity, the fixed-point prices and quantities, and the timestamps exactly
/// as supplied, the price precision being the caller's on every one of them.
pub proof fn lemma_normalize_round_trip(
    body: MarketBody,
    id: InstrumentId,
    precision: u8,
    ts_event: u64,
    ts_init: u64,
)
    requires
        !(body is Other),
    ensures
        spec_normalize_market(body, id, precision, ts_event, ts_init) matches Ok((primary, secondary))
            && {
            &&& primary.spec_instrument() == id
            &&& primary.spec_ts_event() == ts_event
            &&& primary.spec_ts_init() == ts_init
            &&& match body {
                MarketBody::TradeEvent { price, size } => primary == (CanonicalRecord::Trade {
                    id: id,
                    price: Price { raw: price, precision },
                    size: Quantity { raw: size, precision },
                    ts_event,
                    ts_init,
                }) && secondary is None,
                MarketBody::QuoteUpdate { bid_px, ask_px, bid_sz, ask_sz, last_px, last_sz, is_trade } => {
                    &&& primary == (CanonicalRecord::Quote {
                        id: id,
                        bid_price: Price { raw: bid_px, precision },
                        ask_price: Price { raw: ask_px, precision },
                        bid_size: Quantity { raw: bid_sz, precision },
                        ask_size: Quantity { raw: ask_sz, precision },
                        ts_event,
                        ts_init,
                    })
                    &&& if is_trade {
                        secondary == Some(CanonicalRecord::Trade {
                            id: id,
                            price: Price { raw: last_px, precision },
                            size: Quantity { raw: last_sz, precision },
                            ts_event,
                            ts_init,
                        })
                    } else {
                        secondary is None
                    }
                },
                MarketBody::BarUpdate { open, high, low, close, volume } => primary == (
                CanonicalRecord::Bar {
                    id: id,
                    open: Price { raw: open, precision },
                    high: Price { raw: high, precision },
                    low: Price { raw: low, precision },
                    close: Price { raw: close, precision },
                    volume: Quantity { raw: volume, precision },
                    ts_event,
                    ts_init,
                }) && secondary is None,
                MarketBody::Other => false,
            }
        },
{
}

/// What normalizing one instrument definition yields. A definition is
/// supplementary metadata: one whose raw symbol is empty is malformed and is
/// skipped rather than failing the stream, so the result is an option.
pub open spec fn spec_normalize_instrument_def(
    def: InstrumentDefRecord,
    venue: String,
    ts_init: u64,
) -> Option<CanonicalRecord> {
    if def.raw_symbol@.len() == 0 {
        None
    } else {
        Some(CanonicalRecord::Instrument {
            id: InstrumentId { symbol: def.raw_symbol, venue: venue },
            ts_event: def.ts_event,
            ts_init: ts_init,
        })
    }
}

/// Normalizes one instrument definition against the venue its publisher
/// resolved to, or reports it malformed.
pub fn normalize_instrument_def(def: &InstrumentDefRecord, venue: &String, ts_init: u64) -> (r:
    Option<CanonicalRecord>)
    ensures
        r == spec_normalize_instrument_def(*def, *venue, ts_init),
{
    if def.raw_symbol.as_str().unicode_len() == 0 {
        None
    } else {
        Some(CanonicalRecord::Instrument {
            id: InstrumentId { symbol: def.raw_symbol.clone(), venue: venue.clone() },
            ts_event: def.ts_event,
            ts_init,
        })
    }
}

} // verus!
