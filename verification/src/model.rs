use vstd::prelude::*;

verus! {

/// A resolved instrument identity: a human-readable symbol together with the
/// venue it trades on.
#[derive(Debug)]
pub struct InstrumentId {
    pub symbol: String,
    pub venue: String,
}

impl InstrumentId {
    /// Builds a second value carrying the same symbol and venue.
    pub fn duplicate(&self) -> (r: InstrumentId)
        ensures
            r == *self,
    {
        InstrumentId { symbol: self.symbol.clone(), venue: self.venue.clone() }
    }
}

/// A fixed-point price: `raw` counts units of ten to the minus ninth, and
/// `precision` is the number of decimal places the canonical model displays.
#[derive(Clone, Copy, PartialEq, Eq, Structural, Debug)]
pub struct Price {
    pub raw: i64,
    pub precision: u8,
}

/// A fixed-point quantity, in the same representation as [`Price`].
#[derive(Clone, Copy, PartialEq, Eq, Structural, Debug)]
pub struct Quantity {
    pub raw: u64,
    pub precision: u8,
}

/// The platform's canonical representation of one market event, independent of
/// the vendor's wire format.
#[derive(Debug)]
pub enum CanonicalRecord {
    Instrument { id: InstrumentId, ts_event: u64, ts_init: u64 },
    Quote {
        id: InstrumentId,
        bid_price: Price,
        ask_price: Price,
        bid_size: Quantity,
        ask_size: Quantity,
        ts_event: u64,
        ts_init: u64,
    },
    Trade { id: InstrumentId, price: Price, size: Quantity, ts_event: u64, ts_init: u64 },
    Bar {
        id: InstrumentId,
        open: Price,
        high: Price,
        low: Price,
        close: Price,
        volume: Quantity,
        ts_event: u64,
        ts_init: u64,
    },
}

impl CanonicalRecord {
    /// The instrument identity a canonical record carries.
    pub open spec fn spec_instrument(&self) -> InstrumentId {
        match *self {
            CanonicalRecord::Instrument { id, .. } => id,
            CanonicalRecord::Quote { id, .. } => id,
            CanonicalRecord::Trade { id, .. } => id,
            CanonicalRecord::Bar { id, .. } => id,
        }
    }

    /// The event timestamp a canonical record carries.
    pub open spec fn spec_ts_event(&self) -> u64 {
        match *self {
            CanonicalRecord::Instrument { ts_event, .. } => ts_event,
            CanonicalRecord::Quote { ts_event, .. } => ts_event,
            CanonicalRecord::Trade { ts_event, .. } => ts_event,
            CanonicalRecord::Bar { ts_event, .. } => ts_event,
        }
    }

    /// The ingestion timestamp a canonical record carries.
    pub open spec fn spec_ts_init(&self) -> u64 {
        match *self {
            CanonicalRecord::Instrument { ts_init, .. } => ts_init,
            CanonicalRecord::Quote { ts_init, .. } => ts_init,
            CanonicalRecord::Trade { ts_init, .. } => ts_init,
            CanonicalRecord::Bar { ts_init, .. } => ts_init,
        }
    }
}

/// One instrument-definition record, as decoded from the vendor stream: the
/// plain fields this adapter reads from it.
#[derive(Debug)]
pub struct InstrumentDefRecord {
    pub publisher_id: u16,
    pub raw_symbol: String,
    pub ts_event: u64,
}

/// The payload of one market-data record, by vendor record kind. A quote
/// update flagged as a trade carries the traded price and size beside the
/// book levels and yields a derived trade record.
#[derive(Clone, Copy, PartialEq, Eq, Structural, Debug)]
pub enum MarketBody {
    QuoteUpdate {
        bid_px: i64,
        ask_px: i64,
        bid_sz: u64,
        ask_sz: u64,
        last_px: i64,
        last_sz: u64,
        is_trade: bool,
    },
    TradeEvent { price: i64, size: u64 },
    BarUpdate { open: i64, high: i64, low: i64, close: i64, volume: u64 },
    /// A record kind this adapter recognizes on the wire but does not
    /// normalize (statistics, status, imbalance, and protocol additions).
    Other,
}

/// One market-data record from the vendor stream: the instrument and publisher
/// it names, its event timestamp, and its payload.
#[derive(Clone, Copy, PartialEq, Eq, Structural, Debug)]
pub struct MarketDataRecord {
    pub publisher_id: u16,
    pub instrument_id: u32,
    pub ts_event: u64,
    pub body: MarketBody,
}

/// One decoded record of the live stream, classified by record kind. The set
/// is closed: kinds the dispatcher does not normalize arrive as market data
/// with an [`MarketBody::Other`] payload.
#[derive(Debug)]
pub enum VendorRecord {
    /// Maps a vendor instrument identifier to its raw symbol from this point
    /// of the stream on.
    SymbolMapping { instrument_id: u32, symbol: String, ts_event: u64 },
    /// An error notice from the vendor: logged, never forwarded.
    ErrorNotice { msg: String },
    /// An administrative notice from the vendor: logged, never forwarded.
    SystemNotice { msg: String },
    /// An instrument definition.
    InstrumentDef(InstrumentDefRecord),
    /// Any other record carrying market data.
    MarketData(MarketDataRecord),
}

} // verus!
