use vstd::prelude::*;

verus! {

/// Every failure the adapter reports to a caller.
#[derive(Clone, Copy, PartialEq, Eq, Structural, Debug)]
pub enum AdapterError {
    /// The publisher directory text is not valid JSON, is not an array of
    /// objects, or an entry lacks a field or holds one of the wrong type.
    Config,
    /// A record named a publisher identifier that the directory does not hold.
    UnknownPublisher(u16),
    /// A bar request asked for a granularity with no matching vendor schema.
    UnsupportedAggregation,
    /// A subscription named a schema the vendor does not define.
    BadSchema,
    /// A subscription named a symbol-type convention the vendor does not define.
    BadSymbolType,
    /// A time range whose end precedes its start.
    BadTimeRange,
    /// A historical batch produced a canonical record of a different kind than
    /// the requested schema asks for: a pipeline-integrity fault that aborts
    /// the batch.
    SchemaMismatch,
    /// A market-data record named a vendor instrument identifier with no
    /// symbol mapping in the current session.
    UnresolvedSymbol(u32),
    /// A market-data record of a kind this adapter does not normalize.
    UnsupportedRecord,
    /// `close` was called although the connection was never made.
    NotStarted,
    /// An operation was called after the client was closed.
    ClientClosed,
}

} // verus!
