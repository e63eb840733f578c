use vstd::prelude::*;
use crate::errors::AdapterError;
use crate::live::{prepend_out, resolve_instrument, spec_resolve, SymbolMap};
use crate::model::{CanonicalRecord, InstrumentDefRecord, MarketDataRecord};
use crate::normalize::{
    normalize_instrument_def, normalize_market, spec_normalize_instrument_def,
    spec_normalize_market,
};
use crate::publishers::{PublisherDirectory, PublisherRecord};
use crate::schema::{bar_schema_for_aggregation, spec_bar_schema, BarAggregation, Schema};

verus! {

/// The time span of a historical query, in nanoseconds since epoch. A missing
/// end means "now", decided by the party issuing the request.
#[derive(Clone, Copy, PartialEq, Eq, Structural, Debug)]
pub struct TimeRange {
    pub start: u64,
    pub end: Option<u64>,
}

impl TimeRange {
    /// A well-formed range does not end before it starts.
    pub open spec fn wf(&self) -> bool {
        match self.end {
            Some(e) => self.start <= e,
            None => true,
        }
    }
}

/// Builds the time range of a query, rejecting an end that precedes the start.
pub fn make_time_range(start: u64, end: Option<u64>) -> (r: Result<TimeRange, AdapterError>)
    ensures
        match r {
            Ok(tr) => tr.start == start && tr.end == end && tr.wf(),
            Err(e) => e == AdapterError::BadTimeRange && (end matches Some(e2) && e2 < start),
        },
{
    match end {
        Some(e) => {
            if e < start {
                Err(AdapterError::BadTimeRange)
            } else {
                Ok(TimeRange { start, end })
            }
        },
        None => Ok(TimeRange { start, end: None }),
    }
}

/// The result-count limit a request carries: a limit of zero means no limit,
/// as the vendor's request form only takes a positive count.
pub open spec fn spec_normalized_limit(limit: Option<u64>) -> Option<u64> {
    match limit {
        Some(n) => if n == 0 {
            None
        } else {
            Some(n)
        },
        None => None,
    }
}

/// One bounded historical query, ready to issue: the dataset and symbols to
/// query, the vendor schema to stream, the time range, and an optional
/// result-count limit, normalized so that it is never a zero count.
#[derive(Debug)]
pub struct RangeRequest {
    pub dataset: String,
    pub symbols: String,
    pub schema: Schema,
    pub range: TimeRange,
    pub limit: Option<u64>,
}

/// Validates and builds a historical range request.
pub fn build_range_request(
    dataset: String,
    symbols: String,
    schema: Schema,
    start: u64,
    end: Option<u64>,
    limit: Option<u64>,
) -> (r: Result<RangeRequest, AdapterError>)
    ensures
        match r {
            Ok(req) => {
                &&& req.dataset == dataset
                &&& req.symbols == symbols
                &&& req.schema == schema
                &&& req.range.start == start
                &&& req.range.end == end
                &&& req.range.wf()
                &&& req.limit == spec_normalized_limit(limit)
            },
            Err(e) => e == AdapterError::BadTimeRange && (end matches Some(e2) && e2 < start),
        },
{
    let range = make_time_range(start, end)?;
    let limit = match limit {
        Some(n) => if n == 0 {
            None
        } else {
            Some(n)
        },
        None => None,
    };
    Ok(RangeRequest { dataset, symbols, schema, range, limit })
}

/// Validates and builds a historical bar request: the aggregation picks the
/// vendor schema, and an unsupported aggregation is rejected before anything
/// else is looked at, so no request is issued for one.
pub fn build_bar_range_request(
    dataset: String,
    symbols: String,
    aggregation: BarAggregation,
    start: u64,
    end: Option<u64>,
    limit: Option<u64>,
) -> (r: Result<RangeRequest, AdapterError>)
    ensures
        match r {
            Ok(req) => {
                &&& spec_bar_schema(aggregation) == Some(req.schema)
                &&& req.dataset == dataset
                &&& req.symbols == symbols
                &&& req.range.start == start
                &&& req.range.end == end
                &&& req.range.wf()
                &&& req.limit == spec_normalized_limit(limit)
            },
            Err(e) => {
                ||| (e == AdapterError::UnsupportedAggregation && spec_bar_schema(aggregation)
                    is None)
                ||| (e == AdapterError::BadTimeRange && spec_bar_schema(aggregation) is Some && (
                end matches Some(e2) && e2 < start))
            },
        },
{
    let schema = bar_schema_for_aggregation(aggregation)?;
    build_range_request(dataset, symbols, schema, start, end, limit)
}

/// Whether a canonical record is of the kind a requested schema yields.
pub open spec fn spec_matches_schema(rec: CanonicalRecord, schema: Schema) -> bool {
    match schema {
        Schema::Definition => rec matches CanonicalRecord::Instrument { .. },
        Schema::Mbp1 => rec matches CanonicalRecord::Quote { .. },
        Schema::Trades => rec matches CanonicalRecord::Trade { .. },
        Schema::Ohlcv1S => rec matches CanonicalRecord::Bar { .. },
        Schema::Ohlcv1M => rec matches CanonicalRecord::Bar { .. },
        Schema::Ohlcv1H => rec matches CanonicalRecord::Bar { .. },
        Schema::Ohlcv1D => rec matches CanonicalRecord::Bar { .. },
    }
}

/// Whether an executable canonical record is of the kind a schema yields.
pub fn matches_schema(rec: &CanonicalRecord, schema: Schema) -> (r: bool)
    ensures
        r == spec_matches_schema(*rec, schema),
{
    match schema {
        Schema::Definition => matches!(rec, CanonicalRecord::Instrument { .. }),
        Schema::Mbp1 => matches!(rec, CanonicalRecord::Quote { .. }),
        Schema::Trades => matches!(rec, CanonicalRecord::Trade { .. }),
        Schema::Ohlcv1S => matches!(rec, CanonicalRecord::Bar { .. }),
        Schema::Ohlcv1M => matches!(rec, CanonicalRecord::Bar { .. }),
        Schema::Ohlcv1H => matches!(rec, CanonicalRecord::Bar { .. }),
        Schema::Ohlcv1D => matches!(rec, CanonicalRecord::Bar { .. }),
    }
}

/// What a historical batch yields from the decoded market-data records of one
/// response stream, in stream order: each record's primary canonical record,
/// after resolution against the symbol mapping of the response and the
/// publisher directory. A record whose canonical kind is not the requested
/// schema's aborts the batch: that mismatch signals a broken decode pipeline,
/// not bad data.
pub open spec fn spec_batch(
    dir: Map<u16, PublisherRecord>,
    syms: Map<u32, String>,
    recs: Seq<MarketDataRecord>,
    requested: Schema,
    precision: u8,
    ts_init: u64,
) -> Result<Seq<CanonicalRecord>, AdapterError>
    decreases recs.len(),
{
    if recs.len() == 0 {
        Ok(Seq::empty())
    } else {
        let rec = recs.first();
        match spec_resolve(dir, syms, rec.instrument_id, rec.publisher_id) {
            Err(e) => Err(e),
            Ok(id) => match spec_normalize_market(rec.body, id, precision, rec.ts_event, ts_init) {
                Err(e) => Err(e),
                Ok((primary, _)) => {
                    if !spec_matches_schema(primary, requested) {
                        Err(AdapterError::SchemaMismatch)
                    } else {
                        match spec_batch(dir, syms, recs.drop_first(), requested, precision, ts_init) {
                            Err(e) => Err(e),
                            Ok(tail) => Ok(seq![primary] + tail),
                        }
                    }
                },
            },
        }
    }
}

/// Processes the decoded market-data records of one historical response into
/// the ordered collection the call returns. An empty collection is a valid,
/// non-error result.
pub fn process_batch(
    dir: &PublisherDirectory,
    syms: &SymbolMap,
    recs: &Vec<MarketDataRecord>,
    requested: Schema,
    precision: u8,
    ts_init: u64,
) -> (r: Result<Vec<CanonicalRecord>, AdapterError>)
    ensures
        match r {
            Ok(out) => spec_batch(dir.entries(), syms.entries(), recs@, requested, precision, ts_init)
                == Ok::<Seq<CanonicalRecord>, AdapterError>(out@),
            Err(e) => spec_batch(dir.entries(), syms.entries(), recs@, requested, precision, ts_init)
                == Err::<Seq<CanonicalRecord>, AdapterError>(e),
        },
{
    let ghost whole = spec_batch(dir.entries(), syms.entries(), recs@, requested, precision, ts_init);
    let mut out: Vec<CanonicalRecord> = Vec::new();
    let mut i: usize = 0;
    proof {
        assert(recs@.skip(0) =~= recs@);
        crate::live::lemma_prepend_empty(whole);
    }
    while i < recs.len()
        invariant
            i <= recs.len(),
            whole == spec_batch(dir.entries(), syms.entries(), recs@, requested, precision, ts_init),
            whole == prepend_out(
                out@,
                spec_batch(
                    dir.entries(),
                    syms.entries(),
                    recs@.skip(i as int),
                    requested,
                    precision,
                    ts_init,
                ),
            ),
        decreases recs.len() - i,
    {
        let ghost rest = recs@.skip(i as int);
        proof {
            assert(rest.first() == recs@[i as int]);
            assert(rest.drop_first() =~= recs@.skip(i as int + 1));
        }
        let rec = &recs[i];
        let id = match resolve_instrument(dir, syms, rec.instrument_id, rec.publisher_id) {
            Ok(id) => id,
            Err(e) => {
                proof {
                    assert(spec_batch(dir.entries(), syms.entries(), rest, requested, precision, ts_init)
                        == Err::<Seq<CanonicalRecord>, AdapterError>(e));
                }
                return Err(e);
            },
        };
        let (primary, _secondary) = match normalize_market(&rec.body, id, precision, rec.ts_event, ts_init) {
            Ok(pair) => pair,
            Err(e) => {
                proof {
                    assert(spec_batch(dir.entries(), syms.entries(), rest, requested, precision, ts_init)
                        == Err::<Seq<CanonicalRecord>, AdapterError>(e));
                }
                return Err(e);
            },
        };
        if !matches_schema(&primary, requested) {
            proof {
                assert(spec_batch(dir.entries(), syms.entries(), rest, requested, precision, ts_init)
                    == Err::<Seq<CanonicalRecord>, AdapterError>(AdapterError::SchemaMismatch));
            }
            return Err(AdapterError::SchemaMismatch);
        }
        proof {
            let d_next = spec_batch(
                dir.entries(),
                syms.entries(),
                recs@.skip(i as int + 1),
                requested,
                precision,
                ts_init,
            );
            assert(spec_batch(dir.entries(), syms.entries(), rest, requested, precision, ts_init)
                == prepend_out(seq![primary], d_next));
            crate::live::lemma_prepend_assoc(out@, seq![primary], d_next);
            assert(out@.push(primary) =~= out@ + seq![primary]);
        }
        out.push(primary);
        i = i + 1;
    }
    proof {
        assert(recs@.skip(recs@.len() as int) =~= Seq::<MarketDataRecord>::empty());
        assert(out@ + Seq::<CanonicalRecord>::empty() =~= out@);
    }
    Ok(out)
}

/// Every canonical record a successful batch returns is of the requested
/// schema's kind: a trades query yields trades only, a bar query bars only.
pub proof fn lemma_batch_all_match(
    dir: Map<u16, PublisherRecord>,
    syms: Map<u32, String>,
    recs: Seq<MarketDataRecord>,
    requested: Schema,
    precision: u8,
    ts_init: u64,
)
    requires
        spec_batch(dir, syms, recs, requested, precision, ts_init) is Ok,
    ensures
        spec_batch(dir, syms, recs, requested, precision, ts_init) matches Ok(out) && forall|j: int|
            0 <= j < out.len() ==> spec_matches_schema(#[trigger] out[j], requested),
    decreases recs.len(),
{
    if recs.len() > 0 {
        lemma_batch_all_match(dir, syms, recs.drop_first(), requested, precision, ts_init);
    }
}

/// What fetching instrument definitions yields from the decoded records of one
/// response stream, in stream order: the normalized definition of each record
/// whose publisher the directory knows, a malformed definition being skipped
/// while the batch continues.
pub open spec fn spec_collect_defs(
    dir: Map<u16, PublisherRecord>,
    defs: Seq<InstrumentDefRecord>,
    ts_init: u64,
) -> Result<Seq<CanonicalRecord>, AdapterError>
    decreases defs.len(),
{
    if defs.len() == 0 {
        Ok(Seq::empty())
    } else {
        let def = defs.first();
        if !dir.contains_key(def.publisher_id) {
            Err(AdapterError::UnknownPublisher(def.publisher_id))
        } else {
            let head = match spec_normalize_instrument_def(
                def,
                dir[def.publisher_id].venue,
                ts_init,
            ) {
                Some(inst) => seq![inst],
                None => Seq::empty(),
            };
            match spec_collect_defs(dir, defs.drop_first(), ts_init) {
                Err(e) => Err(e),
                Ok(tail) => Ok(head + tail),
            }
        }
    }
}

/// Processes the decoded records of one instrument-definition response into
/// the ordered collection the call returns.
pub fn collect_instruments(
    dir: &PublisherDirectory,
    defs: &Vec<InstrumentDefRecord>,
    ts_init: u64,
) -> (r: Result<Vec<CanonicalRecord>, AdapterError>)
    ensures
        match r {
            Ok(out) => spec_collect_defs(dir.entries(), defs@, ts_init) == Ok::<
                Seq<CanonicalRecord>,
                AdapterError,
            >(out@),
            Err(e) => spec_collect_defs(dir.entries(), defs@, ts_init) == Err::<
                Seq<CanonicalRecord>,
                AdapterError,
            >(e),
        },
{
    let ghost whole = spec_collect_defs(dir.entries(), defs@, ts_init);
    let mut out: Vec<CanonicalRecord> = Vec::new();
    let mut i: usize = 0;
    proof {
        assert(defs@.skip(0) =~= defs@);
        crate::live::lemma_prepend_empty(whole);
    }
    while i < defs.len()
        invariant
            i <= defs.len(),
            whole == spec_collect_defs(dir.entries(), defs@, ts_init),
            whole == prepend_out(
                out@,
                spec_collect_defs(dir.entries(), defs@.skip(i as int), ts_init),
            ),
        decreases defs.len() - i,
    {
        let ghost rest = defs@.skip(i as int);
        proof {
            assert(rest.first() == defs@[i as int]);
            assert(rest.drop_first() =~= defs@.skip(i as int + 1));
        }
        let def = &defs[i];
        let publisher = match dir.resolve(def.publisher_id) {
            Ok(p) => p,
            Err(e) => {
                proof {
                    assert(spec_collect_defs(dir.entries(), rest, ts_init) == Err::<
                        Seq<CanonicalRecord>,
                        AdapterError,
                    >(e));
                }
                return Err(e);
            },
        };
        let ghost head = match spec_normalize_instrument_def(
            defs@[i as int],
            dir.entries()[def.publisher_id].venue,
            ts_init,
        ) {
            Some(inst) => seq![inst],
            None => Seq::<CanonicalRecord>::empty(),
        };
        proof {
            let d_next = spec_collect_defs(dir.entries(), defs@.skip(i as int + 1), ts_init);
            assert(spec_collect_defs(dir.entries(), rest, ts_init) == prepend_out(head, d_next));
            crate::live::lemma_prepend_assoc(out@, head, d_next);
        }
        match normalize_instrument_def(def, &publisher.venue, ts_init) {
            Some(inst) => {
                proof {
                    assert(out@.push(inst) =~= out@ + head);
                }
                out.push(inst);
            },
            None => {
                proof {
                    assert(out@ + head =~= out@);
                }
            },
        }
        i = i + 1;
    }
    proof {
        assert(defs@.skip(defs@.len() as int) =~= Seq::<InstrumentDefRecord>::empty());
        assert(out@ + Seq::<CanonicalRecord>::empty() =~= out@);
    }
    Ok(out)
}

} // verus!
