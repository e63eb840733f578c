use vstd::prelude::*;
use core::str::FromStr;
use std::collections::HashMap;
use crate::errors::AdapterError;
use crate::model::{CanonicalRecord, InstrumentId, VendorRecord};
use crate::normalize::{
    normalize_instrument_def, normalize_market, spec_normalize_instrument_def,
    spec_normalize_market,
};
use crate::publishers::{PublisherDirectory, PublisherRecord};

verus! {

broadcast use vstd::std_specs::hash::group_hash_axioms;

/// The point-in-time symbol resolution map of one live session: vendor numeric
/// instrument identifiers to raw symbols, as of the current position in the
/// stream. Created at stream start, grown only by symbol-mapping records, and
/// discarded when the stream ends.
pub struct SymbolMap {
    map: HashMap<u32, String>,
}

impl SymbolMap {
    /// The mappings this map holds.
    pub closed spec fn entries(&self) -> Map<u32, String> {
        self.map@
    }

    /// An empty map, for the start of a session.
    pub fn new() -> (m: SymbolMap)
        ensures
            m.entries() === Map::empty(),
    {
        SymbolMap { map: HashMap::new() }
    }

    /// Records that an instrument identifier resolves to this symbol from this
    /// point of the stream on, replacing any earlier mapping.
    pub fn on_mapping(&mut self, instrument_id: u32, symbol: String)
        ensures
            final(self).entries() == old(self).entries().insert(instrument_id, symbol),
    {
        self.map.insert(instrument_id, symbol);
    }

    /// Resolves an instrument identifier to the symbol most recently mapped to
    /// it, or nothing when no mapping record has named it yet.
    pub fn resolve<'a>(&'a self, instrument_id: u32) -> (r: Option<&'a String>)
        ensures
            match r {
                Some(s) => self.entries().contains_key(instrument_id) && *s == self.entries()[instrument_id],
                None => !self.entries().contains_key(instrument_id),
            },
    {
        self.map.get(&instrument_id)
    }
}

/// How long the streaming loop may hold the connection before it must release
/// it, in nanoseconds: the fairness interval.
pub const RELOCK_INTERVAL_NS: u64 = 10000000;

/// Whether a release is due: the fairness interval has fully elapsed since the
/// connection was last released.
pub open spec fn spec_release_due(last_released_ns: u64, now_ns: u64) -> bool {
    now_ns >= last_released_ns + RELOCK_INTERVAL_NS
}

/// The fairness clock of the streaming loop. The loop is the only long-held
/// holder of the connection; polling this gate each iteration makes it release
/// and reacquire the connection every fairness interval, bounding how long a
/// concurrent operation can be starved. This is purely a fairness mechanism,
/// not a correctness requirement of decoding.
pub struct FairnessGate {
    pub last_released_ns: u64,
}

impl FairnessGate {
    /// A gate whose last release is taken to be now.
    pub fn new(now_ns: u64) -> (g: FairnessGate)
        ensures
            g.last_released_ns == now_ns,
    {
        FairnessGate { last_released_ns: now_ns }
    }

    /// Decides whether the loop must release and reacquire the connection at
    /// this instant, and records the release when it is due.
    pub fn poll(&mut self, now_ns: u64) -> (released: bool)
        ensures
            released == spec_release_due(old(self).last_released_ns, now_ns),
            released ==> final(self).last_released_ns == now_ns,
            !released ==> *final(self) == *old(self),
    {
        let due = now_ns >= RELOCK_INTERVAL_NS && self.last_released_ns <= now_ns
            - RELOCK_INTERVAL_NS;
        if due {
            self.last_released_ns = now_ns;
            true
        } else {
            false
        }
    }
}

/// Fairness: however many decode timeouts occur, a poll at any instant one
/// full fairness interval or more past the last release releases the
/// connection, so a concurrent operation waits at most one interval past the
/// moment it could first have been served.
pub proof fn lemma_release_within_interval(last_released_ns: u64, now_ns: u64)
    requires
        now_ns >= last_released_ns + RELOCK_INTERVAL_NS,
    ensures
        spec_release_due(last_released_ns, now_ns),
{
}

/// The lifecycle of a live client: the connection is made lazily on the first
/// operation that needs it, reused afterwards, and closed exactly once;
/// `Closed` is terminal.
#[derive(Clone, Copy, PartialEq, Eq, Structural, Debug)]
pub enum Phase {
    Uninitialized,
    Connected,
    Closed,
}

/// Tracks a live client's phase and decides, for each operation, whether the
/// caller must establish the connection, may reuse it, or must be refused.
/// The blocking connect-and-authenticate step itself is the caller's outside
/// work.
pub struct LiveController {
    pub phase: Phase,
}

impl LiveController {
    /// A client that has never connected.
    pub fn new() -> (c: LiveController)
        ensures
            c.phase == Phase::Uninitialized,
    {
        LiveController { phase: Phase::Uninitialized }
    }

    /// Decides how an operation that needs the connection obtains it: `true`
    /// asks the caller to connect and authenticate now, `false` says to reuse
    /// the existing connection, and a closed client refuses every operation.
    /// The decision changes nothing: only a confirmed connect, reported
    /// through [`Self::on_connected`], enters the connected phase, so a failed
    /// connect leaves the client unconnected and a later call may retry.
    pub fn connection_action(&self) -> (r: Result<bool, AdapterError>)
        ensures
            self.phase == Phase::Uninitialized ==> r == Ok::<bool, AdapterError>(true),
            self.phase == Phase::Connected ==> r == Ok::<bool, AdapterError>(false),
            self.phase == Phase::Closed ==> r == Err::<bool, AdapterError>(
                AdapterError::ClientClosed,
            ),
    {
        match self.phase {
            Phase::Uninitialized => Ok(true),
            Phase::Connected => Ok(false),
            Phase::Closed => Err(AdapterError::ClientClosed),
        }
    }

    /// Records that the blocking connect-and-authenticate step succeeded: the
    /// one transition into the connected phase. Reporting it in any other
    /// phase changes nothing.
    pub fn on_connected(&mut self)
        ensures
            old(self).phase == Phase::Uninitialized ==> final(self).phase == Phase::Connected,
            old(self).phase != Phase::Uninitialized ==> *final(self) == *old(self),
    {
        match self.phase {
            Phase::Uninitialized => {
                self.phase = Phase::Connected;
            },
            Phase::Connected => {},
            Phase::Closed => {},
        }
    }

    /// Closes the client: an error when the connection was never made, an
    /// error when it is already closed, and otherwise the transition to the
    /// terminal phase, after which every operation fails.
    pub fn close(&mut self) -> (r: Result<(), AdapterError>)
        ensures
            old(self).phase == Phase::Uninitialized ==> r == Err::<(), AdapterError>(
                AdapterError::NotStarted,
            ) && final(self).phase == Phase::Uninitialized,
            old(self).phase == Phase::Connected ==> r == Ok::<(), AdapterError>(())
                && final(self).phase == Phase::Closed,
            old(self).phase == Phase::Closed ==> r == Err::<(), AdapterError>(
                AdapterError::ClientClosed,
            ) && final(self).phase == Phase::Closed,
    {
        match self.phase {
            Phase::Uninitialized => Err(AdapterError::NotStarted),
            Phase::Connected => {
                self.phase = Phase::Closed;
                Ok(())
            },
            Phase::Closed => Err(AdapterError::ClientClosed),
        }
    }
}

/// The vendor's schema names, as its own parser accepts them.
pub open spec fn is_vendor_schema_name(s: Seq<char>) -> bool {
    ||| s == "mbo"@
    ||| s == "mbp-1"@
    ||| s == "mbp-10"@
    ||| s == "tbbo"@
    ||| s == "trades"@
    ||| s == "ohlcv-1s"@
    ||| s == "ohlcv-1m"@
    ||| s == "ohlcv-1h"@
    ||| s == "ohlcv-1d"@
    ||| s == "definition"@
    ||| s == "statistics"@
    ||| s == "status"@
    ||| s == "imbalance"@
    ||| s == "ohlcv-eod"@
    ||| s == "cmbp-1"@
    ||| s == "cbbo-1s"@
    ||| s == "cbbo-1m"@
    ||| s == "tcbbo"@
    ||| s == "bbo-1s"@
    ||| s == "bbo-1m"@
}

/// The vendor's symbol-type names, as its own parser accepts them, aliases
/// included.
pub open spec fn is_vendor_stype_name(s: Seq<char>) -> bool {
    ||| s == "instrument_id"@
    ||| s == "product_id"@
    ||| s == "raw_symbol"@
    ||| s == "native"@
    ||| s == "smart"@
    ||| s == "continuous"@
    ||| s == "parent"@
    ||| s == "nasdaq_symbol"@
    ||| s == "nasdaq"@
    ||| s == "cms_symbol"@
    ||| s == "cms"@
    ||| s == "isin"@
    ||| s == "us_code"@
    ||| s == "bbg_comp_id"@
    ||| s == "bbg_comp_ticker"@
    ||| s == "figi"@
    ||| s == "figi_ticker"@
    ||| s == "listing_id"@
    ||| s == "issuer_id"@
    ||| s == "security_id"@
}

/// Relies on `dbn::Schema::from_str`: it succeeds on exactly the vendor's
/// schema names and fails on every other string.
#[verifier::external_body]
fn vendor_accepts_schema(s: &str) -> (r: bool)
    ensures
        r == is_vendor_schema_name(s@),
{
    dbn::Schema::from_str(s).is_ok()
}

/// Relies on `dbn::SType::from_str`: it succeeds on exactly the vendor's
/// symbol-type names and fails on every other string.
#[verifier::external_body]
fn vendor_accepts_stype(s: &str) -> (r: bool)
    ensures
        r == is_vendor_stype_name(s@),
{
    dbn::SType::from_str(s).is_ok()
}

/// One subscription request, immutable once issued to the connection: the
/// schema to stream, the symbols to watch, the convention the symbol strings
/// follow, and an optional replay start time in nanoseconds since epoch.
#[derive(Debug)]
pub struct Subscription {
    pub schema: String,
    pub symbols: String,
    pub stype_in: String,
    pub start: Option<u64>,
}

/// Validates and builds a subscription. The schema must be a vendor schema
/// name and the symbol-type convention, when given, a vendor symbol-type
/// name; when it is not given it defaults to the raw-symbol convention.
pub fn build_subscription(
    schema: String,
    symbols: String,
    stype_in: Option<String>,
    start: Option<u64>,
) -> (r: Result<Subscription, AdapterError>)
    ensures
        match r {
            Ok(sub) => {
                &&& is_vendor_schema_name(schema@)
                &&& sub.schema == schema
                &&& sub.symbols == symbols
                &&& sub.start == start
                &&& match stype_in {
                    Some(st) => is_vendor_stype_name(st@) && sub.stype_in == st,
                    None => sub.stype_in@ == "raw_symbol"@,
                }
            },
            Err(e) => {
                ||| (e == AdapterError::BadSchema && !is_vendor_schema_name(schema@))
                ||| (e == AdapterError::BadSymbolType && (stype_in matches Some(st)
                    && !is_vendor_stype_name(st@)))
            },
        },
{
    if !vendor_accepts_schema(schema.as_str()) {
        return Err(AdapterError::BadSchema);
    }
    let stype = match stype_in {
        Some(st) => {
            if !vendor_accepts_stype(st.as_str()) {
                return Err(AdapterError::BadSymbolType);
            }
            st
        },
        None => <String as vstd::string::StringExecFns>::from_str("raw_symbol"),
    };
    Ok(Subscription { schema, symbols, stype_in: stype, start })
}

/// How an instrument identity is resolved, by both the historical and the live
/// path: the symbol from the session's symbol map, the venue from the record's
/// publisher. A missing mapping is reported before an unknown publisher.
pub open spec fn spec_resolve(
    dir: Map<u16, PublisherRecord>,
    syms: Map<u32, String>,
    instrument_id: u32,
    publisher_id: u16,
) -> Result<InstrumentId, AdapterError> {
    if !syms.contains_key(instrument_id) {
        Err(AdapterError::UnresolvedSymbol(instrument_id))
    } else if !dir.contains_key(publisher_id) {
        Err(AdapterError::UnknownPublisher(publisher_id))
    } else {
        Ok(InstrumentId { symbol: syms[instrument_id], venue: dir[publisher_id].venue })
    }
}

/// Resolves a record's vendor instrument identifier and publisher identifier
/// to an instrument identity.
pub fn resolve_instrument(
    dir: &PublisherDirectory,
    syms: &SymbolMap,
    instrument_id: u32,
    publisher_id: u16,
) -> (r: Result<InstrumentId, AdapterError>)
    ensures
        r == spec_resolve(dir.entries(), syms.entries(), instrument_id, publisher_id),
{
    let symbol = match syms.resolve(instrument_id) {
        Some(s) => s.clone(),
        None => { return Err(AdapterError::UnresolvedSymbol(instrument_id)); },
    };
    let venue = match dir.resolve(publisher_id) {
        Ok(rec) => rec.venue.clone(),
        Err(e) => { return Err(e); },
    };
    Ok(InstrumentId { symbol, venue })
}

/// The canonical records one vendor record makes the live dispatcher deliver,
/// in order, or the error that ends the session. Symbol mappings and vendor
/// notices deliver nothing; a malformed instrument definition is skipped; a
/// market-data record delivers its primary canonical record first and its
/// derived one, when there is one, second.
pub open spec fn spec_emits(
    dir: Map<u16, PublisherRecord>,
    syms: Map<u32, String>,
    rec: VendorRecord,
    precision: u8,
    ts_init: u64,
) -> Result<Seq<CanonicalRecord>, AdapterError> {
    match rec {
        VendorRecord::SymbolMapping { .. } => Ok(Seq::empty()),
        VendorRecord::ErrorNotice { .. } => Ok(Seq::empty()),
        VendorRecord::SystemNotice { .. } => Ok(Seq::empty()),
        VendorRecord::InstrumentDef(def) => {
            if !dir.contains_key(def.publisher_id) {
                Err(AdapterError::UnknownPublisher(def.publisher_id))
            } else {
                match spec_normalize_instrument_def(def, dir[def.publisher_id].venue, ts_init) {
                    Some(inst) => Ok(seq![inst]),
                    None => Ok(Seq::empty()),
                }
            }
        },
        VendorRecord::MarketData(md) => {
            match spec_resolve(dir, syms, md.instrument_id, md.publisher_id) {
                Err(e) => Err(e),
                Ok(id) => match spec_normalize_market(md.body, id, precision, md.ts_event, ts_init) {
                    Err(e) => Err(e),
                    Ok((primary, None)) => Ok(seq![primary]),
                    Ok((primary, Some(secondary))) => Ok(seq![primary].push(secondary)),
                },
            }
        },
    }
}

/// How one vendor record advances the symbol map: a symbol-mapping record adds
/// its binding, every other record leaves the map as it is.
pub open spec fn spec_step_syms(syms: Map<u32, String>, rec: VendorRecord) -> Map<u32, String> {
    match rec {
        VendorRecord::SymbolMapping { instrument_id, symbol, .. } => syms.insert(
            instrument_id,
            symbol,
        ),
        _ => syms,
    }
}

/// The symbol map after a sequence of vendor records has been dispatched.
pub open spec fn spec_fold_syms(syms: Map<u32, String>, recs: Seq<VendorRecord>) -> Map<
    u32,
    String,
>
    decreases recs.len(),
{
    if recs.len() == 0 {
        syms
    } else {
        spec_step_syms(spec_fold_syms(syms, recs.drop_last()), recs.last())
    }
}

/// The canonical records a whole sequence of vendor records makes the
/// dispatcher deliver: the per-record emissions concatenated in arrival order,
/// each under the symbol map as advanced by the records before it; or the
/// error of the first record that fails.
pub open spec fn spec_dispatch(
    dir: Map<u16, PublisherRecord>,
    syms: Map<u32, String>,
    recs: Seq<VendorRecord>,
    precision: u8,
    ts_init: u64,
) -> Result<Seq<CanonicalRecord>, AdapterError>
    decreases recs.len(),
{
    if recs.len() == 0 {
        Ok(Seq::empty())
    } else {
        match spec_emits(dir, syms, recs.first(), precision, ts_init) {
            Err(e) => Err(e),
            Ok(head) => match spec_dispatch(
                dir,
                spec_step_syms(syms, recs.first()),
                recs.drop_first(),
                precision,
                ts_init,
            ) {
                Err(e) => Err(e),
                Ok(tail) => Ok(head + tail),
            },
        }
    }
}

/// Prepends already-delivered records to the rest of a dispatch outcome.
pub open spec fn prepend_out(
    a: Seq<CanonicalRecord>,
    r: Result<Seq<CanonicalRecord>, AdapterError>,
) -> Result<Seq<CanonicalRecord>, AdapterError> {
    match r {
        Ok(t) => Ok(a + t),
        Err(e) => Err(e),
    }
}

pub(crate) proof fn lemma_prepend_empty(r: Result<Seq<CanonicalRecord>, AdapterError>)
    ensures
        prepend_out(Seq::empty(), r) == r,
{
    match r {
        Ok(t) => {
            assert(Seq::<CanonicalRecord>::empty() + t =~= t);
        },
        Err(_) => {},
    }
}

pub(crate) proof fn lemma_prepend_assoc(
    a: Seq<CanonicalRecord>,
    b: Seq<CanonicalRecord>,
    r: Result<Seq<CanonicalRecord>, AdapterError>,
)
    ensures
        prepend_out(a, prepend_out(b, r)) == prepend_out(a + b, r),
{
    match r {
        Ok(t) => {
            assert(a + (b + t) =~= (a + b) + t);
        },
        Err(_) => {},
    }
}

/// The mutable state of one live session: its symbol resolution map. Created
/// at stream start and discarded when the stream ends or reconnects.
pub struct LiveSession {
    syms: SymbolMap,
}

impl LiveSession {
    /// The session's current symbol mappings.
    pub closed spec fn symbols(&self) -> Map<u32, String> {
        self.syms.entries()
    }

    /// A fresh session with no symbol mapped yet.
    pub fn new() -> (s: LiveSession)
        ensures
            s.symbols() === Map::empty(),
    {
        LiveSession { syms: SymbolMap::new() }
    }

    /// Dispatches one decoded vendor record: updates the symbol map on a
    /// mapping record, and returns the canonical records to hand to the
    /// callback, in order, or the error that ends the session.
    pub fn on_record(
        &mut self,
        dir: &PublisherDirectory,
        rec: &VendorRecord,
        precision: u8,
        ts_init: u64,
    ) -> (r: Result<Vec<CanonicalRecord>, AdapterError>)
        ensures
            final(self).symbols() == spec_step_syms(old(self).symbols(), *rec),
            match r {
                Ok(out) => spec_emits(dir.entries(), old(self).symbols(), *rec, precision, ts_init)
                    == Ok::<Seq<CanonicalRecord>, AdapterError>(out@),
                Err(e) => spec_emits(dir.entries(), old(self).symbols(), *rec, precision, ts_init)
                    == Err::<Seq<CanonicalRecord>, AdapterError>(e),
            },
    {
        match rec {
            VendorRecord::SymbolMapping { instrument_id, symbol, .. } => {
                self.syms.on_mapping(*instrument_id, symbol.clone());
                Ok(Vec::new())
            },
            VendorRecord::ErrorNotice { .. } => Ok(Vec::new()),
            VendorRecord::SystemNotice { .. } => Ok(Vec::new()),
            VendorRecord::InstrumentDef(def) => {
                let publisher = match dir.resolve(def.publisher_id) {
                    Ok(p) => p,
                    Err(e) => { return Err(e); },
                };
                match normalize_instrument_def(def, &publisher.venue, ts_init) {
                    Some(inst) => {
                        let mut out: Vec<CanonicalRecord> = Vec::new();
                        out.push(inst);
                        Ok(out)
                    },
                    None => Ok(Vec::new()),
                }
            },
            VendorRecord::MarketData(md) => {
                let id = match resolve_instrument(dir, &self.syms, md.instrument_id, md.publisher_id) {
                    Ok(id) => id,
                    Err(e) => { return Err(e); },
                };
                match normalize_market(&md.body, id, precision, md.ts_event, ts_init) {
                    Ok((primary, Some(secondary))) => {
                        let mut out: Vec<CanonicalRecord> = Vec::new();
                        out.push(primary);
                        out.push(secondary);
                        Ok(out)
                    },
                    Ok((primary, None)) => {
                        let mut out: Vec<CanonicalRecord> = Vec::new();
                        out.push(primary);
                        Ok(out)
                    },
                    Err(e) => Err(e),
                }
            },
        }
    }

    /// Dispatches a sequence of decoded vendor records in arrival order,
    /// stopping at the first fatal one.
    pub fn dispatch_all(
        &mut self,
        dir: &PublisherDirectory,
        recs: &Vec<VendorRecord>,
        precision: u8,
        ts_init: u64,
    ) -> (r: Result<Vec<CanonicalRecord>, AdapterError>)
        ensures
            match r {
                Ok(out) => spec_dispatch(
                    dir.entries(),
                    old(self).symbols(),
                    recs@,
                    precision,
                    ts_init,
                ) == Ok::<Seq<CanonicalRecord>, AdapterError>(out@) && final(self).symbols()
                    == spec_fold_syms(old(self).symbols(), recs@),
                Err(e) => spec_dispatch(
                    dir.entries(),
                    old(self).symbols(),
                    recs@,
                    precision,
                    ts_init,
                ) == Err::<Seq<CanonicalRecord>, AdapterError>(e),
            },
    {
        let ghost syms0 = self.symbols();
        let ghost whole = spec_dispatch(dir.entries(), syms0, recs@, precision, ts_init);
        let mut out: Vec<CanonicalRecord> = Vec::new();
        let mut i: usize = 0;
        proof {
            assert(recs@.skip(0) =~= recs@);
            lemma_prepend_empty(whole);
        }
        while i < recs.len()
            invariant
                i <= recs.len(),
                syms0 == old(self).symbols(),
                whole == spec_dispatch(dir.entries(), syms0, recs@, precision, ts_init),
                whole == prepend_out(
                    out@,
                    spec_dispatch(
                        dir.entries(),
                        self.symbols(),
                        recs@.skip(i as int),
                        precision,
                        ts_init,
                    ),
                ),
                self.symbols() == spec_fold_syms(syms0, recs@.take(i as int)),
            decreases recs.len() - i,
        {
            let ghost syms_i = self.symbols();
            let ghost rest = recs@.skip(i as int);
            proof {
                assert(rest.first() == recs@[i as int]);
                assert(rest.drop_first() =~= recs@.skip(i as int + 1));
                assert(recs@.take(i as int + 1).drop_last() =~= recs@.take(i as int));
                assert(recs@.take(i as int + 1).last() == recs@[i as int]);
            }
            let step = self.on_record(dir, &recs[i], precision, ts_init);
            match step {
                Ok(mut emitted) => {
                    let ghost head = emitted@;
                    proof {
                        let d_next = spec_dispatch(
                            dir.entries(),
                            self.symbols(),
                            recs@.skip(i as int + 1),
                            precision,
                            ts_init,
                        );
                        assert(spec_dispatch(dir.entries(), syms_i, rest, precision, ts_init)
                            == prepend_out(head, d_next));
                        lemma_prepend_assoc(out@, head, d_next);
                    }
                    out.append(&mut emitted);
                },
                Err(e) => {
                    proof {
                        assert(spec_dispatch(dir.entries(), syms_i, rest, precision, ts_init)
                            == Err::<Seq<CanonicalRecord>, AdapterError>(e));
                    }
                    return Err(e);
                },
            }
            i = i + 1;
        }
        proof {
            assert(recs@.skip(recs@.len() as int) =~= Seq::<VendorRecord>::empty());
            assert(recs@.take(recs@.len() as int) =~= recs@);
            assert(out@ + Seq::<CanonicalRecord>::empty() =~= out@);
        }
        Ok(out)
    }
}

/// Ordering: dispatching one sequence of records after another delivers the
/// first sequence's canonical records, in their order, before the second
/// sequence's, in theirs — the callback observes canonical records in the
/// same relative order the vendor produced the underlying records.
pub proof fn lemma_dispatch_order(
    dir: Map<u16, PublisherRecord>,
    syms: Map<u32, String>,
    first_recs: Seq<VendorRecord>,
    second_recs: Seq<VendorRecord>,
    precision: u8,
    ts_init: u64,
)
    ensures
        spec_dispatch(dir, syms, first_recs + second_recs, precision, ts_init) == (
        match spec_dispatch(dir, syms, first_recs, precision, ts_init) {
            Err(e) => Err::<Seq<CanonicalRecord>, AdapterError>(e),
            Ok(out1) => match spec_dispatch(
                dir,
                spec_fold_syms(syms, first_recs),
                second_recs,
                precision,
                ts_init,
            ) {
                Err(e) => Err(e),
                Ok(out2) => Ok(out1 + out2),
            },
        }),
    decreases first_recs.len(),
{
    if first_recs.len() == 0 {
        assert(first_recs + second_recs =~= second_recs);
        lemma_prepend_empty(spec_dispatch(dir, syms, second_recs, precision, ts_init));
        match spec_dispatch(dir, syms, second_recs, precision, ts_init) {
            Ok(out2) => {
                assert(Seq::<CanonicalRecord>::empty() + out2 =~= out2);
            },
            Err(_) => {},
        }
    } else {
        let both = first_recs + second_recs;
        assert(both.first() == first_recs.first());
        assert(both.drop_first() =~= first_recs.drop_first() + second_recs);
        lemma_dispatch_order(
            dir,
            spec_step_syms(syms, first_recs.first()),
            first_recs.drop_first(),
            second_recs,
            precision,
            ts_init,
        );
        lemma_fold_syms_step(syms, first_recs);
        match spec_emits(dir, syms, first_recs.first(), precision, ts_init) {
            Err(_) => {},
            Ok(head) => {
                let syms1 = spec_step_syms(syms, first_recs.first());
                match spec_dispatch(dir, syms1, first_recs.drop_first(), precision, ts_init) {
                    Err(_) => {},
                    Ok(tail1) => {
                        match spec_dispatch(
                            dir,
                            spec_fold_syms(syms, first_recs),
                            second_recs,
                            precision,
                            ts_init,
                        ) {
                            Err(_) => {},
                            Ok(out2) => {
                                assert(head + (tail1 + out2) =~= (head + tail1) + out2);
                            },
                        }
                    },
                }
            },
        }
    }
}

/// Advancing the symbol map over a non-empty sequence is advancing it over the
/// first record and then over the rest.
pub proof fn lemma_fold_syms_step(syms: Map<u32, String>, recs: Seq<VendorRecord>)
    requires
        recs.len() > 0,
    ensures
        spec_fold_syms(syms, recs) == spec_fold_syms(
            spec_step_syms(syms, recs.first()),
            recs.drop_first(),
        ),
    decreases recs.len(),
{
    reveal_with_fuel(spec_fold_syms, 3);
    if recs.len() == 1 {
        assert(recs.drop_last() =~= Seq::<VendorRecord>::empty());
        assert(recs.drop_first() =~= Seq::<VendorRecord>::empty());
        assert(recs.last() == recs.first());
        assert(spec_fold_syms(syms, Seq::<VendorRecord>::empty()) == syms);
        assert(spec_fold_syms(spec_step_syms(syms, recs.first()), Seq::<VendorRecord>::empty())
            == spec_step_syms(syms, recs.first()));
    } else {
        lemma_fold_syms_step(syms, recs.drop_last());
        assert(recs.drop_last().first() == recs.first());
        assert(recs.drop_first().drop_last() =~= recs.drop_last().drop_first());
        assert(recs.drop_first().last() == recs.last());
        assert(recs.drop_first().len() > 0);
        assert(spec_fold_syms(spec_step_syms(syms, recs.first()), recs.drop_first())
            == spec_step_syms(
            spec_fold_syms(spec_step_syms(syms, recs.first()), recs.drop_first().drop_last()),
            recs.drop_first().last(),
        ));
    }
}

/// A record that yields two canonical records delivers the primary first: the
/// quote stands before the trade derived from it.
pub proof fn lemma_primary_before_secondary(
    dir: Map<u16, PublisherRecord>,
    syms: Map<u32, String>,
    rec: VendorRecord,
    precision: u8,
    ts_init: u64,
)
    requires
        spec_emits(dir, syms, rec, precision, ts_init) matches Ok(out) && out.len() == 2,
    ensures
        spec_emits(dir, syms, rec, precision, ts_init) matches Ok(out) && (out[0] matches
            CanonicalRecord::Quote { .. }) && (out[1] matches CanonicalRecord::Trade { .. }),
{
}

} // verus!
