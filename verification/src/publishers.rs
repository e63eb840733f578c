use vstd::prelude::*;
use crate::errors::AdapterError;

verus! {

/// One entry of the publisher directory: the venue and dataset a numeric
/// publisher identifier stands for. Immutable after load.
#[derive(Debug)]
pub struct PublisherRecord {
    pub publisher_id: u16,
    pub dataset: String,
    pub venue: String,
}

impl PublisherRecord {
    /// Builds a second record carrying the same fields.
    pub fn duplicate(&self) -> (r: PublisherRecord)
        ensures
            r == *self,
    {
        PublisherRecord {
            publisher_id: self.publisher_id,
            dataset: self.dataset.clone(),
            venue: self.venue.clone(),
        }
    }
}

#[verifier::external_type_specification]
#[verifier::external_body]
#[verifier::reject_recursive_types(K)]
#[verifier::reject_recursive_types(V)]
#[verifier::reject_recursive_types(S)]
pub struct ExIndexMap<K, V, S>(indexmap::IndexMap<K, V, S>);

/// The entries an insertion-ordered publisher index holds, as a map from
/// publisher identifier to record.
pub uninterp spec fn dir_entries(
    m: indexmap::IndexMap<u16, PublisherRecord>,
) -> Map<u16, PublisherRecord>;

/// Relies on `indexmap::IndexMap::new`: the new map is empty.
#[verifier::external_body]
fn dir_map_new() -> (m: indexmap::IndexMap<u16, PublisherRecord>)
    ensures
        dir_entries(m) === Map::empty(),
{
    indexmap::IndexMap::new()
}

/// Relies on `indexmap::IndexMap::insert`: an equivalent key keeps its place
/// and has its value replaced; a new key is appended; either way the map then
/// holds exactly the old entries plus this binding.
#[verifier::external_body]
fn dir_map_insert(m: &mut indexmap::IndexMap<u16, PublisherRecord>, k: u16, v: PublisherRecord)
    ensures
        dir_entries(*final(m)) == dir_entries(*old(m)).insert(k, v),
{
    m.insert(k, v);
}

/// Relies on `indexmap::IndexMap::get`: returns the value bound to the key,
/// or nothing when the key is absent.
#[verifier::external_body]
fn dir_map_get<'a>(m: &'a indexmap::IndexMap<u16, PublisherRecord>, k: u16) -> (r: Option<
    &'a PublisherRecord,
>)
    ensures
        match r {
            Some(v) => dir_entries(*m).contains_key(k) && *v == dir_entries(*m)[k],
            None => !dir_entries(*m).contains_key(k),
        },
{
    m.get(&k)
}

/// The directory the records of a publisher directory file describe: each
/// record binds its publisher identifier, and of two records with the same
/// identifier the later one wins.
pub open spec fn spec_directory_of(records: Seq<PublisherRecord>) -> Map<u16, PublisherRecord>
    decreases records.len(),
{
    if records.len() == 0 {
        Map::empty()
    } else {
        spec_directory_of(records.drop_last()).insert(
            records.last().publisher_id,
            records.last(),
        )
    }
}

/// The immutable mapping from numeric publisher identifier to venue and
/// dataset metadata, loaded once and never mutated afterwards.
#[derive(Debug)]
pub struct PublisherDirectory {
    index: indexmap::IndexMap<u16, PublisherRecord>,
}

impl PublisherDirectory {
    /// The entries this directory holds.
    pub closed spec fn entries(&self) -> Map<u16, PublisherRecord> {
        dir_entries(self.index)
    }

    /// Builds the directory from the records of a directory file, indexing
    /// each by its publisher identifier in order of appearance.
    pub fn from_records(records: &Vec<PublisherRecord>) -> (dir: PublisherDirectory)
        ensures
            dir.entries() == spec_directory_of(records@),
    {
        let mut index = dir_map_new();
        let mut i: usize = 0;
        while i < records.len()
            invariant
                i <= records.len(),
                dir_entries(index) == spec_directory_of(records@.take(i as int)),
            decreases records.len() - i,
        {
            let rec = records[i].duplicate();
            proof {
                assert(records@.take(i as int + 1).drop_last() =~= records@.take(i as int));
                assert(records@.take(i as int + 1).last() == records@[i as int]);
            }
            dir_map_insert(&mut index, rec.publisher_id, rec);
            i = i + 1;
        }
        proof {
            assert(records@.take(records@.len() as int) =~= records@);
        }
        PublisherDirectory { index }
    }

    /// Looks a publisher identifier up: the exact record supplied at load when
    /// the identifier is present, and an error naming the identifier when it
    /// is absent.
    pub fn resolve<'a>(&'a self, publisher_id: u16) -> (r: Result<&'a PublisherRecord, AdapterError>)
        ensures
            match r {
                Ok(rec) => self.entries().contains_key(publisher_id) && *rec == self.entries()[publisher_id],
                Err(e) => !self.entries().contains_key(publisher_id) && e
                    == AdapterError::UnknownPublisher(publisher_id),
            },
    {
        match dir_map_get(&self.index, publisher_id) {
            Some(rec) => Ok(rec),
            None => Err(AdapterError::UnknownPublisher(publisher_id)),
        }
    }
}

#[verifier::external_type_specification]
#[verifier::external_body]
pub struct ExJsonValue(serde_json::Value);

/// The adapter's reading of a parsed JSON value: exactly what the accessors
/// below observe of one. A number that fits an unsigned sixty-four-bit
/// integer is `UInt`; every other number, a boolean and null are `Other`.
pub enum JsonModel {
    UInt(u64),
    Text(Seq<char>),
    Array(Seq<JsonModel>),
    Object(Map<Seq<char>, JsonModel>),
    Other,
}

/// What a parsed JSON value holds, read as a [`JsonModel`].
pub uninterp spec fn json_view(v: serde_json::Value) -> JsonModel;

/// What parsing a text as JSON yields: a model when the text is valid JSON,
/// nothing otherwise. The outcome depends on the text alone.
pub uninterp spec fn json_of(text: Seq<char>) -> Option<JsonModel>;

/// Relies on `serde_json::from_str::<serde_json::Value>`: parses the text as
/// JSON, deterministically, failing exactly on text that is not valid JSON.
#[verifier::external_body]
fn json_parse(text: &str) -> (r: Option<serde_json::Value>)
    ensures
        match r {
            Some(v) => json_of(text@) == Some(json_view(v)),
            None => json_of(text@) is None,
        },
{
    serde_json::from_str::<serde_json::Value>(text).ok()
}

/// Relies on `serde_json::Value::as_array`: the elements exactly when the
/// value is a JSON array.
pub assume_specification<'a>[ serde_json::Value::as_array ](v: &'a serde_json::Value) -> (r:
    Option<&'a Vec<serde_json::Value>>)
    ensures
        match r {
            Some(arr) => json_view(*v) == JsonModel::Array(
                arr@.map_values(|e: serde_json::Value| json_view(e)),
            ),
            None => !(json_view(*v) is Array),
        },
;

/// Relies on `serde_json::Value::as_u64`: the number exactly when the value is
/// a JSON integer that an unsigned sixty-four-bit integer can hold.
pub assume_specification[ serde_json::Value::as_u64 ](v: &serde_json::Value) -> (r: Option<u64>)
    ensures
        match r {
            Some(n) => json_view(*v) == JsonModel::UInt(n),
            None => !(json_view(*v) is UInt),
        },
;

/// Relies on `serde_json::Value::as_str`: the text exactly when the value is a
/// JSON string.
pub assume_specification<'a>[ serde_json::Value::as_str ](v: &'a serde_json::Value) -> (r: Option<
    &'a str,
>)
    ensures
        match r {
            Some(s) => json_view(*v) == JsonModel::Text(s@),
            None => !(json_view(*v) is Text),
        },
;

/// Relies on `serde_json::Value::get`: the member of that name exactly when
/// the value is a JSON object holding one.
#[verifier::external_body]
fn json_field<'a>(v: &'a serde_json::Value, name: &str) -> (r: Option<&'a serde_json::Value>)
    ensures
        match r {
            Some(f) => (json_view(*v) matches JsonModel::Object(m) && m.contains_key(name@)
                && json_view(*f) == m[name@]),
            None => !(json_view(*v) matches JsonModel::Object(m) && m.contains_key(name@)),
        },
{
    v.get(name)
}

/// The directory fields one well-formed entry of a publisher directory file
/// carries: the entry must be an object with an integer `publisher_id` no
/// wider than sixteen bits and string `dataset` and `venue` members.
pub open spec fn spec_entry_of(j: JsonModel) -> Option<(u16, Seq<char>, Seq<char>)> {
    match j {
        JsonModel::Object(m) => {
            if !m.contains_key("publisher_id"@) {
                None
            } else {
                match m["publisher_id"@] {
                    JsonModel::UInt(id) => {
                        if id > u16::MAX as u64 {
                            None
                        } else if !m.contains_key("dataset"@) {
                            None
                        } else {
                            match m["dataset"@] {
                                JsonModel::Text(dataset) => {
                                    if !m.contains_key("venue"@) {
                                        None
                                    } else {
                                        match m["venue"@] {
                                            JsonModel::Text(venue) => Some(
                                                (id as u16, dataset, venue),
                                            ),
                                            _ => None,
                                        }
                                    }
                                },
                                _ => None,
                            }
                        }
                    },
                    _ => None,
                }
            }
        },
        _ => None,
    }
}

/// The entries of a sequence of parsed values, when every one is well formed.
pub open spec fn spec_entries_of(items: Seq<JsonModel>) -> Option<
    Seq<(u16, Seq<char>, Seq<char>)>,
>
    decreases items.len(),
{
    if items.len() == 0 {
        Some(Seq::empty())
    } else {
        match spec_entry_of(items.first()) {
            None => None,
            Some(entry) => match spec_entries_of(items.drop_first()) {
                None => None,
                Some(tail) => Some(seq![entry] + tail),
            },
        }
    }
}

/// The records a publisher directory file describes: the parsed text must be a
/// JSON array of well-formed entries.
pub open spec fn spec_publishers_of(j: JsonModel) -> Option<Seq<(u16, Seq<char>, Seq<char>)>> {
    match j {
        JsonModel::Array(items) => spec_entries_of(items),
        _ => None,
    }
}

/// The directory fields a sequence of records carries.
pub open spec fn rec_views(records: Seq<PublisherRecord>) -> Seq<(u16, Seq<char>, Seq<char>)> {
    records.map_values(|r: PublisherRecord| (r.publisher_id, r.dataset@, r.venue@))
}

/// Reads one publisher directory entry out of a parsed JSON value: exactly the
/// fields a well-formed entry carries, and a configuration error on anything
/// else.
fn parse_publisher_entry(v: &serde_json::Value) -> (r: Result<PublisherRecord, AdapterError>)
    ensures
        match r {
            Ok(rec) => spec_entry_of(json_view(*v)) == Some(
                (rec.publisher_id, rec.dataset@, rec.venue@),
            ),
            Err(e) => e == AdapterError::Config && spec_entry_of(json_view(*v)) is None,
        },
{
    let id = match json_field(v, "publisher_id") {
        Some(f) => match f.as_u64() {
            Some(n) => n,
            None => { return Err(AdapterError::Config); },
        },
        None => { return Err(AdapterError::Config); },
    };
    if id > u16::MAX as u64 {
        return Err(AdapterError::Config);
    }
    let dataset = match json_field(v, "dataset") {
        Some(f) => match f.as_str() {
            Some(s) => String::from_str(s),
            None => { return Err(AdapterError::Config); },
        },
        None => { return Err(AdapterError::Config); },
    };
    let venue = match json_field(v, "venue") {
        Some(f) => match f.as_str() {
            Some(s) => String::from_str(s),
            None => { return Err(AdapterError::Config); },
        },
        None => { return Err(AdapterError::Config); },
    };
    Ok(PublisherRecord { publisher_id: id as u16, dataset, venue })
}

/// Reads the records of a publisher directory file: exactly the entries the
/// text describes, in order. Text that is not valid JSON, not an array, or
/// holds a malformed entry is a configuration error, fatal at this call.
pub fn parse_publishers(text: &str) -> (r: Result<Vec<PublisherRecord>, AdapterError>)
    ensures
        match r {
            Ok(recs) => (json_of(text@) matches Some(j) && spec_publishers_of(j) == Some(
                rec_views(recs@),
            )),
            Err(e) => e == AdapterError::Config && (match json_of(text@) {
                Some(j) => spec_publishers_of(j) is None,
                None => true,
            }),
        },
{
    let parsed = match json_parse(text) {
        Some(v) => v,
        None => { return Err(AdapterError::Config); },
    };
    let ghost jv = json_view(parsed);
    let entries = match parsed.as_array() {
        Some(a) => a,
        None => { return Err(AdapterError::Config); },
    };
    let ghost models = entries@.map_values(|e: serde_json::Value| json_view(e));
    let mut records: Vec<PublisherRecord> = Vec::new();
    let mut i: usize = 0;
    proof {
        assert(models.skip(0) =~= models);
        match spec_entries_of(models) {
            Some(t) => {
                assert(rec_views(records@) =~= Seq::<(u16, Seq<char>, Seq<char>)>::empty());
                assert(Seq::<(u16, Seq<char>, Seq<char>)>::empty() + t =~= t);
            },
            None => {},
        }
    }
    while i < entries.len()
        invariant
            i <= entries.len(),
            json_of(text@) == Some(jv),
            jv == JsonModel::Array(models),
            models == entries@.map_values(|e: serde_json::Value| json_view(e)),
            spec_entries_of(models) == (match spec_entries_of(models.skip(i as int)) {
                None => None,
                Some(tail) => Some(rec_views(records@) + tail),
            }),
        decreases entries.len() - i,
    {
        let ghost rest = models.skip(i as int);
        proof {
            assert(rest.first() == models[i as int]);
            assert(models[i as int] == json_view(entries@[i as int]));
            assert(rest.drop_first() =~= models.skip(i as int + 1));
        }
        match parse_publisher_entry(&entries[i]) {
            Ok(rec) => {
                let ghost entry = (rec.publisher_id, rec.dataset@, rec.venue@);
                proof {
                    assert(rec_views(records@.push(rec)) =~= rec_views(records@) + seq![entry]);
                    match spec_entries_of(models.skip(i as int + 1)) {
                        Some(tail) => {
                            assert(rec_views(records@) + (seq![entry] + tail) =~= (rec_views(
                                records@,
                            ) + seq![entry]) + tail);
                        },
                        None => {},
                    }
                }
                records.push(rec);
            },
            Err(e) => {
                proof {
                    assert(spec_entries_of(rest) is None);
                }
                return Err(e);
            },
        }
        i = i + 1;
    }
    proof {
        assert(models.skip(models.len() as int) =~= Seq::<JsonModel>::empty());
        assert(rec_views(records@) + Seq::<(u16, Seq<char>, Seq<char>)>::empty() =~= rec_views(
            records@,
        ));
    }
    Ok(records)
}

/// The identifier, dataset and venue that each directory entry binds.
pub open spec fn entries_view(m: Map<u16, PublisherRecord>) -> Map<u16, (Seq<char>, Seq<char>)> {
    Map::new(|id: u16| m.contains_key(id), |id: u16| (m[id].dataset@, m[id].venue@))
}

/// The directory a sequence of well-formed entries describes, the last entry
/// winning a repeated identifier.
pub open spec fn spec_model_directory(models: Seq<(u16, Seq<char>, Seq<char>)>) -> Map<
    u16,
    (Seq<char>, Seq<char>),
>
    decreases models.len(),
{
    if models.len() == 0 {
        Map::empty()
    } else {
        spec_model_directory(models.drop_last()).insert(
            models.last().0,
            (models.last().1, models.last().2),
        )
    }
}

/// Building the directory from records and reading its entries back gives
/// exactly the directory the records' fields describe.
proof fn lemma_directory_view(records: Seq<PublisherRecord>)
    ensures
        entries_view(spec_directory_of(records)) == spec_model_directory(rec_views(records)),
    decreases records.len(),
{
    if records.len() == 0 {
        assert(rec_views(records) =~= Seq::<(u16, Seq<char>, Seq<char>)>::empty());
        assert(entries_view(Map::empty()) =~= Map::<u16, (Seq<char>, Seq<char>)>::empty());
    } else {
        lemma_directory_view(records.drop_last());
        let last = records.last();
        assert(rec_views(records).drop_last() =~= rec_views(records.drop_last()));
        assert(rec_views(records).last() == (last.publisher_id, last.dataset@, last.venue@));
        assert(entries_view(spec_directory_of(records.drop_last()).insert(last.publisher_id, last))
            =~= entries_view(spec_directory_of(records.drop_last())).insert(
            last.publisher_id,
            (last.dataset@, last.venue@),
        ));
    }
}

impl PublisherDirectory {
    /// Loads the directory from the text of a publisher directory file,
    /// failing with a configuration error exactly when the text is missing its
    /// shape: not valid JSON, not an array, or holding a malformed entry. On
    /// success the directory binds each entry's publisher identifier to that
    /// entry's fields, the last entry winning a repeated identifier.
    pub fn load_from_json(text: &str) -> (r: Result<PublisherDirectory, AdapterError>)
        ensures
            match r {
                Ok(dir) => (json_of(text@) matches Some(j) && (spec_publishers_of(j) matches Some(
                    models,
                ) && entries_view(dir.entries()) == spec_model_directory(models))),
                Err(e) => e == AdapterError::Config && (match json_of(text@) {
                    Some(j) => spec_publishers_of(j) is None,
                    None => true,
                }),
            },
    {
        let records = parse_publishers(text)?;
        let dir = PublisherDirectory::from_records(&records);
        proof {
            lemma_directory_view(records@);
        }
        Ok(dir)
    }
}

/// A directory built from records with pairwise distinct publisher identifiers
/// binds every identifier supplied to exactly the record supplied with it, and
/// holds no identifier that no record supplied.
pub proof fn lemma_directory_exact(records: Seq<PublisherRecord>)
    requires
        forall|i: int, j: int|
            0 <= i < records.len() && 0 <= j < records.len() && i != j
                ==> records[i].publisher_id != records[j].publisher_id,
    ensures
        forall|i: int|
            0 <= i < records.len() ==> spec_directory_of(records).contains_key(
                #[trigger] records[i].publisher_id,
            ) && spec_directory_of(records)[records[i].publisher_id] == records[i],
        forall|id: u16|
            spec_directory_of(records).contains_key(id) ==> exists|i: int|
                0 <= i < records.len() && (#[trigger] records[i]).publisher_id == id,
    decreases records.len(),
{
    if records.len() > 0 {
        lemma_directory_exact(records.drop_last());
        assert forall|i: int| 0 <= i < records.len() implies spec_directory_of(
            records,
        ).contains_key(#[trigger] records[i].publisher_id) && spec_directory_of(
            records,
        )[records[i].publisher_id] == records[i] by {
            if i < records.len() - 1 {
                assert(records.drop_last()[i] == records[i]);
                assert(records[i].publisher_id != records.last().publisher_id);
            }
        }
        assert forall|id: u16| spec_directory_of(records).contains_key(id) implies exists|i: int|
            0 <= i < records.len() && (#[trigger] records[i]).publisher_id == id by {
            if id == records.last().publisher_id {
                assert(records[records.len() - 1].publisher_id == id);
            } else {
                assert(spec_directory_of(records.drop_last()).contains_key(id));
                let i = choose|i: int|
                    0 <= i < records.drop_last().len() && (#[trigger] records.drop_last()[i]).publisher_id
                        == id;
                assert(records.drop_last()[i] == records[i]);
                assert(records[i].publisher_id == id);
            }
        }
    }
}

} // verus!
