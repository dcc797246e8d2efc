//! The object-store model: records under unique keys, queries, cursors
//! and index metadata.
//!
//! Store operations submit work to the engine and hand back a request
//! handle at once; the engine's answer is the request's settlement
//! payload, consumed through the completion bridge. Records are kept in
//! submission order and cursors walk that order (reversed for the `Prev`
//! directions); as every key is unique, the `Unique` directions coincide
//! with the plain ones.

use vstd::pervasive::VecAdditionalExecFns;
use vstd::prelude::*;
use vstd::string::StringExecFns;

use crate::error::{DomErrorName, Error};
use crate::request::{Outcome, StoreRequest};
use crate::value::{NativeValue, ScalarValue};

verus! {

/// A key or an inclusive key range, the shape of a store query.
#[derive(Clone, Copy, Debug, PartialEq, Eq, Structural)]
pub enum Query {
    Key(u64),
    Range(u64, u64),
}

/// Whether a key falls under a query.
pub open spec fn query_matches(q: Query, key: u64) -> bool {
    match q {
        Query::Key(k) => key == k,
        Query::Range(lo, hi) => lo <= key && key <= hi,
    }
}

/// Computes whether a key falls under a query.
pub fn key_matches(q: &Query, key: u64) -> (b: bool)
    ensures
        b == query_matches(*q, key),
{
    match q {
        Query::Key(k) => key == *k,
        Query::Range(lo, hi) => *lo <= key && key <= *hi,
    }
}

/// The walk order of a cursor.
#[derive(Clone, Copy, Debug, PartialEq, Eq, Structural)]
pub enum CursorDirection {
    Next,
    NextUnique,
    Prev,
    PrevUnique,
}

/// Whether a cursor direction walks the records backwards.
pub open spec fn is_reverse_direction(direction: Option<CursorDirection>) -> bool {
    match direction {
        Some(CursorDirection::Prev) => true,
        Some(CursorDirection::PrevUnique) => true,
        _ => false,
    }
}

/// The key path of a store or of an index: one path or a compound of them.
#[derive(Debug, PartialEq, Eq)]
pub enum KeyPath {
    Single(String),
    Compound(Vec<String>),
}

/// Whether two key paths denote the same path(s).
pub open spec fn same_key_path(a: KeyPath, b: KeyPath) -> bool {
    match (a, b) {
        (KeyPath::Single(x), KeyPath::Single(y)) => x == y,
        (KeyPath::Compound(u), KeyPath::Compound(v)) => u@ == v@,
        _ => false,
    }
}

impl Clone for KeyPath {
    fn clone(&self) -> (r: Self)
        ensures
            same_key_path(r, *self),
    {
        match self {
            KeyPath::Single(s) => KeyPath::Single(s.clone()),
            KeyPath::Compound(v) => {
                let w = v.clone();
                proof {
                    assert(w@ =~= v@);
                }
                KeyPath::Compound(w)
            },
        }
    }
}

/// Options for a new index.
#[derive(Clone, Copy, Debug, PartialEq, Eq, Structural)]
pub struct IndexParams {
    pub unique: bool,
    pub multi_entry: bool,
}

impl Default for IndexParams {
    fn default() -> (r: Self)
        ensures
            r == (IndexParams { unique: false, multi_entry: false }),
    {
        IndexParams { unique: false, multi_entry: false }
    }
}

/// The metadata of an index on a store.
#[derive(Debug, PartialEq, Eq)]
pub struct Index {
    pub name: String,
    pub key_path: KeyPath,
    pub unique: bool,
    pub multi_entry: bool,
}

/// Whether two index descriptions agree.
pub open spec fn index_matches(a: Index, b: Index) -> bool {
    &&& a.name@ == b.name@
    &&& same_key_path(a.key_path, b.key_path)
    &&& a.unique == b.unique
    &&& a.multi_entry == b.multi_entry
}

impl Clone for Index {
    fn clone(&self) -> (r: Self)
        ensures
            index_matches(r, *self),
    {
        Index {
            name: self.name.clone(),
            key_path: self.key_path.clone(),
            unique: self.unique,
            multi_entry: self.multi_entry,
        }
    }
}

/// One record: a value stored under a key.
#[derive(Debug, PartialEq, Eq)]
pub struct StoredRecord {
    pub key: u64,
    pub value: ScalarValue,
}

impl Clone for StoredRecord {
    fn clone(&self) -> (r: Self)
        ensures
            r == *self,
    {
        StoredRecord { key: self.key, value: self.value.clone() }
    }
}

/// No two records share a key.
pub open spec fn unique_keys(s: Seq<StoredRecord>) -> bool {
    forall|i: int, j: int| 0 <= i < j < s.len() ==> s[i].key != s[j].key
}

/// No two indexes share a name.
pub open spec fn unique_index_names(s: Seq<Index>) -> bool {
    forall|i: int, j: int| 0 <= i < j < s.len() ==> s[i].name@ != s[j].name@
}

/// Whether some record holds the key.
pub open spec fn has_key(s: Seq<StoredRecord>, key: u64) -> bool {
    exists|i: int| 0 <= i < s.len() && s[i].key == key
}

/// Whether some index bears the name.
pub open spec fn has_index(s: Seq<Index>, name: Seq<char>) -> bool {
    exists|i: int| 0 <= i < s.len() && s[i].name@ == name
}

/// The records satisfying a predicate, in order.
pub open spec fn filtered(
    s: Seq<StoredRecord>,
    pred: spec_fn(StoredRecord) -> bool,
) -> Seq<StoredRecord>
    decreases s.len(),
{
    if s.len() == 0 {
        Seq::empty()
    } else {
        let rest = filtered(s.drop_last(), pred);
        if pred(s.last()) {
            rest.push(s.last())
        } else {
            rest
        }
    }
}

/// The record predicate of an optional query: no query matches everything.
pub open spec fn query_pred(query: Option<Query>) -> spec_fn(StoredRecord) -> bool {
    |r: StoredRecord| match query {
        None => true,
        Some(q) => query_matches(q, r.key),
    }
}

/// The first `limit` records, or all of them without a limit.
pub open spec fn limited(s: Seq<StoredRecord>, limit: Option<u32>) -> Seq<StoredRecord> {
    match limit {
        None => s,
        Some(n) => if (n as int) < s.len() {
            s.take(n as int)
        } else {
            s
        },
    }
}

/// The values of the records, in order.
pub open spec fn values_of(s: Seq<StoredRecord>) -> Seq<ScalarValue> {
    s.map_values(|r: StoredRecord| r.value)
}

/// The keys of the records, in order, as native integers.
pub open spec fn keys_of(s: Seq<StoredRecord>) -> Seq<ScalarValue> {
    s.map_values(|r: StoredRecord| ScalarValue::Int(r.key))
}

/// A value sequence in cursor order.
pub open spec fn oriented(s: Seq<ScalarValue>, direction: Option<CursorDirection>) -> Seq<
    ScalarValue,
> {
    if is_reverse_direction(direction) {
        s.reverse()
    } else {
        s
    }
}

/// The first record matching a query, in record order.
pub open spec fn first_match(s: Seq<StoredRecord>, q: Query) -> Option<StoredRecord>
    decreases s.len(),
{
    if s.len() == 0 {
        None
    } else if query_matches(q, s[0].key) {
        Some(s[0])
    } else {
        first_match(s.drop_first(), q)
    }
}

/// How an update leaves the record sequence: a fresh key is appended, an
/// existing key keeps its position and takes the new value.
pub open spec fn put_result(
    s: Seq<StoredRecord>,
    t: Seq<StoredRecord>,
    key: u64,
    value: ScalarValue,
) -> bool {
    if !has_key(s, key) {
        t == s.push(StoredRecord { key, value })
    } else {
        &&& t.len() == s.len()
        &&& forall|i: int| 0 <= i < s.len() && s[i].key != key ==> t[i] == s[i]
        &&& forall|i: int|
            0 <= i < s.len() && s[i].key == key ==> t[i] == (StoredRecord { key, value })
    }
}

/// How the key generator moves past an explicitly supplied key.
pub open spec fn bumped(generator: u64, key: u64) -> u64 {
    if generator == u64::MAX {
        u64::MAX
    } else if key < generator {
        generator
    } else if key == u64::MAX {
        u64::MAX
    } else {
        (key + 1) as u64
    }
}

/// An object store: named, optionally keyed by a path, optionally backed
/// by a key generator, holding records under unique keys and a set of
/// uniquely named indexes.
#[derive(Debug, PartialEq, Eq)]
pub struct ObjectStore {
    name: String,
    key_path: Option<KeyPath>,
    auto_increment: bool,
    next_key: u64,
    records: Vec<StoredRecord>,
    indexes: Vec<Index>,
}

impl ObjectStore {
    /// The store's name.
    pub closed spec fn spec_name(&self) -> String {
        self.name
    }

    /// The store's key path.
    pub closed spec fn spec_key_path(&self) -> Option<KeyPath> {
        self.key_path
    }

    /// Whether the store has a key generator.
    pub closed spec fn spec_auto_increment(&self) -> bool {
        self.auto_increment
    }

    /// The next key the generator would hand out; `u64::MAX` marks an
    /// exhausted generator.
    pub closed spec fn generator(&self) -> u64 {
        self.next_key
    }

    /// The records, in submission order.
    pub closed spec fn records(&self) -> Seq<StoredRecord> {
        self.records@
    }

    /// The index descriptions, in creation order.
    pub closed spec fn indexes(&self) -> Seq<Index> {
        self.indexes@
    }

    /// Well-formedness: keys unique, index names unique, and every key
    /// below the generator unless the generator is exhausted.
    pub open spec fn wf(&self) -> bool {
        &&& unique_keys(self.records())
        &&& unique_index_names(self.indexes())
        &&& (self.generator() == u64::MAX || forall|i: int|
            0 <= i < self.records().len() ==> (#[trigger] self.records()[i]).key
                < self.generator())
    }

    /// An empty store.
    pub fn new(name: String, key_path: Option<KeyPath>, auto_increment: bool) -> (r: Self)
        ensures
            r.spec_name() == name,
            r.spec_key_path() == key_path,
            r.spec_auto_increment() == auto_increment,
            r.generator() == 1u64,
            r.records() == Seq::<StoredRecord>::empty(),
            r.indexes() == Seq::<Index>::empty(),
            r.wf(),
    {
        let r = ObjectStore {
            name,
            key_path,
            auto_increment,
            next_key: 1,
            records: Vec::new(),
            indexes: Vec::new(),
        };
        proof {
            assert(r.records() =~= Seq::<StoredRecord>::empty());
            assert(r.indexes() =~= Seq::<Index>::empty());
        }
        r
    }

    /// The name of the store.
    pub fn name(&self) -> (r: String)
        ensures
            r == self.spec_name(),
    {
        self.name.clone()
    }

    /// Renames the store.
    pub fn set_name(&mut self, name: &str)
        ensures
            final(self).spec_name()@ == name@,
            final(self).spec_key_path() == old(self).spec_key_path(),
            final(self).spec_auto_increment() == old(self).spec_auto_increment(),
            final(self).generator() == old(self).generator(),
            final(self).records() == old(self).records(),
            final(self).indexes() == old(self).indexes(),
            old(self).wf() ==> final(self).wf(),
    {
        self.name = String::from_str(name);
    }

    /// The key path of the store.
    pub fn key_path(&self) -> (r: Result<Option<KeyPath>, Error>)
        ensures
            r matches Ok(kp) && (match (kp, self.spec_key_path()) {
                (None, None) => true,
                (Some(a), Some(b)) => same_key_path(a, b),
                _ => false,
            }),
    {
        match &self.key_path {
            None => Ok(None),
            Some(kp) => Ok(Some(kp.clone())),
        }
    }

    /// Whether the store has a key generator.
    pub fn auto_increment(&self) -> (r: bool)
        ensures
            r == self.spec_auto_increment(),
    {
        self.auto_increment
    }

    /// The names of the store's indexes, in creation order.
    pub fn index_names(&self) -> (r: Vec<String>)
        ensures
            r@.len() == self.indexes().len(),
            forall|i: int| 0 <= i < r@.len() ==> r@[i] == (#[trigger] self.indexes()[i]).name,
    {
        let mut names: Vec<String> = Vec::new();
        let mut i: usize = 0;
        while i < self.indexes.len()
            invariant
                i <= self.indexes.len(),
                names@.len() == i,
                forall|j: int| 0 <= j < i ==> names@[j] == (#[trigger] self.indexes@[j]).name,
            decreases self.indexes.len() - i,
        {
            names.push(self.indexes[i].name.clone());
            i += 1;
        }
        names
    }

    /// The position of a key among the records, if it is stored.
    fn position_of_key(&self, key: u64) -> (p: Option<usize>)
        ensures
            p matches Some(i) ==> i < self.records().len() && self.records()[i as int].key == key,
            p is None ==> !has_key(self.records(), key),
    {
        let mut i: usize = 0;
        while i < self.records.len()
            invariant
                i <= self.records.len(),
                forall|j: int| 0 <= j < i ==> (#[trigger] self.records@[j]).key != key,
            decreases self.records.len() - i,
        {
            if self.records[i].key == key {
                return Some(i);
            }
            i += 1;
        }
        None
    }

    /// Adds or updates a record: an explicit key replaces the record that
    /// holds it (or appends a fresh one) and advances the generator past
    /// the key; without an explicit key the generator supplies one, and
    /// submission is rejected synchronously when the store has no
    /// generator. An exhausted generator fails the request itself.
    pub fn put(&mut self, value: ScalarValue, key: Option<u64>) -> (r: Result<StoreRequest, Error>)
        requires
            old(self).wf(),
        ensures
            final(self).wf(),
            final(self).spec_name() == old(self).spec_name(),
            final(self).spec_key_path() == old(self).spec_key_path(),
            final(self).spec_auto_increment() == old(self).spec_auto_increment(),
            final(self).indexes() == old(self).indexes(),
            key matches Some(k) ==> {
                &&& put_result(old(self).records(), final(self).records(), k, value)
                &&& final(self).generator() == bumped(old(self).generator(), k)
                &&& r == Ok::<StoreRequest, Error>(StoreRequest {
                    outcome: Outcome::Success(NativeValue::Scalar(ScalarValue::Int(k))),
                })
            },
            key is None && !old(self).spec_auto_increment() ==> {
                &&& *final(self) == *old(self)
                &&& r == Err::<StoreRequest, Error>(Error::UpdateFailed(DomErrorName::DataError))
            },
            key is None && old(self).spec_auto_increment() && old(self).generator() == u64::MAX
                ==> {
                &&& *final(self) == *old(self)
                &&& r == Ok::<StoreRequest, Error>(StoreRequest {
                    outcome: Outcome::Failure(Some(DomErrorName::ConstraintError)),
                })
            },
            key is None && old(self).spec_auto_increment() && old(self).generator() != u64::MAX
                ==> {
                &&& final(self).records() == old(self).records().push(StoredRecord {
                    key: old(self).generator(),
                    value,
                })
                &&& final(self).generator() == old(self).generator() + 1
                &&& r == Ok::<StoreRequest, Error>(StoreRequest {
                    outcome: Outcome::Success(NativeValue::Scalar(ScalarValue::Int(
                        old(self).generator(),
                    ))),
                })
            },
    {
        match key {
            Some(k) => {
                match self.position_of_key(k) {
                    Some(i) => self.records.set(i, StoredRecord { key: k, value }),
                    None => self.records.push(StoredRecord { key: k, value }),
                }
                if self.next_key != u64::MAX && k >= self.next_key {
                    self.next_key = if k == u64::MAX {
                        u64::MAX
                    } else {
                        k + 1
                    };
                }
                Ok(StoreRequest {
                    outcome: Outcome::Success(NativeValue::Scalar(ScalarValue::Int(k))),
                })
            },
            None => {
                if !self.auto_increment {
                    Err(Error::UpdateFailed(DomErrorName::DataError))
                } else if self.next_key == u64::MAX {
                    Ok(StoreRequest { outcome: Outcome::Failure(Some(DomErrorName::ConstraintError)) })
                } else {
                    let g: u64 = self.next_key;
                    self.records.push(StoredRecord { key: g, value });
                    self.next_key = g + 1;
                    Ok(StoreRequest {
                        outcome: Outcome::Success(NativeValue::Scalar(ScalarValue::Int(g))),
                    })
                }
            },
        }
    }

    /// Adds a record under a key not yet stored: a duplicate key does not
    /// touch the store and fails the request with the engine's constraint
    /// violation. Key supply and generator behaviour are as for `put`.
    pub fn add(&mut self, value: ScalarValue, key: Option<u64>) -> (r: Result<StoreRequest, Error>)
        requires
            old(self).wf(),
        ensures
            final(self).wf(),
            final(self).spec_name() == old(self).spec_name(),
            final(self).spec_key_path() == old(self).spec_key_path(),
            final(self).spec_auto_increment() == old(self).spec_auto_increment(),
            final(self).indexes() == old(self).indexes(),
            key matches Some(k) ==> {
                &&& has_key(old(self).records(), k) ==> {
                    &&& *final(self) == *old(self)
                    &&& r == Ok::<StoreRequest, Error>(StoreRequest {
                        outcome: Outcome::Failure(Some(DomErrorName::ConstraintError)),
                    })
                }
                &&& !has_key(old(self).records(), k) ==> {
                    &&& final(self).records() == old(self).records().push(StoredRecord {
                        key: k,
                        value,
                    })
                    &&& final(self).generator() == bumped(old(self).generator(), k)
                    &&& r == Ok::<StoreRequest, Error>(StoreRequest {
                        outcome: Outcome::Success(NativeValue::Scalar(ScalarValue::Int(k))),
                    })
                }
            },
            key is None && !old(self).spec_auto_increment() ==> {
                &&& *final(self) == *old(self)
                &&& r == Err::<StoreRequest, Error>(Error::AddFailed(DomErrorName::DataError))
            },
            key is None && old(self).spec_auto_increment() && old(self).generator() == u64::MAX
                ==> {
                &&& *final(self) == *old(self)
                &&& r == Ok::<StoreRequest, Error>(StoreRequest {
                    outcome: Outcome::Failure(Some(DomErrorName::ConstraintError)),
                })
            },
            key is None && old(self).spec_auto_increment() && old(self).generator() != u64::MAX
                ==> {
                &&& final(self).records() == old(self).records().push(StoredRecord {
                    key: old(self).generator(),
                    value,
                })
                &&& final(self).generator() == old(self).generator() + 1
                &&& r == Ok::<StoreRequest, Error>(StoreRequest {
                    outcome: Outcome::Success(NativeValue::Scalar(ScalarValue::Int(
                        old(self).generator(),
                    ))),
                })
            },
    {
        match key {
            Some(k) => {
                match self.position_of_key(k) {
                    Some(_) => Ok(StoreRequest {
                        outcome: Outcome::Failure(Some(DomErrorName::ConstraintError)),
                    }),
                    None => {
                        self.records.push(StoredRecord { key: k, value });
                        if self.next_key != u64::MAX && k >= self.next_key {
                            self.next_key = if k == u64::MAX {
                                u64::MAX
                            } else {
                                k + 1
                            };
                        }
                        Ok(StoreRequest {
                            outcome: Outcome::Success(NativeValue::Scalar(ScalarValue::Int(k))),
                        })
                    },
                }
            },
            None => {
                if !self.auto_increment {
                    Err(Error::AddFailed(DomErrorName::DataError))
                } else if self.next_key == u64::MAX {
                    Ok(StoreRequest { outcome: Outcome::Failure(Some(DomErrorName::ConstraintError)) })
                } else {
                    let g: u64 = self.next_key;
                    self.records.push(StoredRecord { key: g, value });
                    self.next_key = g + 1;
                    Ok(StoreRequest {
                        outcome: Outcome::Success(NativeValue::Scalar(ScalarValue::Int(g))),
                    })
                }
            },
        }
    }

    /// Retrieves the value of the first record matching the query; a query
    /// nothing matches succeeds with no value.
    pub fn get(&self, query: Query) -> (r: Result<StoreRequest, Error>)
        ensures
            r == Ok::<StoreRequest, Error>(StoreRequest {
                outcome: Outcome::Success(NativeValue::Scalar(
                    match first_match(self.records(), query) {
                        Some(rec) => rec.value,
                        None => ScalarValue::Undefined,
                    },
                )),
            }),
    {
        proof {
            assert(self.records@.skip(0) =~= self.records@);
        }
        let mut i: usize = 0;
        while i < self.records.len()
            invariant
                i <= self.records.len(),
                first_match(self.records@, query) == first_match(self.records@.skip(i as int), query),
            decreases self.records.len() - i,
        {
            proof {
                lemma_first_match_skip_step(self.records@, query, i as int);
            }
            if key_matches(&query, self.records[i].key) {
                return Ok(StoreRequest {
                    outcome: Outcome::Success(NativeValue::Scalar(self.records[i].value.clone())),
                });
            }
            i += 1;
        }
        proof {
            assert(self.records@.skip(i as int) =~= Seq::<StoredRecord>::empty());
        }
        Ok(StoreRequest {
            outcome: Outcome::Success(NativeValue::Scalar(ScalarValue::Undefined)),
        })
    }

    /// Retrieves the key of the first record matching the query; a query
    /// nothing matches succeeds with no value.
    pub fn get_key(&self, query: Query) -> (r: Result<StoreRequest, Error>)
        ensures
            r == Ok::<StoreRequest, Error>(StoreRequest {
                outcome: Outcome::Success(NativeValue::Scalar(
                    match first_match(self.records(), query) {
                        Some(rec) => ScalarValue::Int(rec.key),
                        None => ScalarValue::Undefined,
                    },
                )),
            }),
    {
        proof {
            assert(self.records@.skip(0) =~= self.records@);
        }
        let mut i: usize = 0;
        while i < self.records.len()
            invariant
                i <= self.records.len(),
                first_match(self.records@, query) == first_match(self.records@.skip(i as int), query),
            decreases self.records.len() - i,
        {
            proof {
                lemma_first_match_skip_step(self.records@, query, i as int);
            }
            if key_matches(&query, self.records[i].key) {
                return Ok(StoreRequest {
                    outcome: Outcome::Success(NativeValue::Scalar(ScalarValue::Int(
                        self.records[i].key,
                    ))),
                });
            }
            i += 1;
        }
        proof {
            assert(self.records@.skip(i as int) =~= Seq::<StoredRecord>::empty());
        }
        Ok(StoreRequest {
            outcome: Outcome::Success(NativeValue::Scalar(ScalarValue::Undefined)),
        })
    }

    /// The records matching an optional query, in record order.
    fn collect_matches(&self, query: Option<&Query>) -> (out: Vec<StoredRecord>)
        ensures
            out@ == filtered(
                self.records(),
                query_pred(match query {
                    None => None,
                    Some(q) => Some(*q),
                }),
            ),
    {
        let ghost spec_query: Option<Query> = match query {
            None => None,
            Some(q) => Some(*q),
        };
        let mut out: Vec<StoredRecord> = Vec::new();
        let mut i: usize = 0;
        proof {
            assert(self.records@.take(0) =~= Seq::<StoredRecord>::empty());
        }
        while i < self.records.len()
            invariant
                i <= self.records.len(),
                out@ == filtered(self.records@.take(i as int), query_pred(spec_query)),
                spec_query == (match query {
                    None => None::<Query>,
                    Some(q) => Some(*q),
                }),
            decreases self.records.len() - i,
        {
            proof {
                lemma_filtered_take_step(self.records@, query_pred(spec_query), i as int);
            }
            let keep = match query {
                None => true,
                Some(q) => key_matches(q, self.records[i].key),
            };
            if keep {
                out.push(self.records[i].clone());
            }
            i += 1;
        }
        proof {
            assert(self.records@.take(i as int) =~= self.records@);
        }
        out
    }

    /// Retrieves the values of the records matching the query (all records
    /// without one), up to `limit` of them if given, in record order.
    pub fn get_all(&self, query: Option<Query>, limit: Option<u32>) -> (r: Result<
        StoreRequest,
        Error,
    >)
        ensures
            r matches Ok(req) && req.outcome matches Outcome::Success(v) && v matches
                NativeValue::Array(items) && items@ == values_of(
                limited(filtered(self.records(), query_pred(query)), limit),
            ),
    {
        let matches_vec = self.collect_matches(query.as_ref());
        let mut values: Vec<ScalarValue> = Vec::new();
        let mut i: usize = 0;
        while i < matches_vec.len()
            invariant
                i <= matches_vec.len(),
                values@ =~= values_of(matches_vec@.take(i as int)),
            decreases matches_vec.len() - i,
        {
            values.push(matches_vec[i].value.clone());
            proof {
                assert(matches_vec@.take(i + 1) =~= matches_vec@.take(i as int).push(
                    matches_vec@[i as int],
                ));
                assert(values_of(matches_vec@.take(i + 1)) =~= values_of(
                    matches_vec@.take(i as int),
                ).push(matches_vec@[i as int].value));
            }
            i += 1;
        }
        proof {
            assert(matches_vec@.take(i as int) =~= matches_vec@);
        }
        if let Some(n) = limit {
            if (n as usize) < values.len() {
                values.truncate(n as usize);
                proof {
                    let m = filtered(self.records(), query_pred(query));
                    assert(values@ =~= values_of(limited(m, limit)));
                }
            }
        }
        proof {
            let m = filtered(self.records(), query_pred(query));
            assert(values@ =~= values_of(limited(m, limit)));
        }
        Ok(StoreRequest { outcome: Outcome::Success(NativeValue::Array(values)) })
    }

    /// Retrieves the keys of the records matching the query (all records
    /// without one), up to `limit` of them if given, in record order.
    pub fn get_all_keys(&self, query: Option<Query>, limit: Option<u32>) -> (r: Result<
        StoreRequest,
        Error,
    >)
        ensures
            r matches Ok(req) && req.outcome matches Outcome::Success(v) && v matches
                NativeValue::Array(items) && items@ == keys_of(
                limited(filtered(self.records(), query_pred(query)), limit),
            ),
    {
        let matches_vec = self.collect_matches(query.as_ref());
        let mut keys: Vec<ScalarValue> = Vec::new();
        let mut i: usize = 0;
        while i < matches_vec.len()
            invariant
                i <= matches_vec.len(),
                keys@ =~= keys_of(matches_vec@.take(i as int)),
            decreases matches_vec.len() - i,
        {
            keys.push(ScalarValue::Int(matches_vec[i].key));
            proof {
                assert(matches_vec@.take(i + 1) =~= matches_vec@.take(i as int).push(
                    matches_vec@[i as int],
                ));
                assert(keys_of(matches_vec@.take(i + 1)) =~= keys_of(
                    matches_vec@.take(i as int),
                ).push(ScalarValue::Int(matches_vec@[i as int].key)));
            }
            i += 1;
        }
        proof {
            assert(matches_vec@.take(i as int) =~= matches_vec@);
        }
        if let Some(n) = limit {
            if (n as usize) < keys.len() {
                keys.truncate(n as usize);
                proof {
                    let m = filtered(self.records(), query_pred(query));
                    assert(keys@ =~= keys_of(limited(m, limit)));
                }
            }
        }
        proof {
            let m = filtered(self.records(), query_pred(query));
            assert(keys@ =~= keys_of(limited(m, limit)));
        }
        Ok(StoreRequest { outcome: Outcome::Success(NativeValue::Array(keys)) })
    }

    /// Counts the records matching the query (all records without one).
    pub fn count(&self, query: Option<Query>) -> (r: Result<StoreRequest, Error>)
        ensures
            r matches Ok(req) && req.outcome matches Outcome::Success(v) && v matches
                NativeValue::Scalar(s) && s matches ScalarValue::Int(n) && n == filtered(
                self.records(),
                query_pred(query),
            ).len(),
    {
        let matches_vec = self.collect_matches(query.as_ref());
        let n: u64 = matches_vec.len() as u64;
        Ok(StoreRequest { outcome: Outcome::Success(NativeValue::Scalar(ScalarValue::Int(n))) })
    }

    /// Deletes the records matching the query; the request settles with no
    /// value.
    pub fn delete(&mut self, query: Query) -> (r: Result<StoreRequest, Error>)
        requires
            old(self).wf(),
        ensures
            final(self).wf(),
            final(self).spec_name() == old(self).spec_name(),
            final(self).spec_key_path() == old(self).spec_key_path(),
            final(self).spec_auto_increment() == old(self).spec_auto_increment(),
            final(self).generator() == old(self).generator(),
            final(self).indexes() == old(self).indexes(),
            final(self).records() == filtered(
                old(self).records(),
                |rec: StoredRecord| !query_matches(query, rec.key),
            ),
            r == Ok::<StoreRequest, Error>(StoreRequest {
                outcome: Outcome::Success(NativeValue::Scalar(ScalarValue::Undefined)),
            }),
    {
        let ghost keep = |rec: StoredRecord| !query_matches(query, rec.key);
        let mut kept: Vec<StoredRecord> = Vec::new();
        let mut i: usize = 0;
        proof {
            assert(self.records@.take(0) =~= Seq::<StoredRecord>::empty());
        }
        while i < self.records.len()
            invariant
                i <= self.records.len(),
                *self == *old(self),
                kept@ == filtered(self.records@.take(i as int), keep),
                keep == (|rec: StoredRecord| !query_matches(query, rec.key)),
            decreases self.records.len() - i,
        {
            proof {
                lemma_filtered_take_step(self.records@, keep, i as int);
            }
            if !key_matches(&query, self.records[i].key) {
                kept.push(self.records[i].clone());
            }
            i += 1;
        }
        proof {
            assert(self.records@.take(i as int) =~= self.records@);
            lemma_filtered_unique_keys(self.records@, keep);
            if self.next_key != u64::MAX {
                lemma_filtered_key_bound(self.records@, keep, self.next_key);
            }
        }
        self.records = kept;
        Ok(StoreRequest {
            outcome: Outcome::Success(NativeValue::Scalar(ScalarValue::Undefined)),
        })
    }

    /// Deletes every record; the request settles with no value.
    pub fn clear(&mut self) -> (r: Result<StoreRequest, Error>)
        requires
            old(self).wf(),
        ensures
            final(self).wf(),
            final(self).spec_name() == old(self).spec_name(),
            final(self).spec_key_path() == old(self).spec_key_path(),
            final(self).spec_auto_increment() == old(self).spec_auto_increment(),
            final(self).generator() == old(self).generator(),
            final(self).indexes() == old(self).indexes(),
            final(self).records() == Seq::<StoredRecord>::empty(),
            r == Ok::<StoreRequest, Error>(StoreRequest {
                outcome: Outcome::Success(NativeValue::Scalar(ScalarValue::Undefined)),
            }),
    {
        self.records = Vec::new();
        proof {
            assert(self.records() =~= Seq::<StoredRecord>::empty());
        }
        Ok(StoreRequest {
            outcome: Outcome::Success(NativeValue::Scalar(ScalarValue::Undefined)),
        })
    }

    /// Opens a cursor over the records matching the query (all records
    /// without one) and yields their values in the direction's order.
    pub fn open_cursor(&self, query: Option<Query>, direction: Option<CursorDirection>) -> (r:
        Result<StoreRequest, Error>)
        ensures
            r matches Ok(req) && req.outcome matches Outcome::Success(v) && v matches
                NativeValue::Array(items) && items@ == oriented(
                values_of(filtered(self.records(), query_pred(query))),
                direction,
            ),
    {
        let forward = match self.get_all(query, None) {
            Ok(req) => req,
            Err(e) => return Err(e),
        };
        let values = match forward.outcome {
            Outcome::Success(NativeValue::Array(items)) => items,
            _ => return Err(Error::EventTargetNotFound),
        };
        let out = orient_values(values, direction);
        Ok(StoreRequest { outcome: Outcome::Success(NativeValue::Array(out)) })
    }

    /// Opens a key cursor over the records matching the query (all records
    /// without one) and yields their keys in the direction's order.
    pub fn open_key_cursor(&self, query: Option<Query>, direction: Option<CursorDirection>) -> (r:
        Result<StoreRequest, Error>)
        ensures
            r matches Ok(req) && req.outcome matches Outcome::Success(v) && v matches
                NativeValue::Array(items) && items@ == oriented(
                keys_of(filtered(self.records(), query_pred(query))),
                direction,
            ),
    {
        let forward = match self.get_all_keys(query, None) {
            Ok(req) => req,
            Err(e) => return Err(e),
        };
        let keys = match forward.outcome {
            Outcome::Success(NativeValue::Array(items)) => items,
            _ => return Err(Error::EventTargetNotFound),
        };
        let out = orient_values(keys, direction);
        Ok(StoreRequest { outcome: Outcome::Success(NativeValue::Array(out)) })
    }

    /// The description of the index bearing the name, if one exists.
    pub fn index(&self, name: &str) -> (r: Result<Index, Error>)
        ensures
            r is Ok <==> has_index(self.indexes(), name@),
            r matches Ok(ix) ==> exists|i: int|
                0 <= i < self.indexes().len() && (#[trigger] self.indexes()[i]).name@ == name@
                    && index_matches(ix, self.indexes()[i]),
            r is Err ==> r == Err::<Index, Error>(Error::IndexNotFound),
    {
        let sought = String::from_str(name);
        let mut i: usize = 0;
        while i < self.indexes.len()
            invariant
                i <= self.indexes.len(),
                forall|j: int| 0 <= j < i ==> (#[trigger] self.indexes@[j]).name@ != name@,
                sought@ == name@,
            decreases self.indexes.len() - i,
        {
            if self.indexes[i].name == sought {
                return Ok(self.indexes[i].clone());
            }
            i += 1;
        }
        Err(Error::IndexNotFound)
    }

    /// Creates an index with the given name, key path and options, and
    /// returns its description; a name already in use is rejected as a
    /// constraint violation.
    pub fn create_index(&mut self, name: &str, key_path: KeyPath, params: Option<IndexParams>) -> (r:
        Result<Index, Error>)
        requires
            old(self).wf(),
        ensures
            final(self).wf(),
            final(self).spec_name() == old(self).spec_name(),
            final(self).spec_key_path() == old(self).spec_key_path(),
            final(self).spec_auto_increment() == old(self).spec_auto_increment(),
            final(self).generator() == old(self).generator(),
            final(self).records() == old(self).records(),
            has_index(old(self).indexes(), name@) ==> {
                &&& final(self).indexes() == old(self).indexes()
                &&& r == Err::<Index, Error>(Error::IndexCreateFailed(
                    DomErrorName::ConstraintError,
                ))
            },
            !has_index(old(self).indexes(), name@) ==> {
                &&& final(self).indexes().len() == old(self).indexes().len() + 1
                &&& final(self).indexes().take(old(self).indexes().len() as int) == old(
                    self,
                ).indexes()
                &&& final(self).indexes().last().name@ == name@
                &&& final(self).indexes().last().key_path == key_path
                &&& final(self).indexes().last().unique == (match params {
                    None => false,
                    Some(p) => p.unique,
                })
                &&& final(self).indexes().last().multi_entry == (match params {
                    None => false,
                    Some(p) => p.multi_entry,
                })
                &&& r matches Ok(ix) && index_matches(ix, final(self).indexes().last())
            },
    {
        let sought = String::from_str(name);
        let mut i: usize = 0;
        while i < self.indexes.len()
            invariant
                i <= self.indexes.len(),
                *self == *old(self),
                old(self).wf(),
                forall|j: int| 0 <= j < i ==> (#[trigger] self.indexes@[j]).name@ != name@,
                sought@ == name@,
            decreases self.indexes.len() - i,
        {
            if self.indexes[i].name == sought {
                proof {
                    assert((#[trigger] old(self).indexes()[i as int]).name@ == name@);
                    assert(has_index(old(self).indexes(), name@));
                }
                return Err(Error::IndexCreateFailed(DomErrorName::ConstraintError));
            }
            i += 1;
        }
        let chosen = match params {
            None => IndexParams { unique: false, multi_entry: false },
            Some(p) => p,
        };
        let created = Index {
            name: sought,
            key_path,
            unique: chosen.unique,
            multi_entry: chosen.multi_entry,
        };
        let description = created.clone();
        self.indexes.push(created);
        proof {
            let before = old(self).indexes();
            assert(self.indexes@.take(before.len() as int) =~= before);
            assert forall|a: int, b: int|
                0 <= a < b < self.indexes@.len() implies (#[trigger] self.indexes@[a]).name@ != (
            #[trigger] self.indexes@[b]).name@ by {
                assert(self.indexes@[a] == before[a]);
                if b < self.indexes@.len() - 1 {
                    assert(self.indexes@[b] == before[b]);
                }
            }
        }
        Ok(description)
    }

    /// Deletes the index bearing the name; a name not in use is rejected.
    pub fn delete_index(&mut self, name: &str) -> (r: Result<(), Error>)
        requires
            old(self).wf(),
        ensures
            final(self).wf(),
            final(self).spec_name() == old(self).spec_name(),
            final(self).spec_key_path() == old(self).spec_key_path(),
            final(self).spec_auto_increment() == old(self).spec_auto_increment(),
            final(self).generator() == old(self).generator(),
            final(self).records() == old(self).records(),
            !has_index(old(self).indexes(), name@) ==> {
                &&& final(self).indexes() == old(self).indexes()
                &&& r == Err::<(), Error>(Error::IndexDeleteFailed(DomErrorName::NotFoundError))
            },
            has_index(old(self).indexes(), name@) ==> {
                &&& r == Ok::<(), Error>(())
                &&& exists|i: int|
                    0 <= i < old(self).indexes().len() && (#[trigger] old(self).indexes()[i]).name@
                        == name@ && final(self).indexes() == old(self).indexes().remove(i)
            },
    {
        let sought = String::from_str(name);
        let mut i: usize = 0;
        while i < self.indexes.len()
            invariant
                i <= self.indexes.len(),
                *self == *old(self),
                old(self).wf(),
                forall|j: int| 0 <= j < i ==> (#[trigger] self.indexes@[j]).name@ != name@,
                sought@ == name@,
            decreases self.indexes.len() - i,
        {
            if self.indexes[i].name == sought {
                let ghost pos = i as int;
                let ghost before = self.indexes@;
                self.indexes.remove(i);
                proof {
                    before.remove_ensures(pos);
                    assert((#[trigger] old(self).indexes()[pos]).name@ == name@);
                    assert(has_index(old(self).indexes(), name@));
                    assert(self.indexes@ == old(self).indexes().remove(pos));
                    assert forall|a: int, b: int|
                        0 <= a < b < self.indexes@.len() implies (#[trigger] self.indexes@[a]).name@
                            != (#[trigger] self.indexes@[b]).name@ by {
                        let x = if a < pos { a } else { a + 1 };
                        let y = if b < pos { b } else { b + 1 };
                        assert(before.remove(pos)[a] == before[x]);
                        assert(before.remove(pos)[b] == before[y]);
                        assert(self.indexes@[a] == before[x]);
                        assert(self.indexes@[b] == before[y]);
                    }
                }
                return Ok(());
            }
            i += 1;
        }
        Err(Error::IndexDeleteFailed(DomErrorName::NotFoundError))
    }
}

/// Reorders a value sequence for a cursor direction: the `Prev` directions
/// walk backwards.
fn orient_values(values: Vec<ScalarValue>, direction: Option<CursorDirection>) -> (out: Vec<
    ScalarValue,
>)
    ensures
        out@ == oriented(values@, direction),
{
    let reverse = match direction {
        Some(CursorDirection::Prev) => true,
        Some(CursorDirection::PrevUnique) => true,
        _ => false,
    };
    if !reverse {
        return values;
    }
    let mut out: Vec<ScalarValue> = Vec::new();
    let mut i: usize = 0;
    let n: usize = values.len();
    while i < n
        invariant
            i <= n,
            n == values@.len(),
            out@.len() == i,
            forall|j: int| 0 <= j < i ==> out@[j] == values@[n - 1 - j],
        decreases n - i,
    {
        out.push(values[n - 1 - i].clone());
        i += 1;
    }
    proof {
        assert(out@ =~= values@.reverse());
    }
    out
}

/// Walking the records from position `i`: when the record there misses the
/// query, the first match beyond `i` is the first match beyond `i + 1`.
proof fn lemma_first_match_skip_step(s: Seq<StoredRecord>, q: Query, i: int)
    requires
        0 <= i < s.len(),
    ensures
        query_matches(q, s[i].key) ==> first_match(s.skip(i), q) == Some(s[i]),
        !query_matches(q, s[i].key) ==> first_match(s.skip(i), q) == first_match(s.skip(i + 1), q),
{
    assert(s.skip(i)[0] == s[i]);
    assert(s.skip(i).drop_first() =~= s.skip(i + 1));
}

/// Keeping a prefix one element longer keeps the filtered prefix, plus the
/// new element when the predicate holds of it.
proof fn lemma_filtered_take_step(s: Seq<StoredRecord>, pred: spec_fn(StoredRecord) -> bool, i: int)
    requires
        0 <= i < s.len(),
    ensures
        pred(s[i]) ==> filtered(s.take(i + 1), pred) == filtered(s.take(i), pred).push(s[i]),
        !pred(s[i]) ==> filtered(s.take(i + 1), pred) == filtered(s.take(i), pred),
{
    assert(s.take(i + 1).drop_last() =~= s.take(i));
    assert(s.take(i + 1).last() == s[i]);
}

/// Every filtered record is one of the records.
proof fn lemma_filtered_membership(s: Seq<StoredRecord>, pred: spec_fn(StoredRecord) -> bool)
    ensures
        forall|x: StoredRecord| #[trigger] filtered(s, pred).contains(x) ==> s.contains(x),
    decreases s.len(),
{
    if s.len() > 0 {
        lemma_filtered_membership(s.drop_last(), pred);
        assert forall|x: StoredRecord| #[trigger] filtered(s, pred).contains(x) implies s.contains(
            x,
        ) by {
            let rest = filtered(s.drop_last(), pred);
            if rest.contains(x) {
                let k = choose|k: int| 0 <= k < s.drop_last().len() && s.drop_last()[k] == x;
                assert(s[k] == x);
            } else {
                assert(x == s.last());
                assert(s[s.len() - 1] == x);
            }
        }
    }
}

/// Filtering keeps keys unique.
proof fn lemma_filtered_unique_keys(s: Seq<StoredRecord>, pred: spec_fn(StoredRecord) -> bool)
    requires
        unique_keys(s),
    ensures
        unique_keys(filtered(s, pred)),
    decreases s.len(),
{
    if s.len() > 0 {
        assert(unique_keys(s.drop_last()));
        lemma_filtered_unique_keys(s.drop_last(), pred);
        lemma_filtered_membership(s.drop_last(), pred);
        let rest = filtered(s.drop_last(), pred);
        if pred(s.last()) {
            assert forall|a: int, b: int|
                0 <= a < b < filtered(s, pred).len() implies filtered(s, pred)[a].key != filtered(
                s,
                pred,
            )[b].key by {
                if b == filtered(s, pred).len() - 1 {
                    assert(rest.contains(rest[a]));
                    assert(s.drop_last().contains(rest[a]));
                    let k = choose|k: int|
                        0 <= k < s.drop_last().len() && s.drop_last()[k] == rest[a];
                    assert(s[k] == rest[a]);
                    assert(s[k].key != s[s.len() - 1].key);
                }
            }
        }
    }
}

/// Filtering keeps every key below a bound.
proof fn lemma_filtered_key_bound(
    s: Seq<StoredRecord>,
    pred: spec_fn(StoredRecord) -> bool,
    bound: u64,
)
    requires
        forall|i: int| 0 <= i < s.len() ==> (#[trigger] s[i]).key < bound,
    ensures
        forall|i: int|
            0 <= i < filtered(s, pred).len() ==> (#[trigger] filtered(s, pred)[i]).key < bound,
{
    lemma_filtered_membership(s, pred);
    assert forall|i: int|
        0 <= i < filtered(s, pred).len() implies (#[trigger] filtered(s, pred)[i]).key < bound by {
        assert(filtered(s, pred).contains(filtered(s, pred)[i]));
        let x = filtered(s, pred)[i];
        assert(s.contains(x));
        let k = choose|k: int| 0 <= k < s.len() && s[k] == x;
        assert(s[k].key < bound);
    }
}

/// A sequence that holds a key has a first match for that key's query, and
/// it is a record bearing the key.
proof fn lemma_first_match_key(s: Seq<StoredRecord>, key: u64)
    requires
        has_key(s, key),
    ensures
        first_match(s, Query::Key(key)) matches Some(rec) && rec.key == key && s.contains(rec),
    decreases s.len(),
{
    if s[0].key == key {
    } else {
        let i = choose|i: int| 0 <= i < s.len() && s[i].key == key;
        assert(s.drop_first()[i - 1] == s[i]);
        assert(has_key(s.drop_first(), key));
        lemma_first_match_key(s.drop_first(), key);
        let rec = first_match(s.drop_first(), Query::Key(key))->Some_0;
        let k = choose|k: int| 0 <= k < s.drop_first().len() && s.drop_first()[k] == rec;
        assert(s[k + 1] == rec);
    }
}

/// An update keeps keys unique.
proof fn lemma_put_preserves_unique(
    s: Seq<StoredRecord>,
    t: Seq<StoredRecord>,
    key: u64,
    value: ScalarValue,
)
    requires
        unique_keys(s),
        put_result(s, t, key, value),
    ensures
        unique_keys(t),
{
    if !has_key(s, key) {
        assert forall|i: int, j: int| 0 <= i < j < t.len() implies t[i].key != t[j].key by {
            if j < s.len() {
            } else {
                assert(t[j].key == key);
                assert(t[i] == s[i]);
                assert(!(s[i].key == key));
            }
        }
    } else {
        assert forall|i: int, j: int| 0 <= i < j < t.len() implies t[i].key != t[j].key by {
            assert(t[i].key == s[i].key);
            assert(t[j].key == s[j].key);
        }
    }
}

/// Round trip: after an update stores `value` under `key`, the first match
/// for that key's query is exactly the record `{key, value}`, and bridging
/// the settlement of a retrieval request for it resolves to the value
/// (under a conversion its shape satisfies).
pub proof fn lemma_put_get_round_trip(
    s: Seq<StoredRecord>,
    t: Seq<StoredRecord>,
    key: u64,
    value: ScalarValue,
    expected: crate::value::ValueKind,
)
    requires
        unique_keys(s),
        put_result(s, t, key, value),
        crate::value::kind_matches(expected, NativeValue::Scalar(value)),
    ensures
        first_match(t, Query::Key(key)) == Some(StoredRecord { key, value }),
        crate::bridge::request_wait_outcome(
            Some(
                crate::request::SettlementEvent {
                    kind: crate::request::EventKind::Success,
                    target: Some(
                        StoreRequest { outcome: Outcome::Success(NativeValue::Scalar(value)) },
                    ),
                },
            ),
            expected,
        ) == Ok::<NativeValue, Error>(NativeValue::Scalar(value)),
{
    lemma_put_preserves_unique(s, t, key, value);
    let rec = StoredRecord { key, value };
    if !has_key(s, key) {
        assert(t[t.len() - 1] == rec);
        assert(has_key(t, key));
    } else {
        let i = choose|i: int| 0 <= i < s.len() && s[i].key == key;
        assert(t[i] == rec);
        assert(has_key(t, key));
    }
    lemma_first_match_key(t, key);
    let found = first_match(t, Query::Key(key))->Some_0;
    let k = choose|k: int| 0 <= k < t.len() && t[k] == found;
    if !has_key(s, key) {
        if k < s.len() {
            assert(t[k] == s[k]);
            assert(false);
        }
    } else {
        let i = choose|i: int| 0 <= i < s.len() && s[i].key == key;
        assert(t[i] == rec);
        if k != i {
            assert(t[k].key == t[i].key);
            assert(false);
        }
    }
}

} // verus!
