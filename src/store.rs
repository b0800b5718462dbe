//! The layout of items in a UUID-keyed vector store: each item is a point
//! whose id is a version-5 UUID of the application id, and whose payload is
//! the item's metadata plus its raw text under `ORIGINAL_DOCUMENT`. Reading a
//! point back gives the store's own point id, the raw text, and the rest of
//! the payload as metadata.

use vstd::prelude::*;
use crate::json::{
    JsonEntries, JsonObject, entries_or_empty, json_entries, json_str, object_or_empty,
    object_insert, object_remove, text_value, value_text,
};
use crate::model::{FindDatabaseResult, PostDatabaseResult};

verus! {

/// Payload key that holds an item's raw text.
pub const ORIGINAL_DOCUMENT: &'static str = "original_document";

/// The hyphenated lower-case text of the version-5 UUID, in the DNS
/// namespace, of a name's UTF-8 bytes.
pub uninterp spec fn uuid_v5_dns(name: Seq<char>) -> Seq<char>;

/// Relies on `uuid::Uuid::new_v5` with `Uuid::NAMESPACE_DNS`, and on the
/// UUID's `Display`, which writes the 36-character hyphenated form.
#[verifier::external_body]
fn uuid_text(name: &str) -> (r: String)
    ensures
        r@ == uuid_v5_dns(name@),
        r@.len() == 36,
{
    uuid::Uuid::new_v5(&uuid::Uuid::NAMESPACE_DNS, name.as_bytes()).to_string()
}

/// The point id under which an application id is stored.
pub fn point_id(id: &str) -> (r: String)
    ensures
        r@ == uuid_v5_dns(id@),
        r@.len() == 36,
{
    uuid_text(id)
}

/// The decimal digit for a value below ten.
pub open spec fn digit(d: nat) -> char {
    if d == 0 { '0' } else if d == 1 { '1' } else if d == 2 { '2' } else if d == 3 { '3' }
    else if d == 4 { '4' } else if d == 5 { '5' } else if d == 6 { '6' } else if d == 7 { '7' }
    else if d == 8 { '8' } else { '9' }
}

/// The decimal text of a number, without sign or leading zeros.
pub open spec fn decimal(n: nat) -> Seq<char>
    decreases n,
{
    if n < 10 {
        seq![digit(n)]
    } else {
        decimal(n / 10).push(digit(n % 10))
    }
}

/// The one-character text of a decimal digit.
fn digit_text(d: u64) -> (r: &'static str)
    requires
        d < 10,
    ensures
        r@ == seq![digit(d as nat)],
{
    proof {
        reveal_strlit("0");
        reveal_strlit("1");
        reveal_strlit("2");
        reveal_strlit("3");
        reveal_strlit("4");
        reveal_strlit("5");
        reveal_strlit("6");
        reveal_strlit("7");
        reveal_strlit("8");
        reveal_strlit("9");
    }
    if d == 0 { "0" } else if d == 1 { "1" } else if d == 2 { "2" } else if d == 3 { "3" }
    else if d == 4 { "4" } else if d == 5 { "5" } else if d == 6 { "6" } else if d == 7 { "7" }
    else if d == 8 { "8" } else { "9" }
}

/// The decimal text of `n`.
fn decimal_text(n: u64) -> (r: String)
    ensures
        r@ == decimal(n as nat),
    decreases n,
{
    if n < 10 {
        String::from_str(digit_text(n))
    } else {
        let mut r = decimal_text(n / 10);
        r.append(digit_text(n % 10));
        r
    }
}

/// A store's point id: a number, or a UUID in text.
pub enum PointKey {
    Num(u64),
    Uuid(String),
}

/// The text of a point id; empty when the store gave none.
pub open spec fn key_text(k: Option<PointKey>) -> Seq<char> {
    match k {
        Some(PointKey::Num(n)) => decimal(n as nat),
        Some(PointKey::Uuid(s)) => s@,
        None => Seq::empty(),
    }
}

/// Text form of a point id.
pub fn point_key_text(k: &Option<PointKey>) -> (r: String)
    ensures
        r@ == key_text(*k),
{
    match k {
        Some(PointKey::Num(n)) => decimal_text(*n),
        Some(PointKey::Uuid(s)) => s.clone(),
        None => String::new(),
    }
}

/// A point to write: its id, its vector and its payload.
pub struct StorePoint<E> {
    pub id: String,
    pub vector: E,
    pub payload: JsonObject,
}

/// A point read back from the store, with the distance the caller derived
/// from the store's score.
pub struct StoredPoint<D> {
    pub id: Option<PointKey>,
    pub payload: JsonObject,
    pub distance: D,
}

/// `payload` holds the entries of `metadata`, and the raw `text` under
/// `ORIGINAL_DOCUMENT`.
pub open spec fn carries_text(payload: JsonEntries, metadata: JsonEntries, text: Seq<char>) -> bool {
    &&& payload.contains_key(ORIGINAL_DOCUMENT@)
    &&& json_str(payload[ORIGINAL_DOCUMENT@]) == Some(text)
    &&& payload.remove(ORIGINAL_DOCUMENT@) == metadata.remove(ORIGINAL_DOCUMENT@)
}

/// The text a payload holds under `ORIGINAL_DOCUMENT`; empty when it holds
/// none or something other than a JSON string.
pub open spec fn stored_text(payload: JsonEntries) -> Seq<char> {
    match payload.get(ORIGINAL_DOCUMENT@) {
        Some(v) => match json_str(v) {
            Some(t) => t,
            None => Seq::empty(),
        },
        None => Seq::empty(),
    }
}

/// The payload of an item: its metadata plus its raw text.
pub fn point_payload(metadata: &Option<JsonObject>, text: &String) -> (r: JsonObject)
    ensures
        carries_text(json_entries(r), entries_or_empty(*metadata), text@),
{
    let mut payload = object_or_empty(metadata);
    let ghost before = json_entries(payload);
    let value = text_value(text.clone());
    object_insert(&mut payload, String::from_str(ORIGINAL_DOCUMENT), value);
    assert(json_entries(payload).remove(ORIGINAL_DOCUMENT@) =~= before.remove(ORIGINAL_DOCUMENT@));
    payload
}

/// `p` is the point that stores result `r`: under the UUID of its id, with
/// a clone of its embedding, and with its metadata and raw text.
pub open spec fn stores<E: Clone>(p: StorePoint<E>, r: PostDatabaseResult<E>) -> bool {
    &&& p.id@ == uuid_v5_dns(r.id@)
    &&& cloned(r.embeddings, p.vector)
    &&& carries_text(json_entries(p.payload), entries_or_empty(r.metadata), r.text@)
}

/// The points that store `results`, one for each, in order.
pub fn upsert_points<E: Clone>(results: &Vec<PostDatabaseResult<E>>) -> (r: Vec<StorePoint<E>>)
    ensures
        r@.len() == results@.len(),
        forall|i: int| 0 <= i < r@.len() ==> #[trigger] stores(r@[i], results@[i]),
{
    let mut r: Vec<StorePoint<E>> = Vec::new();
    let mut i: usize = 0;
    while i < results.len()
        invariant
            i <= results@.len(),
            r@.len() == i,
            forall|j: int| 0 <= j < i ==> #[trigger] stores(r@[j], results@[j]),
        decreases results@.len() - i,
    {
        let item = &results[i];
        let point = StorePoint {
            id: point_id(item.id.as_str()),
            vector: item.embeddings.clone(),
            payload: point_payload(&item.metadata, &item.text),
        };
        r.push(point);
        i = i + 1;
    }
    r
}

/// `n` is the neighbor read from point `p`.
pub open spec fn reads<D>(n: FindDatabaseResult<D>, p: StoredPoint<D>) -> bool {
    &&& n.id@ == key_text(p.id)
    &&& n.text@ == stored_text(json_entries(p.payload))
    &&& n.metadata matches Some(m) && json_entries(m) == json_entries(p.payload).remove(
        ORIGINAL_DOCUMENT@,
    )
    &&& n.distance == p.distance
}

/// The neighbor a point read back from the store stands for.
pub fn neighbor_from_point<D>(p: StoredPoint<D>) -> (r: FindDatabaseResult<D>)
    ensures
        reads(r, p),
{
    let ghost old_p = p;
    let StoredPoint { id, payload, distance } = p;
    let mut metadata = payload;
    let removed = object_remove(&mut metadata, ORIGINAL_DOCUMENT);
    let text = match removed {
        Some(v) => match value_text(&v) {
            Some(t) => t,
            None => String::new(),
        },
        None => String::new(),
    };
    FindDatabaseResult { id: point_key_text(&id), text, metadata: Some(metadata), distance }
}

/// The neighbors that `points` stand for, in the order the store gave.
pub fn neighbors_from_points<D>(points: Vec<StoredPoint<D>>) -> (r: Vec<FindDatabaseResult<D>>)
    ensures
        r@.len() == points@.len(),
        forall|i: int| 0 <= i < r@.len() ==> #[trigger] reads(r@[i], points@[i]),
{
    let ghost all = points@;
    let mut rest = points;
    let mut r: Vec<FindDatabaseResult<D>> = Vec::new();
    while rest.len() > 0
        invariant
            r@.len() + rest@.len() == all.len(),
            rest@ == all.subrange(r@.len() as int, all.len() as int),
            forall|j: int| 0 <= j < r@.len() ==> #[trigger] reads(r@[j], all[j]),
        decreases rest@.len(),
    {
        let p = rest.remove(0);
        r.push(neighbor_from_point(p));
    }
    r
}

/// What an item's point holds comes back from a query as it went in: the raw
/// text, and the metadata apart from the text's own key.
pub proof fn lemma_text_round_trip<E: Clone, D>(
    r: PostDatabaseResult<E>,
    p: StorePoint<E>,
    key: Option<PointKey>,
    distance: D,
    n: FindDatabaseResult<D>,
)
    requires
        stores(p, r),
        reads(n, (StoredPoint { id: key, payload: p.payload, distance })),
    ensures
        n.text@ == r.text@,
        n.metadata matches Some(m) && json_entries(m) == entries_or_empty(r.metadata).remove(
            ORIGINAL_DOCUMENT@,
        ),
{
}

} // verus!
