//! The document engine as this library sees it: its types, a model of what a
//! map node holds inside a transaction, and the calls made into it.
use vstd::prelude::*;
use std::collections::HashMap;
use yrs::types::ToJson;
use yrs::Map as MapOps;
use yrs::{Any, ArrayPrelim, ArrayRef, Doc, MapPrelim, MapRef, TextPrelim, TextRef, Transact, Transaction, TransactionMut, WriteTxn};

verus! {

#[verifier::external_type_specification]
#[verifier::external_body]
pub struct ExDoc(Doc);

#[verifier::external_type_specification]
#[verifier::external_body]
pub struct ExMapRef(MapRef);

#[verifier::external_type_specification]
#[verifier::external_body]
pub struct ExArrayRef(ArrayRef);

#[verifier::external_type_specification]
#[verifier::external_body]
pub struct ExTextRef(TextRef);

#[verifier::external_type_specification]
#[verifier::external_body]
pub struct ExAny(Any);

#[verifier::external_type_specification]
#[verifier::external_body]
pub struct ExTransaction<'doc>(Transaction<'doc>);

#[verifier::external_type_specification]
#[verifier::external_body]
pub struct ExTransactionMut<'doc>(TransactionMut<'doc>);

#[verifier::external_type_specification]
#[verifier::external_body]
pub struct ExJsonValue(serde_json::Value);

#[verifier::external_type_specification]
#[verifier::external_body]
pub struct ExJsonError(serde_json::Error);

/// Relies on `Clone` of `MapRef`: the copy refers to the same node.
pub assume_specification[ <MapRef as Clone>::clone ](m: &MapRef) -> (r: MapRef)
    ensures
        r == *m,
;

/// Relies on `Clone` of `Doc`: the copy shares the same document.
pub assume_specification[ <Doc as Clone>::clone ](d: &Doc) -> (r: Doc)
    ensures
        r == *d,
;

/// The kind of what a map entry holds.
#[derive(Clone, Copy, Debug, PartialEq, Eq, Structural)]
pub enum NodeKind {
    YMap,
    YArray,
    YText,
    Scalar,
    Other,
}

/// What a lookup in a map node finds: a nested node of one of the three
/// kinds, a plain value, or a node of a kind this library does not handle.
pub enum YrsValue {
    YMap(MapRef),
    YArray(ArrayRef),
    YText(TextRef),
    Scalar(Any),
    Other,
}

impl YrsValue {
    pub open spec fn kind(self) -> NodeKind {
        match self {
            YrsValue::YMap(_) => NodeKind::YMap,
            YrsValue::YArray(_) => NodeKind::YArray,
            YrsValue::YText(_) => NodeKind::YText,
            YrsValue::Scalar(_) => NodeKind::Scalar,
            YrsValue::Other => NodeKind::Other,
        }
    }
}

/// The document that map node `map` belongs to.
pub uninterp spec fn node_doc(map: MapRef) -> Doc;

/// The document that the read-write transaction `txn` was opened on.
pub uninterp spec fn txn_doc(txn: TransactionMut) -> Doc;

/// The document that the read-only transaction `txn` was opened on.
pub uninterp spec fn read_txn_doc(txn: Transaction) -> Doc;

/// The live entries of map node `map`, in the state that the read-write
/// transaction `txn` of its document sees: each key with the value or node
/// it holds.
pub uninterp spec fn entries_mut(txn: TransactionMut, map: MapRef) -> Map<Seq<char>, YrsValue>;

/// Whether the map node `map` has been deleted, in the state that `txn` of
/// its document sees: a node that was replaced or removed, with everything
/// below it. Whatever is written into a deleted node is deleted at once.
pub uninterp spec fn node_deleted(txn: TransactionMut, map: MapRef) -> bool;

/// The live elements of array node `array`, in the state that `txn` of its
/// document sees, in order.
pub uninterp spec fn array_items(txn: TransactionMut, array: ArrayRef) -> Seq<YrsValue>;

/// The characters of text node `text`, in the state that `txn` of its
/// document sees.
pub uninterp spec fn text_content(txn: TransactionMut, text: TextRef) -> Seq<char>;

/// The live entries of map node `map`, in the state that the read-only
/// transaction `txn` of its document sees.
pub uninterp spec fn entries_read(txn: Transaction, map: MapRef) -> Map<Seq<char>, YrsValue>;

/// The JSON value of the whole subtree under map node `map`, in the state
/// that the read-only transaction `txn` of its document sees.
pub uninterp spec fn projection(txn: Transaction, map: MapRef) -> serde_json::Value;

/// The JSON value that a plain value serializes to.
pub uninterp spec fn json_value_of(value: Any) -> serde_json::Value;

/// The JSON text that a JSON value is written as.
pub uninterp spec fn json_text(value: serde_json::Value) -> Seq<char>;

/// Plain values as array elements.
pub open spec fn scalars(values: Seq<Any>) -> Seq<YrsValue> {
    values.map_values(|v: Any| YrsValue::Scalar(v))
}

/// Key-value pairs as map entries: of two pairs with one key, the later wins.
pub open spec fn pairs_map(pairs: Seq<(String, Any)>) -> Map<Seq<char>, YrsValue>
    decreases pairs.len(),
{
    if pairs.len() == 0 {
        Map::empty()
    } else {
        pairs_map(pairs.drop_last()).insert(pairs.last().0@, YrsValue::Scalar(pairs.last().1))
    }
}

/// Relies on `Transact::try_transact` of `Doc`: a read-only transaction on
/// `doc`, or none while a read-write one is open.
#[verifier::external_body]
pub(crate) fn doc_try_transact(doc: &Doc) -> (r: Option<Transaction<'_>>)
    ensures
        r matches Some(t) ==> read_txn_doc(t) == *doc,
{
    doc.try_transact().ok()
}

/// Relies on `Transact::try_transact_mut` of `Doc`: a read-write transaction
/// on `doc`, or none while any other transaction is open.
#[verifier::external_body]
pub(crate) fn doc_try_transact_mut(doc: &Doc) -> (r: Option<TransactionMut<'_>>)
    ensures
        r matches Some(t) ==> txn_doc(t) == *doc,
{
    doc.try_transact_mut().ok()
}

/// Relies on `WriteTxn::get_or_insert_map` of `TransactionMut`: the root map
/// named `name` of the transaction's document. A root type is never deleted.
#[verifier::external_body]
pub(crate) fn txn_root_map(txn: &mut TransactionMut, name: &str) -> (r: MapRef)
    ensures
        txn_doc(*final(txn)) == txn_doc(*old(txn)),
        node_doc(r) == txn_doc(*old(txn)),
        forall|t: TransactionMut| !node_deleted(t, r),
{
    txn.get_or_insert_map(name)
}

/// Relies on `Map::get` of `MapRef`: the live value under `key`, if any,
/// told apart by its kind. A nested map belongs to the same document.
#[verifier::external_body]
pub(crate) fn map_get_mut(map: &MapRef, txn: &TransactionMut, key: &str) -> (r: Option<YrsValue>)
    requires
        txn_doc(*txn) == node_doc(*map),
    ensures
        r is None <==> !entries_mut(*txn, *map).contains_key(key@),
        r matches Some(v) ==> entries_mut(*txn, *map)[key@] == v,
        r matches Some(YrsValue::YMap(m)) ==> node_doc(m) == node_doc(*map),
{
    map.get(txn, key).map(|v| match v {
        yrs::types::Value::YMap(m) => YrsValue::YMap(m),
        yrs::types::Value::YArray(a) => YrsValue::YArray(a),
        yrs::types::Value::YText(t) => YrsValue::YText(t),
        yrs::types::Value::Any(a) => YrsValue::Scalar(a),
        _ => YrsValue::Other,
    })
}

/// Relies on `Map::get` of `MapRef`, in a read-only transaction.
#[verifier::external_body]
pub(crate) fn map_get_read(map: &MapRef, txn: &Transaction, key: &str) -> (r: Option<YrsValue>)
    requires
        read_txn_doc(*txn) == node_doc(*map),
    ensures
        r is None <==> !entries_read(*txn, *map).contains_key(key@),
        r matches Some(v) ==> entries_read(*txn, *map)[key@] == v,
        r matches Some(YrsValue::YMap(m)) ==> node_doc(m) == node_doc(*map),
{
    map.get(txn, key).map(|v| match v {
        yrs::types::Value::YMap(m) => YrsValue::YMap(m),
        yrs::types::Value::YArray(a) => YrsValue::YArray(a),
        yrs::types::Value::YText(t) => YrsValue::YText(t),
        yrs::types::Value::Any(a) => YrsValue::Scalar(a),
        _ => YrsValue::Other,
    })
}

/// Relies on `Map::insert` of `MapRef` with a plain value: `key` then holds
/// that value, and no other entry of the map changes, unless the map node
/// itself is deleted.
#[verifier::external_body]
pub(crate) fn map_insert_any(map: &MapRef, txn: &mut TransactionMut, key: &str, value: Any)
    requires
        txn_doc(*old(txn)) == node_doc(*map),
    ensures
        txn_doc(*final(txn)) == txn_doc(*old(txn)),
        !node_deleted(*old(txn), *map) ==> entries_mut(*final(txn), *map)
            == entries_mut(*old(txn), *map).insert(key@, YrsValue::Scalar(value)),
{
    map.insert(txn, key, value);
}

/// Relies on `Map::insert` of `MapRef` with an `ArrayPrelim`: `key` then
/// holds the new array node `r`, whose elements are `values` in order, and
/// no other entry changes, unless the map node itself is deleted.
#[verifier::external_body]
pub(crate) fn map_insert_array(map: &MapRef, txn: &mut TransactionMut, key: &str, values: Vec<Any>) -> (r: ArrayRef)
    requires
        txn_doc(*old(txn)) == node_doc(*map),
    ensures
        txn_doc(*final(txn)) == txn_doc(*old(txn)),
        !node_deleted(*old(txn), *map) ==> entries_mut(*final(txn), *map)
            == entries_mut(*old(txn), *map).insert(key@, YrsValue::YArray(r)),
        !node_deleted(*old(txn), *map) ==> array_items(*final(txn), r) == scalars(values@),
{
    map.insert(txn, key, ArrayPrelim::from(values))
}

/// Relies on `Map::insert` of `MapRef` with a `MapPrelim`: `key` then holds
/// the new map node `r` of the same document, which holds `entries` (the
/// later of two pairs with one key wins, as in the `HashMap` it is built
/// through), and no other entry changes, unless the map node itself is
/// deleted.
#[verifier::external_body]
pub(crate) fn map_insert_map(map: &MapRef, txn: &mut TransactionMut, key: &str, entries: Vec<(String, Any)>) -> (r: MapRef)
    requires
        txn_doc(*old(txn)) == node_doc(*map),
    ensures
        txn_doc(*final(txn)) == txn_doc(*old(txn)),
        r != *map,
        node_doc(r) == node_doc(*map),
        !node_deleted(*old(txn), *map) ==> entries_mut(*final(txn), *map)
            == entries_mut(*old(txn), *map).insert(key@, YrsValue::YMap(r)),
        !node_deleted(*old(txn), *map) ==> !node_deleted(*final(txn), r),
        !node_deleted(*old(txn), *map) ==> entries_mut(*final(txn), r) == pairs_map(entries@),
{
    map.insert(txn, key, MapPrelim::from(entries.into_iter().collect::<HashMap<String, Any>>()))
}

/// Relies on `Map::insert` of `MapRef` with an empty `TextPrelim`: `key` then
/// holds the new, empty text node `r`, and no other entry changes, unless
/// the map node itself is deleted.
#[verifier::external_body]
pub(crate) fn map_insert_text(map: &MapRef, txn: &mut TransactionMut, key: &str) -> (r: TextRef)
    requires
        txn_doc(*old(txn)) == node_doc(*map),
    ensures
        txn_doc(*final(txn)) == txn_doc(*old(txn)),
        !node_deleted(*old(txn), *map) ==> entries_mut(*final(txn), *map)
            == entries_mut(*old(txn), *map).insert(key@, YrsValue::YText(r)),
        !node_deleted(*old(txn), *map) ==> text_content(*final(txn), r) == Seq::<char>::empty(),
{
    map.insert(txn, key, TextPrelim::new(""))
}

/// Relies on `ToJson::to_json` of `MapRef`: a plain-value snapshot of the
/// subtree, whose JSON value is the subtree's projection. (The snapshot
/// itself is built on a fresh `HashMap` each time, so only its JSON value is
/// fixed by the state.)
#[verifier::external_body]
pub(crate) fn map_to_json(map: &MapRef, txn: &Transaction) -> (r: Any)
    requires
        read_txn_doc(*txn) == node_doc(*map),
    ensures
        json_value_of(r) == projection(*txn, *map),
{
    map.to_json(txn)
}

/// Relies on `serde_json::to_value` with the `Serialize` impl of `Any`, which
/// has no error path into serde_json's value serializer: non-finite numbers
/// become null, buffers become arrays, and map keys are strings.
#[verifier::external_body]
pub(crate) fn any_to_json_value(value: &Any) -> (r: Result<serde_json::Value, serde_json::Error>)
    ensures
        r is Ok,
        r matches Ok(v) ==> v == json_value_of(*value),
{
    serde_json::to_value(value)
}

/// Relies on `Display` of `serde_json::Value` (compact JSON text; objects are
/// ordered by key): the text depends on the value alone.
#[verifier::external_body]
pub(crate) fn json_to_string(value: &serde_json::Value) -> (r: String)
    ensures
        r@ == json_text(*value),
{
    value.to_string()
}

} // verus!
