//! Typed handles over the nodes of a shared document, and the context that
//! opens transactions on it.
use vstd::prelude::*;
use yrs::{Any, ArrayRef, Doc, MapRef, TextRef, Transaction, TransactionMut};
use crate::engine::{
    any_to_json_value, array_items, doc_try_transact, doc_try_transact_mut, entries_mut,
    entries_read, json_text, json_to_string, map_get_mut, map_get_read, map_insert_any,
    map_insert_array, map_insert_map, map_insert_text, map_to_json, node_deleted, node_doc,
    pairs_map, projection, read_txn_doc, scalars, text_content, txn_doc, txn_root_map, NodeKind,
    YrsValue,
};

verus! {

/// The shared context of a document: every handle holds a copy, and opens
/// its transactions through it.
pub struct CollabContext {
    doc: Doc,
}

impl Clone for CollabContext {
    /// A copy that shares the same document.
    fn clone(&self) -> (r: CollabContext)
        ensures
            r == *self,
    {
        CollabContext { doc: self.doc.clone() }
    }
}

impl CollabContext {
    pub fn new(doc: Doc) -> (r: CollabContext)
        ensures
            r.doc() == doc,
    {
        CollabContext { doc }
    }

    pub closed spec fn doc(&self) -> Doc {
        self.doc
    }

    /// A read-only transaction; none while a read-write one is open.
    pub fn transact(&self) -> (r: Option<Transaction<'_>>)
        ensures
            r matches Some(t) ==> read_txn_doc(t) == self.doc(),
    {
        doc_try_transact(&self.doc)
    }

    /// A read-write transaction; none while another transaction is open.
    /// It commits when dropped.
    pub fn transact_mut(&self) -> (r: Option<TransactionMut<'_>>)
        ensures
            r matches Some(t) ==> txn_doc(t) == self.doc(),
    {
        doc_try_transact_mut(&self.doc)
    }

    /// A handle over the root map named `name` of the document, created when
    /// absent; none while another transaction is open.
    pub fn root_map(&self, name: &str) -> (r: Option<MapRefWrapper>)
        ensures
            r matches Some(m) ==> m.wf() && m.ctx() == *self && forall|t: TransactionMut| !m.deleted(t),
    {
        match self.transact_mut() {
            Some(mut txn) => {
                let map_ref = txn_root_map(&mut txn, name);
                Some(MapRefWrapper::new(map_ref, self.clone()))
            },
            None => None,
        }
    }
}

/// A handle over an array node.
pub struct ArrayRefWrapper {
    pub array_ref: ArrayRef,
    pub collab_ctx: CollabContext,
}

impl ArrayRefWrapper {
    pub fn new(array_ref: ArrayRef, collab_ctx: CollabContext) -> (r: ArrayRefWrapper)
        ensures
            r.array_ref == array_ref,
            r.collab_ctx == collab_ctx,
    {
        ArrayRefWrapper { array_ref, collab_ctx }
    }
}

/// A handle over a text node.
pub struct TextRefWrapper {
    pub text_ref: TextRef,
    pub collab_ctx: CollabContext,
}

impl TextRefWrapper {
    pub fn new(text_ref: TextRef, collab_ctx: CollabContext) -> (r: TextRefWrapper)
        ensures
            r.text_ref == text_ref,
            r.collab_ctx == collab_ctx,
    {
        TextRefWrapper { text_ref, collab_ctx }
    }
}

/// A type that can be built over a map node, so that generic code that
/// needs only map semantics can treat it as one. It keeps the handle it was
/// built over.
pub trait CustomMapRef: Sized {
    /// The handle this value is backed by.
    spec fn backing(&self) -> MapRefWrapper;

    fn from_map_ref(map_ref: MapRefWrapper) -> (r: Self)
        ensures
            r.backing() == map_ref,
    ;
}

impl CustomMapRef for MapRefWrapper {
    open spec fn backing(&self) -> MapRefWrapper {
        *self
    }

    fn from_map_ref(map_ref: MapRefWrapper) -> (r: MapRefWrapper) {
        map_ref
    }
}

/// A handle over a map node. Every method that takes a transaction expects
/// one of this handle's own document. The methods that open their own
/// transaction do not wait for another one to close: while one is open they
/// write nothing and report it (`false`, `None` or an error).
pub struct MapRefWrapper {
    map_ref: MapRef,
    pub collab_ctx: CollabContext,
}

impl Clone for MapRefWrapper {
    /// Another handle over the same node, with the same context.
    fn clone(&self) -> (r: MapRefWrapper)
        ensures
            r == *self,
    {
        MapRefWrapper { map_ref: self.map_ref.clone(), collab_ctx: self.collab_ctx.clone() }
    }
}

/// `key` holds a node or value of kind `kind` in `entries`.
pub open spec fn holds(entries: Map<Seq<char>, YrsValue>, key: Seq<char>, kind: NodeKind) -> bool {
    entries.contains_key(key) && entries[key].kind() == kind
}

/// What a create-if-absent call of kind `kind` does to `map`: a key that
/// already holds such a node leaves the transaction as it was; otherwise, in
/// a live map node, a new node of that kind is put under the key and nothing
/// else changes.
pub open spec fn create_if_absent_post(
    before: TransactionMut,
    after: TransactionMut,
    map: MapRef,
    key: Seq<char>,
    kind: NodeKind,
) -> bool {
    if holds(entries_mut(before, map), key, kind) {
        after == before
    } else {
        !node_deleted(before, map) ==> holds(entries_mut(after, map), key, kind)
            && entries_mut(after, map) == entries_mut(before, map).insert(key, entries_mut(after, map)[key])
    }
}

/// What `create_array_if_not_exist_with_txn` does: a key that already holds
/// an array keeps it, the transaction is left as it was, and `r` is that
/// array; otherwise, in a live map node, `r` is a new array under the key
/// whose elements are `values`, and no other entry changes.
pub open spec fn create_array_post(
    before: TransactionMut,
    after: TransactionMut,
    map: MapRef,
    key: Seq<char>,
    values: Seq<Any>,
    r: ArrayRef,
) -> bool {
    &&& create_if_absent_post(before, after, map, key, NodeKind::YArray)
    &&& holds(entries_mut(before, map), key, NodeKind::YArray) ==> entries_mut(before, map)[key] == YrsValue::YArray(r)
    &&& !holds(entries_mut(before, map), key, NodeKind::YArray) && !node_deleted(before, map)
        ==> entries_mut(after, map) == entries_mut(before, map).insert(key, YrsValue::YArray(r))
        && array_items(after, r) == scalars(values)
}

/// What `create_map_with_txn_if_not_exist` does: a key that already holds a
/// map keeps it, the transaction is left as it was, and `r` is that map;
/// otherwise, in a live map node, `r` is a new empty map under the key, and
/// no other entry changes.
pub open spec fn create_map_post(before: TransactionMut, after: TransactionMut, map: MapRef, key: Seq<char>, r: MapRef) -> bool {
    &&& create_if_absent_post(before, after, map, key, NodeKind::YMap)
    &&& holds(entries_mut(before, map), key, NodeKind::YMap) ==> entries_mut(before, map)[key] == YrsValue::YMap(r)
    &&& !holds(entries_mut(before, map), key, NodeKind::YMap) && !node_deleted(before, map)
        ==> entries_mut(after, map) == entries_mut(before, map).insert(key, YrsValue::YMap(r))
        && entries_mut(after, r) == Map::<Seq<char>, YrsValue>::empty()
}

/// A write through one transaction, from state `t0` to state `t1` of the
/// node's document, that put `v` under `key` of a live `map`.
pub open spec fn wrote_entry(t0: TransactionMut, t1: TransactionMut, map: MapRef, key: Seq<char>, v: YrsValue) -> bool {
    &&& txn_doc(t0) == node_doc(map)
    &&& !node_deleted(t0, map) ==> entries_mut(t1, map) == entries_mut(t0, map).insert(key, v)
}

/// A write that put a new array `a` holding `values` under `key` of a live `map`.
pub open spec fn wrote_array(
    t0: TransactionMut,
    t1: TransactionMut,
    map: MapRef,
    key: Seq<char>,
    values: Seq<Any>,
    a: ArrayRef,
) -> bool {
    &&& wrote_entry(t0, t1, map, key, YrsValue::YArray(a))
    &&& !node_deleted(t0, map) ==> array_items(t1, a) == scalars(values)
}

/// A write that put a new map holding exactly `pairs` under `key` of a live
/// `map`.
pub open spec fn wrote_map(t0: TransactionMut, t1: TransactionMut, map: MapRef, key: Seq<char>, pairs: Seq<(String, Any)>) -> bool {
    &&& txn_doc(t0) == node_doc(map)
    &&& !node_deleted(t0, map) ==> holds(entries_mut(t1, map), key, NodeKind::YMap)
        && entries_mut(t1, map) == entries_mut(t0, map).insert(key, entries_mut(t1, map)[key])
        && entries_mut(t1, entries_mut(t1, map)[key]->YMap_0) == pairs_map(pairs)
}

/// `v` is the JSON projection of the map node under `key` of `map`, in the
/// state that the read-only transaction `t` of its document sees.
pub open spec fn json_under(t: Transaction, map: MapRef, key: Seq<char>, v: serde_json::Value) -> bool {
    &&& read_txn_doc(t) == node_doc(map)
    &&& holds(entries_read(t, map), key, NodeKind::YMap)
    &&& v == projection(t, entries_read(t, map)[key]->YMap_0)
}

/// `v` is the JSON projection of the whole subtree under `map`, in the state
/// that the read-only transaction `t` of its document sees.
pub open spec fn projected(t: Transaction, map: MapRef, v: serde_json::Value) -> bool {
    &&& read_txn_doc(t) == node_doc(map)
    &&& v == projection(t, map)
}

/// Errors of the calls that open their own transaction.
#[derive(Clone, Copy, Debug, PartialEq, Eq, Structural)]
pub enum CollabError {
    /// another transaction is open on the document
    TransactionUnavailable,
    /// the content has no JSON counterpart
    Unsupported,
}

impl MapRefWrapper {
    /// The map node this handle refers to.
    pub closed spec fn node(&self) -> MapRef {
        self.map_ref
    }

    /// The context this handle opens its transactions through.
    pub closed spec fn ctx(&self) -> CollabContext {
        self.collab_ctx
    }

    /// The handle's node belongs to the document of its context.
    pub open spec fn wf(&self) -> bool {
        node_doc(self.node()) == self.ctx().doc()
    }

    /// `txn` is a read-write transaction of this node's document.
    pub open spec fn in_doc(&self, txn: TransactionMut) -> bool {
        txn_doc(txn) == node_doc(self.node())
    }

    /// `txn` is a read-only transaction of this node's document.
    pub open spec fn in_read_doc(&self, txn: Transaction) -> bool {
        read_txn_doc(txn) == node_doc(self.node())
    }

    /// Whether this map node is deleted, as seen through `txn`.
    pub open spec fn deleted(&self, txn: TransactionMut) -> bool {
        node_deleted(txn, self.node())
    }

    /// The entries of this map node as seen through `txn`.
    pub open spec fn entries(&self, txn: TransactionMut) -> Map<Seq<char>, YrsValue> {
        entries_mut(txn, self.node())
    }

    pub fn new(map_ref: MapRef, collab_ctx: CollabContext) -> (r: MapRefWrapper)
        ensures
            r.node() == map_ref,
            r.ctx() == collab_ctx,
    {
        MapRefWrapper { collab_ctx, map_ref }
    }

    pub fn into_inner(self) -> (r: MapRef)
        ensures
            r == self.node(),
    {
        self.map_ref
    }

    pub fn map_ref(&self) -> (r: &MapRef)
        ensures
            *r == self.node(),
    {
        &self.map_ref
    }

    /// Writes `value` under `key` in a transaction of its own, as
    /// `insert_with_txn` does. `false` when another transaction is open, and
    /// nothing was written.
    pub fn insert(&self, key: &str, value: Any) -> (r: bool)
        requires
            self.wf(),
        ensures
            r ==> exists|t0: TransactionMut, t1: TransactionMut|
                #[trigger] wrote_entry(t0, t1, self.node(), key@, YrsValue::Scalar(value)),
    {
        match self.collab_ctx.transact_mut() {
            Some(mut txn) => {
                let ghost t0 = txn;
                self.insert_with_txn(&mut txn, key, value);
                assert(wrote_entry(t0, txn, self.node(), key@, YrsValue::Scalar(value)));
                true
            },
            None => false,
        }
    }

    /// Writes `value` under `key`, replacing what was there.
    pub fn insert_with_txn(&self, txn: &mut TransactionMut, key: &str, value: Any)
        requires
            self.in_doc(*old(txn)),
        ensures
            txn_doc(*final(txn)) == txn_doc(*old(txn)),
            !self.deleted(*old(txn)) ==> self.entries(*final(txn))
                == self.entries(*old(txn)).insert(key@, YrsValue::Scalar(value)),
    {
        map_insert_any(&self.map_ref, txn, key, value);
    }

    /// Puts a new, empty text node under `key`, replacing what was there.
    pub fn insert_text_with_txn(&self, txn: &mut TransactionMut, key: &str) -> (r: TextRefWrapper)
        requires
            self.in_doc(*old(txn)),
        ensures
            txn_doc(*final(txn)) == txn_doc(*old(txn)),
            !self.deleted(*old(txn)) ==> self.entries(*final(txn))
                == self.entries(*old(txn)).insert(key@, YrsValue::YText(r.text_ref)),
            !self.deleted(*old(txn)) ==> text_content(*final(txn), r.text_ref) == Seq::<char>::empty(),
            r.collab_ctx == self.ctx(),
    {
        let text_ref = map_insert_text(&self.map_ref, txn, key);
        TextRefWrapper::new(text_ref, self.collab_ctx.clone())
    }

    /// Puts a new array node seeded with `values` under `key`, in a
    /// transaction of its own, as `insert_array_with_txn` does; none while
    /// another transaction is open.
    pub fn insert_array(&self, key: &str, values: Vec<Any>) -> (r: Option<ArrayRefWrapper>)
        requires
            self.wf(),
        ensures
            r matches Some(a) ==> a.collab_ctx == self.ctx() && exists|t0: TransactionMut, t1: TransactionMut|
                #[trigger] wrote_array(t0, t1, self.node(), key@, values@, a.array_ref),
    {
        match self.collab_ctx.transact_mut() {
            Some(mut txn) => {
                let ghost t0 = txn;
                let ghost vs = values@;
                let a = self.insert_array_with_txn(&mut txn, key, values);
                assert(wrote_array(t0, txn, self.node(), key@, vs, a.array_ref));
                Some(a)
            },
            None => None,
        }
    }

    /// Puts a new map node holding `entries` under `key`, in a transaction
    /// of its own, as `insert_map_with_txn` does. `false` while another
    /// transaction is open.
    pub fn insert_map(&self, key: &str, entries: Vec<(String, Any)>) -> (r: bool)
        requires
            self.wf(),
        ensures
            r ==> exists|t0: TransactionMut, t1: TransactionMut|
                #[trigger] wrote_map(t0, t1, self.node(), key@, entries@),
    {
        match self.collab_ctx.transact_mut() {
            Some(mut txn) => {
                let ghost t0 = txn;
                let ghost es = entries@;
                self.insert_map_with_txn(&mut txn, key, entries);
                assert(wrote_map(t0, txn, self.node(), key@, es));
                true
            },
            None => false,
        }
    }

    /// Puts a new map node holding exactly `entries` under `key` (of two
    /// pairs with one key, the later wins).
    pub fn insert_map_with_txn(&self, txn: &mut TransactionMut, key: &str, entries: Vec<(String, Any)>)
        requires
            self.in_doc(*old(txn)),
        ensures
            txn_doc(*final(txn)) == txn_doc(*old(txn)),
            !self.deleted(*old(txn)) ==> holds(self.entries(*final(txn)), key@, NodeKind::YMap)
                && self.entries(*final(txn)) == self.entries(*old(txn)).insert(key@, self.entries(*final(txn))[key@])
                && entries_mut(*final(txn), self.entries(*final(txn))[key@]->YMap_0) == pairs_map(entries@),
    {
        map_insert_map(&self.map_ref, txn, key, entries);
    }

    /// Puts a new array node seeded with `values` under `key`.
    pub fn insert_array_with_txn(&self, txn: &mut TransactionMut, key: &str, values: Vec<Any>) -> (r: ArrayRefWrapper)
        requires
            self.in_doc(*old(txn)),
        ensures
            txn_doc(*final(txn)) == txn_doc(*old(txn)),
            !self.deleted(*old(txn)) ==> self.entries(*final(txn))
                == self.entries(*old(txn)).insert(key@, YrsValue::YArray(r.array_ref)),
            !self.deleted(*old(txn)) ==> array_items(*final(txn), r.array_ref) == scalars(values@),
            r.collab_ctx == self.ctx(),
    {
        let array = map_insert_array(&self.map_ref, txn, key, values);
        ArrayRefWrapper::new(array, self.collab_ctx.clone())
    }

    /// The array node under `key`; when there is none, a new one seeded with
    /// `values`. An existing array is returned untouched and `values` dropped.
    pub fn create_array_if_not_exist_with_txn(&self, txn: &mut TransactionMut, key: &str, values: Vec<Any>) -> (r: ArrayRefWrapper)
        requires
            self.in_doc(*old(txn)),
        ensures
            txn_doc(*final(txn)) == txn_doc(*old(txn)),
            create_array_post(*old(txn), *final(txn), self.node(), key@, values@, r.array_ref),
            r.collab_ctx == self.ctx(),
    {
        match self.get_array_ref_with_txn(txn, key) {
            Some(array) => array,
            None => self.insert_array_with_txn(txn, key, values),
        }
    }

    /// The map node under `key`; when there is none, a new empty one. An
    /// existing map is returned untouched.
    pub fn create_map_with_txn_if_not_exist(&self, txn: &mut TransactionMut, key: &str) -> (r: MapRefWrapper)
        requires
            self.in_doc(*old(txn)),
        ensures
            txn_doc(*final(txn)) == txn_doc(*old(txn)),
            create_map_post(*old(txn), *final(txn), self.node(), key@, r.node()),
            r.ctx() == self.ctx(),
            node_doc(r.node()) == node_doc(self.node()),
    {
        match self.get_map_with_txn(txn, key) {
            Some(map) => map,
            None => self.create_map_with_txn(txn, key),
        }
    }

    /// The array node under `key`; when there is none, a new empty one.
    pub fn get_or_insert_array_with_txn(&self, txn: &mut TransactionMut, key: &str) -> (r: ArrayRefWrapper)
        requires
            self.in_doc(*old(txn)),
        ensures
            txn_doc(*final(txn)) == txn_doc(*old(txn)),
            create_if_absent_post(*old(txn), *final(txn), self.node(), key@, NodeKind::YArray),
            holds(self.entries(*old(txn)), key@, NodeKind::YArray)
                ==> self.entries(*old(txn))[key@] == YrsValue::YArray(r.array_ref),
            !holds(self.entries(*old(txn)), key@, NodeKind::YArray) && !self.deleted(*old(txn))
                ==> self.entries(*final(txn)) == self.entries(*old(txn)).insert(key@, YrsValue::YArray(r.array_ref))
                && array_items(*final(txn), r.array_ref) == Seq::<YrsValue>::empty(),
            r.collab_ctx == self.ctx(),
    {
        match self.get_array_ref_with_txn(txn, key) {
            Some(array) => array,
            None => {
                let r = self.insert_array_with_txn(txn, key, Vec::new());
                assert(scalars(Seq::<Any>::empty()) =~= Seq::<YrsValue>::empty());
                r
            },
        }
    }

    /// Puts a new empty map node under `key`, replacing what was there.
    pub fn create_map_with_txn(&self, txn: &mut TransactionMut, key: &str) -> (r: MapRefWrapper)
        requires
            self.in_doc(*old(txn)),
        ensures
            txn_doc(*final(txn)) == txn_doc(*old(txn)),
            !self.deleted(*old(txn)) ==> self.entries(*final(txn))
                == self.entries(*old(txn)).insert(key@, YrsValue::YMap(r.node())),
            !self.deleted(*old(txn)) ==> r.entries(*final(txn)) == Map::<Seq<char>, YrsValue>::empty(),
            r.ctx() == self.ctx(),
            node_doc(r.node()) == node_doc(self.node()),
    {
        let map_ref = map_insert_map(&self.map_ref, txn, key, Vec::new());
        MapRefWrapper::new(map_ref, self.collab_ctx.clone())
    }

    /// The map node under `key`; none when the key is absent or holds
    /// anything other than a map.
    pub fn get_map_with_txn(&self, txn: &TransactionMut, key: &str) -> (r: Option<MapRefWrapper>)
        requires
            self.in_doc(*txn),
        ensures
            r is Some <==> holds(self.entries(*txn), key@, NodeKind::YMap),
            r matches Some(m) ==> self.entries(*txn)[key@] == YrsValue::YMap(m.node()) && m.ctx() == self.ctx()
                && node_doc(m.node()) == node_doc(self.node()),
    {
        match map_get_mut(&self.map_ref, txn, key) {
            Some(YrsValue::YMap(map_ref)) => Some(MapRefWrapper::new(map_ref, self.collab_ctx.clone())),
            _ => None,
        }
    }

    /// The map node under `key`, read through a read-only transaction; none
    /// when the key is absent or holds anything other than a map.
    pub fn get_map_with_read_txn(&self, txn: &Transaction, key: &str) -> (r: Option<MapRefWrapper>)
        requires
            self.in_read_doc(*txn),
        ensures
            r is Some <==> holds(entries_read(*txn, self.node()), key@, NodeKind::YMap),
            r matches Some(m) ==> entries_read(*txn, self.node())[key@] == YrsValue::YMap(m.node())
                && m.ctx() == self.ctx() && node_doc(m.node()) == node_doc(self.node()),
    {
        match map_get_read(&self.map_ref, txn, key) {
            Some(YrsValue::YMap(map_ref)) => Some(MapRefWrapper::new(map_ref, self.collab_ctx.clone())),
            _ => None,
        }
    }

    /// The array node under `key`; none when the key is absent or holds
    /// anything other than an array.
    pub fn get_array_ref_with_txn(&self, txn: &TransactionMut, key: &str) -> (r: Option<ArrayRefWrapper>)
        requires
            self.in_doc(*txn),
        ensures
            r is Some <==> holds(self.entries(*txn), key@, NodeKind::YArray),
            r matches Some(a) ==> self.entries(*txn)[key@] == YrsValue::YArray(a.array_ref)
                && a.collab_ctx == self.ctx(),
    {
        match map_get_mut(&self.map_ref, txn, key) {
            Some(YrsValue::YArray(array_ref)) => Some(ArrayRefWrapper::new(array_ref, self.collab_ctx.clone())),
            _ => None,
        }
    }

    /// The text node under `key`; none when the key is absent or holds
    /// anything other than a text.
    pub fn get_text_ref_with_txn(&self, txn: &TransactionMut, key: &str) -> (r: Option<TextRefWrapper>)
        requires
            self.in_doc(*txn),
        ensures
            r is Some <==> holds(self.entries(*txn), key@, NodeKind::YText),
            r matches Some(t) ==> self.entries(*txn)[key@] == YrsValue::YText(t.text_ref)
                && t.collab_ctx == self.ctx(),
    {
        match map_get_mut(&self.map_ref, txn, key) {
            Some(YrsValue::YText(text_ref)) => Some(TextRefWrapper::new(text_ref, self.collab_ctx.clone())),
            _ => None,
        }
    }

    /// Writes a structured value, given as its top-level fields, as a new map
    /// node under `key`, in a transaction of its own, as
    /// `insert_json_with_txn` does. `false` while another transaction is
    /// open, and nothing was written.
    pub fn insert_json(&self, key: &str, fields: Vec<(String, Any)>) -> (r: bool)
        requires
            self.wf(),
        ensures
            r ==> exists|t0: TransactionMut, t1: TransactionMut|
                #[trigger] wrote_map(t0, t1, self.node(), key@, fields@),
    {
        match self.collab_ctx.transact_mut() {
            Some(mut txn) => {
                let ghost t0 = txn;
                let ghost fs = fields@;
                self.insert_json_with_txn(&mut txn, key, fields);
                assert(wrote_map(t0, txn, self.node(), key@, fs));
                true
            },
            None => false,
        }
    }

    /// Writes a structured value, given as its top-level fields, as a new map
    /// node under `key` that holds exactly those fields, replacing what was
    /// there.
    pub fn insert_json_with_txn(&self, txn: &mut TransactionMut, key: &str, fields: Vec<(String, Any)>)
        requires
            self.in_doc(*old(txn)),
        ensures
            txn_doc(*final(txn)) == txn_doc(*old(txn)),
            !self.deleted(*old(txn)) ==> holds(self.entries(*final(txn)), key@, NodeKind::YMap)
                && self.entries(*final(txn)) == self.entries(*old(txn)).insert(key@, self.entries(*final(txn))[key@])
                && entries_mut(*final(txn), self.entries(*final(txn))[key@]->YMap_0) == pairs_map(fields@),
    {
        self.insert_map_with_txn(txn, key, fields);
    }

    /// The JSON projection of the map node under `key`, read in a fresh
    /// transaction as `get_json_with_txn` does; none while a read-write
    /// transaction is open.
    pub fn get_json(&self, key: &str) -> (r: Option<serde_json::Value>)
        requires
            self.wf(),
        ensures
            r matches Some(v) ==> exists|t: Transaction| #[trigger] json_under(t, self.node(), key@, v),
    {
        match self.collab_ctx.transact() {
            Some(txn) => {
                let r = self.get_json_with_txn(&txn, key);
                proof {
                    if r is Some {
                        assert(json_under(txn, self.node(), key@, r->Some_0));
                    }
                }
                r
            },
            None => None,
        }
    }

    /// The JSON projection of the map node under `key`; none when the key is
    /// absent or holds anything other than a map.
    pub fn get_json_with_txn(&self, txn: &Transaction, key: &str) -> (r: Option<serde_json::Value>)
        requires
            self.in_read_doc(*txn),
        ensures
            r == (if holds(entries_read(*txn, self.node()), key@, NodeKind::YMap) {
                Some(projection(*txn, entries_read(*txn, self.node())[key@]->YMap_0))
            } else {
                None
            }),
    {
        match self.get_map_with_read_txn(txn, key) {
            Some(map) => match map.to_json_value_with_txn(txn) {
                Ok(value) => Some(value),
                Err(_) => None,
            },
            None => None,
        }
    }

    /// A read-only transaction on the document of this handle.
    pub fn transact(&self) -> Option<Transaction<'_>> {
        self.collab_ctx.transact()
    }

    /// The whole subtree of this node as a JSON value: maps as objects,
    /// arrays as arrays, texts as strings, plain values as JSON scalars.
    /// Content with no JSON counterpart would be `Unsupported`; the engine's
    /// values all have one.
    pub fn to_json_value_with_txn(&self, txn: &Transaction) -> (r: Result<serde_json::Value, CollabError>)
        requires
            self.in_read_doc(*txn),
        ensures
            r matches Ok(v) && v == projection(*txn, self.node()),
    {
        match any_to_json_value(&map_to_json(&self.map_ref, txn)) {
            Ok(value) => Ok(value),
            Err(_) => Err(CollabError::Unsupported),
        }
    }

    /// The whole subtree of this node as JSON text: the text of
    /// `to_json_value_with_txn`'s value.
    pub fn to_json_str_with_txn(&self, txn: &Transaction) -> (r: Result<String, CollabError>)
        requires
            self.in_read_doc(*txn),
        ensures
            r matches Ok(s) && s@ == json_text(projection(*txn, self.node())),
    {
        match self.to_json_value_with_txn(txn) {
            Ok(value) => Ok(json_to_string(&value)),
            Err(e) => Err(e),
        }
    }

    /// The whole subtree of this node as JSON text, read in a fresh
    /// transaction; an error while a read-write transaction is open.
    pub fn to_json_str(&self) -> (r: Result<String, CollabError>)
        requires
            self.wf(),
        ensures
            r matches Err(e) ==> e == CollabError::TransactionUnavailable,
            r matches Ok(s) ==> exists|t: Transaction| #[trigger] projected(t, self.node(), projection(t, self.node()))
                && s@ == json_text(projection(t, self.node())),
    {
        match self.collab_ctx.transact() {
            Some(txn) => {
                let r = self.to_json_str_with_txn(&txn);
                assert(projected(txn, self.node(), projection(txn, self.node())));
                r
            },
            None => Err(CollabError::TransactionUnavailable),
        }
    }

    /// The whole subtree of this node as a JSON value, read in a fresh
    /// transaction; an error while a read-write transaction is open.
    pub fn to_json_value(&self) -> (r: Result<serde_json::Value, CollabError>)
        requires
            self.wf(),
        ensures
            r matches Err(e) ==> e == CollabError::TransactionUnavailable,
            r matches Ok(v) ==> exists|t: Transaction| #[trigger] projected(t, self.node(), v),
    {
        match self.collab_ctx.transact() {
            Some(txn) => {
                let r = self.to_json_value_with_txn(&txn);
                assert(projected(txn, self.node(), projection(txn, self.node())));
                r
            },
            None => Err(CollabError::TransactionUnavailable),
        }
    }
}

/// Creating a node under the same key of a live map node twice, whatever the
/// second call's defaults, leaves the transaction as the first call left it:
/// the second call changes nothing.
pub proof fn lemma_create_if_absent_idempotent(
    t0: TransactionMut,
    t1: TransactionMut,
    t2: TransactionMut,
    map: MapRef,
    key: Seq<char>,
    kind: NodeKind,
)
    requires
        !node_deleted(t0, map),
        create_if_absent_post(t0, t1, map, key, kind),
        create_if_absent_post(t1, t2, map, key, kind),
    ensures
        t2 == t1,
        entries_mut(t2, map) == entries_mut(t1, map),
{
    assert(holds(entries_mut(t1, map), key, kind));
}

/// Creating an array under the same key of a live map node twice, with any
/// two lists of defaults, gives the same node both times, and its elements
/// are those the array had before the first call, or else the first call's
/// defaults: the second call's defaults are dropped.
pub proof fn lemma_create_array_twice_keeps_first(
    t0: TransactionMut,
    t1: TransactionMut,
    t2: TransactionMut,
    map: MapRef,
    key: Seq<char>,
    first: Seq<Any>,
    second: Seq<Any>,
    a1: ArrayRef,
    a2: ArrayRef,
)
    requires
        !node_deleted(t0, map),
        create_array_post(t0, t1, map, key, first, a1),
        create_array_post(t1, t2, map, key, second, a2),
    ensures
        t2 == t1,
        a2 == a1,
        !holds(entries_mut(t0, map), key, NodeKind::YArray) ==> array_items(t2, a2) == scalars(first),
{
    assert(holds(entries_mut(t1, map), key, NodeKind::YArray));
    if holds(entries_mut(t0, map), key, NodeKind::YArray) {
        assert(t1 == t0);
    }
}

/// Creating a map under the same key of a live map node twice gives the same
/// node both times, and the second call changes nothing.
pub proof fn lemma_create_map_twice_same_node(
    t0: TransactionMut,
    t1: TransactionMut,
    t2: TransactionMut,
    map: MapRef,
    key: Seq<char>,
    m1: MapRef,
    m2: MapRef,
)
    requires
        !node_deleted(t0, map),
        create_map_post(t0, t1, map, key, m1),
        create_map_post(t1, t2, map, key, m2),
    ensures
        t2 == t1,
        m2 == m1,
        entries_mut(t2, m2) == entries_mut(t1, m1),
{
    assert(holds(entries_mut(t1, map), key, NodeKind::YMap));
    if holds(entries_mut(t0, map), key, NodeKind::YMap) {
        assert(t1 == t0);
    }
}

/// A key that holds no entry is found by none of the typed lookups, and a key
/// that holds an array, a text or a plain value is not found as a map.
pub proof fn lemma_absent_or_other_kind_is_not_a_map(entries: Map<Seq<char>, YrsValue>, key: Seq<char>)
    requires
        !entries.contains_key(key) || entries[key].kind() != NodeKind::YMap,
    ensures
        !holds(entries, key, NodeKind::YMap),
        !entries.contains_key(key) ==> !holds(entries, key, NodeKind::YArray)
            && !holds(entries, key, NodeKind::YText),
{
}

/// After an array is put under a key of a live map node, a map lookup of
/// that key finds nothing, and an array lookup finds it.
pub proof fn lemma_array_is_not_read_as_map(
    t0: TransactionMut,
    t1: TransactionMut,
    map: MapRef,
    key: Seq<char>,
    array: ArrayRef,
)
    requires
        !node_deleted(t0, map),
        entries_mut(t1, map) == entries_mut(t0, map).insert(key, YrsValue::YArray(array)),
    ensures
        !holds(entries_mut(t1, map), key, NodeKind::YMap),
        holds(entries_mut(t1, map), key, NodeKind::YArray),
{
}

} // verus!
