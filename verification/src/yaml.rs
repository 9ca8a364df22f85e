//! Hierarchical configuration documents: a tree of scalar strings and
//! string-keyed mappings, with idempotent path insertion and flattening
//! to dotted keys.
//!
//! Mappings keep insertion order for display; lookups go by key, and an
//! insertion under an existing key overwrites that entry in place (last
//! write wins) without touching its siblings.

use vstd::prelude::*;
use vstd::string::StringExecFns;

use crate::errors::UtilError;
use crate::script::str_views;

verus! {

broadcast use {vstd::seq::group_seq_axioms, vstd::std_specs::vec::group_vec_axioms};

/// One node of a document: a scalar string, or an ordered mapping from
/// string keys to child nodes.
pub enum Value {
    Scalar(String),
    Mapping(Vec<(String, Value)>),
}

/// The mathematical shape of a node.
pub enum ValueView {
    Scalar(Seq<char>),
    Mapping(Seq<(Seq<char>, ValueView)>),
}

impl DeepView for Value {
    type V = ValueView;

    open spec fn deep_view(&self) -> ValueView
        decreases self, 0int,
    {
        match self {
            Value::Scalar(s) => ValueView::Scalar(s@),
            Value::Mapping(entries) => ValueView::Mapping(entry_views(entries@)),
        }
    }
}

/// The views of a mapping's entries.
pub open spec fn entry_views(v: Seq<(String, Value)>) -> Seq<(Seq<char>, ValueView)>
    decreases v, v.len() + 1,
{
    entry_views_upto(v, v.len() as int)
}

pub open spec fn entry_views_upto(v: Seq<(String, Value)>, i: int) -> Seq<(Seq<char>, ValueView)>
    decreases v, i,
{
    if i <= 0 || i > v.len() {
        Seq::empty()
    } else {
        entry_views_upto(v, i - 1).push((v[i - 1].0@, v[i - 1].1.deep_view()))
    }
}

proof fn lemma_entry_views_upto_props(v: Seq<(String, Value)>, i: int)
    requires
        0 <= i <= v.len(),
    ensures
        entry_views_upto(v, i).len() == i,
        forall|j: int| 0 <= j < i ==> entry_views_upto(v, i)[j] == (v[j].0@, v[j].1.deep_view()),
    decreases i,
{
    if i > 0 {
        lemma_entry_views_upto_props(v, i - 1);
        assert(entry_views_upto(v, i) == entry_views_upto(v, i - 1).push(
            (v[i - 1].0@, v[i - 1].1.deep_view()),
        ));
    }
}

/// A mapping's views have one entry per entry.
pub broadcast proof fn lemma_entry_views_len(v: Seq<(String, Value)>)
    ensures
        #[trigger] entry_views(v).len() == v.len(),
{
    lemma_entry_views_upto_props(v, v.len() as int);
}

/// Each view entry is the view of its entry.
pub broadcast proof fn lemma_entry_views_index(v: Seq<(String, Value)>, j: int)
    requires
        0 <= j < v.len(),
    ensures
        #[trigger] entry_views(v)[j] == (v[j].0@, v[j].1.deep_view()),
{
    lemma_entry_views_upto_props(v, v.len() as int);
}

/// The two facts above, for use together.
pub broadcast group group_entry_views {
    lemma_entry_views_len,
    lemma_entry_views_index,
}

/// The value under `k`, going by the first entry with that key.
pub open spec fn map_lookup(m: Seq<(Seq<char>, ValueView)>, k: Seq<char>) -> Option<ValueView>
    decreases m.len(),
{
    if m.len() == 0 {
        None
    } else if m[0].0 == k {
        Some(m[0].1)
    } else {
        map_lookup(m.skip(1), k)
    }
}

/// Insertion with overwrite: the first entry under `k` is replaced in
/// place, keeping its position and its siblings; a new key is appended.
pub open spec fn map_upsert(
    m: Seq<(Seq<char>, ValueView)>,
    k: Seq<char>,
    v: ValueView,
) -> Seq<(Seq<char>, ValueView)>
    decreases m.len(),
{
    if m.len() == 0 {
        seq![(k, v)]
    } else if m[0].0 == k {
        seq![(k, v)] + m.skip(1)
    } else {
        seq![m[0]] + map_upsert(m.skip(1), k, v)
    }
}

proof fn lemma_map_lookup_hit(m: Seq<(Seq<char>, ValueView)>, k: Seq<char>, idx: int)
    requires
        0 <= idx < m.len(),
        m[idx].0 == k,
        forall|j: int| 0 <= j < idx ==> m[j].0 != k,
    ensures
        map_lookup(m, k) == Some(m[idx].1),
    decreases idx,
{
    if idx > 0 {
        lemma_map_lookup_hit(m.skip(1), k, idx - 1);
    }
}

proof fn lemma_map_lookup_miss(m: Seq<(Seq<char>, ValueView)>, k: Seq<char>)
    requires
        forall|j: int| 0 <= j < m.len() ==> m[j].0 != k,
    ensures
        map_lookup(m, k) is None,
    decreases m.len(),
{
    if m.len() > 0 {
        lemma_map_lookup_miss(m.skip(1), k);
    }
}

proof fn lemma_map_upsert_hit(m: Seq<(Seq<char>, ValueView)>, k: Seq<char>, v: ValueView, idx: int)
    requires
        0 <= idx < m.len(),
        m[idx].0 == k,
        forall|j: int| 0 <= j < idx ==> m[j].0 != k,
    ensures
        map_upsert(m, k, v) == m.update(idx, (k, v)),
    decreases idx,
{
    if idx == 0 {
        assert(map_upsert(m, k, v) =~= m.update(0, (k, v)));
    } else {
        lemma_map_upsert_hit(m.skip(1), k, v, idx - 1);
        assert(seq![m[0]] + m.skip(1).update(idx - 1, (k, v)) =~= m.update(idx, (k, v)));
    }
}

proof fn lemma_map_upsert_miss(m: Seq<(Seq<char>, ValueView)>, k: Seq<char>, v: ValueView)
    requires
        forall|j: int| 0 <= j < m.len() ==> m[j].0 != k,
    ensures
        map_upsert(m, k, v) == m.push((k, v)),
    decreases m.len(),
{
    if m.len() == 0 {
        assert(map_upsert(m, k, v) =~= m.push((k, v)));
    } else {
        lemma_map_upsert_miss(m.skip(1), k, v);
        assert(seq![m[0]] + m.skip(1).push((k, v)) =~= m.push((k, v)));
    }
}

impl Clone for Value {
    /// A structural copy with the same shape.
    fn clone(&self) -> (r: Value)
        ensures
            r.deep_view() == self.deep_view(),
        decreases self,
    {
        broadcast use group_entry_views;

        match self {
            Value::Scalar(s) => Value::Scalar(s.clone()),
            Value::Mapping(entries) => {
                let mut out: Vec<(String, Value)> = Vec::new();
                let mut i: usize = 0;
                while i < entries.len()
                    invariant
                        i <= entries@.len(),
                        out@.len() == i as int,
                        *self == Value::Mapping(*entries),
                        entry_views(out@) =~= entry_views(entries@).take(i as int),
                    decreases entries@.len() - i,
                {
                    let ghost pre = out@;
                    proof {
                        assert(decreases_to!(*self => self->Mapping_0));
                        assert(decreases_to!(self->Mapping_0 => self->Mapping_0@));
                        assert(decreases_to!(self->Mapping_0@ => self->Mapping_0@[i as int]));
                        assert(decreases_to!(self->Mapping_0@[i as int] => self->Mapping_0@[
                            i as int
                        ].1));
                        assert(decreases_to!(*self => entries@[i as int].1));
                    }
                    out.push((entries[i].0.clone(), entries[i].1.clone()));
                    proof {
                        assert forall|j: int| 0 <= j < out@.len() implies entry_views(out@)[j]
                            == entry_views(entries@).take(i + 1)[j] by {
                            lemma_entry_views_len(pre);
                            lemma_entry_views_len(out@);
                            lemma_entry_views_len(entries@);
                            lemma_entry_views_index(out@, j);
                            lemma_entry_views_index(entries@, j);
                            if j < i as int {
                                lemma_entry_views_index(pre, j);
                                assert(entry_views(pre)[j] == entry_views(entries@).take(
                                    i as int,
                                )[j]);
                            } else {
                                assert(out@[j].0@ == entries@[j].0@);
                                assert(out@[j].1.deep_view() == entries@[j].1.deep_view());
                            }
                        }
                        lemma_entry_views_len(out@);
                        lemma_entry_views_len(entries@);
                        assert(entry_views(out@) =~= entry_views(entries@).take(i + 1));
                    }
                    i = i + 1;
                }
                proof {
                    assert(entry_views(entries@).take(entries@.len() as int) =~= entry_views(
                        entries@,
                    ));
                    assert(Value::Mapping(out).deep_view() == self.deep_view());
                }
                Value::Mapping(out)
            },
        }
    }
}

/// First entry whose key equals `key`.
fn entry_index(entries: &Vec<(String, Value)>, key: &str) -> (r: Option<usize>)
    ensures
        r matches Some(i) ==> i < entries@.len() && map_lookup(entry_views(entries@), key@)
            == Some(entries@[i as int].1.deep_view()) && entries@[i as int].0@ == key@ && (forall|
            j: int,
        | 0 <= j < i ==> entry_views(entries@)[j].0 != key@),
        r is None ==> map_lookup(entry_views(entries@), key@) is None && (forall|j: int|
            0 <= j < entries@.len() ==> entry_views(entries@)[j].0 != key@),
{
    broadcast use group_entry_views;

    let mut i: usize = 0;
    while i < entries.len()
        invariant
            i <= entries@.len(),
            forall|j: int| 0 <= j < i ==> entry_views(entries@)[j].0 != key@,
        decreases entries@.len() - i,
    {
        if crate::chars::str_eq(entries[i].0.as_str(), key) {
            proof {
                lemma_entry_views_len(entries@);
                lemma_entry_views_index(entries@, i as int);
                lemma_map_lookup_hit(entry_views(entries@), key@, i as int);
            }
            return Some(i);
        }
        proof {
            lemma_entry_views_index(entries@, i as int);
        }
        i = i + 1;
    }
    proof {
        lemma_map_lookup_miss(entry_views(entries@), key@);
    }
    None
}

/// Insert with overwrite, as the executable mapping does it.
fn upsert_entry(entries: &mut Vec<(String, Value)>, key: String, val: Value)
    ensures
        entry_views(final(entries)@) == map_upsert(
            entry_views(old(entries)@),
            key@,
            val.deep_view(),
        ),
{
    broadcast use group_entry_views;

    let ghost m = entry_views(old(entries)@);
    let ghost kv = key@;
    let ghost vv = val.deep_view();
    let found = entry_index(entries, key.as_str());
    match found {
        Some(i) => {
            let _ = entries.remove(i);
            entries.insert(i, (key, val));
            proof {
                lemma_map_upsert_hit(m, kv, vv, i as int);
                assert(entry_views(entries@) =~= m.update(i as int, (kv, vv)));
            }
        },
        None => {
            entries.push((key, val));
            proof {
                lemma_map_upsert_miss(m, kv, vv);
                assert(entry_views(entries@) =~= m.push((kv, vv)));
            }
        },
    }
}

/// Clone a mapping's entry list.
fn clone_entries(entries: &Vec<(String, Value)>) -> (r: Vec<(String, Value)>)
    ensures
        entry_views(r@) == entry_views(entries@),
{
    broadcast use group_entry_views;

    let mut out: Vec<(String, Value)> = Vec::new();
    let mut i: usize = 0;
    while i < entries.len()
        invariant
            i <= entries@.len(),
            out@.len() == i as int,
            entry_views(out@) =~= entry_views(entries@).take(i as int),
        decreases entries@.len() - i,
    {
        let ghost pre = out@;
        out.push((entries[i].0.clone(), entries[i].1.clone()));
        proof {
            assert forall|j: int| 0 <= j < out@.len() implies entry_views(out@)[j] == entry_views(
                entries@,
            ).take(i + 1)[j] by {
                lemma_entry_views_len(pre);
                lemma_entry_views_len(out@);
                lemma_entry_views_len(entries@);
                lemma_entry_views_index(out@, j);
                lemma_entry_views_index(entries@, j);
                if j < i as int {
                    lemma_entry_views_index(pre, j);
                    assert(entry_views(pre)[j] == entry_views(entries@).take(i as int)[j]);
                } else {
                    assert(out@[j].0@ == entries@[j].0@);
                    assert(out@[j].1.deep_view() == entries@[j].1.deep_view());
                }
            }
            lemma_entry_views_len(out@);
            lemma_entry_views_len(entries@);
            assert(entry_views(out@) =~= entry_views(entries@).take(i + 1));
        }
        i = i + 1;
    }
    proof {
        assert(entry_views(entries@).take(entries@.len() as int) =~= entry_views(entries@));
    }
    out
}

/// The chain of fresh single-entry mappings for the missing tail of a
/// path, ending in `{k: v}`.
pub open spec fn synthesized_chain(
    path: Seq<Seq<char>>,
    i: int,
    k: Seq<char>,
    v: ValueView,
) -> ValueView
    decreases path.len() - i,
{
    if i < 0 || i >= path.len() {
        ValueView::Mapping(seq![(k, v)])
    } else {
        ValueView::Mapping(seq![(path[i], synthesized_chain(path, i + 1, k, v))])
    }
}

/// One patch of a document: walk `path` from entry `i`, descend into
/// existing mappings, synthesize the missing tail, and set `k` to `v`
/// in the mapping at the end of the path.  `None` means the walk met a
/// non-mapping node where a mapping was required.
pub open spec fn doc_insert(
    node: ValueView,
    path: Seq<Seq<char>>,
    i: int,
    k: Seq<char>,
    v: ValueView,
) -> Option<ValueView>
    decreases path.len() - i,
{
    match node {
        ValueView::Scalar(_) => None,
        ValueView::Mapping(m) => if i < 0 || i >= path.len() {
            Some(ValueView::Mapping(map_upsert(m, k, v)))
        } else {
            match map_lookup(m, path[i]) {
                None => Some(
                    ValueView::Mapping(
                        map_upsert(m, path[i], synthesized_chain(path, i + 1, k, v)),
                    ),
                ),
                Some(child) => match doc_insert(child, path, i + 1, k, v) {
                    None => None,
                    Some(c2) => Some(ValueView::Mapping(map_upsert(m, path[i], c2))),
                },
            }
        },
    }
}

/// Build the missing tail of a path as nested single-entry mappings.
fn synthesized(keys: &Vec<String>, i: usize, k: &str, v: &str) -> (r: Value)
    requires
        i <= keys@.len(),
    ensures
        r.deep_view() == synthesized_chain(
            str_views(keys@),
            i as int,
            k@,
            ValueView::Scalar(v@),
        ),
    decreases keys@.len() - i,
{
    let mut entries: Vec<(String, Value)> = Vec::new();
    if i == keys.len() {
        entries.push((k.to_owned(), Value::Scalar(v.to_owned())));
        proof {
            lemma_entry_views_len(entries@);
            lemma_entry_views_index(entries@, 0);
            assert(entry_views(entries@) =~= seq![(k@, ValueView::Scalar(v@))]);
        }
    } else {
        let child = synthesized(keys, i + 1, k, v);
        let ghost cw = child.deep_view();
        entries.push((keys[i].clone(), child));
        proof {
            lemma_entry_views_len(entries@);
            lemma_entry_views_index(entries@, 0);
            assert(entry_views(entries@) =~= seq![(str_views(keys@)[i as int], cw)]);
        }
    }
    Value::Mapping(entries)
}

/// The document after the patch, built fresh.
fn inserted(node: &Value, keys: &Vec<String>, i: usize, k: &str, v: &str) -> (r: Result<
    Value,
    UtilError,
>)
    requires
        i <= keys@.len(),
    ensures
        match doc_insert(node.deep_view(), str_views(keys@), i as int, k@, ValueView::Scalar(v@)) {
            Some(nv) => r matches Ok(x) && x.deep_view() == nv,
            None => r == Err::<Value, UtilError>(UtilError::StructureMismatch),
        },
    decreases keys@.len() - i,
{
    match node {
        Value::Scalar(_) => Err(UtilError::StructureMismatch),
        Value::Mapping(entries) => {
            if i == keys.len() {
                let mut out = clone_entries(entries);
                upsert_entry(&mut out, k.to_owned(), Value::Scalar(v.to_owned()));
                Ok(Value::Mapping(out))
            } else {
                match entry_index(entries, keys[i].as_str()) {
                    None => {
                        let chain = synthesized(keys, i + 1, k, v);
                        let mut out = clone_entries(entries);
                        upsert_entry(&mut out, keys[i].clone(), chain);
                        Ok(Value::Mapping(out))
                    },
                    Some(ix) => {
                        match inserted(&entries[ix].1, keys, i + 1, k, v) {
                            Err(e) => Err(e),
                            Ok(child2) => {
                                let mut out = clone_entries(entries);
                                upsert_entry(&mut out, keys[i].clone(), child2);
                                Ok(Value::Mapping(out))
                            },
                        }
                    },
                }
            }
        },
    }
}

/// Patch the document: look up `keys` in order from the root,
/// synthesize the part of the path that does not exist yet, and insert
/// `ins_key -> ins_value` in the mapping so reached, overwriting any
/// existing value under that key.  Fails with `StructureMismatch`, and
/// leaves the document unchanged, exactly when the walk meets a
/// non-mapping node.
pub fn insert_value(val: &mut Value, keys: &Vec<String>, ins_key: &str, ins_value: &str) -> (r:
    Result<(), UtilError>)
    ensures
        match doc_insert(
            old(val).deep_view(),
            str_views(keys@),
            0,
            ins_key@,
            ValueView::Scalar(ins_value@),
        ) {
            Some(nv) => r == Ok::<(), UtilError>(()) && final(val).deep_view() == nv,
            None => r == Err::<(), UtilError>(UtilError::StructureMismatch)
                && final(val).deep_view() == old(val).deep_view(),
        },
{
    match inserted(val, keys, 0, ins_key, ins_value) {
        Ok(nv) => {
            *val = nv;
            Ok(())
        },
        Err(e) => Err(e),
    }
}

/// The node at the end of a full walk of `path`, or `None` when a key
/// is absent or a non-mapping node is met before the path ends.
pub open spec fn doc_lookup(node: ValueView, path: Seq<Seq<char>>, i: int) -> Option<ValueView>
    decreases path.len() - i,
{
    if i < 0 || i > path.len() {
        None
    } else if i == path.len() {
        Some(node)
    } else {
        match node {
            ValueView::Scalar(_) => None,
            ValueView::Mapping(m) => match map_lookup(m, path[i]) {
                None => None,
                Some(child) => doc_lookup(child, path, i + 1),
            },
        }
    }
}

fn lookup_rec<'a>(node: &'a Value, keys: &Vec<String>, i: usize) -> (r: Result<
    &'a Value,
    UtilError,
>)
    requires
        i <= keys@.len(),
    ensures
        match doc_lookup(node.deep_view(), str_views(keys@), i as int) {
            Some(nv) => r matches Ok(x) && x.deep_view() == nv,
            None => r == Err::<&'a Value, UtilError>(UtilError::StructureMismatch),
        },
    decreases keys@.len() - i,
{
    if i == keys.len() {
        Ok(node)
    } else {
        match node {
            Value::Scalar(_) => Err(UtilError::StructureMismatch),
            Value::Mapping(entries) => {
                match entry_index(entries, keys[i].as_str()) {
                    None => Err(UtilError::StructureMismatch),
                    Some(ix) => lookup_rec(&entries[ix].1, keys, i + 1),
                }
            },
        }
    }
}

/// Follow `keys` from the root and hand back the node found there.
/// Fails with `StructureMismatch` when a key is absent or a
/// non-mapping node is met on the way.
pub fn get_mapped_value<'a>(val: &'a Value, keys: &Vec<String>) -> (r: Result<
    &'a Value,
    UtilError,
>)
    ensures
        match doc_lookup(val.deep_view(), str_views(keys@), 0) {
            Some(nv) => r matches Ok(x) && x.deep_view() == nv,
            None => r == Err::<&'a Value, UtilError>(UtilError::StructureMismatch),
        },
{
    lookup_rec(val, keys, 0)
}

/// A parent key joined to a child key with a dot.
pub open spec fn dotted(parent: Seq<char>, child: Seq<char>) -> Seq<char> {
    parent + seq!['.'] + child
}

/// Re-key each of `items` under its parent key and lay them onto
/// `base` in order, last write winning.
pub open spec fn upsert_dotted_all(
    base: Seq<(Seq<char>, ValueView)>,
    parent: Seq<char>,
    items: Seq<(Seq<char>, ValueView)>,
) -> Seq<(Seq<char>, ValueView)>
    decreases items.len(),
{
    if items.len() == 0 {
        base
    } else {
        upsert_dotted_all(
            map_upsert(base, dotted(parent, items[0].0), items[0].1),
            parent,
            items.skip(1),
        )
    }
}

/// The flat mapping the first `i` entries of `m` produce: a mapping
/// child is flattened first and its entries re-keyed as
/// `parent.child`; a scalar child is copied as is; collisions are
/// resolved last-write-wins in traversal order.
pub open spec fn flat_acc(m: Seq<(Seq<char>, ValueView)>, i: int) -> Seq<(Seq<char>, ValueView)>
    decreases m, i,
{
    if i <= 0 || i > m.len() {
        Seq::empty()
    } else {
        let prev = flat_acc(m, i - 1);
        match m[i - 1].1 {
            ValueView::Scalar(_) => map_upsert(prev, m[i - 1].0, m[i - 1].1),
            ValueView::Mapping(_) => match flattened(m[i - 1].1) {
                ValueView::Mapping(im) => upsert_dotted_all(prev, m[i - 1].0, im),
                ValueView::Scalar(_) => prev,
            },
        }
    }
}

/// The whole document flattened; a non-mapping root is unchanged.
pub open spec fn flattened(v: ValueView) -> ValueView
    decreases v, 0int,
{
    match v {
        ValueView::Scalar(_) => v,
        ValueView::Mapping(m) => ValueView::Mapping(flat_acc(m, m.len() as int)),
    }
}

/// Join a parent and a child key with a dot.
fn dotted_key(parent: &String, child: &String) -> (r: String)
    ensures
        r@ == dotted(parent@, child@),
{
    let mut s = parent.clone();
    s.append(".");
    s.append(child.as_str());
    proof {
        reveal_strlit(".");
        assert("."@ =~= seq!['.']);
        assert(s@ =~= dotted(parent@, child@));
    }
    s
}

/// Flatten every mapping-valued child into the root mapping, re-keying
/// each of that child's entries as `parent.child`; scalar entries are
/// copied as they are; a non-mapping root is returned unchanged.  Key
/// collisions are resolved last-write-wins in traversal order.
pub fn flatten_yaml(doc: &Value) -> (r: Value)
    ensures
        r.deep_view() == flattened(doc.deep_view()),
        doc.deep_view() is Scalar ==> r.deep_view() == doc.deep_view(),
    decreases doc,
{
    broadcast use group_entry_views;

    match doc {
        Value::Scalar(s) => Value::Scalar(s.clone()),
        Value::Mapping(entries) => {
            let ghost mv = entry_views(entries@);
            let mut result: Vec<(String, Value)> = Vec::new();
            let mut i: usize = 0;
            while i < entries.len()
                invariant
                    i <= entries@.len(),
                    *doc == Value::Mapping(*entries),
                    mv == entry_views(entries@),
                    entry_views(result@) == flat_acc(mv, i as int),
                decreases entries@.len() - i,
            {
                proof {
                    lemma_entry_views_len(entries@);
                    lemma_entry_views_index(entries@, i as int);
                }
                match &entries[i].1 {
                    Value::Scalar(sv) => {
                        let key = entries[i].0.clone();
                        let val = Value::Scalar(sv.clone());
                        upsert_entry(&mut result, key, val);
                        proof {
                            assert(entry_views(result@) == flat_acc(mv, i + 1));
                        }
                    },
                    Value::Mapping(_) => {
                        proof {
                            assert(decreases_to!(*doc => doc->Mapping_0));
                            assert(decreases_to!(doc->Mapping_0 => doc->Mapping_0@));
                            assert(decreases_to!(doc->Mapping_0@ => doc->Mapping_0@[i as int]));
                            assert(decreases_to!(doc->Mapping_0@[i as int] => doc->Mapping_0@[
                                i as int
                            ].1));
                            assert(decreases_to!(*doc => entries@[i as int].1));
                        }
                        let inner = flatten_yaml(&entries[i].1);
                        let parent = entries[i].0.clone();
                        match inner {
                            Value::Mapping(mut inner_entries) => {
                                proof {
                                    lemma_entry_views_len(inner_entries@);
                                    assert(upsert_dotted_all(
                                        entry_views(result@),
                                        parent@,
                                        entry_views(inner_entries@),
                                    ) == flat_acc(mv, i + 1));
                                }
                                while inner_entries.len() > 0
                                    invariant
                                        upsert_dotted_all(
                                            entry_views(result@),
                                            parent@,
                                            entry_views(inner_entries@),
                                        ) == flat_acc(mv, i + 1),
                                    decreases inner_entries@.len(),
                                {
                                    let ghost pre_inner = inner_entries@;
                                    let pair = inner_entries.remove(0);
                                    let ghost pk = pair.0@;
                                    let ghost pv = pair.1.deep_view();
                                    let key = dotted_key(&parent, &pair.0);
                                    proof {
                                        lemma_entry_views_len(pre_inner);
                                        lemma_entry_views_len(inner_entries@);
                                        lemma_entry_views_index(pre_inner, 0);
                                        assert forall|j: int|
                                            0 <= j < inner_entries@.len() implies entry_views(
                                            inner_entries@,
                                        )[j] == entry_views(pre_inner).skip(1)[j] by {
                                            lemma_entry_views_index(inner_entries@, j);
                                            lemma_entry_views_index(pre_inner, j + 1);
                                        }
                                        assert(entry_views(inner_entries@) =~= entry_views(
                                            pre_inner,
                                        ).skip(1));
                                    }
                                    upsert_entry(&mut result, key, pair.1);
                                }
                                proof {
                                    lemma_entry_views_len(inner_entries@);
                                    assert(entry_views(inner_entries@) =~= Seq::empty());
                                }
                            },
                            Value::Scalar(_) => {
                                proof {
                                    assert(false);
                                }
                            },
                        }
                    },
                }
                i = i + 1;
            }
            proof {
                lemma_entry_views_len(entries@);
            }
            Value::Mapping(result)
        },
    }
}


} // verus!
