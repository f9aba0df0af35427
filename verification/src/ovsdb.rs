//! The global configuration of the virtual switch's database, and its merge.
//!
//! A map of the database is held as a list of entries in the order of their
//! keys. In that order no key occurs twice, and two maps that hold the same
//! are the same list.

use crate::error::{ErrorKind, NmstateError};
use crate::model::{opt_view, views};
use crate::ovn::{mappings_text, MergedOvnConfiguration, OvnBridgeMappingView, OvnConfiguration};
use crate::text::{
    clone_opt_text, lemma_text_lt_irreflexive, lemma_text_lt_transitive, text_lt, text_order,
    TextOrder,
};
use vstd::prelude::*;
use vstd::string::StringExecFns;

verus! {

/// The mathematical value of an [`OvsDbEntry`].
pub struct OvsDbEntryView {
    pub key: Seq<char>,
    pub value: Option<Seq<char>>,
}

/// One key of a map of the database. In a desired state, a key without a
/// value asks for the removal of the key.
#[derive(Debug, PartialEq, Eq)]
pub struct OvsDbEntry {
    pub key: String,
    pub value: Option<String>,
}

impl View for OvsDbEntry {
    type V = OvsDbEntryView;

    open spec fn view(&self) -> OvsDbEntryView {
        OvsDbEntryView { key: self.key@, value: opt_view(self.value) }
    }
}

impl Clone for OvsDbEntry {
    fn clone(&self) -> (r: Self)
        ensures
            r@ == self@,
    {
        OvsDbEntry { key: self.key.clone(), value: clone_opt_text(&self.value) }
    }
}

/// The entries stand in the order of their keys. No key occurs twice then.
pub open spec fn sorted_by_key(s: Seq<OvsDbEntryView>) -> bool {
    forall|i: int, j: int|
        0 <= i < j < s.len() ==> text_lt((#[trigger] s[i]).key, (#[trigger] s[j]).key)
}

/// Some entry has the key.
pub open spec fn has_key(s: Seq<OvsDbEntryView>, k: Seq<char>) -> bool {
    exists|i: int| 0 <= i < s.len() && (#[trigger] s[i]).key == k
}

/// The map that a list of entries stands for: each key of an entry, with the
/// value of its entry.
pub open spec fn map_of(s: Seq<OvsDbEntryView>) -> Map<Seq<char>, Option<Seq<char>>> {
    Map::new(
        |k: Seq<char>| has_key(s, k),
        |k: Seq<char>| s[choose|i: int| 0 <= i < s.len() && (#[trigger] s[i]).key == k].value,
    )
}

/// In a list in the order of its keys, two entries have two keys.
pub proof fn lemma_keys_differ(s: Seq<OvsDbEntryView>, i: int, j: int)
    requires
        sorted_by_key(s),
        0 <= i < s.len(),
        0 <= j < s.len(),
        i != j,
    ensures
        s[i].key != s[j].key,
{
    lemma_text_lt_irreflexive(s[i].key);
    if i < j {
        assert(text_lt(s[i].key, s[j].key));
    } else {
        assert(text_lt(s[j].key, s[i].key));
    }
}

/// The map of a list in the order of its keys holds each entry of the list.
pub proof fn lemma_map_of_at(s: Seq<OvsDbEntryView>, i: int)
    requires
        sorted_by_key(s),
        0 <= i < s.len(),
    ensures
        map_of(s).contains_key(s[i].key),
        map_of(s)[s[i].key] == s[i].value,
{
    let c = choose|j: int| 0 <= j < s.len() && (#[trigger] s[j]).key == s[i].key;
    if c != i {
        lemma_keys_differ(s, c, i);
    }
}

/// An entry that is put where its key belongs leaves the list in order.
pub proof fn lemma_insert_keeps_order(s: Seq<OvsDbEntryView>, p: int, e: OvsDbEntryView)
    requires
        sorted_by_key(s),
        0 <= p <= s.len(),
        forall|i: int| 0 <= i < p ==> text_lt((#[trigger] s[i]).key, e.key),
        p < s.len() ==> text_lt(e.key, s[p].key),
    ensures
        sorted_by_key(s.insert(p, e)),
{
    let t = s.insert(p, e);
    s.insert_ensures(p, e);
    assert forall|i: int, j: int| 0 <= i < j < t.len() implies text_lt(
        (#[trigger] t[i]).key,
        (#[trigger] t[j]).key,
    ) by {
        if j < p {
            assert(t[i] == s[i] && t[j] == s[j]);
        } else if j == p {
            assert(t[i] == s[i]);
        } else if i == p {
            assert(t[j] == s[j - 1]);
            if j - 1 > p {
                assert(text_lt(s[p].key, s[j - 1].key));
                lemma_text_lt_transitive(e.key, s[p].key, s[j - 1].key);
            }
        } else if i < p {
            assert(t[i] == s[i] && t[j] == s[j - 1]);
        } else {
            assert(t[i] == s[i - 1] && t[j] == s[j - 1]);
        }
    }
}

/// The map of a list with one entry more is the map with that entry more.
pub proof fn lemma_map_of_insert(s: Seq<OvsDbEntryView>, p: int, e: OvsDbEntryView)
    requires
        sorted_by_key(s),
        0 <= p <= s.len(),
        sorted_by_key(s.insert(p, e)),
    ensures
        map_of(s.insert(p, e)) == map_of(s).insert(e.key, e.value),
{
    let t = s.insert(p, e);
    let m = map_of(s).insert(e.key, e.value);
    s.insert_ensures(p, e);
    assert(t[p] == e);
    assert forall|k: Seq<char>| map_of(t).contains_key(k) <==> m.contains_key(k) by {
        if has_key(t, k) {
            let j = choose|j: int| 0 <= j < t.len() && (#[trigger] t[j]).key == k;
            if j < p {
                assert(s[j].key == k);
            } else if j > p {
                assert(t[j] == s[j - 1]);
                assert(s[j - 1].key == k);
            }
        }
        if has_key(s, k) {
            let i = choose|i: int| 0 <= i < s.len() && (#[trigger] s[i]).key == k;
            if i < p {
                assert(t[i].key == k);
            } else {
                assert(t[i + 1] == s[i]);
                assert(t[i + 1].key == k);
            }
        }
        if k == e.key {
            assert(t[p].key == k);
        }
    }
    assert forall|k: Seq<char>| map_of(t).contains_key(k) implies map_of(t)[k] == m[k] by {
        let j = choose|j: int| 0 <= j < t.len() && (#[trigger] t[j]).key == k;
        lemma_map_of_at(t, j);
        if j != p {
            lemma_keys_differ(t, j, p);
            let i = if j < p {
                j
            } else {
                j - 1
            };
            assert(t[j] == s[i]);
            lemma_map_of_at(s, i);
        }
    }
    assert(map_of(t) =~= m);
}

/// An entry that takes the place of the entry of its key leaves the list in
/// order, and its map is the map with that entry.
pub proof fn lemma_map_of_update(s: Seq<OvsDbEntryView>, p: int, e: OvsDbEntryView)
    requires
        sorted_by_key(s),
        0 <= p < s.len(),
        s[p].key == e.key,
    ensures
        sorted_by_key(s.update(p, e)),
        map_of(s.update(p, e)) == map_of(s).insert(e.key, e.value),
{
    let t = s.update(p, e);
    let m = map_of(s).insert(e.key, e.value);
    assert forall|i: int, j: int| 0 <= i < j < t.len() implies text_lt(
        (#[trigger] t[i]).key,
        (#[trigger] t[j]).key,
    ) by {
        assert(text_lt(s[i].key, s[j].key));
    }
    assert forall|k: Seq<char>| map_of(t).contains_key(k) <==> m.contains_key(k) by {
        if has_key(t, k) {
            let j = choose|j: int| 0 <= j < t.len() && (#[trigger] t[j]).key == k;
            assert(s[j].key == k);
        }
        if has_key(s, k) {
            let i = choose|i: int| 0 <= i < s.len() && (#[trigger] s[i]).key == k;
            assert(t[i].key == k);
        }
        if k == e.key {
            assert(t[p].key == k);
        }
    }
    assert forall|k: Seq<char>| map_of(t).contains_key(k) implies map_of(t)[k] == m[k] by {
        let j = choose|j: int| 0 <= j < t.len() && (#[trigger] t[j]).key == k;
        lemma_map_of_at(t, j);
        if j != p {
            lemma_keys_differ(t, j, p);
            assert(t[j] == s[j]);
            lemma_map_of_at(s, j);
        }
    }
    assert(map_of(t) =~= m);
}

/// A list without one of its entries is in order, and its map is the map
/// without the key of that entry.
pub proof fn lemma_map_of_remove(s: Seq<OvsDbEntryView>, p: int)
    requires
        sorted_by_key(s),
        0 <= p < s.len(),
    ensures
        sorted_by_key(s.remove(p)),
        map_of(s.remove(p)) == map_of(s).remove(s[p].key),
{
    let t = s.remove(p);
    let m = map_of(s).remove(s[p].key);
    s.remove_ensures(p);
    assert forall|i: int, j: int| 0 <= i < j < t.len() implies text_lt(
        (#[trigger] t[i]).key,
        (#[trigger] t[j]).key,
    ) by {
        let a = if i < p {
            i
        } else {
            i + 1
        };
        let b = if j < p {
            j
        } else {
            j + 1
        };
        assert(t[i] == s[a] && t[j] == s[b]);
        assert(text_lt(s[a].key, s[b].key));
    }
    assert forall|k: Seq<char>| map_of(t).contains_key(k) <==> m.contains_key(k) by {
        if has_key(t, k) {
            let j = choose|j: int| 0 <= j < t.len() && (#[trigger] t[j]).key == k;
            let a = if j < p {
                j
            } else {
                j + 1
            };
            assert(t[j] == s[a]);
            assert(s[a].key == k);
            lemma_keys_differ(s, a, p);
        }
        if has_key(s, k) && k != s[p].key {
            let i = choose|i: int| 0 <= i < s.len() && (#[trigger] s[i]).key == k;
            if i < p {
                assert(t[i] == s[i]);
                assert(t[i].key == k);
            } else {
                assert(t[i - 1] == s[i]);
                assert(t[i - 1].key == k);
            }
        }
    }
    assert forall|k: Seq<char>| map_of(t).contains_key(k) implies map_of(t)[k] == m[k] by {
        let j = choose|j: int| 0 <= j < t.len() && (#[trigger] t[j]).key == k;
        lemma_map_of_at(t, j);
        let a = if j < p {
            j
        } else {
            j + 1
        };
        assert(t[j] == s[a]);
        lemma_map_of_at(s, a);
        lemma_keys_differ(s, a, p);
    }
    assert(map_of(t) =~= m);
}

/// A map of the database: keys with their values, a key without a value
/// where a desired state asks for the removal of the key.
#[derive(Debug, PartialEq, Eq)]
pub struct OvsDbMap {
    entries: Vec<OvsDbEntry>,
}

impl View for OvsDbMap {
    type V = Map<Seq<char>, Option<Seq<char>>>;

    closed spec fn view(&self) -> Map<Seq<char>, Option<Seq<char>>> {
        map_of(views(self.entries@))
    }
}

impl Clone for OvsDbMap {
    fn clone(&self) -> (r: Self)
        ensures
            r@ == self@,
    {
        proof {
            use_type_invariant(self);
        }
        let mut c: Vec<OvsDbEntry> = Vec::new();
        let mut i: usize = 0;
        while i < self.entries.len()
            invariant
                i <= self.entries.len(),
                c@.len() == i,
                forall|k: int| 0 <= k < i ==> c@[k]@ == self.entries@[k]@,
            decreases self.entries.len() - i,
        {
            c.push(self.entries[i].clone());
            i += 1;
        }
        assert(views(c@) =~= views(self.entries@));
        OvsDbMap { entries: c }
    }
}

impl Default for OvsDbMap {
    fn default() -> (r: Self)
        ensures
            r@ == Map::<Seq<char>, Option<Seq<char>>>::empty(),
    {
        OvsDbMap::new()
    }
}

impl OvsDbMap {
    /// The entries stand in the order of their keys.
    #[verifier::type_invariant]
    closed spec fn in_order(self) -> bool {
        sorted_by_key(views(self.entries@))
    }

    /// The map without keys.
    pub fn new() -> (r: Self)
        ensures
            r@ == Map::<Seq<char>, Option<Seq<char>>>::empty(),
    {
        let r = OvsDbMap { entries: Vec::new() };
        assert(r@ =~= Map::<Seq<char>, Option<Seq<char>>>::empty());
        r
    }

    /// The entries of the map, in the order of their keys.
    pub fn entries(&self) -> (r: &Vec<OvsDbEntry>)
        ensures
            sorted_by_key(views(r@)),
            map_of(views(r@)) == self@,
    {
        proof {
            use_type_invariant(self);
        }
        &self.entries
    }

    /// Where the key stands, or would stand, among the entries, and whether
    /// it is there.
    fn position(&self, key: &str) -> (r: (usize, bool))
        ensures
            r.0 <= self.entries@.len(),
            forall|i: int| 0 <= i < r.0 ==> text_lt((#[trigger] self.entries@[i])@.key, key@),
            r.1 ==> r.0 < self.entries@.len() && self.entries@[r.0 as int]@.key == key@,
            !r.1 && r.0 < self.entries@.len() ==> text_lt(key@, self.entries@[r.0 as int]@.key),
    {
        let mut i: usize = 0;
        while i < self.entries.len()
            invariant
                i <= self.entries.len(),
                forall|k: int| 0 <= k < i ==> text_lt((#[trigger] self.entries@[k])@.key, key@),
            decreases self.entries.len() - i,
        {
            match text_order(self.entries[i].key.as_str(), key) {
                TextOrder::Before => {},
                TextOrder::Same => {
                    return (i, true);
                },
                TextOrder::After => {
                    return (i, false);
                },
            }
            i += 1;
        }
        (i, false)
    }

    /// The value of a key, where the map has the key.
    pub fn get(&self, key: &str) -> (r: Option<&Option<String>>)
        ensures
            match r {
                Some(v) => self@.contains_key(key@) && self@[key@] == opt_view(*v),
                None => !self@.contains_key(key@),
            },
    {
        proof {
            use_type_invariant(self);
        }
        let (p, found) = self.position(key);
        let ghost s = views(self.entries@);
        if found {
            proof {
                assert(s[p as int] == self.entries@[p as int]@);
                lemma_map_of_at(s, p as int);
            }
            Some(&self.entries[p].value)
        } else {
            proof {
                lemma_text_lt_irreflexive(key@);
                if has_key(s, key@) {
                    let i = choose|i: int| 0 <= i < s.len() && (#[trigger] s[i]).key == key@;
                    assert(s[i] == self.entries@[i]@);
                    if i >= p {
                        assert(s[p as int] == self.entries@[p as int]@);
                        if i > p {
                            assert(text_lt(s[p as int].key, s[i].key));
                            lemma_text_lt_transitive(key@, s[p as int].key, s[i].key);
                        }
                    }
                }
            }
            None
        }
    }

    /// Whether the map has the key.
    pub fn contains_key(&self, key: &str) -> (r: bool)
        ensures
            r == self@.contains_key(key@),
    {
        self.get(key).is_some()
    }

    /// Sets the value of a key, which the map has afterwards.
    pub fn insert(&mut self, key: String, value: Option<String>)
        ensures
            final(self)@ == old(self)@.insert(key@, opt_view(value)),
    {
        proof {
            use_type_invariant(&*self);
        }
        let (p, found) = self.position(key.as_str());
        let ghost s = views(self.entries@);
        let e = OvsDbEntry { key, value };
        proof {
            assert forall|i: int| 0 <= i < p implies text_lt((#[trigger] s[i]).key, e@.key) by {
                assert(s[i] == self.entries@[i]@);
            }
            if p < s.len() {
                assert(s[p as int] == self.entries@[p as int]@);
            }
        }
        let mut list: Vec<OvsDbEntry> = Vec::new();
        proof {
            assert(sorted_by_key(views(list@)));
        }
        core::mem::swap(&mut self.entries, &mut list);
        if found {
            proof {
                lemma_map_of_update(s, p as int, e@);
                assert(views(list@.update(p as int, e)) =~= s.update(p as int, e@));
            }
            list.set(p, e);
        } else {
            proof {
                lemma_insert_keeps_order(s, p as int, e@);
                lemma_map_of_insert(s, p as int, e@);
                s.insert_ensures(p as int, e@);
                list@.insert_ensures(p as int, e);
                assert(views(list@.insert(p as int, e)) =~= s.insert(p as int, e@));
            }
            list.insert(p, e);
        }
        self.entries = list;
    }

    /// Takes a key out of the map, if the map has it.
    pub fn remove(&mut self, key: &str)
        ensures
            final(self)@ == old(self)@.remove(key@),
    {
        proof {
            use_type_invariant(&*self);
        }
        let present = self.contains_key(key);
        let (p, found) = self.position(key);
        let ghost s = views(self.entries@);
        if found {
            proof {
                assert(s[p as int] == self.entries@[p as int]@);
                lemma_map_of_remove(s, p as int);
            }
            let mut list: Vec<OvsDbEntry> = Vec::new();
            proof {
                assert(sorted_by_key(views(list@)));
            }
            core::mem::swap(&mut self.entries, &mut list);
            proof {
                s.remove_ensures(p as int);
                list@.remove_ensures(p as int);
                assert(views(list@.remove(p as int)) =~= s.remove(p as int));
            }
            let _ = list.remove(p);
            self.entries = list;
        } else {
            proof {
                if present {
                    let i = choose|i: int| 0 <= i < s.len() && (#[trigger] s[i]).key == key@;
                    assert(s[i] == self.entries@[i]@);
                    lemma_text_lt_irreflexive(key@);
                    if i >= p {
                        assert(s[p as int] == self.entries@[p as int]@);
                        if i > p {
                            assert(text_lt(s[p as int].key, s[i].key));
                            lemma_text_lt_transitive(key@, s[p as int].key, s[i].key);
                        }
                    }
                }
                assert(map_of(s).remove(key@) =~= map_of(s));
            }
        }
    }
}

/// The map that an optional map stands for: the map without keys where
/// there is none.
pub open spec fn map_or_empty(o: Option<Map<Seq<char>, Option<Seq<char>>>>) -> Map<
    Seq<char>,
    Option<Seq<char>>,
> {
    match o {
        Some(m) => m,
        None => Map::empty(),
    }
}

/// The map of an optional map, the map without keys where there is none.
pub fn map_or_new(o: Option<OvsDbMap>) -> (r: OvsDbMap)
    ensures
        r@ == map_or_empty(opt_view(o)),
{
    match o {
        Some(m) => m,
        None => OvsDbMap::new(),
    }
}

/// The mathematical value of an [`OvsDbGlobalConfig`].
pub struct OvsDbGlobalConfigView {
    pub external_ids: Option<Map<Seq<char>, Option<Seq<char>>>>,
    pub other_config: Option<Map<Seq<char>, Option<Seq<char>>>>,
}

/// The global configuration of the virtual switch's database.
#[derive(Debug, PartialEq, Eq)]
pub struct OvsDbGlobalConfig {
    pub external_ids: Option<OvsDbMap>,
    pub other_config: Option<OvsDbMap>,
}

impl View for OvsDbGlobalConfig {
    type V = OvsDbGlobalConfigView;

    open spec fn view(&self) -> OvsDbGlobalConfigView {
        OvsDbGlobalConfigView {
            external_ids: opt_view(self.external_ids),
            other_config: opt_view(self.other_config),
        }
    }
}

impl Clone for OvsDbGlobalConfig {
    fn clone(&self) -> (r: Self)
        ensures
            r@ == self@,
    {
        let external_ids = match &self.external_ids {
            Some(m) => Some(m.clone()),
            None => None,
        };
        let other_config = match &self.other_config {
            Some(m) => Some(m.clone()),
            None => None,
        };
        OvsDbGlobalConfig { external_ids, other_config }
    }
}

impl Default for OvsDbGlobalConfig {
    fn default() -> (r: Self)
        ensures
            r@ == (OvsDbGlobalConfigView { external_ids: None, other_config: None }),
    {
        OvsDbGlobalConfig { external_ids: None, other_config: None }
    }
}

/// The merge of two maps. A key that the desired map gives a value has that
/// value. A key that it has without a value is gone. Every other key is as
/// the current map has it.
pub open spec fn merged_map(
    des: Map<Seq<char>, Option<Seq<char>>>,
    cur: Map<Seq<char>, Option<Seq<char>>>,
) -> Map<Seq<char>, Option<Seq<char>>> {
    Map::new(
        |k: Seq<char>|
            if des.contains_key(k) {
                des[k] is Some
            } else {
                cur.contains_key(k)
            },
        |k: Seq<char>|
            if des.contains_key(k) {
                des[k]
            } else {
                cur[k]
            },
    )
}

/// Merges a desired map with a current one.
pub fn merge_maps(des: &OvsDbMap, cur: OvsDbMap) -> (r: OvsDbMap)
    ensures
        r@ == merged_map(des@, cur@),
{
    let ghost c = cur@;
    let mut r = cur;
    let list = des.entries();
    let ghost s = views(list@);
    let mut i: usize = 0;
    proof {
        assert(map_of(s.take(0)) =~= Map::<Seq<char>, Option<Seq<char>>>::empty());
        assert(r@ =~= merged_map(map_of(s.take(0)), c));
    }
    while i < list.len()
        invariant
            i <= list.len(),
            s == views(list@),
            sorted_by_key(s),
            r@ == merged_map(map_of(s.take(i as int)), c),
        decreases list.len() - i,
    {
        proof {
            let before = s.take(i as int);
            assert(before.insert(i as int, s[i as int]) =~= s.take(i as int + 1));
            assert(sorted_by_key(before)) by {
                assert forall|a: int, b: int| 0 <= a < b < before.len() implies text_lt(
                    (#[trigger] before[a]).key,
                    (#[trigger] before[b]).key,
                ) by {
                    assert(text_lt(s[a].key, s[b].key));
                }
            }
            assert(sorted_by_key(s.take(i as int + 1))) by {
                let t = s.take(i as int + 1);
                assert forall|a: int, b: int| 0 <= a < b < t.len() implies text_lt(
                    (#[trigger] t[a]).key,
                    (#[trigger] t[b]).key,
                ) by {
                    assert(text_lt(s[a].key, s[b].key));
                }
            }
            lemma_map_of_insert(before, i as int, s[i as int]);
        }
        let ghost m_before = r@;
        match &list[i].value {
            Some(v) => {
                r.insert(list[i].key.clone(), Some(v.clone()));
            },
            None => {
                r.remove(list[i].key.as_str());
            },
        }
        assert(r@ =~= merged_map(map_of(s.take(i as int + 1)), c));
        i += 1;
    }
    proof {
        assert(s.take(s.len() as int) =~= s);
    }
    r
}

/// The mathematical value of a [`MergedOvsDbGlobalConfig`].
pub struct MergedOvsDbGlobalConfigView {
    pub external_ids: Map<Seq<char>, Option<Seq<char>>>,
    pub other_config: Map<Seq<char>, Option<Seq<char>>>,
}

/// The map with the text of the virtual-network mappings under their key,
/// where there are any mappings.
pub open spec fn with_mappings(
    m: Map<Seq<char>, Option<Seq<char>>>,
    ovn: Seq<OvnBridgeMappingView>,
) -> Map<Seq<char>, Option<Seq<char>>> {
    if ovn.len() > 0 {
        m.insert(OvnConfiguration::bridge_mappings_key(), Some(mappings_text(ovn)))
    } else {
        m
    }
}

/// The external ids that a desired state gives.
pub open spec fn desired_external_ids(desired: Option<OvsDbGlobalConfigView>) -> Map<
    Seq<char>,
    Option<Seq<char>>,
> {
    match desired {
        Some(d) => map_or_empty(d.external_ids),
        None => Map::empty(),
    }
}

/// The other configuration that a desired state gives.
pub open spec fn desired_other_config(desired: Option<OvsDbGlobalConfigView>) -> Map<
    Seq<char>,
    Option<Seq<char>>,
> {
    match desired {
        Some(d) => map_or_empty(d.other_config),
        None => Map::empty(),
    }
}

/// The merge of the database configuration of two states, or `None` where
/// the desired external ids use the key that holds the virtual-network
/// mappings. Each map is the merge of the desired with the current one. The
/// current value of the mappings' key does not count: the key holds the text
/// of the merged mappings `ovn` where there are any, and is gone else.
pub open spec fn merged_ovsdb(
    desired: Option<OvsDbGlobalConfigView>,
    current: OvsDbGlobalConfigView,
    ovn: Seq<OvnBridgeMappingView>,
) -> Option<MergedOvsDbGlobalConfigView> {
    let ext = desired_external_ids(desired);
    if ext.contains_key(OvnConfiguration::bridge_mappings_key()) {
        None
    } else {
        Some(
            MergedOvsDbGlobalConfigView {
                external_ids: with_mappings(
                    merged_map(
                        ext,
                        map_or_empty(current.external_ids).remove(
                            OvnConfiguration::bridge_mappings_key(),
                        ),
                    ),
                    ovn,
                ),
                other_config: merged_map(
                    desired_other_config(desired),
                    map_or_empty(current.other_config),
                ),
            },
        )
    }
}

/// The database configuration that comes out of a merge.
#[derive(Debug, PartialEq, Eq)]
pub struct MergedOvsDbGlobalConfig {
    external_ids: OvsDbMap,
    other_config: OvsDbMap,
}

impl View for MergedOvsDbGlobalConfig {
    type V = MergedOvsDbGlobalConfigView;

    closed spec fn view(&self) -> MergedOvsDbGlobalConfigView {
        MergedOvsDbGlobalConfigView {
            external_ids: self.external_ids@,
            other_config: self.other_config@,
        }
    }
}

impl MergedOvsDbGlobalConfig {
    /// Merges the desired configuration with the current one. The merged
    /// virtual-network configuration gives the value of the mappings' key.
    pub fn new(
        desired: Option<OvsDbGlobalConfig>,
        current: OvsDbGlobalConfig,
        merged_ovn: &MergedOvnConfiguration,
    ) -> (r: Result<Self, NmstateError>)
        ensures
            match r {
                Ok(m) => merged_ovsdb(opt_view(desired), current@, merged_ovn@) == Some(m@),
                Err(e) => merged_ovsdb(opt_view(desired), current@, merged_ovn@) is None
                    && e@.kind == ErrorKind::InvalidArgument,
            },
    {
        let (des_ext, des_other) = match desired {
            Some(d) => (map_or_new(d.external_ids), map_or_new(d.other_config)),
            None => (OvsDbMap::new(), OvsDbMap::new()),
        };
        if des_ext.contains_key("ovn-bridge-mappings") {
            return Err(
                NmstateError::new(
                    ErrorKind::InvalidArgument,
                    String::from_str(
                        "The key ovn-bridge-mappings is reserved for the mappings of the ovn section",
                    ),
                ),
            );
        }
        let mut cur_ext = map_or_new(current.external_ids);
        cur_ext.remove("ovn-bridge-mappings");
        let mut external_ids = merge_maps(&des_ext, cur_ext);
        match merged_ovn.to_ovsdb_external_id_value() {
            Some(text) => {
                external_ids.insert(String::from_str("ovn-bridge-mappings"), Some(text));
            },
            None => {},
        }
        let other_config = merge_maps(&des_other, map_or_new(current.other_config));
        Ok(MergedOvsDbGlobalConfig { external_ids, other_config })
    }

    /// The merged external ids.
    pub fn external_ids(&self) -> (r: &OvsDbMap)
        ensures
            r@ == self@.external_ids,
    {
        &self.external_ids
    }

    /// The merged other configuration.
    pub fn other_config(&self) -> (r: &OvsDbMap)
        ensures
            r@ == self@.other_config,
    {
        &self.other_config
    }
}

} // verus!
