//! Lists of entries that a desired state lays over the current ones, and
//! lists from which the entries bound to left-out interfaces are taken.

use crate::model::{
    lemma_filter_map_none, lemma_filter_map_step, lemma_take_all, lemma_views_push, views,
};
use crate::text::text_in;
use vstd::prelude::*;

verus! {

/// An entry of a list that is merged.
pub trait Entry: View + Sized {
    /// A copy of the entry.
    fn duplicate(&self) -> (r: Self)
        ensures
            r@ == self@,
    ;
}

/// A copy of a list of entries.
pub fn duplicate_list<T: Entry>(v: &Vec<T>) -> (r: Vec<T>)
    ensures
        views(r@) == views(v@),
{
    let mut r: Vec<T> = Vec::new();
    let mut i: usize = 0;
    while i < v.len()
        invariant
            i <= v.len(),
            r@.len() == i,
            forall|k: int| 0 <= k < i ==> r@[k]@ == v@[k]@,
        decreases v.len() - i,
    {
        r.push(v[i].duplicate());
        i += 1;
    }
    assert(views(r@) =~= views(v@));
    r
}

/// A copy of an optional list of entries.
pub fn duplicate_opt_list<T: Entry>(o: &Option<Vec<T>>) -> (r: Option<Vec<T>>)
    ensures
        crate::model::opt_views(r) == crate::model::opt_views(*o),
{
    match o {
        Some(v) => Some(duplicate_list(v)),
        None => None,
    }
}

/// An entry that a desired state can state, or remove from the current state.
pub trait Overlay: Entry {
    /// Whether the desired entry `d` speaks of the current entry `c`: it
    /// removes it, or states it anew.
    spec fn speaks_of(d: Self::V, c: Self::V) -> bool;

    /// Whether the desired entry states something that is to be there.
    spec fn is_stated(d: Self::V) -> bool;

    fn says_of(&self, c: &Self) -> (r: bool)
        ensures
            r == Self::speaks_of(self@, c@),
    ;

    fn states(&self) -> (r: bool)
        ensures
            r == Self::is_stated(self@),
    ;
}

/// Some desired entry speaks of `c`.
pub open spec fn spoken_of<T: Overlay>(des: Seq<T::V>, c: T::V) -> bool {
    exists|i: int| 0 <= i < des.len() && T::speaks_of(#[trigger] des[i], c)
}

/// A current entry, unless the desired state speaks of it.
pub open spec fn kept<T: Overlay>(des: Seq<T::V>) -> spec_fn(T::V) -> Option<T::V> {
    |c: T::V|
        if spoken_of::<T>(des, c) {
            None
        } else {
            Some(c)
        }
}

/// A desired entry, unless it is a removal.
pub open spec fn stated<T: Overlay>() -> spec_fn(T::V) -> Option<T::V> {
    |d: T::V|
        if T::is_stated(d) {
            Some(d)
        } else {
            None
        }
}

/// The merged list: the current entries that the desired state does not
/// speak of, in their order, then the entries that the desired state states,
/// in their order.
pub open spec fn overlaid<T: Overlay>(des: Seq<T::V>, cur: Seq<T::V>) -> Seq<T::V> {
    cur.filter_map(kept::<T>(des)) + des.filter_map(stated::<T>())
}

/// Whether some entry of `des` speaks of `c`.
pub fn is_spoken_of<T: Overlay>(des: &Vec<T>, c: &T) -> (r: bool)
    ensures
        r == spoken_of::<T>(views(des@), c@),
{
    let mut i: usize = 0;
    while i < des.len()
        invariant
            i <= des.len(),
            forall|k: int| 0 <= k < i ==> !T::speaks_of(#[trigger] views(des@)[k], c@),
        decreases des.len() - i,
    {
        if des[i].says_of(c) {
            assert(T::speaks_of(views(des@)[i as int], c@));
            return true;
        }
        i += 1;
    }
    false
}

/// Lays the desired entries over the current ones.
pub fn overlay<T: Overlay>(des: &Vec<T>, cur: &Vec<T>) -> (r: Vec<T>)
    ensures
        views(r@) == overlaid::<T>(views(des@), views(cur@)),
{
    let ghost d = views(des@);
    let ghost c = views(cur@);
    let mut r: Vec<T> = Vec::new();
    let mut j: usize = 0;
    proof {
        lemma_filter_map_none(c, kept::<T>(d));
        assert(views(r@) =~= Seq::<T::V>::empty());
    }
    while j < cur.len()
        invariant
            j <= cur.len(),
            d == views(des@),
            c == views(cur@),
            views(r@) == c.take(j as int).filter_map(kept::<T>(d)),
        decreases cur.len() - j,
    {
        proof {
            lemma_filter_map_step(c, kept::<T>(d), j as int);
        }
        if !is_spoken_of(des, &cur[j]) {
            let e = cur[j].duplicate();
            proof {
                lemma_views_push(r@, e);
            }
            r.push(e);
        }
        j += 1;
    }
    proof {
        lemma_take_all(c);
        lemma_filter_map_none(d, stated::<T>());
        assert(views(r@) + Seq::<T::V>::empty() =~= views(r@));
    }
    let mut i: usize = 0;
    while i < des.len()
        invariant
            i <= des.len(),
            d == views(des@),
            c == views(cur@),
            views(r@) == c.filter_map(kept::<T>(d)) + d.take(i as int).filter_map(stated::<T>()),
        decreases des.len() - i,
    {
        proof {
            lemma_filter_map_step(d, stated::<T>(), i as int);
        }
        if des[i].states() {
            let e = des[i].duplicate();
            proof {
                lemma_views_push(r@, e);
                assert(c.filter_map(kept::<T>(d)) + d.take(i as int).filter_map(
                    stated::<T>(),
                ).push(e@) =~= (c.filter_map(kept::<T>(d)) + d.take(i as int).filter_map(
                    stated::<T>(),
                )).push(e@));
            }
            r.push(e);
        }
        i += 1;
    }
    proof {
        lemma_take_all(d);
    }
    r
}

/// An entry that may be bound to an interface.
pub trait Bound: Entry {
    /// The name of the interface that the entry is bound to, if any.
    spec fn bound_iface(v: Self::V) -> Option<Seq<char>>;

    fn iface(&self) -> (r: Option<&String>)
        ensures
            match r {
                Some(n) => Self::bound_iface(self@) == Some(n@),
                None => Self::bound_iface(self@) is None,
            },
    ;
}

/// Whether the entry is bound to one of the named interfaces.
pub open spec fn is_bound_to<T: Bound>(v: T::V, names: Seq<Seq<char>>) -> bool {
    match T::bound_iface(v) {
        Some(n) => names.contains(n),
        None => false,
    }
}

/// An entry, unless it is bound to one of the named interfaces.
pub open spec fn unbound<T: Bound>(names: Seq<Seq<char>>) -> spec_fn(T::V) -> Option<T::V> {
    |v: T::V|
        if is_bound_to::<T>(v, names) {
            None
        } else {
            Some(v)
        }
}

/// The entries that are bound to none of the named interfaces, in their
/// order.
pub open spec fn without_bound<T: Bound>(s: Seq<T::V>, names: Seq<Seq<char>>) -> Seq<T::V> {
    s.filter_map(unbound::<T>(names))
}

/// Takes the entries that are bound to one of the named interfaces out of
/// the list.
pub fn remove_bound<T: Bound>(list: &mut Vec<T>, names: &[String])
    ensures
        views(final(list)@) == without_bound::<T>(views(old(list)@), views(names@)),
{
    let ghost s = views(list@);
    let ghost n = views(names@);
    let mut r: Vec<T> = Vec::new();
    let mut i: usize = 0;
    proof {
        lemma_filter_map_none(s, unbound::<T>(n));
        assert(views(r@) =~= Seq::<T::V>::empty());
    }
    while i < list.len()
        invariant
            i <= list.len(),
            s == views(list@),
            n == views(names@),
            views(r@) == s.take(i as int).filter_map(unbound::<T>(n)),
        decreases list.len() - i,
    {
        proof {
            lemma_filter_map_step(s, unbound::<T>(n), i as int);
        }
        let bound = match list[i].iface() {
            Some(name) => text_in(names, name),
            None => false,
        };
        if !bound {
            let e = list[i].duplicate();
            proof {
                lemma_views_push(r@, e);
            }
            r.push(e);
        }
        i += 1;
    }
    proof {
        lemma_take_all(s);
    }
    *list = r;
}

/// After the removal no entry is bound to one of the named interfaces, and
/// every entry that is left was there before.
pub proof fn lemma_without_bound<T: Bound>(s: Seq<T::V>, names: Seq<Seq<char>>, k: int)
    requires
        0 <= k < without_bound::<T>(s, names).len(),
    ensures
        !is_bound_to::<T>(without_bound::<T>(s, names)[k], names),
        s.contains(without_bound::<T>(s, names)[k]),
{
    let out = without_bound::<T>(s, names);
    assert(out.contains(out[k]));
    s.lemma_filter_map_contains(unbound::<T>(names), out[k]);
}

} // verus!
