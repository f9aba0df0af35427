//! How collections and optional values of the data model are seen in
//! contracts: element by element, through each element's view.

use vstd::prelude::*;

verus! {

/// The view of an optional value.
pub open spec fn opt_view<T: View>(o: Option<T>) -> Option<T::V> {
    match o {
        Some(x) => Some(x@),
        None => None,
    }
}

/// The views of the elements of a sequence, in order.
pub open spec fn views<T: View>(s: Seq<T>) -> Seq<T::V> {
    Seq::new(s.len(), |i: int| s[i]@)
}

/// The views of the elements of an optional list.
pub open spec fn opt_views<T: View>(o: Option<Vec<T>>) -> Option<Seq<T::V>> {
    match o {
        Some(v) => Some(views(v@)),
        None => None,
    }
}

/// The sequence of an optional sequence, empty where there is none.
pub open spec fn or_empty<T>(o: Option<Seq<T>>) -> Seq<T> {
    match o {
        Some(s) => s,
        None => Seq::empty(),
    }
}

/// What is asked where something is asked, else what there was.
pub open spec fn or_kept<T>(asked: Option<T>, kept: Option<T>) -> Option<T> {
    if asked is Some {
        asked
    } else {
        kept
    }
}

/// The list of an optional list, empty where there is none.
pub fn list_or_empty<T: View>(o: Option<Vec<T>>) -> (r: Vec<T>)
    ensures
        views(r@) == or_empty(opt_views(o)),
{
    match o {
        Some(v) => v,
        None => {
            let r: Vec<T> = Vec::new();
            assert(views(r@) =~= Seq::<T::V>::empty());
            r
        },
    }
}

/// Appending an element appends its view.
pub proof fn lemma_views_push<T: View>(s: Seq<T>, x: T)
    ensures
        views(s.push(x)) == views(s).push(x@),
{
    assert(views(s.push(x)) =~= views(s).push(x@));
}

/// Nothing is selected from an empty prefix.
pub proof fn lemma_filter_map_none<A, B>(s: Seq<A>, f: spec_fn(A) -> Option<B>)
    ensures
        s.take(0).filter_map(f) == Seq::<B>::empty(),
{
}

/// What is selected from a prefix that is one longer: what was selected
/// before, and the image of the new element where it has one.
pub proof fn lemma_filter_map_step<A, B>(s: Seq<A>, f: spec_fn(A) -> Option<B>, i: int)
    requires
        0 <= i < s.len(),
    ensures
        s.take(i + 1).filter_map(f) == match f(s[i]) {
            Some(b) => s.take(i).filter_map(f).push(b),
            None => s.take(i).filter_map(f),
        },
{
    s.lemma_filter_map_take_succ(f, i);
    match f(s[i]) {
        Some(b) => {
            assert(s.take(i).filter_map(f) + seq![b] =~= s.take(i).filter_map(f).push(b));
        },
        None => {
            assert(s.take(i).filter_map(f) + Seq::<B>::empty() =~= s.take(i).filter_map(f));
        },
    }
}

/// The whole sequence is its longest prefix.
pub proof fn lemma_take_all<A>(s: Seq<A>)
    ensures
        s.take(s.len() as int) == s,
{
    assert(s.take(s.len() as int) =~= s);
}

/// Where every element has an image, the selection is the sequence of the
/// images.
pub proof fn lemma_filter_map_total<A, B>(s: Seq<A>, f: spec_fn(A) -> Option<B>)
    requires
        forall|i: int| 0 <= i < s.len() ==> (#[trigger] f(s[i])) is Some,
    ensures
        s.filter_map(f).len() == s.len(),
        forall|i: int| 0 <= i < s.len() ==> #[trigger] s.filter_map(f)[i] == f(s[i])->0,
    decreases s.len(),
{
    if s.len() > 0 {
        let rest = s.drop_last();
        assert forall|i: int| 0 <= i < rest.len() implies (#[trigger] f(rest[i])) is Some by {
            assert(rest[i] == s[i]);
        }
        lemma_filter_map_total(rest, f);
        assert(f(s.last()) is Some);
        assert forall|i: int| 0 <= i < s.len() implies #[trigger] s.filter_map(f)[i] == f(
            s[i],
        )->0 by {
            if i < rest.len() {
                assert(rest[i] == s[i]);
                assert(s.filter_map(f)[i] == rest.filter_map(f)[i]);
            }
        }
    }
}

/// The image of an element is among what is selected.
pub proof fn lemma_filter_map_has<A, B>(s: Seq<A>, f: spec_fn(A) -> Option<B>, i: int)
    requires
        0 <= i < s.len(),
        f(s[i]) is Some,
    ensures
        s.filter_map(f).contains(f(s[i])->0),
    decreases s.len(),
{
    let rest = s.drop_last();
    let out = s.filter_map(f);
    let b = f(s[i])->0;
    if i == s.len() - 1 {
        assert(out[out.len() - 1] == b);
    } else {
        assert(rest[i] == s[i]);
        lemma_filter_map_has(rest, f, i);
        let k = choose|k: int| 0 <= k < rest.filter_map(f).len() && rest.filter_map(f)[k] == b;
        assert(out[k] == b);
    }
}

/// Where no element has an image, nothing is selected.
pub proof fn lemma_filter_map_empty<A, B>(s: Seq<A>, f: spec_fn(A) -> Option<B>)
    requires
        forall|i: int| 0 <= i < s.len() ==> (#[trigger] f(s[i])) is None,
    ensures
        s.filter_map(f) == Seq::<B>::empty(),
    decreases s.len(),
{
    if s.len() > 0 {
        let rest = s.drop_last();
        assert forall|i: int| 0 <= i < rest.len() implies (#[trigger] f(rest[i])) is None by {
            assert(rest[i] == s[i]);
        }
        lemma_filter_map_empty(rest, f);
        assert(f(s.last()) is None);
    }
}

} // verus!
