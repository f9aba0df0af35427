//! The collection of the interfaces of a network state.

use crate::ifaces::iface::{Interface, InterfaceView};
use crate::model::views;
use vstd::prelude::*;

verus! {

/// No two interfaces of the sequence have the same name.
pub open spec fn names_unique(s: Seq<InterfaceView>) -> bool {
    forall|i: int, j: int|
        0 <= i < j < s.len() ==> (#[trigger] s[i]).name() != (#[trigger] s[j]).name()
}

/// Some interface of the sequence has the name.
pub open spec fn has_name(s: Seq<InterfaceView>, name: Seq<char>) -> bool {
    exists|i: int| 0 <= i < s.len() && (#[trigger] s[i]).name() == name
}

/// The interface of the sequence that has the name, if there is one.
pub open spec fn find(s: Seq<InterfaceView>, name: Seq<char>) -> Option<InterfaceView> {
    if has_name(s, name) {
        Some(s[choose|i: int| 0 <= i < s.len() && (#[trigger] s[i]).name() == name])
    } else {
        None
    }
}

/// In a sequence without repeated names, an interface is found by its name.
pub proof fn lemma_find_unique(s: Seq<InterfaceView>, name: Seq<char>, j: int)
    requires
        names_unique(s),
        0 <= j < s.len(),
        s[j].name() == name,
    ensures
        find(s, name) == Some(s[j]),
{
    let c = choose|i: int| 0 <= i < s.len() && (#[trigger] s[i]).name() == name;
    if c < j {
        assert(s[c].name() != s[j].name());
    } else if j < c {
        assert(s[j].name() != s[c].name());
    }
}

/// An ordered sequence of interfaces. Names are meant to be unique in it;
/// whether they are is looked at when two states are merged, not here.
#[derive(Debug, PartialEq, Eq)]
pub struct Interfaces {
    ifaces: Vec<Interface>,
}

impl View for Interfaces {
    type V = Seq<InterfaceView>;

    closed spec fn view(&self) -> Seq<InterfaceView> {
        views(self.ifaces@)
    }
}

impl Clone for Interfaces {
    fn clone(&self) -> (r: Self)
        ensures
            r@ == self@,
    {
        let mut c: Vec<Interface> = Vec::new();
        let mut i: usize = 0;
        while i < self.ifaces.len()
            invariant
                i <= self.ifaces.len(),
                c@.len() == i,
                forall|k: int| 0 <= k < i ==> c@[k]@ == self.ifaces@[k]@,
            decreases self.ifaces.len() - i,
        {
            c.push(self.ifaces[i].clone());
            i += 1;
        }
        assert(views(c@) =~= views(self.ifaces@));
        Interfaces { ifaces: c }
    }
}

impl Default for Interfaces {
    fn default() -> (r: Self)
        ensures
            r@ == Seq::<InterfaceView>::empty(),
    {
        Interfaces::new()
    }
}

impl Interfaces {
    /// The empty collection.
    pub fn new() -> (r: Self)
        ensures
            r@ == Seq::<InterfaceView>::empty(),
    {
        let r = Interfaces { ifaces: Vec::new() };
        assert(r@ =~= Seq::<InterfaceView>::empty());
        r
    }

    /// The collection of the given interfaces, in their order.
    pub fn from_vec(ifaces: Vec<Interface>) -> (r: Self)
        ensures
            r@ == views(ifaces@),
    {
        Interfaces { ifaces }
    }

    /// The interfaces, in their order.
    pub fn into_vec(self) -> (r: Vec<Interface>)
        ensures
            views(r@) == self@,
    {
        self.ifaces
    }

    /// The interfaces, in their order.
    pub fn as_vec(&self) -> (r: &Vec<Interface>)
        ensures
            views(r@) == self@,
    {
        &self.ifaces
    }

    pub fn is_empty(&self) -> (r: bool)
        ensures
            r == (self@.len() == 0),
    {
        self.ifaces.len() == 0
    }

    pub fn len(&self) -> (n: usize)
        ensures
            n == self@.len(),
    {
        self.ifaces.len()
    }

    /// The interface at position `i`.
    pub fn get(&self, i: usize) -> (r: Option<&Interface>)
        ensures
            match r {
                Some(iface) => i < self@.len() && iface@ == self@[i as int],
                None => i >= self@.len(),
            },
    {
        if i < self.ifaces.len() {
            Some(&self.ifaces[i])
        } else {
            None
        }
    }

    /// Appends an interface, whatever its name.
    pub fn push(&mut self, iface: Interface)
        ensures
            final(self)@ == old(self)@.push(iface@),
    {
        self.ifaces.push(iface);
        assert(views(self.ifaces@) =~= views(old(self).ifaces@).push(iface@));
    }

    /// Replaces every secret of every interface by the fixed text.
    pub fn hide_secrets(&mut self)
        ensures
            final(self)@ == old(self)@.map_values(|x: InterfaceView| x.hide_secrets()),
    {
        let mut hidden: Vec<Interface> = Vec::new();
        let mut i: usize = 0;
        while i < self.ifaces.len()
            invariant
                i <= self.ifaces.len(),
                self.ifaces == old(self).ifaces,
                hidden@.len() == i,
                forall|k: int| 0 <= k < i ==> hidden@[k]@ == self.ifaces@[k]@.hide_secrets(),
            decreases self.ifaces.len() - i,
        {
            hidden.push(self.ifaces[i].clone().hide_secrets());
            i += 1;
        }
        assert(views(hidden@) =~= views(self.ifaces@).map_values(
            |x: InterfaceView| x.hide_secrets(),
        ));
        self.ifaces = hidden;
    }
}

/// Whether no two interfaces of the list have the same name.
pub fn names_are_unique(list: &Vec<Interface>) -> (r: bool)
    ensures
        r == names_unique(views(list@)),
{
    let mut j: usize = 0;
    while j < list.len()
        invariant
            j <= list.len(),
            forall|a: int, b: int|
                0 <= a < b < j ==> (#[trigger] list@[a])@.name() != (#[trigger] list@[b])@.name(),
        decreases list.len() - j,
    {
        let mut i: usize = 0;
        while i < j
            invariant
                i <= j < list.len(),
                forall|a: int| 0 <= a < i ==> (#[trigger] list@[a])@.name() != list@[j as int]@.name(),
            decreases j - i,
        {
            if *list[i].name() == *list[j].name() {
                assert(views(list@)[i as int].name() == views(list@)[j as int].name());
                return false;
            }
            i += 1;
        }
        j += 1;
    }
    assert forall|a: int, b: int| 0 <= a < b < list@.len() implies (#[trigger] views(
        list@,
    )[a]).name() != (#[trigger] views(list@)[b]).name() by {
        assert(list@[a]@.name() != list@[b]@.name());
    }
    true
}

/// The position of the interface named `name`, if the list has one.
pub fn position_of(list: &Vec<Interface>, name: &String) -> (r: Option<usize>)
    ensures
        match r {
            Some(j) => j < list@.len() && list@[j as int]@.name() == name@ && has_name(
                views(list@),
                name@,
            ),
            None => !has_name(views(list@), name@),
        },
{
    let mut i: usize = 0;
    while i < list.len()
        invariant
            i <= list.len(),
            forall|k: int| 0 <= k < i ==> (#[trigger] list@[k])@.name() != name@,
        decreases list.len() - i,
    {
        if *list[i].name() == *name {
            assert(views(list@)[i as int].name() == name@);
            return Some(i);
        }
        i += 1;
    }
    assert forall|k: int| 0 <= k < views(list@).len() implies (#[trigger] views(list@)[k]).name()
        != name@ by {
        assert(list@[k]@.name() != name@);
    }
    None
}

} // verus!
