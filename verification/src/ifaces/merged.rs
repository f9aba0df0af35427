//! Interfaces of a desired state, paired with the running interfaces of the
//! same names.

use crate::error::{ErrorKind, NmstateError};
use crate::ifaces::base::InterfaceType;
use crate::ifaces::iface::{Interface, InterfaceView};
use crate::ifaces::inter_ifaces::{
    find, has_name, lemma_find_unique, names_are_unique, names_unique, position_of, Interfaces,
};
use crate::ifaces::vlan::lemma_vlan_rule_keeps_identity;
use crate::model::{
    lemma_filter_map_has, lemma_filter_map_none, lemma_filter_map_step, lemma_filter_map_total,
    lemma_take_all, lemma_views_push, opt_view, views,
};
use vstd::prelude::*;
use vstd::string::StringExecFns;

verus! {

/// The mathematical value of a [`MergedInterface`].
pub struct MergedInterfaceView {
    pub current: Option<InterfaceView>,
    pub for_apply: Option<InterfaceView>,
}

impl MergedInterfaceView {
    /// The name of the interface that the pair is about.
    pub open spec fn name(self) -> Option<Seq<char>> {
        match self.for_apply {
            Some(a) => Some(a.name()),
            None => match self.current {
                Some(c) => Some(c.name()),
                None => None,
            },
        }
    }

    /// One side at least is present, and where both are, they have the same
    /// name and the same kind.
    pub open spec fn wf(self) -> bool {
        &&& self.current is Some || self.for_apply is Some
        &&& match (self.current, self.for_apply) {
            (Some(c), Some(a)) => c.name() == a.name() && c.iface_type() == a.iface_type(),
            _ => true,
        }
    }

    /// The interface does not run yet: there is something to apply and
    /// nothing current.
    pub open spec fn is_creation(self) -> bool {
        self.current is None && self.for_apply is Some
    }

    /// The interface runs and nothing is asked of it.
    pub open spec fn is_untouched(self) -> bool {
        self.current is Some && self.for_apply is None
    }

    /// The pair of a desired and a current interface, or `None` where they do
    /// not go together: neither is given, their names differ, their kinds
    /// differ, or the desired one states no kind and no current one settles
    /// it. A desired interface that states no kind takes the kind of the
    /// current one.
    pub open spec fn merged(desired: Option<InterfaceView>, current: Option<InterfaceView>)
        -> Option<MergedInterfaceView> {
        match (desired, current) {
            (None, None) => None,
            (None, Some(c)) => Some(MergedInterfaceView { current: Some(c), for_apply: None }),
            (Some(d), None) => if d.iface_type() == InterfaceType::Unknown {
                None
            } else {
                Some(MergedInterfaceView { current: None, for_apply: Some(d) })
            },
            (Some(d), Some(c)) => {
                let a = d.resolved_as(c.iface_type());
                if d.name() != c.name() || a.iface_type() != c.iface_type() {
                    None
                } else {
                    Some(MergedInterfaceView { current: Some(c), for_apply: Some(a) })
                }
            },
        }
    }
}

/// What is known of one interface name: the running interface, and the
/// interface to apply. Either may be missing, not both.
#[derive(Debug, PartialEq, Eq)]
pub struct MergedInterface {
    pub current: Option<Interface>,
    pub for_apply: Option<Interface>,
}

impl View for MergedInterface {
    type V = MergedInterfaceView;

    open spec fn view(&self) -> MergedInterfaceView {
        MergedInterfaceView {
            current: opt_view(self.current),
            for_apply: opt_view(self.for_apply),
        }
    }
}

impl Clone for MergedInterface {
    fn clone(&self) -> (r: Self)
        ensures
            r@ == self@,
    {
        let current = match &self.current {
            Some(c) => Some(c.clone()),
            None => None,
        };
        let for_apply = match &self.for_apply {
            Some(a) => Some(a.clone()),
            None => None,
        };
        MergedInterface { current, for_apply }
    }
}

impl MergedInterface {
    /// Pairs a desired interface with the current one.
    pub fn new(desired: Option<Interface>, current: Option<Interface>) -> (r: Result<
        Self,
        NmstateError,
    >)
        ensures
            match r {
                Ok(m) => MergedInterfaceView::merged(opt_view(desired), opt_view(current)) == Some(
                    m@,
                ),
                Err(e) => MergedInterfaceView::merged(opt_view(desired), opt_view(current))
                    is None && e@.kind == ErrorKind::InvalidArgument,
            },
    {
        match (desired, current) {
            (None, None) => Err(
                NmstateError::new(
                    ErrorKind::InvalidArgument,
                    String::from_str("Neither a desired nor a current interface is given"),
                ),
            ),
            (None, Some(c)) => Ok(MergedInterface { current: Some(c), for_apply: None }),
            (Some(d), None) => {
                if d.iface_type() == InterfaceType::Unknown {
                    let msg = String::from_str(
                        "No running interface settles the type of interface ",
                    ).concat(d.name().as_str());
                    Err(NmstateError::new(ErrorKind::InvalidArgument, msg))
                } else {
                    Ok(MergedInterface { current: None, for_apply: Some(d) })
                }
            },
            (Some(d), Some(c)) => {
                if *d.name() != *c.name() {
                    let msg = String::from_str(
                        "The desired and the current interface differ in name: ",
                    ).concat(d.name().as_str());
                    return Err(NmstateError::new(ErrorKind::InvalidArgument, msg));
                }
                let a = d.resolved_as(c.iface_type());
                if a.iface_type() != c.iface_type() {
                    let msg = String::from_str(
                        "The desired and the current interface differ in type: ",
                    ).concat(a.name().as_str());
                    return Err(NmstateError::new(ErrorKind::InvalidArgument, msg));
                }
                Ok(MergedInterface { current: Some(c), for_apply: Some(a) })
            },
        }
    }

    /// The name of the interface that the pair is about.
    pub fn name(&self) -> (n: Option<&String>)
        ensures
            match n {
                Some(s) => self@.name() == Some(s@),
                None => self@.name() is None,
            },
    {
        match &self.for_apply {
            Some(a) => Some(a.name()),
            None => match &self.current {
                Some(c) => Some(c.name()),
                None => None,
            },
        }
    }
}

/// The name of an interface that the desired state marks to be left alone.
pub open spec fn ignored_in_desired() -> spec_fn(InterfaceView) -> Option<Seq<char>> {
    |x: InterfaceView|
        if x.is_ignore() {
            Some(x.name())
        } else {
            None
        }
}

/// The name of a running interface that is marked to be left alone and that
/// the desired state `d` does not speak of.
pub open spec fn ignored_in_current(d: Seq<InterfaceView>) -> spec_fn(InterfaceView) -> Option<
    Seq<char>,
> {
    |x: InterfaceView|
        if x.is_ignore() && !has_name(d, x.name()) {
            Some(x.name())
        } else {
            None
        }
}

/// The names of the ignored interfaces: those that the desired state marks,
/// in its order, then those that only the current state marks, in its order.
pub open spec fn ignored_names(d: Seq<InterfaceView>, c: Seq<InterfaceView>) -> Seq<Seq<char>> {
    d.filter_map(ignored_in_desired()) + c.filter_map(ignored_in_current(d))
}

/// Whether the interface of that name is left out of the merge.
pub open spec fn is_ignored(d: Seq<InterfaceView>, c: Seq<InterfaceView>, name: Seq<char>)
    -> bool {
    ||| exists|i: int| 0 <= i < d.len() && (#[trigger] d[i]).is_ignore() && d[i].name() == name
    ||| !has_name(d, name) && exists|j: int|
        0 <= j < c.len() && (#[trigger] c[j]).is_ignore() && c[j].name() == name
}

/// The desired interface as it is taken: when a configuration is generated
/// without a running system, one that states no kind counts as Ethernet.
pub open spec fn asked(x: InterfaceView, gen_conf_mode: bool) -> InterfaceView {
    if gen_conf_mode {
        x.resolved_as(InterfaceType::Ethernet)
    } else {
        x
    }
}

/// The pair of the desired interface `x` and the running interface of its
/// name, normalized as its kind asks; `None` where the two do not go together.
pub open spec fn pair_of(x: InterfaceView, c: Seq<InterfaceView>, gen_conf_mode: bool) -> Option<
    MergedInterfaceView,
> {
    match MergedInterfaceView::merged(Some(asked(x, gen_conf_mode)), find(c, x.name())) {
        Some(m) => Some(m.post_process_vlan()),
        None => None,
    }
}

/// The pair of a desired interface, for those that are not left alone.
pub open spec fn pairing(c: Seq<InterfaceView>, gen_conf_mode: bool) -> spec_fn(
    InterfaceView,
) -> Option<MergedInterfaceView> {
    |x: InterfaceView|
        if x.is_ignore() {
            None
        } else {
            pair_of(x, c, gen_conf_mode)
        }
}

/// Some desired interface that is not left alone does not go together with
/// the running interface of its name.
pub open spec fn pairs_fail(d: Seq<InterfaceView>, c: Seq<InterfaceView>, gen_conf_mode: bool)
    -> bool {
    exists|i: int|
        0 <= i < d.len() && !(#[trigger] d[i]).is_ignore() && pair_of(d[i], c, gen_conf_mode)
            is None
}

/// The entry of a running interface that is not left alone and that the
/// desired state `d` does not speak of.
pub open spec fn untouched(d: Seq<InterfaceView>) -> spec_fn(InterfaceView) -> Option<
    MergedInterfaceView,
> {
    |x: InterfaceView|
        if !x.is_ignore() && !has_name(d, x.name()) {
            Some(MergedInterfaceView { current: Some(x), for_apply: None })
        } else {
            None
        }
}

/// The merged entries: one for each desired interface that is not left
/// alone, in the order of the desired state, then one for each running
/// interface that nothing is asked of, in the order of the current state.
pub open spec fn entries(d: Seq<InterfaceView>, c: Seq<InterfaceView>, gen_conf_mode: bool)
    -> Seq<MergedInterfaceView> {
    d.filter_map(pairing(c, gen_conf_mode)) + c.filter_map(untouched(d))
}

/// Some entry is about the interface of that name.
pub open spec fn has_entry(e: Seq<MergedInterfaceView>, name: Seq<char>) -> bool {
    exists|i: int| 0 <= i < e.len() && (#[trigger] e[i]).name() == Some(name)
}

/// The parent that the interface to apply of `m` names, if it names one, is
/// among the entries.
pub open spec fn parent_resolved(e: Seq<MergedInterfaceView>, m: MergedInterfaceView) -> bool {
    match m.for_apply {
        Some(a) => match a.parent() {
            Some(p) => has_entry(e, p),
            None => true,
        },
        None => true,
    }
}

/// Every parent that an entry names is among the entries.
pub open spec fn parents_resolved(e: Seq<MergedInterfaceView>) -> bool {
    forall|i: int| 0 <= i < e.len() ==> parent_resolved(e, #[trigger] e[i])
}

/// The mathematical value of [`MergedInterfaces`].
pub struct MergedInterfacesView {
    pub ifaces: Seq<MergedInterfaceView>,
    pub ignored_ifaces: Seq<Seq<char>>,
    pub gen_conf_mode: bool,
    pub memory_only: bool,
}

/// The merge of the desired interfaces `d` with the current interfaces `c`,
/// or `None` where it is refused: a name occurs twice in `d` or in `c`, a
/// desired interface does not go together with the running one of its name,
/// or an interface to apply names a parent that is not among the merged
/// entries, whatever its state and whatever the mode.
pub open spec fn merged_interfaces(
    d: Seq<InterfaceView>,
    c: Seq<InterfaceView>,
    gen_conf_mode: bool,
    memory_only: bool,
) -> Option<MergedInterfacesView> {
    if !names_unique(d) || !names_unique(c) || pairs_fail(d, c, gen_conf_mode) {
        None
    } else if !parents_resolved(entries(d, c, gen_conf_mode)) {
        None
    } else {
        Some(
            MergedInterfacesView {
                ifaces: entries(d, c, gen_conf_mode),
                ignored_ifaces: ignored_names(d, c),
                gen_conf_mode,
                memory_only,
            },
        )
    }
}

/// The outcome of merging the interfaces of two states.
#[derive(Debug, PartialEq, Eq)]
pub struct MergedInterfaces {
    ifaces: Vec<MergedInterface>,
    ignored_ifaces: Vec<String>,
    gen_conf_mode: bool,
    memory_only: bool,
}

impl View for MergedInterfaces {
    type V = MergedInterfacesView;

    closed spec fn view(&self) -> MergedInterfacesView {
        MergedInterfacesView {
            ifaces: views(self.ifaces@),
            ignored_ifaces: views(self.ignored_ifaces@),
            gen_conf_mode: self.gen_conf_mode,
            memory_only: self.memory_only,
        }
    }
}

impl MergedInterfaces {
    /// Merges the desired interfaces with the current ones.
    pub fn new(desired: Interfaces, current: Interfaces, gen_conf_mode: bool, memory_only: bool)
        -> (r: Result<Self, NmstateError>)
        ensures
            match r {
                Ok(m) => merged_interfaces(desired@, current@, gen_conf_mode, memory_only) == Some(
                    m@,
                ),
                Err(e) => merged_interfaces(desired@, current@, gen_conf_mode, memory_only)
                    is None && e@.kind == ErrorKind::InvalidArgument,
            },
    {
        let desired = desired.into_vec();
        let current = current.into_vec();
        if !names_are_unique(&desired) {
            return Err(
                NmstateError::new(
                    ErrorKind::InvalidArgument,
                    String::from_str("An interface name occurs twice in the desired state"),
                ),
            );
        }
        if !names_are_unique(&current) {
            return Err(
                NmstateError::new(
                    ErrorKind::InvalidArgument,
                    String::from_str("An interface name occurs twice in the current state"),
                ),
            );
        }
        let ignored_ifaces = ignored_names_of(&desired, &current);
        let mut ifaces = match pair_desired(&desired, &current, gen_conf_mode) {
            Ok(v) => v,
            Err(e) => {
                return Err(e);
            },
        };
        append_untouched(&mut ifaces, &desired, &current);
        match check_parents(&ifaces) {
            Ok(()) => {},
            Err(e) => {
                return Err(e);
            },
        }
        Ok(MergedInterfaces { ifaces, ignored_ifaces, gen_conf_mode, memory_only })
    }

    /// The merged entries.
    pub fn ifaces(&self) -> (r: &Vec<MergedInterface>)
        ensures
            views(r@) == self@.ifaces,
    {
        &self.ifaces
    }

    /// The names of the interfaces that were left out of the merge.
    pub fn ignored_ifaces(&self) -> (r: &Vec<String>)
        ensures
            views(r@) == self@.ignored_ifaces,
    {
        &self.ignored_ifaces
    }

    pub fn gen_conf_mode(&self) -> (r: bool)
        ensures
            r == self@.gen_conf_mode,
    {
        self.gen_conf_mode
    }

    pub fn memory_only(&self) -> (r: bool)
        ensures
            r == self@.memory_only,
    {
        self.memory_only
    }

    /// Whether some entry is about the interface of that name.
    pub fn has_iface(&self, name: &String) -> (r: bool)
        ensures
            r == has_entry(self@.ifaces, name@),
    {
        has_entry_named(&self.ifaces, name)
    }
}

/// The names of the ignored interfaces, in order.
fn ignored_names_of(desired: &Vec<Interface>, current: &Vec<Interface>) -> (r: Vec<String>)
    ensures
        views(r@) == ignored_names(views(desired@), views(current@)),
{
    let ghost d = views(desired@);
    let ghost c = views(current@);
    let mut r: Vec<String> = Vec::new();
    let mut i: usize = 0;
    proof {
        lemma_filter_map_none(d, ignored_in_desired());
        assert(views(r@) =~= Seq::<Seq<char>>::empty());
    }
    while i < desired.len()
        invariant
            i <= desired.len(),
            d == views(desired@),
            views(r@) == d.take(i as int).filter_map(ignored_in_desired()),
        decreases desired.len() - i,
    {
        proof {
            lemma_filter_map_step(d, ignored_in_desired(), i as int);
        }
        if desired[i].is_ignore() {
            let name = desired[i].name().clone();
            proof {
                lemma_views_push(r@, name);
            }
            r.push(name);
        }
        i += 1;
    }
    proof {
        lemma_take_all(d);
        lemma_filter_map_none(c, ignored_in_current(d));
        assert(views(r@) + Seq::<Seq<char>>::empty() =~= views(r@));
    }
    let mut j: usize = 0;
    while j < current.len()
        invariant
            j <= current.len(),
            d == views(desired@),
            c == views(current@),
            views(r@) == d.filter_map(ignored_in_desired()) + c.take(j as int).filter_map(
                ignored_in_current(d),
            ),
        decreases current.len() - j,
    {
        proof {
            lemma_filter_map_step(c, ignored_in_current(d), j as int);
        }
        if current[j].is_ignore() && position_of(desired, current[j].name()).is_none() {
            let name = current[j].name().clone();
            proof {
                lemma_views_push(r@, name);
                assert(d.filter_map(ignored_in_desired()) + c.take(j as int).filter_map(
                    ignored_in_current(d),
                ).push(name@) =~= (d.filter_map(ignored_in_desired()) + c.take(
                    j as int,
                ).filter_map(ignored_in_current(d))).push(name@));
            }
            r.push(name);
        }
        j += 1;
    }
    proof {
        lemma_take_all(c);
    }
    r
}

/// The pairs of the desired interfaces that are not left alone.
fn pair_desired(desired: &Vec<Interface>, current: &Vec<Interface>, gen_conf_mode: bool) -> (r:
    Result<Vec<MergedInterface>, NmstateError>)
    requires
        names_unique(views(current@)),
    ensures
        match r {
            Ok(v) => !pairs_fail(views(desired@), views(current@), gen_conf_mode) && views(v@)
                == views(desired@).filter_map(pairing(views(current@), gen_conf_mode)),
            Err(e) => pairs_fail(views(desired@), views(current@), gen_conf_mode) && e@.kind
                == ErrorKind::InvalidArgument,
        },
{
    let ghost d = views(desired@);
    let ghost c = views(current@);
    let mut out: Vec<MergedInterface> = Vec::new();
    let mut i: usize = 0;
    proof {
        lemma_filter_map_none(d, pairing(c, gen_conf_mode));
        assert(views(out@) =~= Seq::<MergedInterfaceView>::empty());
    }
    while i < desired.len()
        invariant
            i <= desired.len(),
            d == views(desired@),
            c == views(current@),
            names_unique(c),
            views(out@) == d.take(i as int).filter_map(pairing(c, gen_conf_mode)),
            forall|k: int|
                0 <= k < i && !(#[trigger] d[k]).is_ignore() ==> pair_of(d[k], c, gen_conf_mode)
                    is Some,
        decreases desired.len() - i,
    {
        proof {
            lemma_filter_map_step(d, pairing(c, gen_conf_mode), i as int);
        }
        if !desired[i].is_ignore() {
            let des = if gen_conf_mode {
                desired[i].clone().resolved_as(InterfaceType::Ethernet)
            } else {
                desired[i].clone()
            };
            let cur = match position_of(current, desired[i].name()) {
                Some(j) => {
                    proof {
                        lemma_find_unique(c, d[i as int].name(), j as int);
                    }
                    Some(current[j].clone())
                },
                None => None,
            };
            assert(opt_view(cur) == find(c, d[i as int].name()));
            match MergedInterface::new(Some(des), cur) {
                Ok(mut m) => {
                    m.post_inter_ifaces_process_vlan();
                    proof {
                        lemma_views_push(out@, m);
                    }
                    out.push(m);
                },
                Err(e) => {
                    assert(pair_of(d[i as int], c, gen_conf_mode) is None);
                    return Err(e);
                },
            }
        }
        i += 1;
    }
    proof {
        lemma_take_all(d);
    }
    Ok(out)
}

/// Appends the entries of the running interfaces that nothing is asked of.
fn append_untouched(
    ifaces: &mut Vec<MergedInterface>,
    desired: &Vec<Interface>,
    current: &Vec<Interface>,
)
    ensures
        views(final(ifaces)@) == views(old(ifaces)@) + views(current@).filter_map(
            untouched(views(desired@)),
        ),
{
    let ghost d = views(desired@);
    let ghost c = views(current@);
    let ghost before = views(ifaces@);
    let mut j: usize = 0;
    proof {
        lemma_filter_map_none(c, untouched(d));
        assert(before + Seq::<MergedInterfaceView>::empty() =~= before);
    }
    while j < current.len()
        invariant
            j <= current.len(),
            d == views(desired@),
            c == views(current@),
            views(ifaces@) == before + c.take(j as int).filter_map(untouched(d)),
        decreases current.len() - j,
    {
        proof {
            lemma_filter_map_step(c, untouched(d), j as int);
        }
        if !current[j].is_ignore() && position_of(desired, current[j].name()).is_none() {
            let m = MergedInterface { current: Some(current[j].clone()), for_apply: None };
            proof {
                lemma_views_push(ifaces@, m);
                assert(before + c.take(j as int).filter_map(untouched(d)).push(m@) =~= (before
                    + c.take(j as int).filter_map(untouched(d))).push(m@));
            }
            ifaces.push(m);
        }
        j += 1;
    }
    proof {
        lemma_take_all(c);
    }
}

/// Whether some entry of the list is about the interface of that name.
pub fn has_entry_named(ifaces: &Vec<MergedInterface>, name: &String) -> (r: bool)
    ensures
        r == has_entry(views(ifaces@), name@),
{
    let mut i: usize = 0;
    while i < ifaces.len()
        invariant
            i <= ifaces.len(),
            forall|k: int| 0 <= k < i ==> (#[trigger] ifaces@[k])@.name() != Some(name@),
        decreases ifaces.len() - i,
    {
        let found = match ifaces[i].name() {
            Some(n) => *n == *name,
            None => false,
        };
        if found {
            assert(views(ifaces@)[i as int].name() == Some(name@));
            return true;
        }
        i += 1;
    }
    assert forall|k: int| 0 <= k < views(ifaces@).len() implies (#[trigger] views(
        ifaces@,
    )[k]).name() != Some(name@) by {
        assert(ifaces@[k]@.name() != Some(name@));
    }
    false
}

/// Looks for a parent that is named and is not among the entries.
fn check_parents(ifaces: &Vec<MergedInterface>) -> (r: Result<(), NmstateError>)
    ensures
        match r {
            Ok(_) => parents_resolved(views(ifaces@)),
            Err(e) => !parents_resolved(views(ifaces@)) && e@.kind == ErrorKind::InvalidArgument,
        },
{
    let ghost e = views(ifaces@);
    let mut i: usize = 0;
    while i < ifaces.len()
        invariant
            i <= ifaces.len(),
            e == views(ifaces@),
            forall|k: int| 0 <= k < i ==> parent_resolved(e, #[trigger] e[k]),
        decreases ifaces.len() - i,
    {
        let missing: Option<&String> = match &ifaces[i].for_apply {
            Some(a) => match a.parent() {
                Some(p) => if !has_entry_named(ifaces, p) {
                    Some(p)
                } else {
                    None
                },
                None => None,
            },
            None => None,
        };
        match missing {
            Some(p) => {
                assert(!parent_resolved(e, e[i as int]));
                let msg = String::from_str("No interface is found for the parent ").concat(
                    p.as_str(),
                );
                return Err(NmstateError::new(ErrorKind::InvalidArgument, msg));
            },
            None => {
                assert(parent_resolved(e, e[i as int]));
            },
        }
        i += 1;
    }
    Ok(())
}

/// A pair that is made is valid: one side at least is present, and two
/// sides have the same name and the same kind.
pub proof fn lemma_merged_pair_is_valid(
    desired: Option<InterfaceView>,
    current: Option<InterfaceView>,
)
    requires
        MergedInterfaceView::merged(desired, current) is Some,
    ensures
        MergedInterfaceView::merged(desired, current)->0.wf(),
        MergedInterfaceView::merged(desired, current)->0.current == current,
        desired matches Some(d) ==> MergedInterfaceView::merged(desired, current)->0.name()
            == Some(d.name()),
{
}

/// Every entry of a merge comes from a desired interface that is not left
/// alone, paired with the running interface of its name, or from a running
/// interface that is not left alone and that the desired state does not
/// speak of.
pub proof fn lemma_entry_origin(
    d: Seq<InterfaceView>,
    c: Seq<InterfaceView>,
    gen_conf_mode: bool,
    k: int,
)
    requires
        0 <= k < entries(d, c, gen_conf_mode).len(),
    ensures
        ({
            let e = entries(d, c, gen_conf_mode)[k];
            ||| exists|i: int|
                0 <= i < d.len() && !(#[trigger] d[i]).is_ignore() && pair_of(
                    d[i],
                    c,
                    gen_conf_mode,
                ) == Some(e)
            ||| exists|j: int|
                0 <= j < c.len() && !(#[trigger] c[j]).is_ignore() && !has_name(d, c[j].name())
                    && e == (MergedInterfaceView { current: Some(c[j]), for_apply: None })
        }),
{
    let first = d.filter_map(pairing(c, gen_conf_mode));
    let second = c.filter_map(untouched(d));
    let e = entries(d, c, gen_conf_mode)[k];
    if k < first.len() {
        assert(first.contains(first[k]));
        d.lemma_filter_map_contains(pairing(c, gen_conf_mode), e);
        let t = choose|t: InterfaceView|
            #[trigger] d.contains(t) && pairing(c, gen_conf_mode)(t) == Some(e);
        let i = choose|i: int| 0 <= i < d.len() && d[i] == t;
        assert(!d[i].is_ignore() && pair_of(d[i], c, gen_conf_mode) == Some(e));
    } else {
        assert(e == second[k - first.len()]);
        assert(second.contains(second[k - first.len()]));
        c.lemma_filter_map_contains(untouched(d), e);
        let t = choose|t: InterfaceView| #[trigger] c.contains(t) && untouched(d)(t) == Some(e);
        let j = choose|j: int| 0 <= j < c.len() && c[j] == t;
        assert(!c[j].is_ignore() && !has_name(d, c[j].name()));
    }
}

/// Every entry of a merge is valid.
pub proof fn lemma_merged_interfaces_are_valid(
    d: Seq<InterfaceView>,
    c: Seq<InterfaceView>,
    gen_conf_mode: bool,
    memory_only: bool,
)
    requires
        merged_interfaces(d, c, gen_conf_mode, memory_only) is Some,
    ensures
        forall|k: int|
            0 <= k < merged_interfaces(d, c, gen_conf_mode, memory_only)->0.ifaces.len() ==> (
            #[trigger] merged_interfaces(d, c, gen_conf_mode, memory_only)->0.ifaces[k]).wf(),
{
    let m = merged_interfaces(d, c, gen_conf_mode, memory_only)->0;
    assert forall|k: int| 0 <= k < m.ifaces.len() implies (#[trigger] m.ifaces[k]).wf() by {
        lemma_entry_origin(d, c, gen_conf_mode, k);
        let e = m.ifaces[k];
        if exists|i: int|
            0 <= i < d.len() && !(#[trigger] d[i]).is_ignore() && pair_of(d[i], c, gen_conf_mode)
                == Some(e) {
            let i = choose|i: int|
                0 <= i < d.len() && !(#[trigger] d[i]).is_ignore() && pair_of(
                    d[i],
                    c,
                    gen_conf_mode,
                ) == Some(e);
            let x = asked(d[i], gen_conf_mode);
            lemma_merged_pair_is_valid(Some(x), find(c, d[i].name()));
            lemma_vlan_rule_keeps_identity(
                MergedInterfaceView::merged(Some(x), find(c, d[i].name()))->0,
            );
        }
    }
}

/// A name is in the list of the ignored names exactly if the interface of
/// that name is left out of the merge.
pub proof fn lemma_ignored_names(d: Seq<InterfaceView>, c: Seq<InterfaceView>, name: Seq<char>)
    ensures
        ignored_names(d, c).contains(name) <==> is_ignored(d, c, name),
{
    let first = d.filter_map(ignored_in_desired());
    let second = c.filter_map(ignored_in_current(d));
    let all = ignored_names(d, c);
    if all.contains(name) {
        let k = choose|k: int| 0 <= k < all.len() && all[k] == name;
        if k < first.len() {
            assert(first.contains(first[k]));
            d.lemma_filter_map_contains(ignored_in_desired(), name);
            let t = choose|t: InterfaceView|
                #[trigger] d.contains(t) && ignored_in_desired()(t) == Some(name);
            let i = choose|i: int| 0 <= i < d.len() && d[i] == t;
            assert(d[i].is_ignore() && d[i].name() == name);
        } else {
            assert(second.contains(second[k - first.len()]));
            c.lemma_filter_map_contains(ignored_in_current(d), name);
            let t = choose|t: InterfaceView|
                #[trigger] c.contains(t) && ignored_in_current(d)(t) == Some(name);
            let j = choose|j: int| 0 <= j < c.len() && c[j] == t;
            assert(c[j].is_ignore() && c[j].name() == name);
        }
    }
    if is_ignored(d, c, name) {
        if exists|i: int| 0 <= i < d.len() && (#[trigger] d[i]).is_ignore() && d[i].name() == name {
            let i = choose|i: int|
                0 <= i < d.len() && (#[trigger] d[i]).is_ignore() && d[i].name() == name;
            lemma_filter_map_has(d, ignored_in_desired(), i);
            let k = choose|k: int| 0 <= k < first.len() && first[k] == name;
            assert(all[k] == name);
        } else {
            let j = choose|j: int|
                0 <= j < c.len() && (#[trigger] c[j]).is_ignore() && c[j].name() == name;
            lemma_filter_map_has(c, ignored_in_current(d), j);
            let k = choose|k: int| 0 <= k < second.len() && second[k] == name;
            assert(all[first.len() + k] == name);
        }
    }
}

/// In a merge, every parent that an interface to apply names has an entry.
pub proof fn lemma_parents_have_entries(
    d: Seq<InterfaceView>,
    c: Seq<InterfaceView>,
    gen_conf_mode: bool,
    memory_only: bool,
    k: int,
)
    requires
        merged_interfaces(d, c, gen_conf_mode, memory_only) is Some,
        0 <= k < merged_interfaces(d, c, gen_conf_mode, memory_only)->0.ifaces.len(),
    ensures
        ({
            let m = merged_interfaces(d, c, gen_conf_mode, memory_only)->0;
            m.ifaces[k].for_apply matches Some(a) ==> (a.parent() matches Some(p) ==> has_entry(
                m.ifaces,
                p,
            ))
        }),
{
    let m = merged_interfaces(d, c, gen_conf_mode, memory_only)->0;
    assert(parent_resolved(m.ifaces, m.ifaces[k]));
}

/// A desired interface that is not marked to be left alone and names a
/// parent that neither state has makes the merge fail, whatever the state of
/// the interface and whatever the mode.
pub proof fn lemma_missing_parent_is_refused(
    d: Seq<InterfaceView>,
    c: Seq<InterfaceView>,
    gen_conf_mode: bool,
    memory_only: bool,
    i: int,
)
    requires
        0 <= i < d.len(),
        !d[i].is_ignore(),
        d[i].parent() is Some,
        !has_name(d, d[i].parent()->0),
        !has_name(c, d[i].parent()->0),
    ensures
        merged_interfaces(d, c, gen_conf_mode, memory_only) is None,
{
    if merged_interfaces(d, c, gen_conf_mode, memory_only) is Some {
        let m = merged_interfaces(d, c, gen_conf_mode, memory_only)->0;
        let p = d[i].parent()->0;
        let pairs = d.filter_map(pairing(c, gen_conf_mode));
        let x = asked(d[i], gen_conf_mode);
        assert(pair_of(d[i], c, gen_conf_mode) is Some);
        let e = pair_of(d[i], c, gen_conf_mode)->0;
        lemma_merged_pair_is_valid(Some(x), find(c, d[i].name()));
        lemma_vlan_rule_keeps_identity(
            MergedInterfaceView::merged(Some(x), find(c, d[i].name()))->0,
        );
        assert(e.for_apply->0.parent() == Some(p));
        lemma_filter_map_has(d, pairing(c, gen_conf_mode), i);
        let k = choose|k: int| 0 <= k < pairs.len() && pairs[k] == e;
        assert(m.ifaces[k] == e);
        lemma_parents_have_entries(d, c, gen_conf_mode, memory_only, k);
        let k2 = choose|k2: int|
            0 <= k2 < m.ifaces.len() && (#[trigger] m.ifaces[k2]).name() == Some(p);
        let e2 = m.ifaces[k2];
        lemma_entry_origin(d, c, gen_conf_mode, k2);
        if exists|i2: int|
            0 <= i2 < d.len() && !(#[trigger] d[i2]).is_ignore() && pair_of(
                d[i2],
                c,
                gen_conf_mode,
            ) == Some(e2) {
            let i2 = choose|i2: int|
                0 <= i2 < d.len() && !(#[trigger] d[i2]).is_ignore() && pair_of(
                    d[i2],
                    c,
                    gen_conf_mode,
                ) == Some(e2);
            let x2 = asked(d[i2], gen_conf_mode);
            lemma_merged_pair_is_valid(Some(x2), find(c, d[i2].name()));
            lemma_vlan_rule_keeps_identity(
                MergedInterfaceView::merged(Some(x2), find(c, d[i2].name()))->0,
            );
            assert(d[i2].name() == p);
        } else {
            let j = choose|j: int|
                0 <= j < c.len() && !(#[trigger] c[j]).is_ignore() && !has_name(d, c[j].name())
                    && e2 == (MergedInterfaceView { current: Some(c[j]), for_apply: None });
            assert(c[j].name() == p);
        }
    }
}

/// An interface that is left out of a merge has no entry in it.
pub proof fn lemma_ignored_interfaces_are_left_out(
    d: Seq<InterfaceView>,
    c: Seq<InterfaceView>,
    gen_conf_mode: bool,
    memory_only: bool,
    name: Seq<char>,
)
    requires
        merged_interfaces(d, c, gen_conf_mode, memory_only) is Some,
        is_ignored(d, c, name),
    ensures
        !has_entry(merged_interfaces(d, c, gen_conf_mode, memory_only)->0.ifaces, name),
{
    let m = merged_interfaces(d, c, gen_conf_mode, memory_only)->0;
    if has_entry(m.ifaces, name) {
        let k = choose|k: int| 0 <= k < m.ifaces.len() && (#[trigger] m.ifaces[k]).name() == Some(
            name,
        );
        let e = m.ifaces[k];
        lemma_entry_origin(d, c, gen_conf_mode, k);
        if exists|i: int|
            0 <= i < d.len() && !(#[trigger] d[i]).is_ignore() && pair_of(d[i], c, gen_conf_mode)
                == Some(e) {
            let i = choose|i: int|
                0 <= i < d.len() && !(#[trigger] d[i]).is_ignore() && pair_of(
                    d[i],
                    c,
                    gen_conf_mode,
                ) == Some(e);
            let x = asked(d[i], gen_conf_mode);
            lemma_merged_pair_is_valid(Some(x), find(c, d[i].name()));
            lemma_vlan_rule_keeps_identity(
                MergedInterfaceView::merged(Some(x), find(c, d[i].name()))->0,
            );
            assert(d[i].name() == name);
            if exists|i2: int|
                0 <= i2 < d.len() && (#[trigger] d[i2]).is_ignore() && d[i2].name() == name {
                let i2 = choose|i2: int|
                    0 <= i2 < d.len() && (#[trigger] d[i2]).is_ignore() && d[i2].name() == name;
                if i2 < i {
                    assert(d[i2].name() != d[i].name());
                } else {
                    assert(d[i].name() != d[i2].name());
                }
            }
        } else {
            let j = choose|j: int|
                0 <= j < c.len() && !(#[trigger] c[j]).is_ignore() && !has_name(d, c[j].name())
                    && e == (MergedInterfaceView { current: Some(c[j]), for_apply: None });
            assert(c[j].name() == name);
            let j2 = choose|j2: int|
                0 <= j2 < c.len() && (#[trigger] c[j2]).is_ignore() && c[j2].name() == name;
            if j2 < j {
                assert(c[j2].name() != c[j].name());
            } else {
                assert(c[j].name() != c[j2].name());
            }
        }
    }
}

/// The entry of a desired interface that does not run yet: nothing current,
/// and the interface as it is taken, normalized as its kind asks.
pub open spec fn creation_of(x: InterfaceView, gen_conf_mode: bool) -> MergedInterfaceView {
    (MergedInterfaceView {
        current: None,
        for_apply: Some(asked(x, gen_conf_mode)),
    }).post_process_vlan()
}

/// The entry of a running interface of which nothing is asked.
pub open spec fn untouched_of(x: InterfaceView) -> MergedInterfaceView {
    MergedInterfaceView { current: Some(x), for_apply: None }
}

/// The entry is the creation of a desired interface that is not marked to be
/// left alone, or the entry of a running interface that is not marked and of
/// which nothing is asked.
pub open spec fn creates_or_keeps(
    e: MergedInterfaceView,
    d: Seq<InterfaceView>,
    c: Seq<InterfaceView>,
    gen_conf_mode: bool,
) -> bool {
    ||| exists|i: int|
        0 <= i < d.len() && !(#[trigger] d[i]).is_ignore() && e == creation_of(
            d[i],
            gen_conf_mode,
        )
    ||| exists|j: int|
        0 <= j < c.len() && !(#[trigger] c[j]).is_ignore() && e == untouched_of(c[j])
}

/// Some interface of that name is marked to be left alone, in the desired
/// or in the current state.
pub open spec fn is_marked(d: Seq<InterfaceView>, c: Seq<InterfaceView>, name: Seq<char>) -> bool {
    ||| exists|i: int| 0 <= i < d.len() && (#[trigger] d[i]).is_ignore() && d[i].name() == name
    ||| exists|j: int| 0 <= j < c.len() && (#[trigger] c[j]).is_ignore() && c[j].name() == name
}

/// The entry of a desired interface that does not run yet is a creation. It
/// is about the name of the desired interface, and what is to apply has that
/// name and the kind that the desired interface states. Where it states none,
/// the kind is Ethernet when a configuration is generated.
pub proof fn lemma_creation_entry(x: InterfaceView, gen_conf_mode: bool)
    ensures
        creation_of(x, gen_conf_mode).is_creation(),
        creation_of(x, gen_conf_mode).name() == Some(x.name()),
        creation_of(x, gen_conf_mode).for_apply->0.name() == x.name(),
        x.iface_type() != InterfaceType::Unknown ==> creation_of(
            x,
            gen_conf_mode,
        ).for_apply->0.iface_type() == x.iface_type(),
        x.iface_type() == InterfaceType::Unknown && gen_conf_mode ==> creation_of(
            x,
            gen_conf_mode,
        ).for_apply->0.iface_type() == InterfaceType::Ethernet,
{
    lemma_vlan_rule_keeps_identity(
        MergedInterfaceView { current: None, for_apply: Some(asked(x, gen_conf_mode)) },
    );
}

/// Where no name occurs in both states, the merge holds exactly these
/// entries: a creation for each desired interface that is not marked to be
/// left alone, and an entry of which nothing is asked for each running
/// interface that is not marked. The names of the marked ones, and no
/// others, are the ignored names.
pub proof fn lemma_merge_of_disjoint_names(
    d: Seq<InterfaceView>,
    c: Seq<InterfaceView>,
    gen_conf_mode: bool,
    memory_only: bool,
)
    requires
        merged_interfaces(d, c, gen_conf_mode, memory_only) is Some,
        forall|i: int, j: int|
            0 <= i < d.len() && 0 <= j < c.len() ==> (#[trigger] d[i]).name() != (
            #[trigger] c[j]).name(),
    ensures
        ({
            let m = merged_interfaces(d, c, gen_conf_mode, memory_only)->0;
            &&& forall|i: int|
                0 <= i < d.len() && !(#[trigger] d[i]).is_ignore() ==> m.ifaces.contains(
                    creation_of(d[i], gen_conf_mode),
                )
            &&& forall|j: int|
                0 <= j < c.len() && !(#[trigger] c[j]).is_ignore() ==> m.ifaces.contains(
                    untouched_of(c[j]),
                )
            &&& forall|k: int|
                0 <= k < m.ifaces.len() ==> creates_or_keeps(
                    #[trigger] m.ifaces[k],
                    d,
                    c,
                    gen_conf_mode,
                )
            &&& forall|name: Seq<char>|
                #[trigger] m.ignored_ifaces.contains(name) <==> is_marked(d, c, name)
        }),
{
    let m = merged_interfaces(d, c, gen_conf_mode, memory_only)->0;
    let p = pairing(c, gen_conf_mode);
    let u = untouched(d);
    let first = d.filter_map(p);
    let second = c.filter_map(u);
    assert forall|i: int| 0 <= i < d.len() implies find(c, (#[trigger] d[i]).name()) is None by {
        if has_name(c, d[i].name()) {
            let j = choose|j: int| 0 <= j < c.len() && (#[trigger] c[j]).name() == d[i].name();
            assert(d[i].name() != c[j].name());
        }
    }
    assert forall|j: int| 0 <= j < c.len() implies !has_name(d, (#[trigger] c[j]).name()) by {
        if has_name(d, c[j].name()) {
            let i = choose|i: int| 0 <= i < d.len() && (#[trigger] d[i]).name() == c[j].name();
            assert(d[i].name() != c[j].name());
        }
    }
    assert forall|i: int| 0 <= i < d.len() && !(#[trigger] d[i]).is_ignore() implies pair_of(
        d[i],
        c,
        gen_conf_mode,
    ) == Some(creation_of(d[i], gen_conf_mode)) by {
        assert(pair_of(d[i], c, gen_conf_mode) is Some);
        assert(find(c, d[i].name()) is None);
    }
    assert forall|i: int|
        0 <= i < d.len() && !(#[trigger] d[i]).is_ignore() implies m.ifaces.contains(
        creation_of(d[i], gen_conf_mode),
    ) by {
        assert(p(d[i]) == Some(creation_of(d[i], gen_conf_mode)));
        lemma_filter_map_has(d, p, i);
        let k = choose|k: int|
            0 <= k < first.len() && first[k] == creation_of(d[i], gen_conf_mode);
        assert(m.ifaces[k] == first[k]);
    }
    assert forall|j: int|
        0 <= j < c.len() && !(#[trigger] c[j]).is_ignore() implies m.ifaces.contains(
        untouched_of(c[j]),
    ) by {
        assert(!has_name(d, c[j].name()));
        assert(u(c[j]) == Some(untouched_of(c[j])));
        lemma_filter_map_has(c, u, j);
        let k = choose|k: int| 0 <= k < second.len() && second[k] == untouched_of(c[j]);
        assert(m.ifaces[first.len() + k] == second[k]);
    }
    assert forall|k: int| 0 <= k < m.ifaces.len() implies creates_or_keeps(
        #[trigger] m.ifaces[k],
        d,
        c,
        gen_conf_mode,
    ) by {
        lemma_entry_origin(d, c, gen_conf_mode, k);
        let e = m.ifaces[k];
        if exists|i: int|
            0 <= i < d.len() && !(#[trigger] d[i]).is_ignore() && pair_of(d[i], c, gen_conf_mode)
                == Some(e) {
            let i = choose|i: int|
                0 <= i < d.len() && !(#[trigger] d[i]).is_ignore() && pair_of(
                    d[i],
                    c,
                    gen_conf_mode,
                ) == Some(e);
            assert(!d[i].is_ignore() && e == creation_of(d[i], gen_conf_mode));
        } else {
            let j = choose|j: int|
                0 <= j < c.len() && !(#[trigger] c[j]).is_ignore() && !has_name(d, c[j].name())
                    && e == (MergedInterfaceView { current: Some(c[j]), for_apply: None });
            assert(!c[j].is_ignore() && e == untouched_of(c[j]));
        }
    }
    assert forall|name: Seq<char>| #[trigger]
        m.ignored_ifaces.contains(name) <==> is_marked(d, c, name) by {
        lemma_ignored_names(d, c, name);
        if exists|j: int| 0 <= j < c.len() && (#[trigger] c[j]).is_ignore() && c[j].name() == name {
            let j = choose|j: int|
                0 <= j < c.len() && (#[trigger] c[j]).is_ignore() && c[j].name() == name;
            assert(!has_name(d, c[j].name()));
        }
    }
}

/// Where no name occurs in both states and no interface is marked to be left
/// alone, the merge holds every interface of both states: first one entry for
/// each desired interface, a creation, then one entry for each running
/// interface, of which nothing is asked.
pub proof fn lemma_merge_of_disjoint_states(
    d: Seq<InterfaceView>,
    c: Seq<InterfaceView>,
    gen_conf_mode: bool,
    memory_only: bool,
)
    requires
        merged_interfaces(d, c, gen_conf_mode, memory_only) is Some,
        forall|i: int, j: int|
            0 <= i < d.len() && 0 <= j < c.len() ==> (#[trigger] d[i]).name() != (
            #[trigger] c[j]).name(),
        forall|i: int| 0 <= i < d.len() ==> !(#[trigger] d[i]).is_ignore(),
        forall|j: int| 0 <= j < c.len() ==> !(#[trigger] c[j]).is_ignore(),
    ensures
        ({
            let m = merged_interfaces(d, c, gen_conf_mode, memory_only)->0;
            &&& m.ifaces.len() == d.len() + c.len()
            &&& m.ignored_ifaces.len() == 0
            &&& forall|i: int|
                0 <= i < d.len() ==> (#[trigger] m.ifaces[i]).is_creation() && m.ifaces[i].name()
                    == Some(d[i].name()) && m.ifaces[i] == (MergedInterfaceView {
                    current: None,
                    for_apply: Some(asked(d[i], gen_conf_mode)),
                }).post_process_vlan()
            &&& forall|j: int|
                0 <= j < c.len() ==> (#[trigger] m.ifaces[d.len() + j]) == (MergedInterfaceView {
                    current: Some(c[j]),
                    for_apply: None,
                })
        }),
{
    let m = merged_interfaces(d, c, gen_conf_mode, memory_only)->0;
    let p = pairing(c, gen_conf_mode);
    let u = untouched(d);
    assert forall|i: int| 0 <= i < d.len() implies (#[trigger] p(d[i])) is Some && p(d[i])
        == Some(
        (MergedInterfaceView {
            current: None,
            for_apply: Some(asked(d[i], gen_conf_mode)),
        }).post_process_vlan(),
    ) by {
        assert(!d[i].is_ignore());
        assert(pair_of(d[i], c, gen_conf_mode) is Some);
        if has_name(c, d[i].name()) {
            let j = choose|j: int| 0 <= j < c.len() && (#[trigger] c[j]).name() == d[i].name();
            assert(d[i].name() != c[j].name());
        }
        assert(find(c, d[i].name()) is None);
    }
    lemma_filter_map_total(d, p);
    assert forall|j: int| 0 <= j < c.len() implies (#[trigger] u(c[j])) is Some && u(c[j])
        == Some(MergedInterfaceView { current: Some(c[j]), for_apply: None }) by {
        assert(!c[j].is_ignore());
        if has_name(d, c[j].name()) {
            let i = choose|i: int| 0 <= i < d.len() && (#[trigger] d[i]).name() == c[j].name();
            assert(d[i].name() != c[j].name());
        }
    }
    lemma_filter_map_total(c, u);
    assert forall|i: int| 0 <= i < d.len() implies (#[trigger] m.ifaces[i]).is_creation()
        && m.ifaces[i].name() == Some(d[i].name()) && m.ifaces[i] == (MergedInterfaceView {
        current: None,
        for_apply: Some(asked(d[i], gen_conf_mode)),
    }).post_process_vlan() by {
        assert(m.ifaces[i] == d.filter_map(p)[i]);
        assert(p(d[i]) is Some);
        lemma_vlan_rule_keeps_identity(
            MergedInterfaceView { current: None, for_apply: Some(asked(d[i], gen_conf_mode)) },
        );
    }
    assert forall|j: int| 0 <= j < c.len() implies (#[trigger] m.ifaces[d.len() + j]) == (
    MergedInterfaceView { current: Some(c[j]), for_apply: None }) by {
        assert(m.ifaces[d.len() + j] == c.filter_map(u)[j]);
        assert(u(c[j]) is Some);
    }
    assert forall|i: int| 0 <= i < d.len() implies (#[trigger] ignored_in_desired()(d[i]))
        is None by {
        assert(!d[i].is_ignore());
    }
    crate::model::lemma_filter_map_empty(d, ignored_in_desired());
    assert forall|j: int| 0 <= j < c.len() implies (#[trigger] ignored_in_current(d)(c[j]))
        is None by {
        assert(!c[j].is_ignore());
    }
    crate::model::lemma_filter_map_empty(c, ignored_in_current(d));
}

} // verus!
