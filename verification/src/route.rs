//! Routes, and their merge.

use crate::error::{ErrorKind, NmstateError};
use crate::ifaces::merged::{has_entry, MergedInterfaces, MergedInterfacesView};
use crate::model::{list_or_empty, opt_view, opt_views, or_empty, views};
use crate::overlay::{overlaid, overlay, remove_bound, without_bound, Bound, Entry, Overlay};
use crate::text::{clone_opt_text, opt_text_admits, opt_text_eq, text_in};
use vstd::prelude::*;
use vstd::string::StringExecFns;

verus! {

/// What a desired state asks of a route, beyond stating it.
#[derive(Clone, Copy, Debug, PartialEq, Eq, Structural)]
pub enum RouteState {
    /// The routes that match the entry are removed.
    Absent,
}

impl View for RouteState {
    type V = RouteState;

    open spec fn view(&self) -> RouteState {
        *self
    }
}

/// Whether a pattern leaves the number open or states the same as `value`.
pub open spec fn admits<T>(pattern: Option<T>, value: Option<T>) -> bool {
    pattern is None || pattern == value
}

/// The mathematical value of a [`RouteEntry`].
pub struct RouteEntryView {
    pub state: Option<RouteState>,
    pub destination: Option<Seq<char>>,
    pub next_hop_iface: Option<Seq<char>>,
    pub next_hop_addr: Option<Seq<char>>,
    pub metric: Option<i64>,
    pub table_id: Option<u32>,
}

impl RouteEntryView {
    /// Whether the entry asks for the removal of routes.
    pub open spec fn is_absent(self) -> bool {
        self.state is Some
    }

    /// Whether every attribute that this entry states is the same in `c`.
    pub open spec fn matches(self, c: RouteEntryView) -> bool {
        &&& admits(self.destination, c.destination)
        &&& admits(self.next_hop_iface, c.next_hop_iface)
        &&& admits(self.next_hop_addr, c.next_hop_addr)
        &&& admits(self.metric, c.metric)
        &&& admits(self.table_id, c.table_id)
    }

    /// Whether the two entries describe the same route.
    pub open spec fn same_route(self, c: RouteEntryView) -> bool {
        &&& self.destination == c.destination
        &&& self.next_hop_iface == c.next_hop_iface
        &&& self.next_hop_addr == c.next_hop_addr
        &&& self.metric == c.metric
        &&& self.table_id == c.table_id
    }
}

/// One route.
#[derive(Debug, PartialEq, Eq)]
pub struct RouteEntry {
    pub state: Option<RouteState>,
    pub destination: Option<String>,
    pub next_hop_iface: Option<String>,
    pub next_hop_addr: Option<String>,
    pub metric: Option<i64>,
    pub table_id: Option<u32>,
}

impl View for RouteEntry {
    type V = RouteEntryView;

    open spec fn view(&self) -> RouteEntryView {
        RouteEntryView {
            state: self.state,
            destination: opt_view(self.destination),
            next_hop_iface: opt_view(self.next_hop_iface),
            next_hop_addr: opt_view(self.next_hop_addr),
            metric: self.metric,
            table_id: self.table_id,
        }
    }
}

impl Clone for RouteEntry {
    fn clone(&self) -> (r: Self)
        ensures
            r@ == self@,
    {
        RouteEntry {
            state: self.state,
            destination: clone_opt_text(&self.destination),
            next_hop_iface: clone_opt_text(&self.next_hop_iface),
            next_hop_addr: clone_opt_text(&self.next_hop_addr),
            metric: self.metric,
            table_id: self.table_id,
        }
    }
}

impl RouteEntry {
    /// A route of which nothing is stated.
    pub fn new() -> (r: Self)
        ensures
            r@ == (RouteEntryView {
                state: None,
                destination: None,
                next_hop_iface: None,
                next_hop_addr: None,
                metric: None,
                table_id: None,
            }),
    {
        RouteEntry {
            state: None,
            destination: None,
            next_hop_iface: None,
            next_hop_addr: None,
            metric: None,
            table_id: None,
        }
    }

    /// Whether the entry asks for the removal of routes.
    pub fn is_absent(&self) -> (r: bool)
        ensures
            r == self@.is_absent(),
    {
        match self.state {
            Some(_) => true,
            None => false,
        }
    }

    /// Whether every attribute that this entry states is the same in `c`.
    pub fn matches(&self, c: &RouteEntry) -> (r: bool)
        ensures
            r == self@.matches(c@),
    {
        opt_text_admits(&self.destination, &c.destination) && opt_text_admits(
            &self.next_hop_iface,
            &c.next_hop_iface,
        ) && opt_text_admits(&self.next_hop_addr, &c.next_hop_addr) && (match self.metric {
            Some(m) => match c.metric {
                Some(n) => m == n,
                None => false,
            },
            None => true,
        }) && (match self.table_id {
            Some(m) => match c.table_id {
                Some(n) => m == n,
                None => false,
            },
            None => true,
        })
    }

    /// Whether the two entries describe the same route.
    pub fn same_route(&self, c: &RouteEntry) -> (r: bool)
        ensures
            r == self@.same_route(c@),
    {
        opt_text_eq(&self.destination, &c.destination) && opt_text_eq(
            &self.next_hop_iface,
            &c.next_hop_iface,
        ) && opt_text_eq(&self.next_hop_addr, &c.next_hop_addr) && (match (self.metric, c.metric) {
            (Some(m), Some(n)) => m == n,
            (None, None) => true,
            _ => false,
        }) && (match (self.table_id, c.table_id) {
            (Some(m), Some(n)) => m == n,
            (None, None) => true,
            _ => false,
        })
    }
}

impl Entry for RouteEntry {
    fn duplicate(&self) -> (r: Self) {
        self.clone()
    }
}

impl Overlay for RouteEntry {
    /// A removal speaks of the routes that it matches, a stated route of the
    /// same route.
    open spec fn speaks_of(d: RouteEntryView, c: RouteEntryView) -> bool {
        if d.is_absent() {
            d.matches(c)
        } else {
            d.same_route(c)
        }
    }

    open spec fn is_stated(d: RouteEntryView) -> bool {
        !d.is_absent()
    }

    fn says_of(&self, c: &Self) -> (r: bool) {
        if self.is_absent() {
            self.matches(c)
        } else {
            self.same_route(c)
        }
    }

    fn states(&self) -> (r: bool) {
        !self.is_absent()
    }
}

impl Bound for RouteEntry {
    /// A route is bound to its next-hop interface.
    open spec fn bound_iface(v: RouteEntryView) -> Option<Seq<char>> {
        v.next_hop_iface
    }

    fn iface(&self) -> (r: Option<&String>) {
        match &self.next_hop_iface {
            Some(n) => Some(n),
            None => None,
        }
    }
}

/// The mathematical value of [`Routes`].
pub struct RoutesView {
    pub running: Option<Seq<RouteEntryView>>,
    pub config: Option<Seq<RouteEntryView>>,
}

/// The routes of a network state.
#[derive(Debug, PartialEq, Eq)]
pub struct Routes {
    /// The routes that are in effect.
    pub running: Option<Vec<RouteEntry>>,
    /// The routes that are configured.
    pub config: Option<Vec<RouteEntry>>,
}

impl View for Routes {
    type V = RoutesView;

    open spec fn view(&self) -> RoutesView {
        RoutesView { running: opt_views(self.running), config: opt_views(self.config) }
    }
}

impl Clone for Routes {
    fn clone(&self) -> (r: Self)
        ensures
            r@ == self@,
    {
        Routes {
            running: crate::overlay::duplicate_opt_list(&self.running),
            config: crate::overlay::duplicate_opt_list(&self.config),
        }
    }
}

impl Default for Routes {
    fn default() -> (r: Self)
        ensures
            r@ == (RoutesView { running: None, config: None }),
    {
        Routes { running: None, config: None }
    }
}

impl RoutesView {
    pub open spec fn is_empty(self) -> bool {
        self.running is None && self.config is None
    }
}

impl Routes {
    /// No routes.
    pub fn new() -> (r: Self)
        ensures
            r@ == (RoutesView { running: None, config: None }),
    {
        Routes { running: None, config: None }
    }

    /// Whether neither running nor configured routes are stated.
    pub fn is_empty(&self) -> (r: bool)
        ensures
            r == self@.is_empty(),
    {
        self.running.is_none() && self.config.is_none()
    }
}

/// The next-hop interface of a desired route, where it names one and is not
/// a removal, is a merged interface or one that was left out.
pub open spec fn route_resolved(r: RouteEntryView, ifaces: MergedInterfacesView) -> bool {
    match r.next_hop_iface {
        Some(n) => r.is_absent() || has_entry(ifaces.ifaces, n) || ifaces.ignored_ifaces.contains(
            n,
        ),
        None => true,
    }
}

/// The merge of the configured routes of two states, or `None` where a
/// desired route names a next-hop interface that is not known.
pub open spec fn merged_routes(desired: RoutesView, current: RoutesView, ifaces: MergedInterfacesView)
    -> Option<Seq<RouteEntryView>> {
    let des = or_empty(desired.config);
    if exists|i: int| 0 <= i < des.len() && !route_resolved(#[trigger] des[i], ifaces) {
        None
    } else {
        Some(overlaid::<RouteEntry>(des, or_empty(current.config)))
    }
}

/// The routes that come out of a merge.
#[derive(Debug, PartialEq, Eq)]
pub struct MergedRoutes {
    routes: Vec<RouteEntry>,
}

impl View for MergedRoutes {
    type V = Seq<RouteEntryView>;

    closed spec fn view(&self) -> Seq<RouteEntryView> {
        views(self.routes@)
    }
}

impl MergedRoutes {
    /// Merges the desired routes with the current ones. The merged
    /// interfaces say which next-hop interfaces are known.
    pub fn new(desired: Routes, current: Routes, merged_ifaces: &MergedInterfaces) -> (r: Result<
        Self,
        NmstateError,
    >)
        ensures
            match r {
                Ok(m) => merged_routes(desired@, current@, merged_ifaces@) == Some(m@),
                Err(e) => merged_routes(desired@, current@, merged_ifaces@) is None && e@.kind
                    == ErrorKind::InvalidArgument,
            },
    {
        let des = list_or_empty(desired.config);
        let cur = list_or_empty(current.config);
        let ghost d = views(des@);
        let mut i: usize = 0;
        while i < des.len()
            invariant
                i <= des.len(),
                d == views(des@),
                d == or_empty(desired@.config),
                forall|k: int| 0 <= k < i ==> route_resolved(#[trigger] d[k], merged_ifaces@),
            decreases des.len() - i,
        {
            let known = match &des[i].next_hop_iface {
                Some(n) => des[i].is_absent() || merged_ifaces.has_iface(n) || text_in(
                    merged_ifaces.ignored_ifaces().as_slice(),
                    n,
                ),
                None => true,
            };
            if !known {
                assert(!route_resolved(d[i as int], merged_ifaces@));
                return Err(
                    NmstateError::new(
                        ErrorKind::InvalidArgument,
                        String::from_str("A route names a next-hop interface that is not known"),
                    ),
                );
            }
            i += 1;
        }
        Ok(MergedRoutes { routes: overlay(&des, &cur) })
    }

    /// The merged routes.
    pub fn routes(&self) -> (r: &Vec<RouteEntry>)
        ensures
            views(r@) == self@,
    {
        &self.routes
    }

    /// Takes out the routes whose next-hop interface is one of
    /// `ignored_ifaces`.
    pub fn remove_routes_to_ignored_ifaces(&mut self, ignored_ifaces: &[String])
        ensures
            final(self)@ == without_bound::<RouteEntry>(old(self)@, views(ignored_ifaces@)),
    {
        remove_bound(&mut self.routes, ignored_ifaces);
    }
}

} // verus!
