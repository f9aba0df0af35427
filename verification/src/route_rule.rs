//! Route rules, and their merge.

use crate::error::{ErrorKind, NmstateError};
use crate::model::{list_or_empty, opt_view, opt_views, or_empty, views};
use crate::overlay::{overlaid, overlay, remove_bound, without_bound, Bound, Entry, Overlay};
use crate::route::admits;
use crate::text::{clone_opt_text, opt_text_admits, opt_text_eq};
use vstd::prelude::*;
use vstd::string::StringExecFns;

verus! {

/// What a desired state asks of a rule, beyond stating it.
#[derive(Clone, Copy, Debug, PartialEq, Eq, Structural)]
pub enum RouteRuleState {
    /// The rules that match the entry are removed.
    Absent,
}

impl View for RouteRuleState {
    type V = RouteRuleState;

    open spec fn view(&self) -> RouteRuleState {
        *self
    }
}

/// The mathematical value of a [`RouteRuleEntry`].
pub struct RouteRuleEntryView {
    pub state: Option<RouteRuleState>,
    pub ip_from: Option<Seq<char>>,
    pub ip_to: Option<Seq<char>>,
    pub priority: Option<i64>,
    pub table_id: Option<u32>,
    pub iif: Option<Seq<char>>,
}

impl RouteRuleEntryView {
    /// Whether the entry asks for the removal of rules.
    pub open spec fn is_absent(self) -> bool {
        self.state is Some
    }

    /// Whether every attribute that this entry states is the same in `c`.
    pub open spec fn matches(self, c: RouteRuleEntryView) -> bool {
        &&& admits(self.ip_from, c.ip_from)
        &&& admits(self.ip_to, c.ip_to)
        &&& admits(self.priority, c.priority)
        &&& admits(self.table_id, c.table_id)
        &&& admits(self.iif, c.iif)
    }

    /// Whether the two entries describe the same rule.
    pub open spec fn same_rule(self, c: RouteRuleEntryView) -> bool {
        &&& self.ip_from == c.ip_from
        &&& self.ip_to == c.ip_to
        &&& self.priority == c.priority
        &&& self.table_id == c.table_id
        &&& self.iif == c.iif
    }

    /// A rule that is to be there says from where or to where it applies.
    pub open spec fn is_valid(self) -> bool {
        self.is_absent() || self.ip_from is Some || self.ip_to is Some
    }
}

/// One route rule.
#[derive(Debug, PartialEq, Eq)]
pub struct RouteRuleEntry {
    pub state: Option<RouteRuleState>,
    pub ip_from: Option<String>,
    pub ip_to: Option<String>,
    pub priority: Option<i64>,
    pub table_id: Option<u32>,
    /// The incoming interface that the rule is bound to.
    pub iif: Option<String>,
}

impl View for RouteRuleEntry {
    type V = RouteRuleEntryView;

    open spec fn view(&self) -> RouteRuleEntryView {
        RouteRuleEntryView {
            state: self.state,
            ip_from: opt_view(self.ip_from),
            ip_to: opt_view(self.ip_to),
            priority: self.priority,
            table_id: self.table_id,
            iif: opt_view(self.iif),
        }
    }
}

impl Clone for RouteRuleEntry {
    fn clone(&self) -> (r: Self)
        ensures
            r@ == self@,
    {
        RouteRuleEntry {
            state: self.state,
            ip_from: clone_opt_text(&self.ip_from),
            ip_to: clone_opt_text(&self.ip_to),
            priority: self.priority,
            table_id: self.table_id,
            iif: clone_opt_text(&self.iif),
        }
    }
}

impl RouteRuleEntry {
    /// A rule of which nothing is stated.
    pub fn new() -> (r: Self)
        ensures
            r@ == (RouteRuleEntryView {
                state: None,
                ip_from: None,
                ip_to: None,
                priority: None,
                table_id: None,
                iif: None,
            }),
    {
        RouteRuleEntry {
            state: None,
            ip_from: None,
            ip_to: None,
            priority: None,
            table_id: None,
            iif: None,
        }
    }

    /// Whether the entry asks for the removal of rules.
    pub fn is_absent(&self) -> (r: bool)
        ensures
            r == self@.is_absent(),
    {
        self.state.is_some()
    }

    /// Whether every attribute that this entry states is the same in `c`.
    pub fn matches(&self, c: &RouteRuleEntry) -> (r: bool)
        ensures
            r == self@.matches(c@),
    {
        opt_text_admits(&self.ip_from, &c.ip_from) && opt_text_admits(&self.ip_to, &c.ip_to) && (
        match self.priority {
            Some(m) => match c.priority {
                Some(n) => m == n,
                None => false,
            },
            None => true,
        }) && (match self.table_id {
            Some(m) => match c.table_id {
                Some(n) => m == n,
                None => false,
            },
            None => true,
        }) && opt_text_admits(&self.iif, &c.iif)
    }

    /// Whether the two entries describe the same rule.
    pub fn same_rule(&self, c: &RouteRuleEntry) -> (r: bool)
        ensures
            r == self@.same_rule(c@),
    {
        opt_text_eq(&self.ip_from, &c.ip_from) && opt_text_eq(&self.ip_to, &c.ip_to) && (match (
            self.priority,
            c.priority,
        ) {
            (Some(m), Some(n)) => m == n,
            (None, None) => true,
            _ => false,
        }) && (match (self.table_id, c.table_id) {
            (Some(m), Some(n)) => m == n,
            (None, None) => true,
            _ => false,
        }) && opt_text_eq(&self.iif, &c.iif)
    }

    /// Whether the rule, if it is to be there, says from where or to where
    /// it applies.
    pub fn is_valid(&self) -> (r: bool)
        ensures
            r == self@.is_valid(),
    {
        self.state.is_some() || self.ip_from.is_some() || self.ip_to.is_some()
    }
}

impl Entry for RouteRuleEntry {
    fn duplicate(&self) -> (r: Self) {
        self.clone()
    }
}

impl Overlay for RouteRuleEntry {
    /// A removal speaks of the rules that it matches, a stated rule of the
    /// same rule.
    open spec fn speaks_of(d: RouteRuleEntryView, c: RouteRuleEntryView) -> bool {
        if d.is_absent() {
            d.matches(c)
        } else {
            d.same_rule(c)
        }
    }

    open spec fn is_stated(d: RouteRuleEntryView) -> bool {
        !d.is_absent()
    }

    fn says_of(&self, c: &Self) -> (r: bool) {
        if self.is_absent() {
            self.matches(c)
        } else {
            self.same_rule(c)
        }
    }

    fn states(&self) -> (r: bool) {
        !self.is_absent()
    }
}

impl Bound for RouteRuleEntry {
    /// A rule is bound to its incoming interface.
    open spec fn bound_iface(v: RouteRuleEntryView) -> Option<Seq<char>> {
        v.iif
    }

    fn iface(&self) -> (r: Option<&String>) {
        match &self.iif {
            Some(n) => Some(n),
            None => None,
        }
    }
}

/// The mathematical value of [`RouteRules`].
pub struct RouteRulesView {
    pub config: Option<Seq<RouteRuleEntryView>>,
}

impl RouteRulesView {
    pub open spec fn is_empty(self) -> bool {
        self.config is None
    }
}

/// The route rules of a network state.
#[derive(Debug, PartialEq, Eq)]
pub struct RouteRules {
    pub config: Option<Vec<RouteRuleEntry>>,
}

impl View for RouteRules {
    type V = RouteRulesView;

    open spec fn view(&self) -> RouteRulesView {
        RouteRulesView { config: opt_views(self.config) }
    }
}

impl Clone for RouteRules {
    fn clone(&self) -> (r: Self)
        ensures
            r@ == self@,
    {
        RouteRules { config: crate::overlay::duplicate_opt_list(&self.config) }
    }
}

impl Default for RouteRules {
    fn default() -> (r: Self)
        ensures
            r@ == (RouteRulesView { config: None }),
    {
        RouteRules { config: None }
    }
}

impl RouteRules {
    /// No rules.
    pub fn new() -> (r: Self)
        ensures
            r@ == (RouteRulesView { config: None }),
    {
        RouteRules { config: None }
    }

    /// Whether no rules are stated.
    pub fn is_empty(&self) -> (r: bool)
        ensures
            r == self@.is_empty(),
    {
        self.config.is_none()
    }
}

/// The merge of the rules of two states, or `None` where a desired rule that
/// is to be there says neither from where nor to where it applies.
pub open spec fn merged_rules(desired: RouteRulesView, current: RouteRulesView) -> Option<
    Seq<RouteRuleEntryView>,
> {
    let des = or_empty(desired.config);
    if exists|i: int| 0 <= i < des.len() && !(#[trigger] des[i]).is_valid() {
        None
    } else {
        Some(overlaid::<RouteRuleEntry>(des, or_empty(current.config)))
    }
}

/// The rules that come out of a merge.
#[derive(Debug, PartialEq, Eq)]
pub struct MergedRouteRules {
    rules: Vec<RouteRuleEntry>,
}

impl View for MergedRouteRules {
    type V = Seq<RouteRuleEntryView>;

    closed spec fn view(&self) -> Seq<RouteRuleEntryView> {
        views(self.rules@)
    }
}

impl MergedRouteRules {
    /// Merges the desired rules with the current ones.
    pub fn new(desired: RouteRules, current: RouteRules) -> (r: Result<Self, NmstateError>)
        ensures
            match r {
                Ok(m) => merged_rules(desired@, current@) == Some(m@),
                Err(e) => merged_rules(desired@, current@) is None && e@.kind
                    == ErrorKind::InvalidArgument,
            },
    {
        let des = list_or_empty(desired.config);
        let cur = list_or_empty(current.config);
        let ghost d = views(des@);
        let mut i: usize = 0;
        while i < des.len()
            invariant
                i <= des.len(),
                d == views(des@),
                d == or_empty(desired@.config),
                forall|k: int| 0 <= k < i ==> (#[trigger] d[k]).is_valid(),
            decreases des.len() - i,
        {
            if !des[i].is_valid() {
                assert(!d[i as int].is_valid());
                return Err(
                    NmstateError::new(
                        ErrorKind::InvalidArgument,
                        String::from_str("A route rule states neither ip-from nor ip-to"),
                    ),
                );
            }
            i += 1;
        }
        Ok(MergedRouteRules { rules: overlay(&des, &cur) })
    }

    /// The merged rules.
    pub fn rules(&self) -> (r: &Vec<RouteRuleEntry>)
        ensures
            views(r@) == self@,
    {
        &self.rules
    }

    /// Takes out the rules that are bound to one of `ignored_ifaces`.
    pub fn remove_rules_to_ignored_ifaces(&mut self, ignored_ifaces: &[String])
        ensures
            final(self)@ == without_bound::<RouteRuleEntry>(old(self)@, views(ignored_ifaces@)),
    {
        remove_bound(&mut self.rules, ignored_ifaces);
    }
}

} // verus!
