//! The host name, and its merge.

use crate::model::{opt_view, or_kept};
use crate::text::clone_opt_text;
use vstd::prelude::*;

verus! {

/// The mathematical value of a [`HostNameState`].
pub struct HostNameStateView {
    pub running: Option<Seq<char>>,
    pub config: Option<Seq<char>>,
}

/// The name of the host: the one in effect and the one configured.
#[derive(Debug, PartialEq, Eq)]
pub struct HostNameState {
    pub running: Option<String>,
    pub config: Option<String>,
}

impl View for HostNameState {
    type V = HostNameStateView;

    open spec fn view(&self) -> HostNameStateView {
        HostNameStateView { running: opt_view(self.running), config: opt_view(self.config) }
    }
}

impl Clone for HostNameState {
    fn clone(&self) -> (r: Self)
        ensures
            r@ == self@,
    {
        HostNameState {
            running: clone_opt_text(&self.running),
            config: clone_opt_text(&self.config),
        }
    }
}

impl Default for HostNameState {
    fn default() -> (r: Self)
        ensures
            r@ == (HostNameStateView { running: None, config: None }),
    {
        HostNameState { running: None, config: None }
    }
}

/// The merged host name: each of the two names is the desired one where the
/// desired state gives it, else the current one.
pub open spec fn merged_hostname(
    desired: Option<HostNameStateView>,
    current: Option<HostNameStateView>,
) -> Option<HostNameStateView> {
    match (desired, current) {
        (Some(d), Some(c)) => Some(
            HostNameStateView {
                running: or_kept(d.running, c.running),
                config: or_kept(d.config, c.config),
            },
        ),
        (Some(d), None) => Some(d),
        (None, c) => c,
    }
}

/// The host name that comes out of a merge.
#[derive(Debug, PartialEq, Eq)]
pub struct MergedHostNameState {
    hostname: Option<HostNameState>,
}

impl View for MergedHostNameState {
    type V = Option<HostNameStateView>;

    closed spec fn view(&self) -> Option<HostNameStateView> {
        opt_view(self.hostname)
    }
}

impl MergedHostNameState {
    /// Merges the desired host name with the current one.
    pub fn new(desired: Option<HostNameState>, current: Option<HostNameState>) -> (r: Self)
        ensures
            r@ == merged_hostname(opt_view(desired), opt_view(current)),
    {
        let hostname = match (desired, current) {
            (Some(d), Some(c)) => {
                let running = if d.running.is_some() {
                    d.running
                } else {
                    c.running
                };
                let config = if d.config.is_some() {
                    d.config
                } else {
                    c.config
                };
                Some(HostNameState { running, config })
            },
            (Some(d), None) => Some(d),
            (None, c) => c,
        };
        MergedHostNameState { hostname }
    }

    /// The merged host name.
    pub fn hostname(&self) -> (r: &Option<HostNameState>)
        ensures
            opt_view(*r) == self@,
    {
        &self.hostname
    }
}

} // verus!
