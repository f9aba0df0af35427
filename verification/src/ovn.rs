//! The virtual-network configuration: which bridge serves which local
//! network.

use crate::error::{ErrorKind, NmstateError};
use crate::model::{list_or_empty, opt_view, opt_views, or_empty, views};
use crate::overlay::{overlaid, overlay, Entry, Overlay};
use crate::text::clone_opt_text;
use vstd::prelude::*;
use vstd::string::StringExecFns;

verus! {

/// Whether a mapping is to be there or to be removed.
#[derive(Clone, Copy, Debug, PartialEq, Eq, Structural)]
pub enum OvnBridgeMappingState {
    Present,
    Absent,
}

impl View for OvnBridgeMappingState {
    type V = OvnBridgeMappingState;

    open spec fn view(&self) -> OvnBridgeMappingState {
        *self
    }
}

/// The mathematical value of an [`OvnBridgeMapping`].
pub struct OvnBridgeMappingView {
    pub localnet: Seq<char>,
    pub state: Option<OvnBridgeMappingState>,
    pub bridge: Option<Seq<char>>,
}

impl OvnBridgeMappingView {
    /// Whether the mapping asks for the removal of the local network.
    pub open spec fn is_absent(self) -> bool {
        self.state == Some(OvnBridgeMappingState::Absent)
    }

    /// A mapping that is to be there names its bridge.
    pub open spec fn is_valid(self) -> bool {
        self.is_absent() || self.bridge is Some
    }
}

/// The bridge of one local network.
#[derive(Debug, PartialEq, Eq)]
pub struct OvnBridgeMapping {
    pub localnet: String,
    /// Present where nothing is said.
    pub state: Option<OvnBridgeMappingState>,
    pub bridge: Option<String>,
}

impl View for OvnBridgeMapping {
    type V = OvnBridgeMappingView;

    open spec fn view(&self) -> OvnBridgeMappingView {
        OvnBridgeMappingView {
            localnet: self.localnet@,
            state: self.state,
            bridge: opt_view(self.bridge),
        }
    }
}

impl Clone for OvnBridgeMapping {
    fn clone(&self) -> (r: Self)
        ensures
            r@ == self@,
    {
        OvnBridgeMapping {
            localnet: self.localnet.clone(),
            state: self.state,
            bridge: clone_opt_text(&self.bridge),
        }
    }
}

impl OvnBridgeMapping {
    /// Whether the mapping asks for the removal of the local network.
    pub fn is_absent(&self) -> (r: bool)
        ensures
            r == self@.is_absent(),
    {
        match self.state {
            Some(OvnBridgeMappingState::Absent) => true,
            _ => false,
        }
    }

    /// Whether the mapping, if it is to be there, names its bridge.
    pub fn is_valid(&self) -> (r: bool)
        ensures
            r == self@.is_valid(),
    {
        self.is_absent() || self.bridge.is_some()
    }
}

impl Entry for OvnBridgeMapping {
    fn duplicate(&self) -> (r: Self) {
        self.clone()
    }
}

impl Overlay for OvnBridgeMapping {
    /// A desired mapping speaks of the current mapping of the same local
    /// network.
    open spec fn speaks_of(d: OvnBridgeMappingView, c: OvnBridgeMappingView) -> bool {
        d.localnet == c.localnet
    }

    open spec fn is_stated(d: OvnBridgeMappingView) -> bool {
        !d.is_absent()
    }

    fn says_of(&self, c: &Self) -> (r: bool) {
        self.localnet == c.localnet
    }

    fn states(&self) -> (r: bool) {
        !self.is_absent()
    }
}

/// The mathematical value of an [`OvnConfiguration`].
pub struct OvnConfigurationView {
    pub bridge_mappings: Option<Seq<OvnBridgeMappingView>>,
}

impl OvnConfigurationView {
    pub open spec fn is_none(self) -> bool {
        self.bridge_mappings is None
    }
}

/// The virtual-network configuration of a network state.
#[derive(Debug, PartialEq, Eq)]
pub struct OvnConfiguration {
    pub bridge_mappings: Option<Vec<OvnBridgeMapping>>,
}

impl View for OvnConfiguration {
    type V = OvnConfigurationView;

    open spec fn view(&self) -> OvnConfigurationView {
        OvnConfigurationView { bridge_mappings: opt_views(self.bridge_mappings) }
    }
}

impl Clone for OvnConfiguration {
    fn clone(&self) -> (r: Self)
        ensures
            r@ == self@,
    {
        OvnConfiguration {
            bridge_mappings: crate::overlay::duplicate_opt_list(&self.bridge_mappings),
        }
    }
}

impl Default for OvnConfiguration {
    fn default() -> (r: Self)
        ensures
            r@ == (OvnConfigurationView { bridge_mappings: None }),
    {
        OvnConfiguration { bridge_mappings: None }
    }
}

impl OvnConfiguration {
    /// The key under which the mappings stand in the virtual switch's
    /// database.
    pub open spec fn bridge_mappings_key() -> Seq<char> {
        "ovn-bridge-mappings"@
    }

    /// The configuration that says nothing.
    pub fn new() -> (r: Self)
        ensures
            r@ == (OvnConfigurationView { bridge_mappings: None }),
    {
        OvnConfiguration { bridge_mappings: None }
    }

    /// Whether the configuration says nothing.
    pub fn is_none(&self) -> (r: bool)
        ensures
            r == self@.is_none(),
    {
        self.bridge_mappings.is_none()
    }
}

/// The merge of the mappings of two states, or `None` where a desired
/// mapping that is to be there names no bridge.
pub open spec fn merged_ovn(desired: OvnConfigurationView, current: OvnConfigurationView)
    -> Option<Seq<OvnBridgeMappingView>> {
    let des = or_empty(desired.bridge_mappings);
    if exists|i: int| 0 <= i < des.len() && !(#[trigger] des[i]).is_valid() {
        None
    } else {
        Some(overlaid::<OvnBridgeMapping>(des, or_empty(current.bridge_mappings)))
    }
}

/// The text of one mapping: the local network, a colon, the bridge.
pub open spec fn mapping_text(m: OvnBridgeMappingView) -> Seq<char> {
    m.localnet + ":"@ + match m.bridge {
        Some(b) => b,
        None => Seq::empty(),
    }
}

/// The text of the mappings, as the virtual switch's database holds it: the
/// texts of the mappings in order, with a comma between two of them.
pub open spec fn mappings_text(m: Seq<OvnBridgeMappingView>) -> Seq<char>
    decreases m.len(),
{
    if m.len() == 0 {
        Seq::empty()
    } else if m.len() == 1 {
        mapping_text(m[0])
    } else {
        mappings_text(m.drop_last()) + ","@ + mapping_text(m.last())
    }
}

/// The virtual-network configuration that comes out of a merge.
#[derive(Debug, PartialEq, Eq)]
pub struct MergedOvnConfiguration {
    bridge_mappings: Vec<OvnBridgeMapping>,
}

impl View for MergedOvnConfiguration {
    type V = Seq<OvnBridgeMappingView>;

    closed spec fn view(&self) -> Seq<OvnBridgeMappingView> {
        views(self.bridge_mappings@)
    }
}

impl MergedOvnConfiguration {
    /// Merges the desired mappings with the current ones.
    pub fn new(desired: OvnConfiguration, current: OvnConfiguration) -> (r: Result<
        Self,
        NmstateError,
    >)
        ensures
            match r {
                Ok(m) => merged_ovn(desired@, current@) == Some(m@),
                Err(e) => merged_ovn(desired@, current@) is None && e@.kind
                    == ErrorKind::InvalidArgument,
            },
    {
        let des = list_or_empty(desired.bridge_mappings);
        let cur = list_or_empty(current.bridge_mappings);
        let ghost d = views(des@);
        let mut i: usize = 0;
        while i < des.len()
            invariant
                i <= des.len(),
                d == views(des@),
                d == or_empty(desired@.bridge_mappings),
                forall|k: int| 0 <= k < i ==> (#[trigger] d[k]).is_valid(),
            decreases des.len() - i,
        {
            if !des[i].is_valid() {
                assert(!d[i as int].is_valid());
                let msg = String::from_str("No bridge is given for the local network ").concat(
                    des[i].localnet.as_str(),
                );
                return Err(NmstateError::new(ErrorKind::InvalidArgument, msg));
            }
            i += 1;
        }
        Ok(MergedOvnConfiguration { bridge_mappings: overlay(&des, &cur) })
    }

    /// The merged mappings.
    pub fn bridge_mappings(&self) -> (r: &Vec<OvnBridgeMapping>)
        ensures
            views(r@) == self@,
    {
        &self.bridge_mappings
    }

    /// The mappings as the virtual switch's database holds them, or nothing
    /// where there is no mapping.
    pub fn to_ovsdb_external_id_value(&self) -> (r: Option<String>)
        ensures
            match r {
                Some(s) => self@.len() > 0 && s@ == mappings_text(self@),
                None => self@.len() == 0,
            },
    {
        if self.bridge_mappings.len() == 0 {
            return None;
        }
        let ghost m = views(self.bridge_mappings@);
        let mut s = String::new();
        let mut i: usize = 0;
        while i < self.bridge_mappings.len()
            invariant
                i <= self.bridge_mappings.len(),
                m == views(self.bridge_mappings@),
                s@ == mappings_text(m.take(i as int)),
            decreases self.bridge_mappings.len() - i,
        {
            proof {
                assert(m.take(i as int + 1).drop_last() =~= m.take(i as int));
                assert(m.take(i as int + 1).last() == m[i as int]);
            }
            if i > 0 {
                s.append(",");
            } else {
                assert(s@ =~= Seq::<char>::empty());
            }
            let ghost before = s@;
            s.append(self.bridge_mappings[i].localnet.as_str());
            s.append(":");
            match &self.bridge_mappings[i].bridge {
                Some(b) => s.append(b.as_str()),
                None => {},
            }
            assert(s@ =~= before + mapping_text(m[i as int]));
            i += 1;
        }
        proof {
            assert(m.take(m.len() as int) =~= m);
        }
        Some(s)
    }
}

} // verus!
