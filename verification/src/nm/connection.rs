//! The daemon's own settings objects. The backend layer defines and owns
//! them; this library reads and writes the fields it knows.

use crate::ifaces::vlan::VlanProtocol;
use crate::model::{opt_view, opt_views, views};
use crate::text::clone_opt_text;
use vstd::prelude::*;

verus! {

/// The tagging protocol of a VLAN, as the daemon names it.
#[derive(Clone, Copy, Debug, PartialEq, Eq, Structural)]
pub enum NmVlanProtocol {
    Dot1Q,
    Dot1Ad,
}

impl Default for NmVlanProtocol {
    fn default() -> (p: Self)
        ensures
            p == NmVlanProtocol::Dot1Q,
    {
        NmVlanProtocol::Dot1Q
    }
}

impl NmVlanProtocol {
    /// The daemon's name for a tagging protocol.
    pub open spec fn of(p: VlanProtocol) -> NmVlanProtocol {
        match p {
            VlanProtocol::Ieee8021Q => NmVlanProtocol::Dot1Q,
            VlanProtocol::Ieee8021Ad => NmVlanProtocol::Dot1Ad,
        }
    }

    /// The daemon's name for a tagging protocol.
    pub fn from_vlan_protocol(p: VlanProtocol) -> (r: Self)
        ensures
            r == Self::of(p),
    {
        match p {
            VlanProtocol::Ieee8021Q => NmVlanProtocol::Dot1Q,
            VlanProtocol::Ieee8021Ad => NmVlanProtocol::Dot1Ad,
        }
    }
}

/// One VLAN of a virtual function.
#[derive(Clone, Copy, Debug, PartialEq, Eq, Structural)]
pub struct NmSettingSriovVfVlan {
    pub id: u32,
    pub qos: u32,
    pub protocol: NmVlanProtocol,
}

impl View for NmSettingSriovVfVlan {
    type V = NmSettingSriovVfVlan;

    open spec fn view(&self) -> NmSettingSriovVfVlan {
        *self
    }
}

impl Default for NmSettingSriovVfVlan {
    fn default() -> (v: Self)
        ensures
            v == (NmSettingSriovVfVlan { id: 0, qos: 0, protocol: NmVlanProtocol::Dot1Q }),
    {
        NmSettingSriovVfVlan { id: 0, qos: 0, protocol: NmVlanProtocol::Dot1Q }
    }
}

/// The mathematical value of an [`NmSettingSriovVf`].
pub struct NmSettingSriovVfView {
    pub index: Option<u32>,
    pub mac: Option<Seq<char>>,
    pub spoof_check: Option<bool>,
    pub trust: Option<bool>,
    pub min_tx_rate: Option<u32>,
    pub max_tx_rate: Option<u32>,
    pub vlans: Option<Seq<NmSettingSriovVfVlan>>,
}

impl NmSettingSriovVfView {
    /// The entry with nothing set.
    pub open spec fn empty() -> NmSettingSriovVfView {
        NmSettingSriovVfView {
            index: None,
            mac: None,
            spoof_check: None,
            trust: None,
            min_tx_rate: None,
            max_tx_rate: None,
            vlans: None,
        }
    }
}

/// The daemon's settings of one virtual function.
#[derive(Debug, PartialEq, Eq)]
pub struct NmSettingSriovVf {
    pub index: Option<u32>,
    pub mac: Option<String>,
    pub spoof_check: Option<bool>,
    pub trust: Option<bool>,
    pub min_tx_rate: Option<u32>,
    pub max_tx_rate: Option<u32>,
    pub vlans: Option<Vec<NmSettingSriovVfVlan>>,
}

impl View for NmSettingSriovVf {
    type V = NmSettingSriovVfView;

    open spec fn view(&self) -> NmSettingSriovVfView {
        NmSettingSriovVfView {
            index: self.index,
            mac: opt_view(self.mac),
            spoof_check: self.spoof_check,
            trust: self.trust,
            min_tx_rate: self.min_tx_rate,
            max_tx_rate: self.max_tx_rate,
            vlans: opt_views(self.vlans),
        }
    }
}

impl Clone for NmSettingSriovVf {
    fn clone(&self) -> (r: Self)
        ensures
            r@ == self@,
    {
        let vlans = match &self.vlans {
            Some(v) => {
                let mut c: Vec<NmSettingSriovVfVlan> = Vec::new();
                let mut i: usize = 0;
                while i < v.len()
                    invariant
                        i <= v.len(),
                        c@.len() == i,
                        forall|k: int| 0 <= k < i ==> c@[k] == v@[k],
                    decreases v.len() - i,
                {
                    c.push(v[i]);
                    i += 1;
                }
                assert(views(c@) =~= views(v@));
                Some(c)
            },
            None => None,
        };
        NmSettingSriovVf {
            index: self.index,
            mac: clone_opt_text(&self.mac),
            spoof_check: self.spoof_check,
            trust: self.trust,
            min_tx_rate: self.min_tx_rate,
            max_tx_rate: self.max_tx_rate,
            vlans,
        }
    }
}

impl Default for NmSettingSriovVf {
    fn default() -> (v: Self)
        ensures
            v@ == NmSettingSriovVfView::empty(),
    {
        NmSettingSriovVf {
            index: None,
            mac: None,
            spoof_check: None,
            trust: None,
            min_tx_rate: None,
            max_tx_rate: None,
            vlans: None,
        }
    }
}

/// The mathematical value of an [`NmSettingSriov`].
pub struct NmSettingSriovView {
    pub autoprobe_drivers: Option<bool>,
    pub total_vfs: Option<u32>,
    pub vfs: Option<Seq<NmSettingSriovVfView>>,
}

impl NmSettingSriovView {
    /// The block with nothing set.
    pub open spec fn empty() -> NmSettingSriovView {
        NmSettingSriovView { autoprobe_drivers: None, total_vfs: None, vfs: None }
    }
}

/// The SR-IOV block of a connection profile.
#[derive(Debug, PartialEq, Eq)]
pub struct NmSettingSriov {
    pub autoprobe_drivers: Option<bool>,
    pub total_vfs: Option<u32>,
    pub vfs: Option<Vec<NmSettingSriovVf>>,
}

impl View for NmSettingSriov {
    type V = NmSettingSriovView;

    open spec fn view(&self) -> NmSettingSriovView {
        NmSettingSriovView {
            autoprobe_drivers: self.autoprobe_drivers,
            total_vfs: self.total_vfs,
            vfs: opt_views(self.vfs),
        }
    }
}

impl Default for NmSettingSriov {
    fn default() -> (s: Self)
        ensures
            s@ == NmSettingSriovView::empty(),
    {
        NmSettingSriov { autoprobe_drivers: None, total_vfs: None, vfs: None }
    }
}

/// The mathematical value of an [`NmConnection`].
pub struct NmConnectionView {
    pub id: Option<Seq<char>>,
    pub iface_name: Option<Seq<char>>,
    pub sriov: Option<NmSettingSriovView>,
}

/// A connection profile of the daemon, as far as this library touches it.
#[derive(Debug, PartialEq, Eq)]
pub struct NmConnection {
    pub id: Option<String>,
    pub iface_name: Option<String>,
    pub sriov: Option<NmSettingSriov>,
}

impl View for NmConnection {
    type V = NmConnectionView;

    open spec fn view(&self) -> NmConnectionView {
        NmConnectionView {
            id: opt_view(self.id),
            iface_name: opt_view(self.iface_name),
            sriov: opt_view(self.sriov),
        }
    }
}

impl Default for NmConnection {
    fn default() -> (c: Self)
        ensures
            c@ == (NmConnectionView { id: None, iface_name: None, sriov: None }),
    {
        NmConnection { id: None, iface_name: None, sriov: None }
    }
}

} // verus!
