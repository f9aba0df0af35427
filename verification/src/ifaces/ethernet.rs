//! Ethernet interfaces and their SR-IOV configuration.

use crate::ifaces::base::{BaseInterface, BaseInterfaceView, InterfaceType};
use crate::ifaces::vlan::VlanProtocol;
use crate::model::{opt_view, opt_views, views};
use crate::text::clone_opt_text;
use vstd::prelude::*;

verus! {

/// The mathematical value of an [`SrIovVfConfig`].
pub struct SrIovVfConfigView {
    pub id: u32,
    pub mac_address: Option<Seq<char>>,
    pub spoof_check: Option<bool>,
    pub trust: Option<bool>,
    pub min_tx_rate: Option<u32>,
    pub max_tx_rate: Option<u32>,
    pub vlan_id: Option<u32>,
    pub qos: Option<u32>,
    pub vlan_proto: Option<VlanProtocol>,
}

/// What is asked of one virtual function.
#[derive(Debug, PartialEq, Eq)]
pub struct SrIovVfConfig {
    pub id: u32,
    pub mac_address: Option<String>,
    pub spoof_check: Option<bool>,
    pub trust: Option<bool>,
    pub min_tx_rate: Option<u32>,
    pub max_tx_rate: Option<u32>,
    pub vlan_id: Option<u32>,
    pub qos: Option<u32>,
    pub vlan_proto: Option<VlanProtocol>,
}

impl View for SrIovVfConfig {
    type V = SrIovVfConfigView;

    open spec fn view(&self) -> SrIovVfConfigView {
        SrIovVfConfigView {
            id: self.id,
            mac_address: opt_view(self.mac_address),
            spoof_check: self.spoof_check,
            trust: self.trust,
            min_tx_rate: self.min_tx_rate,
            max_tx_rate: self.max_tx_rate,
            vlan_id: self.vlan_id,
            qos: self.qos,
            vlan_proto: self.vlan_proto,
        }
    }
}

impl Clone for SrIovVfConfig {
    fn clone(&self) -> (r: Self)
        ensures
            r@ == self@,
    {
        SrIovVfConfig {
            id: self.id,
            mac_address: clone_opt_text(&self.mac_address),
            spoof_check: self.spoof_check,
            trust: self.trust,
            min_tx_rate: self.min_tx_rate,
            max_tx_rate: self.max_tx_rate,
            vlan_id: self.vlan_id,
            qos: self.qos,
            vlan_proto: self.vlan_proto,
        }
    }
}

impl SrIovVfConfig {
    /// The virtual function `id` with nothing asked of it.
    pub fn new(id: u32) -> (vf: Self)
        ensures
            vf@ == (SrIovVfConfigView {
                id,
                mac_address: None,
                spoof_check: None,
                trust: None,
                min_tx_rate: None,
                max_tx_rate: None,
                vlan_id: None,
                qos: None,
                vlan_proto: None,
            }),
    {
        SrIovVfConfig {
            id,
            mac_address: None,
            spoof_check: None,
            trust: None,
            min_tx_rate: None,
            max_tx_rate: None,
            vlan_id: None,
            qos: None,
            vlan_proto: None,
        }
    }
}

/// The mathematical value of an [`SrIovConfig`].
pub struct SrIovConfigView {
    pub total_vfs: Option<u32>,
    pub drivers_autoprobe: Option<bool>,
    pub vfs: Option<Seq<SrIovVfConfigView>>,
}

/// The SR-IOV configuration asked of an adapter.
#[derive(Debug, PartialEq, Eq)]
pub struct SrIovConfig {
    /// The number of virtual functions. Zero switches SR-IOV off.
    pub total_vfs: Option<u32>,
    pub drivers_autoprobe: Option<bool>,
    /// The virtual functions, by position.
    pub vfs: Option<Vec<SrIovVfConfig>>,
}

impl View for SrIovConfig {
    type V = SrIovConfigView;

    open spec fn view(&self) -> SrIovConfigView {
        SrIovConfigView {
            total_vfs: self.total_vfs,
            drivers_autoprobe: self.drivers_autoprobe,
            vfs: opt_views(self.vfs),
        }
    }
}

impl Clone for SrIovConfig {
    fn clone(&self) -> (r: Self)
        ensures
            r@ == self@,
    {
        let vfs = match &self.vfs {
            Some(v) => {
                let mut c: Vec<SrIovVfConfig> = Vec::new();
                let mut i: usize = 0;
                while i < v.len()
                    invariant
                        i <= v.len(),
                        c@.len() == i,
                        forall|k: int| 0 <= k < i ==> c@[k]@ == v@[k]@,
                    decreases v.len() - i,
                {
                    c.push(v[i].clone());
                    i += 1;
                }
                assert(views(c@) =~= views(v@));
                Some(c)
            },
            None => None,
        };
        SrIovConfig {
            total_vfs: self.total_vfs,
            drivers_autoprobe: self.drivers_autoprobe,
            vfs,
        }
    }
}

/// The mathematical value of an [`EthernetConfig`].
pub struct EthernetConfigView {
    pub sr_iov: Option<SrIovConfigView>,
    pub auto_neg: Option<bool>,
    pub speed: Option<u32>,
}

/// What an Ethernet interface adds to the common attributes.
#[derive(Debug, PartialEq, Eq)]
pub struct EthernetConfig {
    pub sr_iov: Option<SrIovConfig>,
    pub auto_neg: Option<bool>,
    /// In Mbit/s.
    pub speed: Option<u32>,
}

impl View for EthernetConfig {
    type V = EthernetConfigView;

    open spec fn view(&self) -> EthernetConfigView {
        EthernetConfigView {
            sr_iov: opt_view(self.sr_iov),
            auto_neg: self.auto_neg,
            speed: self.speed,
        }
    }
}

impl Clone for EthernetConfig {
    fn clone(&self) -> (r: Self)
        ensures
            r@ == self@,
    {
        let sr_iov = match &self.sr_iov {
            Some(c) => Some(c.clone()),
            None => None,
        };
        EthernetConfig { sr_iov, auto_neg: self.auto_neg, speed: self.speed }
    }
}

/// The mathematical value of an [`EthernetInterface`].
pub struct EthernetInterfaceView {
    pub base: BaseInterfaceView,
    pub ethernet: Option<EthernetConfigView>,
}

impl EthernetInterfaceView {
    /// The SR-IOV configuration asked of the interface, if any.
    pub open spec fn sr_iov(self) -> Option<SrIovConfigView> {
        match self.ethernet {
            Some(e) => e.sr_iov,
            None => None,
        }
    }
}

/// An Ethernet interface.
#[derive(Debug, PartialEq, Eq)]
pub struct EthernetInterface {
    pub base: BaseInterface,
    pub ethernet: Option<EthernetConfig>,
}

impl View for EthernetInterface {
    type V = EthernetInterfaceView;

    open spec fn view(&self) -> EthernetInterfaceView {
        EthernetInterfaceView { base: self.base@, ethernet: opt_view(self.ethernet) }
    }
}

impl Clone for EthernetInterface {
    fn clone(&self) -> (r: Self)
        ensures
            r@ == self@,
    {
        let ethernet = match &self.ethernet {
            Some(c) => Some(c.clone()),
            None => None,
        };
        EthernetInterface { base: self.base.clone(), ethernet }
    }
}

impl Default for EthernetInterface {
    fn default() -> (e: Self)
        ensures
            e@ == (EthernetInterfaceView {
                base: BaseInterfaceView::empty(InterfaceType::Ethernet),
                ethernet: None,
            }),
    {
        EthernetInterface { base: BaseInterface::new(InterfaceType::Ethernet), ethernet: None }
    }
}

impl EthernetInterface {
    /// An Ethernet interface without name or configuration.
    pub fn new() -> (e: Self)
        ensures
            e@ == (EthernetInterfaceView {
                base: BaseInterfaceView::empty(InterfaceType::Ethernet),
                ethernet: None,
            }),
    {
        EthernetInterface { base: BaseInterface::new(InterfaceType::Ethernet), ethernet: None }
    }
}

} // verus!
