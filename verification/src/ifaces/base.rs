//! The attributes that every kind of interface has.

use crate::model::opt_view;
use crate::text::clone_opt_text;
use vstd::prelude::*;

verus! {

/// The kind of an interface.
#[derive(Clone, Copy, Debug, PartialEq, Eq, Structural)]
pub enum InterfaceType {
    /// Not stated; settled from the running interface of the same name.
    Unknown,
    /// A software interface without configuration of its own.
    Dummy,
    Ethernet,
    Vlan,
    MacSec,
}

impl View for InterfaceType {
    type V = InterfaceType;

    open spec fn view(&self) -> InterfaceType {
        *self
    }
}

impl Default for InterfaceType {
    fn default() -> (t: Self)
        ensures
            t == InterfaceType::Unknown,
    {
        InterfaceType::Unknown
    }
}

/// The administrative state asked of, or seen on, an interface.
#[derive(Clone, Copy, Debug, PartialEq, Eq, Structural)]
pub enum InterfaceState {
    Up,
    Down,
    /// The interface is to be removed.
    Absent,
    /// The interface is left alone, with every route and rule bound to it.
    Ignore,
    Unknown,
}

impl View for InterfaceState {
    type V = InterfaceState;

    open spec fn view(&self) -> InterfaceState {
        *self
    }
}

impl Default for InterfaceState {
    fn default() -> (s: Self)
        ensures
            s == InterfaceState::Up,
    {
        InterfaceState::Up
    }
}

/// The mathematical value of a [`BaseInterface`].
pub struct BaseInterfaceView {
    pub name: Seq<char>,
    pub iface_type: InterfaceType,
    pub state: InterfaceState,
    pub mac_address: Option<Seq<char>>,
    pub mtu: Option<u64>,
    pub max_mtu: Option<u64>,
    pub ipv4_enabled: Option<bool>,
    pub ipv6_enabled: Option<bool>,
}

impl BaseInterfaceView {
    /// The record of a new interface: no name, state up, nothing else set.
    pub open spec fn empty(iface_type: InterfaceType) -> BaseInterfaceView {
        BaseInterfaceView {
            name: Seq::empty(),
            iface_type,
            state: InterfaceState::Up,
            mac_address: None,
            mtu: None,
            max_mtu: None,
            ipv4_enabled: None,
            ipv6_enabled: None,
        }
    }
}

/// What is common to all interfaces. Each interface owns its record.
#[derive(Debug, PartialEq, Eq)]
pub struct BaseInterface {
    /// Unique within a collection of interfaces.
    pub name: String,
    pub iface_type: InterfaceType,
    pub state: InterfaceState,
    pub mac_address: Option<String>,
    pub mtu: Option<u64>,
    pub max_mtu: Option<u64>,
    pub ipv4_enabled: Option<bool>,
    pub ipv6_enabled: Option<bool>,
}

impl View for BaseInterface {
    type V = BaseInterfaceView;

    open spec fn view(&self) -> BaseInterfaceView {
        BaseInterfaceView {
            name: self.name@,
            iface_type: self.iface_type,
            state: self.state,
            mac_address: opt_view(self.mac_address),
            mtu: self.mtu,
            max_mtu: self.max_mtu,
            ipv4_enabled: self.ipv4_enabled,
            ipv6_enabled: self.ipv6_enabled,
        }
    }
}

impl Clone for BaseInterface {
    fn clone(&self) -> (r: Self)
        ensures
            r@ == self@,
    {
        BaseInterface {
            name: self.name.clone(),
            iface_type: self.iface_type,
            state: self.state,
            mac_address: clone_opt_text(&self.mac_address),
            mtu: self.mtu,
            max_mtu: self.max_mtu,
            ipv4_enabled: self.ipv4_enabled,
            ipv6_enabled: self.ipv6_enabled,
        }
    }
}

impl Default for BaseInterface {
    fn default() -> (b: Self)
        ensures
            b@ == BaseInterfaceView::empty(InterfaceType::Unknown),
    {
        BaseInterface::new(InterfaceType::Unknown)
    }
}

impl BaseInterface {
    /// The record of a new interface of the given kind.
    pub fn new(iface_type: InterfaceType) -> (b: Self)
        ensures
            b@ == BaseInterfaceView::empty(iface_type),
    {
        BaseInterface {
            name: String::new(),
            iface_type,
            state: InterfaceState::Up,
            mac_address: None,
            mtu: None,
            max_mtu: None,
            ipv4_enabled: None,
            ipv6_enabled: None,
        }
    }
}

} // verus!
