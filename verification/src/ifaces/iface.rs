//! An interface of any kind.

use crate::ifaces::base::{BaseInterface, BaseInterfaceView, InterfaceState, InterfaceType};
use crate::ifaces::ethernet::{EthernetInterface, EthernetInterfaceView};
use crate::ifaces::macsec::{MacSecInterface, MacSecInterfaceView};
use crate::ifaces::vlan::{VlanInterface, VlanInterfaceView};
use vstd::prelude::*;

verus! {

/// The mathematical value of an [`Interface`].
pub enum InterfaceView {
    Dummy(BaseInterfaceView),
    Ethernet(EthernetInterfaceView),
    Vlan(VlanInterfaceView),
    MacSec(MacSecInterfaceView),
    Unknown(BaseInterfaceView),
}

impl InterfaceView {
    /// The common attributes.
    pub open spec fn base(self) -> BaseInterfaceView {
        match self {
            InterfaceView::Dummy(b) => b,
            InterfaceView::Ethernet(e) => e.base,
            InterfaceView::Vlan(v) => v.base,
            InterfaceView::MacSec(m) => m.base,
            InterfaceView::Unknown(b) => b,
        }
    }

    pub open spec fn name(self) -> Seq<char> {
        self.base().name
    }

    /// The kind of the interface: its type tag.
    pub open spec fn iface_type(self) -> InterfaceType {
        match self {
            InterfaceView::Dummy(_) => InterfaceType::Dummy,
            InterfaceView::Ethernet(_) => InterfaceType::Ethernet,
            InterfaceView::Vlan(_) => InterfaceType::Vlan,
            InterfaceView::MacSec(_) => InterfaceType::MacSec,
            InterfaceView::Unknown(_) => InterfaceType::Unknown,
        }
    }

    /// Whether the interface is marked to be left alone.
    pub open spec fn is_ignore(self) -> bool {
        self.base().state == InterfaceState::Ignore
    }

    /// Whether the interface is marked for removal.
    pub open spec fn is_absent(self) -> bool {
        self.base().state == InterfaceState::Absent
    }

    /// The name of the parent interface, for the kinds that have one and
    /// where the kind's configuration is present.
    pub open spec fn parent(self) -> Option<Seq<char>> {
        match self {
            InterfaceView::Vlan(v) => v.parent(),
            InterfaceView::MacSec(m) => m.parent(),
            _ => None,
        }
    }

    /// This interface with its secrets hidden.
    pub open spec fn hide_secrets(self) -> InterfaceView {
        match self {
            InterfaceView::MacSec(m) => InterfaceView::MacSec(m.hide_secrets()),
            _ => self,
        }
    }

    /// An interface of kind `t` that has the given common attributes, with
    /// `t` as their type tag, and no configuration of its kind.
    pub open spec fn of_kind(t: InterfaceType, base: BaseInterfaceView) -> InterfaceView {
        let b = BaseInterfaceView { iface_type: t, ..base };
        match t {
            InterfaceType::Dummy => InterfaceView::Dummy(b),
            InterfaceType::Ethernet => InterfaceView::Ethernet(
                EthernetInterfaceView { base: b, ethernet: None },
            ),
            InterfaceType::Vlan => InterfaceView::Vlan(VlanInterfaceView { base: b, vlan: None }),
            InterfaceType::MacSec => InterfaceView::MacSec(
                MacSecInterfaceView { base: b, macsec: None },
            ),
            InterfaceType::Unknown => InterfaceView::Unknown(b),
        }
    }

    /// This interface, or, if its kind is not stated, the interface of kind
    /// `t` with the same common attributes.
    pub open spec fn resolved_as(self, t: InterfaceType) -> InterfaceView {
        match self {
            InterfaceView::Unknown(b) => InterfaceView::of_kind(t, b),
            _ => self,
        }
    }
}

/// An interface: the common attributes and what its kind adds to them.
#[derive(Debug, PartialEq, Eq)]
pub enum Interface {
    Dummy(BaseInterface),
    Ethernet(EthernetInterface),
    Vlan(VlanInterface),
    MacSec(MacSecInterface),
    /// An interface whose kind is not stated.
    Unknown(BaseInterface),
}

impl View for Interface {
    type V = InterfaceView;

    open spec fn view(&self) -> InterfaceView {
        match self {
            Interface::Dummy(b) => InterfaceView::Dummy(b@),
            Interface::Ethernet(e) => InterfaceView::Ethernet(e@),
            Interface::Vlan(v) => InterfaceView::Vlan(v@),
            Interface::MacSec(m) => InterfaceView::MacSec(m@),
            Interface::Unknown(b) => InterfaceView::Unknown(b@),
        }
    }
}

impl Clone for Interface {
    fn clone(&self) -> (r: Self)
        ensures
            r@ == self@,
    {
        match self {
            Interface::Dummy(b) => Interface::Dummy(b.clone()),
            Interface::Ethernet(e) => Interface::Ethernet(e.clone()),
            Interface::Vlan(v) => Interface::Vlan(v.clone()),
            Interface::MacSec(m) => Interface::MacSec(m.clone()),
            Interface::Unknown(b) => Interface::Unknown(b.clone()),
        }
    }
}

impl Interface {
    /// The common attributes.
    pub fn base_iface(&self) -> (b: &BaseInterface)
        ensures
            b@ == self@.base(),
    {
        match self {
            Interface::Dummy(b) => b,
            Interface::Ethernet(e) => &e.base,
            Interface::Vlan(v) => &v.base,
            Interface::MacSec(m) => &m.base,
            Interface::Unknown(b) => b,
        }
    }

    pub fn name(&self) -> (n: &String)
        ensures
            n@ == self@.name(),
    {
        &self.base_iface().name
    }

    /// The kind of the interface: its type tag.
    pub fn iface_type(&self) -> (t: InterfaceType)
        ensures
            t == self@.iface_type(),
    {
        match self {
            Interface::Dummy(_) => InterfaceType::Dummy,
            Interface::Ethernet(_) => InterfaceType::Ethernet,
            Interface::Vlan(_) => InterfaceType::Vlan,
            Interface::MacSec(_) => InterfaceType::MacSec,
            Interface::Unknown(_) => InterfaceType::Unknown,
        }
    }

    /// Whether the interface is marked to be left alone.
    pub fn is_ignore(&self) -> (r: bool)
        ensures
            r == self@.is_ignore(),
    {
        self.base_iface().state == InterfaceState::Ignore
    }

    /// Whether the interface is marked for removal.
    pub fn is_absent(&self) -> (r: bool)
        ensures
            r == self@.is_absent(),
    {
        self.base_iface().state == InterfaceState::Absent
    }

    /// The name of the parent interface, for the kinds that have one and
    /// where the kind's configuration is present.
    pub fn parent(&self) -> (p: Option<&String>)
        ensures
            match p {
                Some(s) => self@.parent() == Some(s@),
                None => self@.parent() is None,
            },
    {
        match self {
            Interface::Vlan(v) => match &v.vlan {
                Some(c) => Some(&c.base_iface),
                None => None,
            },
            Interface::MacSec(m) => match &m.macsec {
                Some(c) => Some(&c.base_iface),
                None => None,
            },
            _ => None,
        }
    }

    /// Replaces every secret of the interface by the fixed text.
    pub fn hide_secrets(self) -> (r: Self)
        ensures
            r@ == self@.hide_secrets(),
    {
        match self {
            Interface::MacSec(mut m) => {
                m.hide_secrets();
                Interface::MacSec(m)
            },
            other => other,
        }
    }

    /// An interface of kind `t` that has the given common attributes, with
    /// `t` as their type tag, and no configuration of its kind.
    pub fn of_kind(t: InterfaceType, base: BaseInterface) -> (r: Self)
        ensures
            r@ == InterfaceView::of_kind(t, base@),
    {
        let mut b = base;
        b.iface_type = t;
        match t {
            InterfaceType::Dummy => Interface::Dummy(b),
            InterfaceType::Ethernet => Interface::Ethernet(
                EthernetInterface { base: b, ethernet: None },
            ),
            InterfaceType::Vlan => Interface::Vlan(VlanInterface { base: b, vlan: None }),
            InterfaceType::MacSec => Interface::MacSec(MacSecInterface { base: b, macsec: None }),
            InterfaceType::Unknown => Interface::Unknown(b),
        }
    }

    /// This interface, or, if its kind is not stated, the interface of kind
    /// `t` with the same common attributes.
    pub fn resolved_as(self, t: InterfaceType) -> (r: Self)
        ensures
            r@ == self@.resolved_as(t),
    {
        match self {
            Interface::Unknown(b) => Interface::of_kind(t, b),
            other => other,
        }
    }
}

} // verus!
