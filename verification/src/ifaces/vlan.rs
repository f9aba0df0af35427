//! VLAN interfaces.

use crate::ifaces::base::{BaseInterface, BaseInterfaceView, InterfaceType};
use crate::ifaces::iface::{Interface, InterfaceView};
use crate::ifaces::merged::{MergedInterface, MergedInterfaceView};
use crate::error::{ErrorKind, NmstateError};
use crate::model::opt_view;
use crate::text::{decimal_u16, parse_u16};
use vstd::prelude::*;
use vstd::string::StringExecFns;

verus! {

/// The tagging protocol of a VLAN.
#[derive(Clone, Copy, Debug, PartialEq, Eq, Structural)]
pub enum VlanProtocol {
    /// Written `802.1q`.
    Ieee8021Q,
    /// Written `802.1ad`.
    Ieee8021Ad,
}

impl View for VlanProtocol {
    type V = VlanProtocol;

    open spec fn view(&self) -> VlanProtocol {
        *self
    }
}

impl Default for VlanProtocol {
    fn default() -> (p: Self)
        ensures
            p == VlanProtocol::Ieee8021Q,
    {
        VlanProtocol::Ieee8021Q
    }
}

impl VlanProtocol {
    /// The name under which a protocol is written in a document.
    pub open spec fn text(self) -> Seq<char> {
        match self {
            VlanProtocol::Ieee8021Q => "802.1q"@,
            VlanProtocol::Ieee8021Ad => "802.1ad"@,
        }
    }

    /// This protocol as it is written in a document.
    pub fn to_string(&self) -> (s: String)
        ensures
            s@ == self.text(),
    {
        match self {
            VlanProtocol::Ieee8021Q => String::from_str("802.1q"),
            VlanProtocol::Ieee8021Ad => String::from_str("802.1ad"),
        }
    }
}

/// The protocol by which a VLAN is registered with the switch.
#[derive(Clone, Copy, Debug, PartialEq, Eq, Structural)]
pub enum VlanRegistrationProtocol {
    /// GARP VLAN Registration Protocol.
    Gvrp,
    /// Multiple VLAN Registration Protocol.
    Mvrp,
    /// No registration; written `none`.
    Unregistered,
}

impl View for VlanRegistrationProtocol {
    type V = VlanRegistrationProtocol;

    open spec fn view(&self) -> VlanRegistrationProtocol {
        *self
    }
}

/// The mathematical value of a [`VlanConfig`].
pub struct VlanConfigView {
    pub base_iface: Seq<char>,
    pub id: u16,
    pub protocol: Option<VlanProtocol>,
    pub registration_protocol: Option<VlanRegistrationProtocol>,
    pub reorder_headers: Option<bool>,
    pub loose_binding: Option<bool>,
}

/// What a VLAN adds to the common attributes.
#[derive(Debug, PartialEq, Eq)]
pub struct VlanConfig {
    /// The name of the parent interface. The parent is found by this name in
    /// the collection that holds the VLAN.
    pub base_iface: String,
    pub id: u16,
    /// `802.1q` where none is given.
    pub protocol: Option<VlanProtocol>,
    /// No registration where none is given.
    pub registration_protocol: Option<VlanRegistrationProtocol>,
    /// Whether the headers of outgoing packets are reordered.
    pub reorder_headers: Option<bool>,
    /// Whether the VLAN follows the parent's operating state loosely.
    pub loose_binding: Option<bool>,
}

impl View for VlanConfig {
    type V = VlanConfigView;

    open spec fn view(&self) -> VlanConfigView {
        VlanConfigView {
            base_iface: self.base_iface@,
            id: self.id,
            protocol: self.protocol,
            registration_protocol: self.registration_protocol,
            reorder_headers: self.reorder_headers,
            loose_binding: self.loose_binding,
        }
    }
}

impl Clone for VlanConfig {
    fn clone(&self) -> (r: Self)
        ensures
            r@ == self@,
    {
        VlanConfig {
            base_iface: self.base_iface.clone(),
            id: self.id,
            protocol: self.protocol,
            registration_protocol: self.registration_protocol,
            reorder_headers: self.reorder_headers,
            loose_binding: self.loose_binding,
        }
    }
}

impl VlanConfig {
    /// The id of a VLAN that a document gives as text: a decimal number of at
    /// most 16 bits.
    pub fn id_from_text(text: &str) -> (r: Result<u16, NmstateError>)
        ensures
            match r {
                Ok(id) => decimal_u16(text@) == Some(id),
                Err(e) => decimal_u16(text@) is None && e@.kind == ErrorKind::InvalidArgument,
            },
    {
        match parse_u16(text) {
            Some(id) => Ok(id),
            None => {
                let msg = String::from_str("Invalid VLAN id: ").concat(text);
                Err(NmstateError::new(ErrorKind::InvalidArgument, msg))
            },
        }
    }
}

impl Default for VlanConfig {
    fn default() -> (c: Self)
        ensures
            c@ == (VlanConfigView {
                base_iface: Seq::empty(),
                id: 0,
                protocol: None,
                registration_protocol: None,
                reorder_headers: None,
                loose_binding: None,
            }),
    {
        VlanConfig {
            base_iface: String::new(),
            id: 0,
            protocol: None,
            registration_protocol: None,
            reorder_headers: None,
            loose_binding: None,
        }
    }
}

/// The mathematical value of a [`VlanInterface`].
pub struct VlanInterfaceView {
    pub base: BaseInterfaceView,
    pub vlan: Option<VlanConfigView>,
}

impl VlanInterfaceView {
    /// The name of the parent interface, where the VLAN is configured.
    pub open spec fn parent(self) -> Option<Seq<char>> {
        match self.vlan {
            Some(c) => Some(c.base_iface),
            None => None,
        }
    }
}

/// A VLAN on top of a parent interface.
#[derive(Debug, PartialEq, Eq)]
pub struct VlanInterface {
    pub base: BaseInterface,
    pub vlan: Option<VlanConfig>,
}

impl View for VlanInterface {
    type V = VlanInterfaceView;

    open spec fn view(&self) -> VlanInterfaceView {
        VlanInterfaceView { base: self.base@, vlan: opt_view(self.vlan) }
    }
}

impl Clone for VlanInterface {
    fn clone(&self) -> (r: Self)
        ensures
            r@ == self@,
    {
        let vlan = match &self.vlan {
            Some(c) => Some(c.clone()),
            None => None,
        };
        VlanInterface { base: self.base.clone(), vlan }
    }
}

impl Default for VlanInterface {
    fn default() -> (v: Self)
        ensures
            v@ == (VlanInterfaceView {
                base: BaseInterfaceView::empty(InterfaceType::Vlan),
                vlan: None,
            }),
    {
        VlanInterface { base: BaseInterface::new(InterfaceType::Vlan), vlan: None }
    }
}

impl VlanInterface {
    /// A VLAN without name or configuration.
    pub fn new() -> (v: Self)
        ensures
            v@ == (VlanInterfaceView {
                base: BaseInterfaceView::empty(InterfaceType::Vlan),
                vlan: None,
            }),
    {
        VlanInterface { base: BaseInterface::new(InterfaceType::Vlan), vlan: None }
    }

    /// The name of the parent interface, where the VLAN is configured.
    pub fn parent(&self) -> (p: Option<&str>)
        ensures
            match p {
                Some(s) => self@.parent() == Some(s@),
                None => self@.parent() is None,
            },
    {
        match &self.vlan {
            Some(cfg) => Some(cfg.base_iface.as_str()),
            None => None,
        }
    }
}

impl MergedInterfaceView {
    /// Whether the running interface is a VLAN whose configuration switches
    /// the reordering of headers off.
    pub open spec fn current_reorder_is_off(self) -> bool {
        match self.current {
            Some(InterfaceView::Vlan(c)) => match c.vlan {
                Some(cfg) => cfg.reorder_headers == Some(false),
                None => false,
            },
            _ => false,
        }
    }

    /// The pair after the VLAN rule: where the interface to apply is a VLAN
    /// with a configuration that says nothing of the reordering of headers,
    /// reordering is switched on, unless the running interface has it switched
    /// off. Nothing else changes, and a stated value is never replaced.
    pub open spec fn post_process_vlan(self) -> MergedInterfaceView {
        match self.for_apply {
            Some(InterfaceView::Vlan(a)) => match a.vlan {
                Some(cfg) => if cfg.reorder_headers is None && !self.current_reorder_is_off() {
                    MergedInterfaceView {
                        for_apply: Some(
                            InterfaceView::Vlan(
                                VlanInterfaceView {
                                    vlan: Some(
                                        VlanConfigView { reorder_headers: Some(true), ..cfg },
                                    ),
                                    ..a
                                },
                            ),
                        ),
                        ..self
                    }
                } else {
                    self
                },
                None => self,
            },
            _ => self,
        }
    }
}

impl MergedInterface {
    /// Switches the reordering of headers on for a VLAN to apply that leaves
    /// it open, unless the running interface has it switched off.
    pub fn post_inter_ifaces_process_vlan(&mut self)
        ensures
            final(self)@ == old(self)@.post_process_vlan(),
    {
        let current_is_off: bool = match &self.current {
            Some(Interface::Vlan(cur_iface)) => match &cur_iface.vlan {
                Some(v) => match v.reorder_headers {
                    Some(false) => true,
                    _ => false,
                },
                None => false,
            },
            _ => false,
        };
        if !current_is_off {
            match &mut self.for_apply {
                Some(Interface::Vlan(apply_iface)) => match &mut apply_iface.vlan {
                    Some(vlan_conf) => {
                        if vlan_conf.reorder_headers.is_none() {
                            vlan_conf.reorder_headers = Some(true);
                        }
                    },
                    None => {},
                },
                _ => {},
            }
        }
    }
}

/// The VLAN rule, applied twice, does what it does applied once.
pub proof fn lemma_vlan_rule_is_idempotent(m: MergedInterfaceView)
    ensures
        m.post_process_vlan().post_process_vlan() == m.post_process_vlan(),
{
}

/// The VLAN rule leaves the running interface, the name and the kind of the
/// interface to apply as they are, and with them the validity of the pair.
pub proof fn lemma_vlan_rule_keeps_identity(m: MergedInterfaceView)
    ensures
        m.post_process_vlan().current == m.current,
        m.post_process_vlan().name() == m.name(),
        m.post_process_vlan().for_apply is Some <==> m.for_apply is Some,
        m.for_apply is Some ==> m.post_process_vlan().for_apply->0.iface_type()
            == m.for_apply->0.iface_type() && m.post_process_vlan().for_apply->0.base()
            == m.for_apply->0.base() && m.post_process_vlan().for_apply->0.parent()
            == m.for_apply->0.parent(),
        m.wf() ==> m.post_process_vlan().wf(),
{
}

/// The VLAN rule changes nothing where nothing is to apply, where the
/// interface to apply is no VLAN or has no VLAN configuration, and where the
/// desired state says whether headers are reordered.
pub proof fn lemma_vlan_rule_keeps_what_is_stated(m: MergedInterfaceView)
    ensures
        m.for_apply is None ==> m.post_process_vlan() == m,
        m.for_apply matches Some(a) && !(a is Vlan) ==> m.post_process_vlan() == m,
        m.for_apply matches Some(InterfaceView::Vlan(a)) && a.vlan is None
            ==> m.post_process_vlan() == m,
        m.for_apply matches Some(InterfaceView::Vlan(a)) && a.vlan matches Some(cfg)
            && cfg.reorder_headers is Some ==> m.post_process_vlan() == m,
{
}

/// Where the running VLAN has the reordering of headers switched off and the
/// desired one leaves it open, it stays open.
pub proof fn lemma_vlan_rule_follows_current(
    m: MergedInterfaceView,
    cur: VlanInterfaceView,
    cur_cfg: VlanConfigView,
)
    requires
        m.current == Some(InterfaceView::Vlan(cur)),
        cur.vlan == Some(cur_cfg),
        cur_cfg.reorder_headers == Some(false),
    ensures
        m.post_process_vlan() == m,
{
}

/// Where the desired VLAN leaves the reordering of headers open and the
/// running interface does not have it switched off (there is none, it is no
/// VLAN, or it says nothing else), reordering is switched on, and that is all
/// that changes.
pub proof fn lemma_vlan_rule_defaults_to_on(
    m: MergedInterfaceView,
    a: VlanInterfaceView,
    cfg: VlanConfigView,
)
    requires
        m.for_apply == Some(InterfaceView::Vlan(a)),
        a.vlan == Some(cfg),
        cfg.reorder_headers is None,
        !m.current_reorder_is_off(),
    ensures
        m.post_process_vlan() == (MergedInterfaceView {
            for_apply: Some(
                InterfaceView::Vlan(
                    VlanInterfaceView {
                        vlan: Some(VlanConfigView { reorder_headers: Some(true), ..cfg }),
                        ..a
                    },
                ),
            ),
            ..m
        }),
        m.current is None ==> !m.current_reorder_is_off(),
{
}

} // verus!
