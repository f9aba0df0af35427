//! How each part of a network state is written in a document, and how it is
//! read from one.
//!
//! A record is an object. Its keys are written with hyphens. A record
//! refuses a key that it does not know, except the record of an interface
//! and the `ipv4` and `ipv6` records in it, which hold more than this
//! library reads. A member that is null counts as missing.

use crate::dns::{DnsClientState, DnsClientStateView, DnsState, DnsStateView};
use crate::document::{
    check_keys, invalid, member, member_of, only_keys, opt_field, opt_field_of, opt_list,
    opt_list_of, req_field, req_field_of, same_text, value_is_null, value_keys, value_member,
    value_text, value_u64, Decode,
};
use crate::document::{is_null_of, members_of, text_of, u64_of};
use crate::error::{ErrorKind, NmstateError};
use crate::hostname::{HostNameState, HostNameStateView};
use crate::ifaces::base::{BaseInterface, BaseInterfaceView, InterfaceState, InterfaceType};
use crate::ifaces::ethernet::{
    EthernetConfig, EthernetConfigView, EthernetInterface, EthernetInterfaceView, SrIovConfig,
    SrIovConfigView, SrIovVfConfig, SrIovVfConfigView,
};
use crate::ifaces::iface::{Interface, InterfaceView};
use crate::ifaces::macsec::{MacSecConfig, MacSecConfigView, MacSecInterface, MacSecInterfaceView};
use crate::ifaces::vlan::{
    VlanConfig, VlanConfigView, VlanInterface, VlanInterfaceView, VlanProtocol,
    VlanRegistrationProtocol,
};
use crate::model::views;
use crate::ovn::{
    OvnBridgeMapping, OvnBridgeMappingState, OvnBridgeMappingView, OvnConfiguration,
    OvnConfigurationView,
};
use crate::ovsdb::{OvsDbGlobalConfig, OvsDbGlobalConfigView, OvsDbMap};
use crate::route::{RouteEntry, RouteEntryView, RouteState, Routes, RoutesView};
use crate::route_rule::{
    RouteRuleEntry, RouteRuleEntryView, RouteRuleState, RouteRules, RouteRulesView,
};
use crate::text::{decimal_u16, parse_u16};
use vstd::prelude::*;
use vstd::string::StringExecFns;

verus! {

/// A number of at most 16 bits: an integer, or its decimal text.
impl Decode for u16 {
    open spec fn decoded(v: serde_json::Value) -> Option<u16> {
        match u64_of(v) {
            Some(n) => if n <= u16::MAX {
                Some(n as u16)
            } else {
                None
            },
            None => match text_of(v) {
                Some(t) => decimal_u16(t),
                None => None,
            },
        }
    }

    fn decode(v: &serde_json::Value) -> (r: Result<Self, NmstateError>) {
        match value_u64(v) {
            Some(n) => if n <= 0xffff {
                Ok(n as u16)
            } else {
                Err(invalid(String::from_str("the integer does not fit 16 bits")))
            },
            None => match value_text(v) {
                Some(t) => match parse_u16(t) {
                    Some(n) => Ok(n),
                    None => Err(invalid(String::from_str("the text is no integer of 16 bits"))),
                },
                None => Err(invalid(String::from_str("an integer or its text is expected"))),
            },
        }
    }
}

impl InterfaceType {
    /// The kind that a word of a document names.
    pub open spec fn of_text(t: Seq<char>) -> Option<InterfaceType> {
        if t == "ethernet"@ {
            Some(InterfaceType::Ethernet)
        } else if t == "vlan"@ {
            Some(InterfaceType::Vlan)
        } else if t == "macsec"@ {
            Some(InterfaceType::MacSec)
        } else if t == "dummy"@ {
            Some(InterfaceType::Dummy)
        } else if t == "unknown"@ {
            Some(InterfaceType::Unknown)
        } else {
            None
        }
    }

    /// The kind that a word of a document names.
    pub fn from_text(t: &str) -> (r: Option<Self>)
        ensures
            r == Self::of_text(t@),
    {
        if same_text(t, "ethernet") {
            Some(InterfaceType::Ethernet)
        } else if same_text(t, "vlan") {
            Some(InterfaceType::Vlan)
        } else if same_text(t, "macsec") {
            Some(InterfaceType::MacSec)
        } else if same_text(t, "dummy") {
            Some(InterfaceType::Dummy)
        } else if same_text(t, "unknown") {
            Some(InterfaceType::Unknown)
        } else {
            None
        }
    }
}

impl Decode for InterfaceType {
    open spec fn decoded(v: serde_json::Value) -> Option<InterfaceType> {
        match text_of(v) {
            Some(t) => Self::of_text(t),
            None => None,
        }
    }

    fn decode(v: &serde_json::Value) -> (r: Result<Self, NmstateError>) {
        match value_text(v) {
            Some(t) => match Self::from_text(t) {
                Some(x) => Ok(x),
                None => Err(invalid(String::from_str("unknown interface type: ").concat(t))),
            },
            None => Err(invalid(String::from_str("a string is expected"))),
        }
    }
}

impl InterfaceState {
    /// The state that a word of a document names.
    pub open spec fn of_text(t: Seq<char>) -> Option<InterfaceState> {
        if t == "up"@ {
            Some(InterfaceState::Up)
        } else if t == "down"@ {
            Some(InterfaceState::Down)
        } else if t == "absent"@ {
            Some(InterfaceState::Absent)
        } else if t == "ignore"@ {
            Some(InterfaceState::Ignore)
        } else if t == "unknown"@ {
            Some(InterfaceState::Unknown)
        } else {
            None
        }
    }

    /// The state that a word of a document names.
    pub fn from_text(t: &str) -> (r: Option<Self>)
        ensures
            r == Self::of_text(t@),
    {
        if same_text(t, "up") {
            Some(InterfaceState::Up)
        } else if same_text(t, "down") {
            Some(InterfaceState::Down)
        } else if same_text(t, "absent") {
            Some(InterfaceState::Absent)
        } else if same_text(t, "ignore") {
            Some(InterfaceState::Ignore)
        } else if same_text(t, "unknown") {
            Some(InterfaceState::Unknown)
        } else {
            None
        }
    }
}

impl Decode for InterfaceState {
    open spec fn decoded(v: serde_json::Value) -> Option<InterfaceState> {
        match text_of(v) {
            Some(t) => Self::of_text(t),
            None => None,
        }
    }

    fn decode(v: &serde_json::Value) -> (r: Result<Self, NmstateError>) {
        match value_text(v) {
            Some(t) => match Self::from_text(t) {
                Some(x) => Ok(x),
                None => Err(invalid(String::from_str("unknown interface state: ").concat(t))),
            },
            None => Err(invalid(String::from_str("a string is expected"))),
        }
    }
}

impl VlanProtocol {
    /// The protocol that a word of a document names.
    pub open spec fn of_text(t: Seq<char>) -> Option<VlanProtocol> {
        if t == "802.1q"@ {
            Some(VlanProtocol::Ieee8021Q)
        } else if t == "802.1ad"@ {
            Some(VlanProtocol::Ieee8021Ad)
        } else {
            None
        }
    }

    /// The protocol that a word of a document names.
    pub fn from_text(t: &str) -> (r: Option<Self>)
        ensures
            r == Self::of_text(t@),
    {
        if same_text(t, "802.1q") {
            Some(VlanProtocol::Ieee8021Q)
        } else if same_text(t, "802.1ad") {
            Some(VlanProtocol::Ieee8021Ad)
        } else {
            None
        }
    }
}

impl Decode for VlanProtocol {
    open spec fn decoded(v: serde_json::Value) -> Option<VlanProtocol> {
        match text_of(v) {
            Some(t) => Self::of_text(t),
            None => None,
        }
    }

    fn decode(v: &serde_json::Value) -> (r: Result<Self, NmstateError>) {
        match value_text(v) {
            Some(t) => match Self::from_text(t) {
                Some(x) => Ok(x),
                None => Err(invalid(String::from_str("unknown VLAN protocol: ").concat(t))),
            },
            None => Err(invalid(String::from_str("a string is expected"))),
        }
    }
}

impl VlanRegistrationProtocol {
    /// The registration protocol that a word of a document names.
    pub open spec fn of_text(t: Seq<char>) -> Option<VlanRegistrationProtocol> {
        if t == "gvrp"@ {
            Some(VlanRegistrationProtocol::Gvrp)
        } else if t == "mvrp"@ {
            Some(VlanRegistrationProtocol::Mvrp)
        } else if t == "none"@ {
            Some(VlanRegistrationProtocol::Unregistered)
        } else {
            None
        }
    }

    /// The registration protocol that a word of a document names.
    pub fn from_text(t: &str) -> (r: Option<Self>)
        ensures
            r == Self::of_text(t@),
    {
        if same_text(t, "gvrp") {
            Some(VlanRegistrationProtocol::Gvrp)
        } else if same_text(t, "mvrp") {
            Some(VlanRegistrationProtocol::Mvrp)
        } else if same_text(t, "none") {
            Some(VlanRegistrationProtocol::Unregistered)
        } else {
            None
        }
    }
}

impl Decode for VlanRegistrationProtocol {
    open spec fn decoded(v: serde_json::Value) -> Option<VlanRegistrationProtocol> {
        match text_of(v) {
            Some(t) => Self::of_text(t),
            None => None,
        }
    }

    fn decode(v: &serde_json::Value) -> (r: Result<Self, NmstateError>) {
        match value_text(v) {
            Some(t) => match Self::from_text(t) {
                Some(x) => Ok(x),
                None => Err(
                    invalid(String::from_str("unknown VLAN registration protocol: ").concat(t)),
                ),
            },
            None => Err(invalid(String::from_str("a string is expected"))),
        }
    }
}

/// The state of a route: only `absent` is written.
impl Decode for RouteState {
    open spec fn decoded(v: serde_json::Value) -> Option<RouteState> {
        if text_of(v) == Some("absent"@) {
            Some(RouteState::Absent)
        } else {
            None
        }
    }

    fn decode(v: &serde_json::Value) -> (r: Result<Self, NmstateError>) {
        match value_text(v) {
            Some(t) => if same_text(t, "absent") {
                Ok(RouteState::Absent)
            } else {
                Err(invalid(String::from_str("unknown route state: ").concat(t)))
            },
            None => Err(invalid(String::from_str("a string is expected"))),
        }
    }
}

/// The state of a route rule: only `absent` is written.
impl Decode for RouteRuleState {
    open spec fn decoded(v: serde_json::Value) -> Option<RouteRuleState> {
        if text_of(v) == Some("absent"@) {
            Some(RouteRuleState::Absent)
        } else {
            None
        }
    }

    fn decode(v: &serde_json::Value) -> (r: Result<Self, NmstateError>) {
        match value_text(v) {
            Some(t) => if same_text(t, "absent") {
                Ok(RouteRuleState::Absent)
            } else {
                Err(invalid(String::from_str("unknown route rule state: ").concat(t)))
            },
            None => Err(invalid(String::from_str("a string is expected"))),
        }
    }
}

impl Decode for OvnBridgeMappingState {
    open spec fn decoded(v: serde_json::Value) -> Option<OvnBridgeMappingState> {
        if text_of(v) == Some("present"@) {
            Some(OvnBridgeMappingState::Present)
        } else if text_of(v) == Some("absent"@) {
            Some(OvnBridgeMappingState::Absent)
        } else {
            None
        }
    }

    fn decode(v: &serde_json::Value) -> (r: Result<Self, NmstateError>) {
        match value_text(v) {
            Some(t) => if same_text(t, "present") {
                Ok(OvnBridgeMappingState::Present)
            } else if same_text(t, "absent") {
                Ok(OvnBridgeMappingState::Absent)
            } else {
                Err(invalid(String::from_str("unknown bridge mapping state: ").concat(t)))
            },
            None => Err(invalid(String::from_str("a string is expected"))),
        }
    }
}

/// The keys of a host name.
pub open spec fn hostname_keys() -> Seq<Seq<char>> {
    seq!["running"@, "config"@]
}

impl Decode for HostNameState {
    open spec fn decoded(v: serde_json::Value) -> Option<HostNameStateView> {
        let running = opt_field_of::<String>(v, "running"@);
        let config = opt_field_of::<String>(v, "config"@);
        if !only_keys(v, hostname_keys()) || running is None || config is None {
            None
        } else {
            Some(HostNameStateView { running: running->0, config: config->0 })
        }
    }

    fn decode(v: &serde_json::Value) -> (r: Result<Self, NmstateError>) {
        let known = vec!["running", "config"];
        assert(views(known@) =~= hostname_keys());
        check_keys(v, &known)?;
        let running = opt_field::<String>(v, "running")?;
        let config = opt_field::<String>(v, "config")?;
        Ok(HostNameState { running, config })
    }
}

/// The keys of what a resolver is given.
pub open spec fn dns_client_keys() -> Seq<Seq<char>> {
    seq!["server"@, "search"@]
}

impl Decode for DnsClientState {
    open spec fn decoded(v: serde_json::Value) -> Option<DnsClientStateView> {
        let server = opt_list_of::<String>(v, "server"@);
        let search = opt_list_of::<String>(v, "search"@);
        if !only_keys(v, dns_client_keys()) || server is None || search is None {
            None
        } else {
            Some(DnsClientStateView { server: server->0, search: search->0 })
        }
    }

    fn decode(v: &serde_json::Value) -> (r: Result<Self, NmstateError>) {
        let known = vec!["server", "search"];
        assert(views(known@) =~= dns_client_keys());
        check_keys(v, &known)?;
        let server = opt_list::<String>(v, "server")?;
        let search = opt_list::<String>(v, "search")?;
        Ok(DnsClientState { server, search })
    }
}

/// The keys of a resolver, and of the routes.
pub open spec fn running_config_keys() -> Seq<Seq<char>> {
    seq!["running"@, "config"@]
}

impl Decode for DnsState {
    open spec fn decoded(v: serde_json::Value) -> Option<DnsStateView> {
        let running = opt_field_of::<DnsClientState>(v, "running"@);
        let config = opt_field_of::<DnsClientState>(v, "config"@);
        if !only_keys(v, running_config_keys()) || running is None || config is None {
            None
        } else {
            Some(DnsStateView { running: running->0, config: config->0 })
        }
    }

    fn decode(v: &serde_json::Value) -> (r: Result<Self, NmstateError>) {
        let known = vec!["running", "config"];
        assert(views(known@) =~= running_config_keys());
        check_keys(v, &known)?;
        let running = opt_field::<DnsClientState>(v, "running")?;
        let config = opt_field::<DnsClientState>(v, "config")?;
        Ok(DnsState { running, config })
    }
}

/// The keys of a route.
pub open spec fn route_keys() -> Seq<Seq<char>> {
    seq![
        "state"@,
        "destination"@,
        "next-hop-interface"@,
        "next-hop-address"@,
        "metric"@,
        "table-id"@,
    ]
}

impl Decode for RouteEntry {
    open spec fn decoded(v: serde_json::Value) -> Option<RouteEntryView> {
        let state = opt_field_of::<RouteState>(v, "state"@);
        let destination = opt_field_of::<String>(v, "destination"@);
        let next_hop_iface = opt_field_of::<String>(v, "next-hop-interface"@);
        let next_hop_addr = opt_field_of::<String>(v, "next-hop-address"@);
        let metric = opt_field_of::<i64>(v, "metric"@);
        let table_id = opt_field_of::<u32>(v, "table-id"@);
        if !only_keys(v, route_keys()) || state is None || destination is None
            || next_hop_iface is None || next_hop_addr is None || metric is None
            || table_id is None {
            None
        } else {
            Some(
                RouteEntryView {
                    state: state->0,
                    destination: destination->0,
                    next_hop_iface: next_hop_iface->0,
                    next_hop_addr: next_hop_addr->0,
                    metric: metric->0,
                    table_id: table_id->0,
                },
            )
        }
    }

    fn decode(v: &serde_json::Value) -> (r: Result<Self, NmstateError>) {
        let known = vec![
            "state",
            "destination",
            "next-hop-interface",
            "next-hop-address",
            "metric",
            "table-id",
        ];
        assert(views(known@) =~= route_keys());
        check_keys(v, &known)?;
        let state = opt_field::<RouteState>(v, "state")?;
        let destination = opt_field::<String>(v, "destination")?;
        let next_hop_iface = opt_field::<String>(v, "next-hop-interface")?;
        let next_hop_addr = opt_field::<String>(v, "next-hop-address")?;
        let metric = opt_field::<i64>(v, "metric")?;
        let table_id = opt_field::<u32>(v, "table-id")?;
        Ok(RouteEntry { state, destination, next_hop_iface, next_hop_addr, metric, table_id })
    }
}

impl Decode for Routes {
    open spec fn decoded(v: serde_json::Value) -> Option<RoutesView> {
        let running = opt_list_of::<RouteEntry>(v, "running"@);
        let config = opt_list_of::<RouteEntry>(v, "config"@);
        if !only_keys(v, running_config_keys()) || running is None || config is None {
            None
        } else {
            Some(RoutesView { running: running->0, config: config->0 })
        }
    }

    fn decode(v: &serde_json::Value) -> (r: Result<Self, NmstateError>) {
        let known = vec!["running", "config"];
        assert(views(known@) =~= running_config_keys());
        check_keys(v, &known)?;
        let running = opt_list::<RouteEntry>(v, "running")?;
        let config = opt_list::<RouteEntry>(v, "config")?;
        Ok(Routes { running, config })
    }
}

/// The keys of a route rule.
pub open spec fn route_rule_keys() -> Seq<Seq<char>> {
    seq!["state"@, "ip-from"@, "ip-to"@, "priority"@, "route-table"@, "iif"@]
}

impl Decode for RouteRuleEntry {
    open spec fn decoded(v: serde_json::Value) -> Option<RouteRuleEntryView> {
        let state = opt_field_of::<RouteRuleState>(v, "state"@);
        let ip_from = opt_field_of::<String>(v, "ip-from"@);
        let ip_to = opt_field_of::<String>(v, "ip-to"@);
        let priority = opt_field_of::<i64>(v, "priority"@);
        let table_id = opt_field_of::<u32>(v, "route-table"@);
        let iif = opt_field_of::<String>(v, "iif"@);
        if !only_keys(v, route_rule_keys()) || state is None || ip_from is None || ip_to is None
            || priority is None || table_id is None || iif is None {
            None
        } else {
            Some(
                RouteRuleEntryView {
                    state: state->0,
                    ip_from: ip_from->0,
                    ip_to: ip_to->0,
                    priority: priority->0,
                    table_id: table_id->0,
                    iif: iif->0,
                },
            )
        }
    }

    fn decode(v: &serde_json::Value) -> (r: Result<Self, NmstateError>) {
        let known = vec!["state", "ip-from", "ip-to", "priority", "route-table", "iif"];
        assert(views(known@) =~= route_rule_keys());
        check_keys(v, &known)?;
        let state = opt_field::<RouteRuleState>(v, "state")?;
        let ip_from = opt_field::<String>(v, "ip-from")?;
        let ip_to = opt_field::<String>(v, "ip-to")?;
        let priority = opt_field::<i64>(v, "priority")?;
        let table_id = opt_field::<u32>(v, "route-table")?;
        let iif = opt_field::<String>(v, "iif")?;
        Ok(RouteRuleEntry { state, ip_from, ip_to, priority, table_id, iif })
    }
}

/// The keys of the route rules.
pub open spec fn route_rules_keys() -> Seq<Seq<char>> {
    seq!["config"@]
}

impl Decode for RouteRules {
    open spec fn decoded(v: serde_json::Value) -> Option<RouteRulesView> {
        let config = opt_list_of::<RouteRuleEntry>(v, "config"@);
        if !only_keys(v, route_rules_keys()) || config is None {
            None
        } else {
            Some(RouteRulesView { config: config->0 })
        }
    }

    fn decode(v: &serde_json::Value) -> (r: Result<Self, NmstateError>) {
        let known = vec!["config"];
        assert(views(known@) =~= route_rules_keys());
        check_keys(v, &known)?;
        let config = opt_list::<RouteRuleEntry>(v, "config")?;
        Ok(RouteRules { config })
    }
}

/// The keys of a bridge mapping.
pub open spec fn ovn_mapping_keys() -> Seq<Seq<char>> {
    seq!["localnet"@, "state"@, "bridge"@]
}

impl Decode for OvnBridgeMapping {
    open spec fn decoded(v: serde_json::Value) -> Option<OvnBridgeMappingView> {
        let localnet = req_field_of::<String>(v, "localnet"@);
        let state = opt_field_of::<OvnBridgeMappingState>(v, "state"@);
        let bridge = opt_field_of::<String>(v, "bridge"@);
        if !only_keys(v, ovn_mapping_keys()) || localnet is None || state is None || bridge
            is None {
            None
        } else {
            Some(OvnBridgeMappingView { localnet: localnet->0, state: state->0, bridge: bridge->0 })
        }
    }

    fn decode(v: &serde_json::Value) -> (r: Result<Self, NmstateError>) {
        let known = vec!["localnet", "state", "bridge"];
        assert(views(known@) =~= ovn_mapping_keys());
        check_keys(v, &known)?;
        let localnet = req_field::<String>(v, "localnet")?;
        let state = opt_field::<OvnBridgeMappingState>(v, "state")?;
        let bridge = opt_field::<String>(v, "bridge")?;
        Ok(OvnBridgeMapping { localnet, state, bridge })
    }
}

/// The keys of the virtual-network configuration.
pub open spec fn ovn_keys() -> Seq<Seq<char>> {
    seq!["bridge-mappings"@]
}

impl Decode for OvnConfiguration {
    open spec fn decoded(v: serde_json::Value) -> Option<OvnConfigurationView> {
        let bridge_mappings = opt_list_of::<OvnBridgeMapping>(v, "bridge-mappings"@);
        if !only_keys(v, ovn_keys()) || bridge_mappings is None {
            None
        } else {
            Some(OvnConfigurationView { bridge_mappings: bridge_mappings->0 })
        }
    }

    fn decode(v: &serde_json::Value) -> (r: Result<Self, NmstateError>) {
        let known = vec!["bridge-mappings"];
        assert(views(known@) =~= ovn_keys());
        check_keys(v, &known)?;
        let bridge_mappings = opt_list::<OvnBridgeMapping>(v, "bridge-mappings")?;
        Ok(OvnConfiguration { bridge_mappings })
    }
}

/// The value of a key of a map of the database: a text, or nothing where the
/// member is null.
pub open spec fn entry_value_of(m: serde_json::Value) -> Option<Option<Seq<char>>> {
    if is_null_of(m) {
        Some(None)
    } else {
        match text_of(m) {
            Some(t) => Some(Some(t)),
            None => None,
        }
    }
}

/// The map of the database that an object stands for: each key of the
/// object, with the value of its member. `None` where the node is no object
/// or a member is neither a text nor null.
pub open spec fn entries_of(v: serde_json::Value) -> Option<Map<Seq<char>, Option<Seq<char>>>> {
    match members_of(v) {
        Some(ms) => if forall|k: Seq<char>|
            ms.contains_key(k) ==> (#[trigger] entry_value_of(ms[k])) is Some {
            Some(
                Map::new(
                    |k: Seq<char>| ms.contains_key(k),
                    |k: Seq<char>| entry_value_of(ms[k])->0,
                ),
            )
        } else {
            None
        },
        None => None,
    }
}

impl Decode for OvsDbMap {
    open spec fn decoded(v: serde_json::Value) -> Option<Map<Seq<char>, Option<Seq<char>>>> {
        entries_of(v)
    }

    fn decode(v: &serde_json::Value) -> (r: Result<Self, NmstateError>) {
        match value_keys(v) {
            Some(keys) => {
                let mut out = OvsDbMap::new();
                let mut i: usize = 0;
                let ghost ks = views(keys@);
                let ghost ms = members_of(*v)->0;
                while i < keys.len()
                    invariant
                        i <= keys.len(),
                        ks == views(keys@),
                        members_of(*v) == Some(ms),
                        forall|k: Seq<char>| ms.contains_key(k) <==> ks.contains(k),
                        forall|j: int|
                            0 <= j < i ==> (#[trigger] entry_value_of(ms[ks[j]])) is Some,
                        forall|k: Seq<char>|
                            out@.contains_key(k) <==> exists|j: int|
                                0 <= j < i && #[trigger] ks[j] == k,
                        forall|k: Seq<char>|
                            out@.contains_key(k) ==> out@[k] == entry_value_of(ms[k])->0,
                    decreases keys.len() - i,
                {
                    assert(ks[i as int] == keys@[i as int]@);
                    assert(ks.contains(ks[i as int]));
                    let value = match value_member(v, keys[i].as_str()) {
                        Some(m) => if value_is_null(m) {
                            None
                        } else {
                            match value_text(m) {
                                Some(t) => Some(String::from_str(t)),
                                None => {
                                    assert(entry_value_of(ms[ks[i as int]]) is None);
                                    let msg = String::from_str(keys[i].as_str()).concat(
                                        ": a string or null is expected",
                                    );
                                    return Err(invalid(msg));
                                },
                            }
                        },
                        None => {
                            return Err(invalid(String::from_str("a mapping is expected")));
                        },
                    };
                    let ghost before = out@;
                    out.insert(keys[i].clone(), value);
                    proof {
                        assert forall|k: Seq<char>| out@.contains_key(k) <==> exists|j: int|
                            0 <= j < i + 1 && #[trigger] ks[j] == k by {
                            if before.contains_key(k) {
                                let j = choose|j: int| 0 <= j < i && #[trigger] ks[j] == k;
                                assert(0 <= j < i + 1 && ks[j] == k);
                            }
                            if exists|j: int| 0 <= j < i + 1 && #[trigger] ks[j] == k {
                                let j = choose|j: int| 0 <= j < i + 1 && #[trigger] ks[j] == k;
                                if j < i {
                                    assert(before.contains_key(k));
                                }
                            }
                        }
                    }
                    i += 1;
                }
                proof {
                    assert forall|k: Seq<char>| ms.contains_key(k) implies (
                    #[trigger] entry_value_of(ms[k])) is Some by {
                        let j = choose|j: int| 0 <= j < ks.len() && ks[j] == k;
                        assert(entry_value_of(ms[ks[j]]) is Some);
                    }
                    assert forall|k: Seq<char>| out@.contains_key(k) <==> ms.contains_key(k) by {
                        if ms.contains_key(k) {
                            let j = choose|j: int| 0 <= j < ks.len() && ks[j] == k;
                            assert(0 <= j < i && ks[j] == k);
                        }
                    }
                    assert(out@ =~= entries_of(*v)->0);
                }
                Ok(out)
            },
            None => Err(invalid(String::from_str("a mapping is expected"))),
        }
    }
}

/// The keys of the database configuration.
pub open spec fn ovsdb_keys() -> Seq<Seq<char>> {
    seq!["external_ids"@, "other_config"@]
}

impl Decode for OvsDbGlobalConfig {
    open spec fn decoded(v: serde_json::Value) -> Option<OvsDbGlobalConfigView> {
        let external_ids = opt_field_of::<OvsDbMap>(v, "external_ids"@);
        let other_config = opt_field_of::<OvsDbMap>(v, "other_config"@);
        if !only_keys(v, ovsdb_keys()) || external_ids is None || other_config is None {
            None
        } else {
            Some(
                OvsDbGlobalConfigView {
                    external_ids: external_ids->0,
                    other_config: other_config->0,
                },
            )
        }
    }

    fn decode(v: &serde_json::Value) -> (r: Result<Self, NmstateError>) {
        let known = vec!["external_ids", "other_config"];
        assert(views(known@) =~= ovsdb_keys());
        check_keys(v, &known)?;
        let external_ids = opt_field::<OvsDbMap>(v, "external_ids")?;
        let other_config = opt_field::<OvsDbMap>(v, "other_config")?;
        Ok(OvsDbGlobalConfig { external_ids, other_config })
    }
}

/// The keys of a VLAN configuration.
pub open spec fn vlan_keys() -> Seq<Seq<char>> {
    seq![
        "base-iface"@,
        "id"@,
        "protocol"@,
        "registration-protocol"@,
        "reorder-headers"@,
        "loose-binding"@,
    ]
}

impl Decode for VlanConfig {
    open spec fn decoded(v: serde_json::Value) -> Option<VlanConfigView> {
        let base_iface = req_field_of::<String>(v, "base-iface"@);
        let id = req_field_of::<u16>(v, "id"@);
        let protocol = opt_field_of::<VlanProtocol>(v, "protocol"@);
        let registration_protocol = opt_field_of::<VlanRegistrationProtocol>(
            v,
            "registration-protocol"@,
        );
        let reorder_headers = opt_field_of::<bool>(v, "reorder-headers"@);
        let loose_binding = opt_field_of::<bool>(v, "loose-binding"@);
        if !only_keys(v, vlan_keys()) || base_iface is None || id is None || protocol is None
            || registration_protocol is None || reorder_headers is None || loose_binding
            is None {
            None
        } else {
            Some(
                VlanConfigView {
                    base_iface: base_iface->0,
                    id: id->0,
                    protocol: protocol->0,
                    registration_protocol: registration_protocol->0,
                    reorder_headers: reorder_headers->0,
                    loose_binding: loose_binding->0,
                },
            )
        }
    }

    fn decode(v: &serde_json::Value) -> (r: Result<Self, NmstateError>) {
        let known = vec![
            "base-iface",
            "id",
            "protocol",
            "registration-protocol",
            "reorder-headers",
            "loose-binding",
        ];
        assert(views(known@) =~= vlan_keys());
        check_keys(v, &known)?;
        let base_iface = req_field::<String>(v, "base-iface")?;
        let id = req_field::<u16>(v, "id")?;
        let protocol = opt_field::<VlanProtocol>(v, "protocol")?;
        let registration_protocol = opt_field::<VlanRegistrationProtocol>(
            v,
            "registration-protocol",
        )?;
        let reorder_headers = opt_field::<bool>(v, "reorder-headers")?;
        let loose_binding = opt_field::<bool>(v, "loose-binding")?;
        Ok(
            VlanConfig {
                base_iface,
                id,
                protocol,
                registration_protocol,
                reorder_headers,
                loose_binding,
            },
        )
    }
}

/// The keys of a virtual function.
pub open spec fn sriov_vf_keys() -> Seq<Seq<char>> {
    seq![
        "id"@,
        "mac-address"@,
        "spoof-check"@,
        "trust"@,
        "min-tx-rate"@,
        "max-tx-rate"@,
        "vlan-id"@,
        "qos"@,
        "vlan-proto"@,
    ]
}

impl Decode for SrIovVfConfig {
    open spec fn decoded(v: serde_json::Value) -> Option<SrIovVfConfigView> {
        let id = req_field_of::<u32>(v, "id"@);
        let mac_address = opt_field_of::<String>(v, "mac-address"@);
        let spoof_check = opt_field_of::<bool>(v, "spoof-check"@);
        let trust = opt_field_of::<bool>(v, "trust"@);
        let min_tx_rate = opt_field_of::<u32>(v, "min-tx-rate"@);
        let max_tx_rate = opt_field_of::<u32>(v, "max-tx-rate"@);
        let vlan_id = opt_field_of::<u32>(v, "vlan-id"@);
        let qos = opt_field_of::<u32>(v, "qos"@);
        let vlan_proto = opt_field_of::<VlanProtocol>(v, "vlan-proto"@);
        if !only_keys(v, sriov_vf_keys()) || id is None || mac_address is None || spoof_check
            is None || trust is None || min_tx_rate is None || max_tx_rate is None || vlan_id
            is None || qos is None || vlan_proto is None {
            None
        } else {
            Some(
                SrIovVfConfigView {
                    id: id->0,
                    mac_address: mac_address->0,
                    spoof_check: spoof_check->0,
                    trust: trust->0,
                    min_tx_rate: min_tx_rate->0,
                    max_tx_rate: max_tx_rate->0,
                    vlan_id: vlan_id->0,
                    qos: qos->0,
                    vlan_proto: vlan_proto->0,
                },
            )
        }
    }

    fn decode(v: &serde_json::Value) -> (r: Result<Self, NmstateError>) {
        let known = vec![
            "id",
            "mac-address",
            "spoof-check",
            "trust",
            "min-tx-rate",
            "max-tx-rate",
            "vlan-id",
            "qos",
            "vlan-proto",
        ];
        assert(views(known@) =~= sriov_vf_keys());
        check_keys(v, &known)?;
        let id = req_field::<u32>(v, "id")?;
        let mac_address = opt_field::<String>(v, "mac-address")?;
        let spoof_check = opt_field::<bool>(v, "spoof-check")?;
        let trust = opt_field::<bool>(v, "trust")?;
        let min_tx_rate = opt_field::<u32>(v, "min-tx-rate")?;
        let max_tx_rate = opt_field::<u32>(v, "max-tx-rate")?;
        let vlan_id = opt_field::<u32>(v, "vlan-id")?;
        let qos = opt_field::<u32>(v, "qos")?;
        let vlan_proto = opt_field::<VlanProtocol>(v, "vlan-proto")?;
        Ok(
            SrIovVfConfig {
                id,
                mac_address,
                spoof_check,
                trust,
                min_tx_rate,
                max_tx_rate,
                vlan_id,
                qos,
                vlan_proto,
            },
        )
    }
}

/// The keys of an SR-IOV configuration.
pub open spec fn sriov_keys() -> Seq<Seq<char>> {
    seq!["total-vfs"@, "drivers-autoprobe"@, "vfs"@]
}

impl Decode for SrIovConfig {
    open spec fn decoded(v: serde_json::Value) -> Option<SrIovConfigView> {
        let total_vfs = opt_field_of::<u32>(v, "total-vfs"@);
        let drivers_autoprobe = opt_field_of::<bool>(v, "drivers-autoprobe"@);
        let vfs = opt_list_of::<SrIovVfConfig>(v, "vfs"@);
        if !only_keys(v, sriov_keys()) || total_vfs is None || drivers_autoprobe is None || vfs
            is None {
            None
        } else {
            Some(
                SrIovConfigView {
                    total_vfs: total_vfs->0,
                    drivers_autoprobe: drivers_autoprobe->0,
                    vfs: vfs->0,
                },
            )
        }
    }

    fn decode(v: &serde_json::Value) -> (r: Result<Self, NmstateError>) {
        let known = vec!["total-vfs", "drivers-autoprobe", "vfs"];
        assert(views(known@) =~= sriov_keys());
        check_keys(v, &known)?;
        let total_vfs = opt_field::<u32>(v, "total-vfs")?;
        let drivers_autoprobe = opt_field::<bool>(v, "drivers-autoprobe")?;
        let vfs = opt_list::<SrIovVfConfig>(v, "vfs")?;
        Ok(SrIovConfig { total_vfs, drivers_autoprobe, vfs })
    }
}

/// The keys of an Ethernet configuration.
pub open spec fn ethernet_keys() -> Seq<Seq<char>> {
    seq!["sr-iov"@, "auto-negotiation"@, "speed"@]
}

impl Decode for EthernetConfig {
    open spec fn decoded(v: serde_json::Value) -> Option<EthernetConfigView> {
        let sr_iov = opt_field_of::<SrIovConfig>(v, "sr-iov"@);
        let auto_neg = opt_field_of::<bool>(v, "auto-negotiation"@);
        let speed = opt_field_of::<u32>(v, "speed"@);
        if !only_keys(v, ethernet_keys()) || sr_iov is None || auto_neg is None || speed
            is None {
            None
        } else {
            Some(EthernetConfigView { sr_iov: sr_iov->0, auto_neg: auto_neg->0, speed: speed->0 })
        }
    }

    fn decode(v: &serde_json::Value) -> (r: Result<Self, NmstateError>) {
        let known = vec!["sr-iov", "auto-negotiation", "speed"];
        assert(views(known@) =~= ethernet_keys());
        check_keys(v, &known)?;
        let sr_iov = opt_field::<SrIovConfig>(v, "sr-iov")?;
        let auto_neg = opt_field::<bool>(v, "auto-negotiation")?;
        let speed = opt_field::<u32>(v, "speed")?;
        Ok(EthernetConfig { sr_iov, auto_neg, speed })
    }
}

/// The keys of a MACsec configuration.
pub open spec fn macsec_keys() -> Seq<Seq<char>> {
    seq!["base-iface"@, "encrypt"@, "mka-cak"@, "mka-ckn"@, "port"@]
}

/// What is given, else the value that stands where nothing is given.
pub open spec fn or_value<T>(o: Option<T>, default: T) -> T {
    match o {
        Some(x) => x,
        None => default,
    }
}

/// A MACsec configuration encrypts and uses port 0 where nothing else is
/// written.
impl Decode for MacSecConfig {
    open spec fn decoded(v: serde_json::Value) -> Option<MacSecConfigView> {
        let base_iface = req_field_of::<String>(v, "base-iface"@);
        let encrypt = opt_field_of::<bool>(v, "encrypt"@);
        let mka_cak = opt_field_of::<String>(v, "mka-cak"@);
        let mka_ckn = opt_field_of::<String>(v, "mka-ckn"@);
        let port = opt_field_of::<u32>(v, "port"@);
        if !only_keys(v, macsec_keys()) || base_iface is None || encrypt is None || mka_cak
            is None || mka_ckn is None || port is None {
            None
        } else {
            Some(
                MacSecConfigView {
                    base_iface: base_iface->0,
                    encrypt: or_value(encrypt->0, true),
                    mka_cak: mka_cak->0,
                    mka_ckn: mka_ckn->0,
                    port: or_value(port->0, 0u32),
                },
            )
        }
    }

    fn decode(v: &serde_json::Value) -> (r: Result<Self, NmstateError>) {
        let known = vec!["base-iface", "encrypt", "mka-cak", "mka-ckn", "port"];
        assert(views(known@) =~= macsec_keys());
        check_keys(v, &known)?;
        let base_iface = req_field::<String>(v, "base-iface")?;
        let encrypt = match opt_field::<bool>(v, "encrypt")? {
            Some(b) => b,
            None => true,
        };
        let mka_cak = opt_field::<String>(v, "mka-cak")?;
        let mka_ckn = opt_field::<String>(v, "mka-ckn")?;
        let port = match opt_field::<u32>(v, "port")? {
            Some(p) => p,
            None => 0,
        };
        Ok(MacSecConfig { base_iface, encrypt, mka_cak, mka_ckn, port })
    }
}

/// Whether an IP stack is enabled: the `enabled` member of the object under
/// the key, where the key is there. `None` where the member under the key is
/// no object, or `enabled` no boolean.
pub open spec fn stack_enabled_of(v: serde_json::Value, key: Seq<char>) -> Option<Option<bool>> {
    match member_of(v, key) {
        Some(m) => if members_of(m) is None {
            None
        } else {
            opt_field_of::<bool>(m, "enabled"@)
        },
        None => Some(None),
    }
}

/// Reads whether an IP stack is enabled.
pub fn stack_enabled(v: &serde_json::Value, key: &str) -> (r: Result<Option<bool>, NmstateError>)
    ensures
        match r {
            Ok(o) => stack_enabled_of(*v, key@) == Some(o),
            Err(e) => stack_enabled_of(*v, key@) is None && e@.kind == ErrorKind::InvalidArgument,
        },
{
    match member(v, key) {
        Some(m) => {
            if value_keys(m).is_none() {
                return Err(invalid(String::from_str(key).concat(": a mapping is expected")));
            }
            opt_field::<bool>(m, "enabled")
        },
        None => Ok(None),
    }
}

/// The common attributes are members of the interface's own object. The
/// kind is unknown and the state is up where they are not written.
impl Decode for BaseInterface {
    open spec fn decoded(v: serde_json::Value) -> Option<BaseInterfaceView> {
        let name = req_field_of::<String>(v, "name"@);
        let iface_type = opt_field_of::<InterfaceType>(v, "type"@);
        let state = opt_field_of::<InterfaceState>(v, "state"@);
        let mac_address = opt_field_of::<String>(v, "mac-address"@);
        let mtu = opt_field_of::<u64>(v, "mtu"@);
        let max_mtu = opt_field_of::<u64>(v, "max-mtu"@);
        let ipv4_enabled = stack_enabled_of(v, "ipv4"@);
        let ipv6_enabled = stack_enabled_of(v, "ipv6"@);
        if name is None || iface_type is None || state is None || mac_address is None || mtu
            is None || max_mtu is None || ipv4_enabled is None || ipv6_enabled is None {
            None
        } else {
            Some(
                BaseInterfaceView {
                    name: name->0,
                    iface_type: or_value(iface_type->0, InterfaceType::Unknown),
                    state: or_value(state->0, InterfaceState::Up),
                    mac_address: mac_address->0,
                    mtu: mtu->0,
                    max_mtu: max_mtu->0,
                    ipv4_enabled: ipv4_enabled->0,
                    ipv6_enabled: ipv6_enabled->0,
                },
            )
        }
    }

    fn decode(v: &serde_json::Value) -> (r: Result<Self, NmstateError>) {
        let name = req_field::<String>(v, "name")?;
        let iface_type = match opt_field::<InterfaceType>(v, "type")? {
            Some(t) => t,
            None => InterfaceType::Unknown,
        };
        let state = match opt_field::<InterfaceState>(v, "state")? {
            Some(s) => s,
            None => InterfaceState::Up,
        };
        let mac_address = opt_field::<String>(v, "mac-address")?;
        let mtu = opt_field::<u64>(v, "mtu")?;
        let max_mtu = opt_field::<u64>(v, "max-mtu")?;
        let ipv4_enabled = stack_enabled(v, "ipv4")?;
        let ipv6_enabled = stack_enabled(v, "ipv6")?;
        Ok(
            BaseInterface {
                name,
                iface_type,
                state,
                mac_address,
                mtu,
                max_mtu,
                ipv4_enabled,
                ipv6_enabled,
            },
        )
    }
}

/// An interface is an object that holds the common attributes and, under
/// the name of its kind, what the kind adds. The `type` member says which
/// kind it is.
impl Decode for Interface {
    open spec fn decoded(v: serde_json::Value) -> Option<InterfaceView> {
        match BaseInterface::decoded(v) {
            Some(base) => match base.iface_type {
                InterfaceType::Ethernet => match opt_field_of::<EthernetConfig>(v, "ethernet"@) {
                    Some(ethernet) => Some(
                        InterfaceView::Ethernet(EthernetInterfaceView { base, ethernet }),
                    ),
                    None => None,
                },
                InterfaceType::Vlan => match opt_field_of::<VlanConfig>(v, "vlan"@) {
                    Some(vlan) => Some(InterfaceView::Vlan(VlanInterfaceView { base, vlan })),
                    None => None,
                },
                InterfaceType::MacSec => match opt_field_of::<MacSecConfig>(v, "macsec"@) {
                    Some(macsec) => Some(
                        InterfaceView::MacSec(MacSecInterfaceView { base, macsec }),
                    ),
                    None => None,
                },
                InterfaceType::Dummy => Some(InterfaceView::Dummy(base)),
                InterfaceType::Unknown => Some(InterfaceView::Unknown(base)),
            },
            None => None,
        }
    }

    fn decode(v: &serde_json::Value) -> (r: Result<Self, NmstateError>) {
        let base = BaseInterface::decode(v)?;
        match base.iface_type {
            InterfaceType::Ethernet => {
                let ethernet = opt_field::<EthernetConfig>(v, "ethernet")?;
                Ok(Interface::Ethernet(EthernetInterface { base, ethernet }))
            },
            InterfaceType::Vlan => {
                let vlan = opt_field::<VlanConfig>(v, "vlan")?;
                Ok(Interface::Vlan(VlanInterface { base, vlan }))
            },
            InterfaceType::MacSec => {
                let macsec = opt_field::<MacSecConfig>(v, "macsec")?;
                Ok(Interface::MacSec(MacSecInterface { base, macsec }))
            },
            InterfaceType::Dummy => Ok(Interface::Dummy(base)),
            InterfaceType::Unknown => Ok(Interface::Unknown(base)),
        }
    }
}

} // verus!
