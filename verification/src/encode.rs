//! How each part of a network state is written into a document.
//!
//! What is written can be read back: the tree that a value is written to
//! stands for that value again.

use crate::decode::{entries_of, entry_value_of, stack_enabled_of};
use crate::dns::{DnsClientState, DnsClientStateView, DnsState, DnsStateView};
use crate::document::{
    bool_node, decoded_list, empty_object, i64_node, is_null_of, list_node, member_of,
    members_of, null_node, only_keys, opt_field_of, opt_list_of, req_field_of, text_node,
    u64_node, with_member, Decode,
};
use crate::hostname::{HostNameState, HostNameStateView};
use crate::ifaces::base::{BaseInterface, BaseInterfaceView, InterfaceState, InterfaceType};
use crate::ifaces::ethernet::{
    EthernetConfig, EthernetConfigView, SrIovConfig, SrIovConfigView, SrIovVfConfig,
    SrIovVfConfigView,
};
use crate::ifaces::iface::{Interface, InterfaceView};
use crate::ifaces::macsec::{MacSecConfig, MacSecConfigView};
use crate::ifaces::vlan::{VlanConfig, VlanConfigView, VlanProtocol, VlanRegistrationProtocol};
use crate::model::{opt_view, opt_views, views};
use crate::ovn::{
    OvnBridgeMapping, OvnBridgeMappingState, OvnBridgeMappingView, OvnConfiguration,
    OvnConfigurationView,
};
use crate::ovsdb::{
    lemma_map_of_insert, map_of, sorted_by_key, OvsDbGlobalConfig, OvsDbGlobalConfigView,
    OvsDbMap,
};
use crate::text::text_lt;
use crate::route::{RouteEntry, RouteEntryView, RouteState, Routes, RoutesView};
use crate::route_rule::{
    RouteRuleEntry, RouteRuleEntryView, RouteRuleState, RouteRules, RouteRulesView,
};
use vstd::prelude::*;

verus! {

/// A value that can be written into a document.
pub trait Encode: Decode {
    /// Whether the value, written and read back, is the same value.
    spec fn writable(x: Self::V) -> bool;

    /// The node that stands for the value.
    fn encode(&self) -> (r: serde_json::Value)
        ensures
            !is_null_of(r),
            Self::writable(self@) ==> Self::decoded(r) == Some(self@),
    ;
}

/// Every value of the sequence can be written and read back.
pub open spec fn all_writable<T: Encode>(s: Seq<T::V>) -> bool {
    forall|i: int| 0 <= i < s.len() ==> T::writable(#[trigger] s[i])
}

/// An optional value can be written and read back.
pub open spec fn opt_writable<T: Encode>(o: Option<T::V>) -> bool {
    match o {
        Some(x) => T::writable(x),
        None => true,
    }
}

/// An optional list can be written and read back.
pub open spec fn opt_all_writable<T: Encode>(o: Option<Seq<T::V>>) -> bool {
    match o {
        Some(s) => all_writable::<T>(s),
        None => true,
    }
}

impl Encode for String {
    open spec fn writable(x: Seq<char>) -> bool {
        true
    }

    fn encode(&self) -> (r: serde_json::Value) {
        text_node(self.as_str())
    }
}

impl Encode for bool {
    open spec fn writable(x: bool) -> bool {
        true
    }

    fn encode(&self) -> (r: serde_json::Value) {
        bool_node(*self)
    }
}

impl Encode for u64 {
    open spec fn writable(x: u64) -> bool {
        true
    }

    fn encode(&self) -> (r: serde_json::Value) {
        u64_node(*self)
    }
}

impl Encode for u32 {
    open spec fn writable(x: u32) -> bool {
        true
    }

    fn encode(&self) -> (r: serde_json::Value) {
        u64_node(*self as u64)
    }
}

impl Encode for u16 {
    open spec fn writable(x: u16) -> bool {
        true
    }

    fn encode(&self) -> (r: serde_json::Value) {
        u64_node(*self as u64)
    }
}

impl Encode for i64 {
    open spec fn writable(x: i64) -> bool {
        true
    }

    fn encode(&self) -> (r: serde_json::Value) {
        i64_node(*self)
    }
}

/// The object `after` is the object `before` with the member under `key`
/// set or left out: every other member is as it was, and no other key came.
pub open spec fn put_at(before: serde_json::Value, after: serde_json::Value, key: Seq<char>)
    -> bool {
    &&& members_of(before) is Some
    &&& members_of(after) is Some
    &&& !is_null_of(after)
    &&& forall|k: Seq<char>| k != key ==> #[trigger] member_of(after, k) == member_of(before, k)
    &&& forall|k: Seq<char>| #[trigger]
        members_of(after)->0.contains_key(k) ==> k == key || members_of(before)->0.contains_key(k)
}

/// Writes an optional value under a key: a value that is there is written,
/// one that is missing leaves the object as it is.
pub(crate) fn put_opt<T: Encode>(obj: serde_json::Value, key: &str, x: &Option<T>) -> (r:
    serde_json::Value)
    requires
        members_of(obj) is Some,
        !is_null_of(obj),
        member_of(obj, key@) is None,
    ensures
        put_at(obj, r, key@),
        opt_writable::<T>(opt_view(*x)) ==> opt_field_of::<T>(r, key@) == Some(opt_view(*x)),
{
    match x {
        Some(v) => with_member(obj, key, v.encode()),
        None => obj,
    }
}

/// Writes a value under a key.
pub(crate) fn put_req<T: Encode>(obj: serde_json::Value, key: &str, x: &T) -> (r: serde_json::Value)
    requires
        members_of(obj) is Some,
    ensures
        put_at(obj, r, key@),
        T::writable(x@) ==> req_field_of::<T>(r, key@) == Some(x@),
        T::writable(x@) ==> opt_field_of::<T>(r, key@) == Some(Some(x@)),
{
    with_member(obj, key, x.encode())
}

/// The array of the nodes of the values of a list.
pub(crate) fn encode_list<T: Encode>(list: &Vec<T>) -> (r: serde_json::Value)
    ensures
        !is_null_of(r),
        all_writable::<T>(views(list@)) ==> decoded_list::<T>(r) == Some(views(list@)),
{
    let mut items: Vec<serde_json::Value> = Vec::new();
    let mut i: usize = 0;
    while i < list.len()
        invariant
            i <= list.len(),
            items@.len() == i,
            forall|k: int|
                0 <= k < i && T::writable(list@[k]@) ==> (#[trigger] T::decoded(items@[k]))
                    == Some(list@[k]@),
        decreases list.len() - i,
    {
        items.push(list[i].encode());
        i += 1;
    }
    let r = list_node(items);
    proof {
        if all_writable::<T>(views(list@)) {
            assert forall|k: int| 0 <= k < items@.len() implies (#[trigger] T::decoded(
                items@[k],
            )) == Some(list@[k]@) by {
                assert(T::writable(views(list@)[k]));
            }
            assert(views(list@) =~= Seq::new(items@.len(), |i: int| T::decoded(items@[i])->0));
        }
    }
    r
}

/// Writes an optional list under a key.
pub(crate) fn put_opt_list<T: Encode>(obj: serde_json::Value, key: &str, x: &Option<Vec<T>>) -> (r:
    serde_json::Value)
    requires
        members_of(obj) is Some,
        !is_null_of(obj),
        member_of(obj, key@) is None,
    ensures
        put_at(obj, r, key@),
        opt_all_writable::<T>(opt_views(*x)) ==> opt_list_of::<T>(r, key@) == Some(opt_views(*x)),
{
    match x {
        Some(l) => with_member(obj, key, encode_list::<T>(l)),
        None => obj,
    }
}

/// Writes a list under a key.
pub(crate) fn put_list<T: Encode>(obj: serde_json::Value, key: &str, x: &Vec<T>) -> (r: serde_json::Value)
    requires
        members_of(obj) is Some,
    ensures
        put_at(obj, r, key@),
        all_writable::<T>(views(x@)) ==> opt_list_of::<T>(r, key@) == Some(Some(views(x@))),
{
    with_member(obj, key, encode_list::<T>(x))
}

/// Writes whether an IP stack is enabled: an object with the member
/// `enabled`, or nothing where nothing is said.
pub(crate) fn put_stack_enabled(obj: serde_json::Value, key: &str, x: &Option<bool>) -> (r:
    serde_json::Value)
    requires
        members_of(obj) is Some,
        !is_null_of(obj),
        member_of(obj, key@) is None,
    ensures
        put_at(obj, r, key@),
        stack_enabled_of(r, key@) == Some(*x),
{
    match x {
        Some(b) => {
            let inner = put_req::<bool>(empty_object(), "enabled", b);
            with_member(obj, key, inner)
        },
        None => obj,
    }
}

impl Encode for InterfaceType {
    open spec fn writable(x: InterfaceType) -> bool {
        true
    }

    fn encode(&self) -> (r: serde_json::Value) {
        proof {
            reveal_strlit("ethernet");
            reveal_strlit("vlan");
            reveal_strlit("macsec");
            reveal_strlit("dummy");
            reveal_strlit("unknown");
            assert("ethernet"@.len() == 8 && "vlan"@.len() == 4 && "macsec"@.len() == 6);
            assert("dummy"@.len() == 5 && "unknown"@.len() == 7);
        }
        match self {
            InterfaceType::Ethernet => text_node("ethernet"),
            InterfaceType::Vlan => text_node("vlan"),
            InterfaceType::MacSec => text_node("macsec"),
            InterfaceType::Dummy => text_node("dummy"),
            InterfaceType::Unknown => text_node("unknown"),
        }
    }
}

impl Encode for InterfaceState {
    open spec fn writable(x: InterfaceState) -> bool {
        true
    }

    fn encode(&self) -> (r: serde_json::Value) {
        proof {
            reveal_strlit("up");
            reveal_strlit("down");
            reveal_strlit("absent");
            reveal_strlit("ignore");
            reveal_strlit("unknown");
            assert("up"@.len() == 2 && "down"@.len() == 4 && "absent"@.len() == 6);
            assert("ignore"@.len() == 6 && "unknown"@.len() == 7);
            assert("absent"@[0] == 'a' && "ignore"@[0] == 'i');
        }
        match self {
            InterfaceState::Up => text_node("up"),
            InterfaceState::Down => text_node("down"),
            InterfaceState::Absent => text_node("absent"),
            InterfaceState::Ignore => text_node("ignore"),
            InterfaceState::Unknown => text_node("unknown"),
        }
    }
}

impl Encode for VlanProtocol {
    open spec fn writable(x: VlanProtocol) -> bool {
        true
    }

    fn encode(&self) -> (r: serde_json::Value) {
        proof {
            reveal_strlit("802.1q");
            reveal_strlit("802.1ad");
            assert("802.1q"@.len() == 6 && "802.1ad"@.len() == 7);
        }
        match self {
            VlanProtocol::Ieee8021Q => text_node("802.1q"),
            VlanProtocol::Ieee8021Ad => text_node("802.1ad"),
        }
    }
}

impl Encode for VlanRegistrationProtocol {
    open spec fn writable(x: VlanRegistrationProtocol) -> bool {
        true
    }

    fn encode(&self) -> (r: serde_json::Value) {
        proof {
            reveal_strlit("gvrp");
            reveal_strlit("mvrp");
            reveal_strlit("none");
            assert("gvrp"@[0] == 'g' && "mvrp"@[0] == 'm' && "none"@[0] == 'n');
        }
        match self {
            VlanRegistrationProtocol::Gvrp => text_node("gvrp"),
            VlanRegistrationProtocol::Mvrp => text_node("mvrp"),
            VlanRegistrationProtocol::Unregistered => text_node("none"),
        }
    }
}

impl Encode for RouteState {
    open spec fn writable(x: RouteState) -> bool {
        true
    }

    fn encode(&self) -> (r: serde_json::Value) {
        text_node("absent")
    }
}

impl Encode for RouteRuleState {
    open spec fn writable(x: RouteRuleState) -> bool {
        true
    }

    fn encode(&self) -> (r: serde_json::Value) {
        text_node("absent")
    }
}

impl Encode for OvnBridgeMappingState {
    open spec fn writable(x: OvnBridgeMappingState) -> bool {
        true
    }

    fn encode(&self) -> (r: serde_json::Value) {
        proof {
            reveal_strlit("present");
            reveal_strlit("absent");
            assert("present"@.len() == 7 && "absent"@.len() == 6);
        }
        match self {
            OvnBridgeMappingState::Present => text_node("present"),
            OvnBridgeMappingState::Absent => text_node("absent"),
        }
    }
}

impl Encode for HostNameState {
    open spec fn writable(x: HostNameStateView) -> bool {
        true
    }

    fn encode(&self) -> (r: serde_json::Value) {
        proof {
            reveal_strlit("running");
            reveal_strlit("config");
            assert("running"@.len() == 7 && "config"@.len() == 6);
        }
        let obj = empty_object();
        let obj = put_opt::<String>(obj, "running", &self.running);
        let obj = put_opt::<String>(obj, "config", &self.config);
        obj
    }
}

impl Encode for DnsClientState {
    open spec fn writable(x: DnsClientStateView) -> bool {
        true
    }

    fn encode(&self) -> (r: serde_json::Value) {
        proof {
            reveal_strlit("server");
            reveal_strlit("search");
            assert("server"@[2] == 'r' && "search"@[2] == 'a');
            assert forall|i: int| 0 <= i < opt_views(self.server)->0.len() implies String::writable(
                #[trigger] opt_views(self.server)->0[i],
            ) by {}
        }
        let obj = empty_object();
        let obj = put_opt_list::<String>(obj, "server", &self.server);
        let obj = put_opt_list::<String>(obj, "search", &self.search);
        obj
    }
}

impl Encode for DnsState {
    open spec fn writable(x: DnsStateView) -> bool {
        true
    }

    fn encode(&self) -> (r: serde_json::Value) {
        proof {
            reveal_strlit("running");
            reveal_strlit("config");
            assert("running"@.len() == 7 && "config"@.len() == 6);
        }
        let obj = empty_object();
        let obj = put_opt::<DnsClientState>(obj, "running", &self.running);
        let obj = put_opt::<DnsClientState>(obj, "config", &self.config);
        obj
    }
}

impl Encode for RouteEntry {
    open spec fn writable(x: RouteEntryView) -> bool {
        true
    }

    fn encode(&self) -> (r: serde_json::Value) {
        proof {
            reveal_strlit("state");
            reveal_strlit("destination");
            reveal_strlit("next-hop-interface");
            reveal_strlit("next-hop-address");
            reveal_strlit("metric");
            reveal_strlit("table-id");
            assert("state"@.len() == 5 && "destination"@.len() == 11);
            assert("next-hop-interface"@.len() == 18 && "next-hop-address"@.len() == 16);
            assert("metric"@.len() == 6 && "table-id"@.len() == 8);
        }
        let obj = empty_object();
        let obj = put_opt::<RouteState>(obj, "state", &self.state);
        let obj = put_opt::<String>(obj, "destination", &self.destination);
        let obj = put_opt::<String>(obj, "next-hop-interface", &self.next_hop_iface);
        let obj = put_opt::<String>(obj, "next-hop-address", &self.next_hop_addr);
        let obj = put_opt::<i64>(obj, "metric", &self.metric);
        let obj = put_opt::<u32>(obj, "table-id", &self.table_id);
        obj
    }
}

impl Encode for Routes {
    open spec fn writable(x: RoutesView) -> bool {
        true
    }

    fn encode(&self) -> (r: serde_json::Value) {
        proof {
            reveal_strlit("running");
            reveal_strlit("config");
            assert("running"@.len() == 7 && "config"@.len() == 6);
        }
        let obj = empty_object();
        let obj = put_opt_list::<RouteEntry>(obj, "running", &self.running);
        let obj = put_opt_list::<RouteEntry>(obj, "config", &self.config);
        obj
    }
}

impl Encode for RouteRuleEntry {
    open spec fn writable(x: RouteRuleEntryView) -> bool {
        true
    }

    fn encode(&self) -> (r: serde_json::Value) {
        proof {
            reveal_strlit("state");
            reveal_strlit("ip-from");
            reveal_strlit("ip-to");
            reveal_strlit("priority");
            reveal_strlit("route-table");
            reveal_strlit("iif");
            assert("state"@.len() == 5 && "ip-from"@.len() == 7 && "ip-to"@.len() == 5);
            assert("priority"@.len() == 8 && "route-table"@.len() == 11 && "iif"@.len() == 3);
            assert("state"@[0] == 's' && "ip-to"@[0] == 'i');
        }
        let obj = empty_object();
        let obj = put_opt::<RouteRuleState>(obj, "state", &self.state);
        let obj = put_opt::<String>(obj, "ip-from", &self.ip_from);
        let obj = put_opt::<String>(obj, "ip-to", &self.ip_to);
        let obj = put_opt::<i64>(obj, "priority", &self.priority);
        let obj = put_opt::<u32>(obj, "route-table", &self.table_id);
        let obj = put_opt::<String>(obj, "iif", &self.iif);
        obj
    }
}

impl Encode for RouteRules {
    open spec fn writable(x: RouteRulesView) -> bool {
        true
    }

    fn encode(&self) -> (r: serde_json::Value) {
        let obj = empty_object();
        let obj = put_opt_list::<RouteRuleEntry>(obj, "config", &self.config);
        assert(crate::decode::route_rules_keys()[0] == "config"@);
        obj
    }
}

impl Encode for OvnBridgeMapping {
    open spec fn writable(x: OvnBridgeMappingView) -> bool {
        true
    }

    fn encode(&self) -> (r: serde_json::Value) {
        proof {
            reveal_strlit("localnet");
            reveal_strlit("state");
            reveal_strlit("bridge");
            assert("localnet"@.len() == 8 && "state"@.len() == 5 && "bridge"@.len() == 6);
        }
        let obj = empty_object();
        let obj = put_req::<String>(obj, "localnet", &self.localnet);
        let obj = put_opt::<OvnBridgeMappingState>(obj, "state", &self.state);
        let obj = put_opt::<String>(obj, "bridge", &self.bridge);
        obj
    }
}

impl Encode for OvnConfiguration {
    open spec fn writable(x: OvnConfigurationView) -> bool {
        true
    }

    fn encode(&self) -> (r: serde_json::Value) {
        let obj = empty_object();
        let obj = put_opt_list::<OvnBridgeMapping>(obj, "bridge-mappings", &self.bridge_mappings);
        assert(crate::decode::ovn_keys()[0] == "bridge-mappings"@);
        obj
    }
}

/// The object of a map of the database: a member for each key, a text or
/// null.
impl Encode for OvsDbMap {
    open spec fn writable(x: Map<Seq<char>, Option<Seq<char>>>) -> bool {
        true
    }

    fn encode(&self) -> (r: serde_json::Value) {
        let list = self.entries();
        let ghost s = views(list@);
        let mut obj = empty_object();
        let mut i: usize = 0;
        proof {
            assert(map_of(s.take(0)) =~= Map::<Seq<char>, Option<Seq<char>>>::empty());
        }
        while i < list.len()
            invariant
                i <= list.len(),
                s == views(list@),
                sorted_by_key(s),
                members_of(obj) is Some,
                !is_null_of(obj),
                forall|k: Seq<char>|
                    members_of(obj)->0.contains_key(k) <==> map_of(s.take(i as int)).contains_key(
                        k,
                    ),
                forall|k: Seq<char>|
                    members_of(obj)->0.contains_key(k) ==> (#[trigger] entry_value_of(
                        members_of(obj)->0[k],
                    )) == Some(map_of(s.take(i as int))[k]),
            decreases list.len() - i,
        {
            proof {
                let before = s.take(i as int);
                assert(before.insert(i as int, s[i as int]) =~= s.take(i as int + 1));
                assert(sorted_by_key(before)) by {
                    assert forall|a: int, b: int| 0 <= a < b < before.len() implies text_lt(
                        (#[trigger] before[a]).key,
                        (#[trigger] before[b]).key,
                    ) by {
                        assert(text_lt(s[a].key, s[b].key));
                    }
                }
                assert(sorted_by_key(s.take(i as int + 1))) by {
                    let t = s.take(i as int + 1);
                    assert forall|a: int, b: int| 0 <= a < b < t.len() implies text_lt(
                        (#[trigger] t[a]).key,
                        (#[trigger] t[b]).key,
                    ) by {
                        assert(text_lt(s[a].key, s[b].key));
                    }
                }
                lemma_map_of_insert(before, i as int, s[i as int]);
            }
            let node = match &list[i].value {
                Some(t) => text_node(t.as_str()),
                None => null_node(),
            };
            assert(entry_value_of(node) == Some(s[i as int].value));
            obj = with_member(obj, list[i].key.as_str(), node);
            i += 1;
        }
        proof {
            assert(s.take(s.len() as int) =~= s);
            assert forall|k: Seq<char>| members_of(obj)->0.contains_key(k) implies (
            #[trigger] entry_value_of(members_of(obj)->0[k])) is Some by {}
            assert(entries_of(obj)->0 =~= self@);
        }
        obj
    }
}

impl Encode for OvsDbGlobalConfig {
    open spec fn writable(x: OvsDbGlobalConfigView) -> bool {
        true
    }

    fn encode(&self) -> (r: serde_json::Value) {
        proof {
            reveal_strlit("external_ids");
            reveal_strlit("other_config");
            assert("external_ids"@[0] == 'e' && "other_config"@[0] == 'o');
        }
        let obj = empty_object();
        let obj = put_opt::<OvsDbMap>(obj, "external_ids", &self.external_ids);
        let obj = put_opt::<OvsDbMap>(obj, "other_config", &self.other_config);
        obj
    }
}

impl Encode for VlanConfig {
    open spec fn writable(x: VlanConfigView) -> bool {
        true
    }

    fn encode(&self) -> (r: serde_json::Value) {
        proof {
            reveal_strlit("base-iface");
            reveal_strlit("id");
            reveal_strlit("protocol");
            reveal_strlit("registration-protocol");
            reveal_strlit("reorder-headers");
            reveal_strlit("loose-binding");
            assert("base-iface"@.len() == 10 && "id"@.len() == 2 && "protocol"@.len() == 8);
            assert("registration-protocol"@.len() == 21 && "reorder-headers"@.len() == 15);
            assert("loose-binding"@.len() == 13);
        }
        let obj = empty_object();
        let obj = put_req::<String>(obj, "base-iface", &self.base_iface);
        let obj = put_req::<u16>(obj, "id", &self.id);
        let obj = put_opt::<VlanProtocol>(obj, "protocol", &self.protocol);
        let obj = put_opt::<VlanRegistrationProtocol>(
            obj,
            "registration-protocol",
            &self.registration_protocol,
        );
        let obj = put_opt::<bool>(obj, "reorder-headers", &self.reorder_headers);
        let obj = put_opt::<bool>(obj, "loose-binding", &self.loose_binding);
        obj
    }
}

impl Encode for SrIovVfConfig {
    open spec fn writable(x: SrIovVfConfigView) -> bool {
        true
    }

    fn encode(&self) -> (r: serde_json::Value) {
        proof {
            reveal_strlit("id");
            reveal_strlit("mac-address");
            reveal_strlit("spoof-check");
            reveal_strlit("trust");
            reveal_strlit("min-tx-rate");
            reveal_strlit("max-tx-rate");
            reveal_strlit("vlan-id");
            reveal_strlit("qos");
            reveal_strlit("vlan-proto");
            assert("id"@.len() == 2 && "mac-address"@.len() == 11 && "spoof-check"@.len() == 11);
            assert("trust"@.len() == 5 && "min-tx-rate"@.len() == 11 && "max-tx-rate"@.len() == 11);
            assert("vlan-id"@.len() == 7 && "qos"@.len() == 3 && "vlan-proto"@.len() == 10);
            assert("mac-address"@[0] == 'm' && "mac-address"@[1] == 'a' && "mac-address"@[2] == 'c');
            assert("spoof-check"@[0] == 's');
            assert("min-tx-rate"@[0] == 'm' && "min-tx-rate"@[1] == 'i');
            assert("max-tx-rate"@[0] == 'm' && "max-tx-rate"@[1] == 'a' && "max-tx-rate"@[2] == 'x');
        }
        let obj = empty_object();
        let obj = put_req::<u32>(obj, "id", &self.id);
        let obj = put_opt::<String>(obj, "mac-address", &self.mac_address);
        let obj = put_opt::<bool>(obj, "spoof-check", &self.spoof_check);
        let obj = put_opt::<bool>(obj, "trust", &self.trust);
        let obj = put_opt::<u32>(obj, "min-tx-rate", &self.min_tx_rate);
        let obj = put_opt::<u32>(obj, "max-tx-rate", &self.max_tx_rate);
        let obj = put_opt::<u32>(obj, "vlan-id", &self.vlan_id);
        let obj = put_opt::<u32>(obj, "qos", &self.qos);
        let obj = put_opt::<VlanProtocol>(obj, "vlan-proto", &self.vlan_proto);
        obj
    }
}

impl Encode for SrIovConfig {
    open spec fn writable(x: SrIovConfigView) -> bool {
        true
    }

    fn encode(&self) -> (r: serde_json::Value) {
        proof {
            reveal_strlit("total-vfs");
            reveal_strlit("drivers-autoprobe");
            reveal_strlit("vfs");
            assert("total-vfs"@.len() == 9 && "drivers-autoprobe"@.len() == 17);
            assert("vfs"@.len() == 3);
        }
        let obj = empty_object();
        let obj = put_opt::<u32>(obj, "total-vfs", &self.total_vfs);
        let obj = put_opt::<bool>(obj, "drivers-autoprobe", &self.drivers_autoprobe);
        let obj = put_opt_list::<SrIovVfConfig>(obj, "vfs", &self.vfs);
        obj
    }
}

impl Encode for EthernetConfig {
    open spec fn writable(x: EthernetConfigView) -> bool {
        true
    }

    fn encode(&self) -> (r: serde_json::Value) {
        proof {
            reveal_strlit("sr-iov");
            reveal_strlit("auto-negotiation");
            reveal_strlit("speed");
            assert("sr-iov"@.len() == 6 && "auto-negotiation"@.len() == 16);
            assert("speed"@.len() == 5);
        }
        let obj = empty_object();
        let obj = put_opt::<SrIovConfig>(obj, "sr-iov", &self.sr_iov);
        let obj = put_opt::<bool>(obj, "auto-negotiation", &self.auto_neg);
        let obj = put_opt::<u32>(obj, "speed", &self.speed);
        obj
    }
}

impl Encode for MacSecConfig {
    open spec fn writable(x: MacSecConfigView) -> bool {
        true
    }

    fn encode(&self) -> (r: serde_json::Value) {
        proof {
            reveal_strlit("base-iface");
            reveal_strlit("encrypt");
            reveal_strlit("mka-cak");
            reveal_strlit("mka-ckn");
            reveal_strlit("port");
            assert("base-iface"@.len() == 10 && "encrypt"@.len() == 7 && "port"@.len() == 4);
            assert("mka-cak"@.len() == 7 && "mka-ckn"@.len() == 7);
            assert("encrypt"@[0] == 'e' && "mka-cak"@[0] == 'm' && "mka-ckn"@[0] == 'm');
            assert("mka-cak"@[5] == 'a' && "mka-ckn"@[5] == 'k');
        }
        let obj = empty_object();
        let obj = put_req::<String>(obj, "base-iface", &self.base_iface);
        let obj = put_req::<bool>(obj, "encrypt", &self.encrypt);
        let obj = put_opt::<String>(obj, "mka-cak", &self.mka_cak);
        let obj = put_opt::<String>(obj, "mka-ckn", &self.mka_ckn);
        let obj = put_req::<u32>(obj, "port", &self.port);
        obj
    }
}

/// The keys of the common attributes of an interface.
pub open spec fn base_interface_keys() -> Seq<Seq<char>> {
    seq![
        "name"@,
        "type"@,
        "state"@,
        "mac-address"@,
        "mtu"@,
        "max-mtu"@,
        "ipv4"@,
        "ipv6"@,
    ]
}

impl BaseInterface {
    /// The object of the common attributes. It has no other keys.
    pub fn to_object(&self) -> (r: serde_json::Value)
        ensures
            !is_null_of(r),
            only_keys(r, base_interface_keys()),
            BaseInterface::decoded(r) == Some(self@),
    {
        proof {
            reveal_strlit("name");
            reveal_strlit("type");
            reveal_strlit("state");
            reveal_strlit("mac-address");
            reveal_strlit("mtu");
            reveal_strlit("max-mtu");
            reveal_strlit("ipv4");
            reveal_strlit("ipv6");
            assert("name"@.len() == 4 && "type"@.len() == 4 && "state"@.len() == 5);
            assert("mac-address"@.len() == 11 && "mtu"@.len() == 3 && "max-mtu"@.len() == 7);
            assert("ipv4"@.len() == 4 && "ipv6"@.len() == 4);
            assert("name"@[0] == 'n' && "type"@[0] == 't' && "ipv4"@[0] == 'i' && "ipv6"@[0]
                == 'i');
            assert("ipv4"@[3] == '4' && "ipv6"@[3] == '6');
        }
        let obj = empty_object();
        let obj = put_req::<String>(obj, "name", &self.name);
        let obj = put_req::<InterfaceType>(obj, "type", &self.iface_type);
        let obj = put_req::<InterfaceState>(obj, "state", &self.state);
        let obj = put_opt::<String>(obj, "mac-address", &self.mac_address);
        let obj = put_opt::<u64>(obj, "mtu", &self.mtu);
        let obj = put_opt::<u64>(obj, "max-mtu", &self.max_mtu);
        let obj = put_stack_enabled(obj, "ipv4", &self.ipv4_enabled);
        let obj = put_stack_enabled(obj, "ipv6", &self.ipv6_enabled);
        obj
    }
}

impl Encode for BaseInterface {
    open spec fn writable(x: BaseInterfaceView) -> bool {
        true
    }

    fn encode(&self) -> (r: serde_json::Value) {
        self.to_object()
    }
}

impl InterfaceView {
    /// The type tag of the common attributes is the kind of the interface.
    pub open spec fn tag_agrees(self) -> bool {
        self.base().iface_type == self.iface_type()
    }
}

/// An interface is read back as it was written where the type tag of its
/// common attributes is its kind: the tag is what a document says of the
/// kind.
impl Encode for Interface {
    open spec fn writable(x: InterfaceView) -> bool {
        x.tag_agrees()
    }

    fn encode(&self) -> (r: serde_json::Value) {
        proof {
            reveal_strlit("name");
            reveal_strlit("type");
            reveal_strlit("state");
            reveal_strlit("mac-address");
            reveal_strlit("mtu");
            reveal_strlit("max-mtu");
            reveal_strlit("ipv4");
            reveal_strlit("ipv6");
            reveal_strlit("ethernet");
            reveal_strlit("vlan");
            reveal_strlit("macsec");
            assert("name"@.len() == 4 && "type"@.len() == 4 && "state"@.len() == 5);
            assert("mac-address"@.len() == 11 && "mtu"@.len() == 3 && "max-mtu"@.len() == 7);
            assert("ipv4"@.len() == 4 && "ipv6"@.len() == 4);
            assert("ethernet"@.len() == 8 && "vlan"@.len() == 4 && "macsec"@.len() == 6);
            assert("name"@[0] == 'n' && "type"@[0] == 't' && "ipv4"@[0] == 'i' && "ipv6"@[0]
                == 'i' && "vlan"@[0] == 'v');
        }
        match self {
            Interface::Dummy(b) => b.to_object(),
            Interface::Unknown(b) => b.to_object(),
            Interface::Ethernet(e) => {
                let obj = e.base.to_object();
                assert(!base_interface_keys().contains("ethernet"@));
                put_opt::<EthernetConfig>(obj, "ethernet", &e.ethernet)
            },
            Interface::Vlan(v) => {
                let obj = v.base.to_object();
                assert(!base_interface_keys().contains("vlan"@));
                put_opt::<VlanConfig>(obj, "vlan", &v.vlan)
            },
            Interface::MacSec(m) => {
                let obj = m.base.to_object();
                assert(!base_interface_keys().contains("macsec"@));
                put_opt::<MacSecConfig>(obj, "macsec", &m.macsec)
            },
        }
    }
}

} // verus!
