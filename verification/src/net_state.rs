//! The network state of a host, and the merge of a desired state with the
//! current one.

use crate::dns::{merged_dns, servers_reachable, DnsState, DnsStateView, MergedDnsState,
    MergedDnsStateView};
use crate::decode::or_value;
use crate::document::{
    check_keys, empty_object, is_null_of, json_parse, json_text, members_of, only_keys,
    opt_field, opt_field_of, opt_list, opt_list_of, parse_json, parse_yaml, value_json_text,
    value_yaml_text, yaml_parse, yaml_text, Decode,
};
use crate::encode::{all_writable, put_list, put_opt, put_req, Encode};
use crate::error::{ErrorKind, NmstateError, NmstateErrorView};
use crate::hostname::{merged_hostname, HostNameState, HostNameStateView, MergedHostNameState};
use crate::ifaces::iface::{Interface, InterfaceView};
use crate::ifaces::inter_ifaces::Interfaces;
use crate::ifaces::macsec::hidden_secret;
use crate::ifaces::merged::{
    has_entry, is_ignored, lemma_ignored_interfaces_are_left_out, lemma_ignored_names,
    merged_interfaces, MergedInterfaces, MergedInterfacesView,
};
use crate::model::{list_or_empty, opt_view, or_empty, views};
use crate::overlay::{lemma_without_bound, without_bound};
use crate::ovn::{merged_ovn, MergedOvnConfiguration, OvnBridgeMappingView, OvnConfiguration,
    OvnConfigurationView};
use crate::ovsdb::{merged_ovsdb, MergedOvsDbGlobalConfig, MergedOvsDbGlobalConfigView,
    OvsDbGlobalConfig, OvsDbGlobalConfigView};
use crate::route::{merged_routes, MergedRoutes, RouteEntry, RouteEntryView, Routes, RoutesView};
use crate::route_rule::{merged_rules, MergedRouteRules, RouteRuleEntry, RouteRuleEntryView,
    RouteRules, RouteRulesView};
use std::collections::HashMap;
use vstd::prelude::*;
use vstd::string::StringExecFns;

verus! {

/// The mathematical value of a [`NetworkState`].
pub struct NetworkStateView {
    pub description: Seq<char>,
    pub hostname: Option<HostNameStateView>,
    pub dns: Option<DnsStateView>,
    pub rules: RouteRulesView,
    pub routes: RoutesView,
    pub interfaces: Seq<InterfaceView>,
    pub ovsdb: Option<OvsDbGlobalConfigView>,
    pub ovn: OvnConfigurationView,
    pub kernel_only: bool,
    pub skip_verify: bool,
    pub no_commit: bool,
    pub timeout: Option<u32>,
    pub include_secrets: bool,
    pub include_status_data: bool,
    pub running_config_only: bool,
    pub memory_only: bool,
}

impl NetworkStateView {
    /// The state that says nothing, with every session flag as it is at the
    /// start.
    pub open spec fn empty() -> NetworkStateView {
        NetworkStateView {
            description: Seq::empty(),
            hostname: None,
            dns: None,
            rules: RouteRulesView { config: None },
            routes: RoutesView { running: None, config: None },
            interfaces: Seq::empty(),
            ovsdb: None,
            ovn: OvnConfigurationView { bridge_mappings: None },
            kernel_only: false,
            skip_verify: false,
            no_commit: false,
            timeout: None,
            include_secrets: false,
            include_status_data: false,
            running_config_only: false,
            memory_only: false,
        }
    }

    /// Whether the state says nothing about the network. The description and
    /// the session flags do not count.
    pub open spec fn is_empty(self) -> bool {
        &&& self.hostname is None
        &&& self.dns is None
        &&& self.ovsdb is None
        &&& self.rules.is_empty()
        &&& self.routes.is_empty()
        &&& self.interfaces.len() == 0
        &&& self.ovn.is_none()
    }

    /// The state with every secret of every interface hidden.
    pub open spec fn hide_secrets(self) -> NetworkStateView {
        NetworkStateView {
            interfaces: self.interfaces.map_values(|x: InterfaceView| x.hide_secrets()),
            ..self
        }
    }
}

/// An error that tells of a capability that is not available: its class,
/// and the fixed message.
pub open spec fn is_dependency_error(e: NmstateErrorView, msg: Seq<char>) -> bool {
    e.kind == ErrorKind::DependencyError && e.msg == msg
}

/// The whole network state of a host: what the kernel does and what the
/// backends are configured with.
#[derive(Debug, PartialEq, Eq)]
pub struct NetworkState {
    /// A description of the desired state. No backend keeps it.
    pub description: String,
    pub hostname: Option<HostNameState>,
    pub dns: Option<DnsState>,
    pub rules: RouteRules,
    pub routes: Routes,
    pub interfaces: Interfaces,
    /// The global configuration of the virtual switch's database.
    pub ovsdb: Option<OvsDbGlobalConfig>,
    /// The virtual-network configuration.
    pub ovn: OvnConfiguration,
    kernel_only: bool,
    skip_verify: bool,
    no_commit: bool,
    timeout: Option<u32>,
    include_secrets: bool,
    include_status_data: bool,
    running_config_only: bool,
    memory_only: bool,
}

impl View for NetworkState {
    type V = NetworkStateView;

    closed spec fn view(&self) -> NetworkStateView {
        NetworkStateView {
            description: self.description@,
            hostname: opt_view(self.hostname),
            dns: opt_view(self.dns),
            rules: self.rules@,
            routes: self.routes@,
            interfaces: self.interfaces@,
            ovsdb: opt_view(self.ovsdb),
            ovn: self.ovn@,
            kernel_only: self.kernel_only,
            skip_verify: self.skip_verify,
            no_commit: self.no_commit,
            timeout: self.timeout,
            include_secrets: self.include_secrets,
            include_status_data: self.include_status_data,
            running_config_only: self.running_config_only,
            memory_only: self.memory_only,
        }
    }
}

impl Clone for NetworkState {
    fn clone(&self) -> (r: Self)
        ensures
            r@ == self@,
    {
        let hostname = match &self.hostname {
            Some(h) => Some(h.clone()),
            None => None,
        };
        let dns = match &self.dns {
            Some(d) => Some(d.clone()),
            None => None,
        };
        let ovsdb = match &self.ovsdb {
            Some(o) => Some(o.clone()),
            None => None,
        };
        NetworkState {
            description: self.description.clone(),
            hostname,
            dns,
            rules: self.rules.clone(),
            routes: self.routes.clone(),
            interfaces: self.interfaces.clone(),
            ovsdb,
            ovn: self.ovn.clone(),
            kernel_only: self.kernel_only,
            skip_verify: self.skip_verify,
            no_commit: self.no_commit,
            timeout: self.timeout,
            include_secrets: self.include_secrets,
            include_status_data: self.include_status_data,
            running_config_only: self.running_config_only,
            memory_only: self.memory_only,
        }
    }
}

impl Default for NetworkState {
    fn default() -> (s: Self)
        ensures
            s@ == NetworkStateView::empty(),
    {
        NetworkState::new()
    }
}

impl NetworkState {
    /// Whether the state says nothing about the network.
    pub fn is_empty(&self) -> (r: bool)
        ensures
            r == self@.is_empty(),
    {
        self.hostname.is_none() && self.dns.is_none() && self.ovsdb.is_none()
            && self.rules.is_empty() && self.routes.is_empty() && self.interfaces.is_empty()
            && self.ovn.is_none()
    }

    /// Whether only the kernel is acted on, without the network-management
    /// daemon. Off at the start.
    pub fn set_kernel_only(&mut self, value: bool) -> (r: &mut Self)
        ensures
            (*r)@ == (NetworkStateView { kernel_only: value, ..old(self)@ }),
            *final(self) == *final(r),
    {
        self.kernel_only = value;
        self
    }

    pub fn kernel_only(&self) -> (r: bool)
        ensures
            r == self@.kernel_only,
    {
        self.kernel_only
    }

    /// Whether the outcome is compared with the desired state after it was
    /// applied. On at the start.
    pub fn set_verify_change(&mut self, value: bool) -> (r: &mut Self)
        ensures
            (*r)@ == (NetworkStateView { skip_verify: !value, ..old(self)@ }),
            *final(self) == *final(r),
    {
        self.skip_verify = !value;
        self
    }

    /// Whether the outcome is compared with the desired state after it was
    /// applied.
    pub fn verify_change(&self) -> (r: bool)
        ensures
            r == !self@.skip_verify,
    {
        !self.skip_verify
    }

    /// Whether the configuration is made to last. On at the start. When off,
    /// it is rolled back after the timeout.
    pub fn set_commit(&mut self, value: bool) -> (r: &mut Self)
        ensures
            (*r)@ == (NetworkStateView { no_commit: !value, ..old(self)@ }),
            *final(self) == *final(r),
    {
        self.no_commit = !value;
        self
    }

    /// Whether the configuration is made to last.
    pub fn commit(&self) -> (r: bool)
        ensures
            r == !self@.no_commit,
    {
        !self.no_commit
    }

    /// The time in seconds after which a configuration that is not made to
    /// last is rolled back.
    pub fn set_timeout(&mut self, value: u32) -> (r: &mut Self)
        ensures
            (*r)@ == (NetworkStateView { timeout: Some(value), ..old(self)@ }),
            *final(self) == *final(r),
    {
        self.timeout = Some(value);
        self
    }

    /// The rollback timeout, where one was set.
    pub fn timeout(&self) -> (r: Option<u32>)
        ensures
            r == self@.timeout,
    {
        self.timeout
    }

    /// Whether a query returns secrets. Off at the start.
    pub fn set_include_secrets(&mut self, value: bool) -> (r: &mut Self)
        ensures
            (*r)@ == (NetworkStateView { include_secrets: value, ..old(self)@ }),
            *final(self) == *final(r),
    {
        self.include_secrets = value;
        self
    }

    pub fn include_secrets(&self) -> (r: bool)
        ensures
            r == self@.include_secrets,
    {
        self.include_secrets
    }

    /// Of no effect; kept for callers that still set it.
    pub fn set_include_status_data(&mut self, value: bool) -> (r: &mut Self)
        ensures
            (*r)@ == (NetworkStateView { include_status_data: value, ..old(self)@ }),
            *final(self) == *final(r),
    {
        self.include_status_data = value;
        self
    }

    pub fn include_status_data(&self) -> (r: bool)
        ensures
            r == self@.include_status_data,
    {
        self.include_status_data
    }

    /// Whether a query returns the running configuration only, without what
    /// the host learned by itself.
    pub fn set_running_config_only(&mut self, value: bool) -> (r: &mut Self)
        ensures
            (*r)@ == (NetworkStateView { running_config_only: value, ..old(self)@ }),
            *final(self) == *final(r),
    {
        self.running_config_only = value;
        self
    }

    pub fn running_config_only(&self) -> (r: bool)
        ensures
            r == self@.running_config_only,
    {
        self.running_config_only
    }

    /// Whether the applied state is kept in memory only, to be gone after a
    /// reboot.
    pub fn set_memory_only(&mut self, value: bool) -> (r: &mut Self)
        ensures
            (*r)@ == (NetworkStateView { memory_only: value, ..old(self)@ }),
            *final(self) == *final(r),
    {
        self.memory_only = value;
        self
    }

    pub fn memory_only(&self) -> (r: bool)
        ensures
            r == self@.memory_only,
    {
        self.memory_only
    }

    /// Sets the description of the state; nothing else changes.
    pub fn set_description(&mut self, value: String) -> (r: &mut Self)
        ensures
            (*r)@ == (NetworkStateView { description: value@, ..old(self)@ }),
            *final(self) == *final(r),
    {
        self.description = value;
        self
    }

    /// The description of the state.
    pub fn description(&self) -> (r: &String)
        ensures
            r@ == self@.description,
    {
        &self.description
    }

    /// Sets the host name; nothing else changes.
    pub fn set_hostname(&mut self, value: Option<HostNameState>) -> (r: &mut Self)
        ensures
            (*r)@ == (NetworkStateView { hostname: opt_view(value), ..old(self)@ }),
            *final(self) == *final(r),
    {
        self.hostname = value;
        self
    }

    /// The host name.
    pub fn hostname(&self) -> (r: &Option<HostNameState>)
        ensures
            opt_view(*r) == self@.hostname,
    {
        &self.hostname
    }

    /// Sets the resolver; nothing else changes.
    pub fn set_dns(&mut self, value: Option<DnsState>) -> (r: &mut Self)
        ensures
            (*r)@ == (NetworkStateView { dns: opt_view(value), ..old(self)@ }),
            *final(self) == *final(r),
    {
        self.dns = value;
        self
    }

    /// The resolver.
    pub fn dns(&self) -> (r: &Option<DnsState>)
        ensures
            opt_view(*r) == self@.dns,
    {
        &self.dns
    }

    /// Sets the route rules; nothing else changes.
    pub fn set_rules(&mut self, value: RouteRules) -> (r: &mut Self)
        ensures
            (*r)@ == (NetworkStateView { rules: value@, ..old(self)@ }),
            *final(self) == *final(r),
    {
        self.rules = value;
        self
    }

    /// The route rules.
    pub fn rules(&self) -> (r: &RouteRules)
        ensures
            r@ == self@.rules,
    {
        &self.rules
    }

    /// Sets the routes; nothing else changes.
    pub fn set_routes(&mut self, value: Routes) -> (r: &mut Self)
        ensures
            (*r)@ == (NetworkStateView { routes: value@, ..old(self)@ }),
            *final(self) == *final(r),
    {
        self.routes = value;
        self
    }

    /// The routes.
    pub fn routes(&self) -> (r: &Routes)
        ensures
            r@ == self@.routes,
    {
        &self.routes
    }

    /// Sets the interfaces; nothing else changes.
    pub fn set_interfaces(&mut self, value: Interfaces) -> (r: &mut Self)
        ensures
            (*r)@ == (NetworkStateView { interfaces: value@, ..old(self)@ }),
            *final(self) == *final(r),
    {
        self.interfaces = value;
        self
    }

    /// The interfaces.
    pub fn interfaces(&self) -> (r: &Interfaces)
        ensures
            r@ == self@.interfaces,
    {
        &self.interfaces
    }

    /// Sets the global configuration of the virtual switch's database; nothing else changes.
    pub fn set_ovsdb(&mut self, value: Option<OvsDbGlobalConfig>) -> (r: &mut Self)
        ensures
            (*r)@ == (NetworkStateView { ovsdb: opt_view(value), ..old(self)@ }),
            *final(self) == *final(r),
    {
        self.ovsdb = value;
        self
    }

    /// The global configuration of the virtual switch's database.
    pub fn ovsdb(&self) -> (r: &Option<OvsDbGlobalConfig>)
        ensures
            opt_view(*r) == self@.ovsdb,
    {
        &self.ovsdb
    }

    /// Sets the virtual-network configuration; nothing else changes.
    pub fn set_ovn(&mut self, value: OvnConfiguration) -> (r: &mut Self)
        ensures
            (*r)@ == (NetworkStateView { ovn: value@, ..old(self)@ }),
            *final(self) == *final(r),
    {
        self.ovn = value;
        self
    }

    /// The virtual-network configuration.
    pub fn ovn(&self) -> (r: &OvnConfiguration)
        ensures
            r@ == self@.ovn,
    {
        &self.ovn
    }

    /// The state that says nothing.
    pub fn new() -> (s: Self)
        ensures
            s@ == NetworkStateView::empty(),
            s@.is_empty(),
    {
        NetworkState {
            description: String::new(),
            hostname: None,
            dns: None,
            rules: RouteRules::new(),
            routes: Routes::new(),
            interfaces: Interfaces::new(),
            ovsdb: None,
            ovn: OvnConfiguration::new(),
            kernel_only: false,
            skip_verify: false,
            no_commit: false,
            timeout: None,
            include_secrets: false,
            include_status_data: false,
            running_config_only: false,
            memory_only: false,
        }
    }

    /// Appends an interface to the interfaces of the state, whatever its
    /// name.
    pub fn append_interface_data(&mut self, iface: Interface)
        ensures
            final(self)@ == (NetworkStateView {
                interfaces: old(self)@.interfaces.push(iface@),
                ..old(self)@
            }),
            !final(self)@.is_empty(),
    {
        self.interfaces.push(iface);
    }

    /// Always fails: no backend is linked that could be asked for the
    /// current state. The state is left as it was.
    pub fn retrieve(&mut self) -> (r: Result<&mut Self, NmstateError>)
        ensures
            r matches Err(e) && is_dependency_error(
                e@,
                "NetworkState::retrieve() need `query_apply` feature enabled"@,
            ),
            *final(self) == *old(self),
    {
        Err(
            NmstateError::new(
                ErrorKind::DependencyError,
                String::from_str("NetworkState::retrieve() need `query_apply` feature enabled"),
            ),
        )
    }

    /// Replaces every secret of every interface by the fixed text.
    pub fn hide_secrets(&mut self)
        ensures
            final(self)@ == old(self)@.hide_secrets(),
    {
        self.interfaces.hide_secrets();
    }

    /// Always fails: no backend is linked that could apply the state. The
    /// state is left as it was.
    pub fn apply(&mut self) -> (r: Result<(), NmstateError>)
        ensures
            r matches Err(e) && is_dependency_error(
                e@,
                "NetworkState::apply() need `query_apply` feature enabled"@,
            ),
            *final(self) == *old(self),
    {
        Err(
            NmstateError::new(
                ErrorKind::DependencyError,
                String::from_str("NetworkState::apply() need `query_apply` feature enabled"),
            ),
        )
    }

    /// Always fails: no backend is linked that could write the state out as
    /// configuration files.
    pub fn gen_conf(&self) -> (r: Result<HashMap<String, Vec<(String, String)>>, NmstateError>)
        ensures
            r matches Err(e) && is_dependency_error(
                e@,
                "NetworkState::gen_conf() need `genconf` feature enabled"@,
            ),
    {
        Err(
            NmstateError::new(
                ErrorKind::DependencyError,
                String::from_str("NetworkState::gen_conf() need `genconf` feature enabled"),
            ),
        )
    }

    /// Always fails: no backend is linked that holds checkpoints.
    pub fn checkpoint_rollback(_checkpoint: &str) -> (r: Result<(), NmstateError>)
        ensures
            r matches Err(e) && is_dependency_error(
                e@,
                "NetworkState::checkpoint_rollback() need `query_apply` feature enabled"@,
            ),
    {
        Err(
            NmstateError::new(
                ErrorKind::DependencyError,
                String::from_str(
                    "NetworkState::checkpoint_rollback() need `query_apply` feature enabled",
                ),
            ),
        )
    }

    /// Always fails: no backend is linked that holds checkpoints.
    pub fn checkpoint_commit(_checkpoint: &str) -> (r: Result<(), NmstateError>)
        ensures
            r matches Err(e) && is_dependency_error(
                e@,
                "NetworkState::checkpoint_commit() need `query_apply` feature enabled"@,
            ),
    {
        Err(
            NmstateError::new(
                ErrorKind::DependencyError,
                String::from_str(
                    "NetworkState::checkpoint_commit() need `query_apply` feature enabled",
                ),
            ),
        )
    }
}

/// The keys of a network state.
pub open spec fn network_state_keys() -> Seq<Seq<char>> {
    seq![
        "description"@,
        "hostname"@,
        "dns-resolver"@,
        "route-rules"@,
        "routes"@,
        "interfaces"@,
        "ovs-db"@,
        "ovn"@,
    ]
}

/// A network state is an object. A part that is not written is as in the
/// state that says nothing. The session flags are never written: a state that
/// is read has them as they are at the start.
impl Decode for NetworkState {
    open spec fn decoded(v: serde_json::Value) -> Option<NetworkStateView> {
        let description = opt_field_of::<String>(v, "description"@);
        let hostname = opt_field_of::<HostNameState>(v, "hostname"@);
        let dns = opt_field_of::<DnsState>(v, "dns-resolver"@);
        let rules = opt_field_of::<RouteRules>(v, "route-rules"@);
        let routes = opt_field_of::<Routes>(v, "routes"@);
        let interfaces = opt_list_of::<Interface>(v, "interfaces"@);
        let ovsdb = opt_field_of::<OvsDbGlobalConfig>(v, "ovs-db"@);
        let ovn = opt_field_of::<OvnConfiguration>(v, "ovn"@);
        if !only_keys(v, network_state_keys()) || description is None || hostname is None || dns
            is None || rules is None || routes is None || interfaces is None || ovsdb is None
            || ovn is None {
            None
        } else {
            Some(
                NetworkStateView {
                    description: or_value(description->0, Seq::empty()),
                    hostname: hostname->0,
                    dns: dns->0,
                    rules: or_value(rules->0, RouteRulesView { config: None }),
                    routes: or_value(routes->0, RoutesView { running: None, config: None }),
                    interfaces: or_empty(interfaces->0),
                    ovsdb: ovsdb->0,
                    ovn: or_value(ovn->0, OvnConfigurationView { bridge_mappings: None }),
                    ..NetworkStateView::empty()
                },
            )
        }
    }

    fn decode(v: &serde_json::Value) -> (r: Result<Self, NmstateError>) {
        let known = vec![
            "description",
            "hostname",
            "dns-resolver",
            "route-rules",
            "routes",
            "interfaces",
            "ovs-db",
            "ovn",
        ];
        assert(views(known@) =~= network_state_keys());
        check_keys(v, &known)?;
        let description = match opt_field::<String>(v, "description")? {
            Some(d) => d,
            None => String::new(),
        };
        let hostname = opt_field::<HostNameState>(v, "hostname")?;
        let dns = opt_field::<DnsState>(v, "dns-resolver")?;
        let rules = match opt_field::<RouteRules>(v, "route-rules")? {
            Some(r) => r,
            None => RouteRules::new(),
        };
        let routes = match opt_field::<Routes>(v, "routes")? {
            Some(r) => r,
            None => Routes::new(),
        };
        let interfaces = Interfaces::from_vec(list_or_empty(opt_list::<Interface>(v, "interfaces")?));
        let ovsdb = opt_field::<OvsDbGlobalConfig>(v, "ovs-db")?;
        let ovn = match opt_field::<OvnConfiguration>(v, "ovn")? {
            Some(o) => o,
            None => OvnConfiguration::new(),
        };
        let mut state = NetworkState::new();
        state.description = description;
        state.hostname = hostname;
        state.dns = dns;
        state.rules = rules;
        state.routes = routes;
        state.interfaces = interfaces;
        state.ovsdb = ovsdb;
        state.ovn = ovn;
        Ok(state)
    }
}

/// The state that a JSON text stands for, if it stands for one.
pub open spec fn state_of_json(text: Seq<char>) -> Option<NetworkStateView> {
    match json_parse(text) {
        Ok(v) => NetworkState::decoded(v),
        Err(_) => None,
    }
}

/// The state that a YAML text stands for, if it stands for one.
pub open spec fn state_of_yaml(text: Seq<char>) -> Option<NetworkStateView> {
    match yaml_parse(text) {
        Ok(v) => NetworkState::decoded(v),
        Err(_) => None,
    }
}

/// What the message of a refused JSON text begins with.
pub open spec fn invalid_json_prefix() -> Seq<char> {
    "Invalid JSON string: "@
}

/// What the message of a refused YAML text begins with.
pub open spec fn invalid_yaml_prefix() -> Seq<char> {
    "Invalid YAML string: "@
}

impl NetworkState {
    /// Reads a state from a JSON text. A text that the parser refuses, or
    /// that stands for no state, gives an error of the class
    /// `InvalidArgument`, with the parser's message where the parser refused.
    pub fn new_from_json(net_state_json: &str) -> (r: Result<Self, NmstateError>)
        ensures
            match r {
                Ok(s) => state_of_json(net_state_json@) == Some(s@),
                Err(e) => state_of_json(net_state_json@) is None && e@.kind
                    == ErrorKind::InvalidArgument && invalid_json_prefix().is_prefix_of(e@.msg)
                    && (json_parse(net_state_json@) matches Err(m) ==> e@.msg
                    == invalid_json_prefix() + m),
            },
    {
        let detail = match parse_json(net_state_json) {
            Ok(v) => match NetworkState::decode(&v) {
                Ok(s) => {
                    return Ok(s);
                },
                Err(e) => String::from_str(e.msg()),
            },
            Err(m) => m,
        };
        let msg = String::from_str("Invalid JSON string: ").concat(detail.as_str());
        assert(msg@.subrange(0, invalid_json_prefix().len() as int) =~= invalid_json_prefix());
        Err(NmstateError::new(ErrorKind::InvalidArgument, msg))
    }

    /// Reads a state from a YAML text. A text that the parser refuses, or
    /// that stands for no state, gives an error of the class
    /// `InvalidArgument`, with the parser's message where the parser refused.
    pub fn new_from_yaml(net_state_yaml: &str) -> (r: Result<Self, NmstateError>)
        ensures
            match r {
                Ok(s) => state_of_yaml(net_state_yaml@) == Some(s@),
                Err(e) => state_of_yaml(net_state_yaml@) is None && e@.kind
                    == ErrorKind::InvalidArgument && invalid_yaml_prefix().is_prefix_of(e@.msg)
                    && (yaml_parse(net_state_yaml@) matches Err(m) ==> e@.msg
                    == invalid_yaml_prefix() + m),
            },
    {
        let detail = match parse_yaml(net_state_yaml) {
            Ok(v) => match NetworkState::decode(&v) {
                Ok(s) => {
                    return Ok(s);
                },
                Err(e) => String::from_str(e.msg()),
            },
            Err(m) => m,
        };
        let msg = String::from_str("Invalid YAML string: ").concat(detail.as_str());
        assert(msg@.subrange(0, invalid_yaml_prefix().len() as int) =~= invalid_yaml_prefix());
        Err(NmstateError::new(ErrorKind::InvalidArgument, msg))
    }
}

impl NetworkStateView {
    /// What a document keeps of the state: all of it but the session flags,
    /// which are as they are at the start.
    pub open spec fn persistent(self) -> NetworkStateView {
        NetworkStateView {
            description: self.description,
            hostname: self.hostname,
            dns: self.dns,
            rules: self.rules,
            routes: self.routes,
            interfaces: self.interfaces,
            ovsdb: self.ovsdb,
            ovn: self.ovn,
            ..NetworkStateView::empty()
        }
    }

    /// Whether the state, written and read back, is the same state but for
    /// the session flags: the type tag of each interface is its kind. The
    /// tag is what a document says of the kind, so an interface whose tag
    /// names another kind is read back as an interface of that kind.
    pub open spec fn writable(self) -> bool {
        all_writable::<Interface>(self.interfaces)
    }
}

impl NetworkState {
    /// The document tree of the state. The session flags are not written,
    /// nor a part that says nothing. Read back, the tree gives the state
    /// again, with the session flags as they are at the start.
    pub fn to_document(&self) -> (r: serde_json::Value)
        ensures
            !is_null_of(r),
            members_of(r) is Some,
            self@.writable() ==> NetworkState::decoded(r) == Some(self@.persistent()),
    {
        proof {
            reveal_strlit("description");
            reveal_strlit("hostname");
            reveal_strlit("dns-resolver");
            reveal_strlit("route-rules");
            reveal_strlit("routes");
            reveal_strlit("interfaces");
            reveal_strlit("ovs-db");
            reveal_strlit("ovn");
            assert("description"@.len() == 11 && "hostname"@.len() == 8);
            assert("dns-resolver"@.len() == 12 && "route-rules"@.len() == 11);
            assert("routes"@.len() == 6 && "interfaces"@.len() == 10);
            assert("ovs-db"@.len() == 6 && "ovn"@.len() == 3);
            assert("description"@[0] == 'd' && "route-rules"@[0] == 'r');
            assert("routes"@[0] == 'r' && "ovs-db"@[0] == 'o');
        }
        let obj = empty_object();
        let obj = if self.description.as_str().is_empty() {
            assert(self.description@ =~= Seq::<char>::empty());
            obj
        } else {
            put_req::<String>(obj, "description", &self.description)
        };
        let obj = put_opt::<HostNameState>(obj, "hostname", &self.hostname);
        let obj = put_opt::<DnsState>(obj, "dns-resolver", &self.dns);
        let obj = if self.rules.is_empty() {
            obj
        } else {
            put_req::<RouteRules>(obj, "route-rules", &self.rules)
        };
        let obj = if self.routes.is_empty() {
            obj
        } else {
            put_req::<Routes>(obj, "routes", &self.routes)
        };
        let obj = put_list::<Interface>(obj, "interfaces", self.interfaces.as_vec());
        let obj = put_opt::<OvsDbGlobalConfig>(obj, "ovs-db", &self.ovsdb);
        let obj = if self.ovn.is_none() {
            obj
        } else {
            put_req::<OvnConfiguration>(obj, "ovn", &self.ovn)
        };
        obj
    }

    /// The state as a JSON text: the text of a tree that, read back, gives
    /// the state again with the session flags as they are at the start. The
    /// call fails only where the serializer refuses that tree, and then
    /// with the serializer's message.
    pub fn to_json(&self) -> (r: Result<String, NmstateError>)
        ensures
            exists|v: serde_json::Value|
                #![trigger json_text(v)]
                (self@.writable() ==> NetworkState::decoded(v) == Some(self@.persistent()))
                    && match r {
                    Ok(t) => json_text(v) == Ok::<Seq<char>, Seq<char>>(t@),
                    Err(e) => json_text(v) == Err::<Seq<char>, Seq<char>>(e@.msg) && e@.kind
                        == ErrorKind::InvalidArgument,
                },
    {
        let v = self.to_document();
        match value_json_text(&v) {
            Ok(t) => Ok(t),
            Err(m) => Err(NmstateError::new(ErrorKind::InvalidArgument, m)),
        }
    }

    /// The state as a YAML text: the text of a tree that, read back, gives
    /// the state again with the session flags as they are at the start. The
    /// call fails only where the serializer refuses that tree, and then
    /// with the serializer's message.
    pub fn to_yaml(&self) -> (r: Result<String, NmstateError>)
        ensures
            exists|v: serde_json::Value|
                #![trigger yaml_text(v)]
                (self@.writable() ==> NetworkState::decoded(v) == Some(self@.persistent()))
                    && match r {
                    Ok(t) => yaml_text(v) == Ok::<Seq<char>, Seq<char>>(t@),
                    Err(e) => yaml_text(v) == Err::<Seq<char>, Seq<char>>(e@.msg) && e@.kind
                        == ErrorKind::InvalidArgument,
                },
    {
        let v = self.to_document();
        match value_yaml_text(&v) {
            Ok(t) => Ok(t),
            Err(m) => Err(NmstateError::new(ErrorKind::InvalidArgument, m)),
        }
    }
}

/// A state that a document stands for can be written and read back: the
/// type tag of each of its interfaces is its kind.
pub proof fn lemma_decoded_is_writable(v: serde_json::Value)
    requires
        NetworkState::decoded(v) is Some,
    ensures
        NetworkState::decoded(v)->0.writable(),
        NetworkState::decoded(v)->0.persistent() == NetworkState::decoded(v)->0,
{
    let s = NetworkState::decoded(v)->0;
    assert forall|i: int| 0 <= i < s.interfaces.len() implies Interface::writable(
        #[trigger] s.interfaces[i],
    ) by {
        let m = crate::document::member_of(v, "interfaces"@)->0;
        let items = crate::document::items_of(m)->0;
        assert(s.interfaces[i] == Interface::decoded(items[i])->0);
        assert(Interface::decoded(items[i]) is Some);
    }
}

/// A document with a key at its top that is not a key of a network state
/// stands for no state.
pub proof fn lemma_unknown_key_is_refused(v: serde_json::Value, key: Seq<char>)
    requires
        members_of(v) matches Some(ms) && ms.contains_key(key),
        !network_state_keys().contains(key),
    ensures
        NetworkState::decoded(v) is None,
{
}

/// A JSON or YAML text whose tree has a key at its top that is not a key of
/// a network state stands for no state: reading it fails.
pub proof fn lemma_text_with_unknown_key_is_refused(text: Seq<char>, key: Seq<char>)
    requires
        !network_state_keys().contains(key),
    ensures
        json_parse(text) matches Ok(v) && members_of(v) matches Some(ms) && ms.contains_key(key)
            ==> state_of_json(text) is None,
        yaml_parse(text) matches Ok(v) && members_of(v) matches Some(ms) && ms.contains_key(key)
            ==> state_of_yaml(text) is None,
{
}

/// A state that is read from a document has its session flags as they are
/// at the start, whatever the document holds.
pub proof fn lemma_decoded_flags_are_default(v: serde_json::Value)
    requires
        NetworkState::decoded(v) is Some,
    ensures
        ({
            let s = NetworkState::decoded(v)->0;
            let e = NetworkStateView::empty();
            &&& s.kernel_only == e.kernel_only
            &&& s.skip_verify == e.skip_verify
            &&& s.no_commit == e.no_commit
            &&& s.timeout == e.timeout
            &&& s.include_secrets == e.include_secrets
            &&& s.include_status_data == e.include_status_data
            &&& s.running_config_only == e.running_config_only
            &&& s.memory_only == e.memory_only
        }),
{
}

/// The mathematical value of a [`MergedNetworkState`].
pub struct MergedNetworkStateView {
    pub interfaces: MergedInterfacesView,
    pub hostname: Option<HostNameStateView>,
    pub dns: MergedDnsStateView,
    pub ovn: Seq<OvnBridgeMappingView>,
    pub ovsdb: MergedOvsDbGlobalConfigView,
    pub routes: Seq<RouteEntryView>,
    pub rules: Seq<RouteRuleEntryView>,
    pub memory_only: bool,
}

/// The database configuration of a state, the empty one where it has none.
pub open spec fn ovsdb_or_default(o: Option<OvsDbGlobalConfigView>) -> OvsDbGlobalConfigView {
    match o {
        Some(c) => c,
        None => OvsDbGlobalConfigView { external_ids: None, other_config: None },
    }
}

/// The resolver of a state, the empty one where it has none.
pub open spec fn dns_or_default(o: Option<DnsStateView>) -> DnsStateView {
    match o {
        Some(c) => c,
        None => DnsStateView { running: None, config: None },
    }
}

/// The merge of a desired state with the current one, or the class of the
/// error that refuses it.
///
/// The interfaces are merged first. The routes and the rules are merged
/// next, and those bound to an interface that was left out are taken away.
/// The virtual-network configuration is merged before the database
/// configuration, which holds its text. An entity that does not merge gives
/// `InvalidArgument`. Last, every link-local name server must state a merged
/// interface as its scope, else the whole is a `ValidationError`.
pub open spec fn merged_network_state(
    desired: NetworkStateView,
    current: NetworkStateView,
    gen_conf_mode: bool,
    memory_only: bool,
) -> Result<MergedNetworkStateView, ErrorKind> {
    match merged_interfaces(desired.interfaces, current.interfaces, gen_conf_mode, memory_only) {
        None => Err(ErrorKind::InvalidArgument),
        Some(interfaces) => {
            let routes = merged_routes(desired.routes, current.routes, interfaces);
            let rules = merged_rules(desired.rules, current.rules);
            let ovn = merged_ovn(desired.ovn, current.ovn);
            if routes is None || rules is None || ovn is None {
                Err(ErrorKind::InvalidArgument)
            } else {
                let ovsdb = merged_ovsdb(desired.ovsdb, ovsdb_or_default(current.ovsdb), ovn->0);
                let dns = merged_dns(desired.dns, dns_or_default(current.dns));
                if ovsdb is None || dns is None {
                    Err(ErrorKind::InvalidArgument)
                } else if !servers_reachable(dns->0.servers, interfaces.ifaces) {
                    Err(ErrorKind::ValidationError)
                } else {
                    Ok(
                        MergedNetworkStateView {
                            interfaces,
                            hostname: merged_hostname(desired.hostname, current.hostname),
                            dns: dns->0,
                            ovn: ovn->0,
                            ovsdb: ovsdb->0,
                            routes: without_bound::<RouteEntry>(
                                routes->0,
                                interfaces.ignored_ifaces,
                            ),
                            rules: without_bound::<RouteRuleEntry>(
                                rules->0,
                                interfaces.ignored_ifaces,
                            ),
                            memory_only,
                        },
                    )
                }
            }
        },
    }
}

/// The outcome of merging a desired state with the current one. It is built
/// whole or not at all, and nothing changes it afterwards.
#[derive(Debug, PartialEq, Eq)]
pub struct MergedNetworkState {
    interfaces: MergedInterfaces,
    hostname: MergedHostNameState,
    dns: MergedDnsState,
    ovn: MergedOvnConfiguration,
    ovsdb: MergedOvsDbGlobalConfig,
    routes: MergedRoutes,
    rules: MergedRouteRules,
    memory_only: bool,
}

impl View for MergedNetworkState {
    type V = MergedNetworkStateView;

    closed spec fn view(&self) -> MergedNetworkStateView {
        MergedNetworkStateView {
            interfaces: self.interfaces@,
            hostname: self.hostname@,
            dns: self.dns@,
            ovn: self.ovn@,
            ovsdb: self.ovsdb@,
            routes: self.routes@,
            rules: self.rules@,
            memory_only: self.memory_only,
        }
    }
}

impl MergedNetworkState {
    /// Merges the desired state with the current one.
    pub fn new(
        desired: NetworkState,
        current: NetworkState,
        gen_conf_mode: bool,
        memory_only: bool,
    ) -> (r: Result<Self, NmstateError>)
        ensures
            match r {
                Ok(m) => merged_network_state(desired@, current@, gen_conf_mode, memory_only)
                    == Ok::<MergedNetworkStateView, ErrorKind>(m@),
                Err(e) => merged_network_state(desired@, current@, gen_conf_mode, memory_only)
                    == Err::<MergedNetworkStateView, ErrorKind>(e@.kind),
            },
    {
        let interfaces = match MergedInterfaces::new(
            desired.interfaces,
            current.interfaces,
            gen_conf_mode,
            memory_only,
        ) {
            Ok(i) => i,
            Err(e) => {
                return Err(e);
            },
        };

        let mut routes = match MergedRoutes::new(desired.routes, current.routes, &interfaces) {
            Ok(r) => r,
            Err(e) => {
                return Err(e);
            },
        };
        routes.remove_routes_to_ignored_ifaces(interfaces.ignored_ifaces().as_slice());

        let mut rules = match MergedRouteRules::new(desired.rules, current.rules) {
            Ok(r) => r,
            Err(e) => {
                return Err(e);
            },
        };
        rules.remove_rules_to_ignored_ifaces(interfaces.ignored_ifaces().as_slice());

        let hostname = MergedHostNameState::new(desired.hostname, current.hostname);

        let ovn = match MergedOvnConfiguration::new(desired.ovn, current.ovn) {
            Ok(o) => o,
            Err(e) => {
                return Err(e);
            },
        };

        let current_ovsdb = match current.ovsdb {
            Some(c) => c,
            None => OvsDbGlobalConfig::default(),
        };
        let ovsdb = match MergedOvsDbGlobalConfig::new(desired.ovsdb, current_ovsdb, &ovn) {
            Ok(o) => o,
            Err(e) => {
                return Err(e);
            },
        };

        let current_dns = match current.dns {
            Some(c) => c,
            None => DnsState::default(),
        };
        let dns = match MergedDnsState::new(desired.dns, current_dns) {
            Ok(d) => d,
            Err(e) => {
                return Err(e);
            },
        };

        let ret = MergedNetworkState {
            interfaces,
            routes,
            rules,
            dns,
            ovn,
            ovsdb,
            hostname,
            memory_only,
        };
        match ret.validate_ipv6_link_local_address_dns_srv() {
            Ok(()) => {},
            Err(e) => {
                return Err(e);
            },
        }
        Ok(ret)
    }

    /// Looks for a link-local name server whose scope is not a merged
    /// interface.
    pub fn validate_ipv6_link_local_address_dns_srv(&self) -> (r: Result<(), NmstateError>)
        ensures
            match r {
                Ok(_) => servers_reachable(self@.dns.servers, self@.interfaces.ifaces),
                Err(e) => !servers_reachable(self@.dns.servers, self@.interfaces.ifaces)
                    && e@.kind == ErrorKind::ValidationError,
            },
    {
        self.dns.validate_link_local_servers(&self.interfaces)
    }

    pub fn interfaces(&self) -> (r: &MergedInterfaces)
        ensures
            r@ == self@.interfaces,
    {
        &self.interfaces
    }

    pub fn hostname(&self) -> (r: &MergedHostNameState)
        ensures
            r@ == self@.hostname,
    {
        &self.hostname
    }

    pub fn dns(&self) -> (r: &MergedDnsState)
        ensures
            r@ == self@.dns,
    {
        &self.dns
    }

    pub fn ovn(&self) -> (r: &MergedOvnConfiguration)
        ensures
            r@ == self@.ovn,
    {
        &self.ovn
    }

    pub fn ovsdb(&self) -> (r: &MergedOvsDbGlobalConfig)
        ensures
            r@ == self@.ovsdb,
    {
        &self.ovsdb
    }

    pub fn routes(&self) -> (r: &MergedRoutes)
        ensures
            r@ == self@.routes,
    {
        &self.routes
    }

    pub fn rules(&self) -> (r: &MergedRouteRules)
        ensures
            r@ == self@.rules,
    {
        &self.rules
    }

    pub fn memory_only(&self) -> (r: bool)
        ensures
            r == self@.memory_only,
    {
        self.memory_only
    }
}

/// A state is empty exactly if it is the state that says nothing, whatever
/// its description and its session flags.
pub proof fn lemma_empty_is_default(s: NetworkStateView)
    ensures
        s.is_empty() <==> s == (NetworkStateView {
            description: s.description,
            kernel_only: s.kernel_only,
            skip_verify: s.skip_verify,
            no_commit: s.no_commit,
            timeout: s.timeout,
            include_secrets: s.include_secrets,
            include_status_data: s.include_status_data,
            running_config_only: s.running_config_only,
            memory_only: s.memory_only,
            ..NetworkStateView::empty()
        }),
{
    if s.is_empty() {
        assert(s.interfaces =~= Seq::<InterfaceView>::empty());
    }
}

/// A state to which an interface was appended is not empty.
pub proof fn lemma_appended_is_not_empty(s: NetworkStateView, iface: InterfaceView)
    ensures
        !(NetworkStateView { interfaces: s.interfaces.push(iface), ..s }).is_empty(),
{
}

/// Hiding the secrets twice is hiding them once.
pub proof fn lemma_hide_secrets_is_idempotent(s: NetworkStateView)
    ensures
        s.hide_secrets().hide_secrets() == s.hide_secrets(),
{
    assert(s.hide_secrets().hide_secrets().interfaces =~= s.hide_secrets().interfaces);
}

/// Hiding the secrets leaves no pre-shared key but the fixed text, and
/// changes nothing else of an interface: neither its name nor its kind.
pub proof fn lemma_hide_secrets_keeps_identity(x: InterfaceView)
    ensures
        x.hide_secrets().name() == x.name(),
        x.hide_secrets().iface_type() == x.iface_type(),
        x.hide_secrets().base() == x.base(),
        x.hide_secrets().parent() == x.parent(),
        x.hide_secrets() matches InterfaceView::MacSec(m) ==> (m.macsec matches Some(c) ==> (
        c.mka_cak is Some ==> c.mka_cak == Some(hidden_secret()))),
{
}

/// An interface that is left out of the merge has no entry among the merged
/// interfaces, and no merged route or rule is bound to it, whether the route
/// or rule came from the desired or from the current state.
pub proof fn lemma_ignored_interface_is_stripped(
    desired: NetworkStateView,
    current: NetworkStateView,
    gen_conf_mode: bool,
    memory_only: bool,
    name: Seq<char>,
)
    requires
        merged_network_state(desired, current, gen_conf_mode, memory_only) is Ok,
        is_ignored(desired.interfaces, current.interfaces, name),
    ensures
        merged_network_state(desired, current, gen_conf_mode, memory_only) matches Ok(m) && {
            &&& m.interfaces.ignored_ifaces.contains(name)
            &&& !has_entry(m.interfaces.ifaces, name)
            &&& forall|k: int|
                0 <= k < m.routes.len() ==> (#[trigger] m.routes[k]).next_hop_iface != Some(name)
            &&& forall|k: int| 0 <= k < m.rules.len() ==> (#[trigger] m.rules[k]).iif != Some(name)
        },
{
    let d = desired.interfaces;
    let c = current.interfaces;
    let interfaces = merged_interfaces(d, c, gen_conf_mode, memory_only)->0;
    let ignored = interfaces.ignored_ifaces;
    lemma_ignored_names(d, c, name);
    lemma_ignored_interfaces_are_left_out(d, c, gen_conf_mode, memory_only, name);
    let routes = merged_routes(desired.routes, current.routes, interfaces)->0;
    let rules = merged_rules(desired.rules, current.rules)->0;
    assert forall|k: int| 0 <= k < without_bound::<RouteEntry>(routes, ignored).len() implies (
    #[trigger] without_bound::<RouteEntry>(routes, ignored)[k]).next_hop_iface != Some(name) by {
        lemma_without_bound::<RouteEntry>(routes, ignored, k);
    }
    assert forall|k: int| 0 <= k < without_bound::<RouteRuleEntry>(rules, ignored).len() implies (
    #[trigger] without_bound::<RouteRuleEntry>(rules, ignored)[k]).iif != Some(name) by {
        lemma_without_bound::<RouteRuleEntry>(rules, ignored, k);
    }
}

/// The merged state carries the memory-only flag that the merge was given.
pub proof fn lemma_merge_carries_memory_only(
    desired: NetworkStateView,
    current: NetworkStateView,
    gen_conf_mode: bool,
    memory_only: bool,
)
    requires
        merged_network_state(desired, current, gen_conf_mode, memory_only) is Ok,
    ensures
        merged_network_state(desired, current, gen_conf_mode, memory_only) matches Ok(m)
            && m.memory_only == memory_only && m.interfaces.memory_only == memory_only,
{
}

} // verus!
