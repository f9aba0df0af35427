//! Declarative network configuration of a host.
//!
//! A caller states the network that it wants: interfaces, routes, route
//! rules, the host name, the resolver, the virtual switch. The library merges
//! that desired state with the state that runs, entity by entity, into one
//! merged state that a backend can apply, or refuses it with an error.
//!
//! The library computes and nothing else. It reads no file and talks to no
//! daemon. Every function is verified against the contract that it states:
//! what the merge of two states is, is said in [`net_state::merged_network_state`],
//! and [`MergedNetworkState::new`] computes exactly that.
//!
//! A state is read from a JSON or YAML text and written to one. The parsers
//! are `serde_json`'s and `serde_yaml`'s; how a state is laid out in the
//! tree that they build is this library's, in [`decode`] and [`encode`].

pub mod decode;
pub mod dns;
pub mod document;
pub mod encode;
pub mod error;
pub mod hostname;
pub mod ifaces;
pub mod model;
pub mod net_state;
pub mod nm;
pub mod overlay;
pub mod ovn;
pub mod ovsdb;
pub mod route;
pub mod route_rule;
pub mod text;

pub use dns::DnsClientState;
pub use dns::DnsState;
pub use dns::MergedDnsState;
pub use error::ErrorKind;
pub use error::NmstateError;
pub use hostname::HostNameState;
pub use hostname::MergedHostNameState;
pub use ifaces::base::BaseInterface;
pub use ifaces::base::InterfaceState;
pub use ifaces::base::InterfaceType;
pub use ifaces::ethernet::EthernetConfig;
pub use ifaces::ethernet::EthernetInterface;
pub use ifaces::ethernet::SrIovConfig;
pub use ifaces::ethernet::SrIovVfConfig;
pub use ifaces::iface::Interface;
pub use ifaces::inter_ifaces::Interfaces;
pub use ifaces::macsec::MacSecConfig;
pub use ifaces::macsec::MacSecInterface;
pub use ifaces::merged::MergedInterface;
pub use ifaces::merged::MergedInterfaces;
pub use ifaces::vlan::VlanConfig;
pub use ifaces::vlan::VlanInterface;
pub use ifaces::vlan::VlanProtocol;
pub use ifaces::vlan::VlanRegistrationProtocol;
pub use net_state::MergedNetworkState;
pub use net_state::NetworkState;
pub use ovn::MergedOvnConfiguration;
pub use ovn::OvnBridgeMapping;
pub use ovn::OvnBridgeMappingState;
pub use ovn::OvnConfiguration;
pub use ovsdb::MergedOvsDbGlobalConfig;
pub use ovsdb::OvsDbEntry;
pub use ovsdb::OvsDbGlobalConfig;
pub use ovsdb::OvsDbMap;
pub use route::MergedRoutes;
pub use route::RouteEntry;
pub use route::RouteState;
pub use route::Routes;
pub use route_rule::MergedRouteRules;
pub use route_rule::RouteRuleEntry;
pub use route_rule::RouteRuleState;
pub use route_rule::RouteRules;
