use nmstate::dns::{DnsClientState, DnsState};
use nmstate::hostname::HostNameState;
use nmstate::ifaces::iface::Interface;
use nmstate::ifaces::inter_ifaces::Interfaces;
use nmstate::ifaces::macsec::{MacSecConfig, MacSecInterface};
use nmstate::ifaces::merged::{MergedInterface, MergedInterfaces};
use nmstate::net_state::{MergedNetworkState, NetworkState};
use nmstate::ovn::{MergedOvnConfiguration, OvnBridgeMapping, OvnBridgeMappingState, OvnConfiguration};
use nmstate::ovsdb::{OvsDbEntry, OvsDbGlobalConfig, OvsDbMap};
use nmstate::route::{RouteEntry, RouteState};
use nmstate::route_rule::{RouteRuleEntry, RouteRuleState};
use nmstate::text::{text_order, TextOrder};
use nmstate::{
    BaseInterface, ErrorKind, EthernetInterface, InterfaceState, InterfaceType, VlanConfig,
    VlanInterface,
};

fn base(name: &str, iface_type: InterfaceType, state: InterfaceState) -> BaseInterface {
    BaseInterface {
        name: name.to_string(),
        iface_type,
        state,
        mac_address: None,
        mtu: None,
        max_mtu: None,
        ipv4_enabled: None,
        ipv6_enabled: None,
    }
}

fn eth(name: &str) -> Interface {
    Interface::Ethernet(EthernetInterface {
        base: base(name, InterfaceType::Ethernet, InterfaceState::Up),
        ethernet: None,
    })
}

fn eth_in(name: &str, state: InterfaceState) -> Interface {
    Interface::Ethernet(EthernetInterface {
        base: base(name, InterfaceType::Ethernet, state),
        ethernet: None,
    })
}

fn dummy(name: &str) -> Interface {
    Interface::Dummy(base(name, InterfaceType::Dummy, InterfaceState::Up))
}

fn unknown(name: &str) -> Interface {
    Interface::Unknown(base(name, InterfaceType::Unknown, InterfaceState::Up))
}

fn vlan_on(name: &str, parent: &str, state: InterfaceState) -> Interface {
    Interface::Vlan(VlanInterface {
        base: base(name, InterfaceType::Vlan, state),
        vlan: Some(VlanConfig {
            base_iface: parent.to_string(),
            id: 101,
            protocol: None,
            registration_protocol: None,
            reorder_headers: None,
            loose_binding: None,
        }),
    })
}

fn state_of(ifaces: Vec<Interface>) -> NetworkState {
    let mut s = NetworkState::new();
    for i in ifaces {
        s.append_interface_data(i);
    }
    s
}

fn route(dest: &str, iface: Option<&str>, metric: Option<i64>) -> RouteEntry {
    RouteEntry {
        state: None,
        destination: Some(dest.to_string()),
        next_hop_iface: iface.map(|s| s.to_string()),
        next_hop_addr: None,
        metric,
        table_id: None,
    }
}

fn rule(from: Option<&str>, iif: Option<&str>, priority: i64) -> RouteRuleEntry {
    RouteRuleEntry {
        state: None,
        ip_from: from.map(|s| s.to_string()),
        ip_to: None,
        priority: Some(priority),
        table_id: Some(200),
        iif: iif.map(|s| s.to_string()),
    }
}

fn mapping(localnet: &str, bridge: Option<&str>, state: Option<OvnBridgeMappingState>) -> OvnBridgeMapping {
    OvnBridgeMapping {
        localnet: localnet.to_string(),
        state,
        bridge: bridge.map(|s| s.to_string()),
    }
}

fn entry(key: &str, value: Option<&str>) -> OvsDbEntry {
    OvsDbEntry { key: key.to_string(), value: value.map(|s| s.to_string()) }
}

fn map(entries: &[(&str, Option<&str>)]) -> OvsDbMap {
    let mut m = OvsDbMap::new();
    for (k, v) in entries {
        m.insert(k.to_string(), v.map(|s| s.to_string()));
    }
    m
}

fn servers(list: &[&str]) -> DnsState {
    DnsState {
        running: None,
        config: Some(DnsClientState {
            server: Some(list.iter().map(|s| s.to_string()).collect()),
            search: None,
        }),
    }
}

fn merge(desired: NetworkState, current: NetworkState) -> Result<MergedNetworkState, nmstate::NmstateError> {
    MergedNetworkState::new(desired, current, false, false)
}

fn names(m: &MergedInterfaces) -> Vec<String> {
    m.ifaces().iter().map(|i| i.name().unwrap().clone()).collect()
}

#[test]
fn disjoint_names_merge_to_the_union() {
    let desired = Interfaces::from_vec(vec![eth("eth1"), dummy("dummy0")]);
    let current = Interfaces::from_vec(vec![eth("eth0"), eth("eth2")]);
    let m = MergedInterfaces::new(desired, current, false, false).unwrap();
    assert_eq!(names(&m), vec!["eth1", "dummy0", "eth0", "eth2"]);
    assert_eq!(
        m.ifaces()[0],
        MergedInterface { current: None, for_apply: Some(eth("eth1")) }
    );
    assert_eq!(
        m.ifaces()[1],
        MergedInterface { current: None, for_apply: Some(dummy("dummy0")) }
    );
    assert_eq!(
        m.ifaces()[2],
        MergedInterface { current: Some(eth("eth0")), for_apply: None }
    );
    assert_eq!(
        m.ifaces()[3],
        MergedInterface { current: Some(eth("eth2")), for_apply: None }
    );
    assert!(m.ignored_ifaces().is_empty());
}

#[test]
fn merging_two_empty_states_gives_an_empty_merge() {
    let m = merge(NetworkState::new(), NetworkState::new()).unwrap();
    assert!(m.interfaces().ifaces().is_empty());
    assert!(m.interfaces().ignored_ifaces().is_empty());
    assert!(m.routes().routes().is_empty());
    assert!(m.rules().rules().is_empty());
    assert_eq!(m.hostname().hostname(), &None);
    assert!(m.dns().servers().is_empty());
    assert!(m.dns().searches().is_empty());
    assert!(m.ovn().bridge_mappings().is_empty());
    assert!(m.ovsdb().external_ids().entries().is_empty());
    assert!(m.ovsdb().other_config().entries().is_empty());
    assert!(!m.memory_only());
}

#[test]
fn the_memory_only_flag_is_carried_into_the_merge() {
    let m = MergedNetworkState::new(NetworkState::new(), NetworkState::new(), true, true).unwrap();
    assert!(m.memory_only());
    assert!(m.interfaces().memory_only());
    assert!(m.interfaces().gen_conf_mode());
}

#[test]
fn same_names_are_paired() {
    let mut wanted = EthernetInterface::new();
    wanted.base.name = "eth1".to_string();
    wanted.base.mtu = Some(9000);
    let m = MergedInterfaces::new(
        Interfaces::from_vec(vec![Interface::Ethernet(wanted.clone())]),
        Interfaces::from_vec(vec![eth("eth0"), eth("eth1")]),
        false,
        false,
    )
    .unwrap();
    assert_eq!(names(&m), vec!["eth1", "eth0"]);
    assert_eq!(
        m.ifaces()[0],
        MergedInterface {
            current: Some(eth("eth1")),
            for_apply: Some(Interface::Ethernet(wanted)),
        }
    );
    assert!(m.has_iface(&"eth0".to_string()));
    assert!(!m.has_iface(&"eth9".to_string()));
}

#[test]
fn a_name_that_occurs_twice_is_refused() {
    let e = MergedInterfaces::new(
        Interfaces::from_vec(vec![eth("eth1"), dummy("eth1")]),
        Interfaces::new(),
        false,
        false,
    )
    .unwrap_err();
    assert_eq!(e.kind(), ErrorKind::InvalidArgument);
    let e = MergedInterfaces::new(
        Interfaces::new(),
        Interfaces::from_vec(vec![eth("eth1"), eth("eth0"), eth("eth1")]),
        false,
        false,
    )
    .unwrap_err();
    assert_eq!(e.kind(), ErrorKind::InvalidArgument);
}

#[test]
fn a_change_of_kind_is_refused() {
    let e = MergedInterfaces::new(
        Interfaces::from_vec(vec![dummy("eth1")]),
        Interfaces::from_vec(vec![eth("eth1")]),
        false,
        false,
    )
    .unwrap_err();
    assert_eq!(e.kind(), ErrorKind::InvalidArgument);
}

#[test]
fn an_unknown_kind_is_settled_by_the_current_interface() {
    let m = MergedInterfaces::new(
        Interfaces::from_vec(vec![unknown("eth1")]),
        Interfaces::from_vec(vec![eth("eth1")]),
        false,
        false,
    )
    .unwrap();
    assert_eq!(
        m.ifaces()[0],
        MergedInterface { current: Some(eth("eth1")), for_apply: Some(eth("eth1")) }
    );
}

#[test]
fn an_unknown_kind_without_current_interface_is_refused() {
    let e = MergedInterfaces::new(
        Interfaces::from_vec(vec![unknown("eth1")]),
        Interfaces::from_vec(vec![eth("eth0")]),
        false,
        false,
    )
    .unwrap_err();
    assert_eq!(e.kind(), ErrorKind::InvalidArgument);
}

#[test]
fn an_unknown_kind_counts_as_ethernet_when_generating_configuration() {
    let m = MergedInterfaces::new(
        Interfaces::from_vec(vec![unknown("eth1")]),
        Interfaces::new(),
        true,
        false,
    )
    .unwrap();
    assert_eq!(
        m.ifaces()[0],
        MergedInterface { current: None, for_apply: Some(eth("eth1")) }
    );
}

#[test]
fn merged_interface_pairs_or_refuses() {
    assert_eq!(
        MergedInterface::new(None, None).unwrap_err().kind(),
        ErrorKind::InvalidArgument
    );
    assert_eq!(
        MergedInterface::new(Some(eth("eth1")), Some(eth("eth2"))).unwrap_err().kind(),
        ErrorKind::InvalidArgument
    );
    let m = MergedInterface::new(None, Some(eth("eth1"))).unwrap();
    assert_eq!(m.name(), Some(&"eth1".to_string()));
    assert_eq!(m.for_apply, None);
    let m = MergedInterface::new(Some(unknown("v1")), Some(vlan_on("v1", "eth1", InterfaceState::Up)))
        .unwrap();
    match m.for_apply {
        Some(Interface::Vlan(v)) => {
            assert_eq!(v.base.name, "v1");
            assert_eq!(v.base.iface_type, InterfaceType::Vlan);
            assert_eq!(v.vlan, None);
        }
        _ => panic!("the interface to apply is a VLAN"),
    }
}

#[test]
fn an_interface_marked_ignore_in_desired_is_left_out() {
    let m = MergedInterfaces::new(
        Interfaces::from_vec(vec![eth_in("eth1", InterfaceState::Ignore), eth("eth2")]),
        Interfaces::from_vec(vec![eth("eth1"), eth("eth0")]),
        false,
        false,
    )
    .unwrap();
    assert_eq!(names(&m), vec!["eth2", "eth0"]);
    assert_eq!(m.ignored_ifaces(), &vec!["eth1".to_string()]);
}

#[test]
fn an_interface_marked_ignore_in_current_is_left_out_unless_desired_speaks_of_it() {
    let m = MergedInterfaces::new(
        Interfaces::from_vec(vec![eth("eth1")]),
        Interfaces::from_vec(vec![
            eth_in("eth1", InterfaceState::Ignore),
            eth_in("eth0", InterfaceState::Ignore),
            eth("eth2"),
        ]),
        false,
        false,
    )
    .unwrap();
    assert_eq!(names(&m), vec!["eth1", "eth2"]);
    assert_eq!(m.ignored_ifaces(), &vec!["eth0".to_string()]);
    assert_eq!(
        m.ifaces()[0].current,
        Some(eth_in("eth1", InterfaceState::Ignore))
    );
}

#[test]
fn ignored_names_come_in_order_desired_first() {
    let m = MergedInterfaces::new(
        Interfaces::from_vec(vec![
            eth_in("b", InterfaceState::Ignore),
            eth_in("a", InterfaceState::Ignore),
        ]),
        Interfaces::from_vec(vec![
            eth_in("z", InterfaceState::Ignore),
            eth_in("a", InterfaceState::Ignore),
            eth_in("c", InterfaceState::Ignore),
        ]),
        false,
        false,
    )
    .unwrap();
    assert_eq!(m.ignored_ifaces(), &vec!["b".to_string(), "a".to_string(), "z".to_string(), "c".to_string()]);
    assert!(m.ifaces().is_empty());
}

#[test]
fn a_vlan_needs_its_parent_among_the_merged_interfaces() {
    let e = MergedInterfaces::new(
        Interfaces::from_vec(vec![vlan_on("eth1.101", "eth1", InterfaceState::Up)]),
        Interfaces::from_vec(vec![eth("eth0")]),
        false,
        false,
    )
    .unwrap_err();
    assert_eq!(e.kind(), ErrorKind::InvalidArgument);

    // The parent may come from the current state or from the desired state.
    for (desired, current) in [
        (vec![vlan_on("eth1.101", "eth1", InterfaceState::Up)], vec![eth("eth1")]),
        (vec![vlan_on("eth1.101", "eth1", InterfaceState::Up), eth("eth1")], vec![]),
    ] {
        let m = MergedInterfaces::new(
            Interfaces::from_vec(desired),
            Interfaces::from_vec(current),
            false,
            false,
        )
        .unwrap();
        assert!(m.has_iface(&"eth1.101".to_string()));
    }
}

#[test]
fn an_ignored_parent_does_not_resolve() {
    let e = MergedInterfaces::new(
        Interfaces::from_vec(vec![vlan_on("eth1.101", "eth1", InterfaceState::Up)]),
        Interfaces::from_vec(vec![eth_in("eth1", InterfaceState::Ignore)]),
        false,
        false,
    )
    .unwrap_err();
    assert_eq!(e.kind(), ErrorKind::InvalidArgument);
}

#[test]
fn a_macsec_interface_needs_its_parent_too() {
    let mut m = MacSecInterface::new();
    m.base.name = "macsec0".to_string();
    m.macsec = Some(MacSecConfig {
        base_iface: "eth7".to_string(),
        encrypt: true,
        mka_cak: None,
        mka_ckn: None,
        port: 0,
    });
    let e = MergedInterfaces::new(
        Interfaces::from_vec(vec![Interface::MacSec(m)]),
        Interfaces::new(),
        false,
        false,
    )
    .unwrap_err();
    assert_eq!(e.kind(), ErrorKind::InvalidArgument);
}

#[test]
fn a_missing_parent_is_refused_in_every_mode_and_state() {
    for state in [InterfaceState::Up, InterfaceState::Down, InterfaceState::Absent] {
        for gen_conf_mode in [false, true] {
            let e = MergedInterfaces::new(
                Interfaces::from_vec(vec![vlan_on("eth1.101", "eth1", state)]),
                Interfaces::from_vec(vec![eth("eth0")]),
                gen_conf_mode,
                false,
            )
            .unwrap_err();
            assert_eq!(e.kind(), ErrorKind::InvalidArgument);
        }
    }
    let mut desired = state_of(vec![vlan_on("eth1.101", "eth1", InterfaceState::Up)]);
    desired.set_description("a VLAN without parent".to_string());
    let e = MergedNetworkState::new(desired, NetworkState::new(), true, false).unwrap_err();
    assert_eq!(e.kind(), ErrorKind::InvalidArgument);
}

#[test]
fn a_vlan_to_remove_merges_where_its_parent_has_an_entry() {
    let m = MergedInterfaces::new(
        Interfaces::from_vec(vec![vlan_on("eth1.101", "eth1", InterfaceState::Absent)]),
        Interfaces::from_vec(vec![eth("eth1")]),
        true,
        false,
    )
    .unwrap();
    assert_eq!(names(&m), vec!["eth1.101", "eth1"]);
}

#[test]
fn the_merge_applies_the_vlan_rule() {
    let mut current_off = VlanInterface::new();
    current_off.base.name = "eth1.102".to_string();
    current_off.vlan = Some(VlanConfig {
        base_iface: "eth1".to_string(),
        id: 101,
        protocol: None,
        registration_protocol: None,
        reorder_headers: Some(false),
        loose_binding: None,
    });
    let m = MergedInterfaces::new(
        Interfaces::from_vec(vec![
            vlan_on("eth1.101", "eth1", InterfaceState::Up),
            vlan_on("eth1.102", "eth1", InterfaceState::Up),
        ]),
        Interfaces::from_vec(vec![eth("eth1"), Interface::Vlan(current_off)]),
        false,
        false,
    )
    .unwrap();
    let reorder = |i: usize| match &m.ifaces()[i].for_apply {
        Some(Interface::Vlan(v)) => v.vlan.as_ref().unwrap().reorder_headers,
        _ => panic!("the interface to apply is a VLAN"),
    };
    assert_eq!(reorder(0), Some(true));
    assert_eq!(reorder(1), None);
}

#[test]
fn routes_and_rules_of_ignored_interfaces_are_stripped() {
    let mut desired = state_of(vec![eth_in("eth1", InterfaceState::Ignore), eth("eth2")]);
    desired.routes.config = Some(vec![
        route("198.51.100.0/24", Some("eth1"), None),
        route("203.0.113.0/24", Some("eth2"), None),
    ]);
    desired.rules.config = Some(vec![
        rule(Some("192.0.2.1/32"), Some("eth1"), 100),
        rule(Some("192.0.2.2/32"), Some("eth2"), 101),
    ]);
    let mut current = state_of(vec![eth("eth1"), eth("eth2"), eth_in("eth3", InterfaceState::Ignore)]);
    current.routes.config = Some(vec![
        route("192.0.2.0/24", Some("eth1"), Some(100)),
        route("192.0.2.0/24", Some("eth3"), Some(101)),
        route("192.0.2.0/24", Some("eth2"), Some(102)),
        route("0.0.0.0/0", None, None),
    ]);
    current.rules.config = Some(vec![
        rule(Some("192.0.2.3/32"), Some("eth3"), 102),
        rule(Some("192.0.2.4/32"), None, 103),
    ]);
    let m = merge(desired, current).unwrap();
    assert_eq!(
        m.interfaces().ignored_ifaces(),
        &vec!["eth1".to_string(), "eth3".to_string()]
    );
    assert_eq!(
        m.routes().routes(),
        &vec![
            route("192.0.2.0/24", Some("eth2"), Some(102)),
            route("0.0.0.0/0", None, None),
            route("203.0.113.0/24", Some("eth2"), None),
        ]
    );
    assert_eq!(
        m.rules().rules(),
        &vec![
            rule(Some("192.0.2.4/32"), None, 103),
            rule(Some("192.0.2.2/32"), Some("eth2"), 101),
        ]
    );
}

#[test]
fn an_absent_route_removes_the_routes_that_it_matches() {
    let mut desired = state_of(vec![]);
    let mut gone = RouteEntry::new();
    gone.state = Some(RouteState::Absent);
    gone.next_hop_iface = Some("eth1".to_string());
    desired.routes.config = Some(vec![gone]);
    let mut current = state_of(vec![eth("eth1"), eth("eth2")]);
    current.routes.config = Some(vec![
        route("192.0.2.0/24", Some("eth1"), Some(100)),
        route("198.51.100.0/24", Some("eth2"), Some(100)),
        route("203.0.113.0/24", Some("eth1"), None),
    ]);
    let m = merge(desired, current).unwrap();
    assert_eq!(
        m.routes().routes(),
        &vec![route("198.51.100.0/24", Some("eth2"), Some(100))]
    );
}

#[test]
fn an_absent_route_that_states_nothing_removes_every_route() {
    let mut desired = state_of(vec![]);
    let mut gone = RouteEntry::new();
    gone.state = Some(RouteState::Absent);
    desired.routes.config = Some(vec![gone]);
    let mut current = state_of(vec![eth("eth1")]);
    current.routes.config = Some(vec![route("192.0.2.0/24", Some("eth1"), Some(100))]);
    let m = merge(desired, current).unwrap();
    assert!(m.routes().routes().is_empty());
}

#[test]
fn a_route_stated_again_is_not_doubled() {
    let mut desired = state_of(vec![]);
    desired.routes.config = Some(vec![
        route("192.0.2.0/24", Some("eth1"), Some(100)),
        route("192.0.2.0/24", Some("eth1"), Some(200)),
    ]);
    let mut current = state_of(vec![eth("eth1")]);
    current.routes.config = Some(vec![
        route("192.0.2.0/24", Some("eth1"), Some(100)),
        route("198.51.100.0/24", Some("eth1"), None),
    ]);
    let m = merge(desired, current).unwrap();
    assert_eq!(
        m.routes().routes(),
        &vec![
            route("198.51.100.0/24", Some("eth1"), None),
            route("192.0.2.0/24", Some("eth1"), Some(100)),
            route("192.0.2.0/24", Some("eth1"), Some(200)),
        ]
    );
}

#[test]
fn running_routes_take_no_part_in_the_merge() {
    let mut desired = state_of(vec![eth("eth1")]);
    desired.routes.running = Some(vec![route("192.0.2.0/24", Some("eth1"), None)]);
    let mut current = state_of(vec![]);
    current.routes.running = Some(vec![route("198.51.100.0/24", Some("eth1"), None)]);
    let m = merge(desired, current).unwrap();
    assert!(m.routes().routes().is_empty());
}

#[test]
fn a_route_to_an_interface_that_is_not_known_is_refused() {
    let mut desired = state_of(vec![eth("eth1")]);
    desired.routes.config = Some(vec![route("192.0.2.0/24", Some("eth9"), None)]);
    let e = merge(desired, state_of(vec![eth("eth0")])).unwrap_err();
    assert_eq!(e.kind(), ErrorKind::InvalidArgument);
}

#[test]
fn a_route_rule_without_from_and_to_is_refused() {
    let mut desired = state_of(vec![]);
    desired.rules.config = Some(vec![rule(None, None, 100)]);
    let e = merge(desired, NetworkState::new()).unwrap_err();
    assert_eq!(e.kind(), ErrorKind::InvalidArgument);
}

#[test]
fn an_absent_rule_removes_the_rules_that_it_matches() {
    let mut desired = state_of(vec![]);
    let mut gone = RouteRuleEntry::new();
    gone.state = Some(RouteRuleState::Absent);
    gone.priority = Some(100);
    desired.rules.config = Some(vec![gone, rule(Some("192.0.2.9/32"), None, 300)]);
    let mut current = state_of(vec![]);
    current.rules.config = Some(vec![
        rule(Some("192.0.2.1/32"), None, 100),
        rule(Some("192.0.2.2/32"), None, 200),
        rule(Some("192.0.2.3/32"), None, 100),
    ]);
    let m = merge(desired, current).unwrap();
    assert_eq!(
        m.rules().rules(),
        &vec![
            rule(Some("192.0.2.2/32"), None, 200),
            rule(Some("192.0.2.9/32"), None, 300),
        ]
    );
}

#[test]
fn the_desired_hostname_overrides_field_by_field() {
    let host = |running: Option<&str>, config: Option<&str>| HostNameState {
        running: running.map(|s| s.to_string()),
        config: config.map(|s| s.to_string()),
    };
    let mut desired = NetworkState::new();
    desired.hostname = Some(host(None, Some("new.example.org")));
    let mut current = NetworkState::new();
    current.hostname = Some(host(Some("old.example.org"), Some("old.example.org")));
    let m = merge(desired, current).unwrap();
    assert_eq!(
        m.hostname().hostname(),
        &Some(host(Some("old.example.org"), Some("new.example.org")))
    );

    let mut current = NetworkState::new();
    current.hostname = Some(host(Some("old.example.org"), None));
    let m = merge(NetworkState::new(), current).unwrap();
    assert_eq!(m.hostname().hostname(), &Some(host(Some("old.example.org"), None)));

    let mut desired = NetworkState::new();
    desired.hostname = Some(host(Some("a"), None));
    let m = merge(desired, NetworkState::new()).unwrap();
    assert_eq!(m.hostname().hostname(), &Some(host(Some("a"), None)));
}

#[test]
fn ovn_mappings_are_laid_over_the_current_ones() {
    let desired = OvnConfiguration {
        bridge_mappings: Some(vec![
            mapping("net2", Some("br9"), None),
            mapping("net3", None, Some(OvnBridgeMappingState::Absent)),
            mapping("net4", Some("br4"), Some(OvnBridgeMappingState::Present)),
        ]),
    };
    let current = OvnConfiguration {
        bridge_mappings: Some(vec![
            mapping("net1", Some("br1"), None),
            mapping("net2", Some("br2"), None),
            mapping("net3", Some("br3"), None),
        ]),
    };
    let m = MergedOvnConfiguration::new(desired, current).unwrap();
    assert_eq!(
        m.bridge_mappings(),
        &vec![
            mapping("net1", Some("br1"), None),
            mapping("net2", Some("br9"), None),
            mapping("net4", Some("br4"), Some(OvnBridgeMappingState::Present)),
        ]
    );
    assert_eq!(
        m.to_ovsdb_external_id_value(),
        Some("net1:br1,net2:br9,net4:br4".to_string())
    );
}

#[test]
fn ovn_text_of_one_mapping_has_no_comma_and_none_gives_nothing() {
    let one = MergedOvnConfiguration::new(
        OvnConfiguration { bridge_mappings: Some(vec![mapping("net1", Some("br1"), None)]) },
        OvnConfiguration::new(),
    )
    .unwrap();
    assert_eq!(one.to_ovsdb_external_id_value(), Some("net1:br1".to_string()));
    let none = MergedOvnConfiguration::new(OvnConfiguration::new(), OvnConfiguration::new()).unwrap();
    assert_eq!(none.to_ovsdb_external_id_value(), None);
    assert!(OvnConfiguration::new().is_none());
    assert!(!OvnConfiguration { bridge_mappings: Some(vec![]) }.is_none());
}

#[test]
fn an_ovn_mapping_without_bridge_is_refused() {
    let mut desired = NetworkState::new();
    desired.ovn.bridge_mappings = Some(vec![mapping("net1", None, None)]);
    let e = merge(desired, NetworkState::new()).unwrap_err();
    assert_eq!(e.kind(), ErrorKind::InvalidArgument);
}

#[test]
fn the_ovsdb_merge_holds_the_text_of_the_ovn_mappings() {
    let mut desired = NetworkState::new();
    desired.ovn.bridge_mappings = Some(vec![mapping("net1", Some("br1"), None)]);
    desired.ovsdb = Some(OvsDbGlobalConfig {
        external_ids: Some(map(&[("rundir", None), ("hostname", Some("new"))])),
        other_config: Some(map(&[("stats-update-interval", Some("1000"))])),
    });
    let mut current = NetworkState::new();
    current.ovn.bridge_mappings = Some(vec![mapping("net0", Some("br0"), None)]);
    current.ovsdb = Some(OvsDbGlobalConfig {
        external_ids: Some(map(&[
            ("system-id", Some("176866c7")),
            ("hostname", Some("old")),
            ("ovn-bridge-mappings", Some("stale:br")),
            ("rundir", Some("/var/run/openvswitch")),
        ])),
        other_config: Some(map(&[("vlan-limit", Some("0"))])),
    });
    let m = merge(desired, current).unwrap();
    assert_eq!(
        m.ovsdb().external_ids().entries(),
        &vec![
            entry("hostname", Some("new")),
            entry("ovn-bridge-mappings", Some("net0:br0,net1:br1")),
            entry("system-id", Some("176866c7")),
        ]
    );
    assert_eq!(
        m.ovsdb().other_config().entries(),
        &vec![
            entry("stats-update-interval", Some("1000")),
            entry("vlan-limit", Some("0")),
        ]
    );
}

#[test]
fn the_ovsdb_merge_keeps_the_current_maps_where_nothing_is_desired() {
    let mut current = NetworkState::new();
    current.ovsdb = Some(OvsDbGlobalConfig {
        external_ids: Some(map(&[("hostname", Some("old")), ("ovn-bridge-mappings", Some("stale:br"))])),
        other_config: None,
    });
    let m = merge(NetworkState::new(), current).unwrap();
    assert_eq!(m.ovsdb().external_ids().entries(), &vec![entry("hostname", Some("old"))]);
    assert!(m.ovsdb().other_config().entries().is_empty());
}

#[test]
fn the_reserved_ovsdb_key_is_refused_in_the_desired_state() {
    for value in [Some("net1:br1"), None] {
        let mut desired = NetworkState::new();
        desired.ovsdb = Some(OvsDbGlobalConfig {
            external_ids: Some(map(&[("ovn-bridge-mappings", value)])),
            other_config: None,
        });
        let e = merge(desired, NetworkState::new()).unwrap_err();
        assert_eq!(e.kind(), ErrorKind::InvalidArgument);
    }
}

#[test]
fn desired_dns_overrides_current_per_list() {
    let mut desired = NetworkState::new();
    desired.dns = Some(servers(&["2001:db8:1::", "192.0.2.1"]));
    let mut current = NetworkState::new();
    current.dns = Some(DnsState {
        running: None,
        config: Some(DnsClientState {
            server: Some(vec!["192.0.2.53".to_string()]),
            search: Some(vec!["example.org".to_string()]),
        }),
    });
    let m = merge(desired, current).unwrap();
    assert_eq!(
        m.dns().servers(),
        &vec!["2001:db8:1::".to_string(), "192.0.2.1".to_string()]
    );
    assert_eq!(m.dns().searches(), &vec!["example.org".to_string()]);
}

#[test]
fn a_malformed_name_server_is_refused() {
    for bad in ["", "not an address", "192.0.2.1;", "%eth1", "fe80::1%", "dns.example.org"] {
        let mut desired = NetworkState::new();
        desired.dns = Some(servers(&[bad]));
        let e = merge(desired, NetworkState::new()).unwrap_err();
        assert_eq!(e.kind(), ErrorKind::InvalidArgument, "for {:?}", bad);
    }
}

#[test]
fn a_link_local_name_server_needs_a_known_scope() {
    for bad in ["fe80::1", "FE80::deef:1", "febf::1", "fe9a::1%eth9"] {
        let mut desired = state_of(vec![eth("eth1")]);
        desired.dns = Some(servers(&["192.0.2.1", bad]));
        let e = merge(desired, NetworkState::new()).unwrap_err();
        assert_eq!(e.kind(), ErrorKind::ValidationError, "for {:?}", bad);
    }
    for good in ["fe80::1%eth1", "fec0::1", "fe7f::1", "2001:db8::fe80:1", "fe80.1", "192.0.2.1%eth9"] {
        let mut desired = state_of(vec![eth("eth1")]);
        desired.dns = Some(servers(&[good]));
        let m = merge(desired, NetworkState::new()).unwrap();
        assert_eq!(m.dns().servers(), &vec![good.to_string()]);
    }
}

#[test]
fn a_link_local_name_server_of_the_current_state_is_validated_too() {
    let mut current = NetworkState::new();
    current.dns = Some(servers(&["fe80::1%eth1"]));
    let e = merge(NetworkState::new(), current).unwrap_err();
    assert_eq!(e.kind(), ErrorKind::ValidationError);

    let mut current = state_of(vec![eth_in("eth1", InterfaceState::Ignore)]);
    current.dns = Some(servers(&["fe80::1%eth1"]));
    let e = merge(NetworkState::new(), current).unwrap_err();
    assert_eq!(e.kind(), ErrorKind::ValidationError);
}

#[test]
fn a_failing_step_gives_no_merged_state() {
    // The interfaces merge, the routes merge, the resolver does not.
    let mut desired = state_of(vec![eth("eth1")]);
    desired.routes.config = Some(vec![route("192.0.2.0/24", Some("eth1"), None)]);
    desired.dns = Some(servers(&["bad server"]));
    assert!(merge(desired, NetworkState::new()).is_err());
}

#[test]
fn a_database_map_holds_its_keys_in_order_and_each_once() {
    let m = map(&[("b", Some("1")), ("a", Some("2")), ("c", None), ("a", Some("3")), ("", None)]);
    assert_eq!(
        m.entries(),
        &vec![entry("", None), entry("a", Some("3")), entry("b", Some("1")), entry("c", None)]
    );
    assert_eq!(m, map(&[("", None), ("c", None), ("b", Some("1")), ("a", Some("3"))]));
    assert_eq!(m.get("a"), Some(&Some("3".to_string())));
    assert_eq!(m.get("c"), Some(&None));
    assert_eq!(m.get("d"), None);
    assert!(m.contains_key("b"));
    assert!(!m.contains_key("B"));
    assert_eq!(m.clone(), m);
    assert_eq!(OvsDbMap::default(), OvsDbMap::new());
}

#[test]
fn a_database_map_orders_its_keys_by_code_point() {
    let m = map(&[("b", None), ("ab", None), ("a", None), ("B", None), ("zz", None), ("a-", None)]);
    let keys: Vec<&str> = m.entries().iter().map(|e| e.key.as_str()).collect();
    let mut sorted = keys.clone();
    sorted.sort();
    assert_eq!(keys, sorted);
    assert_eq!(keys, vec!["B", "a", "a-", "ab", "b", "zz"]);
}

#[test]
fn a_key_is_taken_out_of_a_database_map() {
    let mut m = map(&[("a", Some("1")), ("b", Some("2")), ("c", Some("3"))]);
    m.remove("b");
    assert_eq!(m, map(&[("a", Some("1")), ("c", Some("3"))]));
    m.remove("b");
    m.remove("z");
    assert_eq!(m, map(&[("a", Some("1")), ("c", Some("3"))]));
    m.remove("a");
    m.remove("c");
    assert_eq!(m, OvsDbMap::new());
}

#[test]
fn database_maps_merge_key_by_key() {
    let desired = map(&[("keep", Some("new")), ("gone", None), ("fresh", Some("x")), ("void", None)]);
    let current = map(&[("keep", Some("old")), ("gone", Some("y")), ("other", Some("z"))]);
    assert_eq!(
        nmstate::ovsdb::merge_maps(&desired, current),
        map(&[("keep", Some("new")), ("fresh", Some("x")), ("other", Some("z"))])
    );
    assert_eq!(
        nmstate::ovsdb::merge_maps(&OvsDbMap::new(), map(&[("a", None)])),
        map(&[("a", None)])
    );
}

#[test]
fn texts_are_ordered_by_their_code_points() {
    assert_eq!(text_order("", ""), TextOrder::Same);
    assert_eq!(text_order("abc", "abc"), TextOrder::Same);
    assert_eq!(text_order("", "a"), TextOrder::Before);
    assert_eq!(text_order("a", ""), TextOrder::After);
    assert_eq!(text_order("ab", "abc"), TextOrder::Before);
    assert_eq!(text_order("abd", "abc"), TextOrder::After);
    assert_eq!(text_order("Z", "a"), TextOrder::Before);
    assert_eq!(text_order("z", "\u{e9}"), TextOrder::Before);
    assert_eq!(text_order("\u{e9}", "\u{10000}"), TextOrder::Before);
}

#[test]
fn a_state_is_cloned_with_all_of_it() {
    let mut state = state_of(vec![eth("eth1"), vlan_on("eth1.101", "eth1", InterfaceState::Up)]);
    state.routes.config = Some(vec![route("192.0.2.0/24", Some("eth1"), Some(1))]);
    state.rules.config = Some(vec![rule(Some("192.0.2.1/32"), Some("eth1"), 1)]);
    state.dns = Some(servers(&["192.0.2.53"]));
    state.ovsdb = Some(OvsDbGlobalConfig {
        external_ids: Some(map(&[("b", Some("1")), ("a", None)])),
        other_config: None,
    });
    state.ovn.bridge_mappings = Some(vec![mapping("net1", Some("br1"), None)]);
    state.set_kernel_only(true).set_timeout(9);
    let copy = state.clone();
    assert_eq!(copy, state);
    assert!(copy.kernel_only());
    assert_eq!(copy.timeout(), Some(9));
}

#[test]
fn the_parts_of_a_state_are_set_and_read() {
    let mut state = NetworkState::new();
    state
        .set_description("the lab".to_string())
        .set_hostname(Some(HostNameState { running: None, config: Some("a".to_string()) }))
        .set_dns(Some(servers(&["192.0.2.53"])))
        .set_interfaces(Interfaces::from_vec(vec![eth("eth1")]))
        .set_ovsdb(Some(OvsDbGlobalConfig::default()))
        .set_kernel_only(true);
    let mut routes = nmstate::Routes::new();
    routes.config = Some(vec![route("192.0.2.0/24", Some("eth1"), None)]);
    let mut rules = nmstate::RouteRules::new();
    rules.config = Some(vec![rule(Some("192.0.2.1/32"), None, 1)]);
    state.set_routes(routes.clone()).set_rules(rules.clone());
    state.set_ovn(OvnConfiguration { bridge_mappings: Some(vec![]) });
    assert_eq!(state.description(), "the lab");
    assert_eq!(
        state.hostname(),
        &Some(HostNameState { running: None, config: Some("a".to_string()) })
    );
    assert_eq!(state.dns(), &Some(servers(&["192.0.2.53"])));
    assert_eq!(state.interfaces().len(), 1);
    assert_eq!(state.routes(), &routes);
    assert_eq!(state.rules(), &rules);
    assert_eq!(state.ovsdb(), &Some(OvsDbGlobalConfig::default()));
    assert_eq!(state.ovn(), &OvnConfiguration { bridge_mappings: Some(vec![]) });
    assert!(state.kernel_only());
    assert!(!state.is_empty());
}
