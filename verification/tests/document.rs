use nmstate::dns::{DnsClientState, DnsState};
use nmstate::hostname::HostNameState;
use nmstate::ifaces::iface::Interface;
use nmstate::ifaces::macsec::MacSecConfig;
use nmstate::net_state::NetworkState;
use nmstate::ovn::{OvnBridgeMapping, OvnBridgeMappingState};
use nmstate::ovsdb::{OvsDbEntry, OvsDbGlobalConfig, OvsDbMap};
use nmstate::route::{RouteEntry, RouteState};
use nmstate::route_rule::{RouteRuleEntry, RouteRuleState};
use nmstate::{
    ErrorKind, EthernetConfig, InterfaceState, InterfaceType, SrIovConfig, SrIovVfConfig,
    VlanConfig, VlanProtocol, VlanRegistrationProtocol,
};

const YAML_STATE: &str = "\
description: the lab
hostname:
  running: host.example.org
  config: host.example.org
dns-resolver:
  config:
    server:
    - '2001:db8:1::'
    - 192.0.2.1
    search: []
route-rules:
  config:
  - ip-from: 2001:db8:b::/64
    priority: 30000
    route-table: 200
  - ip-from: 192.0.2.2/32
    iif: eth1
    state: absent
routes:
  config:
  - destination: 2001:db8:a::/64
    next-hop-interface: eth1
    next-hop-address: 2001:db8:1::2
    metric: 108
    table-id: 200
  - destination: 192.168.2.0/24
    state: absent
interfaces:
- name: eth1
  type: ethernet
  state: up
  mac-address: 0E:F9:2B:28:42:D9
  mtu: 1500
  ipv4:
    enabled: true
    dhcp: false
    address:
    - ip: 192.168.1.3
      prefix-length: 24
  ipv6:
    enabled: false
  ethernet:
    speed: 1000
    sr-iov:
      total-vfs: 2
      vfs:
      - id: 0
        trust: true
        vlan-id: 100
        qos: 5
        vlan-proto: 802.1ad
      - id: 1
        mac-address: 02:00:00:00:00:01
- name: eth1.101
  type: vlan
  state: up
  max-mtu: 65535
  wait-ip: any
  accept-all-mac-addresses: false
  vlan:
    base-iface: eth1
    id: 101
    registration-protocol: none
- name: macsec0
  type: macsec
  macsec:
    base-iface: eth1
    mka-cak: 50b71a8ef0bd5751ea76de6d6c98c03a
    mka-ckn: f2b4297d39da7330910a74abc0449feb
- name: dummy0
  type: dummy
  state: ignore
- name: whatever0
ovs-db:
  external_ids:
    hostname: host.example.org
    rundir: null
  other_config: {}
ovn:
  bridge-mappings:
  - localnet: net1
    bridge: br1
  - localnet: net2
    state: absent
";

const JSON_STATE: &str = r#"{
  "description": "the lab",
  "hostname": {"running": "host.example.org", "config": "host.example.org"},
  "dns-resolver": {"config": {"server": ["2001:db8:1::", "192.0.2.1"], "search": []}},
  "route-rules": {"config": [
    {"ip-from": "2001:db8:b::/64", "priority": 30000, "route-table": 200},
    {"ip-from": "192.0.2.2/32", "iif": "eth1", "state": "absent"}
  ]},
  "routes": {"config": [
    {"destination": "2001:db8:a::/64", "next-hop-interface": "eth1",
     "next-hop-address": "2001:db8:1::2", "metric": 108, "table-id": 200},
    {"destination": "192.168.2.0/24", "state": "absent"}
  ]},
  "interfaces": [
    {"name": "eth1", "type": "ethernet", "state": "up", "mac-address": "0E:F9:2B:28:42:D9",
     "mtu": 1500,
     "ipv4": {"enabled": true, "dhcp": false,
              "address": [{"ip": "192.168.1.3", "prefix-length": 24}]},
     "ipv6": {"enabled": false},
     "ethernet": {"speed": 1000, "sr-iov": {"total-vfs": 2, "vfs": [
        {"id": 0, "trust": true, "vlan-id": 100, "qos": 5, "vlan-proto": "802.1ad"},
        {"id": 1, "mac-address": "02:00:00:00:00:01"}]}}},
    {"name": "eth1.101", "type": "vlan", "state": "up", "max-mtu": 65535, "wait-ip": "any",
     "accept-all-mac-addresses": false,
     "vlan": {"base-iface": "eth1", "id": 101, "registration-protocol": "none"}},
    {"name": "macsec0", "type": "macsec",
     "macsec": {"base-iface": "eth1", "mka-cak": "50b71a8ef0bd5751ea76de6d6c98c03a",
                "mka-ckn": "f2b4297d39da7330910a74abc0449feb"}},
    {"name": "dummy0", "type": "dummy", "state": "ignore"},
    {"name": "whatever0"}
  ],
  "ovs-db": {"external_ids": {"hostname": "host.example.org", "rundir": null},
             "other_config": {}},
  "ovn": {"bridge-mappings": [
    {"localnet": "net1", "bridge": "br1"},
    {"localnet": "net2", "state": "absent"}]}
}"#;

fn text(s: &str) -> Option<String> {
    Some(s.to_string())
}

fn check_the_lab(state: &NetworkState) {
    assert_eq!(state.description, "the lab");
    assert_eq!(
        state.hostname,
        Some(HostNameState { running: text("host.example.org"), config: text("host.example.org") })
    );
    assert_eq!(
        state.dns,
        Some(DnsState {
            running: None,
            config: Some(DnsClientState {
                server: Some(vec!["2001:db8:1::".to_string(), "192.0.2.1".to_string()]),
                search: Some(vec![]),
            }),
        })
    );
    assert_eq!(
        state.rules.config,
        Some(vec![
            RouteRuleEntry {
                state: None,
                ip_from: text("2001:db8:b::/64"),
                ip_to: None,
                priority: Some(30000),
                table_id: Some(200),
                iif: None,
            },
            RouteRuleEntry {
                state: Some(RouteRuleState::Absent),
                ip_from: text("192.0.2.2/32"),
                ip_to: None,
                priority: None,
                table_id: None,
                iif: text("eth1"),
            },
        ])
    );
    assert_eq!(state.routes.running, None);
    assert_eq!(
        state.routes.config,
        Some(vec![
            RouteEntry {
                state: None,
                destination: text("2001:db8:a::/64"),
                next_hop_iface: text("eth1"),
                next_hop_addr: text("2001:db8:1::2"),
                metric: Some(108),
                table_id: Some(200),
            },
            RouteEntry {
                state: Some(RouteState::Absent),
                destination: text("192.168.2.0/24"),
                next_hop_iface: None,
                next_hop_addr: None,
                metric: None,
                table_id: None,
            },
        ])
    );
    assert_eq!(state.interfaces.len(), 5);
    match state.interfaces.get(0) {
        Some(Interface::Ethernet(e)) => {
            assert_eq!(e.base.name, "eth1");
            assert_eq!(e.base.iface_type, InterfaceType::Ethernet);
            assert_eq!(e.base.state, InterfaceState::Up);
            assert_eq!(e.base.mac_address, text("0E:F9:2B:28:42:D9"));
            assert_eq!(e.base.mtu, Some(1500));
            assert_eq!(e.base.max_mtu, None);
            assert_eq!(e.base.ipv4_enabled, Some(true));
            assert_eq!(e.base.ipv6_enabled, Some(false));
            let mut vf0 = SrIovVfConfig::new(0);
            vf0.trust = Some(true);
            vf0.vlan_id = Some(100);
            vf0.qos = Some(5);
            vf0.vlan_proto = Some(VlanProtocol::Ieee8021Ad);
            let mut vf1 = SrIovVfConfig::new(1);
            vf1.mac_address = text("02:00:00:00:00:01");
            assert_eq!(
                e.ethernet,
                Some(EthernetConfig {
                    sr_iov: Some(SrIovConfig {
                        total_vfs: Some(2),
                        drivers_autoprobe: None,
                        vfs: Some(vec![vf0, vf1]),
                    }),
                    auto_neg: None,
                    speed: Some(1000),
                })
            );
        }
        _ => panic!("the first interface is an Ethernet interface"),
    }
    match state.interfaces.get(1) {
        Some(Interface::Vlan(v)) => {
            assert_eq!(v.base.name, "eth1.101");
            assert_eq!(v.base.iface_type, InterfaceType::Vlan);
            assert_eq!(v.base.max_mtu, Some(65535));
            assert_eq!(v.base.ipv4_enabled, None);
            assert_eq!(
                v.vlan,
                Some(VlanConfig {
                    base_iface: "eth1".to_string(),
                    id: 101,
                    protocol: None,
                    registration_protocol: Some(VlanRegistrationProtocol::Unregistered),
                    reorder_headers: None,
                    loose_binding: None,
                })
            );
        }
        _ => panic!("the second interface is a VLAN"),
    }
    match state.interfaces.get(2) {
        Some(Interface::MacSec(m)) => {
            assert_eq!(m.base.state, InterfaceState::Up);
            assert_eq!(
                m.macsec,
                Some(MacSecConfig {
                    base_iface: "eth1".to_string(),
                    encrypt: true,
                    mka_cak: text("50b71a8ef0bd5751ea76de6d6c98c03a"),
                    mka_ckn: text("f2b4297d39da7330910a74abc0449feb"),
                    port: 0,
                })
            );
        }
        _ => panic!("the third interface is a MACsec interface"),
    }
    match state.interfaces.get(3) {
        Some(Interface::Dummy(b)) => {
            assert_eq!(b.name, "dummy0");
            assert_eq!(b.state, InterfaceState::Ignore);
        }
        _ => panic!("the fourth interface is a dummy interface"),
    }
    match state.interfaces.get(4) {
        Some(Interface::Unknown(b)) => {
            assert_eq!(b.name, "whatever0");
            assert_eq!(b.iface_type, InterfaceType::Unknown);
        }
        _ => panic!("the fifth interface states no kind"),
    }
    let ovsdb = state.ovsdb.as_ref().unwrap();
    assert_eq!(
        ovsdb.external_ids.as_ref().unwrap().entries(),
        &vec![
            OvsDbEntry { key: "hostname".to_string(), value: text("host.example.org") },
            OvsDbEntry { key: "rundir".to_string(), value: None },
        ]
    );
    assert_eq!(ovsdb.other_config, Some(OvsDbMap::new()));
    assert_eq!(
        state.ovn.bridge_mappings,
        Some(vec![
            OvnBridgeMapping { localnet: "net1".to_string(), state: None, bridge: text("br1") },
            OvnBridgeMapping {
                localnet: "net2".to_string(),
                state: Some(OvnBridgeMappingState::Absent),
                bridge: None,
            },
        ])
    );
    assert!(!state.kernel_only());
    assert!(state.verify_change());
    assert!(state.commit());
    assert_eq!(state.timeout(), None);
    assert!(!state.include_secrets());
    assert!(!state.running_config_only());
    assert!(!state.memory_only());
}

#[test]
fn a_state_is_read_from_yaml() {
    check_the_lab(&NetworkState::new_from_yaml(YAML_STATE).unwrap());
}

#[test]
fn a_state_is_read_from_json() {
    check_the_lab(&NetworkState::new_from_json(JSON_STATE).unwrap());
}

#[test]
fn json_and_yaml_give_the_same_state() {
    assert_eq!(
        NetworkState::new_from_json(JSON_STATE).unwrap(),
        NetworkState::new_from_yaml(YAML_STATE).unwrap()
    );
}

#[test]
fn an_empty_document_is_the_empty_state() {
    assert_eq!(NetworkState::new_from_json("{}").unwrap(), NetworkState::new());
    assert_eq!(NetworkState::new_from_yaml("{}").unwrap(), NetworkState::new());
    assert!(NetworkState::new_from_json("{}").unwrap().is_empty());
    assert_eq!(
        NetworkState::new_from_json(r#"{"interfaces": [], "description": ""}"#).unwrap(),
        NetworkState::new()
    );
}

#[test]
fn an_unknown_top_level_key_is_refused() {
    let e = NetworkState::new_from_json(r#"{"interfaces": [], "interface": []}"#).unwrap_err();
    assert_eq!(e.kind(), ErrorKind::InvalidArgument);
    assert_eq!(e.msg(), "Invalid JSON string: unknown field `interface`");
    let e = NetworkState::new_from_yaml("interfaces: []\nkernel_only: true\n").unwrap_err();
    assert_eq!(e.kind(), ErrorKind::InvalidArgument);
    assert_eq!(e.msg(), "Invalid YAML string: unknown field `kernel_only`");
}

#[test]
fn the_session_flags_are_no_keys_of_a_document() {
    for key in [
        "kernel_only",
        "no_verify",
        "no_commit",
        "timeout",
        "include_secrets",
        "include_status_data",
        "running_config_only",
        "memory_only",
        "kernel-only",
        "memory-only",
    ] {
        let doc = format!("{{\"{}\": true}}", key);
        let e = NetworkState::new_from_json(&doc).unwrap_err();
        assert_eq!(e.kind(), ErrorKind::InvalidArgument);
    }
}

#[test]
fn an_unknown_key_in_a_nested_record_is_refused() {
    for doc in [
        r#"{"hostname": {"runing": "a"}}"#,
        r#"{"dns-resolver": {"config": {"servers": []}}}"#,
        r#"{"routes": {"config": [{"destination": "192.0.2.0/24", "via": "eth1"}]}}"#,
        r#"{"route-rules": {"config": [{"ip-from": "192.0.2.1/32", "table-id": 1}]}}"#,
        r#"{"interfaces": [{"name": "v1", "type": "vlan", "vlan": {"base-iface": "e", "id": 1, "tag": 1}}]}"#,
        r#"{"interfaces": [{"name": "e", "type": "ethernet", "ethernet": {"sr-iov": {"total_vfs": 1}}}]}"#,
        r#"{"ovn": {"bridge_mappings": []}}"#,
        r#"{"ovs-db": {"external-ids": {}}}"#,
    ] {
        let e = NetworkState::new_from_json(doc).unwrap_err();
        assert_eq!(e.kind(), ErrorKind::InvalidArgument, "for {}", doc);
        assert!(e.msg().starts_with("Invalid JSON string: "), "for {}", doc);
        assert!(e.msg().contains("unknown field"), "for {}", doc);
    }
}

#[test]
fn a_parser_error_keeps_the_parsers_message() {
    let bad = r#"{"interfaces": ["#;
    let parser = serde_json::from_str::<serde_json::Value>(bad).unwrap_err().to_string();
    let e = NetworkState::new_from_json(bad).unwrap_err();
    assert_eq!(e.kind(), ErrorKind::InvalidArgument);
    assert_eq!(e.msg(), format!("Invalid JSON string: {}", parser));

    let bad = "interfaces: [\n";
    let parser = serde_yaml::from_str::<serde_json::Value>(bad).unwrap_err().to_string();
    let e = NetworkState::new_from_yaml(bad).unwrap_err();
    assert_eq!(e.kind(), ErrorKind::InvalidArgument);
    assert_eq!(e.msg(), format!("Invalid YAML string: {}", parser));
}

#[test]
fn a_document_that_is_no_mapping_is_refused() {
    for doc in ["[]", "null", "1", "\"interfaces\"", "true"] {
        let e = NetworkState::new_from_json(doc).unwrap_err();
        assert_eq!(e.kind(), ErrorKind::InvalidArgument, "for {}", doc);
    }
    let e = NetworkState::new_from_yaml("- a\n- b\n").unwrap_err();
    assert_eq!(e.kind(), ErrorKind::InvalidArgument);
}

#[test]
fn a_value_of_the_wrong_type_is_refused() {
    for doc in [
        r#"{"description": 5}"#,
        r#"{"interfaces": {}}"#,
        r#"{"interfaces": [{"type": "vlan"}]}"#,
        r#"{"interfaces": [{"name": "e", "type": "bridge"}]}"#,
        r#"{"interfaces": [{"name": "e", "state": "maybe"}]}"#,
        r#"{"interfaces": [{"name": "e", "mtu": -1}]}"#,
        r#"{"interfaces": [{"name": "e", "mtu": 1.5}]}"#,
        r#"{"interfaces": [{"name": "e", "ipv4": true}]}"#,
        r#"{"interfaces": [{"name": "e", "ipv4": {"enabled": "yes"}}]}"#,
        r#"{"interfaces": [{"name": "v", "type": "vlan", "vlan": {"id": 1}}]}"#,
        r#"{"interfaces": [{"name": "v", "type": "vlan", "vlan": {"base-iface": "e"}}]}"#,
        r#"{"interfaces": [{"name": "v", "type": "vlan", "vlan": {"base-iface": "e", "id": 65536}}]}"#,
        r#"{"interfaces": [{"name": "v", "type": "vlan", "vlan": {"base-iface": "e", "id": "1x"}}]}"#,
        r#"{"interfaces": [{"name": "v", "type": "vlan", "vlan": {"base-iface": "e", "id": 1, "protocol": "802.1x"}}]}"#,
        r#"{"interfaces": [{"name": "e", "type": "ethernet", "ethernet": {"sr-iov": {"total-vfs": 4294967296}}}]}"#,
        r#"{"interfaces": [{"name": "e", "type": "ethernet", "ethernet": {"sr-iov": {"vfs": [{"trust": true}]}}}]}"#,
        r#"{"routes": {"config": [{"state": "present"}]}}"#,
        r#"{"routes": {"config": [{"metric": 9223372036854775808}]}}"#,
        r#"{"ovn": {"bridge-mappings": [{"bridge": "br1"}]}}"#,
        r#"{"ovs-db": {"external_ids": {"a": 1}}}"#,
        r#"{"ovs-db": {"external_ids": []}}"#,
        r#"{"dns-resolver": {"config": {"server": "192.0.2.1"}}}"#,
        r#"{"dns-resolver": {"config": {"server": [1]}}}"#,
    ] {
        let e = NetworkState::new_from_json(doc).unwrap_err();
        assert_eq!(e.kind(), ErrorKind::InvalidArgument, "for {}", doc);
    }
}

#[test]
fn a_vlan_id_is_read_from_an_integer_or_from_its_text() {
    for id in ["101", "\"101\""] {
        let doc = format!(
            "{{\"interfaces\": [{{\"name\": \"v\", \"type\": \"vlan\", \"vlan\": {{\"base-iface\": \"e\", \"id\": {}}}}}]}}",
            id
        );
        let state = NetworkState::new_from_json(&doc).unwrap();
        match state.interfaces.get(0) {
            Some(Interface::Vlan(v)) => assert_eq!(v.vlan.as_ref().unwrap().id, 101),
            _ => panic!("the interface is a VLAN"),
        }
    }
    let state = NetworkState::new_from_yaml(
        "interfaces:\n- name: v\n  type: vlan\n  vlan:\n    base-iface: e\n    id: '4095'\n    protocol: 802.1q\n    reorder-headers: false\n    loose-binding: true\n    registration-protocol: mvrp\n",
    )
    .unwrap();
    match state.interfaces.get(0) {
        Some(Interface::Vlan(v)) => assert_eq!(
            v.vlan,
            Some(VlanConfig {
                base_iface: "e".to_string(),
                id: 4095,
                protocol: Some(VlanProtocol::Ieee8021Q),
                registration_protocol: Some(VlanRegistrationProtocol::Mvrp),
                reorder_headers: Some(false),
                loose_binding: Some(true),
            })
        ),
        _ => panic!("the interface is a VLAN"),
    }
}

#[test]
fn a_null_member_counts_as_missing() {
    let state = NetworkState::new_from_json(
        r#"{"hostname": null, "interfaces": null, "routes": {"config": null},
            "dns-resolver": {"config": {"server": null}}}"#,
    )
    .unwrap();
    assert_eq!(state.hostname, None);
    assert_eq!(state.interfaces.len(), 0);
    assert_eq!(state.routes.config, None);
    assert!(!state.routes.is_empty() || state.routes.running.is_none());
    assert_eq!(
        state.dns,
        Some(DnsState {
            running: None,
            config: Some(DnsClientState { server: None, search: None }),
        })
    );
}

#[test]
fn the_configuration_of_another_kind_is_not_read() {
    let state = NetworkState::new_from_json(
        r#"{"interfaces": [{"name": "d", "type": "dummy", "vlan": {"nonsense": 1}}]}"#,
    )
    .unwrap();
    assert!(matches!(state.interfaces.get(0), Some(Interface::Dummy(_))));
}

#[test]
fn a_state_read_from_a_document_merges_like_any_other() {
    let desired = NetworkState::new_from_yaml(
        "interfaces:\n- name: eth1.101\n  type: vlan\n  vlan:\n    base-iface: eth1\n    id: 101\n",
    )
    .unwrap();
    let current = NetworkState::new_from_json(
        r#"{"interfaces": [{"name": "eth1", "type": "ethernet"}]}"#,
    )
    .unwrap();
    let merged = nmstate::net_state::MergedNetworkState::new(desired, current, false, false).unwrap();
    let ifaces = merged.interfaces().ifaces();
    assert_eq!(ifaces.len(), 2);
    match &ifaces[0].for_apply {
        Some(Interface::Vlan(v)) => {
            assert_eq!(v.vlan.as_ref().unwrap().reorder_headers, Some(true))
        }
        _ => panic!("the interface to apply is a VLAN"),
    }
}

#[test]
fn a_state_written_to_json_is_read_back_equal() {
    let state = NetworkState::new_from_json(JSON_STATE).unwrap();
    let text = state.to_json().unwrap();
    assert_eq!(NetworkState::new_from_json(&text).unwrap(), state);
}

#[test]
fn a_state_written_to_yaml_is_read_back_equal() {
    let state = NetworkState::new_from_yaml(YAML_STATE).unwrap();
    let text = state.to_yaml().unwrap();
    assert_eq!(NetworkState::new_from_yaml(&text).unwrap(), state);
    // The two formats are two writings of one tree.
    assert_eq!(NetworkState::new_from_json(&state.to_json().unwrap()).unwrap(), state);
}

#[test]
fn the_empty_state_is_written_with_its_interfaces_only() {
    assert_eq!(NetworkState::new().to_json().unwrap(), r#"{"interfaces":[]}"#);
    assert_eq!(NetworkState::new().to_yaml().unwrap(), "interfaces: []\n");
    assert_eq!(
        NetworkState::new_from_json(&NetworkState::new().to_json().unwrap()).unwrap(),
        NetworkState::new()
    );
}

#[test]
fn the_session_flags_are_not_written() {
    let mut state = NetworkState::new_from_json(JSON_STATE).unwrap();
    state
        .set_kernel_only(true)
        .set_verify_change(false)
        .set_commit(false)
        .set_timeout(60)
        .set_include_secrets(true)
        .set_include_status_data(true)
        .set_running_config_only(true)
        .set_memory_only(true);
    let plain = NetworkState::new_from_json(JSON_STATE).unwrap();
    assert_eq!(state.to_json().unwrap(), plain.to_json().unwrap());
    assert_eq!(state.to_yaml().unwrap(), plain.to_yaml().unwrap());
    let back = NetworkState::new_from_yaml(&state.to_yaml().unwrap()).unwrap();
    assert_eq!(back, plain);
    assert!(!back.kernel_only());
    assert!(back.verify_change());
    assert!(back.commit());
    assert_eq!(back.timeout(), None);
    assert!(!back.memory_only());
}

#[test]
fn every_field_of_every_kind_is_written_and_read_back() {
    let mut state = NetworkState::new();
    state.description = "all of it".to_string();
    let mut vlan = nmstate::VlanInterface::new();
    vlan.base.name = "eth1.101".to_string();
    vlan.base.state = InterfaceState::Down;
    vlan.base.mac_address = text("BE:E8:17:8F:D2:70");
    vlan.base.mtu = Some(1500);
    vlan.base.max_mtu = Some(65535);
    vlan.base.ipv4_enabled = Some(false);
    vlan.base.ipv6_enabled = Some(true);
    vlan.vlan = Some(VlanConfig {
        base_iface: "eth1".to_string(),
        id: 4095,
        protocol: Some(VlanProtocol::Ieee8021Ad),
        registration_protocol: Some(VlanRegistrationProtocol::Gvrp),
        reorder_headers: Some(false),
        loose_binding: Some(true),
    });
    state.append_interface_data(Interface::Vlan(vlan));
    let mut eth = nmstate::EthernetInterface::new();
    eth.base.name = "eth1".to_string();
    eth.base.state = InterfaceState::Absent;
    eth.ethernet = Some(EthernetConfig {
        sr_iov: Some(SrIovConfig {
            total_vfs: Some(0),
            drivers_autoprobe: Some(false),
            vfs: Some(vec![SrIovVfConfig {
                id: 4294967295,
                mac_address: text("02:00:00:00:00:01"),
                spoof_check: Some(true),
                trust: Some(false),
                min_tx_rate: Some(1),
                max_tx_rate: Some(2),
                vlan_id: Some(3),
                qos: Some(4),
                vlan_proto: Some(VlanProtocol::Ieee8021Q),
            }]),
        }),
        auto_neg: Some(true),
        speed: Some(10000),
    });
    state.append_interface_data(Interface::Ethernet(eth));
    let mut macsec = nmstate::ifaces::macsec::MacSecInterface::new();
    macsec.base.name = "macsec0".to_string();
    macsec.base.state = InterfaceState::Unknown;
    macsec.macsec = Some(MacSecConfig {
        base_iface: "eth1".to_string(),
        encrypt: false,
        mka_cak: text("50b71a8ef0bd5751ea76de6d6c98c03a"),
        mka_ckn: text("f2b4297d39da7330910a74abc0449feb"),
        port: 7,
    });
    state.append_interface_data(Interface::MacSec(macsec));
    state.hostname = Some(HostNameState { running: None, config: text("a \"quoted\" name: yes") });
    state.dns = Some(DnsState {
        running: Some(DnsClientState { server: Some(vec!["fe80::1%eth1".to_string()]), search: None }),
        config: Some(DnsClientState {
            server: Some(vec!["2001:db8:1::".to_string(), "null".to_string(), "1".to_string()]),
            search: Some(vec!["example.org".to_string(), "~".to_string(), "true".to_string()]),
        }),
    });
    state.routes.running = Some(vec![RouteEntry {
        state: None,
        destination: text("0.0.0.0/0"),
        next_hop_iface: text("eth1"),
        next_hop_addr: text("192.0.2.1"),
        metric: Some(-1),
        table_id: Some(254),
    }]);
    state.routes.config = Some(vec![]);
    state.rules.config = Some(vec![RouteRuleEntry {
        state: Some(RouteRuleState::Absent),
        ip_from: text("192.0.2.0/24"),
        ip_to: text("198.51.100.0/24"),
        priority: Some(9223372036854775807),
        table_id: Some(0),
        iif: text("eth1"),
    }]);
    let mut external_ids = OvsDbMap::new();
    external_ids.insert("system-id".to_string(), None);
    external_ids.insert("rundir".to_string(), text("/var/run/openvswitch"));
    external_ids.insert("hostname".to_string(), text("host.example.org"));
    let mut other_config = OvsDbMap::new();
    other_config.insert("n".to_string(), text("1"));
    state.ovsdb = Some(OvsDbGlobalConfig {
        external_ids: Some(external_ids),
        other_config: Some(other_config),
    });
    state.ovn.bridge_mappings = Some(vec![OvnBridgeMapping {
        localnet: "net1".to_string(),
        state: Some(OvnBridgeMappingState::Present),
        bridge: text("br1"),
    }]);
    let json = state.to_json().unwrap();
    assert_eq!(NetworkState::new_from_json(&json).unwrap(), state);
    let yaml = state.to_yaml().unwrap();
    assert_eq!(NetworkState::new_from_yaml(&yaml).unwrap(), state);
}

#[test]
fn an_interface_is_written_under_the_type_of_its_kind() {
    let mut state = NetworkState::new();
    let mut vlan = nmstate::VlanInterface::new();
    vlan.base.name = "v".to_string();
    state.append_interface_data(Interface::Vlan(vlan));
    assert_eq!(
        state.to_json().unwrap(),
        r#"{"interfaces":[{"name":"v","state":"up","type":"vlan"}]}"#
    );
}

#[test]
fn the_document_tree_has_the_keys_of_the_state() {
    let state = NetworkState::new_from_json(JSON_STATE).unwrap();
    let tree = state.to_document();
    let mut keys: Vec<&str> = tree.as_object().unwrap().keys().map(|k| k.as_str()).collect();
    keys.sort();
    assert_eq!(
        keys,
        vec![
            "description",
            "dns-resolver",
            "hostname",
            "interfaces",
            "ovn",
            "ovs-db",
            "route-rules",
            "routes"
        ]
    );
    assert_eq!(tree["interfaces"][1]["vlan"]["id"].as_u64(), Some(101));
    assert_eq!(tree["ovs-db"]["external_ids"]["rundir"], serde_json::Value::Null);
}

#[test]
fn database_maps_are_read_back_in_whatever_order_they_were_filled() {
    let mut external_ids = OvsDbMap::new();
    external_ids.insert("b".to_string(), text("2"));
    external_ids.insert("a".to_string(), text("1"));
    external_ids.insert("c".to_string(), None);
    let mut state = NetworkState::new();
    state.ovsdb = Some(OvsDbGlobalConfig { external_ids: Some(external_ids), other_config: None });
    assert_eq!(NetworkState::new_from_json(&state.to_json().unwrap()).unwrap(), state);
    assert_eq!(NetworkState::new_from_yaml(&state.to_yaml().unwrap()).unwrap(), state);
    let read = NetworkState::new_from_yaml(
        "ovs-db:\n  external_ids:\n    c: null\n    b: '2'\n    a: '1'\n",
    )
    .unwrap();
    assert_eq!(read, state);
}
