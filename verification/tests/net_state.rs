use nmstate::ifaces::iface::Interface;
use nmstate::ifaces::macsec::{MacSecConfig, MacSecInterface};
use nmstate::net_state::NetworkState;
use nmstate::{BaseInterface, ErrorKind, InterfaceState, InterfaceType, VlanInterface};

fn macsec(name: &str, key: Option<&str>) -> Interface {
    let mut iface = MacSecInterface::new();
    iface.base.name = name.to_string();
    iface.macsec = Some(MacSecConfig {
        base_iface: "eth0".to_string(),
        encrypt: true,
        mka_cak: key.map(|k| k.to_string()),
        mka_ckn: Some("f2b4297d39da7330910a74abc0449feb".to_string()),
        port: 1,
    });
    Interface::MacSec(iface)
}

fn cak_of(state: &NetworkState, position: usize) -> Option<String> {
    match state.interfaces.get(position) {
        Some(Interface::MacSec(m)) => m.macsec.as_ref().and_then(|c| c.mka_cak.clone()),
        _ => None,
    }
}

#[test]
fn new_state_is_empty_until_an_interface_is_appended() {
    let mut state = NetworkState::new();
    assert!(state.is_empty());
    state.append_interface_data(Interface::Vlan(VlanInterface::new()));
    assert!(!state.is_empty());
}

#[test]
fn default_state_equals_new_state() {
    assert_eq!(NetworkState::default(), NetworkState::new());
    assert!(NetworkState::default().is_empty());
}

#[test]
fn description_and_flags_do_not_count_for_emptiness() {
    let mut state = NetworkState::new();
    state.description = "the lab".to_string();
    state.set_kernel_only(true).set_timeout(30);
    assert!(state.is_empty());
}

#[test]
fn each_section_makes_the_state_not_empty() {
    let mut state = NetworkState::new();
    state.hostname = Some(nmstate::hostname::HostNameState::default());
    assert!(!state.is_empty());

    let mut state = NetworkState::new();
    state.dns = Some(nmstate::dns::DnsState::default());
    assert!(!state.is_empty());

    let mut state = NetworkState::new();
    state.ovsdb = Some(nmstate::ovsdb::OvsDbGlobalConfig::default());
    assert!(!state.is_empty());

    let mut state = NetworkState::new();
    state.rules.config = Some(vec![]);
    assert!(!state.is_empty());

    let mut state = NetworkState::new();
    state.routes.running = Some(vec![]);
    assert!(!state.is_empty());

    let mut state = NetworkState::new();
    state.ovn.bridge_mappings = Some(vec![]);
    assert!(!state.is_empty());
}

#[test]
fn append_keeps_order_and_duplicate_names() {
    let mut state = NetworkState::new();
    let mut a = VlanInterface::new();
    a.base.name = "eth1.101".to_string();
    let mut b = VlanInterface::new();
    b.base.name = "eth1.101".to_string();
    b.base.mtu = Some(1400);
    state.append_interface_data(Interface::Vlan(a));
    state.append_interface_data(Interface::Vlan(b));
    assert_eq!(state.interfaces.len(), 2);
    assert_eq!(state.interfaces.get(0).unwrap().base_iface().mtu, None);
    assert_eq!(state.interfaces.get(1).unwrap().base_iface().mtu, Some(1400));
    assert!(state.interfaces.get(2).is_none());
}

#[test]
fn session_flags_start_at_their_defaults() {
    let state = NetworkState::new();
    assert!(!state.kernel_only());
    assert!(state.verify_change());
    assert!(state.commit());
    assert_eq!(state.timeout(), None);
    assert!(!state.include_secrets());
    assert!(!state.include_status_data());
    assert!(!state.running_config_only());
    assert!(!state.memory_only());
}

#[test]
fn setters_set_their_flag_and_chain() {
    let mut state = NetworkState::new();
    state
        .set_kernel_only(true)
        .set_verify_change(false)
        .set_commit(false)
        .set_timeout(60)
        .set_include_secrets(true)
        .set_include_status_data(true)
        .set_running_config_only(true)
        .set_memory_only(true);
    assert!(state.kernel_only());
    assert!(!state.verify_change());
    assert!(!state.commit());
    assert_eq!(state.timeout(), Some(60));
    assert!(state.include_secrets());
    assert!(state.include_status_data());
    assert!(state.running_config_only());
    assert!(state.memory_only());
    state.set_verify_change(true).set_commit(true).set_kernel_only(false);
    assert!(state.verify_change());
    assert!(state.commit());
    assert!(!state.kernel_only());
    assert_eq!(state.timeout(), Some(60));
}

#[test]
fn hide_secrets_replaces_keys_by_the_fixed_text() {
    let mut state = NetworkState::new();
    state.append_interface_data(macsec("macsec0", Some("50b71a8ef0bd5751ea76de6d6c98c03a")));
    state.append_interface_data(macsec("macsec1", None));
    state.append_interface_data(Interface::Dummy(BaseInterface {
        name: "dummy0".to_string(),
        iface_type: InterfaceType::Dummy,
        state: InterfaceState::Up,
        mac_address: None,
        mtu: None,
        max_mtu: None,
        ipv4_enabled: None,
        ipv6_enabled: None,
    }));
    state.hide_secrets();
    assert_eq!(cak_of(&state, 0), Some("<_password_hid_by_nmstate>".to_string()));
    assert_eq!(cak_of(&state, 1), None);
    assert_eq!(state.interfaces.len(), 3);
    assert_eq!(state.interfaces.get(0).unwrap().name(), "macsec0");
    assert_eq!(state.interfaces.get(2).unwrap().name(), "dummy0");
    match state.interfaces.get(0) {
        Some(Interface::MacSec(m)) => {
            let cfg = m.macsec.as_ref().unwrap();
            assert_eq!(cfg.mka_ckn, Some("f2b4297d39da7330910a74abc0449feb".to_string()));
            assert_eq!(cfg.base_iface, "eth0");
        }
        _ => panic!("the first interface is a MACsec interface"),
    }
}

#[test]
fn hide_secrets_twice_is_hide_secrets_once() {
    let mut once = NetworkState::new();
    once.append_interface_data(macsec("macsec0", Some("secret")));
    once.hide_secrets();
    let mut twice = NetworkState::new();
    twice.append_interface_data(macsec("macsec0", Some("secret")));
    twice.hide_secrets();
    twice.hide_secrets();
    assert_eq!(once, twice);
}

#[test]
fn retrieve_fails_with_dependency_error() {
    let mut state = NetworkState::new();
    let e = state.retrieve().unwrap_err();
    assert_eq!(e.kind(), ErrorKind::DependencyError);
    assert_eq!(e.msg(), "NetworkState::retrieve() need `query_apply` feature enabled");
    assert!(state.is_empty());
}

#[test]
fn apply_fails_with_dependency_error() {
    let mut state = NetworkState::new();
    let e = state.apply().unwrap_err();
    assert_eq!(e.kind(), ErrorKind::DependencyError);
    assert_eq!(e.msg(), "NetworkState::apply() need `query_apply` feature enabled");
}

#[test]
fn gen_conf_fails_with_dependency_error() {
    let e = NetworkState::new().gen_conf().unwrap_err();
    assert_eq!(e.kind(), ErrorKind::DependencyError);
    assert_eq!(e.msg(), "NetworkState::gen_conf() need `genconf` feature enabled");
}

#[test]
fn checkpoint_calls_fail_with_dependency_error() {
    let e = NetworkState::checkpoint_rollback("cp1").unwrap_err();
    assert_eq!(e.kind(), ErrorKind::DependencyError);
    assert_eq!(
        e.msg(),
        "NetworkState::checkpoint_rollback() need `query_apply` feature enabled"
    );
    let e = NetworkState::checkpoint_commit("cp1").unwrap_err();
    assert_eq!(e.kind(), ErrorKind::DependencyError);
    assert_eq!(
        e.msg(),
        "NetworkState::checkpoint_commit() need `query_apply` feature enabled"
    );
}
