use nmstate::ifaces::iface::Interface;
use nmstate::ifaces::merged::MergedInterface;
use nmstate::text::parse_u16;
use nmstate::{
    BaseInterface, ErrorKind, InterfaceState, InterfaceType, VlanConfig, VlanInterface,
    VlanProtocol, VlanRegistrationProtocol,
};

fn vlan(name: &str, reorder_headers: Option<bool>) -> VlanInterface {
    let mut v = VlanInterface::new();
    v.base.name = name.to_string();
    v.vlan = Some(VlanConfig {
        base_iface: "eth1".to_string(),
        id: 101,
        protocol: None,
        registration_protocol: Some(VlanRegistrationProtocol::Gvrp),
        reorder_headers,
        loose_binding: Some(false),
    });
    v
}

fn reorder_of(m: &MergedInterface) -> Option<bool> {
    match &m.for_apply {
        Some(Interface::Vlan(v)) => v.vlan.as_ref().unwrap().reorder_headers,
        _ => panic!("the interface to apply is a VLAN"),
    }
}

#[test]
fn vlan_protocol_is_written_as_in_documents() {
    assert_eq!(VlanProtocol::Ieee8021Q.to_string(), "802.1q");
    assert_eq!(VlanProtocol::Ieee8021Ad.to_string(), "802.1ad");
}

#[test]
fn vlan_protocol_defaults_to_8021q() {
    assert_eq!(VlanProtocol::default(), VlanProtocol::Ieee8021Q);
}

#[test]
fn new_vlan_interface_has_the_vlan_type_and_no_config() {
    let v = VlanInterface::new();
    assert_eq!(v.base.iface_type, InterfaceType::Vlan);
    assert_eq!(v.base.state, InterfaceState::Up);
    assert_eq!(v.base.name, "");
    assert_eq!(v.vlan, None);
    assert_eq!(v, VlanInterface::default());
    assert_eq!(BaseInterface::default().iface_type, InterfaceType::Unknown);
}

#[test]
fn vlan_parent_is_the_base_iface_of_the_config() {
    assert_eq!(VlanInterface::new().parent(), None);
    assert_eq!(vlan("eth1.101", None).parent(), Some("eth1"));
}

#[test]
fn vlan_config_default_has_nothing_set() {
    let c = VlanConfig::default();
    assert_eq!(c.base_iface, "");
    assert_eq!(c.id, 0);
    assert_eq!(c.protocol, None);
    assert_eq!(c.registration_protocol, None);
    assert_eq!(c.reorder_headers, None);
    assert_eq!(c.loose_binding, None);
}

#[test]
fn vlan_id_is_read_from_decimal_text() {
    assert_eq!(VlanConfig::id_from_text("101"), Ok(101));
    assert_eq!(VlanConfig::id_from_text("0"), Ok(0));
    assert_eq!(VlanConfig::id_from_text("4095"), Ok(4095));
    assert_eq!(VlanConfig::id_from_text("65535"), Ok(65535));
    assert_eq!(VlanConfig::id_from_text("007"), Ok(7));
}

#[test]
fn vlan_id_text_that_is_no_number_is_refused() {
    for text in ["", "65536", "99999999999", "12a", "+5", "-1", " 1", "0x10", "1.0"] {
        let e = VlanConfig::id_from_text(text).unwrap_err();
        assert_eq!(e.kind(), ErrorKind::InvalidArgument, "for {:?}", text);
    }
    assert_eq!(
        VlanConfig::id_from_text("12a").unwrap_err().msg(),
        "Invalid VLAN id: 12a"
    );
}

#[test]
fn parse_u16_reads_digits_only() {
    assert_eq!(parse_u16("1500"), Some(1500));
    assert_eq!(parse_u16("65535"), Some(65535));
    assert_eq!(parse_u16("65536"), None);
    assert_eq!(parse_u16("655350"), None);
    assert_eq!(parse_u16(""), None);
    assert_eq!(parse_u16("١٢"), None);
}

#[test]
fn reorder_headers_stays_unset_when_current_has_it_off() {
    let mut m = MergedInterface::new(
        Some(Interface::Vlan(vlan("eth1.101", None))),
        Some(Interface::Vlan(vlan("eth1.101", Some(false)))),
    )
    .unwrap();
    m.post_inter_ifaces_process_vlan();
    assert_eq!(reorder_of(&m), None);
}

#[test]
fn reorder_headers_defaults_to_true_for_a_new_vlan() {
    let mut m = MergedInterface::new(Some(Interface::Vlan(vlan("eth1.101", None))), None).unwrap();
    m.post_inter_ifaces_process_vlan();
    assert_eq!(reorder_of(&m), Some(true));
    match &m.for_apply {
        Some(Interface::Vlan(v)) => {
            let c = v.vlan.as_ref().unwrap();
            assert_eq!(c.base_iface, "eth1");
            assert_eq!(c.id, 101);
            assert_eq!(c.registration_protocol, Some(VlanRegistrationProtocol::Gvrp));
            assert_eq!(c.loose_binding, Some(false));
            assert_eq!(v.base.name, "eth1.101");
        }
        _ => panic!("the interface to apply is a VLAN"),
    }
}

#[test]
fn reorder_headers_defaults_to_true_when_current_has_it_on_or_open() {
    for current in [Some(true), None] {
        let mut m = MergedInterface::new(
            Some(Interface::Vlan(vlan("eth1.101", None))),
            Some(Interface::Vlan(vlan("eth1.101", current))),
        )
        .unwrap();
        m.post_inter_ifaces_process_vlan();
        assert_eq!(reorder_of(&m), Some(true));
    }
}

#[test]
fn reorder_headers_defaults_to_true_when_current_has_no_config() {
    let mut current = VlanInterface::new();
    current.base.name = "eth1.101".to_string();
    let mut m = MergedInterface::new(
        Some(Interface::Vlan(vlan("eth1.101", None))),
        Some(Interface::Vlan(current)),
    )
    .unwrap();
    m.post_inter_ifaces_process_vlan();
    assert_eq!(reorder_of(&m), Some(true));
}

#[test]
fn a_stated_reorder_headers_is_never_replaced() {
    for stated in [true, false] {
        for current in [Some(true), Some(false), None] {
            let mut m = MergedInterface::new(
                Some(Interface::Vlan(vlan("eth1.101", Some(stated)))),
                Some(Interface::Vlan(vlan("eth1.101", current))),
            )
            .unwrap();
            m.post_inter_ifaces_process_vlan();
            assert_eq!(reorder_of(&m), Some(stated));
        }
    }
}

#[test]
fn the_vlan_rule_does_nothing_without_something_to_apply() {
    let mut m = MergedInterface::new(None, Some(Interface::Vlan(vlan("eth1.101", None)))).unwrap();
    let before = m.clone();
    m.post_inter_ifaces_process_vlan();
    assert_eq!(m, before);

    let mut bare = VlanInterface::new();
    bare.base.name = "eth1.101".to_string();
    let mut m = MergedInterface::new(Some(Interface::Vlan(bare)), None).unwrap();
    let before = m.clone();
    m.post_inter_ifaces_process_vlan();
    assert_eq!(m, before);
}

#[test]
fn the_vlan_rule_is_idempotent() {
    let mut once =
        MergedInterface::new(Some(Interface::Vlan(vlan("eth1.101", None))), None).unwrap();
    once.post_inter_ifaces_process_vlan();
    let mut twice = once.clone();
    twice.post_inter_ifaces_process_vlan();
    assert_eq!(once, twice);
}
