use nmstate::nm::connection::{
    NmConnection, NmSettingSriov, NmSettingSriovVf, NmSettingSriovVfVlan, NmVlanProtocol,
};
use nmstate::nm::settings::sriov::{gen_nm_sriov_setting, gen_nm_vfs};
use nmstate::{EthernetConfig, EthernetInterface, SrIovConfig, SrIovVfConfig, VlanProtocol};

fn eth_with(sr_iov: Option<SrIovConfig>) -> EthernetInterface {
    let mut iface = EthernetInterface::new();
    iface.base.name = "eth1".to_string();
    iface.ethernet = Some(EthernetConfig { sr_iov, auto_neg: None, speed: None });
    iface
}

fn existing_vf(index: u32) -> NmSettingSriovVf {
    NmSettingSriovVf {
        index: Some(index),
        mac: Some("00:11:22:33:44:55".to_string()),
        spoof_check: Some(true),
        trust: Some(false),
        min_tx_rate: Some(10),
        max_tx_rate: Some(100),
        vlans: Some(vec![
            NmSettingSriovVfVlan { id: 10, qos: 1, protocol: NmVlanProtocol::Dot1Ad },
            NmSettingSriovVfVlan { id: 11, qos: 2, protocol: NmVlanProtocol::Dot1Q },
        ]),
    }
}

fn existing_conn() -> NmConnection {
    NmConnection {
        id: Some("eth1".to_string()),
        iface_name: Some("eth1".to_string()),
        sriov: Some(NmSettingSriov {
            autoprobe_drivers: Some(true),
            total_vfs: Some(4),
            vfs: Some(vec![existing_vf(0), existing_vf(1)]),
        }),
    }
}

#[test]
fn zero_total_vfs_removes_the_sriov_block() {
    let mut conn = existing_conn();
    let iface = eth_with(Some(SrIovConfig {
        total_vfs: Some(0),
        drivers_autoprobe: Some(false),
        vfs: Some(vec![SrIovVfConfig::new(0)]),
    }));
    gen_nm_sriov_setting(&iface, &mut conn);
    assert_eq!(conn.sriov, None);
    assert_eq!(conn.id, Some("eth1".to_string()));
    assert_eq!(conn.iface_name, Some("eth1".to_string()));
}

#[test]
fn a_vf_with_a_vlan_id_gets_exactly_one_vlan() {
    let mut vf = SrIovVfConfig::new(2);
    vf.vlan_id = Some(100);
    vf.qos = Some(5);
    let ret = gen_nm_vfs(&[vf], vec![]);
    assert_eq!(ret.len(), 1);
    assert_eq!(ret[0].index, Some(2));
    assert_eq!(
        ret[0].vlans,
        Some(vec![NmSettingSriovVfVlan { id: 100, qos: 5, protocol: NmVlanProtocol::Dot1Q }])
    );
    assert_eq!(ret[0].mac, None);
    assert_eq!(ret[0].spoof_check, None);
    assert_eq!(ret[0].trust, None);
    assert_eq!(ret[0].min_tx_rate, None);
    assert_eq!(ret[0].max_tx_rate, None);
}

#[test]
fn a_vlan_id_replaces_the_existing_vlans() {
    let mut vf = SrIovVfConfig::new(0);
    vf.vlan_id = Some(200);
    vf.vlan_proto = Some(VlanProtocol::Ieee8021Ad);
    let ret = gen_nm_vfs(&[vf], vec![existing_vf(0)]);
    assert_eq!(
        ret[0].vlans,
        Some(vec![NmSettingSriovVfVlan { id: 200, qos: 0, protocol: NmVlanProtocol::Dot1Ad }])
    );
}

#[test]
fn vfs_are_matched_by_position_not_by_id() {
    // The desired VF with id 1 stands at position 0: it is laid over the
    // existing entry at position 0, whose index is 0.
    let mut existing0 = existing_vf(0);
    existing0.mac = Some("AA:AA:AA:AA:AA:00".to_string());
    let mut existing1 = existing_vf(1);
    existing1.mac = Some("AA:AA:AA:AA:AA:01".to_string());
    let mut vf = SrIovVfConfig::new(1);
    vf.trust = Some(true);
    let ret = gen_nm_vfs(&[vf], vec![existing0, existing1]);
    assert_eq!(ret.len(), 1);
    assert_eq!(ret[0].index, Some(1));
    assert_eq!(ret[0].mac, Some("AA:AA:AA:AA:AA:00".to_string()));
    assert_eq!(ret[0].trust, Some(true));
    assert_eq!(ret[0].spoof_check, Some(true));
}

#[test]
fn unset_vf_fields_keep_the_existing_values() {
    let ret = gen_nm_vfs(&[SrIovVfConfig::new(7)], vec![existing_vf(0)]);
    let mut expected = existing_vf(0);
    expected.index = Some(7);
    assert_eq!(ret, vec![expected]);
}

#[test]
fn set_vf_fields_replace_the_existing_values() {
    let vf = SrIovVfConfig {
        id: 3,
        mac_address: Some("02:00:00:00:00:03".to_string()),
        spoof_check: Some(false),
        trust: Some(true),
        min_tx_rate: Some(1),
        max_tx_rate: Some(2),
        vlan_id: None,
        qos: Some(4),
        vlan_proto: Some(VlanProtocol::Ieee8021Ad),
    };
    let ret = gen_nm_vfs(&[vf], vec![existing_vf(0)]);
    assert_eq!(ret[0].index, Some(3));
    assert_eq!(ret[0].mac, Some("02:00:00:00:00:03".to_string()));
    assert_eq!(ret[0].spoof_check, Some(false));
    assert_eq!(ret[0].trust, Some(true));
    assert_eq!(ret[0].min_tx_rate, Some(1));
    assert_eq!(ret[0].max_tx_rate, Some(2));
    // Without a VLAN id the existing VLANs stay, whatever qos and protocol say.
    assert_eq!(ret[0].vlans, existing_vf(0).vlans);
}

#[test]
fn more_desired_vfs_than_existing_ones_start_from_empty_entries() {
    let ret = gen_nm_vfs(
        &[SrIovVfConfig::new(0), SrIovVfConfig::new(1), SrIovVfConfig::new(2)],
        vec![existing_vf(0)],
    );
    assert_eq!(ret.len(), 3);
    assert_eq!(ret[0].mac, Some("00:11:22:33:44:55".to_string()));
    let mut fresh = NmSettingSriovVf::default();
    fresh.index = Some(1);
    assert_eq!(ret[1], fresh);
    fresh.index = Some(2);
    assert_eq!(ret[2], fresh);
}

#[test]
fn fewer_desired_vfs_than_existing_ones_drop_the_rest() {
    let ret = gen_nm_vfs(&[SrIovVfConfig::new(0)], vec![existing_vf(0), existing_vf(1)]);
    assert_eq!(ret.len(), 1);
    assert_eq!(gen_nm_vfs(&[], vec![existing_vf(0)]), vec![]);
}

#[test]
fn sriov_setting_copies_only_what_is_set() {
    let mut conn = existing_conn();
    let iface = eth_with(Some(SrIovConfig {
        total_vfs: Some(8),
        drivers_autoprobe: None,
        vfs: None,
    }));
    gen_nm_sriov_setting(&iface, &mut conn);
    let block = conn.sriov.unwrap();
    assert_eq!(block.total_vfs, Some(8));
    assert_eq!(block.autoprobe_drivers, Some(true));
    assert_eq!(block.vfs, Some(vec![existing_vf(0), existing_vf(1)]));

    let mut conn = existing_conn();
    let iface = eth_with(Some(SrIovConfig {
        total_vfs: None,
        drivers_autoprobe: Some(false),
        vfs: Some(vec![SrIovVfConfig::new(5)]),
    }));
    gen_nm_sriov_setting(&iface, &mut conn);
    let block = conn.sriov.unwrap();
    assert_eq!(block.total_vfs, Some(4));
    assert_eq!(block.autoprobe_drivers, Some(false));
    let mut expected = existing_vf(0);
    expected.index = Some(5);
    assert_eq!(block.vfs, Some(vec![expected]));
}

#[test]
fn sriov_setting_creates_a_block_where_there_is_none() {
    let mut conn = NmConnection::default();
    let mut vf = SrIovVfConfig::new(0);
    vf.vlan_id = Some(100);
    let iface = eth_with(Some(SrIovConfig {
        total_vfs: Some(2),
        drivers_autoprobe: None,
        vfs: Some(vec![vf]),
    }));
    gen_nm_sriov_setting(&iface, &mut conn);
    let block = conn.sriov.unwrap();
    assert_eq!(block.total_vfs, Some(2));
    assert_eq!(block.autoprobe_drivers, None);
    let vfs = block.vfs.unwrap();
    assert_eq!(vfs.len(), 1);
    assert_eq!(
        vfs[0].vlans,
        Some(vec![NmSettingSriovVfVlan { id: 100, qos: 0, protocol: NmVlanProtocol::Dot1Q }])
    );
}

#[test]
fn sriov_setting_with_nothing_set_still_creates_the_block() {
    let mut conn = NmConnection::default();
    let iface = eth_with(Some(SrIovConfig {
        total_vfs: None,
        drivers_autoprobe: None,
        vfs: None,
    }));
    gen_nm_sriov_setting(&iface, &mut conn);
    assert_eq!(conn.sriov, Some(NmSettingSriov::default()));
}

#[test]
fn an_interface_without_sriov_config_leaves_the_connection_alone() {
    let mut conn = existing_conn();
    gen_nm_sriov_setting(&eth_with(None), &mut conn);
    assert_eq!(conn, existing_conn());
    gen_nm_sriov_setting(&EthernetInterface::new(), &mut conn);
    assert_eq!(conn, existing_conn());
}

#[test]
fn nm_vlan_protocol_follows_the_vlan_protocol() {
    assert_eq!(
        NmVlanProtocol::from_vlan_protocol(VlanProtocol::Ieee8021Q),
        NmVlanProtocol::Dot1Q
    );
    assert_eq!(
        NmVlanProtocol::from_vlan_protocol(VlanProtocol::Ieee8021Ad),
        NmVlanProtocol::Dot1Ad
    );
    assert_eq!(NmVlanProtocol::default(), NmVlanProtocol::Dot1Q);
    assert_eq!(
        NmSettingSriovVfVlan::default(),
        NmSettingSriovVfVlan { id: 0, qos: 0, protocol: NmVlanProtocol::Dot1Q }
    );
}
