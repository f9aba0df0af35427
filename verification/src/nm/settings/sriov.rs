//! From the SR-IOV configuration asked of an Ethernet interface to the SR-IOV
//! block of its connection profile.

use crate::ifaces::ethernet::{
    EthernetInterface, SrIovConfig, SrIovConfigView, SrIovVfConfig, SrIovVfConfigView,
};
use crate::ifaces::vlan::VlanProtocol;
use crate::model::{opt_views, or_empty, or_kept, views};
use crate::nm::connection::{
    NmConnection, NmConnectionView, NmSettingSriov, NmSettingSriovVf, NmSettingSriovVfView,
    NmSettingSriovVfVlan, NmSettingSriovView, NmVlanProtocol,
};
use vstd::prelude::*;

verus! {

/// The one VLAN that a virtual function gets from its configuration: priority
/// 0 and `802.1q` where they are not given.
pub open spec fn nm_vf_vlan_of(vf: SrIovVfConfigView, vlan_id: u32) -> NmSettingSriovVfVlan {
    NmSettingSriovVfVlan {
        id: vlan_id,
        qos: match vf.qos {
            Some(q) => q,
            None => 0u32,
        },
        protocol: NmVlanProtocol::of(
            match vf.vlan_proto {
                Some(p) => p,
                None => VlanProtocol::Ieee8021Q,
            },
        ),
    }
}

/// The settings of one virtual function: what `vf` asks laid over `exist`.
/// The index is always taken from `vf`. A VLAN id replaces every VLAN that
/// `exist` had by a single one.
pub open spec fn nm_vf_of(vf: SrIovVfConfigView, exist: NmSettingSriovVfView)
    -> NmSettingSriovVfView {
    NmSettingSriovVfView {
        index: Some(vf.id),
        mac: or_kept(vf.mac_address, exist.mac),
        spoof_check: or_kept(vf.spoof_check, exist.spoof_check),
        trust: or_kept(vf.trust, exist.trust),
        min_tx_rate: or_kept(vf.min_tx_rate, exist.min_tx_rate),
        max_tx_rate: or_kept(vf.max_tx_rate, exist.max_tx_rate),
        vlans: match vf.vlan_id {
            Some(v) => Some(seq![nm_vf_vlan_of(vf, v)]),
            None => exist.vlans,
        },
    }
}

/// The settings that stand at position `i` of `exist`, or empty ones.
pub open spec fn nm_vf_at(exist: Seq<NmSettingSriovVfView>, i: int) -> NmSettingSriovVfView {
    if 0 <= i < exist.len() {
        exist[i]
    } else {
        NmSettingSriovVfView::empty()
    }
}

/// The list of virtual functions: one entry for each entry of `vfs`, matched
/// with `exist` by position and not by id.
pub open spec fn nm_vfs_of(vfs: Seq<SrIovVfConfigView>, exist: Seq<NmSettingSriovVfView>)
    -> Seq<NmSettingSriovVfView> {
    Seq::new(vfs.len(), |i: int| nm_vf_of(vfs[i], nm_vf_at(exist, i)))
}

/// The SR-IOV block after `conf` is applied to `exist`. A total of zero
/// virtual functions removes the block. Otherwise the block that exists, or
/// an empty one, takes each value that `conf` states.
pub open spec fn nm_sriov_of(conf: SrIovConfigView, exist: Option<NmSettingSriovView>)
    -> Option<NmSettingSriovView> {
    if conf.total_vfs == Some(0u32) {
        None
    } else {
        let block = match exist {
            Some(s) => s,
            None => NmSettingSriovView::empty(),
        };
        Some(
            NmSettingSriovView {
                total_vfs: or_kept(conf.total_vfs, block.total_vfs),
                autoprobe_drivers: or_kept(conf.drivers_autoprobe, block.autoprobe_drivers),
                vfs: match conf.vfs {
                    Some(vfs) => Some(nm_vfs_of(vfs, or_empty(block.vfs))),
                    None => block.vfs,
                },
            },
        )
    }
}

/// The connection profile after the SR-IOV configuration of `iface`, if it
/// has one, is applied to it. Nothing but the SR-IOV block changes.
pub open spec fn nm_conn_with_sriov(
    sr_iov: Option<SrIovConfigView>,
    conn: NmConnectionView,
) -> NmConnectionView {
    match sr_iov {
        Some(conf) => NmConnectionView { sriov: nm_sriov_of(conf, conn.sriov), ..conn },
        None => conn,
    }
}

/// Writes the SR-IOV configuration of `iface` into `nm_conn`.
pub fn gen_nm_sriov_setting(iface: &EthernetInterface, nm_conn: &mut NmConnection)
    ensures
        final(nm_conn)@ == nm_conn_with_sriov(iface@.sr_iov(), old(nm_conn)@),
{
    let sriov_conf: &SrIovConfig = match &iface.ethernet {
        Some(eth_conf) => match &eth_conf.sr_iov {
            Some(c) => c,
            None => {
                return ;
            },
        },
        None => {
            return ;
        },
    };

    if sriov_conf.total_vfs == Some(0) {
        nm_conn.sriov = None;
        return ;
    }
    let mut nm_sriov_set = match nm_conn.sriov.take() {
        Some(s) => s,
        None => NmSettingSriov::default(),
    };

    if let Some(v) = sriov_conf.total_vfs {
        nm_sriov_set.total_vfs = Some(v);
    }
    if let Some(autoprobe) = sriov_conf.drivers_autoprobe {
        nm_sriov_set.autoprobe_drivers = Some(autoprobe);
    }
    if let Some(vfs) = &sriov_conf.vfs {
        let ghost block_vfs = opt_views(nm_sriov_set.vfs);
        let exist = match nm_sriov_set.vfs.take() {
            Some(e) => e,
            None => Vec::new(),
        };
        assert(views(exist@) =~= or_empty(block_vfs));
        nm_sriov_set.vfs = Some(gen_nm_vfs(vfs.as_slice(), exist));
    }
    nm_conn.sriov = Some(nm_sriov_set);
}

/// The settings of the virtual functions `vfs`, laid over the existing ones
/// position by position.
pub fn gen_nm_vfs(vfs: &[SrIovVfConfig], exist_nm_sriov_sets: Vec<NmSettingSriovVf>) -> (ret: Vec<
    NmSettingSriovVf,
>)
    ensures
        views(ret@) == nm_vfs_of(views(vfs@), views(exist_nm_sriov_sets@)),
{
    let mut ret: Vec<NmSettingSriovVf> = Vec::with_capacity(vfs.len());
    let mut i: usize = 0;
    while i < vfs.len()
        invariant
            i <= vfs.len(),
            ret@.len() == i,
            forall|k: int|
                0 <= k < i ==> ret@[k]@ == nm_vf_of(
                    vfs@[k]@,
                    nm_vf_at(views(exist_nm_sriov_sets@), k),
                ),
        decreases vfs.len() - i,
    {
        let vf = &vfs[i];
        let mut nm_vf = if i < exist_nm_sriov_sets.len() {
            exist_nm_sriov_sets[i].clone()
        } else {
            NmSettingSriovVf::default()
        };
        assert(nm_vf@ == nm_vf_at(views(exist_nm_sriov_sets@), i as int));
        nm_vf.index = Some(vf.id);
        if let Some(v) = &vf.mac_address {
            nm_vf.mac = Some(v.clone());
        }
        if let Some(v) = vf.spoof_check {
            nm_vf.spoof_check = Some(v);
        }
        if let Some(v) = vf.trust {
            nm_vf.trust = Some(v);
        }
        if let Some(v) = vf.min_tx_rate {
            nm_vf.min_tx_rate = Some(v);
        }
        if let Some(v) = vf.max_tx_rate {
            nm_vf.max_tx_rate = Some(v);
        }
        if let Some(v) = vf.vlan_id {
            let mut nm_vf_vlan = NmSettingSriovVfVlan::default();
            nm_vf_vlan.id = v;
            nm_vf_vlan.qos = match vf.qos {
                Some(q) => q,
                None => 0,
            };
            let proto = match vf.vlan_proto {
                Some(p) => p,
                None => VlanProtocol::default(),
            };
            nm_vf_vlan.protocol = NmVlanProtocol::from_vlan_protocol(proto);
            let mut vlans: Vec<NmSettingSriovVfVlan> = Vec::new();
            vlans.push(nm_vf_vlan);
            assert(views(vlans@) =~= seq![nm_vf_vlan_of(vf@, v)]);
            nm_vf.vlans = Some(vlans);
        }
        ret.push(nm_vf);
        i += 1;
    }
    assert(views(ret@) =~= nm_vfs_of(views(vfs@), views(exist_nm_sriov_sets@)));
    ret
}

/// The SR-IOV block is removed exactly where a total of zero virtual
/// functions is asked for, whatever block there was.
pub proof fn lemma_zero_vfs_removes_block(conf: SrIovConfigView, exist: Option<NmSettingSriovView>)
    ensures
        nm_sriov_of(conf, exist) is None <==> conf.total_vfs == Some(0u32),
{
}

/// What the configuration leaves open stays as the existing block has it.
pub proof fn lemma_open_values_are_kept(conf: SrIovConfigView, block: NmSettingSriovView)
    requires
        conf.total_vfs != Some(0u32),
    ensures
        nm_sriov_of(conf, Some(block)) is Some,
        conf.total_vfs is None ==> nm_sriov_of(conf, Some(block))->0.total_vfs == block.total_vfs,
        conf.drivers_autoprobe is None ==> nm_sriov_of(conf, Some(block))->0.autoprobe_drivers
            == block.autoprobe_drivers,
        conf.vfs is None ==> nm_sriov_of(conf, Some(block))->0.vfs == block.vfs,
{
}

/// The virtual functions are matched by position: the entry at position `i`
/// comes from the configuration at position `i` and from the existing entry
/// at position `i`, whatever index either states. There are as many entries
/// as configurations.
pub proof fn lemma_vfs_are_matched_by_position(
    vfs: Seq<SrIovVfConfigView>,
    exist: Seq<NmSettingSriovVfView>,
    i: int,
)
    requires
        0 <= i < vfs.len(),
    ensures
        nm_vfs_of(vfs, exist).len() == vfs.len(),
        nm_vfs_of(vfs, exist)[i].index == Some(vfs[i].id),
        i < exist.len() ==> nm_vfs_of(vfs, exist)[i] == nm_vf_of(vfs[i], exist[i]),
        i >= exist.len() ==> nm_vfs_of(vfs, exist)[i] == nm_vf_of(
            vfs[i],
            NmSettingSriovVfView::empty(),
        ),
{
}

/// A VLAN id on a virtual function leaves it with exactly one VLAN, whatever
/// VLANs it had.
pub proof fn lemma_vf_vlan_is_replaced(vf: SrIovVfConfigView, exist: NmSettingSriovVfView)
    requires
        vf.vlan_id is Some,
    ensures
        nm_vf_of(vf, exist).vlans is Some,
        nm_vf_of(vf, exist).vlans->0.len() == 1,
        nm_vf_of(vf, exist).vlans->0[0] == nm_vf_vlan_of(vf, vf.vlan_id->0),
        nm_vf_of(vf, exist).vlans->0[0].id == vf.vlan_id->0,
        vf.qos is None ==> nm_vf_of(vf, exist).vlans->0[0].qos == 0,
        vf.vlan_proto is None ==> nm_vf_of(vf, exist).vlans->0[0].protocol
            == NmVlanProtocol::Dot1Q,
{
}

} // verus!
