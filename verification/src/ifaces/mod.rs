//! The kinds of interfaces and their collection.

pub mod base;
pub mod ethernet;
pub mod iface;
pub mod inter_ifaces;
pub mod macsec;
pub mod merged;
pub mod vlan;
