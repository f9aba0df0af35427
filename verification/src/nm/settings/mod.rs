//! From what is asked of an interface to the daemon's settings, feature by
//! feature.

pub mod sriov;
