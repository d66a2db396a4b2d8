//! Verified core of the XDP tutorial tooling: the planning logic of the
//! `cargo xdp-tutorial` scaffolding commands, of the `xtask` runner and of the
//! user-space XDP runners of the tutorial templates.
use vstd::prelude::*;

pub mod basic03;
pub mod basic04;
pub mod laws;
pub mod paths;
pub mod runner;
pub mod scaffold;
pub mod text;
pub mod xtask;

verus! {

/// Packet statistics recorded for one XDP action, shared by the kernel-space
/// program and the user-space runner.
#[derive(Clone, Copy, Debug)]
pub struct StatsRecord {
    /// Number of packets seen for a given XDP action.
    pub pkt_count: u32,
}

} // verus!
