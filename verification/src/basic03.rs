//! The runner of the `basic-03` tutorial: it attaches the program that counts
//! the packets of one XDP action in the `STATS_ARRAY` map.
use vstd::prelude::*;

use crate::runner::{action_code, action_name, XdpAction};

verus! {

/// The name suffix of the counting program for an action.
pub open spec fn stats_program_suffix(action: XdpAction) -> Seq<char> {
    match action {
        XdpAction::Pass => "_pass_packet_stats"@,
        XdpAction::Drop => "_drop_packet_stats"@,
    }
}

/// For the action chosen on the command line: its short name, its kernel code
/// (the slot of the statistics map to read) and the name of the program to
/// attach. `program_prefix` is the tutorial's name in snake case, with which
/// the template prefixes the programs of its eBPF crate.
pub fn action_info_from_opts(opts_action: &XdpAction, program_prefix: &str) -> (info: (
    &'static str,
    u32,
    String,
))
    ensures
        info.0@ == action_name(*opts_action),
        info.1 == action_code(*opts_action),
        info.2@ == program_prefix@ + stats_program_suffix(*opts_action),
{
    let mut program = String::from_str(program_prefix);
    match opts_action {
        XdpAction::Pass => {
            program.append("_pass_packet_stats");
            ("pass", 2u32, program)
        },
        XdpAction::Drop => {
            program.append("_drop_packet_stats");
            ("drop", 1u32, program)
        },
    }
}

} // verus!
