//! The runner of the `basic-04` tutorial: `pin` loads the eBPF object, attaches
//! the program of one XDP action and pins its link and maps in the BPF file
//! system; `stats` reads the pinned per-CPU statistics map.
use vstd::prelude::*;

use crate::runner::{
    action_code, action_name, ebpf_object_path, ebpf_object_path_spec, profile_name, profile_spec,
    RunnerError, XdpAction,
};
use crate::StatsRecord;

verus! {

/// The name of the pinned per-CPU statistics map.
pub open spec fn stats_map_name() -> Seq<char> {
    "PINNED_PERCPU_ARRAY"@
}

/// The name suffix of the program attached for an action.
pub open spec fn pin_program_suffix(action: XdpAction) -> Seq<char> {
    match action {
        XdpAction::Pass => "_action_pass"@,
        XdpAction::Drop => "_action_drop"@,
    }
}

/// For the action chosen on the command line: its short name, its kernel code
/// (the slot of the statistics map to read) and the name of the program to
/// attach. `program_prefix` is the tutorial's name in snake case, with which
/// the template prefixes the programs of its eBPF crate.
pub fn action_info_from_opts(opts_action: &XdpAction, program_prefix: &str) -> (info: (
    &'static str,
    u32,
    String,
))
    ensures
        info.0@ == action_name(*opts_action),
        info.1 == action_code(*opts_action),
        info.2@ == program_prefix@ + pin_program_suffix(*opts_action),
{
    let mut program = String::from_str(program_prefix);
    match opts_action {
        XdpAction::Pass => {
            program.append("_action_pass");
            ("pass", 2u32, program)
        },
        XdpAction::Drop => {
            program.append("_action_drop");
            ("drop", 1u32, program)
        },
    }
}

/// Options of the `pin` command.
pub struct PinOptions {
    /// XDP Action for which the program is attached.
    pub action: XdpAction,
    /// Name of the 'eBPF' binary file.
    pub file: String,
    /// Interface name to which the program is attached.
    pub iface: String,
    /// Run the binary in 'release' mode
    pub release: bool,
}

/// The directory of the BPF file system under which the `pin` command pins
/// what it loads for an interface and an eBPF file.
pub open spec fn bpf_fs_dir(iface: Seq<char>, file: Seq<char>) -> Seq<char> {
    "/sys/fs/bpf/"@ + iface + "/"@ + file
}

/// The directory in which the maps of the object are pinned.
pub open spec fn map_pin_dir(iface: Seq<char>, file: Seq<char>) -> Seq<char> {
    bpf_fs_dir(iface, file) + "/maps"@
}

/// The directory in which the attached program link is pinned.
pub open spec fn program_pin_dir(iface: Seq<char>, file: Seq<char>) -> Seq<char> {
    bpf_fs_dir(iface, file) + "/programs"@
}

/// What the `pin` command does, before it does it.
pub struct PinPlan {
    /// The cargo profile whose build is loaded.
    pub profile: String,
    /// The eBPF object file to load.
    pub bpf_file: String,
    /// Where the maps of the object are pinned (each under its own name).
    pub map_pin_path: String,
    /// The program to attach.
    pub program_name: String,
    /// The directory that holds the pinned program links.
    pub program_pin_dir: String,
    /// Where the link of the attached program is pinned.
    pub program_pin_path: String,
}

/// `a + "/" + b` as a `String`.
fn path_join(a: &str, b: &str) -> (joined: String)
    ensures
        joined@ == a@ + "/"@ + b@,
{
    let mut joined = String::from_str(a);
    joined.append("/");
    joined.append(b);
    joined
}

/// The paths and names with which the `pin` command loads, attaches and pins.
pub fn pin_plan(opts: &PinOptions, program_prefix: &str) -> (plan: PinPlan)
    ensures
        plan.profile@ == profile_spec(opts.release),
        plan.bpf_file@ == ebpf_object_path_spec(profile_spec(opts.release), opts.file@),
        plan.map_pin_path@ == map_pin_dir(opts.iface@, opts.file@),
        plan.program_name@ == program_prefix@ + pin_program_suffix(opts.action),
        plan.program_pin_dir@ == program_pin_dir(opts.iface@, opts.file@),
        plan.program_pin_path@ == program_pin_dir(opts.iface@, opts.file@) + "/"@
            + plan.program_name@,
{
    let profile = String::from_str(profile_name(opts.release));
    let bpf_file = ebpf_object_path(opts.release, opts.file.as_str());
    let mut base = String::from_str("/sys/fs/bpf/");
    base.append(opts.iface.as_str());
    base.append("/");
    base.append(opts.file.as_str());
    let mut map_pin_path = base.clone();
    map_pin_path.append("/maps");
    let (_, _, program_name) = action_info_from_opts(&opts.action, program_prefix);
    let mut dir = base;
    dir.append("/programs");
    let program_pin_path = path_join(dir.as_str(), program_name.as_str());
    PinPlan {
        profile,
        bpf_file,
        map_pin_path,
        program_name,
        program_pin_dir: dir,
        program_pin_path,
    }
}

/// Options of the `stats` command.
pub struct StatsOptions {
    /// Action for which the program is attached.
    pub action: XdpAction,
    /// Interface name to which the program is attached.
    pub iface: String,
    /// Name of the 'tutorial' to search Pinned Maps in `/sys/fs/bpf`
    pub name: String,
}

/// Where the `stats` command looks for the pinned statistics map.
pub open spec fn stats_map_path_spec(iface: Seq<char>, name: Seq<char>) -> Seq<char> {
    "/sys/fs/bpf/"@ + iface + "/"@ + name + "/maps/PINNED_PERCPU_ARRAY"@
}

/// The pinned statistics map that the `stats` command reads:
/// `/sys/fs/bpf/<iface>/<name>/maps/PINNED_PERCPU_ARRAY`.
pub fn stats_map_path(opts: &StatsOptions) -> (path: String)
    ensures
        path@ == stats_map_path_spec(opts.iface@, opts.name@),
{
    let mut path = String::from_str("/sys/fs/bpf/");
    path.append(opts.iface.as_str());
    path.append("/");
    path.append(opts.name.as_str());
    path.append("/maps/PINNED_PERCPU_ARRAY");
    path
}

/// The `stats` command goes on only where the map has been pinned.
pub fn check_map_pinned(pinned: bool) -> (res: Result<(), RunnerError>)
    ensures
        res is Ok <==> pinned,
        res matches Err(e) ==> e is MapNotPinned,
{
    if pinned {
        Ok(())
    } else {
        Err(RunnerError::MapNotPinned)
    }
}

/// What wakes the polling loop of the `stats` command.
#[derive(Clone, Copy, Debug, PartialEq, Eq, Structural)]
pub enum StatsEvent {
    /// The polling interval has elapsed.
    Tick,
    /// The user pressed Ctrl-C.
    Interrupt,
}

/// What the polling loop does next.
#[derive(Clone, Copy, Debug, PartialEq, Eq, Structural)]
pub enum StatsStep {
    /// Read the map and report the counts of the action.
    Report,
    /// Leave the loop.
    Exit,
}

/// The decision of the polling loop: report on every tick, stop on Ctrl-C.
pub fn stats_step(event: StatsEvent) -> (step: StatsStep)
    ensures
        event == StatsEvent::Tick ==> step == StatsStep::Report,
        event == StatsEvent::Interrupt ==> step == StatsStep::Exit,
{
    match event {
        StatsEvent::Tick => StatsStep::Report,
        StatsEvent::Interrupt => StatsStep::Exit,
    }
}

/// The number of packets counted over all the per-CPU records.
pub open spec fn total_count(values: Seq<StatsRecord>) -> int
    decreases values.len(),
{
    if values.len() == 0 {
        0
    } else {
        total_count(values.drop_last()) + values.last().pkt_count
    }
}

/// A prefix never counts more packets than the whole.
proof fn lemma_total_count_prefix(values: Seq<StatsRecord>, i: int)
    requires
        0 <= i <= values.len(),
    ensures
        0 <= total_count(values.take(i)) <= total_count(values),
    decreases values.len() - i,
{
    if i < values.len() {
        lemma_total_count_prefix(values, i + 1);
        assert(values.take(i + 1).drop_last() =~= values.take(i));
        lemma_total_count_nonneg(values.take(i));
    } else {
        assert(values.take(i) =~= values);
        lemma_total_count_nonneg(values);
    }
}

/// Counts are never negative.
proof fn lemma_total_count_nonneg(values: Seq<StatsRecord>)
    ensures
        total_count(values) >= 0,
    decreases values.len(),
{
    if values.len() > 0 {
        lemma_total_count_nonneg(values.drop_last());
    }
}

/// The total packet count of an action over all CPUs, or `None` where it
/// does not fit the `u32` counter that the runner adds it up in.
pub fn total_packets(values: &Vec<StatsRecord>) -> (total: Option<u32>)
    ensures
        total is None <==> total_count(values@) > u32::MAX,
        total matches Some(t) ==> t == total_count(values@),
{
    let n: usize = values.len();
    let mut sum: u32 = 0;
    let mut i: usize = 0;
    while i < n
        invariant
            n == values.len(),
            0 <= i <= n,
            sum == total_count(values@.take(i as int)),
        decreases n - i,
    {
        assert(values@.take(i + 1).drop_last() =~= values@.take(i as int));
        match sum.checked_add(values[i].pkt_count) {
            Some(s) => {
                sum = s;
            },
            None => {
                proof {
                    lemma_total_count_prefix(values@, i + 1);
                }
                return None;
            },
        }
        i = i + 1;
    }
    assert(values@.take(n as int) =~= values@);
    Some(sum)
}

} // verus!
