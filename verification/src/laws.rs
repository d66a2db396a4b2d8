//! Properties that relate several commands of the tooling.
use vstd::prelude::*;

use crate::basic03::stats_program_suffix;
use crate::basic04::{
    bpf_fs_dir, map_pin_dir, pin_program_suffix, program_pin_dir, stats_map_name,
    stats_map_path_spec, total_count,
};
use crate::paths::{component_name, names_repository, ComponentKind};
use crate::runner::{action_code, action_name, ebpf_object_path_spec, profile_spec, XdpAction};
use crate::scaffold::{add_plan_matches, init_project_name, AddCommand, ScaffoldError, ScaffoldPlan};
use crate::text::seq_join;
use crate::xtask::{cargo_build_args_spec, log_level_spec, runner_bin_path_spec};
use crate::StatsRecord;

verus! {

/// The `stats` command reads the statistics map where the `pin` command
/// pinned it: the maps of an object are pinned each under its own name in
/// the map directory of the interface and file, and `stats` looks up the
/// map `PINNED_PERCPU_ARRAY` in the map directory of the interface and name
/// it is given. So with the tutorial name as the file name the two agree.
pub proof fn lemma_stats_reads_pinned_map(iface: Seq<char>, file: Seq<char>)
    ensures
        stats_map_path_spec(iface, file) == map_pin_dir(iface, file) + "/"@ + stats_map_name(),
{
    reveal_strlit("/maps/PINNED_PERCPU_ARRAY");
    reveal_strlit("/maps");
    reveal_strlit("/");
    reveal_strlit("PINNED_PERCPU_ARRAY");
    assert(stats_map_path_spec(iface, file) =~= map_pin_dir(iface, file) + "/"@ + stats_map_name());
}

/// The `run` command of the `xtask` helper runs the runner binary of the
/// profile it built: `cargo` is asked for a release build exactly where the
/// runner is taken from the `release` profile.
pub proof fn lemma_run_uses_built_profile(release: bool)
    ensures
        cargo_build_args_spec(release).contains("--release"@) <==> profile_spec(release)
            == "release"@,
{
    reveal_strlit("--release");
    reveal_strlit("build");
    reveal_strlit("release");
    reveal_strlit("debug");
    if release {
        assert(cargo_build_args_spec(release)[1] == "--release"@);
    } else {
        assert(cargo_build_args_spec(release) =~= seq!["build"@]);
        assert("build"@ != "--release"@) by {
            assert("build"@.len() != "--release"@.len());
        }
        assert("debug"@ != "release"@) by {
            assert("debug"@.len() != "release"@.len());
        }
    }
}

/// Each XDP action reads its own slot of the statistics map and attaches its
/// own program, in both the `basic-03` and the `basic-04` runners.
pub proof fn lemma_actions_are_told_apart(a: XdpAction, b: XdpAction, program_prefix: Seq<char>)
    requires
        a != b,
    ensures
        action_code(a) != action_code(b),
        program_prefix + stats_program_suffix(a) != program_prefix + stats_program_suffix(b),
        program_prefix + pin_program_suffix(a) != program_prefix + pin_program_suffix(b),
{
    reveal_strlit("_pass_packet_stats");
    reveal_strlit("_drop_packet_stats");
    reveal_strlit("_action_pass");
    reveal_strlit("_action_drop");
    let n: int = program_prefix.len() as int;
    assert((program_prefix + stats_program_suffix(a))[n + 1] == stats_program_suffix(a)[1]);
    assert((program_prefix + stats_program_suffix(b))[n + 1] == stats_program_suffix(b)[1]);
    assert((program_prefix + pin_program_suffix(a))[n + 8] == pin_program_suffix(a)[8]);
    assert((program_prefix + pin_program_suffix(b))[n + 8] == pin_program_suffix(b)[8]);
}

/// The total over no CPU is zero, and one more CPU adds exactly its own
/// count to the total, whatever the number of CPUs before it: the total is
/// the sum of the counts of all the records.
pub proof fn lemma_total_counts_every_cpu(values: Seq<StatsRecord>, r: StatsRecord)
    ensures
        total_count(Seq::<StatsRecord>::empty()) == 0,
        total_count(values.push(r)) == total_count(values) + r.pkt_count,
{
    assert(values.push(r).drop_last() =~= values);
}

/// No `-v` flag logs at `info`, one at `debug`, and every count of two or
/// more at `trace`; so more flags never log less.
pub proof fn lemma_verbosity_levels(v: u8, w: u8)
    ensures
        v == 0 ==> log_level_spec(v) == "info"@,
        v == 1 ==> log_level_spec(v) == "debug"@,
        v >= 2 ==> log_level_spec(v) == "trace"@,
        v <= w && log_level_spec(v) == "trace"@ ==> log_level_spec(w) == "trace"@,
        v <= w && log_level_spec(v) == "debug"@ ==> log_level_spec(w) != "info"@,
{
    reveal_strlit("info");
    reveal_strlit("debug");
    reveal_strlit("trace");
    assert("info"@ != "debug"@) by {
        assert("info"@.len() != "debug"@.len());
    }
    assert("info"@ != "trace"@) by {
        assert("info"@[0] != "trace"@[0]);
    }
    assert("debug"@ != "trace"@) by {
        assert("debug"@[0] != "trace"@[0]);
    }
}

/// `init` names the project after the tutorial path exactly as given, unless
/// that path is exactly `.`, which gives `xdp-tutorial-rust-sol`.
pub proof fn lemma_init_project_name(tutorial_path: Seq<char>)
    ensures
        tutorial_path != "."@ ==> init_project_name(tutorial_path) == tutorial_path,
        init_project_name("."@) == "xdp-tutorial-rust-sol"@,
{
}

/// `add` fails only where the tutorial path ends in a component that is not
/// a name, and then with `InvalidTargetDirectory`. Where it ends in a name,
/// or has no component, it succeeds: the project takes that name, the files
/// go into the tutorial path, appended, and the tutorial name is the one
/// given, or else the last element of the naming path where that is a name;
/// the path inside the repository is kept exactly for a git repository.
pub proof fn lemma_add_fails_only_on_unnamed_target(
    cmd: AddCommand,
    tutorial_last: Option<(ComponentKind, Seq<char>)>,
    source_last: Option<(ComponentKind, Seq<char>)>,
    res: Result<ScaffoldPlan, ScaffoldError>,
)
    requires
        add_plan_matches(cmd, tutorial_last, source_last, res),
    ensures
        res is Err <==> (tutorial_last matches Some((kind, _)) && kind != ComponentKind::Normal),
        res matches Err(e) ==> e == ScaffoldError::InvalidTargetDirectory,
        res matches Ok(plan) ==> {
            &&& plan.project_name.deep_view() == (match tutorial_last {
                Some((_, text)) => Some(text),
                None => None,
            })
            &&& plan.target_dir.deep_view() == Some(cmd.tutorial_path@)
            &&& plan.append
            &&& plan.template_path@ == cmd.template_path@
            &&& plan.repository_template_path.deep_view() == (if names_repository(
                cmd.template_path@,
            ) {
                cmd.repository_template_path.deep_view()
            } else {
                None
            })
            &&& plan.git_ref is None
            &&& (cmd.name matches Some(n) ==> plan.tutorial_name.deep_view() == Some(n@))
            &&& (cmd.name is None ==> (source_last matches Some((ComponentKind::Normal, t))
                ==> plan.tutorial_name.deep_view() == Some(t)))
        },
{
}

/// The name of a last component is its text exactly where it is a name.
pub proof fn lemma_component_name(kind: ComponentKind, text: Seq<char>)
    ensures
        component_name(Some((kind, text))) == (if kind == ComponentKind::Normal {
            Some(text)
        } else {
            None
        }),
        component_name(None) is None,
{
}

/// The `pin` directory holds the whole interface name and the whole file
/// name, each in its own place: `/sys/fs/bpf/`, then all of `iface`, then
/// `/`, then all of `file`. The map and program directories lie below it, and
/// the `stats` command looks in the same place for the interface and name it
/// is given.
pub proof fn lemma_pin_dir_holds_interface(iface: Seq<char>, file: Seq<char>)
    ensures
        bpf_fs_dir(iface, file).len() == 13 + iface.len() as int + file.len() as int,
        bpf_fs_dir(iface, file).subrange(0, 12) == "/sys/fs/bpf/"@,
        bpf_fs_dir(iface, file).subrange(12, 12 + iface.len() as int) == iface,
        bpf_fs_dir(iface, file)[12 + iface.len() as int] == '/',
        bpf_fs_dir(iface, file).subrange(13 + iface.len() as int, 13 + iface.len() as int + file.len() as int) == file,
        map_pin_dir(iface, file).subrange(0, 13 + iface.len() as int + file.len() as int) == bpf_fs_dir(iface, file),
        program_pin_dir(iface, file).subrange(0, 13 + iface.len() as int + file.len() as int) == bpf_fs_dir(iface, file),
        stats_map_path_spec(iface, file).subrange(0, 13 + iface.len() as int + file.len() as int) == bpf_fs_dir(iface, file),
{
    reveal_strlit("/sys/fs/bpf/");
    reveal_strlit("/");
    let d = bpf_fs_dir(iface, file);
    let n: int = 13 + iface.len() as int + file.len() as int;
    assert(d.subrange(0, 12) =~= "/sys/fs/bpf/"@);
    assert(d.subrange(12, 12 + iface.len() as int) =~= iface);
    assert(d.subrange(13 + iface.len() as int, n) =~= file);
    assert(map_pin_dir(iface, file).subrange(0, n) =~= d);
    assert(program_pin_dir(iface, file).subrange(0, n) =~= d);
    assert(stats_map_path_spec(iface, file).subrange(0, n) =~= d) by {
        reveal_strlit("/maps/PINNED_PERCPU_ARRAY");
    }
}

/// Interfaces of the same length that pin into the same directory are the
/// same interface: different interfaces never share their pinned maps.
pub proof fn lemma_pin_dir_tells_interfaces_apart(a: Seq<char>, b: Seq<char>, file: Seq<char>)
    requires
        a.len() == b.len(),
        a != b,
    ensures
        bpf_fs_dir(a, file) != bpf_fs_dir(b, file),
        map_pin_dir(a, file) != map_pin_dir(b, file),
        stats_map_path_spec(a, file) != stats_map_path_spec(b, file),
{
    lemma_pin_dir_holds_interface(a, file);
    lemma_pin_dir_holds_interface(b, file);
}

/// The eBPF object path holds the whole profile and the whole file name:
/// `target/bpfel-unknown-none/`, the profile, `/`, then the file.
pub proof fn lemma_object_path_parts(profile: Seq<char>, file: Seq<char>)
    ensures
        ebpf_object_path_spec(profile, file).len() == 27 + profile.len() as int + file.len() as int,
        ebpf_object_path_spec(profile, file).subrange(26, 26 + profile.len() as int) == profile,
        ebpf_object_path_spec(profile, file)[26 + profile.len() as int] == '/',
        ebpf_object_path_spec(profile, file).subrange(
            27 + profile.len() as int,
            27 + profile.len() as int + file.len() as int,
        ) == file,
{
    reveal_strlit("target/bpfel-unknown-none/");
    reveal_strlit("/");
    let p = ebpf_object_path_spec(profile, file);
    assert(p.subrange(26, 26 + profile.len() as int) =~= profile);
    assert(p.subrange(27 + profile.len() as int, 27 + profile.len() as int + file.len() as int) =~= file);
}

/// The runner binary path holds the whole profile and the whole tutorial
/// name: `target/`, the profile, `/`, the name, then `-runner`.
pub proof fn lemma_runner_bin_path_parts(profile: Seq<char>, name: Seq<char>)
    ensures
        runner_bin_path_spec(profile, name).len() == 15 + profile.len() as int + name.len() as int,
        runner_bin_path_spec(profile, name).subrange(7, 7 + profile.len() as int) == profile,
        runner_bin_path_spec(profile, name)[7 + profile.len() as int] == '/',
        runner_bin_path_spec(profile, name).subrange(8 + profile.len() as int, 8 + profile.len() as int + name.len() as int)
            == name,
{
    reveal_strlit("target/");
    reveal_strlit("/");
    reveal_strlit("-runner");
    let p = runner_bin_path_spec(profile, name);
    assert(p.subrange(7, 7 + profile.len() as int) =~= profile);
    assert(p.subrange(8 + profile.len() as int, 8 + profile.len() as int + name.len() as int) =~= name);
}

/// Joining puts every part in, in order: no part gives nothing, one part
/// gives itself, and one more part adds the separator and that part.
pub proof fn lemma_join_every_part(parts: Seq<Seq<char>>, part: Seq<char>, sep: Seq<char>)
    ensures
        seq_join(Seq::<Seq<char>>::empty(), sep) == Seq::<char>::empty(),
        seq_join(seq![part], sep) == part,
        parts.len() > 0 ==> seq_join(parts.push(part), sep) == seq_join(parts, sep) + sep + part,
{
    assert(parts.push(part).drop_last() =~= parts);
}

/// Each program carries the name of the action it handles: the counting
/// program of `basic-03` is `<prefix>_<action>_packet_stats`, the pinned one
/// of `basic-04` is `<prefix>_action_<action>`.
pub proof fn lemma_program_names_carry_action(a: XdpAction)
    ensures
        stats_program_suffix(a) == "_"@ + action_name(a) + "_packet_stats"@,
        pin_program_suffix(a) == "_action_"@ + action_name(a),
{
    reveal_strlit("_");
    reveal_strlit("_packet_stats");
    reveal_strlit("_action_");
    reveal_strlit("pass");
    reveal_strlit("drop");
    reveal_strlit("_pass_packet_stats");
    reveal_strlit("_drop_packet_stats");
    reveal_strlit("_action_pass");
    reveal_strlit("_action_drop");
    assert(stats_program_suffix(a) =~= "_"@ + action_name(a) + "_packet_stats"@);
    assert(pin_program_suffix(a) =~= "_action_"@ + action_name(a));
}

/// Every path whose text ends in `.git` names a repository, and one whose
/// text does not end in `.git` does not.
pub proof fn lemma_repository_by_suffix(path: Seq<char>, t: Seq<char>)
    ensures
        names_repository(path + ".git"@),
        names_repository(t) ==> t.len() >= 4 && t[t.len() - 4] == '.' && t[t.len() - 3] == 'g'
            && t[t.len() - 2] == 'i' && t[t.len() - 1] == 't',
{
    reveal_strlit(".git");
    let p = path + ".git"@;
    assert(p.subrange(p.len() - 4, p.len() as int) =~= seq!['.', 'g', 'i', 't']);
    if names_repository(t) {
        let tail = t.subrange(t.len() - 4, t.len() as int);
        assert(tail[0] == '.' && tail[1] == 'g' && tail[2] == 'i' && tail[3] == 't');
    }
}

} // verus!
