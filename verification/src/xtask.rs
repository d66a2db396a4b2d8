//! The `xtask` helper of a tutorial project: `cargo xtask run <tutorial>`
//! builds the eBPF crate and the user-space runner of a tutorial and runs the
//! runner with the arguments given after `--`.
use vstd::prelude::*;

use crate::runner::{profile_name, profile_spec};
use crate::text::{join, seq_join};

verus! {

/// Options of the `run` command of the `xtask` helper.
pub struct Options {
    /// Set the name of the Userspace binary to run
    pub tutorial_name: String,
    /// Set the name of the program to run.
    pub program: String,
    /// Set the endianness of the BPF target
    pub bpf_target: String,
    /// Build and run the release target
    pub release: bool,
    /// The command used to wrap your application
    pub runner: String,
    /// Interface to attach the program to
    pub iface: String,
    /// Arguments to pass to your application
    pub run_args: Vec<String>,
}

/// Options of the runner of a tutorial.
pub struct RunOptions {
    /// Name of the tutorial to call the runner
    pub tutorial_name: String,
    /// Set the endianness of the BPF target
    pub target: String,
    /// Build the release target
    pub release: bool,
    /// Log Verbosity Level (default: info, '-v': debug, '-vv...': trace)
    pub verbosity: u8,
    /// Arguments to be passed to the runner
    pub run_args: Vec<String>,
}

/// The arguments with which `cargo` builds the user-space crates.
pub open spec fn cargo_build_args_spec(release: bool) -> Seq<Seq<char>> {
    if release {
        seq!["build"@, "--release"@]
    } else {
        seq!["build"@]
    }
}

/// The arguments of the `cargo` invocation that builds the user-space
/// application: `build`, and `--release` for a release build.
pub fn cargo_build_args(opts: &RunOptions) -> (args: Vec<String>)
    ensures
        args.deep_view() == cargo_build_args_spec(opts.release),
{
    let mut args: Vec<String> = Vec::new();
    args.push(String::from_str("build"));
    if opts.release {
        args.push(String::from_str("--release"));
    }
    assert(args.deep_view() =~= cargo_build_args_spec(opts.release));
    args
}

/// The log level the runner is started with for a verbosity count.
pub open spec fn log_level_spec(verbosity: u8) -> Seq<char> {
    if verbosity == 0 {
        "info"@
    } else if verbosity == 1 {
        "debug"@
    } else {
        "trace"@
    }
}

/// The log level for a number of `-v` flags: none gives `info`, one `debug`,
/// more `trace`.
pub fn log_level(verbosity: u8) -> (level: &'static str)
    ensures
        level@ == log_level_spec(verbosity),
{
    match verbosity {
        0 => "info",
        1 => "debug",
        _ => "trace",
    }
}

/// Where the build leaves the runner binary of a tutorial.
pub open spec fn runner_bin_path_spec(profile: Seq<char>, tutorial_name: Seq<char>) -> Seq<char> {
    "target/"@ + profile + "/"@ + tutorial_name + "-runner"@
}

/// How the `run` command runs the runner of a tutorial.
pub struct RunPlan {
    /// The cargo profile of the binaries that are built and run.
    pub profile: String,
    /// The runner binary.
    pub bin_path: String,
    /// The command line: the program to start, then its arguments.
    pub args: Vec<String>,
    /// The value given to `RUST_LOG`.
    pub log_level: &'static str,
}

/// The command line, binary and log level with which the runner of
/// `opts.tutorial_name` is run: `sudo -E <binary> <run args...>`.
pub fn run_plan(opts: &RunOptions) -> (plan: RunPlan)
    ensures
        plan.profile@ == profile_spec(opts.release),
        plan.bin_path@ == runner_bin_path_spec(profile_spec(opts.release), opts.tutorial_name@),
        plan.args.deep_view() == seq!["sudo"@, "-E"@, plan.bin_path@] + opts.run_args.deep_view(),
        plan.log_level@ == log_level_spec(opts.verbosity),
{
    let profile = profile_name(opts.release);
    let mut bin_path = String::from_str("target/");
    bin_path.append(profile);
    bin_path.append("/");
    bin_path.append(opts.tutorial_name.as_str());
    bin_path.append("-runner");
    let mut args: Vec<String> = Vec::new();
    args.push(String::from_str("sudo"));
    args.push(String::from_str("-E"));
    args.push(bin_path.clone());
    let ghost head = seq!["sudo"@, "-E"@, bin_path@];
    assert(args.deep_view() =~= head);
    let n: usize = opts.run_args.len();
    let mut i: usize = 0;
    while i < n
        invariant
            n == opts.run_args.len(),
            0 <= i <= n,
            args.deep_view() =~= head + opts.run_args.deep_view().take(i as int),
        decreases n - i,
    {
        let arg = opts.run_args[i].clone();
        assert(arg@ == opts.run_args.deep_view()[i as int]);
        let ghost before = args.deep_view();
        args.push(arg);
        assert(args.deep_view() =~= before.push(arg@));
        assert(args.deep_view() =~= head + opts.run_args.deep_view().take(i + 1));
        i = i + 1;
    }
    assert(opts.run_args.deep_view().take(n as int) =~= opts.run_args.deep_view());
    RunPlan { profile: String::from_str(profile), bin_path, args, log_level: log_level(opts.verbosity) }
}

/// The text of the error reported when the runner fails.
pub open spec fn run_failure_text(args: Seq<Seq<char>>) -> Seq<char> {
    "Failed to run `"@ + seq_join(args, " "@) + "`"@
}

/// The error message for a failed run of the command line `args`.
pub fn run_failure_message(args: &Vec<String>) -> (msg: String)
    ensures
        msg@ == run_failure_text(args.deep_view()),
{
    let mut msg = String::from_str("Failed to run `");
    let line = join(args, " ");
    msg.append(line.as_str());
    msg.append("`");
    msg
}

} // verus!
