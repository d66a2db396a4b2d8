use xdp_tutorial::xtask::{
    cargo_build_args, log_level, run_failure_message, run_plan, Options, RunOptions,
};

fn run_opts(name: &str, release: bool, verbosity: u8, args: &[&str]) -> RunOptions {
    RunOptions {
        tutorial_name: name.to_string(),
        target: "bpfel-unknown-none".to_string(),
        release,
        verbosity,
        run_args: args.iter().map(|s| s.to_string()).collect(),
    }
}

#[test]
fn cargo_build_arguments() {
    assert_eq!(cargo_build_args(&run_opts("t", false, 0, &[])), vec!["build"]);
    assert_eq!(cargo_build_args(&run_opts("t", true, 0, &[])), vec!["build", "--release"]);
}

#[test]
fn verbosity_selects_log_level() {
    assert_eq!(log_level(0), "info");
    assert_eq!(log_level(1), "debug");
    assert_eq!(log_level(2), "trace");
    assert_eq!(log_level(255), "trace");
}

#[test]
fn run_plan_debug() {
    let plan = run_plan(&run_opts("basic-02", false, 1, &["--program", "basic_02_pass"]));
    assert_eq!(plan.profile, "debug");
    assert_eq!(plan.bin_path, "target/debug/basic-02-runner");
    assert_eq!(
        plan.args,
        vec!["sudo", "-E", "target/debug/basic-02-runner", "--program", "basic_02_pass"]
    );
    assert_eq!(plan.log_level, "debug");
}

#[test]
fn run_plan_release_without_args() {
    let plan = run_plan(&run_opts("basic-03", true, 0, &[]));
    assert_eq!(plan.bin_path, "target/release/basic-03-runner");
    assert_eq!(plan.args, vec!["sudo", "-E", "target/release/basic-03-runner"]);
    assert_eq!(plan.log_level, "info");
}

#[test]
fn run_uses_the_profile_it_built() {
    for release in [false, true] {
        let opts = run_opts("t", release, 0, &[]);
        let built_release = cargo_build_args(&opts).iter().any(|a| a == "--release");
        assert_eq!(built_release, run_plan(&opts).profile == "release");
    }
}

#[test]
fn run_failure_message_shows_command_line() {
    let args = vec!["sudo".to_string(), "-E".to_string(), "target/debug/x-runner".to_string()];
    assert_eq!(run_failure_message(&args), "Failed to run `sudo -E target/debug/x-runner`");
}

#[test]
fn options_hold_their_values() {
    let opts = Options {
        tutorial_name: "basic-02".to_string(),
        program: "basic_02_pass".to_string(),
        bpf_target: "bpfel-unknown-none".to_string(),
        release: false,
        runner: "sudo -E".to_string(),
        iface: "lo".to_string(),
        run_args: vec![],
    };
    assert_eq!(opts.tutorial_name, "basic-02");
    assert_eq!(opts.runner, "sudo -E");
}
