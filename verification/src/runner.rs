//! What the user-space XDP runners of the tutorial templates have in common:
//! the XDP action to attach, the build profile, where the compiled eBPF object
//! lies, and the errors a runner reports.
use vstd::prelude::*;

use crate::text::{join, seq_join};

verus! {

/// Kernel code of the `XDP_DROP` action.
pub const XDP_DROP: u32 = 1;
/// Kernel code of the `XDP_PASS` action.
pub const XDP_PASS: u32 = 2;

/// The XDP action whose program a runner attaches.
#[derive(Clone, Copy, Debug, PartialEq, Eq, Structural)]
pub enum XdpAction {
    /// Select the XDP_PASS action
    Pass,
    /// Select the XDP_DROP action
    Drop,
}

impl Default for XdpAction {
    fn default() -> (action: Self)
        ensures
            action == XdpAction::Pass,
    {
        XdpAction::Pass
    }
}

/// The kernel code of an action: the index of its slot in the statistics map.
pub open spec fn action_code(action: XdpAction) -> u32 {
    match action {
        XdpAction::Pass => XDP_PASS,
        XdpAction::Drop => XDP_DROP,
    }
}

/// The short name under which an action is reported.
pub open spec fn action_name(action: XdpAction) -> Seq<char> {
    match action {
        XdpAction::Pass => "pass"@,
        XdpAction::Drop => "drop"@,
    }
}

/// The name of the cargo profile a binary is built with.
pub open spec fn profile_spec(release: bool) -> Seq<char> {
    if release {
        "release"@
    } else {
        "debug"@
    }
}

/// `"release"` for a release build, `"debug"` otherwise.
pub fn profile_name(release: bool) -> (profile: &'static str)
    ensures
        profile@ == profile_spec(release),
{
    if release {
        "release"
    } else {
        "debug"
    }
}

/// Where the build of the eBPF crate leaves the object file `file`.
pub open spec fn ebpf_object_path_spec(profile: Seq<char>, file: Seq<char>) -> Seq<char> {
    "target/bpfel-unknown-none/"@ + profile + "/"@ + file
}

/// The path of the compiled eBPF object `file` for the given profile:
/// `target/bpfel-unknown-none/<profile>/<file>`.
pub fn ebpf_object_path(release: bool, file: &str) -> (path: String)
    ensures
        path@ == ebpf_object_path_spec(profile_spec(release), file@),
{
    let mut path = String::from_str("target/bpfel-unknown-none/");
    path.append(profile_name(release));
    path.append("/");
    path.append(file);
    path
}

/// Errors that a runner reports.
#[derive(Debug)]
pub enum RunnerError {
    /// The eBPF object holds no program of the requested name.
    ProgramNotFound {
        /// The program that was asked for.
        program: String,
        /// The eBPF object file that was loaded.
        file: String,
        /// The names of the programs that the object does hold.
        available: Vec<String>,
    },
    /// The statistics map has not been pinned by an earlier `pin` command.
    MapNotPinned,
}

/// The text of the error about a program missing from an object file.
pub open spec fn program_not_found_text(
    program: Seq<char>,
    file: Seq<char>,
    available: Seq<Seq<char>>,
) -> Seq<char> {
    "Unable to find the program '"@ + program + "' in the loaded file '"@ + file
        + "'. Available programs are: "@ + seq_join(available, ", "@)
}

/// The text of the error about the statistics map not being pinned.
pub open spec fn map_not_pinned_text() -> Seq<char> {
    "Map PINNED_PERCPU_ARRAY is not pinned. Please run 'pin --action <action>' to pin the map."@
}

impl RunnerError {
    /// What the error says.
    pub open spec fn text(&self) -> Seq<char> {
        match self {
            RunnerError::ProgramNotFound { program, file, available } => program_not_found_text(
                program@,
                file@,
                available.deep_view(),
            ),
            RunnerError::MapNotPinned => map_not_pinned_text(),
        }
    }

    /// The message of the error, as the runner prints it.
    pub fn message(&self) -> (msg: String)
        ensures
            msg@ == self.text(),
    {
        match self {
            RunnerError::ProgramNotFound { program, file, available } => {
                let mut msg = String::from_str("Unable to find the program '");
                msg.append(program.as_str());
                msg.append("' in the loaded file '");
                msg.append(file.as_str());
                msg.append("'. Available programs are: ");
                let list = join(available, ", ");
                msg.append(list.as_str());
                msg
            },
            RunnerError::MapNotPinned => String::from_str(
                "Map PINNED_PERCPU_ARRAY is not pinned. Please run 'pin --action <action>' to pin the map.",
            ),
        }
    }
}

} // verus!
