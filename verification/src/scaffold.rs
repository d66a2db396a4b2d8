//! The `init` and `add` commands of `cargo xdp-tutorial`: which options the
//! scaffolding of a tutorial project (`init`) and of one tutorial into it
//! (`add`) runs with.
use vstd::prelude::*;

use crate::paths::{
    component_name, component_view, is_repository, last_component_kind, last_component_kind_spec,
    names_repository, ComponentKind,
};

verus! {

/// Arguments of the `init` command.
pub struct InitCommand {
    /// A Path to local directory or a git repository containing XDP Tutorial Templates.
    pub template_path: String,
    /// Path inside the root of the repository, if the given template path is a GIT repository.
    pub repository_template_path: Option<String>,
    /// Git Reference if the template-path is a repository (branch, tag or commit hash)
    pub git_ref: Option<String>,
    /// A Path to local directory where the templates should be instantiated
    pub tutorial_path: String,
}

/// Arguments of the `add` command.
pub struct AddCommand {
    /// Path to directory or a repository containing tutorial template.
    pub template_path: String,
    /// Path to the directory containing tutorial that was created using `init` command.
    pub tutorial_path: String,
    /// Path inside the root of the repository, if the given template path is a GIT repository.
    pub repository_template_path: Option<String>,
    /// Name to be given to the tutorial (defaults to the last element of the path of
    /// `template_path` or `repository_template_path`).
    pub name: Option<String>,
}

/// The options a scaffolding run is started with.
pub struct ScaffoldPlan {
    /// Where the template is: a directory, or a repository ending in `.git`.
    pub template_path: String,
    /// The path of the template inside the repository.
    pub repository_template_path: Option<String>,
    /// The branch, tag or commit of the repository to take the template from.
    pub git_ref: Option<String>,
    /// The name of the generated project, where it is fixed up front.
    pub project_name: Option<String>,
    /// The directory the project is generated in, where it is not the current one.
    pub target_dir: Option<String>,
    /// Whether files are added to an existing directory.
    pub append: bool,
    /// The value of the `tutorial_name` template parameter, where it is fixed up front.
    pub tutorial_name: Option<String>,
}

/// Errors of the scaffolding commands.
#[derive(Debug, PartialEq, Eq, Structural)]
pub enum ScaffoldError {
    /// The last component of the tutorial path is not a name (it is `..`, a
    /// root, ...).
    InvalidTargetDirectory,
}

impl ScaffoldError {
    /// The message of the error.
    pub fn message(&self) -> (msg: String)
        ensures
            msg@ == "Invalid Target directory!"@,
    {
        match self {
            ScaffoldError::InvalidTargetDirectory => String::from_str("Invalid Target directory!"),
        }
    }
}

/// The project name that `init` gives: the tutorial path as given, but for
/// the current directory `.`, which gives the default project name.
pub open spec fn init_project_name(tutorial_path: Seq<char>) -> Seq<char> {
    if tutorial_path == "."@ {
        "xdp-tutorial-rust-sol"@
    } else {
        tutorial_path
    }
}

/// The scaffolding options of the `init` command: the template (inside the
/// repository, at the git reference, where they are given) is instantiated
/// as a project named after the tutorial path.
pub fn init_plan(cmd: InitCommand) -> (plan: ScaffoldPlan)
    ensures
        plan.template_path@ == cmd.template_path@,
        plan.repository_template_path.deep_view() == cmd.repository_template_path.deep_view(),
        plan.git_ref.deep_view() == cmd.git_ref.deep_view(),
        plan.project_name.deep_view() == Some(init_project_name(cmd.tutorial_path@)),
        plan.target_dir is None,
        !plan.append,
        plan.tutorial_name is None,
{
    let here = String::from_str(".");
    let project_name = if cmd.tutorial_path == here {
        String::from_str("xdp-tutorial-rust-sol")
    } else {
        cmd.tutorial_path
    };
    ScaffoldPlan {
        template_path: cmd.template_path,
        repository_template_path: cmd.repository_template_path,
        git_ref: cmd.git_ref,
        project_name: Some(project_name),
        target_dir: None,
        append: false,
        tutorial_name: None,
    }
}

/// The path whose last element names the tutorial where no name is given:
/// the path inside the repository where one is given, else the template path.
pub open spec fn name_source(cmd: AddCommand) -> Seq<char> {
    match cmd.repository_template_path {
        Some(path) => path@,
        None => cmd.template_path@,
    }
}

/// What `add` does, given the last component of the tutorial path and that
/// of the path that names the tutorial by default (see `name_source`): it
/// fails where the tutorial path does not end in a name; else the project
/// takes that name (none where the path is empty), is appended into the
/// tutorial path, looks for the template inside the repository only where the
/// template is a git repository (its path ends in `.git`), and fixes the
/// `tutorial_name` parameter to the name given, or else to the last element
/// of the naming path where that is a name.
pub open spec fn add_plan_matches(
    cmd: AddCommand,
    tutorial_last: Option<(ComponentKind, Seq<char>)>,
    source_last: Option<(ComponentKind, Seq<char>)>,
    res: Result<ScaffoldPlan, ScaffoldError>,
) -> bool {
    let bad_target = tutorial_last is Some && component_name(tutorial_last) is None;
    match res {
        Err(e) => bad_target && e == ScaffoldError::InvalidTargetDirectory,
        Ok(plan) => {
            &&& !bad_target
            &&& plan.template_path@ == cmd.template_path@
            &&& plan.repository_template_path.deep_view() == (if names_repository(
                cmd.template_path@,
            ) {
                cmd.repository_template_path.deep_view()
            } else {
                None
            })
            &&& plan.git_ref is None
            &&& plan.project_name.deep_view() == component_name(tutorial_last)
            &&& plan.target_dir.deep_view() == Some(cmd.tutorial_path@)
            &&& plan.append
            &&& plan.tutorial_name.deep_view() == (match cmd.name {
                Some(name) => Some(name@),
                None => component_name(source_last),
            })
        },
    }
}

/// The scaffolding options of the `add` command, from the last components
/// of the tutorial path and of the naming path that `add_plan` finds out.
pub fn add_plan_with(
    cmd: AddCommand,
    tutorial_last: Option<(ComponentKind, String)>,
    source_last: Option<(ComponentKind, String)>,
) -> (res: Result<ScaffoldPlan, ScaffoldError>)
    ensures
        add_plan_matches(cmd, component_view(tutorial_last), component_view(source_last), res),
{
    let repository = is_repository(cmd.template_path.as_str());
    let repository_template_path = if repository {
        cmd.repository_template_path
    } else {
        None
    };
    let project_name = match tutorial_last {
        None => None,
        Some((ComponentKind::Normal, name)) => Some(name),
        Some(_) => {
            return Err(ScaffoldError::InvalidTargetDirectory);
        },
    };
    let tutorial_name = match cmd.name {
        Some(name) => Some(name),
        None => match source_last {
            Some((ComponentKind::Normal, name)) => Some(name),
            _ => None,
        },
    };
    Ok(
        ScaffoldPlan {
            template_path: cmd.template_path,
            repository_template_path,
            git_ref: None,
            project_name,
            target_dir: Some(cmd.tutorial_path),
            append: true,
            tutorial_name,
        },
    )
}

/// The scaffolding options of the `add` command: the project is named after
/// the last component of the tutorial path, and the tutorial, where no name
/// is given, after the last component of the naming path.
pub fn add_plan(cmd: AddCommand) -> (res: Result<ScaffoldPlan, ScaffoldError>)
    ensures
        add_plan_matches(
            cmd,
            last_component_kind_spec(cmd.tutorial_path@),
            last_component_kind_spec(name_source(cmd)),
            res,
        ),
{
    let tutorial_last = last_component_kind(cmd.tutorial_path.as_str());
    let source_last = match &cmd.repository_template_path {
        Some(path) => last_component_kind(path.as_str()),
        None => last_component_kind(cmd.template_path.as_str()),
    };
    add_plan_with(cmd, tutorial_last, source_last)
}

} // verus!
