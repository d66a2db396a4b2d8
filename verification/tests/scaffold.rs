use xdp_tutorial::paths::ComponentKind;
use xdp_tutorial::scaffold::{
    add_plan, add_plan_with, init_plan, AddCommand, InitCommand, ScaffoldError,
};

fn init_cmd(tutorial_path: &str, rtp: Option<&str>, git_ref: Option<&str>) -> InitCommand {
    InitCommand {
        template_path: "templates/initial".to_string(),
        repository_template_path: rtp.map(|s| s.to_string()),
        git_ref: git_ref.map(|s| s.to_string()),
        tutorial_path: tutorial_path.to_string(),
    }
}

fn add_cmd(template: &str, tutorial: &str, rtp: Option<&str>, name: Option<&str>) -> AddCommand {
    AddCommand {
        template_path: template.to_string(),
        tutorial_path: tutorial.to_string(),
        repository_template_path: rtp.map(|s| s.to_string()),
        name: name.map(|s| s.to_string()),
    }
}

#[test]
fn init_in_current_dir_uses_default_project_name() {
    let plan = init_plan(init_cmd(".", None, None));
    assert_eq!(plan.template_path, "templates/initial");
    assert_eq!(plan.project_name.as_deref(), Some("xdp-tutorial-rust-sol"));
    assert_eq!(plan.repository_template_path, None);
    assert_eq!(plan.git_ref, None);
    assert_eq!(plan.target_dir, None);
    assert!(!plan.append);
    assert_eq!(plan.tutorial_name, None);
}

#[test]
fn init_elsewhere_names_project_after_path() {
    let plan = init_plan(init_cmd("my-tutorial", Some("templates/initial"), None));
    assert_eq!(plan.project_name.as_deref(), Some("my-tutorial"));
    assert_eq!(plan.repository_template_path.as_deref(), Some("templates/initial"));
}

#[test]
fn init_path_starting_with_dot_is_not_current_dir() {
    let plan = init_plan(init_cmd("./x", None, None));
    assert_eq!(plan.project_name.as_deref(), Some("./x"));
}

#[test]
fn init_git_ref_is_kept_beside_repository_path() {
    let plan = init_plan(init_cmd(".", Some("templates/initial"), Some("v0.1")));
    assert_eq!(plan.repository_template_path.as_deref(), Some("templates/initial"));
    assert_eq!(plan.git_ref.as_deref(), Some("v0.1"));
    let plan = init_plan(init_cmd(".", None, Some("main")));
    assert_eq!(plan.repository_template_path, None);
    assert_eq!(plan.git_ref.as_deref(), Some("main"));
}

#[test]
fn add_local_template_into_tutorial_dir() {
    let plan = add_plan(add_cmd(
        "templates/basic/basic-03",
        "work/tutorial",
        Some("ignored"),
        Some("basic-03"),
    ))
    .unwrap();
    assert_eq!(plan.template_path, "templates/basic/basic-03");
    assert_eq!(plan.repository_template_path, None);
    assert_eq!(plan.project_name.as_deref(), Some("tutorial"));
    assert_eq!(plan.target_dir.as_deref(), Some("work/tutorial"));
    assert!(plan.append);
    assert_eq!(plan.tutorial_name.as_deref(), Some("basic-03"));
}

#[test]
fn add_without_name_names_tutorial_after_template() {
    let plan = add_plan(add_cmd("templates/basic/basic-02", "tutorial/", None, None)).unwrap();
    assert_eq!(plan.project_name.as_deref(), Some("tutorial"));
    assert_eq!(plan.tutorial_name.as_deref(), Some("basic-02"));
    assert_eq!(plan.git_ref, None);
}

#[test]
fn add_without_name_prefers_repository_path() {
    let plan = add_plan(add_cmd(
        "https://github.com/xdp/tutorial.git",
        "tutorial",
        Some("templates/basic/basic-04/"),
        None,
    ))
    .unwrap();
    assert_eq!(plan.tutorial_name.as_deref(), Some("basic-04"));
}

#[test]
fn add_without_name_and_unnamed_path_leaves_parameter_open() {
    let plan = add_plan(add_cmd("..", "tutorial", None, None)).unwrap();
    assert_eq!(plan.tutorial_name, None);
}

#[test]
fn add_repository_template_keeps_inner_path() {
    let plan = add_plan(add_cmd("repo/.git", "tutorial", Some("templates/basic"), None)).unwrap();
    assert_eq!(plan.repository_template_path.as_deref(), Some("templates/basic"));
    let plan = add_plan(add_cmd(".git", "tutorial", None, None)).unwrap();
    assert_eq!(plan.repository_template_path, None);
}

#[test]
fn add_repository_url_keeps_inner_path() {
    let plan = add_plan(add_cmd(
        "https://github.com/xdp/tutorial.git",
        "tutorial",
        Some("templates/basic"),
        Some("basic-03"),
    ))
    .unwrap();
    assert_eq!(plan.repository_template_path.as_deref(), Some("templates/basic"));
    assert_eq!(plan.tutorial_name.as_deref(), Some("basic-03"));
    let plan = add_plan(add_cmd("repo.gi", "tutorial", Some("x"), None)).unwrap();
    assert_eq!(plan.repository_template_path, None);
    let plan = add_plan(add_cmd("git", "tutorial", Some("x"), None)).unwrap();
    assert_eq!(plan.repository_template_path, None);
}

#[test]
fn add_into_parent_dir_is_refused() {
    let res = add_plan(add_cmd("t", "work/..", None, None));
    assert!(matches!(res, Err(ScaffoldError::InvalidTargetDirectory)));
    assert_eq!(res.err().unwrap().message(), "Invalid Target directory!");
}

#[test]
fn add_into_root_or_current_dir_is_refused() {
    assert!(add_plan(add_cmd("t", "/", None, None)).is_err());
    assert!(add_plan(add_cmd("t", ".", None, None)).is_err());
    assert!(add_plan(add_cmd("t", "..", None, None)).is_err());
}

#[test]
fn add_with_empty_tutorial_path_names_no_project() {
    let plan = add_plan(add_cmd("t", "", None, None)).unwrap();
    assert_eq!(plan.project_name, None);
    assert_eq!(plan.target_dir.as_deref(), Some(""));
}

fn normal(text: &str) -> Option<(ComponentKind, String)> {
    Some((ComponentKind::Normal, text.to_string()))
}

#[test]
fn add_plan_with_given_components() {
    let cmd = add_cmd("r/.git", "x", Some("inner"), Some("n"));
    let plan = add_plan_with(cmd, normal("proj"), normal("inner")).unwrap();
    assert_eq!(plan.repository_template_path.as_deref(), Some("inner"));
    assert_eq!(plan.project_name.as_deref(), Some("proj"));
    assert_eq!(plan.target_dir.as_deref(), Some("x"));
    assert_eq!(plan.tutorial_name.as_deref(), Some("n"));

    let cmd = add_cmd("t", "x", Some("inner"), None);
    let plan = add_plan_with(cmd, None, normal("inner")).unwrap();
    assert_eq!(plan.repository_template_path, None);
    assert_eq!(plan.project_name, None);
    assert_eq!(plan.tutorial_name.as_deref(), Some("inner"));

    let cmd = add_cmd("t", "x", None, None);
    let plan = add_plan_with(cmd, normal("x"), Some((ComponentKind::CurDir, ".".to_string()))).unwrap();
    assert_eq!(plan.tutorial_name, None);

    for kind in [ComponentKind::Prefix, ComponentKind::RootDir, ComponentKind::CurDir, ComponentKind::ParentDir] {
        let cmd = add_cmd("t", "x", None, None);
        assert_eq!(
            add_plan_with(cmd, Some((kind, "..".to_string())), None).err(),
            Some(ScaffoldError::InvalidTargetDirectory)
        );
    }
}
