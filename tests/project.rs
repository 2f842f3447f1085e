use next_build_core::options::{NapiEntrypointsOptions, NapiProjectOptions, ProjectOptions};
use next_build_core::project::{is_nested_path, project_new, ConfigError, Project};

fn options(root: &str, project: &str) -> ProjectOptions {
    ProjectOptions { root_path: root.to_string(), project_path: project.to_string(), watch: true }
}

#[test]
fn project_under_root_is_built() {
    let p = Project::new(options("/repo", "/repo/app"), 4096).unwrap();
    assert_eq!(p.root_path(), "/repo");
    assert_eq!(p.project_path(), "/repo/app");
    assert!(p.watch());
    assert_eq!(p.memory_budget(), 4096);
}

#[test]
fn project_equal_to_root_is_built() {
    assert!(Project::new(options("/repo", "/repo"), 1).is_ok());
    assert!(Project::new(options("/repo/", "/repo/app"), 1).is_ok());
}

#[test]
fn project_outside_root_is_refused() {
    for (root, project) in [
        ("/repo", "/other/app"),
        ("/repo", "/repository"),
        ("/repo/app", "/repo"),
        ("/repo", "/repo/../etc"),
        ("/repo", "/repo/app/.."),
        ("/repo", ""),
    ] {
        assert_eq!(
            Project::new(options(root, project), 1).err(),
            Some(ConfigError::ProjectPathOutsideRoot),
            "{} under {}",
            project,
            root
        );
    }
}

#[test]
fn dots_inside_names_are_not_parent_segments() {
    assert!(is_nested_path("/repo/a..b/c", "/repo"));
    assert!(is_nested_path("/repo/..hidden", "/repo"));
    assert!(!is_nested_path("/repo/x/../y", "/repo"));
}

#[test]
fn project_new_uses_memory_limit() {
    let p = project_new(NapiProjectOptions {
        root_path: "/repo".to_string(),
        project_path: "/repo/app".to_string(),
        watch: false,
        memory_limit: Some(1 << 30),
    })
    .unwrap();
    assert_eq!(p.memory_budget(), 1 << 30);
    assert!(!p.watch());
    let unbounded = project_new(NapiProjectOptions {
        root_path: "/repo".to_string(),
        project_path: "/repo/app".to_string(),
        watch: true,
        memory_limit: None,
    })
    .unwrap();
    assert_eq!(unbounded.memory_budget(), usize::MAX);
}

#[test]
fn project_new_refuses_path_outside_root() {
    let r = project_new(NapiProjectOptions {
        root_path: "/repo".to_string(),
        project_path: "/elsewhere".to_string(),
        watch: true,
        memory_limit: Some(10),
    });
    assert_eq!(r.err(), Some(ConfigError::ProjectPathOutsideRoot));
}

#[test]
fn options_convert_field_for_field() {
    let o = NapiProjectOptions {
        root_path: "/r".to_string(),
        project_path: "/r/p".to_string(),
        watch: true,
        memory_limit: Some(5),
    };
    assert_eq!(o.memory_budget(), 5);
    let p = o.into();
    assert_eq!(p.root_path, "/r");
    assert_eq!(p.project_path, "/r/p");
    assert!(p.watch);
    let e = NapiEntrypointsOptions { page_extensions: vec!["tsx".to_string(), "js".to_string()] }
        .into();
    assert_eq!(e.page_extensions, vec!["tsx".to_string(), "js".to_string()]);
}
