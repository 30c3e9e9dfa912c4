use universal_deploy::{
    Action, DeployError, Deployment, Event, GitStep, Phase, ReleaseConfig, Resource, ToolConfig,
};

fn resource(file: &str, copy: Option<&str>) -> Resource {
    Resource { file: file.to_string(), copy_path: copy.map(|c| c.to_string()) }
}

fn release(clean: bool, merge: bool, resources: Vec<Resource>, tool: ToolConfig) -> ReleaseConfig {
    ReleaseConfig {
        clean,
        repository: "https://host/repo.git".to_string(),
        branch: "main".to_string(),
        merge,
        resources,
        tool,
        tag: false,
    }
}

fn no_tool() -> ToolConfig {
    ToolConfig::Simple(String::new())
}

/// Answers a `Resolve` with canonical paths equal to the joined ones.
fn resolved_inside(d: &Deployment, i: usize) -> Event {
    Event::Resolved {
        source: d.source_path(i),
        source_rest: String::new(),
        source_root: d.resources_dir.clone(),
        destination: d.destination_path(i),
        destination_rest: String::new(),
        destination_root: d.target.clone(),
    }
}

/// Answers a `Resolve` for a destination that does not exist yet.
fn resolved_to_ancestor(source: &str, destination: &str, rest: &str, root: &str) -> Event {
    Event::Resolved {
        source: source.to_string(),
        source_rest: String::new(),
        source_root: "/cfg/resources".to_string(),
        destination: destination.to_string(),
        destination_rest: rest.to_string(),
        destination_root: root.to_string(),
    }
}

fn is_git(a: &Action) -> bool {
    matches!(a, Action::Clone | Action::Status | Action::Fetch | Action::Merge)
}

#[test]
fn clean_run_clones_copies_and_removes() {
    let rel = release(true, false, vec![resource("a.txt", None)], no_tool());
    let mut d = Deployment::new(rel, "/cfg", "/work/0f1e2d3c-0000-4000-8000-000000000000".to_string(), false);
    assert_eq!(d.resources_dir, "/cfg/resources");
    assert!(matches!(d.step(Event::Begin), Action::Clone));
    assert!(matches!(d.step(Event::Exited(0)), Action::Resolve(0)));
    assert_eq!(d.source_path(0), "/cfg/resources/a.txt");
    assert_eq!(d.destination_path(0), "/work/0f1e2d3c-0000-4000-8000-000000000000/a.txt");
    let ev = resolved_inside(&d, 0);
    assert!(matches!(d.step(ev), Action::Copy(0)));
    assert!(matches!(d.step(Event::Copied), Action::Remove));
    assert!(matches!(d.step(Event::Removed), Action::Finish(Ok(()))));
    assert_eq!(d.phase, Phase::Done);
    assert!(d.removed);
}

#[test]
fn reuse_twice_without_merge_never_touches_git() {
    for _ in 0..2 {
        let rel = release(false, false, vec![resource("a.txt", Some("conf/a.txt"))], no_tool());
        let mut d = Deployment::new(rel, "/cfg", "/work".to_string(), false);
        let mut actions = Vec::new();
        let a = d.step(Event::Begin);
        assert!(matches!(a, Action::CheckMarker));
        let a = d.step(Event::Marker(true));
        assert!(matches!(a, Action::Resolve(0)));
        assert_eq!(d.destination_path(0), "/work/conf/a.txt");
        actions.push(a);
        let ev = resolved_inside(&d, 0);
        let a = d.step(ev);
        assert!(matches!(a, Action::Copy(0)));
        actions.push(a);
        let a = d.step(Event::Copied);
        assert!(matches!(a, Action::Finish(Ok(()))));
        actions.push(a);
        assert!(!actions.iter().any(is_git));
    }
}

#[test]
fn escaping_copy_path_is_refused() {
    let rel = release(true, false, vec![resource("a.txt", Some("../../escape.txt"))], no_tool());
    let mut d = Deployment::new(rel, "/cfg", "/work/id".to_string(), false);
    assert!(matches!(d.step(Event::Begin), Action::Clone));
    assert!(matches!(d.step(Event::Exited(0)), Action::Resolve(0)));
    assert_eq!(d.destination_path(0), "/work/id/../../escape.txt");
    // The nearest existing ancestor of the destination is `/`.
    let ev = resolved_to_ancestor("/cfg/resources/a.txt", "/", "escape.txt", "/work/id");
    match d.step(ev) {
        Action::Finish(Err(DeployError::PathTraversal { path, root })) => {
            assert_eq!(path, "/work/id/../../escape.txt");
            assert_eq!(root, "/work/id");
        }
        other => panic!("unexpected {:?}", other),
    }
    assert_eq!(d.phase, Phase::Done);
}

#[test]
fn escaping_source_file_is_refused() {
    let rel = release(false, false, vec![resource("../secret", None)], no_tool());
    let mut d = Deployment::new(rel, "/cfg", "/work".to_string(), false);
    d.step(Event::Begin);
    assert!(matches!(d.step(Event::Marker(true)), Action::Resolve(0)));
    assert_eq!(d.source_path(0), "/cfg/resources/../secret");
    let ev = Event::Resolved {
        source: "/cfg/secret".to_string(),
        source_rest: String::new(),
        source_root: "/cfg/resources".to_string(),
        destination: "/work".to_string(),
        destination_rest: "secret".to_string(),
        destination_root: "/work".to_string(),
    };
    match d.step(ev) {
        Action::Finish(Err(DeployError::PathTraversal { path, root })) => {
            assert_eq!(path, "/cfg/resources/../secret");
            assert_eq!(root, "/cfg/resources");
        }
        other => panic!("unexpected {:?}", other),
    }
}

#[test]
fn absolute_destination_is_refused() {
    let rel = release(false, false, vec![resource("a.txt", Some("/etc/passwd"))], no_tool());
    let mut d = Deployment::new(rel, "/cfg", "/work".to_string(), false);
    d.step(Event::Begin);
    assert!(matches!(d.step(Event::Marker(true)), Action::Resolve(0)));
    assert_eq!(d.destination_path(0), "/etc/passwd");
    let ev = resolved_to_ancestor("/cfg/resources/a.txt", "/etc/passwd", "", "/work");
    assert!(matches!(d.step(ev), Action::Finish(Err(DeployError::PathTraversal { .. }))));
}

#[test]
fn absolute_destination_inside_is_copied() {
    let rel = release(false, false, vec![resource("a.txt", Some("/work/conf/a.txt"))], no_tool());
    let mut d = Deployment::new(rel, "/cfg", "/work".to_string(), false);
    d.step(Event::Begin);
    assert!(matches!(d.step(Event::Marker(true)), Action::Resolve(0)));
    assert_eq!(d.destination_path(0), "/work/conf/a.txt");
    let ev = resolved_to_ancestor("/cfg/resources/a.txt", "/work", "conf/a.txt", "/work");
    assert!(matches!(d.step(ev), Action::Copy(0)));
}

#[test]
fn climbing_back_inside_is_copied() {
    let rel = release(false, false, vec![resource("a.txt", Some("../work/a.txt"))], no_tool());
    let mut d = Deployment::new(rel, "/cfg", "/srv/work".to_string(), false);
    d.step(Event::Begin);
    assert!(matches!(d.step(Event::Marker(true)), Action::Resolve(0)));
    assert_eq!(d.destination_path(0), "/srv/work/../work/a.txt");
    let ev = resolved_to_ancestor("/cfg/resources/a.txt", "/srv/work", "a.txt", "/srv/work");
    assert!(matches!(d.step(ev), Action::Copy(0)));
}

#[test]
fn climbing_beyond_missing_directory_is_refused() {
    let rel = release(false, false, vec![resource("a.txt", Some("newdir/../../x"))], no_tool());
    let mut d = Deployment::new(rel, "/cfg", "/work".to_string(), false);
    d.step(Event::Begin);
    assert!(matches!(d.step(Event::Marker(true)), Action::Resolve(0)));
    // `/work` exists, `newdir` does not: the rest climbs above the ancestor.
    let ev = resolved_to_ancestor("/cfg/resources/a.txt", "/work", "newdir/../../x", "/work");
    assert!(matches!(d.step(ev), Action::Finish(Err(DeployError::PathTraversal { .. }))));
}

#[test]
fn tool_that_cannot_start_still_removes_directory() {
    let rel = release(true, false, vec![], ToolConfig::Simple("no-such-tool".to_string()));
    let mut d = Deployment::new(rel, "/cfg", "/work/id".to_string(), false);
    d.step(Event::Begin);
    assert!(matches!(d.step(Event::Exited(0)), Action::RunTool));
    assert!(matches!(d.step(Event::Failed("not found".to_string())), Action::Remove));
    match d.step(Event::Removed) {
        Action::Finish(Err(DeployError::Io(m))) => assert_eq!(m, "not found"),
        other => panic!("unexpected {:?}", other),
    }
    assert!(d.removed);
}

#[test]
fn symlinked_destination_outside_is_refused() {
    let rel = release(false, false, vec![resource("a.txt", Some("link/a.txt"))], no_tool());
    let mut d = Deployment::new(rel, "/cfg", "/work".to_string(), false);
    d.step(Event::Begin);
    assert!(matches!(d.step(Event::Marker(true)), Action::Resolve(0)));
    let ev = Event::Resolved {
        source: "/cfg/resources/a.txt".to_string(),
        source_rest: String::new(),
        source_root: "/cfg/resources".to_string(),
        destination: "/elsewhere".to_string(),
        destination_rest: "a.txt".to_string(),
        destination_root: "/work".to_string(),
    };
    match d.step(ev) {
        Action::Finish(Err(DeployError::PathTraversal { path, root })) => {
            assert_eq!(path, "/work/link/a.txt");
            assert_eq!(root, "/work");
        }
        other => panic!("unexpected {:?}", other),
    }
}

#[test]
fn tool_failure_still_removes_directory() {
    let tool = ToolConfig::Full { command: "make".to_string(), arguments: vec!["deploy".to_string()] };
    let rel = release(true, false, vec![], tool);
    let mut d = Deployment::new(rel, "/cfg", "/work/id".to_string(), false);
    assert!(matches!(d.step(Event::Begin), Action::Clone));
    assert!(matches!(d.step(Event::Exited(0)), Action::RunTool));
    assert!(matches!(d.step(Event::Exited(2)), Action::Remove));
    assert_eq!(d.tool_code, Some(2));
    match d.step(Event::Removed) {
        Action::Finish(Err(DeployError::ToolFailed { tool, code })) => {
            assert_eq!(tool, "make deploy");
            assert_eq!(code, 2);
        }
        other => panic!("unexpected {:?}", other),
    }
}

#[test]
fn failed_removal_is_not_fatal() {
    let rel = release(true, false, vec![], ToolConfig::Simple("true".to_string()));
    let mut d = Deployment::new(rel, "/cfg", "/work/id".to_string(), false);
    d.step(Event::Begin);
    assert!(matches!(d.step(Event::Exited(0)), Action::RunTool));
    assert!(matches!(d.step(Event::Exited(0)), Action::Remove));
    assert!(matches!(d.step(Event::Failed("busy".to_string())), Action::Finish(Ok(()))));
    assert!(!d.removed);
}

#[test]
fn kept_checkout_is_not_removed() {
    let rel = release(true, false, vec![], no_tool());
    let mut d = Deployment::new(rel, "/cfg", "/work/id".to_string(), true);
    d.step(Event::Begin);
    assert!(matches!(d.step(Event::Exited(0)), Action::Finish(Ok(()))));
}

#[test]
fn dirty_tree_blocks_update() {
    let rel = release(false, true, vec![], no_tool());
    let mut d = Deployment::new(rel, "/cfg", "/work".to_string(), false);
    d.step(Event::Begin);
    assert!(matches!(d.step(Event::Marker(true)), Action::Status));
    assert!(matches!(
        d.step(Event::StatusOutput(b" M file.txt\n".to_vec())),
        Action::Finish(Err(DeployError::DirtyRepository))
    ));
}

#[test]
fn clean_tree_is_fetched_and_merged() {
    let rel = release(false, true, vec![], no_tool());
    let mut d = Deployment::new(rel, "/cfg", "/work".to_string(), false);
    d.step(Event::Begin);
    assert!(matches!(d.step(Event::Marker(true)), Action::Status));
    assert!(matches!(d.step(Event::StatusOutput(Vec::new())), Action::Fetch));
    assert!(matches!(d.step(Event::Exited(0)), Action::Merge));
    assert!(matches!(d.step(Event::Exited(0)), Action::Finish(Ok(()))));
}

#[test]
fn clean_merge_updates_after_clone() {
    let rel = release(true, true, vec![], no_tool());
    let mut d = Deployment::new(rel, "/cfg", "/work/id".to_string(), false);
    d.step(Event::Begin);
    assert!(matches!(d.step(Event::Exited(0)), Action::Status));
}

#[test]
fn missing_marker_clones_in_place() {
    let rel = release(false, true, vec![], no_tool());
    let mut d = Deployment::new(rel, "/cfg", "/work".to_string(), false);
    d.step(Event::Begin);
    assert!(matches!(d.step(Event::Marker(false)), Action::Clone));
    assert!(matches!(d.step(Event::Exited(0)), Action::Finish(Ok(()))));
}

#[test]
fn git_failures_carry_step_and_code() {
    let rel = release(true, false, vec![], no_tool());
    let mut d = Deployment::new(rel, "/cfg", "/w".to_string(), false);
    d.step(Event::Begin);
    assert!(matches!(
        d.step(Event::Exited(128)),
        Action::Finish(Err(DeployError::CheckoutFailed { step: GitStep::Clone, code: 128 }))
    ));

    let rel = release(false, true, vec![], no_tool());
    let mut d = Deployment::new(rel, "/cfg", "/w".to_string(), false);
    d.step(Event::Begin);
    d.step(Event::Marker(true));
    d.step(Event::StatusOutput(Vec::new()));
    assert!(matches!(
        d.step(Event::Exited(1)),
        Action::Finish(Err(DeployError::CheckoutFailed { step: GitStep::Fetch, code: 1 }))
    ));

    let rel = release(false, true, vec![], no_tool());
    let mut d = Deployment::new(rel, "/cfg", "/w".to_string(), false);
    d.step(Event::Begin);
    d.step(Event::Marker(true));
    d.step(Event::StatusOutput(Vec::new()));
    d.step(Event::Exited(0));
    assert!(matches!(
        d.step(Event::Exited(3)),
        Action::Finish(Err(DeployError::CheckoutFailed { step: GitStep::Merge, code: 3 }))
    ));
}

#[test]
fn outside_failure_ends_run() {
    let rel = release(false, false, vec![], no_tool());
    let mut d = Deployment::new(rel, "/cfg", "/w".to_string(), false);
    d.step(Event::Begin);
    match d.step(Event::Failed("denied".to_string())) {
        Action::Finish(Err(DeployError::Io(m))) => assert_eq!(m, "denied"),
        other => panic!("unexpected {:?}", other),
    }
}

#[test]
fn unexpected_event_ends_run() {
    let rel = release(false, false, vec![], no_tool());
    let mut d = Deployment::new(rel, "/cfg", "/w".to_string(), false);
    assert!(matches!(
        d.step(Event::Copied),
        Action::Finish(Err(DeployError::UnexpectedEvent))
    ));
    assert!(matches!(
        d.step(Event::Begin),
        Action::Finish(Err(DeployError::UnexpectedEvent))
    ));
}

#[test]
fn empty_tool_is_never_run() {
    let tool = ToolConfig::Full { command: String::new(), arguments: vec!["x".to_string()] };
    let rel = release(false, false, vec![], tool);
    let mut d = Deployment::new(rel, "/cfg", "/w".to_string(), false);
    d.step(Event::Begin);
    assert!(matches!(d.step(Event::Marker(true)), Action::Finish(Ok(()))));
    assert_eq!(d.tool_code, None);
}

#[test]
fn resources_are_taken_in_order() {
    let rel = release(
        false,
        false,
        vec![resource("a", None), resource("b", Some("sub/b")), resource("c/../../x", None)],
        no_tool(),
    );
    let mut d = Deployment::new(rel, "cfgdir", "/w/".to_string(), false);
    d.step(Event::Begin);
    assert!(matches!(d.step(Event::Marker(true)), Action::Resolve(0)));
    let ev = resolved_inside(&d, 0);
    d.step(ev);
    assert!(matches!(d.step(Event::Copied), Action::Resolve(1)));
    assert_eq!(d.destination_path(1), "/w/sub/b");
    let ev = resolved_inside(&d, 1);
    assert!(matches!(d.step(ev), Action::Copy(1)));
    assert!(matches!(d.step(Event::Copied), Action::Resolve(2)));
    assert_eq!(d.source_path(2), "cfgdir/resources/c/../../x");
}
