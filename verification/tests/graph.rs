use std::rc::Rc;

use deno_loader::error::create_js_error;
use deno_loader::error::LoaderError;
use deno_loader::graph::graph_build_settings;
use deno_loader::graph::graph_walk_settings;
use deno_loader::graph::EntrypointsStep;
use deno_loader::graph::GraphKind;
use deno_loader::graph::ModuleGraphCell;
use deno_loader::graph::NpmTypesResolutionMode;
use deno_loader::loader::DenoLoader;
use deno_loader::paths::EntrypointRequest;
use deno_loader::resolve::NodeResolutionKind;
use deno_loader::resolve::ResolutionMode;

fn loader() -> DenoLoader {
    DenoLoader { initial_cwd: "/work".to_string() }
}

#[test]
fn cell_gives_back_what_was_set() {
    let mut cell = ModuleGraphCell::new(vec![1]);
    let before = cell.get();
    let mut changed = cell.deep_clone();
    changed.push(2);
    assert_eq!(*cell.get(), vec![1]);
    cell.set(Rc::new(changed));
    assert_eq!(*cell.get(), vec![1, 2]);
    assert_eq!(*before, vec![1]);
    assert!(Rc::ptr_eq(&cell.get(), &cell.get()));
}

#[test]
fn failed_build_leaves_the_graph_alone() {
    let mut cell = ModuleGraphCell::new(vec![1]);
    let outcome = cell.take_build(Err(LoaderError::msg("offline".to_string())));
    assert_eq!(outcome.map_err(|err| create_js_error(&err)), Err("offline".to_string()));
    assert_eq!(*cell.get(), vec![1]);
    assert!(cell.take_build(Ok(vec![2])).is_ok());
    assert_eq!(*cell.get(), vec![2]);
}

#[test]
fn loaders_have_their_own_graphs() {
    let mut first = ModuleGraphCell::new(Vec::<u8>::new());
    assert!(first.take_build(Ok(vec![1])).is_ok());
    let mut second = ModuleGraphCell::new(Vec::<u8>::new());
    assert!(second.get().is_empty());
    assert_eq!(*first.get(), vec![1]);
    assert!(second.take_build(Ok(vec![2])).is_ok());
    assert_eq!(*first.get(), vec![1]);
    assert_eq!(*second.get(), vec![2]);
}

#[test]
fn lockfile_fills_only_an_empty_graph() {
    assert!(graph_build_settings(false, true).fill_from_lockfile);
    assert!(!graph_build_settings(true, true).fill_from_lockfile);
    assert!(!graph_build_settings(false, false).fill_from_lockfile);
    assert!(!graph_build_settings(true, false).fill_from_lockfile);
}

#[test]
fn text_and_bytes_can_be_imported() {
    let settings = graph_build_settings(false, false);
    assert!(settings.unstable_bytes_imports);
    assert!(settings.unstable_text_imports);
    assert!(!settings.unstable_css_imports);
    assert!(!settings.unstable_config_imports);
    assert!(!settings.is_dynamic);
    assert!(!settings.skip_dynamic_deps);
    assert!(!settings.passthrough_jsr_specifiers);
    assert!(!settings.include_npm_sources);
    assert_eq!(settings.npm_types, NpmTypesResolutionMode::FallbackToExecution);
    let walk = graph_walk_settings();
    assert_eq!(walk.kind, GraphKind::CodeOnly);
    assert!(walk.check_js);
    assert!(!walk.follow_dynamic);
    assert!(!walk.prefer_fast_check_graph);
}

#[test]
fn all_entrypoints_are_added_in_order() {
    let mut step = loader().add_entrypoints(vec!["a".to_string(), "b".to_string()]);
    let mut asked = Vec::new();
    loop {
        step = match step {
            EntrypointsStep::Resolve(entrypoint, wait) => {
                asked.push(entrypoint.clone());
                wait.resolved(Ok(format!("file:///{}", entrypoint)))
            }
            EntrypointsStep::Add(wait) => {
                assert_eq!(wait.urls, vec!["file:///a", "file:///b"]);
                wait.added(Ok(()))
            }
            EntrypointsStep::Walk(wait) => {
                assert_eq!(wait.urls, vec!["file:///a", "file:///b"]);
                wait.walked(vec!["no c".to_string()])
            }
            EntrypointsStep::Report(errors) => {
                assert_eq!(errors, vec!["no c"]);
                break;
            }
            EntrypointsStep::Fail(_) => panic!("no entrypoint fails"),
        };
    }
    assert_eq!(asked, vec!["a", "b"]);
}

#[test]
fn first_failure_adds_nothing() {
    let step = loader().add_entrypoints(vec!["a".to_string(), "b".to_string(), "c".to_string()]);
    let EntrypointsStep::Resolve(_, wait) = step else { panic!("an entrypoint comes first") };
    let EntrypointsStep::Resolve(second, wait) = wait.resolved(Ok("file:///a".to_string())) else {
        panic!("another entrypoint follows")
    };
    assert_eq!(second, "b");
    match wait.resolved(Err(LoaderError::msg("no b".to_string()))) {
        EntrypointsStep::Fail(error) => assert_eq!(create_js_error(&error), "no b"),
        _ => panic!("the error ends it"),
    }
}

#[test]
fn no_entrypoints_is_an_empty_addition() {
    assert!(
        matches!(loader().add_entrypoints(Vec::new()), EntrypointsStep::Add(wait) if wait.urls.is_empty())
    );
}

#[test]
fn failed_addition_is_the_result() {
    let EntrypointsStep::Add(wait) = loader().add_entrypoints(Vec::new()) else {
        panic!("nothing has to be found")
    };
    match wait.added(Err(LoaderError::msg("no lockfile".to_string()))) {
        EntrypointsStep::Fail(error) => assert_eq!(create_js_error(&error), "no lockfile"),
        _ => panic!("the error ends it"),
    }
}

#[test]
fn added_entrypoints_are_imported_from_the_directory() {
    match loader().entrypoint_request("./main.ts") {
        Ok(EntrypointRequest::Ask(request)) => {
            assert_eq!(request.specifier, "./main.ts");
            assert_eq!(request.referrer, "file:///work/");
            assert_eq!(request.mode, ResolutionMode::Import);
            assert_eq!(request.kind, NodeResolutionKind::Execution);
        }
        _ => panic!("the resolver is asked"),
    }
}
