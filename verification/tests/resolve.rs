use deno_loader::error::create_js_error;
use deno_loader::error::LoaderError;
use deno_loader::error::NodeJsErrorCode;
use deno_loader::error::ResolveWithGraphError;
use deno_loader::error::ResolveWithGraphErrorKind;
use deno_loader::loader::DenoLoader;
use deno_loader::package_json::PackageJson;
use deno_loader::resolve::parse_resolution_mode;
use deno_loader::resolve::ResolutionMode;
use deno_loader::resolve::ResolveStep;

fn loader() -> DenoLoader {
    DenoLoader { initial_cwd: "/work".to_string() }
}

/// Runs a resolution against an outside world that answers as `answer` does, and
/// writes down what was asked of it.
fn run(
    mut step: ResolveStep,
    answer: fn(&str) -> Result<String, LoaderError>,
) -> (Vec<String>, Result<String, String>) {
    let mut asked = Vec::new();
    loop {
        step = match step {
            ResolveStep::ResolveEntrypoint(request, wait) => {
                asked.push(format!("entrypoint {} from {}", request.specifier, request.referrer));
                wait.resolved(answer(&request.specifier))
            }
            ResolveStep::ResolveWithGraph(request, keep, wait) => {
                asked.push(format!(
                    "graph {} from {} {}",
                    request.specifier,
                    request.referrer,
                    if keep { "kept" } else { "plain" }
                ));
                let key = if keep { request.specifier } else { format!("!{}", request.specifier) };
                wait.resolved(answer(&key))
            }
            ResolveStep::AddEntrypoint(url, wait) => {
                asked.push(format!("add {}", url));
                wait.added(answer(&format!("+{}", url)).map(|_| ()))
            }
            ResolveStep::Done(outcome) => {
                return (asked, outcome.map_err(|error| create_js_error(&error)));
            }
        };
    }
}

fn world(key: &str) -> Result<String, LoaderError> {
    match key {
        "./main.ts" => Ok("file:///work/main.ts".to_string()),
        "file:///work/main.ts" | "!file:///work/main.ts" => Ok("file:///work/main.ts".to_string()),
        "chalk" => Ok("npm:chalk@5".to_string()),
        "!chalk" => Ok("file:///node_modules/chalk/index.js".to_string()),
        "npm:chalk@5" => Ok("npm:chalk@5".to_string()),
        "!npm:chalk@5" => Ok("file:///node_modules/chalk/index.js".to_string()),
        "@std/fs" => Ok("jsr:@std/fs@1".to_string()),
        "!@std/fs" => Ok("https://jsr.io/@std/fs/1.0.0/mod.ts".to_string()),
        "+npm:chalk@5" | "+jsr:@std/fs@1" => Ok(String::new()),
        "half" => Ok("npm:@broken".to_string()),
        _ => Err(LoaderError::msg(format!("no {}", key))),
    }
}

fn importer() -> Option<String> {
    Some("file:///work/dir/a.ts".to_string())
}

#[test]
fn modes_by_number() {
    assert_eq!(parse_resolution_mode(0), ResolutionMode::Import);
    assert_eq!(parse_resolution_mode(1), ResolutionMode::Require);
    assert_eq!(parse_resolution_mode(2), ResolutionMode::Import);
    assert_eq!(parse_resolution_mode(255), ResolutionMode::Import);
}

#[test]
fn entrypoint_is_resolved_first() {
    let begun = loader().resolve_sync("./main.ts".to_string(), None, 0).ok().unwrap();
    assert_eq!(begun.call.importer, None);
    let (asked, outcome) = run(begun.step, world);
    assert_eq!(
        asked,
        vec![
            "entrypoint ./main.ts from file:///work/",
            "graph file:///work/main.ts from file:///work/ plain",
        ]
    );
    assert_eq!(outcome, Ok("file:///work/main.ts".to_string()));
}

#[test]
fn referrer_is_used_as_it_is() {
    let begun = loader().resolve("./main.ts".to_string(), importer(), 0).ok().unwrap();
    assert_eq!(begun.call.importer, importer());
    let (asked, _) = run(begun.step, world);
    assert_eq!(asked, vec!["graph ./main.ts from file:///work/dir/a.ts kept"]);
}

#[test]
fn mode_is_handed_on() {
    let begun = loader().resolve("x".to_string(), importer(), 1).ok().unwrap();
    match begun.step {
        ResolveStep::ResolveWithGraph(request, keep, wait) => {
            assert_eq!(request.mode, ResolutionMode::Require);
            assert!(keep);
            assert_eq!(wait.specifier, "x");
        }
        _ => panic!("the graph is asked"),
    }
}

#[test]
fn npm_package_is_added_and_resolved_again() {
    let begun = loader().resolve("chalk".to_string(), importer(), 0).ok().unwrap();
    let (asked, outcome) = run(begun.step, world);
    assert_eq!(
        asked,
        vec![
            "graph chalk from file:///work/dir/a.ts kept",
            "add npm:chalk@5",
            "graph chalk from file:///work/dir/a.ts plain",
        ]
    );
    assert_eq!(outcome, Ok("file:///node_modules/chalk/index.js".to_string()));
}

#[test]
fn jsr_package_is_added_and_resolved_again() {
    let begun = loader().resolve("@std/fs".to_string(), importer(), 0).ok().unwrap();
    let (asked, outcome) = run(begun.step, world);
    assert_eq!(asked[1], "add jsr:@std/fs@1");
    assert_eq!(outcome, Ok("https://jsr.io/@std/fs/1.0.0/mod.ts".to_string()));
}

#[test]
fn package_as_entrypoint_takes_the_longest_way() {
    let begun = loader().resolve("npm:chalk@5".to_string(), None, 0).ok().unwrap();
    let (asked, outcome) = run(begun.step, world);
    assert_eq!(
        asked,
        vec![
            "entrypoint npm:chalk@5 from file:///work/",
            "graph npm:chalk@5 from file:///work/ kept",
            "add npm:chalk@5",
            "entrypoint npm:chalk@5 from file:///work/",
            "graph npm:chalk@5 from file:///work/ plain",
        ]
    );
    assert_eq!(outcome, Ok("file:///node_modules/chalk/index.js".to_string()));
}

#[test]
fn resolve_sync_agrees_with_resolve() {
    let begun = loader().resolve("chalk".to_string(), importer(), 1).ok().unwrap();
    let (asked, first) = run(begun.step, world);
    let begun = loader().resolve_sync("chalk".to_string(), importer(), 1).ok().unwrap();
    let (again, second) = run(begun.step, world);
    assert_eq!(asked.last(), again.last());
    assert_eq!(again.len(), 1);
    assert_eq!(first, second);
}

#[test]
fn errors_are_reported_for_the_specifier_as_given() {
    let begun = loader()
        .resolve("x".to_string(), Some("/work/a.ts".to_string()), 0)
        .ok()
        .unwrap();
    assert_eq!(begun.call.specifier, "x");
    assert_eq!(begun.call.importer, Some("file:///work/a.ts".to_string()));
    let error = || LoaderError {
        messages: vec!["not found".to_string()],
        graph_error: Some(ResolveWithGraphError {
            kind: ResolveWithGraphErrorKind::CouldNotResolveNpmReqRef(
                NodeJsErrorCode::ModuleNotFound,
            ),
            specifier: None,
        }),
    };
    assert_eq!(
        begun.call.package_json_lookup(&error()),
        Some("/work/a.ts".to_string())
    );
    let file = PackageJson {
        dependencies: None,
        peer_dependencies: None,
        peer_dependencies_meta: None,
        optional_dependencies: Some(vec!["x".to_string()]),
    };
    let value = begun.call.result(Err(error()), &vec![Some(file)]).err().unwrap();
    assert_eq!(value.message, "not found");
    let keys: Vec<&str> = value.properties.iter().map(|property| property.key).collect();
    assert_eq!(keys, vec!["code", "isOptionalDependency"]);
    let found = begun.call.result(Ok("file:///x".to_string()), &Vec::new());
    assert_eq!(found.ok(), Some("file:///x".to_string()));
}

#[test]
fn resolve_sync_adds_nothing() {
    let begun = loader().resolve_sync("chalk".to_string(), importer(), 0).ok().unwrap();
    let (asked, outcome) = run(begun.step, world);
    assert_eq!(asked, vec!["graph chalk from file:///work/dir/a.ts plain"]);
    assert_eq!(outcome, Ok("file:///node_modules/chalk/index.js".to_string()));
}

#[test]
fn malformed_reference_is_not_added() {
    let begun = loader().resolve("half".to_string(), importer(), 0).ok().unwrap();
    let (asked, outcome) = run(begun.step, world);
    assert_eq!(asked.len(), 1);
    assert_eq!(outcome, Ok("npm:@broken".to_string()));
}

#[test]
fn backslash_entrypoint_skips_the_resolver() {
    let begun = loader().resolve_sync("a\\b.ts".to_string(), None, 0).ok().unwrap();
    let (asked, outcome) = run(begun.step, world);
    assert_eq!(asked, vec!["graph file:///work/a%5Cb.ts from file:///work/ plain"]);
    assert_eq!(outcome, Err("no !file:///work/a%5Cb.ts".to_string()));
}

#[test]
fn errors_end_a_resolution() {
    let begun = loader().resolve("missing".to_string(), importer(), 0).ok().unwrap();
    let (asked, outcome) = run(begun.step, world);
    assert_eq!(asked.len(), 1);
    assert_eq!(outcome, Err("no missing".to_string()));
    let begun = loader().resolve("missing".to_string(), None, 0).ok().unwrap();
    let (asked, outcome) = run(begun.step, world);
    assert_eq!(asked, vec!["entrypoint missing from file:///work/"]);
    assert_eq!(outcome, Err("no missing".to_string()));
}

#[test]
fn failed_addition_ends_a_resolution() {
    let begun = loader().resolve("chalk".to_string(), importer(), 0).ok().unwrap();
    let (asked, outcome) = run(begun.step, |key| match key {
        "chalk" => Ok("npm:chalk@4".to_string()),
        other => Err(LoaderError::msg(format!("no {}", other))),
    });
    assert_eq!(asked.len(), 2);
    assert_eq!(outcome, Err("no +npm:chalk@4".to_string()));
}

#[test]
fn bad_referrer_is_refused() {
    let begun = loader().resolve("x".to_string(), Some("http:".to_string()), 0);
    let value = begun.err().unwrap();
    assert_eq!(value.message, "empty host");
    assert!(value.properties.is_empty());
    let begun = loader().resolve_sync("x".to_string(), Some("relative.ts".to_string()), 0);
    assert_eq!(
        begun.err().map(|value| value.message),
        Some("Could not convert path to URL.\n  Path: relative.ts".to_string())
    );
}

#[test]
fn empty_referrer_makes_an_entrypoint() {
    let begun = loader().resolve_sync("./main.ts".to_string(), Some(String::new()), 0);
    assert!(matches!(begun.ok().unwrap().step, ResolveStep::ResolveEntrypoint(_, _)));
}

#[test]
fn directory_without_url_is_refused() {
    let loader = DenoLoader { initial_cwd: "nowhere".to_string() };
    let begun = loader.resolve_sync("./main.ts".to_string(), None, 0).ok().unwrap();
    let (asked, outcome) = run(begun.step, world);
    assert!(asked.is_empty());
    assert_eq!(outcome, Err("Could not convert path to URL.\n  Path: nowhere".to_string()));
}

#[test]
fn version_without_a_next_one_cannot_be_taken() {
    let takes = |url: &str, add: bool| {
        let begun = if add {
            loader().resolve("x".to_string(), importer(), 0)
        } else {
            loader().resolve_sync("x".to_string(), importer(), 0)
        };
        match begun.ok().unwrap().step {
            ResolveStep::ResolveWithGraph(_, _, wait) => wait.can_take(&Ok(url.to_string())),
            _ => panic!("the graph is asked"),
        }
    };
    for url in [
        "npm:a@~18446744073709551615",
        "npm:a@18446744073709551615",
        "jsr:@a/b@^0.18446744073709551615",
        "npm:a@1.18446744073709551615.x/sub",
    ] {
        assert!(!takes(url, true));
        assert!(takes(url, false));
    }
    for url in [
        "npm:a@~18446744073709551614",
        "npm:a@184467440737095516150",
        "npm:a@118446744073709551615",
        "npm:a18446744073709551615",
        "npm:a",
        "",
        "https://a.com/a@18446744073709551615",
    ] {
        assert!(takes(url, true));
    }
    let begun = loader().resolve("x".to_string(), importer(), 0).ok().unwrap();
    if let ResolveStep::ResolveWithGraph(_, _, wait) = begun.step {
        assert!(wait.can_take(&Err(LoaderError::msg("no x".to_string()))));
    }
}

#[test]
fn package_urls_are_left_alone_without_adding() {
    let url = "npm:a@~18446744073709551615";
    let begun = loader().resolve_sync("x".to_string(), importer(), 0).ok().unwrap();
    let ResolveStep::ResolveWithGraph(_, _, wait) = begun.step else {
        panic!("the graph is asked")
    };
    match wait.resolved(Ok(url.to_string())) {
        ResolveStep::Done(outcome) => assert_eq!(outcome.ok(), Some(url.to_string())),
        _ => panic!("nothing is added"),
    }
}
