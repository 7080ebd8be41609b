use std::collections::HashMap;

use deno_loader::error::create_js_error;
use deno_loader::error::LoaderError;
use deno_loader::load::cjs_question;
use deno_loader::load::module_kind;
use deno_loader::load::AwaitingFile;
use deno_loader::load::AwaitingModule;
use deno_loader::load::CjsQuestion;
use deno_loader::load::FetchedFile;
use deno_loader::load::LoadStep;
use deno_loader::load::ModuleKind;
use deno_loader::load::Prepared;
use deno_loader::load::RequestedModuleType;
use deno_loader::loader::DenoLoader;
use deno_loader::media::media_type_to_u8;
use deno_loader::media::MediaType;
use deno_loader::response::create_external_repsonse;
use deno_loader::response::create_module_response;
use deno_loader::response::Property;
use deno_loader::response::PropertyValue;

const MAP: &str = "//# sourceMappingURL=data:application/json;base64,e30=";

fn load(url: &str, requested: u8) -> LoadStep {
    DenoLoader { initial_cwd: "/work".to_string() }.load(url.to_string(), requested)
}

fn waiting(url: &str, requested: u8) -> AwaitingModule {
    match load(url, requested) {
        LoadStep::LoadModule(wait) => wait,
        _ => panic!("the module loader is asked"),
    }
}

fn waiting_file(url: &str, requested: u8) -> AwaitingFile {
    match waiting(url, requested).prepared(Prepared::Unprepared) {
        LoadStep::FetchFile(wait) => wait,
        _ => panic!("the file is fetched"),
    }
}

fn message(step: LoadStep) -> String {
    match step {
        LoadStep::Fail(error) => create_js_error(&error),
        _ => panic!("the load fails"),
    }
}

fn shown(properties: &[Property]) -> Vec<String> {
    properties
        .iter()
        .map(|property| match &property.value {
            PropertyValue::Text(text) => format!("{}={}", property.key, text),
            PropertyValue::Number(number) => format!("{}={}", property.key, number),
            PropertyValue::Flag(flag) => format!("{}={}", property.key, flag),
            PropertyValue::Bytes(bytes) => {
                format!("{}={}", property.key, String::from_utf8_lossy(bytes))
            }
        })
        .collect()
}

fn response(step: LoadStep) -> (Vec<String>, Option<String>) {
    match step {
        LoadStep::Respond(properties, released) => (shown(&properties), released),
        _ => panic!("the load responds"),
    }
}

fn file(url: &str, content_type: Option<&str>, source: &[u8]) -> FetchedFile {
    FetchedFile {
        url: url.to_string(),
        headers: content_type.map(|value| {
            let mut headers = HashMap::new();
            headers.insert("content-type".to_string(), value.to_string());
            headers
        }),
        source: source.to_vec(),
    }
}

#[test]
fn requested_types_by_number() {
    assert!(matches!(waiting("file:///a", 0).requested, RequestedModuleType::Unspecified));
    assert!(matches!(waiting("file:///a", 1).requested, RequestedModuleType::Json));
    assert!(matches!(waiting("file:///a", 2).requested, RequestedModuleType::Text));
    assert!(matches!(waiting("file:///a", 3).requested, RequestedModuleType::Bytes));
    for number in [4u8, 10, 99, 255] {
        assert_eq!(
            message(load("file:///a", number)),
            format!("Invalid requested module type: {}", number)
        );
    }
}

#[test]
fn bad_type_comes_before_bad_url() {
    assert_eq!(message(load("no url", 4)), "Invalid requested module type: 4");
    assert_eq!(message(load("no url", 0)), "relative URL without a base");
}

#[test]
fn urls_are_normalized() {
    let wait = waiting("HTTPS://Deno.land/a/../b", 0);
    assert_eq!(wait.url, "https://deno.land/b");
    assert_eq!(wait.scheme, "https");
}

#[test]
fn node_modules_are_external() {
    let (properties, released) = response(load("node:fs", 0));
    assert_eq!(properties, vec!["kind=external", "specifier=node:fs"]);
    assert_eq!(released, None);
    assert_eq!(shown(&create_external_repsonse("node:fs")), properties);
}

#[test]
fn jsr_urls_are_refused() {
    assert_eq!(
        message(load("jsr:@std/fs", 0)),
        "Failed loading 'jsr:@std/fs'. jsr: specifiers must be resolved to an https: specifier before being loaded."
    );
}

#[test]
fn unknown_npm_urls_are_refused() {
    assert_eq!(
        message(waiting("npm:chalk", 0).prepared(Prepared::Unprepared)),
        "Failed resolving 'npm:chalk'\n\nResolve the npm: specifier to a file: specifier before providing it to the loader."
    );
}

#[test]
fn prepared_module_is_handed_on_and_released() {
    let source = format!("a();\n{}", MAP);
    let step = waiting("file:///a.ts", 0).prepared(Prepared::Module {
        specifier: "file:///b.ts".to_string(),
        media_type: MediaType::TypeScript,
        source: source.clone().into_bytes(),
    });
    let (properties, released) = response(step);
    assert_eq!(
        properties,
        vec![
            "kind=module".to_string(),
            "specifier=file:///b.ts".to_string(),
            "mediaType=4".to_string(),
            format!("code={}", source),
            "sourceMap={}".to_string(),
        ]
    );
    assert_eq!(released, Some("file:///b.ts".to_string()));
}

#[test]
fn only_emitted_modules_have_source_maps() {
    let source = format!("a();\n{}", MAP);
    let js = create_module_response("file:///a.js", MediaType::JavaScript, source.as_bytes());
    assert_eq!(js.len(), 4);
    let tsx = create_module_response("file:///a.tsx", MediaType::Tsx, source.as_bytes());
    assert_eq!(tsx.len(), 5);
    let tsx = create_module_response("file:///a.tsx", MediaType::Tsx, b"a();");
    assert_eq!(tsx.len(), 4);
}

#[test]
fn module_loader_errors_are_passed_on() {
    let error = LoaderError::msg("inner".to_string()).context("outer");
    let step = waiting("file:///a.ts", 0).prepared(Prepared::Failed(error));
    assert_eq!(message(step), "outer: inner");
}

#[test]
fn assets_are_fetched_and_left_alone() {
    let asset = Prepared::ExternalAsset { specifier: "file:///a.css".to_string() };
    let wait = match waiting("file:///x", 2).prepared(asset) {
        LoadStep::FetchAsset(url, wait) => {
            assert_eq!(url, "file:///a.css");
            wait
        }
        _ => panic!("the asset is fetched"),
    };
    let (properties, released) = response(wait.fetched(Ok(file("file:///b.css", None, b"p {}"))));
    assert_eq!(
        properties,
        vec!["kind=module", "specifier=file:///b.css", "mediaType=11", "code=p {}"]
    );
    assert_eq!(released, None);
}

#[test]
fn asset_that_cannot_be_fetched() {
    let asset = || Prepared::ExternalAsset { specifier: "file:///a.css".to_string() };
    let LoadStep::FetchAsset(_, wait) = waiting("file:///x", 2).prepared(asset()) else {
        panic!("the asset is fetched")
    };
    assert_eq!(message(wait.fetched(Err(LoaderError::msg("gone".to_string())))), "gone");
    let LoadStep::FetchAsset(_, wait) = waiting("file:///x", 2).prepared(asset()) else {
        panic!("the asset is fetched")
    };
    assert_eq!(message(wait.fetched(Ok(file("no url", None, b"")))), "relative URL without a base");
}

#[test]
fn unknown_typescript_is_transpiled() {
    let wait = waiting_file("https://a.com/x.ts", 0);
    let step = wait.fetched(Ok(file("https://b.com/y", None, b"let a: number;")));
    let wait = match step {
        LoadStep::Transpile(text, wait) => {
            assert_eq!(text, "let a: number;");
            assert_eq!(wait.url, "https://b.com/y");
            assert_eq!(wait.media_type, MediaType::TypeScript);
            wait
        }
        _ => panic!("the source is transpiled"),
    };
    let (properties, _) = response(wait.transpiled(Ok(format!("let a;\n{}", MAP))));
    assert_eq!(properties[1], "specifier=https://b.com/y");
    assert_eq!(properties[2], "mediaType=4");
    assert_eq!(properties[3], format!("code=let a;\n{}", MAP));
    assert_eq!(properties[4], "sourceMap={}");
}

#[test]
fn malformed_text_is_replaced_before_transpiling() {
    let step = waiting_file("https://a.com/x.ts", 1).fetched(Ok(file(
        "https://a.com/x.ts",
        None,
        b"\"\xff\"",
    )));
    match step {
        LoadStep::Transpile(text, _) => assert_eq!(text, "\"\u{fffd}\""),
        _ => panic!("the source is transpiled"),
    }
}

#[test]
fn text_and_bytes_are_left_alone() {
    for requested in [2u8, 3] {
        let step = waiting_file("https://a.com/x.ts", requested).fetched(Ok(file(
            "https://a.com/x.ts",
            None,
            b"let a: number;",
        )));
        let (properties, _) = response(step);
        assert_eq!(properties[3], "code=let a: number;");
    }
}

#[test]
fn other_types_are_left_alone() {
    let step =
        waiting_file("https://a.com/x.js", 0).fetched(Ok(file("https://a.com/x.js", None, b"a();")));
    let (properties, _) = response(step);
    assert_eq!(
        properties,
        vec!["kind=module", "specifier=https://a.com/x.js", "mediaType=0", "code=a();"]
    );
}

#[test]
fn headers_decide_the_media_type() {
    let step = waiting_file("https://a.com/x", 0).fetched(Ok(file(
        "https://a.com/x",
        Some("application/typescript; charset=utf-8"),
        b"let a: number;",
    )));
    assert!(matches!(step, LoadStep::Transpile(_, wait) if wait.media_type == MediaType::TypeScript));
    let step =
        waiting_file("https://a.com/x", 0).fetched(Ok(file("https://a.com/x", None, b"")));
    assert_eq!(response(step).0[2], "mediaType=20");
}

#[test]
fn media_types_of_responses() {
    let cases = [
        ("js", 0), ("jsx", 1), ("mjs", 2), ("cjs", 3), ("ts", 4), ("mts", 5), ("cts", 6),
        ("d.ts", 7), ("d.mts", 8), ("d.cts", 9), ("tsx", 10), ("css", 11), ("json", 12),
        ("jsonc", 13), ("json5", 14), ("md", 16), ("wasm", 18), ("map", 19), ("zip", 20),
    ];
    for (extension, number) in cases {
        let url = format!("https://a.com/x.{}", extension);
        let (properties, _) = response(waiting_file(&url, 3).fetched(Ok(file(&url, None, b""))));
        assert_eq!(properties[2], format!("mediaType={}", number));
    }
}

#[test]
fn failures_on_the_way() {
    let step = waiting_file("https://a.com/x.ts", 0).fetched(Err(LoaderError::msg("404".to_string())));
    assert_eq!(message(step), "404");
    let step = waiting_file("https://a.com/x.ts", 0).fetched(Ok(file("https://a.com/x.ts", None, b"")));
    let LoadStep::Transpile(_, wait) = step else { panic!("the source is transpiled") };
    assert_eq!(message(wait.transpiled(Err(LoaderError::msg("syntax".to_string())))), "syntax");
}

#[test]
fn other_requests_are_transpiled_too() {
    let wait = AwaitingFile {
        url: "https://a.com/x.tsx".to_string(),
        requested: RequestedModuleType::Other("css".to_string()),
    };
    let step = wait.fetched_as(file("https://a.com/x.tsx", None, b"a"), MediaType::Tsx);
    assert!(matches!(step, LoadStep::Transpile(_, _)));
}

#[test]
fn media_type_numbers() {
    assert_eq!(media_type_to_u8(MediaType::JavaScript), 0);
    assert_eq!(media_type_to_u8(MediaType::Html), 15);
    assert_eq!(media_type_to_u8(MediaType::Sql), 17);
    assert_eq!(media_type_to_u8(MediaType::Unknown), 20);
}

#[test]
fn emittable_types_are_those_of_the_graph() {
    let types = [
        (MediaType::JavaScript, deno_graph::MediaType::JavaScript),
        (MediaType::Jsx, deno_graph::MediaType::Jsx),
        (MediaType::Mjs, deno_graph::MediaType::Mjs),
        (MediaType::Cjs, deno_graph::MediaType::Cjs),
        (MediaType::TypeScript, deno_graph::MediaType::TypeScript),
        (MediaType::Mts, deno_graph::MediaType::Mts),
        (MediaType::Cts, deno_graph::MediaType::Cts),
        (MediaType::Dts, deno_graph::MediaType::Dts),
        (MediaType::Dmts, deno_graph::MediaType::Dmts),
        (MediaType::Dcts, deno_graph::MediaType::Dcts),
        (MediaType::Tsx, deno_graph::MediaType::Tsx),
        (MediaType::Css, deno_graph::MediaType::Css),
        (MediaType::Json, deno_graph::MediaType::Json),
        (MediaType::Jsonc, deno_graph::MediaType::Jsonc),
        (MediaType::Json5, deno_graph::MediaType::Json5),
        (MediaType::Html, deno_graph::MediaType::Html),
        (MediaType::Markdown, deno_graph::MediaType::Markdown),
        (MediaType::Sql, deno_graph::MediaType::Sql),
        (MediaType::Wasm, deno_graph::MediaType::Wasm),
        (MediaType::SourceMap, deno_graph::MediaType::SourceMap),
        (MediaType::Unknown, deno_graph::MediaType::Unknown),
    ];
    for (own, outside) in types {
        assert_eq!(own.is_emittable(), outside.is_emittable());
    }
}

#[test]
fn module_kinds() {
    assert_eq!(cjs_question(None), CjsQuestion::MaybeCjs);
    assert_eq!(cjs_question(Some(true)), CjsQuestion::KnownScript(true));
    assert_eq!(module_kind(CjsQuestion::MaybeCjs, true, true), ModuleKind::Cjs);
    assert_eq!(module_kind(CjsQuestion::MaybeCjs, true, false), ModuleKind::Esm);
    assert_eq!(module_kind(CjsQuestion::MaybeCjs, false, true), ModuleKind::Esm);
    assert_eq!(module_kind(CjsQuestion::KnownScript(true), true, false), ModuleKind::Cjs);
    assert_eq!(module_kind(CjsQuestion::KnownScript(true), false, true), ModuleKind::Esm);
}
