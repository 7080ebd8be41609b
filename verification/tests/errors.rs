use deno_loader::error::create_js_error;
use deno_loader::error::create_resolve_js_error;
use deno_loader::error::deno_resolve_error_code;
use deno_loader::error::optional_dependency_lookup;
use deno_loader::error::resolve_with_graph_error_code;
use deno_loader::error::DenoResolveErrorKind;
use deno_loader::error::LoaderError;
use deno_loader::error::NodeJsErrorCode;
use deno_loader::error::ResolveWithGraphError;
use deno_loader::error::ResolveWithGraphErrorKind;
use deno_loader::error::UrlOrPath;
use deno_loader::package_json::PackageJson;
use deno_loader::response::Property;
use deno_loader::response::PropertyValue;

fn shown(properties: &[Property]) -> Vec<String> {
    properties
        .iter()
        .map(|property| match &property.value {
            PropertyValue::Text(text) => format!("{}={}", property.key, text),
            PropertyValue::Number(number) => format!("{}={}", property.key, number),
            PropertyValue::Flag(flag) => format!("{}={}", property.key, flag),
            PropertyValue::Bytes(bytes) => format!("{}={:?}", property.key, bytes),
        })
        .collect()
}

fn graph_error(kind: ResolveWithGraphErrorKind, specifier: Option<UrlOrPath>) -> LoaderError {
    LoaderError {
        messages: vec!["Cannot find module".to_string()],
        graph_error: Some(ResolveWithGraphError { kind, specifier }),
    }
}

fn not_found(specifier: Option<UrlOrPath>) -> LoaderError {
    graph_error(
        ResolveWithGraphErrorKind::CouldNotResolveNpmReqRef(NodeJsErrorCode::ModuleNotFound),
        specifier,
    )
}

fn optional(name: &str) -> Vec<Option<PackageJson>> {
    vec![Some(PackageJson {
        dependencies: None,
        peer_dependencies: None,
        peer_dependencies_meta: None,
        optional_dependencies: Some(vec![name.to_string()]),
    })]
}

#[test]
fn causes_follow_the_message() {
    let error = LoaderError::msg("inner".to_string()).context("middle").context("outer");
    assert_eq!(create_js_error(&error), "outer: middle: inner");
    assert_eq!(create_js_error(&LoaderError::msg("alone".to_string())), "alone");
}

#[test]
fn text_is_that_of_anyhow() {
    let outside = anyhow::Error::msg("inner").context("outer");
    let error = LoaderError::msg("inner".to_string()).context("outer");
    assert_eq!(create_js_error(&error), format!("{:#}", outside));
}

#[test]
fn codes_of_the_resolver() {
    let code = Some(NodeJsErrorCode::UnsupportedDirImport);
    assert_eq!(deno_resolve_error_code(&DenoResolveErrorKind::Node(code)), code);
    assert_eq!(deno_resolve_error_code(&DenoResolveErrorKind::ResolveNpmReqRef(code)), code);
    assert_eq!(deno_resolve_error_code(&DenoResolveErrorKind::Node(None)), None);
    for kind in [
        DenoResolveErrorKind::InvalidVendorFolderImport,
        DenoResolveErrorKind::UnsupportedPackageJsonFileSpecifier,
        DenoResolveErrorKind::CatalogPackageNotFound,
        DenoResolveErrorKind::MappedResolution,
        DenoResolveErrorKind::NodeModulesOutOfDate,
        DenoResolveErrorKind::PackageJsonDepValueParse,
        DenoResolveErrorKind::PackageJsonDepValueUrlParse,
        DenoResolveErrorKind::PathToUrl,
        DenoResolveErrorKind::ResolvePkgFolderFromDenoReq,
        DenoResolveErrorKind::WorkspaceResolvePkgJsonFolder,
    ] {
        assert_eq!(deno_resolve_error_code(&kind), None);
    }
}

#[test]
fn codes_of_the_graph() {
    let code = NodeJsErrorCode::InvalidPackageTarget;
    let inner = DenoResolveErrorKind::Node(Some(code));
    let cases = [
        (ResolveWithGraphErrorKind::CouldNotResolveNpmReqRef(code), Some(code)),
        (ResolveWithGraphErrorKind::ResolveNpmReqRef(Some(code)), Some(code)),
        (ResolveWithGraphErrorKind::ResolveNpmReqRef(None), None),
        (ResolveWithGraphErrorKind::Resolution(Some(inner)), Some(code)),
        (ResolveWithGraphErrorKind::Resolution(None), None),
        (ResolveWithGraphErrorKind::Resolve(inner), Some(code)),
        (ResolveWithGraphErrorKind::Resolve(DenoResolveErrorKind::PathToUrl), None),
        (ResolveWithGraphErrorKind::ManagedResolvePkgFolderFromDenoReq, None),
        (ResolveWithGraphErrorKind::ResolvePkgFolderFromDenoModule, None),
        (ResolveWithGraphErrorKind::PathToUrl, None),
    ];
    for (kind, expected) in cases {
        assert_eq!(resolve_with_graph_error_code(&kind), expected);
    }
}

#[test]
fn codes_have_the_names_of_node() {
    let names = [
        (NodeJsErrorCode::InvalidModuleSpecifier, "ERR_INVALID_MODULE_SPECIFIER"),
        (NodeJsErrorCode::InvalidPackageConfig, "ERR_INVALID_PACKAGE_CONFIG"),
        (NodeJsErrorCode::InvalidPackageTarget, "ERR_INVALID_PACKAGE_TARGET"),
        (NodeJsErrorCode::ModuleNotFound, "ERR_MODULE_NOT_FOUND"),
        (NodeJsErrorCode::PackageImportNotDefined, "ERR_PACKAGE_IMPORT_NOT_DEFINED"),
        (NodeJsErrorCode::PackagePathNotExported, "ERR_PACKAGE_PATH_NOT_EXPORTED"),
        (NodeJsErrorCode::UnknownFileExtension, "ERR_UNKNOWN_FILE_EXTENSION"),
        (NodeJsErrorCode::UnsupportedDirImport, "ERR_UNSUPPORTED_DIR_IMPORT"),
        (NodeJsErrorCode::UnsupportedEsmUrlScheme, "ERR_UNSUPPORTED_ESM_URL_SCHEME"),
        (NodeJsErrorCode::InvalidFileUrlPath, "ERR_INVALID_FILE_URL_PATH"),
        (NodeJsErrorCode::UnknownBuiltinModule, "ERR_UNKNOWN_BUILTIN_MODULE"),
        (NodeJsErrorCode::TypesNotFound, "ERR_TYPES_NOT_FOUND"),
    ];
    for (code, name) in names {
        assert_eq!(code.as_str(), name);
    }
}

#[test]
fn other_errors_have_no_properties() {
    let error = LoaderError::msg("boom".to_string());
    let referrer = Some("file:///main.ts".to_string());
    let value = create_resolve_js_error(&error, "x", &referrer, &optional("x"));
    assert_eq!(value.message, "boom");
    assert!(value.properties.is_empty());
    assert_eq!(optional_dependency_lookup(&error, &referrer), None);
}

#[test]
fn missing_optional_dependency_is_marked() {
    let error = not_found(Some(UrlOrPath::Url("file:///node_modules/x".to_string())));
    let referrer = Some("file:///dir/main.ts".to_string());
    assert_eq!(
        optional_dependency_lookup(&error, &referrer),
        Some("/dir/main.ts".to_string())
    );
    let value = create_resolve_js_error(&error, "x", &referrer, &optional("x"));
    assert_eq!(
        shown(&value.properties),
        vec![
            "code=ERR_MODULE_NOT_FOUND",
            "isOptionalDependency=true",
            "specifier=file:///node_modules/x",
        ]
    );
}

#[test]
fn missing_ordinary_dependency_is_not_marked() {
    let error = not_found(None);
    let referrer = Some("file:///dir/main.ts".to_string());
    let value = create_resolve_js_error(&error, "y", &referrer, &optional("x"));
    assert_eq!(shown(&value.properties), vec!["code=ERR_MODULE_NOT_FOUND"]);
}

#[test]
fn entrypoints_are_never_optional() {
    let error = not_found(None);
    assert_eq!(optional_dependency_lookup(&error, &None), None);
    let value = create_resolve_js_error(&error, "x", &None, &optional("x"));
    assert_eq!(shown(&value.properties), vec!["code=ERR_MODULE_NOT_FOUND"]);
}

#[test]
fn other_codes_are_never_optional() {
    let error = graph_error(
        ResolveWithGraphErrorKind::ResolveNpmReqRef(Some(
            NodeJsErrorCode::PackagePathNotExported,
        )),
        None,
    );
    let referrer = Some("file:///dir/main.ts".to_string());
    assert_eq!(optional_dependency_lookup(&error, &referrer), None);
    let value = create_resolve_js_error(&error, "x", &referrer, &optional("x"));
    assert_eq!(shown(&value.properties), vec!["code=ERR_PACKAGE_PATH_NOT_EXPORTED"]);
}

#[test]
fn remote_referrer_has_no_file() {
    let referrer = Some("https://deno.land/main.ts".to_string());
    assert_eq!(optional_dependency_lookup(&not_found(None), &referrer), None);
    let referrer = Some("no url".to_string());
    assert_eq!(optional_dependency_lookup(&not_found(None), &referrer), None);
}

#[test]
fn files_do_not_count_for_a_remote_referrer() {
    let referrer = Some("https://deno.land/main.ts".to_string());
    let value = create_resolve_js_error(&not_found(None), "x", &referrer, &optional("x"));
    assert_eq!(shown(&value.properties), vec!["code=ERR_MODULE_NOT_FOUND"]);
}

#[test]
fn path_of_an_error_becomes_a_url() {
    let error = graph_error(
        ResolveWithGraphErrorKind::PathToUrl,
        Some(UrlOrPath::Path("/dir/a b.ts".to_string())),
    );
    let value = create_resolve_js_error(&error, "x", &None, &Vec::new());
    assert_eq!(shown(&value.properties), vec!["specifier=file:///dir/a%20b.ts"]);
    let error = graph_error(
        ResolveWithGraphErrorKind::PathToUrl,
        Some(UrlOrPath::Path("relative.ts".to_string())),
    );
    let value = create_resolve_js_error(&error, "x", &None, &Vec::new());
    assert!(value.properties.is_empty());
}
