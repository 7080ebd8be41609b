//! Errors, and what JavaScript sees of them.

use vstd::prelude::*;
use vstd::string::StringExecFns;

use crate::host::node_error_code_name;
use crate::host::url_from_file_path;
use crate::host::url_to_file_path;
use crate::package_json::is_optional_npm_dep;
use crate::package_json::PackageJson;
use crate::response::Property;
use crate::response::PropertyContent;
use crate::response::PropertyValue;

verus! {

/// The error codes of Node.
#[derive(Clone, Copy, Debug, PartialEq, Eq, Structural)]
pub enum NodeJsErrorCode {
    InvalidModuleSpecifier,
    InvalidPackageConfig,
    InvalidPackageTarget,
    ModuleNotFound,
    PackageImportNotDefined,
    PackagePathNotExported,
    UnknownFileExtension,
    UnsupportedDirImport,
    UnsupportedEsmUrlScheme,
    InvalidFileUrlPath,
    UnknownBuiltinModule,
    TypesNotFound,
}

impl NodeJsErrorCode {
    /// The name that Node gives the code.
    pub open spec fn name(self) -> Seq<char> {
        match self {
            NodeJsErrorCode::InvalidModuleSpecifier => "ERR_INVALID_MODULE_SPECIFIER"@,
            NodeJsErrorCode::InvalidPackageConfig => "ERR_INVALID_PACKAGE_CONFIG"@,
            NodeJsErrorCode::InvalidPackageTarget => "ERR_INVALID_PACKAGE_TARGET"@,
            NodeJsErrorCode::ModuleNotFound => "ERR_MODULE_NOT_FOUND"@,
            NodeJsErrorCode::PackageImportNotDefined => "ERR_PACKAGE_IMPORT_NOT_DEFINED"@,
            NodeJsErrorCode::PackagePathNotExported => "ERR_PACKAGE_PATH_NOT_EXPORTED"@,
            NodeJsErrorCode::UnknownFileExtension => "ERR_UNKNOWN_FILE_EXTENSION"@,
            NodeJsErrorCode::UnsupportedDirImport => "ERR_UNSUPPORTED_DIR_IMPORT"@,
            NodeJsErrorCode::UnsupportedEsmUrlScheme => "ERR_UNSUPPORTED_ESM_URL_SCHEME"@,
            NodeJsErrorCode::InvalidFileUrlPath => "ERR_INVALID_FILE_URL_PATH"@,
            NodeJsErrorCode::UnknownBuiltinModule => "ERR_UNKNOWN_BUILTIN_MODULE"@,
            NodeJsErrorCode::TypesNotFound => "ERR_TYPES_NOT_FOUND"@,
        }
    }

    /// The name that Node gives the code.
    pub fn as_str(self) -> (name: &'static str)
        ensures
            name@ == self.name(),
    {
        node_error_code_name(self)
    }
}

/// Why a specifier could not be resolved, with the code of the error inside
/// where there is one.
#[derive(Clone, Copy, Debug, PartialEq, Eq, Structural)]
pub enum DenoResolveErrorKind {
    InvalidVendorFolderImport,
    UnsupportedPackageJsonFileSpecifier,
    CatalogPackageNotFound,
    MappedResolution,
    Node(Option<NodeJsErrorCode>),
    NodeModulesOutOfDate,
    PackageJsonDepValueParse,
    PackageJsonDepValueUrlParse,
    PathToUrl,
    ResolveNpmReqRef(Option<NodeJsErrorCode>),
    ResolvePkgFolderFromDenoReq,
    WorkspaceResolvePkgJsonFolder,
}

/// Why a specifier could not be resolved with the module graph. `Resolution`
/// holds the resolver's own error where the graph passes one on.
#[derive(Clone, Copy, Debug, PartialEq, Eq, Structural)]
pub enum ResolveWithGraphErrorKind {
    CouldNotResolveNpmReqRef(NodeJsErrorCode),
    ManagedResolvePkgFolderFromDenoReq,
    ResolvePkgFolderFromDenoModule,
    ResolveNpmReqRef(Option<NodeJsErrorCode>),
    Resolution(Option<DenoResolveErrorKind>),
    Resolve(DenoResolveErrorKind),
    PathToUrl,
}

impl DenoResolveErrorKind {
    /// The code of the error: that of Node's resolution or of an npm reference.
    pub open spec fn code(self) -> Option<NodeJsErrorCode> {
        match self {
            DenoResolveErrorKind::Node(code) => code,
            DenoResolveErrorKind::ResolveNpmReqRef(code) => code,
            _ => None,
        }
    }
}

impl ResolveWithGraphErrorKind {
    /// The code of the error, if it has one.
    pub open spec fn code(self) -> Option<NodeJsErrorCode> {
        match self {
            ResolveWithGraphErrorKind::CouldNotResolveNpmReqRef(code) => Some(code),
            ResolveWithGraphErrorKind::ResolveNpmReqRef(code) => code,
            ResolveWithGraphErrorKind::Resolution(Some(kind)) => kind.code(),
            ResolveWithGraphErrorKind::Resolve(kind) => kind.code(),
            _ => None,
        }
    }
}

/// The code of an error of the resolver, if it has one.
pub fn deno_resolve_error_code(err: &DenoResolveErrorKind) -> (code: Option<NodeJsErrorCode>)
    ensures
        code == err.code(),
{
    match *err {
        DenoResolveErrorKind::InvalidVendorFolderImport
        | DenoResolveErrorKind::UnsupportedPackageJsonFileSpecifier => None,
        DenoResolveErrorKind::MappedResolution => None,
        DenoResolveErrorKind::Node(code) => code,
        DenoResolveErrorKind::ResolveNpmReqRef(code) => code,
        DenoResolveErrorKind::NodeModulesOutOfDate
        | DenoResolveErrorKind::PackageJsonDepValueParse
        | DenoResolveErrorKind::PackageJsonDepValueUrlParse
        | DenoResolveErrorKind::PathToUrl
        | DenoResolveErrorKind::ResolvePkgFolderFromDenoReq
        | DenoResolveErrorKind::CatalogPackageNotFound
        | DenoResolveErrorKind::WorkspaceResolvePkgJsonFolder => None,
    }
}

/// The code of an error of a resolution with the module graph, if it has one.
pub fn resolve_with_graph_error_code(err: &ResolveWithGraphErrorKind) -> (code: Option<
    NodeJsErrorCode,
>)
    ensures
        code == err.code(),
{
    match *err {
        ResolveWithGraphErrorKind::CouldNotResolveNpmReqRef(code) => Some(code),
        ResolveWithGraphErrorKind::ManagedResolvePkgFolderFromDenoReq => None,
        ResolveWithGraphErrorKind::ResolvePkgFolderFromDenoModule => None,
        ResolveWithGraphErrorKind::ResolveNpmReqRef(code) => code,
        ResolveWithGraphErrorKind::Resolution(kind) => match kind {
            Some(kind) => deno_resolve_error_code(&kind),
            None => None,
        },
        ResolveWithGraphErrorKind::Resolve(kind) => deno_resolve_error_code(&kind),
        ResolveWithGraphErrorKind::PathToUrl => None,
    }
}

/// A place that an error speaks of.
pub enum UrlOrPath {
    Url(String),
    Path(String),
}

impl UrlOrPath {
    /// Whether a host can answer `outcome` when asked for the URL of this place.
    pub open spec fn has_url(self, outcome: Result<Seq<char>, Seq<char>>) -> bool {
        match self {
            UrlOrPath::Url(url) => outcome == Ok::<Seq<char>, Seq<char>>(url@),
            UrlOrPath::Path(path) => crate::host::is_url_of_file(path@, outcome),
        }
    }

    /// The URL of this place: itself, or that of the file path.
    pub fn to_url(&self) -> (outcome: Result<String, String>)
        ensures
            self.has_url(crate::host::outcome_view(outcome)),
    {
        match self {
            UrlOrPath::Url(url) => Ok(url.clone()),
            UrlOrPath::Path(path) => url_from_file_path(path.as_str()),
        }
    }
}

/// An error of a resolution with the module graph.
pub struct ResolveWithGraphError {
    pub kind: ResolveWithGraphErrorKind,
    /// What could not be resolved, where the error says so.
    pub specifier: Option<UrlOrPath>,
}

/// An error: its message, then the message of each of its causes in turn. One
/// that came from a resolution with the module graph keeps that error.
pub struct LoaderError {
    pub messages: Vec<String>,
    pub graph_error: Option<ResolveWithGraphError>,
}

/// What a [`LoaderError`] holds.
pub struct ErrorContent {
    pub messages: Seq<Seq<char>>,
    pub graph_error: Option<ResolveWithGraphError>,
}

impl View for LoaderError {
    type V = ErrorContent;

    open spec fn view(&self) -> ErrorContent {
        ErrorContent {
            messages: self.messages@.map_values(|message: String| message@),
            graph_error: self.graph_error,
        }
    }
}

/// An error with one message and no cause.
pub open spec fn plain_error(message: Seq<char>) -> ErrorContent {
    ErrorContent { messages: seq![message], graph_error: None }
}

/// The error as the cause of one with this message.
pub open spec fn in_context(message: Seq<char>, cause: ErrorContent) -> ErrorContent {
    ErrorContent { messages: seq![message] + cause.messages, graph_error: cause.graph_error }
}

impl LoaderError {
    /// An error with one message and no cause.
    pub fn msg(message: String) -> (error: LoaderError)
        ensures
            error@ == plain_error(message@),
    {
        let mut messages: Vec<String> = Vec::new();
        messages.push(message);
        let error = LoaderError { messages, graph_error: None };
        assert(error@.messages =~= seq![message@]);
        error
    }

    /// The error as the cause of one with this message.
    pub fn context(self, message: &str) -> (error: LoaderError)
        ensures
            error@ == in_context(message@, self@),
    {
        let mut messages: Vec<String> = self.messages;
        messages.insert(0, message.to_owned());
        let error = LoaderError { messages, graph_error: self.graph_error };
        assert(error@.messages =~= seq![message@] + self@.messages);
        error
    }
}

/// The messages of an error are those that it holds.
pub proof fn lemma_messages(error: LoaderError)
    ensures
        error@.graph_error == error.graph_error,
        error@.messages.len() == error.messages@.len(),
        forall|i: int|
            0 <= i < error.messages@.len() ==> #[trigger] error@.messages[i] == error.messages@[i]@,
{
}

/// The messages one after the other, with a colon and a space between.
pub open spec fn error_text(messages: Seq<Seq<char>>) -> Seq<char>
    decreases messages.len(),
{
    if messages.len() == 0 {
        seq![]
    } else if messages.len() == 1 {
        messages[0]
    } else {
        error_text(messages.drop_last()) + ": "@ + messages.last()
    }
}

/// The message of the JavaScript error that stands for an error.
pub fn create_js_error(err: &LoaderError) -> (message: String)
    ensures
        message@ == error_text(err@.messages),
{
    let len: usize = err.messages.len();
    let mut text: String = String::new();
    let ghost messages = err@.messages;
    assert(messages.take(0) =~= seq![]);
    for i in 0..len
        invariant
            len == err.messages@.len(),
            messages == err@.messages,
            text@ == error_text(messages.take(i as int)),
    {
        assert(messages.take(i + 1).drop_last() =~= messages.take(i as int));
        assert(messages.take(i + 1).last() == err.messages@[i as int]@);
        if i > 0 {
            text.append(": ");
        }
        text.append(err.messages[i].as_str());
        if i == 0 {
            assert(text@ =~= messages[0]);
        }
    }
    assert(messages.take(len as int) =~= messages);
    text
}

/// An error that JavaScript is given: its message, and the properties that are
/// set on it, in order.
pub struct JsErrorValue {
    pub message: String,
    pub properties: Vec<Property>,
}

/// The code of an error, if it came from a resolution with the module graph and
/// has one.
pub open spec fn error_code(error: ErrorContent) -> Option<NodeJsErrorCode> {
    match error.graph_error {
        Some(graph_error) => graph_error.kind.code(),
        None => None,
    }
}

/// Whether the error is one that an optional dependency can give: a module that
/// was not found, asked for by another module.
pub open spec fn may_be_optional(error: ErrorContent, has_referrer: bool) -> bool {
    error_code(error) == Some(NodeJsErrorCode::ModuleNotFound) && has_referrer
}

/// The properties of the JavaScript error for a failed resolution.
/// `specifier_url` is the URL that the error speaks of.
pub open spec fn resolve_error_properties(
    error: ErrorContent,
    optional: bool,
    specifier_url: Option<Seq<char>>,
) -> Seq<(Seq<char>, PropertyContent)> {
    let code = match error_code(error) {
        Some(code) => seq![("code"@, PropertyContent::Text(code.name()))],
        None => seq![],
    };
    let mark = if optional {
        seq![("isOptionalDependency"@, PropertyContent::Flag(true))]
    } else {
        seq![]
    };
    let specifier = match specifier_url {
        Some(url) => seq![("specifier"@, PropertyContent::Text(url))],
        None => seq![],
    };
    code + mark + specifier
}

/// Whether `url` can be the URL that an error speaks of: there is one where the
/// error came from a resolution with the module graph, names a place, and the
/// host has a URL for it.
pub open spec fn speaks_of(error: ErrorContent, url: Option<Seq<char>>) -> bool {
    match error.graph_error {
        Some(graph_error) => match graph_error.specifier {
            Some(place) => match url {
                Some(url) => place.has_url(Ok::<Seq<char>, Seq<char>>(url)),
                None => exists|message: Seq<char>|
                    place.has_url(Err::<Seq<char>, Seq<char>>(message)),
            },
            None => url is None,
        },
        None => url is None,
    }
}

impl LoaderError {
    /// The URL that the error speaks of.
    pub fn specifier_url(&self) -> (url: Option<String>)
        ensures
            speaks_of(self@, crate::host::text_view(url)),
    {
        match &self.graph_error {
            Some(graph_error) => match &graph_error.specifier {
                Some(place) => match place.to_url() {
                    Ok(url) => Some(url),
                    Err(message) => {
                        assert(place.has_url(Err::<Seq<char>, Seq<char>>(message@)));
                        None
                    },
                },
                None => None,
            },
            None => None,
        }
    }

    /// The code of the error, if it came from a resolution with the module graph
    /// and has one.
    pub fn code(&self) -> (code: Option<NodeJsErrorCode>)
        ensures
            code == error_code(self@),
    {
        match &self.graph_error {
            Some(graph_error) => resolve_with_graph_error_code(&graph_error.kind),
            None => None,
        }
    }
}

/// Whether `path` can be the file to look for `package.json` files around. There
/// is none where the error is not one that an optional dependency can give, or
/// where the referrer is no file.
pub open spec fn looks_around(
    error: ErrorContent,
    referrer: Option<Seq<char>>,
    path: Option<Seq<char>>,
) -> bool {
    if may_be_optional(error, referrer is Some) {
        match path {
            Some(path) => crate::host::is_path_of_url(referrer->0, Ok(path)),
            None => exists|message: Seq<char>|
                crate::host::is_path_of_url(referrer->0, Err(message)),
        }
    } else {
        path is None
    }
}

/// The file to look for `package.json` files around, when it has to be found out
/// whether a failed resolution was that of an optional dependency.
pub fn optional_dependency_lookup(err: &LoaderError, maybe_referrer: &Option<String>) -> (path:
    Option<String>)
    ensures
        looks_around(
            err@,
            crate::host::text_view(*maybe_referrer),
            crate::host::text_view(path),
        ),
{
    match err.code() {
        Some(NodeJsErrorCode::ModuleNotFound) => match maybe_referrer {
            Some(referrer) => {
                let ghost given = crate::host::text_view(*maybe_referrer);
                assert(given == Some(referrer@));
                match url_to_file_path(referrer.as_str()) {
                    Ok(path) => Some(path),
                    Err(message) => {
                        assert(crate::host::is_path_of_url(given->0, Err(message@)));
                        None
                    },
                }
            },
            None => None,
        },
        _ => None,
    }
}

/// The JavaScript error for a failed resolution, where it is known whether the
/// dependency is optional and which URL the error speaks of.
pub fn resolve_js_error(err: &LoaderError, optional: bool, specifier_url: Option<String>) -> (value:
    JsErrorValue)
    ensures
        value.message@ == error_text(err@.messages),
        crate::response::properties_view(value.properties@) == resolve_error_properties(
            err@,
            optional,
            crate::host::text_view(specifier_url),
        ),
{
    let message: String = create_js_error(err);
    let mut properties: Vec<Property> = Vec::new();
    if let Some(code) = err.code() {
        properties.push(
            Property { key: "code", value: PropertyValue::Text(code.as_str().to_owned()) },
        );
    }
    if optional {
        properties.push(
            Property { key: "isOptionalDependency", value: PropertyValue::Flag(true) },
        );
    }
    if let Some(url) = specifier_url {
        properties.push(Property { key: "specifier", value: PropertyValue::Text(url) });
    }
    assert(crate::response::properties_view(properties@) =~= resolve_error_properties(
        err@,
        optional,
        crate::host::text_view(specifier_url),
    ));
    JsErrorValue { message, properties }
}

/// Whether `value` can be the JavaScript error for a failed resolution of
/// `specifier` from a referrer. `files` are the `package.json` files around the
/// file that is looked around, if there is one.
pub open spec fn is_resolve_js_error(
    error: ErrorContent,
    specifier: Seq<char>,
    referrer: Option<Seq<char>>,
    files: Seq<Option<PackageJson>>,
    value: JsErrorValue,
) -> bool {
    &&& value.message@ == error_text(error.messages)
    &&& exists|path: Option<Seq<char>>, url: Option<Seq<char>>|
        {
            &&& #[trigger] looks_around(error, referrer, path)
            &&& #[trigger] speaks_of(error, url)
            &&& crate::response::properties_view(value.properties@) == resolve_error_properties(
                error,
                path is Some && crate::package_json::optional_in(files, specifier),
                url,
            )
        }
}

/// The JavaScript error for a failed resolution of `specifier`. `files` are the
/// `package.json` files around the file that [`optional_dependency_lookup`]
/// gives, from the nearest outwards. Where it gives no file they do not count.
pub fn create_resolve_js_error(
    err: &LoaderError,
    specifier: &str,
    maybe_referrer: &Option<String>,
    files: &Vec<Option<PackageJson>>,
) -> (value: JsErrorValue)
    ensures
        is_resolve_js_error(
            err@,
            specifier@,
            crate::host::text_view(*maybe_referrer),
            files@,
            value,
        ),
{
    let path: Option<String> = optional_dependency_lookup(err, maybe_referrer);
    assert(looks_around(
        err@,
        crate::host::text_view(*maybe_referrer),
        crate::host::text_view(path),
    ));
    let optional: bool = match path {
        Some(_) => is_optional_npm_dep(specifier, files),
        None => false,
    };
    let specifier_url: Option<String> = err.specifier_url();
    assert(speaks_of(err@, crate::host::text_view(specifier_url)));
    resolve_js_error(err, optional, specifier_url)
}

/// Putting an error in a context puts the context's message, a colon and a space
/// before its text.
pub proof fn law_context_precedes(message: Seq<char>, cause: ErrorContent)
    requires
        cause.messages.len() > 0,
    ensures
        error_text(in_context(message, cause).messages) == message + ": "@ + error_text(
            cause.messages,
        ),
    decreases cause.messages.len(),
{
    let whole = seq![message] + cause.messages;
    assert(whole.last() == cause.messages.last());
    assert(whole.drop_last() =~= seq![message] + cause.messages.drop_last());
    if cause.messages.len() == 1 {
        assert(whole.drop_last() =~= seq![message]);
        assert(error_text(whole.drop_last()) == message);
        assert(cause.messages.last() == cause.messages[0]);
    } else {
        let less = ErrorContent { messages: cause.messages.drop_last(), graph_error: None };
        law_context_precedes(message, less);
        assert(in_context(message, less).messages =~= whole.drop_last());
        assert(error_text(whole) =~= message + ": "@ + error_text(cause.messages));
    }
}

/// Only a resolution with the module graph leaves properties on its error.
pub proof fn law_other_errors_have_no_properties(
    error: ErrorContent,
    referrer: Option<Seq<char>>,
    path: Option<Seq<char>>,
    url: Option<Seq<char>>,
)
    requires
        error.graph_error is None,
        looks_around(error, referrer, path),
        speaks_of(error, url),
    ensures
        path is None,
        resolve_error_properties(error, false, url) == Seq::<(Seq<char>, PropertyContent)>::empty(),
{
}

/// Only the error of a module that was not found, for another module, can be
/// marked as that of an optional dependency.
pub proof fn law_optional_errors_are_not_found_errors(
    error: ErrorContent,
    referrer: Option<Seq<char>>,
    path: Option<Seq<char>>,
)
    requires
        looks_around(error, referrer, path),
        path is Some,
    ensures
        error_code(error) == Some(NodeJsErrorCode::ModuleNotFound),
        referrer is Some,
{
}

/// No `package.json` files are looked for around a referrer that is no file.
pub proof fn law_only_files_have_package_json(
    error: ErrorContent,
    referrer: Seq<char>,
    path: Option<Seq<char>>,
)
    requires
        looks_around(error, Some(referrer), path),
        crate::host::url_parsed(referrer) matches Ok(url) ==> url.1 != "file"@,
    ensures
        path is None,
{
}

/// An error of the resolver has the code of Node's resolution, or of an npm
/// reference, that it holds. No other error of the resolver has a code.
pub proof fn law_codes_of_the_resolver(
    err: DenoResolveErrorKind,
    code: Option<NodeJsErrorCode>,
)
    requires
        call_ensures(deno_resolve_error_code, (&err,), code),
    ensures
        err matches DenoResolveErrorKind::Node(inner) ==> code == inner,
        err matches DenoResolveErrorKind::ResolveNpmReqRef(inner) ==> code == inner,
        !(err is Node) && !(err is ResolveNpmReqRef) ==> code is None,
{
}

/// An error of a resolution with the graph has the code of what it holds: of an
/// npm reference, or of the resolver's own error. No other one has a code.
pub proof fn law_codes_of_the_graph(
    err: ResolveWithGraphErrorKind,
    code: Option<NodeJsErrorCode>,
)
    requires
        call_ensures(resolve_with_graph_error_code, (&err,), code),
    ensures
        err matches ResolveWithGraphErrorKind::CouldNotResolveNpmReqRef(inner) ==> code == Some(
            inner,
        ),
        err matches ResolveWithGraphErrorKind::ResolveNpmReqRef(inner) ==> code == inner,
        err matches ResolveWithGraphErrorKind::Resolve(DenoResolveErrorKind::Node(inner)) ==> code
            == inner,
        err matches ResolveWithGraphErrorKind::Resolve(
            DenoResolveErrorKind::ResolveNpmReqRef(inner),
        ) ==> code == inner,
        err matches ResolveWithGraphErrorKind::Resolution(
            Some(DenoResolveErrorKind::Node(inner)),
        ) ==> code == inner,
        err matches ResolveWithGraphErrorKind::Resolution(
            Some(DenoResolveErrorKind::ResolveNpmReqRef(inner)),
        ) ==> code == inner,
        code is Some ==> err is CouldNotResolveNpmReqRef || err is ResolveNpmReqRef || (err matches
            ResolveWithGraphErrorKind::Resolve(kind) && (kind is Node || kind is ResolveNpmReqRef))
            || (err matches ResolveWithGraphErrorKind::Resolution(Some(kind)) && (kind is Node
            || kind is ResolveNpmReqRef)),
{
}

/// The text of an error is the message of one without a cause. A cause follows
/// what it is the cause of, behind a colon and a space.
pub proof fn law_text_of_an_error(err: LoaderError, message: String)
    requires
        call_ensures(create_js_error, (&err,), message),
    ensures
        err.messages@.len() == 0 ==> message@.len() == 0,
        err.messages@.len() == 1 ==> message@ == err.messages@[0]@,
        err.messages@.len() == 2 ==> message@ == err.messages@[0]@ + ": "@ + err.messages@[1]@,
        err.messages@.len() > 1 ==> message@ == error_text(err@.messages.drop_last()) + ": "@
            + err.messages@.last()@,
{
    lemma_messages(err);
    if err.messages@.len() == 2 {
        let less = err@.messages.drop_last();
        assert(less.len() == 1 && less[0] == err@.messages[0]);
        assert(error_text(less) == less[0]);
    }
    if err.messages@.len() > 1 {
        assert(err@.messages.last() == err.messages@.last()@);
    }
}

/// The text of an error in a context is the context's message, a colon, a space,
/// and the text that the error has by itself.
pub proof fn law_text_of_an_error_in_context(
    inner: LoaderError,
    inner_text: String,
    context: &str,
    outer: LoaderError,
    outer_text: String,
)
    requires
        inner.messages@.len() > 0,
        call_ensures(create_js_error, (&inner,), inner_text),
        call_ensures(LoaderError::context, (inner, context), outer),
        call_ensures(create_js_error, (&outer,), outer_text),
    ensures
        outer_text@ == context@ + ": "@ + inner_text@,
{
    lemma_messages(inner);
    law_context_precedes(context@, inner@);
}

/// A new error has its message alone, and one in a context has the context's
/// message first, then what it had, and keeps the error of the graph.
pub proof fn law_errors_are_put_in_context(
    message: String,
    plain: LoaderError,
    context: &str,
    outer: LoaderError,
    inner: LoaderError,
)
    requires
        call_ensures(LoaderError::msg, (message,), plain),
        call_ensures(LoaderError::context, (inner, context), outer),
    ensures
        plain.graph_error is None,
        plain.messages@.len() == 1,
        plain.messages@[0]@ == message@,
        outer.graph_error == inner.graph_error,
        outer.messages@.len() == inner.messages@.len() + 1,
        outer.messages@[0]@ == context@,
        forall|i: int|
            0 <= i < inner.messages@.len() ==> (#[trigger] outer.messages@[i + 1])@
                == inner.messages@[i]@,
{
    lemma_messages(plain);
    lemma_messages(outer);
    lemma_messages(inner);
    assert(plain@.messages[0] == message@);
    assert(outer@.messages[0] == context@);
    assert forall|i: int| 0 <= i < inner.messages@.len() implies (#[trigger] outer.messages@[i
        + 1])@ == inner.messages@[i]@ by {
        assert(outer@.messages[i + 1] == inner@.messages[i]);
    }
}

/// The URL of a place that is one is that URL. The URL of a path is one that the
/// host gives for it.
pub proof fn law_places_have_their_urls(place: UrlOrPath, outcome: Result<String, String>)
    requires
        call_ensures(UrlOrPath::to_url, (&place,), outcome),
    ensures
        place matches UrlOrPath::Url(url) ==> (outcome matches Ok(given) && given@ == url@),
        place matches UrlOrPath::Path(path) ==> crate::host::is_file_url(
            path@,
            crate::host::outcome_view(outcome),
        ),
{
}

/// `package.json` files are looked for around the file of the referrer, and only
/// where there is a referrer and the error is that a module was not found.
pub proof fn law_where_package_json_is_looked_for(
    err: LoaderError,
    maybe_referrer: Option<String>,
    path: Option<String>,
)
    requires
        call_ensures(optional_dependency_lookup, (&err, &maybe_referrer), path),
    ensures
        err.graph_error is None || maybe_referrer is None ==> path is None,
        err.graph_error matches Some(graph_error) ==> graph_error.kind.code() != Some(
            NodeJsErrorCode::ModuleNotFound,
        ) ==> path is None,
        path matches Some(file) ==> crate::host::is_url_file_path(
            maybe_referrer->0@,
            Ok(file@),
        ),
        path is None && maybe_referrer is Some && err.graph_error is Some
            && err.graph_error->0.kind.code() == Some(NodeJsErrorCode::ModuleNotFound)
            ==> exists|message: Seq<char>|
            #[trigger] crate::host::is_url_file_path(maybe_referrer->0@, Err(message)),
{
    if path is None && maybe_referrer is Some && err.graph_error is Some
        && err.graph_error->0.kind.code() == Some(NodeJsErrorCode::ModuleNotFound) {
        let referrer = crate::host::text_view(maybe_referrer)->0;
        let message = choose|message: Seq<char>|
            crate::host::is_path_of_url(referrer, Err(message));
        assert(crate::host::is_url_file_path(maybe_referrer->0@, Err(message)));
    }
}

/// Whether the properties hold one with this key.
pub open spec fn has_key(properties: Seq<Property>, key: Seq<char>) -> bool {
    exists|i: int| 0 <= i < properties.len() && (#[trigger] properties[i]).key@ == key
}

/// The error for a failed resolution has the text of the error. Its first property
/// is the code, where the error has one. The dependency is marked as optional
/// where that was found, and the URL that the error speaks of comes last.
pub proof fn law_properties_of_a_resolve_error(
    err: LoaderError,
    optional: bool,
    specifier_url: Option<String>,
    value: JsErrorValue,
)
    requires
        call_ensures(resolve_js_error, (&err, optional, specifier_url), value),
    ensures
        ({
            let code = match err.graph_error {
                Some(graph_error) => graph_error.kind.code(),
                None => None,
            };
            let n = value.properties@.len() as int;
            let coded = if code is Some {
                1int
            } else {
                0
            };
            &&& n == coded + (if optional {
                1int
            } else {
                0
            }) + (if specifier_url is Some {
                1int
            } else {
                0
            })
            &&& code matches Some(code) ==> value.properties@[0]@ == ("code"@,
                PropertyContent::Text(code.name()))
            &&& optional ==> value.properties@[coded]@ == ("isOptionalDependency"@,
                PropertyContent::Flag(true))
            &&& specifier_url matches Some(url) ==> value.properties@[n - 1]@ == ("specifier"@,
                PropertyContent::Text(url@))
            &&& err.messages@.len() == 1 ==> value.message@ == err.messages@[0]@
            &&& forall|text: String|
                #[trigger] call_ensures(create_js_error, (&err,), text) ==> value.message@ == text@
        }),
{
    lemma_messages(err);
    let view = crate::response::properties_view(value.properties@);
    assert(view.len() == value.properties@.len());
    assert forall|i: int| 0 <= i < value.properties@.len() implies view[i] == (
    #[trigger] value.properties@[i])@ by {}
}

/// A failed resolution is marked as that of an optional dependency only where the
/// error is that a module was not found, it was asked for by another module, and
/// the `package.json` files call the dependency optional.
pub proof fn law_when_a_failure_is_optional(
    err: LoaderError,
    specifier: &str,
    maybe_referrer: Option<String>,
    files: &Vec<Option<PackageJson>>,
    value: JsErrorValue,
)
    requires
        call_ensures(create_resolve_js_error, (&err, specifier, &maybe_referrer, files), value),
        has_key(value.properties@, "isOptionalDependency"@),
    ensures
        err.graph_error is Some,
        err.graph_error->0.kind.code() == Some(NodeJsErrorCode::ModuleNotFound),
        maybe_referrer is Some,
        crate::package_json::optional_in(files@, specifier@),
{
    lemma_marked_is_optional(err, specifier@, maybe_referrer, files@, value);
}

/// A value that is marked as an optional dependency is that of one.
pub proof fn lemma_marked_is_optional(
    err: LoaderError,
    specifier: Seq<char>,
    maybe_referrer: Option<String>,
    files: Seq<Option<PackageJson>>,
    value: JsErrorValue,
)
    requires
        is_resolve_js_error(
            err@,
            specifier,
            crate::host::text_view(maybe_referrer),
            files,
            value,
        ),
        has_key(value.properties@, "isOptionalDependency"@),
    ensures
        err.graph_error is Some,
        err.graph_error->0.kind.code() == Some(NodeJsErrorCode::ModuleNotFound),
        maybe_referrer is Some,
        crate::package_json::optional_in(files, specifier),
{
    lemma_keys_differ();
    let referrer = crate::host::text_view(maybe_referrer);
    let (path, url) = choose|path: Option<Seq<char>>, url: Option<Seq<char>>|
        {
            &&& #[trigger] looks_around(err@, referrer, path)
            &&& #[trigger] speaks_of(err@, url)
            &&& crate::response::properties_view(value.properties@) == resolve_error_properties(
                err@,
                path is Some && crate::package_json::optional_in(files, specifier),
                url,
            )
        };
    let view = crate::response::properties_view(value.properties@);
    let i = choose|i: int|
        0 <= i < value.properties@.len() && (#[trigger] value.properties@[i]).key@
            == "isOptionalDependency"@;
    assert(view[i].0 == "isOptionalDependency"@);
}

proof fn lemma_keys_differ()
    ensures
        "code"@ != "isOptionalDependency"@,
        "specifier"@ != "isOptionalDependency"@,
        "code"@ != "specifier"@,
{
    reveal_strlit("code");
    reveal_strlit("isOptionalDependency");
    reveal_strlit("specifier");
    assert("code"@.len() == 4 && "isOptionalDependency"@.len() == 20 && "specifier"@.len() == 9);
}

/// A module that was not found is marked as an optional dependency where the
/// referrer is a file, on every host, and the `package.json` files call it so.
pub proof fn law_missing_optional_dependency_is_marked(
    err: LoaderError,
    specifier: &str,
    referrer: String,
    files: &Vec<Option<PackageJson>>,
    value: JsErrorValue,
)
    requires
        call_ensures(create_resolve_js_error, (&err, specifier, &Some(referrer), files), value),
        err.graph_error is Some,
        err.graph_error->0.kind.code() == Some(NodeJsErrorCode::ModuleNotFound),
        forall|message: Seq<char>|
            !#[trigger] crate::host::is_url_file_path(referrer@, Err(message)),
        crate::package_json::optional_in(files@, specifier@),
    ensures
        has_key(value.properties@, "code"@),
        has_key(value.properties@, "isOptionalDependency"@),
        value.properties@[1]@ == ("isOptionalDependency"@, PropertyContent::Flag(true)),
{
    lemma_optional_is_marked(err, specifier@, referrer, files@, value);
}

/// The value for a missing optional dependency is marked as that of one.
pub proof fn lemma_optional_is_marked(
    err: LoaderError,
    specifier: Seq<char>,
    referrer: String,
    files: Seq<Option<PackageJson>>,
    value: JsErrorValue,
)
    requires
        is_resolve_js_error(err@, specifier, Some(referrer@), files, value),
        err.graph_error is Some,
        err.graph_error->0.kind.code() == Some(NodeJsErrorCode::ModuleNotFound),
        forall|message: Seq<char>|
            !#[trigger] crate::host::is_url_file_path(referrer@, Err(message)),
        crate::package_json::optional_in(files, specifier),
    ensures
        has_key(value.properties@, "code"@),
        has_key(value.properties@, "isOptionalDependency"@),
        value.properties@[1]@ == ("isOptionalDependency"@, PropertyContent::Flag(true)),
{
    let (path, url) = choose|path: Option<Seq<char>>, url: Option<Seq<char>>|
        {
            &&& #[trigger] looks_around(err@, Some(referrer@), path)
            &&& #[trigger] speaks_of(err@, url)
            &&& crate::response::properties_view(value.properties@) == resolve_error_properties(
                err@,
                path is Some && crate::package_json::optional_in(files, specifier),
                url,
            )
        };
    let view = crate::response::properties_view(value.properties@);
    if path is None {
        let message = choose|message: Seq<char>|
            crate::host::is_path_of_url(referrer@, Err(message));
        assert(crate::host::is_url_file_path(referrer@, Err(message)));
    }
    assert(view.len() == value.properties@.len());
    assert(view[0] == value.properties@[0]@ && view[1] == value.properties@[1]@);
    assert(value.properties@[0].key@ == "code"@);
    assert(value.properties@[1].key@ == "isOptionalDependency"@);
}

/// The error for a failed resolution names the place that the error speaks of,
/// where that is a URL, and names none where the error speaks of none.
pub proof fn law_resolve_error_names_the_place(
    err: LoaderError,
    specifier: &str,
    maybe_referrer: Option<String>,
    files: &Vec<Option<PackageJson>>,
    value: JsErrorValue,
)
    requires
        call_ensures(create_resolve_js_error, (&err, specifier, &maybe_referrer, files), value),
    ensures
        err.graph_error is None ==> value.properties@.len() == 0,
        err.graph_error is Some && err.graph_error->0.specifier is None ==> !has_key(
            value.properties@,
            "specifier"@,
        ),
        err.graph_error matches Some(graph_error) ==> graph_error.specifier matches Some(
            UrlOrPath::Url(url),
        ) ==> value.properties@.len() > 0 && value.properties@.last()@ == ("specifier"@,
            PropertyContent::Text(url@)),
{
    lemma_keys_differ();
    let referrer = crate::host::text_view(maybe_referrer);
    let (path, url) = choose|path: Option<Seq<char>>, url: Option<Seq<char>>|
        {
            &&& #[trigger] looks_around(err@, referrer, path)
            &&& #[trigger] speaks_of(err@, url)
            &&& crate::response::properties_view(value.properties@) == resolve_error_properties(
                err@,
                path is Some && crate::package_json::optional_in(files@, specifier@),
                url,
            )
        };
    let view = crate::response::properties_view(value.properties@);
    assert(view.len() == value.properties@.len());
    assert forall|i: int| 0 <= i < value.properties@.len() implies view[i] == (
    #[trigger] value.properties@[i])@ by {}
    if value.properties@.len() > 0 {
        assert(view.last() == value.properties@.last()@);
    }
}

/// An error has the code of the resolution with the graph that it came from, and
/// none where it came from elsewhere. It speaks of the place that the resolution
/// names.
pub proof fn law_what_an_error_knows(
    err: LoaderError,
    code: Option<NodeJsErrorCode>,
    url: Option<String>,
)
    requires
        call_ensures(LoaderError::code, (&err,), code),
        call_ensures(LoaderError::specifier_url, (&err,), url),
    ensures
        err.graph_error is None ==> code is None && url is None,
        err.graph_error matches Some(graph_error) ==> {
            &&& code == graph_error.kind.code()
            &&& graph_error.specifier is None ==> url is None
            &&& graph_error.specifier matches Some(UrlOrPath::Url(given)) ==> (url matches Some(
                url,
            ) && url@ == given@)
            &&& graph_error.specifier matches Some(UrlOrPath::Path(path)) ==> (url matches Some(
                url,
            ) ==> crate::host::is_file_url(path@, Ok(url@)))
        },
{
}

/// What the JavaScript error for a failed resolution holds: the code of the error
/// first, where it has one, and the URL of the place that the error speaks of
/// last, where that has one.
pub proof fn lemma_resolve_error(
    err: LoaderError,
    specifier: Seq<char>,
    maybe_referrer: Option<String>,
    files: Seq<Option<PackageJson>>,
    value: JsErrorValue,
)
    requires
        is_resolve_js_error(
            err@,
            specifier,
            crate::host::text_view(maybe_referrer),
            files,
            value,
        ),
    ensures
        value.message@ == error_text(err@.messages),
        err.graph_error is None ==> value.properties@.len() == 0,
        err.graph_error matches Some(graph_error) ==> {
            &&& graph_error.kind.code() matches Some(code) ==> value.properties@.len() > 0
                && value.properties@[0]@ == ("code"@, PropertyContent::Text(code.name()))
            &&& graph_error.kind.code() is None ==> !has_key(value.properties@, "code"@)
            &&& graph_error.specifier is None ==> !has_key(value.properties@, "specifier"@)
            &&& graph_error.specifier matches Some(UrlOrPath::Url(url)) ==> value.properties@.len()
                > 0 && value.properties@.last()@ == ("specifier"@, PropertyContent::Text(url@))
            &&& graph_error.specifier matches Some(UrlOrPath::Path(path)) ==> {
                ||| {
                    &&& value.properties@.len() > 0
                    &&& value.properties@.last().key@ == "specifier"@
                    &&& value.properties@.last().value matches PropertyValue::Text(url)
                        && crate::host::is_file_url(path@, Ok(url@))
                }
                ||| {
                    &&& !has_key(value.properties@, "specifier"@)
                    &&& exists|message: Seq<char>|
                        #[trigger] crate::host::is_file_url(path@, Err(message))
                }
            }
        },
{
    lemma_keys_differ();
    let referrer = crate::host::text_view(maybe_referrer);
    let (path, url) = choose|path: Option<Seq<char>>, url: Option<Seq<char>>|
        {
            &&& #[trigger] looks_around(err@, referrer, path)
            &&& #[trigger] speaks_of(err@, url)
            &&& crate::response::properties_view(value.properties@) == resolve_error_properties(
                err@,
                path is Some && crate::package_json::optional_in(files, specifier),
                url,
            )
        };
    let view = crate::response::properties_view(value.properties@);
    assert(view.len() == value.properties@.len());
    assert forall|i: int| 0 <= i < value.properties@.len() implies view[i] == (
    #[trigger] value.properties@[i])@ by {}
    if value.properties@.len() > 0 {
        assert(view.last() == value.properties@.last()@);
    }
    if let Some(graph_error) = err.graph_error {
        if let Some(UrlOrPath::Path(place)) = graph_error.specifier {
            if url is None {
                let message = choose|message: Seq<char>|
                    UrlOrPath::Path(place).has_url(Err::<Seq<char>, Seq<char>>(message));
                assert(crate::host::is_file_url(place@, Err(message)));
            }
        }
    }
}

/// The error for a failed resolution has the text that any error has, the code of
/// the resolution as its first property where there is one, and the URL of the
/// place that it speaks of as its last.
pub proof fn law_resolve_error_says_what_failed(
    err: LoaderError,
    specifier: &str,
    maybe_referrer: Option<String>,
    files: &Vec<Option<PackageJson>>,
    value: JsErrorValue,
    text: String,
)
    requires
        call_ensures(create_resolve_js_error, (&err, specifier, &maybe_referrer, files), value),
        call_ensures(create_js_error, (&err,), text),
    ensures
        value.message@ == text@,
        err.graph_error matches Some(graph_error) ==> {
            &&& graph_error.kind.code() matches Some(code) ==> value.properties@.len() > 0
                && value.properties@[0]@ == ("code"@, PropertyContent::Text(code.name()))
            &&& graph_error.kind.code() is None ==> !has_key(value.properties@, "code"@)
            &&& graph_error.specifier matches Some(UrlOrPath::Path(path)) ==> {
                ||| {
                    &&& value.properties@.len() > 0
                    &&& value.properties@.last().key@ == "specifier"@
                    &&& value.properties@.last().value matches PropertyValue::Text(url)
                        && crate::host::is_file_url(path@, Ok(url@))
                }
                ||| {
                    &&& !has_key(value.properties@, "specifier"@)
                    &&& exists|message: Seq<char>|
                        #[trigger] crate::host::is_file_url(path@, Err(message))
                }
            }
        },
{
    lemma_resolve_error(err, specifier@, maybe_referrer, files@, value);
}

} // verus!
