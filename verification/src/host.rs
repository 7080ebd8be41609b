//! What the library takes from outside crates and from std, each behind one
//! function that Verus does not look into.

use std::collections::HashMap;
use std::path::Path;
use std::rc::Rc;

use base64::Engine;
use deno_graph::MediaType as GraphMediaType;
use deno_semver::jsr::JsrPackageReqReference;
use deno_semver::npm::NpmPackageReqReference;
use node_resolver::errors::NodeJsErrorCode as ResolverErrorCode;
use url::Url;
use vstd::prelude::*;
use vstd::string::*;
use vstd::utf8::*;

use crate::error::NodeJsErrorCode;
use crate::media::MediaType;

verus! {

/// The bytes of an optional vector.
pub open spec fn bytes_view(bytes: Option<Vec<u8>>) -> Option<Seq<u8>> {
    match bytes {
        Some(bytes) => Some(bytes@),
        None => None,
    }
}

/// The characters of an optional text.
pub open spec fn text_view(text: Option<String>) -> Option<Seq<char>> {
    match text {
        Some(text) => Some(text@),
        None => None,
    }
}

/// The characters of a text, or of the message that stands in its place.
pub open spec fn outcome_view(outcome: Result<String, String>) -> Result<Seq<char>, Seq<char>> {
    match outcome {
        Ok(text) => Ok(text@),
        Err(message) => Err(message@),
    }
}

/// `std::str::from_utf8`, with the error dropped: there is a text exactly when
/// the bytes are valid UTF-8, and its encoding is those bytes.
#[verifier::external_body]
pub(crate) fn utf8_text(bytes: &[u8]) -> (text: Option<&str>)
    ensures
        text is Some <==> valid_utf8(bytes@),
        text matches Some(text) ==> text.spec_bytes() == bytes@,
{
    std::str::from_utf8(bytes).ok()
}

/// `base64::engine::general_purpose::STANDARD.decode`, with the error dropped:
/// there are bytes exactly when the text is the base64 of some, and they are
/// those.
#[verifier::external_body]
pub(crate) fn decode_base64(text: &str) -> (bytes: Option<Vec<u8>>)
    ensures
        bytes matches Some(bytes) ==> crate::encoding::base64_encoded(bytes@) == text@,
        bytes is None ==> forall|other: Seq<u8>|
            #[trigger] crate::encoding::base64_encoded(other) != text@,
{
    base64::engine::general_purpose::STANDARD.decode(text).ok()
}

/// The text that a sequence of bytes stands for when every malformed part is
/// replaced.
pub uninterp spec fn utf8_replaced(bytes: Seq<u8>) -> Seq<char>;

/// `String::from_utf8_lossy`: a function of the bytes, which decodes valid UTF-8
/// as it is.
#[verifier::external_body]
pub(crate) fn utf8_lossy(bytes: &[u8]) -> (text: String)
    ensures
        text@ == utf8_replaced(bytes@),
        valid_utf8(bytes@) ==> text@ == decode_utf8(bytes@),
{
    String::from_utf8_lossy(bytes).into_owned()
}

/// A URL that was parsed: its serialization, and its scheme.
pub struct ParsedUrl {
    pub href: String,
    pub scheme: String,
}

/// The serialization and the scheme of a parsed URL, or the message of the
/// error.
pub open spec fn parsed_view(outcome: Result<ParsedUrl, String>) -> Result<
    (Seq<char>, Seq<char>),
    Seq<char>,
> {
    match outcome {
        Ok(url) => Ok((url.href@, url.scheme@)),
        Err(message) => Err(message@),
    }
}

/// What an absolute URL parses to: its serialization and its scheme, or the
/// message that says why it is none.
pub uninterp spec fn url_parsed(text: Seq<char>) -> Result<(Seq<char>, Seq<char>), Seq<char>>;

/// `url::Url::parse`, with the URL taken apart by `Url::scheme` and written out:
/// a function of the text. The serialization begins with the scheme and a colon.
#[verifier::external_body]
pub(crate) fn parse_url(text: &str) -> (outcome: Result<ParsedUrl, String>)
    ensures
        parsed_view(outcome) == url_parsed(text@),
        outcome matches Ok(url) ==> url.scheme@.push(':').is_prefix_of(url.href@),
{
    match Url::parse(text) {
        Ok(url) => Ok(ParsedUrl { scheme: url.scheme().to_string(), href: url.into() }),
        Err(err) => Err(err.to_string()),
    }
}

/// Whether a text can be an absolute path of Windows: a drive, a colon and a
/// slash or a backslash.
pub open spec fn may_begin_with_drive(text: Seq<char>) -> bool {
    text.len() >= 3 && text[1] == ':' && (text[2] == '/' || text[2] == '\\')
}

/// The text with slashes in place of backslashes.
pub open spec fn slashed(text: Seq<char>) -> Seq<char> {
    text.map_values(|c: char| if c == '\\' { '/' } else { c })
}

/// Whether a host can take a text for this path when asked.
pub uninterp spec fn is_taken_for(text: Seq<char>, path: Seq<char>) -> bool;

/// What a path that a host takes a text for can look like: the text itself, or,
/// for an absolute path of Windows, the text with slashes behind a root.
pub open spec fn is_path_form(text: Seq<char>, path: Seq<char>) -> bool {
    path == text || (may_begin_with_drive(text) && path == seq!['/'] + slashed(text))
}

/// Whether `path` can be the path that a host takes a text for.
pub open spec fn is_host_path(text: Seq<char>, path: Seq<char>) -> bool {
    is_taken_for(text, path) && is_path_form(text, path)
}

/// `sys_traits::impls::wasm_string_to_path`: the path that this host takes the
/// text for. That is the text itself, unless it is an absolute path of Windows on
/// a host that writes paths with slashes although it runs there. Which host that
/// is, is not said.
#[verifier::external_body]
pub(crate) fn host_path(text: &str) -> (path: String)
    ensures
        is_taken_for(text@, path@),
        is_path_form(text@, path@),
{
    sys_traits::impls::wasm_string_to_path(text.to_string()).to_string_lossy().into_owned()
}

/// Whether `joined` can be what a host makes of `path` seen from the directory
/// `base`.
pub uninterp spec fn is_joined_path(base: Seq<char>, path: Seq<char>, joined: Seq<char>) -> bool;

/// `std::path::Path::join`: what this host makes of a path seen from a
/// directory. How it is written, and which paths are absolute and stay as they
/// are, differs between hosts and is not said.
#[verifier::external_body]
pub(crate) fn join_path(base: &str, path: &str) -> (joined: String)
    ensures
        is_joined_path(base@, path@, joined@),
{
    Path::new(base).join(path).to_string_lossy().into_owned()
}

/// What the message of the error begins with where a path has no URL.
pub open spec fn no_url_message() -> Seq<char> {
    "Could not convert path to URL.\n  Path: "@
}

/// Whether a host can answer `outcome` when asked for the URL of a file path:
/// the URL, or the message that says why there is none.
pub uninterp spec fn is_file_url(path: Seq<char>, outcome: Result<Seq<char>, Seq<char>>) -> bool;

/// `deno_path_util::url_from_file_path`: this host's answer for the path. A URL
/// that it gives has the scheme `file`. Which paths have one, and what it looks
/// like, differs between hosts and is not said.
#[verifier::external_body]
pub(crate) fn url_from_file_path(path: &str) -> (outcome: Result<String, String>)
    ensures
        is_file_url(path@, outcome_view(outcome)),
        outcome matches Ok(url) ==> "file:"@.is_prefix_of(url@),
        outcome matches Err(message) ==> no_url_message().is_prefix_of(message@),
{
    match deno_path_util::url_from_file_path(Path::new(path)) {
        Ok(url) => Ok(url.into()),
        Err(err) => Err(err.to_string()),
    }
}

/// Whether `outcome` can be the URL of a file path, or the message that says why
/// there is none.
pub open spec fn is_url_of_file(path: Seq<char>, outcome: Result<Seq<char>, Seq<char>>) -> bool {
    &&& is_file_url(path, outcome)
    &&& match outcome {
        Ok(url) => "file:"@.is_prefix_of(url),
        Err(message) => no_url_message().is_prefix_of(message),
    }
}

/// Whether a host can answer `outcome` when asked for the URL of a directory:
/// the URL, or the message that says why there is none.
pub uninterp spec fn is_directory_url(
    path: Seq<char>,
    outcome: Result<Seq<char>, Seq<char>>,
) -> bool;

/// `deno_path_util::url_from_directory_path`: this host's answer for the path. A
/// URL that it gives has the scheme `file` and ends in a slash. Which paths have
/// one, and what it looks like, differs between hosts and is not said.
#[verifier::external_body]
pub(crate) fn url_from_directory_path(path: &str) -> (outcome: Result<String, String>)
    ensures
        is_directory_url(path@, outcome_view(outcome)),
        outcome matches Ok(url) ==> "file:"@.is_prefix_of(url@) && url@.last() == '/',
        outcome matches Err(message) ==> no_url_message().is_prefix_of(message@),
{
    match deno_path_util::url_from_directory_path(Path::new(path)) {
        Ok(url) => Ok(url.into()),
        Err(err) => Err(err.to_string()),
    }
}

/// Whether `outcome` can be the URL of a directory, or the message that says why
/// there is none.
pub open spec fn is_url_of_directory(
    path: Seq<char>,
    outcome: Result<Seq<char>, Seq<char>>,
) -> bool {
    &&& is_directory_url(path, outcome)
    &&& match outcome {
        Ok(url) => "file:"@.is_prefix_of(url) && url.last() == '/',
        Err(message) => no_url_message().is_prefix_of(message),
    }
}

/// Why a URL has no file path.
pub open spec fn no_path_message(href: Seq<char>) -> Seq<char> {
    "Could not convert URL to file path.\n  URL: "@ + href
}

/// Whether a host can answer `outcome` when asked for the file path of the URL
/// that a text is parsed to: the path, or the message that says why there is
/// none.
pub uninterp spec fn is_url_file_path(
    url: Seq<char>,
    outcome: Result<Seq<char>, Seq<char>>,
) -> bool;

/// `deno_path_util::url_to_file_path`, on the URL that `url::Url::parse` makes of
/// the text: this host's answer. A text that is no URL has no path, and the
/// message is then that of the parse. Only a URL with the scheme `file` has one,
/// and the message names any other. Which of those have one, and how the path is
/// written, differs between hosts and is not said.
#[verifier::external_body]
pub(crate) fn url_to_file_path(url: &str) -> (outcome: Result<String, String>)
    ensures
        is_url_file_path(url@, outcome_view(outcome)),
        match url_parsed(url@) {
            Err(message) => outcome is Err && outcome->Err_0@ == message,
            Ok((href, scheme)) => {
                &&& scheme != "file"@ ==> outcome is Err
                &&& outcome is Err ==> outcome->Err_0@ == no_path_message(href)
            },
        },
{
    let url = Url::parse(url).map_err(|err| err.to_string())?;
    match deno_path_util::url_to_file_path(&url) {
        Ok(path) => Ok(path.to_string_lossy().into_owned()),
        Err(err) => Err(err.to_string()),
    }
}

/// Whether `outcome` can be the file path of the URL that a text is parsed to, or
/// the message that says why there is none.
pub open spec fn is_path_of_url(url: Seq<char>, outcome: Result<Seq<char>, Seq<char>>) -> bool {
    &&& is_url_file_path(url, outcome)
    &&& match url_parsed(url) {
        Err(message) => outcome is Err && outcome->Err_0 == message,
        Ok((href, scheme)) => {
            &&& scheme != "file"@ ==> outcome is Err
            &&& outcome is Err ==> outcome->Err_0 == no_path_message(href)
        },
    }
}

/// The largest number that a part of a version can be.
pub open spec fn largest_number() -> Seq<char> {
    "18446744073709551615"@
}

/// Whether a part of a version that is the largest number can stand in the text
/// at index `i`: it begins the version or a part of it, and no digit follows.
pub open spec fn largest_number_at(text: Seq<char>, i: int) -> bool {
    let end = i + largest_number().len();
    &&& 1 <= i
    &&& end <= text.len()
    &&& text[i - 1] == '@' || text[i - 1] == '~' || text[i - 1] == '^' || text[i - 1] == '.'
    &&& text.subrange(i, end) == largest_number()
    &&& end < text.len() ==> !('0' <= text[end] <= '9')
}

/// Whether the version in a text can have the largest number as a part. There is
/// no next version then.
pub open spec fn has_largest_number(text: Seq<char>) -> bool {
    exists|i: int| largest_number_at(text, i)
}

/// Whether a text is a reference to an npm package.
pub uninterp spec fn npm_reference(text: Seq<char>) -> bool;

/// `deno_semver::npm::NpmPackageReqReference::from_str`, asked only whether it
/// succeeds: a function of the text, which begins with `npm:` if it does. It
/// computes the version that follows the one in the text, so that must not have
/// the largest number as a part.
#[verifier::external_body]
pub(crate) fn is_npm_reference(text: &str) -> (found: bool)
    requires
        !("npm:"@.is_prefix_of(text@) && has_largest_number(text@)),
    ensures
        found == npm_reference(text@),
        found ==> "npm:"@.is_prefix_of(text@),
{
    NpmPackageReqReference::from_str(text).is_ok()
}

/// Whether a text is a reference to a JSR package.
pub uninterp spec fn jsr_reference(text: Seq<char>) -> bool;

/// `deno_semver::jsr::JsrPackageReqReference::from_str`, asked only whether it
/// succeeds: a function of the text, which begins with `jsr:` if it does. It
/// computes the version that follows the one in the text, so that must not have
/// the largest number as a part.
#[verifier::external_body]
pub(crate) fn is_jsr_reference(text: &str) -> (found: bool)
    requires
        !("jsr:"@.is_prefix_of(text@) && has_largest_number(text@)),
    ensures
        found == jsr_reference(text@),
        found ==> "jsr:"@.is_prefix_of(text@),
{
    JsrPackageReqReference::from_str(text).is_ok()
}

/// The headers of a response by name.
pub open spec fn headers_view(headers: Option<HashMap<String, String>>) -> Option<
    Map<String, String>,
> {
    match headers {
        Some(headers) => Some(headers@),
        None => None,
    }
}

/// The media type of a response that came from a URL with these headers.
pub uninterp spec fn response_media_type(
    url: Seq<char>,
    headers: Option<Map<String, String>>,
) -> MediaType;

/// `deno_graph::MediaType::from_specifier_and_headers`, on the URL that
/// `url::Url::parse` makes of the text: a function of the text and the headers.
#[verifier::external_body]
pub(crate) fn media_type_of_response(
    url: &str,
    headers: &Option<HashMap<String, String>>,
) -> (media_type: MediaType)
    requires
        url_parsed(url@) is Ok,
    ensures
        media_type == response_media_type(url@, headers_view(*headers)),
{
    let url = Url::parse(url).unwrap();
    match GraphMediaType::from_specifier_and_headers(&url, headers.as_ref()) {
        GraphMediaType::JavaScript => MediaType::JavaScript, GraphMediaType::Jsx => MediaType::Jsx,
        GraphMediaType::Mjs => MediaType::Mjs, GraphMediaType::Cjs => MediaType::Cjs,
        GraphMediaType::TypeScript => MediaType::TypeScript, GraphMediaType::Mts => MediaType::Mts,
        GraphMediaType::Cts => MediaType::Cts, GraphMediaType::Dts => MediaType::Dts,
        GraphMediaType::Dmts => MediaType::Dmts, GraphMediaType::Dcts => MediaType::Dcts,
        GraphMediaType::Tsx => MediaType::Tsx, GraphMediaType::Css => MediaType::Css,
        GraphMediaType::Json => MediaType::Json, GraphMediaType::Jsonc => MediaType::Jsonc,
        GraphMediaType::Json5 => MediaType::Json5, GraphMediaType::Html => MediaType::Html,
        GraphMediaType::Markdown => MediaType::Markdown, GraphMediaType::Sql => MediaType::Sql,
        GraphMediaType::Wasm => MediaType::Wasm, GraphMediaType::SourceMap => MediaType::SourceMap,
        GraphMediaType::Unknown => MediaType::Unknown,
    }
}

/// `node_resolver::errors::NodeJsErrorCode::as_str`: the name of a code is the
/// name that Node gives it.
#[verifier::external_body]
pub(crate) fn node_error_code_name(code: NodeJsErrorCode) -> (name: &'static str)
    ensures
        name@ == code.name(),
{
    match code {
        NodeJsErrorCode::InvalidModuleSpecifier => ResolverErrorCode::ERR_INVALID_MODULE_SPECIFIER,
        NodeJsErrorCode::InvalidPackageConfig => ResolverErrorCode::ERR_INVALID_PACKAGE_CONFIG,
        NodeJsErrorCode::InvalidPackageTarget => ResolverErrorCode::ERR_INVALID_PACKAGE_TARGET,
        NodeJsErrorCode::ModuleNotFound => ResolverErrorCode::ERR_MODULE_NOT_FOUND,
        NodeJsErrorCode::PackageImportNotDefined => ResolverErrorCode::ERR_PACKAGE_IMPORT_NOT_DEFINED,
        NodeJsErrorCode::PackagePathNotExported => ResolverErrorCode::ERR_PACKAGE_PATH_NOT_EXPORTED,
        NodeJsErrorCode::UnknownFileExtension => ResolverErrorCode::ERR_UNKNOWN_FILE_EXTENSION,
        NodeJsErrorCode::UnsupportedDirImport => ResolverErrorCode::ERR_UNSUPPORTED_DIR_IMPORT,
        NodeJsErrorCode::UnsupportedEsmUrlScheme => ResolverErrorCode::ERR_UNSUPPORTED_ESM_URL_SCHEME,
        NodeJsErrorCode::InvalidFileUrlPath => ResolverErrorCode::ERR_INVALID_FILE_URL_PATH,
        NodeJsErrorCode::UnknownBuiltinModule => ResolverErrorCode::ERR_UNKNOWN_BUILTIN_MODULE,
        NodeJsErrorCode::TypesNotFound => ResolverErrorCode::ERR_TYPES_NOT_FOUND,
    }.as_str()
}

/// `Rc::clone`: a second pointer to the same value.
#[verifier::external_body]
pub(crate) fn share<T>(value: &Rc<T>) -> (shared: Rc<T>)
    ensures
        shared == *value,
{
    Rc::clone(value)
}

} // verus!
