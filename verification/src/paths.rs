//! Paths and URLs as users write them.
//!
//! Hosts differ in how they write paths. Where a contract here depends on that,
//! it says which answer of the host leads to which result.

use vstd::prelude::*;

use crate::host::host_path;
use crate::host::join_path;
use crate::host::parse_url;
use crate::host::url_from_directory_path;
use crate::host::url_from_file_path;
use crate::host::url_to_file_path;
use crate::resolve::NodeResolutionKind;
use crate::resolve::ResolutionMode;
use crate::resolve::ResolveRequest;
use crate::text::contains_char;
use crate::text::starts_with;

verus! {

/// Whether `outcome` can be the absolute path that a user means by `path` in the
/// directory `cwd`, or the message that says why there is none: a file URL stands
/// for its file, anything else is a path seen from the directory.
pub open spec fn is_absolute_path(
    path: Seq<char>,
    cwd: Seq<char>,
    outcome: Result<Seq<char>, Seq<char>>,
) -> bool {
    if "file:///"@.is_prefix_of(path) {
        crate::host::is_path_of_url(path, outcome)
    } else {
        outcome is Ok && exists|p: Seq<char>|
            #[trigger] crate::host::is_host_path(path, p) && crate::host::is_joined_path(
                cwd,
                p,
                outcome->Ok_0,
            )
    }
}

/// The absolute path that a user means by `path` in the directory `cwd`, or the
/// message that says why there is none.
pub fn resolve_absolute_path(path: &str, cwd: &str) -> (outcome: Result<String, String>)
    ensures
        is_absolute_path(path@, cwd@, crate::host::outcome_view(outcome)),
{
    if starts_with(path, "file:///") {
        url_to_file_path(path)
    } else {
        let taken: String = host_path(path);
        assert(crate::host::is_host_path(path@, taken@));
        Ok(join_path(cwd, taken.as_str()))
    }
}

/// Whether a referrer is written as a URL.
pub open spec fn is_written_as_url(referrer: Seq<char>) -> bool {
    ||| "http:"@.is_prefix_of(referrer)
    ||| "https:"@.is_prefix_of(referrer)
    ||| "file:"@.is_prefix_of(referrer)
}

/// The URL of a referrer, if one was given, or the message of an error.
pub open spec fn referrer_view(outcome: Result<Option<String>, String>) -> Result<
    Option<Seq<char>>,
    Seq<char>,
> {
    match outcome {
        Ok(url) => Ok(crate::host::text_view(url)),
        Err(message) => Err(message@),
    }
}

/// The URL as that of a referrer that was given.
pub open spec fn given(outcome: Result<Seq<char>, Seq<char>>) -> Result<
    Option<Seq<char>>,
    Seq<char>,
> {
    match outcome {
        Ok(url) => Ok(Some(url)),
        Err(message) => Err(message),
    }
}

/// The outcome of parsing a URL, without its scheme.
pub open spec fn href(outcome: Result<(Seq<char>, Seq<char>), Seq<char>>) -> Result<
    Seq<char>,
    Seq<char>,
> {
    match outcome {
        Ok(url) => Ok(url.0),
        Err(message) => Err(message),
    }
}

/// Whether `outcome` can be the URL of the referrer that a user gives, or the
/// message that says why there is none. An empty referrer is none, one that is
/// written as a URL is parsed, and any other is a file path.
pub open spec fn is_referrer(
    importer: Option<Seq<char>>,
    outcome: Result<Option<Seq<char>>, Seq<char>>,
) -> bool {
    match importer {
        None => outcome == Ok::<Option<Seq<char>>, Seq<char>>(None),
        Some(referrer) => if referrer.len() == 0 {
            outcome == Ok::<Option<Seq<char>>, Seq<char>>(None)
        } else if is_written_as_url(referrer) {
            outcome == given(href(crate::host::url_parsed(referrer)))
        } else {
            exists|path: Seq<char>, url: Result<Seq<char>, Seq<char>>|
                #[trigger] crate::host::is_host_path(referrer, path)
                    && #[trigger] crate::host::is_url_of_file(path, url) && outcome == given(url)
        },
    }
}

/// The URL of the referrer that a user gives, if any.
pub fn resolve_provided_referrer(importer: Option<String>) -> (outcome: Result<
    Option<String>,
    String,
>)
    ensures
        is_referrer(crate::host::text_view(importer), referrer_view(outcome)),
{
    let referrer: String = match importer {
        Some(referrer) => referrer,
        None => return Ok(None),
    };
    if referrer.as_str().is_empty() {
        return Ok(None);
    }
    if starts_with(referrer.as_str(), "http:") || starts_with(referrer.as_str(), "https:")
        || starts_with(referrer.as_str(), "file:") {
        match parse_url(referrer.as_str()) {
            Ok(url) => Ok(Some(url.href)),
            Err(message) => Err(message),
        }
    } else {
        let path: String = host_path(referrer.as_str());
        let url: Result<String, String> = url_from_file_path(path.as_str());
        assert(crate::host::is_host_path(referrer@, path@));
        assert(crate::host::is_url_of_file(path@, crate::host::outcome_view(url)));
        match url {
            Ok(url) => Ok(Some(url)),
            Err(message) => Err(message),
        }
    }
}

/// How the URL of an entrypoint is found.
pub enum EntrypointRequest {
    /// It is this one.
    Located(String),
    /// The resolver has to be asked.
    Ask(ResolveRequest),
}

/// Whether `outcome` can be the URL of the file that a user means by a path in
/// the directory `cwd`, or the message that says why there is none.
pub open spec fn is_file_url_from(
    path: Seq<char>,
    cwd: Seq<char>,
    outcome: Result<Seq<char>, Seq<char>>,
) -> bool {
    exists|absolute: Result<Seq<char>, Seq<char>>|
        {
            &&& #[trigger] is_absolute_path(path, cwd, absolute)
            &&& match absolute {
                Ok(absolute) => crate::host::is_url_of_file(absolute, outcome),
                Err(message) => outcome == Err::<Seq<char>, Seq<char>>(message),
            }
        }
}

/// Whether the URL of an entrypoint can be found in this way from the directory
/// `cwd`. A specifier with a backslash is a file path. Any other is for the
/// resolver, with the directory as its referrer.
pub open spec fn is_entrypoint_request(
    specifier: Seq<char>,
    cwd: Seq<char>,
    mode: ResolutionMode,
    outcome: Result<EntrypointRequest, String>,
) -> bool {
    if specifier.contains('\\') {
        match outcome {
            Ok(EntrypointRequest::Located(url)) => is_file_url_from(specifier, cwd, Ok(url@)),
            Ok(EntrypointRequest::Ask(_)) => false,
            Err(message) => is_file_url_from(specifier, cwd, Err(message@)),
        }
    } else {
        match outcome {
            Ok(EntrypointRequest::Located(_)) => false,
            Ok(EntrypointRequest::Ask(request)) => {
                &&& request.specifier@ == specifier
                &&& crate::host::is_url_of_directory(cwd, Ok(request.referrer@))
                &&& request.mode == mode
                &&& request.kind == NodeResolutionKind::Execution
            },
            Err(message) => crate::host::is_url_of_directory(cwd, Err(message@)),
        }
    }
}

/// How the URL of an entrypoint is found from the directory `cwd`, or the message
/// that says why it cannot be.
pub fn resolve_entrypoint(specifier: &str, cwd: &str, mode: ResolutionMode) -> (outcome: Result<
    EntrypointRequest,
    String,
>)
    ensures
        is_entrypoint_request(specifier@, cwd@, mode, outcome),
{
    if contains_char(specifier, '\\') {
        let absolute: Result<String, String> = resolve_absolute_path(specifier, cwd);
        assert(is_absolute_path(specifier@, cwd@, crate::host::outcome_view(absolute)));
        match absolute {
            Ok(path) => match url_from_file_path(path.as_str()) {
                Ok(url) => Ok(EntrypointRequest::Located(url)),
                Err(message) => Err(message),
            },
            Err(message) => Err(message),
        }
    } else {
        match url_from_directory_path(cwd) {
            Ok(referrer) => Ok(
                EntrypointRequest::Ask(
                    ResolveRequest {
                        specifier: specifier.to_owned(),
                        referrer,
                        mode,
                        kind: NodeResolutionKind::Execution,
                    },
                ),
            ),
            Err(message) => Err(message),
        }
    }
}

/// An empty referrer is as good as none.
pub proof fn law_empty_referrer_is_none(outcome: Result<Option<Seq<char>>, Seq<char>>)
    ensures
        is_referrer(Some(Seq::<char>::empty()), outcome) <==> is_referrer(None, outcome),
        is_referrer(None, outcome) <==> outcome == Ok::<Option<Seq<char>>, Seq<char>>(None),
{
}

/// A referrer that was given and is not empty either has a URL or is an error: it
/// is never dropped.
pub proof fn law_given_referrer_is_kept(
    referrer: Seq<char>,
    outcome: Result<Option<Seq<char>>, Seq<char>>,
)
    requires
        referrer.len() > 0,
        is_referrer(Some(referrer), outcome),
    ensures
        outcome matches Ok(url) ==> url is Some,
{
}

/// A referrer that is not written as a URL stands for a file.
pub proof fn law_path_referrer_is_a_file(
    referrer: Seq<char>,
    outcome: Result<Option<Seq<char>>, Seq<char>>,
)
    requires
        referrer.len() > 0,
        !is_written_as_url(referrer),
        is_referrer(Some(referrer), outcome),
    ensures
        match outcome {
            Ok(url) => url is Some && "file:"@.is_prefix_of(url->0),
            Err(message) => crate::host::no_url_message().is_prefix_of(message),
        },
{
}

/// An entrypoint that is found without the resolver is a file, and one that the
/// resolver is asked for is seen from a directory.
pub proof fn law_entrypoints_are_local(
    specifier: Seq<char>,
    cwd: Seq<char>,
    mode: ResolutionMode,
    request: EntrypointRequest,
)
    requires
        is_entrypoint_request(specifier, cwd, mode, Ok(request)),
    ensures
        match request {
            EntrypointRequest::Located(url) => "file:"@.is_prefix_of(url@),
            EntrypointRequest::Ask(request) => "file:"@.is_prefix_of(request.referrer@)
                && request.referrer@.last() == '/',
        },
{
}

/// A text that begins as a file URL stands for the file of that URL, whatever the
/// directory is. Any other is taken for a path and joined to the directory, and
/// that never fails.
pub proof fn law_absolute_path(path: &str, cwd: &str, outcome: Result<String, String>)
    requires
        call_ensures(resolve_absolute_path, (path, cwd), outcome),
    ensures
        "file:///"@.is_prefix_of(path@) ==> crate::host::is_url_file_path(
            path@,
            crate::host::outcome_view(outcome),
        ),
        !"file:///"@.is_prefix_of(path@) ==> (outcome matches Ok(absolute) && exists|
            taken: Seq<char>,
        |
            #[trigger] crate::host::is_taken_for(path@, taken) && crate::host::is_joined_path(
                cwd@,
                taken,
                absolute@,
            )),
{
    if !"file:///"@.is_prefix_of(path@) {
        let taken = choose|taken: Seq<char>|
            #[trigger] crate::host::is_host_path(path@, taken) && crate::host::is_joined_path(
                cwd@,
                taken,
                outcome->Ok_0@,
            );
        assert(crate::host::is_taken_for(path@, taken));
    }
}

/// A referrer is none exactly when none, or an empty one, was given. One that
/// begins as an HTTP or file URL, in small letters, is parsed. Any other is taken
/// for a path, and has the URL of that file.
pub proof fn law_provided_referrer(
    importer: Option<String>,
    outcome: Result<Option<String>, String>,
)
    requires
        call_ensures(resolve_provided_referrer, (importer,), outcome),
    ensures
        outcome == Ok::<Option<String>, String>(None) <==> importer is None || importer->0@.len()
            == 0,
        importer is Some && importer->0@.len() > 0 && ("http:"@.is_prefix_of(importer->0@)
            || "https:"@.is_prefix_of(importer->0@) || "file:"@.is_prefix_of(importer->0@))
            ==> match crate::host::url_parsed(importer->0@) {
            Ok((href, _)) => outcome matches Ok(Some(url)) && url@ == href,
            Err(message) => outcome matches Err(given) && given@ == message,
        },
        importer is Some && importer->0@.len() > 0 && !"http:"@.is_prefix_of(importer->0@)
            && !"https:"@.is_prefix_of(importer->0@) && !"file:"@.is_prefix_of(importer->0@)
            ==> exists|path: Seq<char>|
            #[trigger] crate::host::is_taken_for(importer->0@, path) && (match outcome {
                Ok(Some(url)) => crate::host::is_file_url(path, Ok(url@)),
                Ok(None) => false,
                Err(message) => crate::host::is_file_url(path, Err(message@)),
            }),
{
    if importer is Some && importer->0@.len() > 0 && !is_written_as_url(importer->0@) {
        let text = importer->0@;
        let (path, url) = choose|path: Seq<char>, url: Result<Seq<char>, Seq<char>>|
            #[trigger] crate::host::is_host_path(text, path)
                && #[trigger] crate::host::is_url_of_file(path, url) && referrer_view(outcome)
                == given(url);
        assert(crate::host::is_taken_for(text, path));
    }
}

/// An entrypoint without a backslash is for the resolver, as it is, from the URL
/// of the directory, in the mode that was given and for execution. One with a
/// backslash is a file of the directory, and is never for the resolver.
pub proof fn law_entrypoint(
    specifier: &str,
    cwd: &str,
    mode: ResolutionMode,
    outcome: Result<EntrypointRequest, String>,
)
    requires
        call_ensures(resolve_entrypoint, (specifier, cwd, mode), outcome),
    ensures
        outcome matches Ok(EntrypointRequest::Ask(request)) ==> {
            &&& !specifier@.contains('\\')
            &&& request.specifier@ == specifier@
            &&& crate::host::is_directory_url(cwd@, Ok(request.referrer@))
            &&& request.mode == mode
            &&& request.kind == NodeResolutionKind::Execution
        },
        outcome matches Ok(EntrypointRequest::Located(url)) ==> specifier@.contains('\\')
            && is_located(specifier@, cwd@, Ok(url@)),
        outcome matches Err(message) ==> {
            &&& !specifier@.contains('\\') ==> crate::host::is_directory_url(cwd@, Err(message@))
            &&& specifier@.contains('\\') ==> is_located(specifier@, cwd@, Err(message@))
        },
{
    if specifier@.contains('\\') {
        let view: Result<Seq<char>, Seq<char>> = match outcome {
            Ok(EntrypointRequest::Located(url)) => Ok(url@),
            Ok(EntrypointRequest::Ask(_)) => Err(seq![]),
            Err(message) => Err(message@),
        };
        lemma_located(specifier@, cwd@, view);
    }
}

/// What a file can have for a URL from a directory is what can come of it there.
pub proof fn lemma_located(
    text: Seq<char>,
    cwd: Seq<char>,
    outcome: Result<Seq<char>, Seq<char>>,
)
    ensures
        is_file_url_from(text, cwd, outcome) ==> is_located(text, cwd, outcome),
        is_file_url_from(text, cwd, outcome) ==> (outcome matches Ok(url)
            ==> "file:"@.is_prefix_of(url)),
{
    if is_file_url_from(text, cwd, outcome) {
        let absolute = choose|absolute: Result<Seq<char>, Seq<char>>|
            {
                &&& #[trigger] is_absolute_path(text, cwd, absolute)
                &&& match absolute {
                    Ok(absolute) => crate::host::is_url_of_file(absolute, outcome),
                    Err(message) => outcome == Err::<Seq<char>, Seq<char>>(message),
                }
            };
        if "file:///"@.is_prefix_of(text) {
            assert(crate::host::is_url_file_path(text, absolute));
        } else {
            let taken = choose|taken: Seq<char>|
                #[trigger] crate::host::is_host_path(text, taken) && crate::host::is_joined_path(
                    cwd,
                    taken,
                    absolute->Ok_0,
                );
            assert(crate::host::is_joined_path(cwd, taken, absolute->Ok_0));
        }
    }
}

/// Whether `outcome` can come of a file that was given as a text in the directory
/// `cwd`: of the file of a file URL, or of the path that the text is taken for,
/// joined to the directory.
pub open spec fn is_located(
    text: Seq<char>,
    cwd: Seq<char>,
    outcome: Result<Seq<char>, Seq<char>>,
) -> bool {
    if "file:///"@.is_prefix_of(text) {
        exists|path: Result<Seq<char>, Seq<char>>|
            #[trigger] crate::host::is_url_file_path(text, path) && (match path {
                Ok(path) => crate::host::is_file_url(path, outcome),
                Err(message) => outcome is Err && outcome->Err_0 == message,
            })
    } else {
        exists|taken: Seq<char>, path: Seq<char>|
            crate::host::is_taken_for(text, taken) && #[trigger] crate::host::is_joined_path(
                cwd,
                taken,
                path,
            ) && crate::host::is_file_url(path, outcome)
    }
}

} // verus!
