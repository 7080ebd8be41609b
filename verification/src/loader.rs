//! The loader that JavaScript callers use.

use vstd::prelude::*;

use crate::error::create_resolve_js_error;
use crate::error::optional_dependency_lookup;
use crate::error::JsErrorValue;
use crate::error::LoaderError;
use crate::graph::begin_entrypoints;
use crate::graph::EntrypointsStep;
use crate::load::begin;
use crate::load::parse_requested_module_type;
use crate::load::LoadStep;
use crate::package_json::PackageJson;
use crate::paths::resolve_entrypoint;
use crate::paths::resolve_provided_referrer;
use crate::paths::EntrypointRequest;
use crate::resolve::parse_resolution_mode;
use crate::resolve::Resolution;
use crate::resolve::ResolutionMode;
use crate::resolve::ResolveStep;

verus! {

/// Resolves and loads modules, seen from a directory.
pub struct DenoLoader {
    pub initial_cwd: String,
}

/// What a resolution was asked for: the specifier as it was given, and the URL of
/// its referrer if it has one.
pub struct ResolveCall {
    pub specifier: String,
    pub importer: Option<String>,
}

impl ResolveCall {
    /// The file to look for `package.json` files around when the resolution has
    /// failed.
    pub fn package_json_lookup(&self, err: &LoaderError) -> (path: Option<String>)
        ensures
            crate::error::looks_around(
                err@,
                crate::host::text_view(self.importer),
                crate::host::text_view(path),
            ),
    {
        optional_dependency_lookup(err, &self.importer)
    }

    /// What the caller gets once the resolution is done: the URL, or the
    /// JavaScript error. `files` are the `package.json` files around the file that
    /// [`ResolveCall::package_json_lookup`] gives, from the nearest outwards.
    pub fn result(
        &self,
        outcome: Result<String, LoaderError>,
        files: &Vec<Option<PackageJson>>,
    ) -> (result: Result<String, JsErrorValue>)
        ensures
            match outcome {
                Ok(url) => result == Ok::<String, JsErrorValue>(url),
                Err(error) => result is Err && crate::error::is_resolve_js_error(
                    error@,
                    self.specifier@,
                    crate::host::text_view(self.importer),
                    files@,
                    result->Err_0,
                ),
            },
    {
        match outcome {
            Ok(url) => Ok(url),
            Err(error) => Err(
                create_resolve_js_error(&error, self.specifier.as_str(), &self.importer, files),
            ),
        }
    }
}

/// A resolution that has begun.
pub struct BegunResolution {
    pub call: ResolveCall,
    pub step: ResolveStep,
}

impl DenoLoader {
    /// Whether a resolution that was asked for can begin in this way. A referrer
    /// that is none ends it before the specifier is looked at, with an error that
    /// has a message and no properties.
    pub open spec fn can_begin(
        self,
        specifier: Seq<char>,
        importer: Option<Seq<char>>,
        resolution_mode: u8,
        may_add: bool,
        outcome: Result<BegunResolution, JsErrorValue>,
    ) -> bool {
        match outcome {
            Ok(begun) => {
                &&& begun.call.specifier@ == specifier
                &&& crate::paths::is_referrer(
                    importer,
                    Ok(crate::host::text_view(begun.call.importer)),
                )
                &&& crate::resolve::begins(
                    Resolution {
                        cwd: self.initial_cwd,
                        importer: begun.call.importer,
                        mode: crate::resolve::mode_of(resolution_mode),
                        may_add,
                    },
                    specifier,
                    begun.step,
                )
            },
            Err(value) => {
                &&& crate::paths::is_referrer(importer, Err(value.message@))
                &&& value.properties@.len() == 0
            },
        }
    }

    fn begin_resolution(
        &self,
        specifier: String,
        importer: Option<String>,
        resolution_mode: u8,
        may_add: bool,
    ) -> (outcome: Result<BegunResolution, JsErrorValue>)
        ensures
            self.can_begin(
                specifier@,
                crate::host::text_view(importer),
                resolution_mode,
                may_add,
                outcome,
            ),
    {
        match resolve_provided_referrer(importer) {
            Ok(importer) => {
                let resolution = Resolution {
                    cwd: self.initial_cwd.clone(),
                    importer: importer.clone(),
                    mode: parse_resolution_mode(resolution_mode),
                    may_add,
                };
                let call = ResolveCall { specifier: specifier.clone(), importer };
                Ok(BegunResolution { call, step: resolution.begin(specifier) })
            },
            Err(message) => Err(JsErrorValue { message, properties: Vec::new() }),
        }
    }

    /// Begins to resolve a specifier with the module graph as it is.
    pub fn resolve_sync(
        &self,
        specifier: String,
        importer: Option<String>,
        resolution_mode: u8,
    ) -> (outcome: Result<BegunResolution, JsErrorValue>)
        ensures
            self.can_begin(
                specifier@,
                crate::host::text_view(importer),
                resolution_mode,
                false,
                outcome,
            ),
    {
        self.begin_resolution(specifier, importer, resolution_mode, false)
    }

    /// Begins to resolve a specifier, for which a package may be added to the
    /// module graph.
    pub fn resolve(
        &self,
        specifier: String,
        importer: Option<String>,
        resolution_mode: u8,
    ) -> (outcome: Result<BegunResolution, JsErrorValue>)
        ensures
            self.can_begin(
                specifier@,
                crate::host::text_view(importer),
                resolution_mode,
                true,
                outcome,
            ),
    {
        self.begin_resolution(specifier, importer, resolution_mode, true)
    }

    /// Begins to load the module at a URL. A number that stands for no type of
    /// module is refused before anything is done.
    pub fn load(&self, url: String, requested_module_type: u8) -> (step: LoadStep)
        ensures
            requested_module_type <= 3 ==> crate::load::begins(
                crate::host::url_parsed(url@),
                crate::load::type_of(requested_module_type),
                step,
            ),
            requested_module_type > 3 ==> crate::load::fails_with(
                step,
                "Invalid requested module type: "@ + crate::text::decimal(requested_module_type),
            ),
    {
        match parse_requested_module_type(requested_module_type) {
            Ok(requested) => begin(url.as_str(), requested),
            Err(error) => LoadStep::Fail(error),
        }
    }

    /// Begins to add entrypoints to the module graph.
    pub fn add_entrypoints(&self, entrypoints: Vec<String>) -> (step: EntrypointsStep)
        ensures
            crate::graph::next_entrypoint(entrypoints@, Seq::empty(), step),
    {
        begin_entrypoints(entrypoints)
    }

    /// How the URL of an entrypoint that is to be added is found: from the
    /// directory of the loader, as if it were imported.
    pub fn entrypoint_request(&self, entrypoint: &str) -> (outcome: Result<
        EntrypointRequest,
        String,
    >)
        ensures
            crate::paths::is_entrypoint_request(
                entrypoint@,
                self.initial_cwd@,
                ResolutionMode::Import,
                outcome,
            ),
    {
        resolve_entrypoint(entrypoint, self.initial_cwd.as_str(), ResolutionMode::Import)
    }
}

/// A resolution with the graph as it is adds nothing to the graph, whatever it is
/// told.
pub proof fn law_resolve_sync_leaves_graph_alone(
    loader: DenoLoader,
    specifier: Seq<char>,
    importer: Option<Seq<char>>,
    resolution_mode: u8,
    begun: BegunResolution,
    steps: Seq<ResolveStep>,
    outcomes: Seq<crate::resolve::ResolveOutcome>,
)
    requires
        loader.can_begin(specifier, importer, resolution_mode, false, Ok(begun)),
        steps[0] == begun.step,
        crate::resolve::is_run(steps, outcomes),
    ensures
        forall|i: int| 0 <= i < steps.len() ==> !(#[trigger] steps[i] is AddEntrypoint),
{
    crate::resolve::law_plain_resolution_leaves_graph_alone(
        Resolution {
            cwd: loader.initial_cwd,
            importer: begun.call.importer,
            mode: crate::resolve::mode_of(resolution_mode),
            may_add: false,
        },
        specifier,
        steps,
        outcomes,
    );
}

/// After a `resolve` from a referrer that has added a package, `resolve_sync` with
/// the same arguments asks the module graph what the `resolve` asked last, and for
/// the same answer ends with the same URL. The host is taken to have one answer
/// for a referrer that is a path.
pub proof fn law_resolve_sync_agrees_with_resolve(
    loader: DenoLoader,
    specifier: Seq<char>,
    importer: Seq<char>,
    resolution_mode: u8,
    begun: BegunResolution,
    steps: Seq<ResolveStep>,
    outcomes: Seq<crate::resolve::ResolveOutcome>,
    k: int,
    url: String,
    again: BegunResolution,
)
    requires
        importer.len() > 0,
        loader.can_begin(specifier, Some(importer), resolution_mode, true, Ok(begun)),
        steps[0] == begun.step,
        crate::resolve::is_run(steps, outcomes),
        0 <= k < steps.len(),
        steps[k] is AddEntrypoint,
        steps.last() == ResolveStep::Done(Ok(url)),
        loader.can_begin(specifier, Some(importer), resolution_mode, false, Ok(again)),
        !crate::paths::is_written_as_url(importer) ==> crate::host::text_view(begun.call.importer)
            == crate::host::text_view(again.call.importer),
    ensures
        steps.len() == 4,
        crate::resolve::ask_the_same(steps[2], again.step),
        outcomes.last() == crate::resolve::ResolveOutcome::Url(Ok(url)),
        forall|next: ResolveStep|
            #[trigger] crate::resolve::follows(again.step, outcomes.last(), next) ==> next
                == ResolveStep::Done(Ok(url)),
{
    let mode = crate::resolve::mode_of(resolution_mode);
    let cwd = loader.initial_cwd;
    crate::paths::law_given_referrer_is_kept(
        importer,
        Ok(crate::host::text_view(begun.call.importer)),
    );
    crate::paths::law_given_referrer_is_kept(
        importer,
        Ok(crate::host::text_view(again.call.importer)),
    );
    crate::resolve::law_added_package_is_found_again(
        Resolution { cwd, importer: begun.call.importer, mode, may_add: true },
        Resolution { cwd, importer: again.call.importer, mode, may_add: false },
        specifier,
        steps,
        outcomes,
        k,
        url,
        again.step,
    );
}

/// Whether a resolution of this specifier, from this referrer and by this number,
/// began so.
pub open spec fn was_begun(
    loader: DenoLoader,
    specifier: String,
    importer: Option<String>,
    number: u8,
    may_add: bool,
    outcome: Result<BegunResolution, JsErrorValue>,
) -> bool {
    if may_add {
        call_ensures(DenoLoader::resolve, (&loader, specifier, importer, number), outcome)
    } else {
        call_ensures(DenoLoader::resolve_sync, (&loader, specifier, importer, number), outcome)
    }
}

/// Everything that `resolve` and `resolve_sync` ask, of the resolver as well as of
/// the graph, is asked in the mode that the caller's number stands for: `Require`
/// for 1, and `Import` for every other.
pub proof fn law_requests_have_the_callers_mode(
    loader: DenoLoader,
    specifier: String,
    importer: Option<String>,
    number: u8,
    may_add: bool,
    begun: BegunResolution,
    steps: Seq<ResolveStep>,
    outcomes: Seq<crate::resolve::ResolveOutcome>,
    i: int,
)
    requires
        was_begun(loader, specifier, importer, number, may_add, Ok(begun)),
        steps[0] == begun.step,
        crate::resolve::is_run(steps, outcomes),
        0 <= i < steps.len(),
    ensures
        steps[i] matches ResolveStep::ResolveEntrypoint(request, _) ==> (number == 1 <==> request.mode
            == ResolutionMode::Require),
        steps[i] matches ResolveStep::ResolveWithGraph(request, _, _) ==> (number == 1
            <==> request.mode == ResolutionMode::Require),
{
    crate::resolve::law_every_request_has_the_mode(
        Resolution {
            cwd: loader.initial_cwd,
            importer: begun.call.importer,
            mode: crate::resolve::mode_of(number),
            may_add,
        },
        specifier@,
        steps,
        outcomes,
        i,
    );
}

/// The call that a resolution remembers is the caller's own: the specifier as it
/// was given, and the referrer as a URL. It has none exactly when none, or an
/// empty one, was given.
pub proof fn law_call_is_remembered(
    loader: DenoLoader,
    specifier: String,
    importer: Option<String>,
    number: u8,
    may_add: bool,
    begun: BegunResolution,
)
    requires
        was_begun(loader, specifier, importer, number, may_add, Ok(begun)),
    ensures
        begun.call.specifier@ == specifier@,
        begun.call.importer is None <==> (importer is None || importer->0@.len() == 0),
        importer matches Some(text) ==> begun.call.importer matches Some(url) ==> {
            ||| {
                &&& "http:"@.is_prefix_of(text@) || "https:"@.is_prefix_of(text@)
                    || "file:"@.is_prefix_of(text@)
                &&& crate::host::url_parsed(text@) is Ok
                &&& crate::host::url_parsed(text@)->Ok_0.0 == url@
            }
            ||| {
                &&& !"http:"@.is_prefix_of(text@)
                &&& !"https:"@.is_prefix_of(text@)
                &&& !"file:"@.is_prefix_of(text@)
                &&& exists|path: Seq<char>|
                    #[trigger] crate::host::is_taken_for(text@, path) && crate::host::is_file_url(
                        path,
                        Ok(url@),
                    )
            }
        },
{
    if importer is Some && begun.call.importer is Some && !crate::paths::is_written_as_url(
        importer->0@,
    ) {
        let text = importer->0@;
        let url = begun.call.importer->0@;
        let (path, outcome) = choose|path: Seq<char>, outcome: Result<Seq<char>, Seq<char>>|
            #[trigger] crate::host::is_host_path(text, path)
                && #[trigger] crate::host::is_url_of_file(path, outcome) && crate::paths::given(
                outcome,
            ) == Ok::<Option<Seq<char>>, Seq<char>>(Some(url));
        assert(crate::host::is_taken_for(text, path));
    }
}

/// A resolution is refused only for its referrer, whatever the specifier is: with
/// the message of the parse, or that of a path without a URL, and with no
/// properties.
pub proof fn law_only_bad_referrers_are_refused(
    loader: DenoLoader,
    specifier: String,
    importer: Option<String>,
    number: u8,
    may_add: bool,
    value: JsErrorValue,
)
    requires
        was_begun(loader, specifier, importer, number, may_add, Err(value)),
    ensures
        value.properties@.len() == 0,
        importer is Some,
        importer->0@.len() > 0,
        ("http:"@.is_prefix_of(importer->0@) || "https:"@.is_prefix_of(importer->0@)
            || "file:"@.is_prefix_of(importer->0@)) ==> crate::host::url_parsed(importer->0@)
            == Err::<(Seq<char>, Seq<char>), Seq<char>>(value.message@),
        !"http:"@.is_prefix_of(importer->0@) && !"https:"@.is_prefix_of(importer->0@)
            && !"file:"@.is_prefix_of(importer->0@) ==> exists|path: Seq<char>|
            #[trigger] crate::host::is_taken_for(importer->0@, path) && crate::host::is_file_url(
                path,
                Err(value.message@),
            ),
{
    let text = importer->0@;
    if !crate::paths::is_written_as_url(text) {
        let (path, outcome) = choose|path: Seq<char>, outcome: Result<Seq<char>, Seq<char>>|
            #[trigger] crate::host::is_host_path(text, path)
                && #[trigger] crate::host::is_url_of_file(path, outcome) && crate::paths::given(
                outcome,
            ) == Err::<Option<Seq<char>>, Seq<char>>(value.message@);
        assert(crate::host::is_taken_for(text, path));
    }
}

/// From a referrer, `resolve` and `resolve_sync` ask the graph at once: for the
/// specifier as it was given, from the URL of the referrer. They differ only in
/// whether packages are kept as they are.
pub proof fn law_resolve_asks_for_the_specifier(
    loader: DenoLoader,
    specifier: String,
    importer: Option<String>,
    number: u8,
    may_add: bool,
    begun: BegunResolution,
)
    requires
        was_begun(loader, specifier, importer, number, may_add, Ok(begun)),
        begun.call.importer is Some,
    ensures
        begun.step matches ResolveStep::ResolveWithGraph(request, keep, _) && {
            &&& request.specifier@ == specifier@
            &&& request.referrer@ == begun.call.importer->0@
            &&& keep == may_add
        },
{
}

/// Without a referrer, `resolve` and `resolve_sync` see the specifier from the
/// directory of the loader.
pub proof fn law_entrypoints_are_seen_from_the_directory(
    loader: DenoLoader,
    specifier: String,
    importer: Option<String>,
    number: u8,
    may_add: bool,
    begun: BegunResolution,
)
    requires
        was_begun(loader, specifier, importer, number, may_add, Ok(begun)),
        begun.call.importer is None,
    ensures
        match begun.step {
            ResolveStep::ResolveEntrypoint(request, wait) => {
                &&& !specifier@.contains('\\')
                &&& request.specifier@ == specifier@
                &&& crate::host::is_directory_url(loader.initial_cwd@, Ok(request.referrer@))
                &&& wait.resolution.cwd@ == loader.initial_cwd@
                &&& wait.resolution.may_add == may_add
            },
            ResolveStep::ResolveWithGraph(request, keep, _) => {
                &&& specifier@.contains('\\')
                &&& crate::paths::is_located(
                    specifier@,
                    loader.initial_cwd@,
                    Ok(request.specifier@),
                )
                &&& crate::host::is_directory_url(loader.initial_cwd@, Ok(request.referrer@))
                &&& keep == may_add
            },
            ResolveStep::AddEntrypoint(_, _) => false,
            ResolveStep::Done(outcome) => outcome matches Err(error)
                && crate::resolve::is_lookup_error(specifier@, loader.initial_cwd@, error),
        },
{
    if let ResolveStep::Done(Err(error)) = begun.step {
        crate::error::lemma_messages(error);
        assert(error@.messages[0] == error.messages@[0]@);
    }
    if specifier@.contains('\\') {
        crate::resolve::lemma_located_begin(
            Resolution {
                cwd: loader.initial_cwd,
                importer: begun.call.importer,
                mode: crate::resolve::mode_of(number),
                may_add,
            },
            specifier@,
            begun.step,
        );
    }
}

/// What the caller of a resolution gets is the URL that it ended with, or an error
/// with the text of the error that it ended with, its code first and the URL that
/// it speaks of last.
pub proof fn law_outcome_is_handed_on(
    call: ResolveCall,
    outcome: Result<String, LoaderError>,
    files: &Vec<Option<PackageJson>>,
    result: Result<String, JsErrorValue>,
)
    requires
        call_ensures(ResolveCall::result, (&call, outcome, files), result),
    ensures
        outcome is Ok <==> result is Ok,
        outcome matches Ok(url) ==> result == Ok::<String, JsErrorValue>(url),
        outcome matches Err(error) ==> {
            let value = result->Err_0;
            &&& forall|text: String|
                #[trigger] call_ensures(crate::error::create_js_error, (&error,), text)
                    ==> value.message@ == text@
            &&& error.messages@.len() == 1 ==> value.message@ == error.messages@[0]@
            &&& error.graph_error is None ==> value.properties@.len() == 0
            &&& error.graph_error matches Some(graph_error) ==> {
                &&& graph_error.kind.code() matches Some(code) ==> value.properties@.len() > 0
                    && value.properties@[0]@ == ("code"@, crate::response::PropertyContent::Text(
                    code.name(),
                ))
                &&& graph_error.kind.code() is None ==> !crate::error::has_key(
                    value.properties@,
                    "code"@,
                )
                &&& graph_error.specifier is None ==> !crate::error::has_key(
                    value.properties@,
                    "specifier"@,
                )
                &&& graph_error.specifier matches Some(crate::error::UrlOrPath::Url(url))
                    ==> value.properties@.len() > 0 && value.properties@.last()@ == ("specifier"@,
                    crate::response::PropertyContent::Text(url@))
                &&& graph_error.specifier matches Some(crate::error::UrlOrPath::Path(path)) ==> {
                    ||| {
                        &&& value.properties@.len() > 0
                        &&& value.properties@.last().key@ == "specifier"@
                        &&& value.properties@.last().value matches crate::response::PropertyValue::Text(
                            url,
                        ) && crate::host::is_file_url(path@, Ok(url@))
                    }
                    ||| {
                        &&& !crate::error::has_key(value.properties@, "specifier"@)
                        &&& exists|message: Seq<char>|
                            #[trigger] crate::host::is_file_url(path@, Err(message))
                    }
                }
            }
        },
{
    if let Err(error) = outcome {
        crate::error::lemma_messages(error);
        crate::error::lemma_resolve_error(
            error,
            call.specifier@,
            call.importer,
            files@,
            result->Err_0,
        );
    }
}

/// A load of a URL with the scheme `node` ends at once with an external response,
/// one with the scheme `jsr` is refused at once, and any other goes to the module
/// loader with the type that was asked for: nothing special for 0, JSON for 1,
/// text for 2, and bytes for 3.
pub proof fn law_schemes_decide_a_load(loader: DenoLoader, url: String, number: u8, step: LoadStep)
    requires
        call_ensures(DenoLoader::load, (&loader, url, number), step),
        number <= 3,
        crate::host::url_parsed(url@) is Ok,
    ensures
        ({
            let (href, scheme) = crate::host::url_parsed(url@)->Ok_0;
            &&& step is Respond <==> scheme == "node"@
            &&& step is Fail <==> scheme == "jsr"@
            &&& step is LoadModule <==> scheme != "node"@ && scheme != "jsr"@
            &&& step matches LoadStep::LoadModule(wait) ==> {
                &&& wait.url@ == href
                &&& wait.scheme@ == scheme
                &&& number == 0 <==> wait.requested is Unspecified
                &&& number == 1 <==> wait.requested is Json
                &&& number == 2 <==> wait.requested is Text
                &&& number == 3 <==> wait.requested is Bytes
            }
            &&& step matches LoadStep::Respond(properties, released) ==> {
                &&& released is None
                &&& properties@.len() == 2
                &&& properties@[0]@ == ("kind"@, crate::response::PropertyContent::Text(
                    "external"@,
                ))
                &&& properties@[1]@ == ("specifier"@, crate::response::PropertyContent::Text(href))
            }
            &&& step matches LoadStep::Fail(error) ==> {
                &&& error.graph_error is None
                &&& error.messages@.len() == 1
                &&& error.messages@[0]@ == "Failed loading '"@ + href
                    + "'. jsr: specifiers must be resolved to an https: specifier before being loaded."@
            }
        }),
{
    reveal_strlit("node");
    reveal_strlit("jsr");
    assert("node"@.len() == 4 && "jsr"@.len() == 3);
    let (href, scheme) = crate::host::url_parsed(url@)->Ok_0;
    if let LoadStep::Respond(properties, _) = step {
        let view = crate::response::properties_view(properties@);
        assert(view.len() == properties@.len());
        assert(view[0] == properties@[0]@ && view[1] == properties@[1]@);
    }
    if let LoadStep::Fail(error) = step {
        crate::error::lemma_messages(error);
        assert(error@.messages[0] == crate::load::jsr_message(href));
    }
}

/// A load is refused before anything is done where the number stands for no type
/// of module, whatever the URL is, and where the text is no URL.
pub proof fn law_bad_loads_are_refused(loader: DenoLoader, url: String, number: u8, step: LoadStep)
    requires
        call_ensures(DenoLoader::load, (&loader, url, number), step),
    ensures
        number > 3 ==> (step matches LoadStep::Fail(error) && error.graph_error is None
            && error.messages@.len() == 1 && error.messages@[0]@
            == "Invalid requested module type: "@ + crate::text::decimal(number)),
        number <= 3 ==> (crate::host::url_parsed(url@) matches Err(message) ==> (step matches
            LoadStep::Fail(error) && error.graph_error is None && error.messages@.len() == 1
            && error.messages@[0]@ == message)),
{
    if let LoadStep::Fail(error) = step {
        crate::error::lemma_messages(error);
        if number > 3 {
            let message = "Invalid requested module type: "@ + crate::text::decimal(number);
            assert(error@.messages[0] == message);
        } else if let Err(message) = crate::host::url_parsed(url@) {
            assert(error@.messages[0] == message);
        }
    }
}

/// An entrypoint that is to be added is for the resolver, as it is, as an import
/// for execution from the directory of the loader, unless it holds a backslash.
pub proof fn law_added_entrypoints_are_imported(
    loader: DenoLoader,
    entrypoint: &str,
    outcome: Result<EntrypointRequest, String>,
)
    requires
        call_ensures(DenoLoader::entrypoint_request, (&loader, entrypoint), outcome),
    ensures
        outcome matches Ok(EntrypointRequest::Ask(request)) ==> {
            &&& !entrypoint@.contains('\\')
            &&& request.specifier@ == entrypoint@
            &&& crate::host::is_directory_url(loader.initial_cwd@, Ok(request.referrer@))
            &&& request.mode == ResolutionMode::Import
            &&& request.kind == crate::resolve::NodeResolutionKind::Execution
        },
        outcome matches Ok(EntrypointRequest::Located(url)) ==> {
            &&& entrypoint@.contains('\\')
            &&& "file:"@.is_prefix_of(url@)
            &&& crate::paths::is_located(entrypoint@, loader.initial_cwd@, Ok(url@))
        },
        outcome matches Err(message) ==> {
            &&& !entrypoint@.contains('\\') ==> crate::host::is_directory_url(
                loader.initial_cwd@,
                Err(message@),
            )
            &&& entrypoint@.contains('\\') ==> crate::paths::is_located(
                entrypoint@,
                loader.initial_cwd@,
                Err(message@),
            )
        },
{
    let view: Result<Seq<char>, Seq<char>> = match outcome {
        Ok(EntrypointRequest::Located(url)) => Ok(url@),
        Ok(EntrypointRequest::Ask(_)) => Err(seq![]),
        Err(message) => Err(message@),
    };
    crate::paths::lemma_located(entrypoint@, loader.initial_cwd@, view);
}

/// An addition begins with the first entrypoint, with all of them to go and no URL
/// found yet. With no entrypoints there is nothing to find.
pub proof fn law_addition_begins_with_the_first_entrypoint(
    loader: DenoLoader,
    entrypoints: Vec<String>,
    step: EntrypointsStep,
)
    requires
        call_ensures(DenoLoader::add_entrypoints, (&loader, entrypoints), step),
    ensures
        entrypoints@.len() > 0 ==> (step matches EntrypointsStep::Resolve(asked, wait) && asked
            == entrypoints@[0] && wait.entrypoints@ == entrypoints@ && wait.urls@.len() == 0),
        entrypoints@.len() == 0 ==> (step matches EntrypointsStep::Add(wait) && wait.urls@.len()
            == 0),
{
}

/// The file to look for `package.json` files around is that of the referrer which
/// the call remembers. There is none for any other error than that a module was
/// not found, and for that one only where the referrer is no file.
pub proof fn law_call_looks_around_its_referrer(
    call: ResolveCall,
    err: LoaderError,
    path: Option<String>,
)
    requires
        call_ensures(ResolveCall::package_json_lookup, (&call, &err), path),
    ensures
        path matches Some(file) ==> {
            &&& call.importer is Some
            &&& crate::host::is_url_file_path(call.importer->0@, Ok(file@))
            &&& err.graph_error is Some
            &&& err.graph_error->0.kind.code() == Some(
                crate::error::NodeJsErrorCode::ModuleNotFound,
            )
        },
        path is None && call.importer is Some && err.graph_error is Some
            && err.graph_error->0.kind.code() == Some(
            crate::error::NodeJsErrorCode::ModuleNotFound,
        ) ==> exists|message: Seq<char>|
            #[trigger] crate::host::is_url_file_path(call.importer->0@, Err(message)),
{
    if path is None && call.importer is Some && err.graph_error is Some
        && err.graph_error->0.kind.code() == Some(crate::error::NodeJsErrorCode::ModuleNotFound) {
        let referrer = crate::host::text_view(call.importer)->0;
        let message = choose|message: Seq<char>|
            crate::host::is_path_of_url(referrer, Err(message));
        assert(crate::host::is_url_file_path(call.importer->0@, Err(message)));
    }
}

/// The error of a resolution is marked as that of an optional dependency only
/// where the specifier that the caller gave is one.
pub proof fn law_given_specifier_decides_what_is_optional(
    call: ResolveCall,
    error: LoaderError,
    files: &Vec<Option<PackageJson>>,
    result: Result<String, JsErrorValue>,
)
    requires
        call_ensures(ResolveCall::result, (&call, Err::<String, LoaderError>(error), files), result),
        crate::error::has_key(result->Err_0.properties@, "isOptionalDependency"@),
    ensures
        call.importer is Some,
        crate::package_json::optional_in(files@, call.specifier@),
        error.graph_error is Some,
        error.graph_error->0.kind.code() == Some(crate::error::NodeJsErrorCode::ModuleNotFound),
{
    crate::error::lemma_marked_is_optional(
        error,
        call.specifier@,
        call.importer,
        files@,
        result->Err_0,
    );
}

/// A module that was not found is marked as an optional dependency where the
/// `package.json` files around a referrer that is a file, on every host, call the
/// specifier that was given so.
pub proof fn law_missing_optional_dependency_is_told(
    call: ResolveCall,
    referrer: String,
    error: LoaderError,
    files: &Vec<Option<PackageJson>>,
    result: Result<String, JsErrorValue>,
)
    requires
        call_ensures(ResolveCall::result, (&call, Err::<String, LoaderError>(error), files), result),
        call.importer == Some(referrer),
        error.graph_error is Some,
        error.graph_error->0.kind.code() == Some(crate::error::NodeJsErrorCode::ModuleNotFound),
        forall|message: Seq<char>|
            !#[trigger] crate::host::is_url_file_path(referrer@, Err(message)),
        crate::package_json::optional_in(files@, call.specifier@),
    ensures
        crate::error::has_key(result->Err_0.properties@, "isOptionalDependency"@),
        result->Err_0.properties@[1]@ == ("isOptionalDependency"@,
            crate::response::PropertyContent::Flag(true)),
{
    crate::error::lemma_optional_is_marked(
        error,
        call.specifier@,
        referrer,
        files@,
        result->Err_0,
    );
}

} // verus!
