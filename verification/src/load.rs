//! Loading of modules.
//!
//! A load is a series of steps. Each asks for something to be done, and holds
//! what has to be told the outcome; telling it gives the next step.

use std::collections::HashMap;

use vstd::prelude::*;

use crate::error::LoaderError;
use crate::host::media_type_of_response;
use crate::host::parse_url;
use crate::host::utf8_lossy;
use crate::media::MediaType;
use crate::response::create_external_repsonse;
use crate::response::create_module_response;
use crate::response::Property;
use crate::response::PropertyContent;
use crate::text::concat2;
use crate::text::concat3;
use crate::text::decimal_text;
use crate::text::same_text;

verus! {

/// What a caller wants a module as.
#[derive(Debug)]
pub enum RequestedModuleType {
    Unspecified,
    Json,
    Text,
    Bytes,
    Other(String),
}

/// The type that JavaScript callers know by a number, or the error for a number
/// that stands for none.
pub fn parse_requested_module_type(number: u8) -> (requested: Result<
    RequestedModuleType,
    LoaderError,
>)
    ensures
        requested is Ok <==> number <= 3,
        requested matches Ok(requested) ==> requested == type_of(number),
        requested matches Err(error) ==> error@ == crate::error::plain_error(
            "Invalid requested module type: "@ + crate::text::decimal(number),
        ),
{
    match number {
        0 => Ok(RequestedModuleType::Unspecified),
        1 => Ok(RequestedModuleType::Json),
        2 => Ok(RequestedModuleType::Text),
        3 => Ok(RequestedModuleType::Bytes),
        _ => Err(
            LoaderError::msg(
                concat2("Invalid requested module type: ", decimal_text(number).as_str()),
            ),
        ),
    }
}

/// The type that JavaScript callers know by a number of at most 3.
pub open spec fn type_of(number: u8) -> RequestedModuleType {
    if number == 0 {
        RequestedModuleType::Unspecified
    } else if number == 1 {
        RequestedModuleType::Json
    } else if number == 2 {
        RequestedModuleType::Text
    } else {
        RequestedModuleType::Bytes
    }
}

/// What the module loader says of a URL.
pub enum Prepared {
    /// The module is ready.
    Module { specifier: String, media_type: MediaType, source: Vec<u8> },
    /// The module is an asset that has to be fetched.
    ExternalAsset { specifier: String },
    /// The module graph does not know the URL.
    Unprepared,
    /// The module could not be loaded.
    Failed(LoaderError),
}

/// A file that was fetched, at the URL that it came from in the end.
pub struct FetchedFile {
    pub url: String,
    pub headers: Option<HashMap<String, String>>,
    pub source: Vec<u8>,
}

/// A load that waits for the module loader.
pub struct AwaitingModule {
    pub url: String,
    pub scheme: String,
    pub requested: RequestedModuleType,
}

/// A load that waits for an asset to be fetched.
pub struct AwaitingAsset {}

/// A load that waits for a file that the module graph does not know.
pub struct AwaitingFile {
    pub url: String,
    pub requested: RequestedModuleType,
}

/// A load that waits for a source to be turned into JavaScript.
pub struct AwaitingTranspile {
    pub url: String,
    pub media_type: MediaType,
}

/// The next step of a load.
pub enum LoadStep {
    /// Ask the module loader for the URL.
    LoadModule(AwaitingModule),
    /// Fetch an asset from this URL.
    FetchAsset(String, AwaitingAsset),
    /// Fetch the URL.
    FetchFile(AwaitingFile),
    /// Turn this source into JavaScript.
    Transpile(String, AwaitingTranspile),
    /// Hand these properties to the caller. Where a module is named, what was
    /// parsed of its source is not needed any more.
    Respond(Vec<Property>, Option<String>),
    /// Nothing can be loaded.
    Fail(LoaderError),
}

/// Whether the load ends with these properties, and releases this module.
pub open spec fn responds(
    step: LoadStep,
    properties: Seq<(Seq<char>, PropertyContent)>,
    released: Option<String>,
) -> bool {
    &&& step matches LoadStep::Respond(given, freed)
    &&& crate::response::properties_view(given@) == properties
    &&& freed == released
}

/// Whether the load ends with an error that has this message alone.
pub open spec fn fails_with(step: LoadStep, message: Seq<char>) -> bool {
    step matches LoadStep::Fail(error) && error@ == crate::error::plain_error(message)
}

/// Why a `jsr:` URL is not loaded.
pub open spec fn jsr_message(url: Seq<char>) -> Seq<char> {
    "Failed loading '"@ + url
        + "'. jsr: specifiers must be resolved to an https: specifier before being loaded."@
}

/// Why an `npm:` URL is not loaded.
pub open spec fn npm_message(url: Seq<char>) -> Seq<char> {
    "Failed resolving '"@ + url
        + "'\n\nResolve the npm: specifier to a file: specifier before providing it to the loader."@
}

/// Whether `step` is the first of a load, where the URL is known with its scheme,
/// or the message that says why there is none. A module of Node is for the
/// caller's own runtime, a `jsr:` URL is refused, and any other is for the module
/// loader.
pub open spec fn begins(
    url: Result<(Seq<char>, Seq<char>), Seq<char>>,
    requested: RequestedModuleType,
    step: LoadStep,
) -> bool {
    match url {
        Err(message) => fails_with(step, message),
        Ok((url, scheme)) => if scheme == "node"@ {
            responds(step, crate::response::external_response(url), None)
        } else if scheme == "jsr"@ {
            fails_with(step, jsr_message(url))
        } else {
            &&& step matches LoadStep::LoadModule(wait)
            &&& wait.url@ == url
            &&& wait.scheme@ == scheme
            &&& wait.requested == requested
        },
    }
}

/// The first step of a load of a URL that was parsed.
pub fn begin_parsed(url: String, scheme: String, requested: RequestedModuleType) -> (step: LoadStep)
    ensures
        begins(Ok((url@, scheme@)), requested, step),
{
    if same_text(scheme.as_str(), "node") {
        LoadStep::Respond(create_external_repsonse(url.as_str()), None)
    } else if same_text(scheme.as_str(), "jsr") {
        LoadStep::Fail(
            LoaderError::msg(
                concat3(
                    "Failed loading '",
                    url.as_str(),
                    "'. jsr: specifiers must be resolved to an https: specifier before being loaded.",
                ),
            ),
        )
    } else {
        LoadStep::LoadModule(AwaitingModule { url, scheme, requested })
    }
}

/// The first step of a load.
pub fn begin(url: &str, requested: RequestedModuleType) -> (step: LoadStep)
    ensures
        begins(crate::host::url_parsed(url@), requested, step),
        step matches LoadStep::LoadModule(wait) ==> wait.scheme@.push(':').is_prefix_of(wait.url@),
{
    match parse_url(url) {
        Ok(url) => begin_parsed(url.href, url.scheme, requested),
        Err(message) => LoadStep::Fail(LoaderError::msg(message)),
    }
}

impl AwaitingModule {
    /// Whether `step` is the one that follows when the module loader has
    /// answered. What the module graph does not know is fetched, except for an
    /// `npm:` URL.
    pub open spec fn goes_on(self, outcome: Prepared, step: LoadStep) -> bool {
        match outcome {
            Prepared::Module { specifier, media_type, source } => responds(
                step,
                crate::response::module_response(specifier@, media_type, source@),
                Some(specifier),
            ),
            Prepared::ExternalAsset { specifier } => step == LoadStep::FetchAsset(
                specifier,
                AwaitingAsset {  },
            ),
            Prepared::Unprepared => if self.scheme@ == "npm"@ {
                fails_with(step, npm_message(self.url@))
            } else {
                step == LoadStep::FetchFile(
                    AwaitingFile { url: self.url, requested: self.requested },
                )
            },
            Prepared::Failed(error) => step == LoadStep::Fail(error),
        }
    }

    /// Takes what the module loader says.
    pub fn prepared(self, outcome: Prepared) -> (step: LoadStep)
        ensures
            self.goes_on(outcome, step),
    {
        match outcome {
            Prepared::Module { specifier, media_type, source } => {
                let properties: Vec<Property> = create_module_response(
                    specifier.as_str(),
                    media_type,
                    source.as_slice(),
                );
                LoadStep::Respond(properties, Some(specifier))
            },
            Prepared::ExternalAsset { specifier } => LoadStep::FetchAsset(
                specifier,
                AwaitingAsset {  },
            ),
            Prepared::Unprepared => {
                if same_text(self.scheme.as_str(), "npm") {
                    LoadStep::Fail(
                        LoaderError::msg(
                            concat3(
                                "Failed resolving '",
                                self.url.as_str(),
                                "'\n\nResolve the npm: specifier to a file: specifier before providing it to the loader.",
                            ),
                        ),
                    )
                } else {
                    LoadStep::FetchFile(AwaitingFile { url: self.url, requested: self.requested })
                }
            },
            Prepared::Failed(error) => LoadStep::Fail(error),
        }
    }
}

impl AwaitingAsset {
    /// Whether `step` is the one that follows when the asset was to be fetched:
    /// it is handed on as it is, with the media type of where it came from.
    pub open spec fn goes_on(
        self,
        outcome: Result<FetchedFile, LoaderError>,
        step: LoadStep,
    ) -> bool {
        match outcome {
            Ok(file) => match crate::host::url_parsed(file.url@) {
                Ok(_) => responds(
                    step,
                    crate::response::module_response(
                        file.url@,
                        crate::host::response_media_type(
                            file.url@,
                            crate::host::headers_view(file.headers),
                        ),
                        file.source@,
                    ),
                    None,
                ),
                Err(message) => fails_with(step, message),
            },
            Err(error) => step == LoadStep::Fail(error),
        }
    }

    /// Takes the asset.
    pub fn fetched(self, outcome: Result<FetchedFile, LoaderError>) -> (step: LoadStep)
        ensures
            self.goes_on(outcome, step),
    {
        match outcome {
            Ok(file) => match parse_url(file.url.as_str()) {
                Ok(_) => {
                    let media_type: MediaType = media_type_of_response(
                        file.url.as_str(),
                        &file.headers,
                    );
                    LoadStep::Respond(
                        create_module_response(
                            file.url.as_str(),
                            media_type,
                            file.source.as_slice(),
                        ),
                        None,
                    )
                },
                Err(message) => LoadStep::Fail(LoaderError::msg(message)),
            },
            Err(error) => LoadStep::Fail(error),
        }
    }
}

/// Whether a source of this media type is turned into JavaScript for a caller who
/// wants it as `requested`: never where the text or the bytes themselves are
/// wanted.
pub open spec fn is_transpiled(media_type: MediaType, requested: RequestedModuleType) -> bool {
    !(requested is Text) && !(requested is Bytes) && media_type.emittable()
}

impl AwaitingFile {
    /// Whether `step` is the one that follows for a file of this media type.
    pub open spec fn has_type(
        self,
        file: FetchedFile,
        media_type: MediaType,
        step: LoadStep,
    ) -> bool {
        if is_transpiled(media_type, self.requested) {
            &&& step matches LoadStep::Transpile(text, wait)
            &&& text@ == crate::host::utf8_replaced(file.source@)
            &&& wait == (AwaitingTranspile { url: file.url, media_type })
        } else {
            responds(
                step,
                crate::response::module_response(file.url@, media_type, file.source@),
                None,
            )
        }
    }

    /// Whether `step` is the one that follows when the file was to be fetched.
    /// Its media type goes by the URL that was asked for.
    pub open spec fn goes_on(
        self,
        outcome: Result<FetchedFile, LoaderError>,
        step: LoadStep,
    ) -> bool {
        match outcome {
            Ok(file) => match crate::host::url_parsed(self.url@) {
                Ok(_) => self.has_type(
                    file,
                    crate::host::response_media_type(
                        self.url@,
                        crate::host::headers_view(file.headers),
                    ),
                    step,
                ),
                Err(message) => fails_with(step, message),
            },
            Err(error) => step == LoadStep::Fail(error),
        }
    }

    /// Takes a file of this media type.
    pub fn fetched_as(self, file: FetchedFile, media_type: MediaType) -> (step: LoadStep)
        ensures
            self.has_type(file, media_type, step),
            vstd::utf8::valid_utf8(file.source@) ==> (step matches LoadStep::Transpile(text, _)
                ==> text@ == vstd::utf8::decode_utf8(file.source@)),
    {
        match self.requested {
            RequestedModuleType::Text | RequestedModuleType::Bytes => LoadStep::Respond(
                create_module_response(file.url.as_str(), media_type, file.source.as_slice()),
                None,
            ),
            RequestedModuleType::Json | RequestedModuleType::Unspecified | RequestedModuleType::Other(
                _,
            ) => {
                if media_type.is_emittable() {
                    let text: String = utf8_lossy(file.source.as_slice());
                    LoadStep::Transpile(text, AwaitingTranspile { url: file.url, media_type })
                } else {
                    LoadStep::Respond(
                        create_module_response(
                            file.url.as_str(),
                            media_type,
                            file.source.as_slice(),
                        ),
                        None,
                    )
                }
            },
        }
    }

    /// Takes the file.
    pub fn fetched(self, outcome: Result<FetchedFile, LoaderError>) -> (step: LoadStep)
        ensures
            self.goes_on(outcome, step),
    {
        match outcome {
            Ok(file) => match parse_url(self.url.as_str()) {
                Ok(_) => {
                    let media_type: MediaType = media_type_of_response(
                        self.url.as_str(),
                        &file.headers,
                    );
                    self.fetched_as(file, media_type)
                },
                Err(message) => LoadStep::Fail(LoaderError::msg(message)),
            },
            Err(error) => LoadStep::Fail(error),
        }
    }
}

impl AwaitingTranspile {
    /// Whether `step` is the one that follows when the source was to be turned
    /// into JavaScript.
    pub open spec fn goes_on(self, outcome: Result<String, LoaderError>, step: LoadStep) -> bool {
        match outcome {
            Ok(text) => responds(
                step,
                crate::response::module_response(
                    self.url@,
                    self.media_type,
                    vstd::utf8::encode_utf8(text@),
                ),
                None,
            ),
            Err(error) => step == LoadStep::Fail(error),
        }
    }

    /// Takes the JavaScript.
    pub fn transpiled(self, outcome: Result<String, LoaderError>) -> (step: LoadStep)
        ensures
            self.goes_on(outcome, step),
    {
        match outcome {
            Ok(text) => LoadStep::Respond(
                create_module_response(
                    self.url.as_str(),
                    self.media_type,
                    text.as_str().as_bytes(),
                ),
                None,
            ),
            Err(error) => LoadStep::Fail(error),
        }
    }
}

/// What a load is told.
pub enum LoadOutcome {
    Module(Prepared),
    File(Result<FetchedFile, LoaderError>),
    Text(Result<String, LoaderError>),
}

/// Whether `next` can follow `step` when that has had this outcome.
pub open spec fn follows(step: LoadStep, outcome: LoadOutcome, next: LoadStep) -> bool {
    match (step, outcome) {
        (LoadStep::LoadModule(wait), LoadOutcome::Module(outcome)) => wait.goes_on(outcome, next),
        (LoadStep::FetchAsset(_, wait), LoadOutcome::File(outcome)) => wait.goes_on(outcome, next),
        (LoadStep::FetchFile(wait), LoadOutcome::File(outcome)) => wait.goes_on(outcome, next),
        (LoadStep::Transpile(_, wait), LoadOutcome::Text(outcome)) => wait.goes_on(outcome, next),
        _ => false,
    }
}

/// The most outcomes that a load still has to be told.
pub open spec fn steps_left(step: LoadStep) -> nat {
    match step {
        LoadStep::LoadModule(_) => 3,
        LoadStep::FetchFile(_) => 2,
        LoadStep::FetchAsset(_, _) => 1,
        LoadStep::Transpile(_, _) => 1,
        LoadStep::Respond(_, _) => 0,
        LoadStep::Fail(_) => 0,
    }
}

/// Whether these are steps of one load in turn, each with its outcome.
pub open spec fn is_run(steps: Seq<LoadStep>, outcomes: Seq<LoadOutcome>) -> bool {
    &&& steps.len() == outcomes.len() + 1
    &&& forall|i: int|
        0 <= i < outcomes.len() ==> follows(steps[i], #[trigger] outcomes[i], steps[i + 1])
}

/// Every load comes to an end: each outcome that it is told leaves fewer to come,
/// and there are never more than three.
pub proof fn law_load_ends(steps: Seq<LoadStep>, outcomes: Seq<LoadOutcome>)
    requires
        is_run(steps, outcomes),
    ensures
        outcomes.len() + steps_left(steps.last()) <= steps_left(steps[0]) <= 3,
        outcomes.len() == steps_left(steps[0]) ==> steps.last() is Respond || steps.last() is Fail,
    decreases outcomes.len(),
{
    if outcomes.len() > 0 {
        let (s, o) = (steps.drop_last(), outcomes.drop_last());
        assert forall|i: int| 0 <= i < o.len() implies follows(s[i], #[trigger] o[i], s[i + 1]) by {
            assert(o[i] == outcomes[i]);
        }
        assert(follows(s.last(), outcomes[outcomes.len() - 1], steps.last()));
        law_load_ends(s, o);
    }
}

/// Neither a module of Node nor a `jsr:` URL gets as far as the module loader or
/// the network.
pub proof fn law_node_and_jsr_end_at_once(
    url: Seq<char>,
    scheme: Seq<char>,
    requested: RequestedModuleType,
    step: LoadStep,
)
    requires
        scheme == "node"@ || scheme == "jsr"@,
        begins(Ok((url, scheme)), requested, step),
    ensures
        step is Respond || step is Fail,
        scheme == "node"@ <==> step is Respond,
{
    reveal_strlit("node");
    reveal_strlit("jsr");
}

/// An `npm:` URL that the module graph does not know is never fetched.
pub proof fn law_npm_is_never_fetched(
    wait: AwaitingModule,
    outcome: Prepared,
    next: LoadStep,
)
    requires
        wait.scheme@ == "npm"@,
        wait.goes_on(outcome, next),
    ensures
        !(next is FetchFile),
        outcome is Unprepared ==> fails_with(next, npm_message(wait.url@)),
{
}

/// A caller who wants the text or the bytes of a file gets them as they were
/// fetched, at the URL where the file was found.
pub proof fn law_text_and_bytes_are_left_alone(
    wait: AwaitingFile,
    file: FetchedFile,
    media_type: MediaType,
    next: LoadStep,
)
    requires
        wait.requested is Text || wait.requested is Bytes,
        wait.has_type(file, media_type, next),
    ensures
        responds(
            next,
            crate::response::module_response(file.url@, media_type, file.source@),
            None,
        ),
{
}

/// An error that a load is told ends it with that error.
pub proof fn law_errors_end_a_load(step: LoadStep, outcome: LoadOutcome, next: LoadStep)
    requires
        follows(step, outcome, next),
    ensures
        outcome matches LoadOutcome::Module(Prepared::Failed(error)) ==> next == LoadStep::Fail(
            error,
        ),
        outcome matches LoadOutcome::File(Err(error)) ==> next == LoadStep::Fail(error),
        outcome matches LoadOutcome::Text(Err(error)) ==> next == LoadStep::Fail(error),
{
}

/// Only a module that the module loader gave is released afterwards.
pub proof fn law_only_loaded_modules_are_released(
    step: LoadStep,
    outcome: LoadOutcome,
    next: LoadStep,
)
    requires
        follows(step, outcome, next),
    ensures
        next matches LoadStep::Respond(_, Some(specifier)) ==> (outcome matches LoadOutcome::Module(
            Prepared::Module { specifier: loaded, .. },
        ) && loaded == specifier),
{
}

/// Which format a source is turned into.
#[derive(Clone, Copy, Debug, PartialEq, Eq, Structural)]
pub enum ModuleKind {
    Esm,
    Cjs,
}

/// What the tracker of CommonJS modules is asked.
#[derive(Clone, Copy, Debug, PartialEq, Eq, Structural)]
pub enum CjsQuestion {
    /// Whether the module is CommonJS, where it is known whether it is a script.
    KnownScript(bool),
    /// Whether the module could be CommonJS.
    MaybeCjs,
}

/// A module is CommonJS where the tracker says so. Where that was only a question
/// of what it could be, its source has to be a script too.
pub proof fn law_what_is_common_js(
    is_known_script: Option<bool>,
    question: CjsQuestion,
    answer: bool,
    is_script: bool,
    kind: ModuleKind,
)
    requires
        call_ensures(cjs_question, (is_known_script,), question),
        call_ensures(module_kind, (question, answer, is_script), kind),
    ensures
        is_known_script is None <==> question is MaybeCjs,
        is_known_script matches Some(known) ==> question == CjsQuestion::KnownScript(known),
        !answer ==> kind == ModuleKind::Esm,
        answer && is_script ==> kind == ModuleKind::Cjs,
        answer && !is_script ==> (kind == ModuleKind::Cjs <==> is_known_script is Some),
{
}

/// What the tracker of CommonJS modules has to be asked.
pub fn cjs_question(is_known_script: Option<bool>) -> (question: CjsQuestion)
    ensures
        question == (match is_known_script {
            Some(is_script) => CjsQuestion::KnownScript(is_script),
            None => CjsQuestion::MaybeCjs,
        }),
{
    match is_known_script {
        Some(is_script) => CjsQuestion::KnownScript(is_script),
        None => CjsQuestion::MaybeCjs,
    }
}

/// Which format a source is turned into. `answer` is that of the tracker of
/// CommonJS modules, `is_script` what the source itself looks like. A module that
/// could be CommonJS is so when its source is a script.
pub fn module_kind(question: CjsQuestion, answer: bool, is_script: bool) -> (kind: ModuleKind)
    ensures
        kind == (if answer && (question is MaybeCjs ==> is_script) {
            ModuleKind::Cjs
        } else {
            ModuleKind::Esm
        }),
{
    let is_cjs: bool = match question {
        CjsQuestion::KnownScript(_) => answer,
        CjsQuestion::MaybeCjs => answer && is_script,
    };
    if is_cjs {
        ModuleKind::Cjs
    } else {
        ModuleKind::Esm
    }
}

/// The numbers of the types are 0 for nothing special, 1 for JSON, 2 for text and
/// 3 for bytes. No other number stands for a type.
pub proof fn law_numbers_of_requested_types(
    number: u8,
    requested: Result<RequestedModuleType, LoaderError>,
)
    requires
        call_ensures(parse_requested_module_type, (number,), requested),
    ensures
        number == 0 <==> requested == Ok::<RequestedModuleType, LoaderError>(
            RequestedModuleType::Unspecified,
        ),
        number == 1 <==> requested == Ok::<RequestedModuleType, LoaderError>(
            RequestedModuleType::Json,
        ),
        number == 2 <==> requested == Ok::<RequestedModuleType, LoaderError>(
            RequestedModuleType::Text,
        ),
        number == 3 <==> requested == Ok::<RequestedModuleType, LoaderError>(
            RequestedModuleType::Bytes,
        ),
        number > 3 <==> requested is Err,
        requested matches Err(error) ==> error.graph_error is None && error.messages@.len() == 1
            && error.messages@[0]@ == "Invalid requested module type: "@ + crate::text::decimal(
            number,
        ),
{
    if let Err(error) = requested {
        crate::error::lemma_messages(error);
        assert(error@.messages[0] == "Invalid requested module type: "@ + crate::text::decimal(
            number,
        ));
    }
}

/// A module that is ready is handed back as it is, with its own URL, and is
/// released.
pub proof fn law_ready_module_is_handed_back(
    wait: AwaitingModule,
    specifier: String,
    media_type: MediaType,
    source: Vec<u8>,
    step: LoadStep,
)
    requires
        call_ensures(
            AwaitingModule::prepared,
            (wait, Prepared::Module { specifier, media_type, source }),
            step,
        ),
    ensures
        step matches LoadStep::Respond(properties, released) && {
            &&& released == Some(specifier)
            &&& crate::response::properties_view(properties@)
                == crate::response::module_response(specifier@, media_type, source@)
        },
{
}

/// An asset is fetched from where the module loader says, and a URL that the graph
/// does not know is fetched itself, for the type that was asked for, unless it has
/// the scheme `npm`.
pub proof fn law_what_is_fetched(wait: AwaitingModule, outcome: Prepared, step: LoadStep)
    requires
        call_ensures(AwaitingModule::prepared, (wait, outcome), step),
    ensures
        outcome is ExternalAsset <==> step is FetchAsset,
        outcome matches Prepared::ExternalAsset { specifier } ==> (step matches
            LoadStep::FetchAsset(url, _) && url == specifier),
        outcome is Unprepared && wait.scheme@ != "npm"@ <==> step is FetchFile,
        step matches LoadStep::FetchFile(file) ==> file.url == wait.url && file.requested
            == wait.requested,
        outcome is Unprepared && wait.scheme@ == "npm"@ ==> (step matches LoadStep::Fail(error)
            && error.graph_error is None && error.messages@.len() == 1 && error.messages@[0]@
            == "Failed resolving '"@ + wait.url@
            + "'\n\nResolve the npm: specifier to a file: specifier before providing it to the loader."@),
        outcome matches Prepared::Failed(error) ==> step == LoadStep::Fail(error),
{
    if let LoadStep::Fail(error) = step {
        crate::error::lemma_messages(error);
        if outcome is Unprepared {
            assert(error@.messages[0] == npm_message(wait.url@));
        }
    }
}

/// An asset is handed back byte for byte, at the URL where it was found, with the
/// media type that this URL and its headers give it.
pub proof fn law_asset_is_handed_back(wait: AwaitingAsset, file: FetchedFile, step: LoadStep)
    requires
        call_ensures(AwaitingAsset::fetched, (wait, Ok::<FetchedFile, LoaderError>(file)), step),
        crate::host::url_parsed(file.url@) is Ok,
    ensures
        step matches LoadStep::Respond(properties, released) && {
            &&& released is None
            &&& crate::response::properties_view(properties@)
                == crate::response::module_response(
                file.url@,
                crate::host::response_media_type(
                    file.url@,
                    crate::host::headers_view(file.headers),
                ),
                file.source@,
            )
        },
{
}

/// A file that was fetched is turned into JavaScript exactly when it is
/// TypeScript or JSX, in any of their five forms, and neither its text nor its
/// bytes were asked for. The text of it is what its bytes decode to.
pub proof fn law_typescript_and_jsx_are_transpiled(
    wait: AwaitingFile,
    file: FetchedFile,
    media_type: MediaType,
    step: LoadStep,
)
    requires
        call_ensures(AwaitingFile::fetched_as, (wait, file, media_type), step),
    ensures
        wait.requested is Unspecified || wait.requested is Json || wait.requested is Other ==> (
        step is Transpile <==> (media_type == MediaType::TypeScript || media_type == MediaType::Mts
            || media_type == MediaType::Cts || media_type == MediaType::Jsx || media_type
            == MediaType::Tsx)),
        wait.requested is Text || wait.requested is Bytes ==> !(step is Transpile),
        step matches LoadStep::Transpile(text, next) ==> {
            &&& text@ == crate::host::utf8_replaced(file.source@)
            &&& next.url == file.url
            &&& next.media_type == media_type
        },
        !(step is Transpile) ==> (step matches LoadStep::Respond(properties, released) && {
            &&& released is None
            &&& crate::response::properties_view(properties@)
                == crate::response::module_response(file.url@, media_type, file.source@)
        }),
{
}

/// What becomes of a file that the graph does not know goes by the media type that
/// the URL it was asked for, and not the one where it was found, gives it.
pub proof fn law_asked_url_gives_the_media_type(
    wait: AwaitingFile,
    file: FetchedFile,
    step: LoadStep,
)
    requires
        call_ensures(AwaitingFile::fetched, (wait, Ok::<FetchedFile, LoaderError>(file)), step),
        crate::host::url_parsed(wait.url@) is Ok,
    ensures
        ({
            let media_type = crate::host::response_media_type(
                wait.url@,
                crate::host::headers_view(file.headers),
            );
            &&& wait.requested is Unspecified || wait.requested is Json || wait.requested is Other
                ==> (step is Transpile <==> (media_type == MediaType::TypeScript || media_type
                == MediaType::Mts || media_type == MediaType::Cts || media_type == MediaType::Jsx
                || media_type == MediaType::Tsx))
            &&& wait.requested is Text || wait.requested is Bytes ==> !(step is Transpile)
            &&& step matches LoadStep::Transpile(text, next) ==> {
                &&& text@ == crate::host::utf8_replaced(file.source@)
                &&& next.url == file.url
                &&& next.media_type == media_type
            }
            &&& !(step is Transpile) ==> (step matches LoadStep::Respond(properties, released) && {
                &&& released is None
                &&& crate::response::properties_view(properties@)
                    == crate::response::module_response(file.url@, media_type, file.source@)
            })
        }),
{
}

/// What was turned into JavaScript is handed back as that, with the URL and the
/// media type of its source.
pub proof fn law_javascript_is_handed_back(wait: AwaitingTranspile, text: String, step: LoadStep)
    requires
        call_ensures(AwaitingTranspile::transpiled, (wait, Ok::<String, LoaderError>(text)), step),
    ensures
        step matches LoadStep::Respond(properties, released) && {
            &&& released is None
            &&& crate::response::properties_view(properties@)
                == crate::response::module_response(
                wait.url@,
                wait.media_type,
                vstd::utf8::encode_utf8(text@),
            )
        },
{
}

/// Every error that a load is told is what it ends with.
pub proof fn law_told_errors_end_a_load(
    asset: AwaitingAsset,
    file: AwaitingFile,
    transpile: AwaitingTranspile,
    error: LoaderError,
    step: LoadStep,
)
    requires
        call_ensures(AwaitingAsset::fetched, (asset, Err::<FetchedFile, LoaderError>(error)), step)
            || call_ensures(
            AwaitingFile::fetched,
            (file, Err::<FetchedFile, LoaderError>(error)),
            step,
        ) || call_ensures(
            AwaitingTranspile::transpiled,
            (transpile, Err::<String, LoaderError>(error)),
            step,
        ),
    ensures
        step == LoadStep::Fail(error),
{
}

/// A URL that was parsed goes to the module loader with what was asked for, unless
/// its scheme is `node` or `jsr`.
pub proof fn law_parsed_url_is_loaded(
    url: String,
    scheme: String,
    requested: RequestedModuleType,
    step: LoadStep,
)
    requires
        call_ensures(begin_parsed, (url, scheme, requested), step),
    ensures
        step is Respond <==> scheme@ == "node"@,
        step is Fail <==> scheme@ == "jsr"@,
        step is LoadModule <==> scheme@ != "node"@ && scheme@ != "jsr"@,
        step matches LoadStep::LoadModule(wait) ==> wait.url@ == url@ && wait.scheme@ == scheme@
            && wait.requested == requested,
{
    reveal_strlit("node");
    reveal_strlit("jsr");
    assert("node"@.len() == 4 && "jsr"@.len() == 3);
}

/// A file with a URL that cannot be parsed ends the load with the message of the
/// parse.
pub proof fn law_unparsed_urls_end_a_load(
    asset: AwaitingAsset,
    wait: AwaitingFile,
    file: FetchedFile,
    after_asset: LoadStep,
    after_file: LoadStep,
)
    requires
        call_ensures(
            AwaitingAsset::fetched,
            (asset, Ok::<FetchedFile, LoaderError>(file)),
            after_asset,
        ),
        call_ensures(
            AwaitingFile::fetched,
            (wait, Ok::<FetchedFile, LoaderError>(file)),
            after_file,
        ),
    ensures
        crate::host::url_parsed(file.url@) matches Err(message) ==> (after_asset matches
            LoadStep::Fail(error) && error.graph_error is None && error.messages@.len() == 1
            && error.messages@[0]@ == message),
        crate::host::url_parsed(wait.url@) matches Err(message) ==> (after_file matches
            LoadStep::Fail(error) && error.graph_error is None && error.messages@.len() == 1
            && error.messages@[0]@ == message),
{
    if let Err(message) = crate::host::url_parsed(file.url@) {
        crate::error::lemma_messages(after_asset->Fail_0);
        assert(after_asset->Fail_0@.messages[0] == message);
    }
    if let Err(message) = crate::host::url_parsed(wait.url@) {
        crate::error::lemma_messages(after_file->Fail_0);
        assert(after_file->Fail_0@.messages[0] == message);
    }
}

} // verus!
