//! Resolution of specifiers.
//!
//! A resolution is a series of steps. Each asks for something to be done, and
//! holds what has to be told the outcome; telling it gives the next step.

use vstd::prelude::*;

use crate::error::LoaderError;
use crate::host::is_jsr_reference;
use crate::host::is_npm_reference;
use crate::host::url_from_directory_path;
use crate::paths::resolve_entrypoint;
use crate::paths::EntrypointRequest;
use crate::text::chars_of;
use crate::text::starts_with;

verus! {

/// How a module asks for another.
#[derive(Clone, Copy, Debug, PartialEq, Eq, Structural)]
pub enum ResolutionMode {
    Import,
    Require,
}

/// The mode that JavaScript callers know by a number: 1 is `Require`, every other
/// number is `Import`.
pub fn parse_resolution_mode(resolution_mode: u8) -> (mode: ResolutionMode)
    ensures
        mode == mode_of(resolution_mode),
{
    match resolution_mode {
        1 => ResolutionMode::Require,
        _ => ResolutionMode::Import,
    }
}

/// The mode that JavaScript callers know by a number.
pub open spec fn mode_of(number: u8) -> ResolutionMode {
    if number == 1 {
        ResolutionMode::Require
    } else {
        ResolutionMode::Import
    }
}

/// What a module is resolved for.
#[derive(Clone, Copy, Debug, PartialEq, Eq, Structural)]
pub enum NodeResolutionKind {
    Execution,
    Types,
}

/// What the resolver is asked: a specifier, seen from a referrer.
pub struct ResolveRequest {
    pub specifier: String,
    pub referrer: String,
    pub mode: ResolutionMode,
    pub kind: NodeResolutionKind,
}

/// A resolution that is under way.
pub struct Resolution {
    /// The directory that entrypoints are seen from.
    pub cwd: String,
    /// The referrer, where the specifier is not an entrypoint.
    pub importer: Option<String>,
    pub mode: ResolutionMode,
    /// Whether packages that turn up may be added to the module graph. They then
    /// stay npm and JSR specifiers until that is done, and the specifier is
    /// resolved a second time.
    pub may_add: bool,
}

/// A resolution that waits for the URL of its entrypoint.
pub struct AwaitingEntrypoint {
    pub resolution: Resolution,
}

/// A resolution that waits for what the module graph gives for a specifier.
pub struct AwaitingGraph {
    pub resolution: Resolution,
    pub specifier: String,
}

/// A resolution that waits for a package to be added to the module graph.
pub struct AwaitingAddition {
    pub resolution: Resolution,
    pub specifier: String,
}

/// The next step of a resolution.
pub enum ResolveStep {
    /// Ask the resolver for an entrypoint, without the module graph.
    ResolveEntrypoint(ResolveRequest, AwaitingEntrypoint),
    /// Ask the resolver, with the module graph. The flag says whether npm and JSR
    /// specifiers are kept as they are.
    ResolveWithGraph(ResolveRequest, bool, AwaitingGraph),
    /// Add this URL to the module graph.
    AddEntrypoint(String, AwaitingAddition),
    /// Nothing is left to do.
    Done(Result<String, LoaderError>),
}

/// Whether the resolution ends with an error that has this message alone.
pub open spec fn fails_with(step: ResolveStep, message: Seq<char>) -> bool {
    step matches ResolveStep::Done(Err(error)) && error@ == crate::error::plain_error(message)
}

/// Whether the step asks for a specifier, seen from a referrer, with the graph.
pub open spec fn asks_graph(
    step: ResolveStep,
    resolution: Resolution,
    specifier: Seq<char>,
    referrer: Seq<char>,
) -> bool {
    &&& step matches ResolveStep::ResolveWithGraph(request, keep, wait)
    &&& request.specifier@ == specifier
    &&& request.referrer@ == referrer
    &&& request.mode == resolution.mode
    &&& request.kind == NodeResolutionKind::Execution
    &&& keep == resolution.may_add
    &&& wait.resolution == resolution
    &&& wait.specifier@ == specifier
}

/// Whether `step` can follow once the URL of the entrypoint is known: it is
/// looked for in the graph, seen from the directory.
pub open spec fn follows_entrypoint(
    resolution: Resolution,
    url: Seq<char>,
    step: ResolveStep,
) -> bool {
    exists|directory: Result<Seq<char>, Seq<char>>|
        {
            &&& #[trigger] crate::host::is_url_of_directory(resolution.cwd@, directory)
            &&& match directory {
                Ok(directory) => asks_graph(step, resolution, url, directory),
                Err(message) => fails_with(step, message),
            }
        }
}

/// Whether `step` can be the first of a resolution of `specifier`. With a
/// referrer, it is looked for in the graph as it is. Without one it is an
/// entrypoint, whose URL comes first.
pub open spec fn begins(resolution: Resolution, specifier: Seq<char>, step: ResolveStep) -> bool {
    match resolution.importer {
        Some(referrer) => asks_graph(step, resolution, specifier, referrer@),
        None => exists|request: Result<EntrypointRequest, String>|
            {
                &&& #[trigger] crate::paths::is_entrypoint_request(
                    specifier,
                    resolution.cwd@,
                    resolution.mode,
                    request,
                )
                &&& match request {
                    Ok(EntrypointRequest::Located(url)) => follows_entrypoint(
                        resolution,
                        url@,
                        step,
                    ),
                    Ok(EntrypointRequest::Ask(request)) => step
                        == ResolveStep::ResolveEntrypoint(
                        request,
                        AwaitingEntrypoint { resolution },
                    ),
                    Err(message) => fails_with(step, message@),
                }
            },
    }
}

/// Whether a URL is one that stands for a package until it is added to the
/// module graph.
pub open spec fn is_package(url: Seq<char>) -> bool {
    crate::host::npm_reference(url) || crate::host::jsr_reference(url)
}

impl Resolution {
    /// The step that asks the graph for an entrypoint, where the URL of the
    /// directory, or the message that says why it has none, is known.
    pub fn look_up(self, url: String, directory: Result<String, String>) -> (step: ResolveStep)
        ensures
            directory matches Ok(directory) ==> asks_graph(step, self, url@, directory@),
            directory matches Err(message) ==> fails_with(step, message@),
    {
        match directory {
            Ok(referrer) => {
                let request = ResolveRequest {
                    specifier: url.clone(),
                    referrer,
                    mode: self.mode,
                    kind: NodeResolutionKind::Execution,
                };
                let keep: bool = self.may_add;
                ResolveStep::ResolveWithGraph(
                    request,
                    keep,
                    AwaitingGraph { resolution: self, specifier: url },
                )
            },
            Err(message) => ResolveStep::Done(Err(LoaderError::msg(message))),
        }
    }

    fn entrypoint_found(self, url: String) -> (step: ResolveStep)
        ensures
            follows_entrypoint(self, url@, step),
    {
        let directory: Result<String, String> = url_from_directory_path(self.cwd.as_str());
        assert(crate::host::is_url_of_directory(self.cwd@, crate::host::outcome_view(directory)));
        self.look_up(url, directory)
    }

    /// The first step of a resolution of `specifier`.
    pub fn begin(self, specifier: String) -> (step: ResolveStep)
        ensures
            begins(self, specifier@, step),
    {
        match &self.importer {
            Some(referrer) => {
                let request = ResolveRequest {
                    specifier: specifier.clone(),
                    referrer: referrer.clone(),
                    mode: self.mode,
                    kind: NodeResolutionKind::Execution,
                };
                let keep: bool = self.may_add;
                ResolveStep::ResolveWithGraph(
                    request,
                    keep,
                    AwaitingGraph { resolution: self, specifier },
                )
            },
            None => {
                let request: Result<EntrypointRequest, String> = resolve_entrypoint(
                    specifier.as_str(),
                    self.cwd.as_str(),
                    self.mode,
                );
                assert(crate::paths::is_entrypoint_request(
                    specifier@,
                    self.cwd@,
                    self.mode,
                    request,
                ));
                match request {
                    Ok(EntrypointRequest::Located(url)) => self.entrypoint_found(url),
                    Ok(EntrypointRequest::Ask(request)) => ResolveStep::ResolveEntrypoint(
                        request,
                        AwaitingEntrypoint { resolution: self },
                    ),
                    Err(message) => ResolveStep::Done(Err(LoaderError::msg(message))),
                }
            },
        }
    }
}

impl AwaitingEntrypoint {
    /// Whether `step` can follow when the resolver has answered.
    pub open spec fn goes_on(self, outcome: Result<String, LoaderError>, step: ResolveStep) -> bool {
        match outcome {
            Ok(url) => follows_entrypoint(self.resolution, url@, step),
            Err(error) => step == ResolveStep::Done(Err(error)),
        }
    }

    /// Takes the URL of the entrypoint.
    pub fn resolved(self, outcome: Result<String, LoaderError>) -> (step: ResolveStep)
        ensures
            self.goes_on(outcome, step),
    {
        match outcome {
            Ok(url) => self.resolution.entrypoint_found(url),
            Err(error) => ResolveStep::Done(Err(error)),
        }
    }
}

/// Whether a URL is written as one of a package whose version has no next one,
/// because a part of it is the largest number.
pub open spec fn has_no_next_version(url: Seq<char>) -> bool {
    ("npm:"@.is_prefix_of(url) || "jsr:"@.is_prefix_of(url)) && crate::host::has_largest_number(url)
}

fn is_largest_number_at(text: &Vec<char>, number: &Vec<char>, i: usize) -> (found: bool)
    requires
        number@ == crate::host::largest_number(),
        1 <= i,
        i + number@.len() <= text@.len(),
    ensures
        found == crate::host::largest_number_at(text@, i as int),
{
    let before: char = text[i - 1];
    if before != '@' && before != '~' && before != '^' && before != '.' {
        return false;
    }
    let len: usize = number.len();
    let total: usize = text.len();
    for k in 0..len
        invariant
            len == number@.len(),
            total == text@.len(),
            number@ == crate::host::largest_number(),
            i + len <= total,
            forall|j: int| 0 <= j < k ==> text@[i + j] == number@[j],
    {
        if text[i + k] != number[k] {
            assert(text@.subrange(i as int, i + len)[k as int] == text@[i + k]);
            return false;
        }
    }
    assert(text@.subrange(i as int, i + len) =~= number@);
    i + len == total || text[i + len] < '0' || text[i + len] > '9'
}

fn find_largest_number(text: &str) -> (found: bool)
    ensures
        found == crate::host::has_largest_number(text@),
{
    let number: Vec<char> = chars_of("18446744073709551615");
    let chars: Vec<char> = chars_of(text);
    let total: usize = chars.len();
    let len: usize = number.len();
    let mut i: usize = 1;
    while i < total && len <= total - i
        invariant
            chars@ == text@,
            number@ == crate::host::largest_number(),
            total == chars@.len(),
            len == number@.len(),
            1 <= i,
            forall|j: int| j < i ==> !crate::host::largest_number_at(text@, j),
        decreases total - i,
    {
        if is_largest_number_at(&chars, &number, i) {
            return true;
        }
        i = i + 1;
    }
    proof {
        reveal_strlit("18446744073709551615");
    }
    false
}

impl AwaitingGraph {
    /// Whether an outcome can be taken: where packages may be added, not a package
    /// whose version has no next one.
    pub open spec fn may_take(self, outcome: Result<String, LoaderError>) -> bool {
        outcome matches Ok(url) ==> !(self.resolution.may_add && has_no_next_version(url@))
    }

    /// Whether [`AwaitingGraph::resolved`] can take an outcome.
    pub fn can_take(&self, outcome: &Result<String, LoaderError>) -> (possible: bool)
        ensures
            possible == self.may_take(*outcome),
    {
        match outcome {
            Ok(url) => {
                if self.resolution.may_add && (starts_with(url.as_str(), "npm:") || starts_with(
                    url.as_str(),
                    "jsr:",
                )) {
                    !find_largest_number(url.as_str())
                } else {
                    true
                }
            },
            Err(_) => true,
        }
    }

    /// Whether `step` is the one that follows when the graph has been asked. A
    /// package is added to the graph first, where that is still to be done.
    pub open spec fn goes_on(self, outcome: Result<String, LoaderError>, step: ResolveStep) -> bool {
        match outcome {
            Ok(url) => step == (if self.resolution.may_add && is_package(url@) {
                ResolveStep::AddEntrypoint(
                    url,
                    AwaitingAddition { resolution: self.resolution, specifier: self.specifier },
                )
            } else {
                ResolveStep::Done(Ok(url))
            }),
            Err(error) => step == ResolveStep::Done(Err(error)),
        }
    }

    /// The step that follows, where it is known whether the URL stands for a
    /// package.
    pub fn resolved_to(self, url: String, package: bool) -> (step: ResolveStep)
        ensures
            step == (if self.resolution.may_add && package {
                ResolveStep::AddEntrypoint(
                    url,
                    AwaitingAddition { resolution: self.resolution, specifier: self.specifier },
                )
            } else {
                ResolveStep::Done(Ok(url))
            }),
    {
        if self.resolution.may_add && package {
            ResolveStep::AddEntrypoint(
                url,
                AwaitingAddition { resolution: self.resolution, specifier: self.specifier },
            )
        } else {
            ResolveStep::Done(Ok(url))
        }
    }

    /// Takes what the module graph gives. A package is added to the graph first,
    /// where that is still to be done.
    pub fn resolved(self, outcome: Result<String, LoaderError>) -> (step: ResolveStep)
        requires
            self.may_take(outcome),
        ensures
            self.goes_on(outcome, step),
            step matches ResolveStep::AddEntrypoint(url, _) ==> "npm:"@.is_prefix_of(url@)
                || "jsr:"@.is_prefix_of(url@),
    {
        match outcome {
            Ok(url) => {
                let package: bool = self.resolution.may_add && (is_npm_reference(url.as_str())
                    || is_jsr_reference(url.as_str()));
                self.resolved_to(url, package)
            },
            Err(error) => ResolveStep::Done(Err(error)),
        }
    }
}

/// The resolution, with nothing more to add to the module graph.
pub open spec fn without_adding(resolution: Resolution) -> Resolution {
    Resolution {
        cwd: resolution.cwd,
        importer: resolution.importer,
        mode: resolution.mode,
        may_add: false,
    }
}

impl AwaitingAddition {
    /// Whether `step` can follow when the package was to be added: the specifier
    /// is resolved again, this time to what the package holds.
    pub open spec fn goes_on(self, outcome: Result<(), LoaderError>, step: ResolveStep) -> bool {
        match outcome {
            Ok(_) => begins(without_adding(self.resolution), self.specifier@, step),
            Err(error) => step == ResolveStep::Done(Err(error)),
        }
    }

    /// Takes whether the package could be added. The specifier is then resolved
    /// again, this time to what the package holds.
    pub fn added(self, outcome: Result<(), LoaderError>) -> (step: ResolveStep)
        ensures
            self.goes_on(outcome, step),
    {
        match outcome {
            Ok(_) => {
                let resolution = Resolution {
                    cwd: self.resolution.cwd,
                    importer: self.resolution.importer,
                    mode: self.resolution.mode,
                    may_add: false,
                };
                resolution.begin(self.specifier)
            },
            Err(error) => ResolveStep::Done(Err(error)),
        }
    }
}

/// What a resolution is told.
pub enum ResolveOutcome {
    Url(Result<String, LoaderError>),
    Addition(Result<(), LoaderError>),
}

/// Whether `next` can follow `step` when that has had this outcome.
pub open spec fn follows(step: ResolveStep, outcome: ResolveOutcome, next: ResolveStep) -> bool {
    match (step, outcome) {
        (ResolveStep::ResolveEntrypoint(_, wait), ResolveOutcome::Url(outcome)) => wait.goes_on(
            outcome,
            next,
        ),
        (ResolveStep::ResolveWithGraph(_, _, wait), ResolveOutcome::Url(outcome)) => wait.goes_on(
            outcome,
            next,
        ),
        (ResolveStep::AddEntrypoint(_, wait), ResolveOutcome::Addition(outcome)) => wait.goes_on(
            outcome,
            next,
        ),
        _ => false,
    }
}

/// The most outcomes that a resolution still has to be told.
pub open spec fn steps_left(step: ResolveStep) -> nat {
    match step {
        ResolveStep::ResolveEntrypoint(_, wait) => if wait.resolution.may_add {
            5
        } else {
            2
        },
        ResolveStep::ResolveWithGraph(_, _, wait) => if wait.resolution.may_add {
            4
        } else {
            1
        },
        ResolveStep::AddEntrypoint(_, _) => 3,
        ResolveStep::Done(_) => 0,
    }
}

/// Whether these are steps of one resolution in turn, each with its outcome.
pub open spec fn is_run(steps: Seq<ResolveStep>, outcomes: Seq<ResolveOutcome>) -> bool {
    &&& steps.len() == outcomes.len() + 1
    &&& forall|i: int|
        0 <= i < outcomes.len() ==> follows(steps[i], #[trigger] outcomes[i], steps[i + 1])
}

/// What came before the last outcome is a run too.
proof fn lemma_shorter_run(steps: Seq<ResolveStep>, outcomes: Seq<ResolveOutcome>)
    requires
        is_run(steps, outcomes),
        outcomes.len() > 0,
    ensures
        is_run(steps.drop_last(), outcomes.drop_last()),
        follows(steps.drop_last().last(), outcomes.last(), steps.last()),
{
    let (s, o) = (steps.drop_last(), outcomes.drop_last());
    assert forall|i: int| 0 <= i < o.len() implies follows(s[i], #[trigger] o[i], s[i + 1]) by {
        assert(o[i] == outcomes[i]);
    }
    assert(outcomes[outcomes.len() - 1] == outcomes.last());
}

/// Every resolution comes to an end: each outcome that it is told leaves fewer to
/// come, and there are never more than five.
pub proof fn law_resolution_ends(steps: Seq<ResolveStep>, outcomes: Seq<ResolveOutcome>)
    requires
        is_run(steps, outcomes),
    ensures
        outcomes.len() + steps_left(steps.last()) <= steps_left(steps[0]) <= 5,
        outcomes.len() == steps_left(steps[0]) ==> steps.last() is Done,
    decreases outcomes.len(),
{
    if outcomes.len() > 0 {
        lemma_shorter_run(steps, outcomes);
        law_resolution_ends(steps.drop_last(), outcomes.drop_last());
    }
}

/// Whether a step changes the module graph, or can lead to one that does.
pub open spec fn may_touch_graph(step: ResolveStep) -> bool {
    match step {
        ResolveStep::ResolveEntrypoint(_, wait) => wait.resolution.may_add,
        ResolveStep::ResolveWithGraph(_, _, wait) => wait.resolution.may_add,
        ResolveStep::AddEntrypoint(_, _) => true,
        ResolveStep::Done(_) => false,
    }
}

/// A resolution that may not add packages never adds any: it begins so, and goes
/// on so whatever it is told.
pub proof fn law_plain_resolution_leaves_graph_alone(
    resolution: Resolution,
    specifier: Seq<char>,
    steps: Seq<ResolveStep>,
    outcomes: Seq<ResolveOutcome>,
)
    requires
        !resolution.may_add,
        begins(resolution, specifier, steps[0]),
        is_run(steps, outcomes),
    ensures
        forall|i: int| 0 <= i < steps.len() ==> !(#[trigger] steps[i] is AddEntrypoint),
{
    lemma_graph_is_left_alone(steps, outcomes);
}

/// From a step that cannot lead to a change of the module graph on, none does.
proof fn lemma_graph_is_left_alone(steps: Seq<ResolveStep>, outcomes: Seq<ResolveOutcome>)
    requires
        is_run(steps, outcomes),
        !may_touch_graph(steps[0]),
    ensures
        forall|i: int| 0 <= i < steps.len() ==> !may_touch_graph(#[trigger] steps[i]),
    decreases outcomes.len(),
{
    if outcomes.len() > 0 {
        lemma_shorter_run(steps, outcomes);
        lemma_graph_is_left_alone(steps.drop_last(), outcomes.drop_last());
        assert forall|i: int| 0 <= i < steps.len() implies !may_touch_graph(#[trigger] steps[i]) by {
            if i < steps.len() - 1 {
                assert(steps[i] == steps.drop_last()[i]);
            } else {
                assert(!may_touch_graph(steps.drop_last()[steps.len() - 2]));
            }
        }
    }
}

/// A resolution adds to the module graph at most once.
pub proof fn law_at_most_one_addition(
    steps: Seq<ResolveStep>,
    outcomes: Seq<ResolveOutcome>,
    i: int,
    j: int,
)
    requires
        is_run(steps, outcomes),
        0 <= i < j < steps.len(),
        steps[i] is AddEntrypoint,
    ensures
        !(steps[j] is AddEntrypoint),
{
    let (s, o) = (steps.skip(i + 1), outcomes.skip(i + 1));
    assert(follows(steps[i], outcomes[i], steps[i + 1]));
    assert forall|k: int| 0 <= k < o.len() implies follows(s[k], #[trigger] o[k], s[k + 1]) by {
        assert(o[k] == outcomes[k + i + 1]);
    }
    assert(s[0] == steps[i + 1]);
    lemma_graph_is_left_alone(s, o);
    assert(s[j - i - 1] == steps[j]);
}

/// An error that a resolution is told ends it with that error.
pub proof fn law_errors_end_a_resolution(
    step: ResolveStep,
    outcome: ResolveOutcome,
    next: ResolveStep,
)
    requires
        follows(step, outcome, next),
    ensures
        outcome matches ResolveOutcome::Url(Err(error)) ==> next == ResolveStep::Done(Err(error)),
        outcome matches ResolveOutcome::Addition(Err(error)) ==> next == ResolveStep::Done(
            Err(error),
        ),
{
}

/// The resolution that a step belongs to.
pub open spec fn resolution_of(step: ResolveStep) -> Option<Resolution> {
    match step {
        ResolveStep::ResolveEntrypoint(_, wait) => Some(wait.resolution),
        ResolveStep::ResolveWithGraph(_, _, wait) => Some(wait.resolution),
        ResolveStep::AddEntrypoint(_, wait) => Some(wait.resolution),
        ResolveStep::Done(_) => None,
    }
}

/// A resolution keeps the directory, the referrer and the mode that it began
/// with until it ends.
pub proof fn law_resolution_is_kept(
    resolution: Resolution,
    specifier: Seq<char>,
    steps: Seq<ResolveStep>,
    outcomes: Seq<ResolveOutcome>,
)
    requires
        begins(resolution, specifier, steps[0]),
        is_run(steps, outcomes),
    ensures
        !(steps.last() is Done) ==> without_adding(resolution_of(steps.last())->0)
            == without_adding(resolution),
    decreases outcomes.len(),
{
    if outcomes.len() > 0 {
        lemma_shorter_run(steps, outcomes);
        law_resolution_is_kept(resolution, specifier, steps.drop_last(), outcomes.drop_last());
    }
}

/// A resolution ends well only with the URL that the module graph gave last. That
/// is never a reference to a package which the resolution still had to add.
pub proof fn law_resolved_url_is_from_the_graph(
    resolution: Resolution,
    specifier: Seq<char>,
    steps: Seq<ResolveStep>,
    outcomes: Seq<ResolveOutcome>,
    url: String,
)
    requires
        begins(resolution, specifier, steps[0]),
        is_run(steps, outcomes),
        steps.last() == ResolveStep::Done(Ok(url)),
    ensures
        outcomes.len() > 0,
        outcomes.last() == ResolveOutcome::Url(Ok(url)),
        steps[steps.len() - 2] matches ResolveStep::ResolveWithGraph(_, _, wait)
            && (wait.resolution.may_add ==> !crate::host::npm_reference(url@)
            && !crate::host::jsr_reference(url@)),
{
    if outcomes.len() > 0 {
        lemma_shorter_run(steps, outcomes);
    }
}

/// Whether two steps ask the module graph the same, and do the same with what it
/// answers.
pub open spec fn ask_the_same(a: ResolveStep, b: ResolveStep) -> bool {
    &&& a matches ResolveStep::ResolveWithGraph(request, keep, wait)
    &&& b matches ResolveStep::ResolveWithGraph(other, other_keep, other_wait)
    &&& request.specifier@ == other.specifier@
    &&& request.referrer@ == other.referrer@
    &&& request.mode == other.mode
    &&& request.kind == other.kind
    &&& keep == other_keep
    &&& wait.resolution.may_add == other_wait.resolution.may_add
}

/// A resolution from a referrer that has added a package asks the module graph in
/// the end what one that may not add asks at once, and for the same answer both
/// end the same.
pub proof fn law_added_package_is_found_again(
    resolution: Resolution,
    plain: Resolution,
    specifier: Seq<char>,
    steps: Seq<ResolveStep>,
    outcomes: Seq<ResolveOutcome>,
    k: int,
    url: String,
    again: ResolveStep,
)
    requires
        resolution.may_add,
        !plain.may_add,
        resolution.importer is Some,
        plain.importer is Some,
        resolution.importer->0@ == plain.importer->0@,
        resolution.mode == plain.mode,
        begins(resolution, specifier, steps[0]),
        is_run(steps, outcomes),
        0 <= k < steps.len(),
        steps[k] is AddEntrypoint,
        steps.last() == ResolveStep::Done(Ok(url)),
        begins(plain, specifier, again),
    ensures
        steps.len() == 4,
        ask_the_same(steps[2], again),
        outcomes.last() == ResolveOutcome::Url(Ok(url)),
        forall|next: ResolveStep|
            #[trigger] follows(again, outcomes.last(), next) ==> next == steps.last(),
{
    assert(outcomes.len() > 0) by {
        if outcomes.len() == 0 {
            assert(steps.last() == steps[0]);
        }
    }
    assert(follows(steps[0], outcomes[0], steps[1]));
    assert(k >= 1);
    assert(outcomes.len() > 1) by {
        if outcomes.len() == 1 {
            assert(steps.last() == steps[1]);
        }
    }
    assert(follows(steps[1], outcomes[1], steps[2]));
    assert(steps[1] is AddEntrypoint);
    assert(outcomes.len() > 2) by {
        if outcomes.len() == 2 {
            assert(steps.last() == steps[2]);
        }
    }
    assert(follows(steps[2], outcomes[2], steps[3]));
    assert(outcomes.len() == 3) by {
        if outcomes.len() > 3 {
            assert(follows(steps[3], outcomes[3], steps[4]));
        }
    }
    assert(steps.last() == steps[3]);
    assert(outcomes.last() == outcomes[2]);
}

/// A resolution that may not add packages can take whatever the graph gives.
pub proof fn law_plain_resolution_takes_everything(
    wait: AwaitingGraph,
    outcome: Result<String, LoaderError>,
)
    requires
        !wait.resolution.may_add,
    ensures
        wait.may_take(outcome),
{
}

/// The number 1 asks for `Require`, and every other number for `Import`.
pub proof fn law_one_is_require(number: u8, mode: ResolutionMode)
    requires
        call_ensures(parse_resolution_mode, (number,), mode),
    ensures
        number == 1 <==> mode == ResolutionMode::Require,
        number != 1 <==> mode == ResolutionMode::Import,
{
}

/// Where packages may be added, every reference to an npm or a JSR package that
/// the graph gives is added, with the specifier kept for later. Every other URL
/// ends the resolution.
pub proof fn law_packages_are_added(wait: AwaitingGraph, url: String, next: ResolveStep)
    requires
        call_ensures(AwaitingGraph::resolved, (wait, Ok::<String, LoaderError>(url)), next),
    ensures
        wait.resolution.may_add && crate::host::npm_reference(url@) ==> next is AddEntrypoint,
        wait.resolution.may_add && crate::host::jsr_reference(url@) ==> next is AddEntrypoint,
        next matches ResolveStep::AddEntrypoint(added, addition) ==> {
            &&& added == url
            &&& addition.resolution == wait.resolution
            &&& addition.specifier == wait.specifier
            &&& wait.resolution.may_add
            &&& crate::host::npm_reference(url@) || crate::host::jsr_reference(url@)
        },
        !(next is AddEntrypoint) ==> next == ResolveStep::Done(Ok(url)),
{
}

/// A lookup that is told whether the URL is a package adds it exactly when it may
/// and it is.
pub proof fn law_told_packages_are_added(
    wait: AwaitingGraph,
    url: String,
    package: bool,
    next: ResolveStep,
)
    requires
        call_ensures(AwaitingGraph::resolved_to, (wait, url, package), next),
    ensures
        next is AddEntrypoint <==> wait.resolution.may_add && package,
        next matches ResolveStep::AddEntrypoint(added, addition) ==> added == url
            && addition.resolution == wait.resolution && addition.specifier == wait.specifier,
        !(next is AddEntrypoint) ==> next == ResolveStep::Done(Ok(url)),
{
}

/// Only a package whose version has the largest number as a part cannot be taken,
/// and only where it could be added. That number stands behind an at sign, a
/// tilde, a caret or a dot, and no digit follows it.
pub proof fn law_what_can_be_taken(
    wait: AwaitingGraph,
    outcome: Result<String, LoaderError>,
    possible: bool,
)
    requires
        call_ensures(AwaitingGraph::can_take, (&wait, &outcome), possible),
    ensures
        !wait.resolution.may_add ==> possible,
        outcome is Err ==> possible,
        outcome matches Ok(url) ==> {
            &&& !"npm:"@.is_prefix_of(url@) && !"jsr:"@.is_prefix_of(url@) ==> possible
            &&& !possible ==> exists|i: int|
                {
                    &&& 1 <= i
                    &&& i + 20 <= url@.len()
                    &&& #[trigger] url@.subrange(i, i + 20) == "18446744073709551615"@
                    &&& url@[i - 1] == '@' || url@[i - 1] == '~' || url@[i - 1] == '^' || url@[i
                        - 1] == '.'
                    &&& i + 20 == url@.len() || !('0' <= url@[i + 20] <= '9')
                }
        },
{
    reveal_strlit("18446744073709551615");
    if !possible {
        let url = outcome->Ok_0;
        let i = choose|i: int| crate::host::largest_number_at(url@, i);
        assert(crate::host::largest_number_at(url@, i));
        assert(url@.subrange(i, i + 20) == "18446744073709551615"@);
    }
}

/// With a referrer, the module graph is asked at once: for the specifier as it is,
/// from that referrer, in the mode of the resolution and for execution. Packages
/// are kept as they are exactly when they may be added.
pub proof fn law_referrer_is_asked_from(
    resolution: Resolution,
    specifier: String,
    referrer: String,
    next: ResolveStep,
)
    requires
        resolution.importer == Some(referrer),
        call_ensures(Resolution::begin, (resolution, specifier), next),
    ensures
        next matches ResolveStep::ResolveWithGraph(request, keep, wait) && {
            &&& request.specifier@ == specifier@
            &&& request.referrer@ == referrer@
            &&& request.mode == resolution.mode
            &&& request.kind == NodeResolutionKind::Execution
            &&& keep == resolution.may_add
            &&& wait.resolution == resolution
            &&& wait.specifier@ == specifier@
        },
{
}

/// Without a referrer, a specifier that holds no backslash is for the resolver:
/// as it is, from the URL of the directory, in the mode of the resolution and for
/// execution. Only a directory without a URL stops that.
pub proof fn law_entrypoint_is_asked_for(
    resolution: Resolution,
    specifier: String,
    next: ResolveStep,
)
    requires
        resolution.importer is None,
        !specifier@.contains('\\'),
        call_ensures(Resolution::begin, (resolution, specifier), next),
    ensures
        match next {
            ResolveStep::ResolveEntrypoint(request, wait) => {
                &&& request.specifier@ == specifier@
                &&& crate::host::is_directory_url(resolution.cwd@, Ok(request.referrer@))
                &&& request.mode == resolution.mode
                &&& request.kind == NodeResolutionKind::Execution
                &&& wait.resolution == resolution
            },
            ResolveStep::Done(Err(error)) => {
                &&& error.graph_error is None
                &&& error.messages@.len() == 1
                &&& crate::host::is_directory_url(resolution.cwd@, Err(error.messages@[0]@))
            },
            _ => false,
        },
{
    if let ResolveStep::Done(Err(error)) = next {
        lemma_single_message(error);
    }
}

/// An error with one message holds that message.
proof fn lemma_single_message(error: LoaderError)
    ensures
        forall|message: Seq<char>|
            error@ == #[trigger] crate::error::plain_error(message) ==> error.graph_error is None
                && error.messages@.len() == 1 && error.messages@[0]@ == message,
{
    assert forall|message: Seq<char>|
        error@ == #[trigger] crate::error::plain_error(message) implies error.graph_error is None
        && error.messages@.len() == 1 && error.messages@[0]@ == message by {
        assert(error@.messages.len() == 1);
        assert(error@.messages[0] == message);
        assert(error@.messages[0] == error.messages@[0]@);
    }
}

/// Whether an error can be why an entrypoint cannot be looked up: one message,
/// either that the directory has no URL, or, for a specifier with a backslash,
/// that the file has none.
pub open spec fn is_lookup_error(
    specifier: Seq<char>,
    cwd: Seq<char>,
    error: LoaderError,
) -> bool {
    &&& error.graph_error is None
    &&& error.messages@.len() == 1
    &&& crate::host::is_directory_url(cwd, Err(error.messages@[0]@)) || (specifier.contains('\\')
        && crate::paths::is_located(specifier, cwd, Err(error.messages@[0]@)))
}

/// Without a referrer, a specifier that holds a backslash is never for the
/// resolver: the URL of that file is looked up in the graph, from the URL of the
/// directory.
pub proof fn law_backslash_entrypoint_is_a_file(
    resolution: Resolution,
    specifier: String,
    next: ResolveStep,
)
    requires
        resolution.importer is None,
        specifier@.contains('\\'),
        call_ensures(Resolution::begin, (resolution, specifier), next),
    ensures
        match next {
            ResolveStep::ResolveWithGraph(request, keep, wait) => {
                &&& "file:"@.is_prefix_of(request.specifier@)
                &&& crate::paths::is_located(
                    specifier@,
                    resolution.cwd@,
                    Ok(request.specifier@),
                )
                &&& crate::host::is_directory_url(resolution.cwd@, Ok(request.referrer@))
                &&& request.mode == resolution.mode
                &&& request.kind == NodeResolutionKind::Execution
                &&& keep == resolution.may_add
                &&& wait.resolution == resolution
                &&& wait.specifier@ == request.specifier@
            },
            ResolveStep::Done(Err(error)) => is_lookup_error(
                specifier@,
                resolution.cwd@,
                error,
            ),
            _ => false,
        },
{
    lemma_located_begin(resolution, specifier@, next);
}

/// How a resolution of a specifier with a backslash begins.
pub proof fn lemma_located_begin(resolution: Resolution, specifier: Seq<char>, next: ResolveStep)
    requires
        resolution.importer is None,
        specifier.contains('\\'),
        begins(resolution, specifier, next),
    ensures
        next matches ResolveStep::ResolveWithGraph(request, keep, wait) ==> {
            &&& "file:"@.is_prefix_of(request.specifier@)
            &&& crate::paths::is_located(specifier, resolution.cwd@, Ok(request.specifier@))
            &&& asks_graph(next, resolution, request.specifier@, request.referrer@)
            &&& crate::host::is_directory_url(resolution.cwd@, Ok(request.referrer@))
        },
        next matches ResolveStep::Done(outcome) ==> (outcome matches Err(error)
            && is_lookup_error(specifier, resolution.cwd@, error)),
        next is ResolveWithGraph || next is Done,
{
    if let ResolveStep::Done(Err(error)) = next {
        lemma_single_message(error);
    }
    let request = choose|request: Result<EntrypointRequest, String>|
        {
            &&& #[trigger] crate::paths::is_entrypoint_request(
                specifier,
                resolution.cwd@,
                resolution.mode,
                request,
            )
            &&& match request {
                Ok(EntrypointRequest::Located(url)) => follows_entrypoint(
                    resolution,
                    url@,
                    next,
                ),
                Ok(EntrypointRequest::Ask(request)) => next == ResolveStep::ResolveEntrypoint(
                    request,
                    AwaitingEntrypoint { resolution },
                ),
                Err(message) => fails_with(next, message@),
            }
        };
    let outcome: Result<Seq<char>, Seq<char>> = match request {
        Ok(EntrypointRequest::Located(url)) => Ok(url@),
        Ok(EntrypointRequest::Ask(_)) => Err(seq![]),
        Err(message) => Err(message@),
    };
    crate::paths::lemma_located(specifier, resolution.cwd@, outcome);
}

/// The URL of an entrypoint, once the resolver has given it, is looked up in the
/// graph from the URL of the directory, in the mode of the resolution and for
/// execution.
pub proof fn law_found_entrypoint_is_looked_up(
    wait: AwaitingEntrypoint,
    url: String,
    next: ResolveStep,
)
    requires
        call_ensures(AwaitingEntrypoint::resolved, (wait, Ok::<String, LoaderError>(url)), next),
    ensures
        match next {
            ResolveStep::ResolveWithGraph(request, keep, graph) => {
                &&& request.specifier@ == url@
                &&& crate::host::is_directory_url(wait.resolution.cwd@, Ok(request.referrer@))
                &&& request.mode == wait.resolution.mode
                &&& request.kind == NodeResolutionKind::Execution
                &&& keep == wait.resolution.may_add
                &&& graph.resolution == wait.resolution
                &&& graph.specifier@ == url@
            },
            ResolveStep::Done(Err(error)) => {
                &&& error.graph_error is None
                &&& error.messages@.len() == 1
                &&& crate::host::is_directory_url(wait.resolution.cwd@, Err(error.messages@[0]@))
            },
            _ => false,
        },
{
    if let ResolveStep::Done(Err(error)) = next {
        lemma_single_message(error);
    }
}

/// After a package was added, the resolution begins again: for the same
/// specifier, from the same referrer or directory, in the same mode. Packages are
/// not kept as they are any more, and nothing more may be added.
pub proof fn law_added_package_is_looked_up(wait: AwaitingAddition, next: ResolveStep)
    requires
        call_ensures(AwaitingAddition::added, (wait, Ok::<(), LoaderError>(())), next),
    ensures
        match next {
            ResolveStep::ResolveWithGraph(request, keep, graph) => {
                &&& !keep
                &&& !graph.resolution.may_add
                &&& graph.resolution.cwd == wait.resolution.cwd
                &&& graph.resolution.importer == wait.resolution.importer
                &&& graph.resolution.mode == wait.resolution.mode
                &&& request.mode == wait.resolution.mode
                &&& request.kind == NodeResolutionKind::Execution
                &&& wait.resolution.importer matches Some(referrer) ==> request.specifier@
                    == wait.specifier@ && request.referrer@ == referrer@
                &&& graph.specifier@ == request.specifier@
                &&& wait.resolution.importer is None ==> wait.specifier@.contains('\\')
                    && crate::host::is_directory_url(wait.resolution.cwd@, Ok(request.referrer@))
                    && crate::paths::is_located(
                    wait.specifier@,
                    wait.resolution.cwd@,
                    Ok(request.specifier@),
                )
            },
            ResolveStep::ResolveEntrypoint(request, graph) => {
                &&& wait.resolution.importer is None
                &&& !wait.specifier@.contains('\\')
                &&& request.specifier@ == wait.specifier@
                &&& crate::host::is_directory_url(wait.resolution.cwd@, Ok(request.referrer@))
                &&& request.mode == wait.resolution.mode
                &&& request.kind == NodeResolutionKind::Execution
                &&& !graph.resolution.may_add
                &&& graph.resolution.cwd == wait.resolution.cwd
                &&& graph.resolution.importer is None
                &&& graph.resolution.mode == wait.resolution.mode
            },
            ResolveStep::Done(Err(error)) => wait.resolution.importer is None && is_lookup_error(
                wait.specifier@,
                wait.resolution.cwd@,
                error,
            ),
            _ => false,
        },
{
    let resolution = without_adding(wait.resolution);
    if let ResolveStep::Done(Err(error)) = next {
        lemma_single_message(error);
    }
    if resolution.importer is None && wait.specifier@.contains('\\') {
        lemma_located_begin(resolution, wait.specifier@, next);
    }
}

/// Every error that a resolution is told is what it ends with.
pub proof fn law_told_errors_are_results(
    entrypoint: AwaitingEntrypoint,
    graph: AwaitingGraph,
    addition: AwaitingAddition,
    error: LoaderError,
    next: ResolveStep,
)
    requires
        call_ensures(
            AwaitingEntrypoint::resolved,
            (entrypoint, Err::<String, LoaderError>(error)),
            next,
        ) || call_ensures(
            AwaitingGraph::resolved,
            (graph, Err::<String, LoaderError>(error)),
            next,
        ) || call_ensures(AwaitingAddition::added, (addition, Err::<(), LoaderError>(error)), next),
    ensures
        next == ResolveStep::Done(Err(error)),
{
}

/// Whether what a step asks, and what it holds, have this mode.
spec fn has_mode(step: ResolveStep, mode: ResolutionMode) -> bool {
    match step {
        ResolveStep::ResolveEntrypoint(request, wait) => request.mode == mode && request.kind
            == NodeResolutionKind::Execution && wait.resolution.mode == mode,
        ResolveStep::ResolveWithGraph(request, _, wait) => request.mode == mode && request.kind
            == NodeResolutionKind::Execution && wait.resolution.mode == mode,
        ResolveStep::AddEntrypoint(_, wait) => wait.resolution.mode == mode,
        ResolveStep::Done(_) => true,
    }
}

proof fn lemma_mode_is_kept(
    steps: Seq<ResolveStep>,
    outcomes: Seq<ResolveOutcome>,
    mode: ResolutionMode,
    i: int,
)
    requires
        is_run(steps, outcomes),
        has_mode(steps[0], mode),
        0 <= i < steps.len(),
    ensures
        has_mode(steps[i], mode),
    decreases i,
{
    if i > 0 {
        lemma_mode_is_kept(steps, outcomes, mode, i - 1);
        assert(follows(steps[i - 1], outcomes[i - 1], steps[i - 1 + 1]));
    }
}

/// Everything that a resolution asks, of the resolver as well as of the graph, is
/// asked in the mode that it began with, and for execution.
pub proof fn law_every_request_has_the_mode(
    resolution: Resolution,
    specifier: Seq<char>,
    steps: Seq<ResolveStep>,
    outcomes: Seq<ResolveOutcome>,
    i: int,
)
    requires
        begins(resolution, specifier, steps[0]),
        is_run(steps, outcomes),
        0 <= i < steps.len(),
    ensures
        steps[i] matches ResolveStep::ResolveEntrypoint(request, _) ==> request.mode
            == resolution.mode && request.kind == NodeResolutionKind::Execution,
        steps[i] matches ResolveStep::ResolveWithGraph(request, _, _) ==> request.mode
            == resolution.mode && request.kind == NodeResolutionKind::Execution,
{
    lemma_mode_is_kept(steps, outcomes, resolution.mode, i);
}

/// Whether what a step asks is the specifier, from the referrer.
spec fn is_from(step: ResolveStep, specifier: Seq<char>, referrer: String) -> bool {
    match step {
        ResolveStep::ResolveEntrypoint(_, _) => false,
        ResolveStep::ResolveWithGraph(request, keep, wait) => request.specifier@ == specifier
            && request.referrer@ == referrer@ && keep == wait.resolution.may_add
            && wait.specifier@ == specifier && wait.resolution.importer == Some(referrer),
        ResolveStep::AddEntrypoint(_, wait) => wait.specifier@ == specifier
            && wait.resolution.importer == Some(referrer),
        ResolveStep::Done(_) => true,
    }
}

/// From a referrer, a resolution only ever asks the graph, and always for the
/// specifier that it began with, from that referrer. Packages are kept as they are
/// only as long as one may be added.
pub proof fn law_every_lookup_is_from_the_referrer(
    resolution: Resolution,
    specifier: Seq<char>,
    referrer: String,
    steps: Seq<ResolveStep>,
    outcomes: Seq<ResolveOutcome>,
    i: int,
)
    requires
        resolution.importer == Some(referrer),
        begins(resolution, specifier, steps[0]),
        is_run(steps, outcomes),
        0 <= i < steps.len(),
    ensures
        !(steps[i] is ResolveEntrypoint),
        steps[i] matches ResolveStep::ResolveWithGraph(request, _, _) ==> request.specifier@
            == specifier && request.referrer@ == referrer@,
        steps[i] matches ResolveStep::ResolveWithGraph(_, keep, _) ==> keep == (i == 0
            && resolution.may_add),
{
    lemma_is_from(steps, outcomes, specifier, referrer, i);
    assert(steps[0] is ResolveWithGraph);
    if i > 0 {
        assert(follows(steps[0], outcomes[0], steps[1]));
        if i > 1 {
            assert(follows(steps[1], outcomes[1], steps[2]));
            let (s, o) = (steps.skip(2), outcomes.skip(2));
            assert forall|k: int| 0 <= k < o.len() implies follows(s[k], #[trigger] o[k], s[k + 1]) by {
                assert(o[k] == outcomes[k + 2]);
            }
            assert(s[0] == steps[2]);
            lemma_graph_is_left_alone(s, o);
            assert(s[i - 2] == steps[i]);
            assert(!may_touch_graph(steps[i]));
        }
    }
}

proof fn lemma_is_from(
    steps: Seq<ResolveStep>,
    outcomes: Seq<ResolveOutcome>,
    specifier: Seq<char>,
    referrer: String,
    i: int,
)
    requires
        is_run(steps, outcomes),
        is_from(steps[0], specifier, referrer),
        0 <= i < steps.len(),
    ensures
        is_from(steps[i], specifier, referrer),
    decreases i,
{
    if i > 0 {
        lemma_is_from(steps, outcomes, specifier, referrer, i - 1);
        assert(follows(steps[i - 1], outcomes[i - 1], steps[i - 1 + 1]));
    }
}

/// Once the URL of the directory is known, an entrypoint is looked up from it.
/// Where it has none, the message says why.
pub proof fn law_entrypoint_is_looked_up_from_the_directory(
    resolution: Resolution,
    url: String,
    directory: Result<String, String>,
    next: ResolveStep,
)
    requires
        call_ensures(Resolution::look_up, (resolution, url, directory), next),
    ensures
        directory matches Ok(referrer) ==> (next matches ResolveStep::ResolveWithGraph(
            request,
            keep,
            wait,
        ) && {
            &&& request.specifier@ == url@
            &&& request.referrer@ == referrer@
            &&& request.mode == resolution.mode
            &&& request.kind == NodeResolutionKind::Execution
            &&& keep == resolution.may_add
            &&& wait.resolution == resolution
            &&& wait.specifier@ == url@
        }),
        directory matches Err(message) ==> (next matches ResolveStep::Done(Err(error))
            && error.graph_error is None && error.messages@.len() == 1 && error.messages@[0]@
            == message@),
{
    if let ResolveStep::Done(Err(error)) = next {
        lemma_single_message(error);
    }
}

} // verus!
