//! The module graph, and how it is built.

use std::rc::Rc;

use vstd::prelude::*;

use crate::error::LoaderError;
use crate::host::share;

verus! {

/// Holds the current module graph. Readers share it; a new one takes its place
/// as a whole.
pub struct ModuleGraphCell<G> {
    graph: Rc<G>,
}

impl<G> ModuleGraphCell<G> {
    /// The graph that is held.
    pub closed spec fn current(self) -> G {
        *self.graph
    }

    /// Holds a graph.
    pub fn new(graph: G) -> (cell: Self)
        ensures
            cell.current() == graph,
    {
        ModuleGraphCell { graph: Rc::new(graph) }
    }

    /// A copy of the graph, for changing it while others still read it. It is
    /// equal to the graph where clones of such graphs are.
    pub fn deep_clone(&self) -> (graph: G) where G: Clone
        ensures
            cloned(self.current(), graph),
            clones_are_equal::<G>() ==> graph == self.current(),
    {
        let graph: G = (*self.graph).clone();
        assert(cloned(self.current(), graph));
        graph
    }

    /// The graph that is held now. It stays as it is when another takes its place.
    pub fn get(&self) -> (graph: Rc<G>)
        ensures
            *graph == self.current(),
    {
        share(&self.graph)
    }

    /// Holds another graph from now on.
    pub fn set(&mut self, graph: Rc<G>)
        ensures
            final(self).current() == *graph,
    {
        self.graph = graph;
    }

    /// Takes a graph that was built, or why none could be. A build that failed
    /// leaves the graph that is held as it is.
    pub fn take_build(&mut self, built: Result<G, LoaderError>) -> (outcome: Result<
        (),
        LoaderError,
    >)
        ensures
            final(self).current() == graph_after(old(self).current(), built),
            outcome == (match built {
                Ok(_) => Ok::<(), LoaderError>(()),
                Err(error) => Err(error),
            }),
    {
        match built {
            Ok(graph) => {
                self.set(Rc::new(graph));
                Ok(())
            },
            Err(error) => Err(error),
        }
    }
}

/// The graph that is held after a build: what was built, or the graph as it was
/// where nothing could be.
pub open spec fn graph_after<G>(before: G, built: Result<G, LoaderError>) -> G {
    match built {
        Ok(graph) => graph,
        Err(_) => before,
    }
}

/// What happens to the module graphs of the loaders of a workspace.
pub enum GraphEvent<G> {
    /// Another loader is created, with an empty graph of its own.
    Created(G),
    /// The graph of the loader with this number was to be built.
    Built(usize, Result<G, LoaderError>),
}

/// The graphs of all loaders after an event, by the numbers of the loaders.
pub open spec fn graphs_after<G>(graphs: Seq<G>, event: GraphEvent<G>) -> Seq<G> {
    match event {
        GraphEvent::Created(empty) => graphs.push(empty),
        GraphEvent::Built(i, built) => if i < graphs.len() {
            graphs.update(i as int, graph_after(graphs[i as int], built))
        } else {
            graphs
        },
    }
}

/// The graphs of all loaders after a series of events.
pub open spec fn graphs_after_all<G>(graphs: Seq<G>, events: Seq<GraphEvent<G>>) -> Seq<G>
    decreases events.len(),
{
    if events.len() == 0 {
        graphs
    } else {
        graphs_after(graphs_after_all(graphs, events.drop_last()), events.last())
    }
}

/// Whether a clone is always equal to what it was made of.
pub open spec fn clones_are_equal<G: Clone>() -> bool {
    forall|a: G, b: G| #[trigger] cloned(a, b) ==> a == b
}

/// What a module graph holds.
#[derive(Clone, Copy, Debug, PartialEq, Eq, Structural)]
pub enum GraphKind {
    All,
    CodeOnly,
    TypesOnly,
}

/// How the types of an npm package are found.
#[derive(Clone, Copy, Debug, PartialEq, Eq, Structural)]
pub enum NpmTypesResolutionMode {
    Strict,
    /// Where there are none, the code stands in.
    FallbackToExecution,
}

/// How the module graph is built.
pub struct GraphBuildSettings {
    /// Whether the graph first takes over what the lockfile holds.
    pub fill_from_lockfile: bool,
    pub is_dynamic: bool,
    pub skip_dynamic_deps: bool,
    pub passthrough_jsr_specifiers: bool,
    pub unstable_bytes_imports: bool,
    pub unstable_text_imports: bool,
    pub unstable_css_imports: bool,
    pub unstable_config_imports: bool,
    /// Whether the sources of npm packages are part of the graph.
    pub include_npm_sources: bool,
    pub npm_types: NpmTypesResolutionMode,
}

/// How the module graph is built. The lockfile, where there is one, is taken over
/// into a graph that has no roots yet.
pub fn graph_build_settings(has_roots: bool, has_lockfile: bool) -> (settings: GraphBuildSettings)
    ensures
        settings == (GraphBuildSettings {
            fill_from_lockfile: !has_roots && has_lockfile,
            is_dynamic: false,
            skip_dynamic_deps: false,
            passthrough_jsr_specifiers: false,
            unstable_bytes_imports: true,
            unstable_text_imports: true,
            unstable_css_imports: false,
            unstable_config_imports: false,
            include_npm_sources: false,
            npm_types: NpmTypesResolutionMode::FallbackToExecution,
        }),
{
    GraphBuildSettings {
        fill_from_lockfile: !has_roots && has_lockfile,
        is_dynamic: false,
        skip_dynamic_deps: false,
        passthrough_jsr_specifiers: false,
        unstable_bytes_imports: true,
        unstable_text_imports: true,
        unstable_css_imports: false,
        unstable_config_imports: false,
        include_npm_sources: false,
        npm_types: NpmTypesResolutionMode::FallbackToExecution,
    }
}

/// How the graph is walked for errors once entrypoints were added.
pub struct GraphWalkSettings {
    pub kind: GraphKind,
    pub check_js: bool,
    pub follow_dynamic: bool,
    pub prefer_fast_check_graph: bool,
}

/// How the graph is walked for errors: JavaScript is checked too, dynamic imports
/// are not followed, and the modules themselves are walked.
pub fn graph_walk_settings() -> (settings: GraphWalkSettings)
    ensures
        settings == (GraphWalkSettings {
            kind: GraphKind::CodeOnly,
            check_js: true,
            follow_dynamic: false,
            prefer_fast_check_graph: false,
        }),
{
    GraphWalkSettings {
        kind: GraphKind::CodeOnly,
        check_js: true,
        follow_dynamic: false,
        prefer_fast_check_graph: false,
    }
}

/// Entrypoints, the first of which have their URLs.
pub struct AwaitingUrl {
    pub entrypoints: Vec<String>,
    pub urls: Vec<String>,
}

/// Entrypoints that wait for the module graph to be built with their URLs.
pub struct AwaitingBuild {
    pub urls: Vec<String>,
}

/// Entrypoints that wait for the module graph to be walked from their URLs.
pub struct AwaitingWalk {
    pub urls: Vec<String>,
}

/// The next step in adding entrypoints.
pub enum EntrypointsStep {
    /// Find the URL of this entrypoint.
    Resolve(String, AwaitingUrl),
    /// Add the URLs to the module graph.
    Add(AwaitingBuild),
    /// Walk the module graph from the URLs, and collect what is wrong with it.
    Walk(AwaitingWalk),
    /// Hand what is wrong with the module graph to the caller.
    Report(Vec<String>),
    /// The entrypoints could not be added.
    Fail(LoaderError),
}

/// Whether `step` is the next one for these entrypoints, the first of which have
/// these URLs: the next entrypoint in turn, or all URLs once each has its own.
pub open spec fn next_entrypoint(
    entrypoints: Seq<String>,
    urls: Seq<String>,
    step: EntrypointsStep,
) -> bool {
    if urls.len() < entrypoints.len() {
        &&& step matches EntrypointsStep::Resolve(entrypoint, wait)
        &&& entrypoint == entrypoints[urls.len() as int]
        &&& wait.entrypoints@ == entrypoints
        &&& wait.urls@ == urls
    } else {
        step matches EntrypointsStep::Add(wait) && wait.urls@ == urls
    }
}

impl AwaitingUrl {
    fn next(self) -> (step: EntrypointsStep)
        ensures
            next_entrypoint(self.entrypoints@, self.urls@, step),
    {
        if self.urls.len() < self.entrypoints.len() {
            let entrypoint: String = self.entrypoints[self.urls.len()].clone();
            EntrypointsStep::Resolve(entrypoint, self)
        } else {
            EntrypointsStep::Add(AwaitingBuild { urls: self.urls })
        }
    }

    /// Whether `step` is the one that follows when the URL of the entrypoint was
    /// looked for.
    pub open spec fn goes_on(
        self,
        outcome: Result<String, LoaderError>,
        step: EntrypointsStep,
    ) -> bool {
        match outcome {
            Ok(url) => next_entrypoint(self.entrypoints@, self.urls@.push(url), step),
            Err(error) => step == EntrypointsStep::Fail(error),
        }
    }

    /// Takes the URL of the entrypoint.
    pub fn resolved(self, outcome: Result<String, LoaderError>) -> (step: EntrypointsStep)
        ensures
            self.goes_on(outcome, step),
    {
        match outcome {
            Ok(url) => {
                let mut urls: Vec<String> = self.urls;
                urls.push(url);
                (AwaitingUrl { entrypoints: self.entrypoints, urls }).next()
            },
            Err(error) => EntrypointsStep::Fail(error),
        }
    }
}

/// The first step in adding entrypoints.
pub fn begin_entrypoints(entrypoints: Vec<String>) -> (step: EntrypointsStep)
    ensures
        next_entrypoint(entrypoints@, Seq::empty(), step),
{
    let urls: Vec<String> = Vec::new();
    assert(urls@ =~= Seq::empty());
    (AwaitingUrl { entrypoints, urls }).next()
}

impl AwaitingBuild {
    /// Whether `step` is the one that follows when the URLs were to be added: the
    /// graph is walked from them, or the error is the end.
    pub open spec fn goes_on(
        self,
        outcome: Result<(), LoaderError>,
        step: EntrypointsStep,
    ) -> bool {
        match outcome {
            Ok(_) => step == EntrypointsStep::Walk(AwaitingWalk { urls: self.urls }),
            Err(error) => step == EntrypointsStep::Fail(error),
        }
    }

    /// Takes whether the URLs could be added.
    pub fn added(self, outcome: Result<(), LoaderError>) -> (step: EntrypointsStep)
        ensures
            self.goes_on(outcome, step),
    {
        match outcome {
            Ok(_) => EntrypointsStep::Walk(AwaitingWalk { urls: self.urls }),
            Err(error) => EntrypointsStep::Fail(error),
        }
    }
}

impl AwaitingWalk {
    /// Whether `step` is the one that follows when the graph was walked: what is
    /// wrong with it is reported, and is no failure.
    pub open spec fn goes_on(self, errors: Vec<String>, step: EntrypointsStep) -> bool {
        step == EntrypointsStep::Report(errors)
    }

    /// Takes what is wrong with the graph.
    pub fn walked(self, errors: Vec<String>) -> (step: EntrypointsStep)
        ensures
            self.goes_on(errors, step),
    {
        EntrypointsStep::Report(errors)
    }
}

/// What the addition of entrypoints is told.
pub enum EntrypointsOutcome {
    Url(Result<String, LoaderError>),
    Build(Result<(), LoaderError>),
    Walk(Vec<String>),
}

/// Whether `next` can follow `step` when that has had this outcome.
pub open spec fn follows(
    step: EntrypointsStep,
    outcome: EntrypointsOutcome,
    next: EntrypointsStep,
) -> bool {
    match (step, outcome) {
        (EntrypointsStep::Resolve(_, wait), EntrypointsOutcome::Url(outcome)) => wait.goes_on(
            outcome,
            next,
        ),
        (EntrypointsStep::Add(wait), EntrypointsOutcome::Build(outcome)) => wait.goes_on(
            outcome,
            next,
        ),
        (EntrypointsStep::Walk(wait), EntrypointsOutcome::Walk(errors)) => wait.goes_on(
            errors,
            next,
        ),
        _ => false,
    }
}

/// Whether `end` can be reached when the entrypoints that are left have these
/// outcomes in turn.
pub open spec fn leads_to(
    step: EntrypointsStep,
    outcomes: Seq<Result<String, LoaderError>>,
    end: EntrypointsStep,
) -> bool
    decreases outcomes.len(),
{
    if outcomes.len() == 0 {
        step == end
    } else {
        step matches EntrypointsStep::Resolve(_, wait) && exists|next: EntrypointsStep|
            #[trigger] wait.goes_on(outcomes[0], next) && leads_to(next, outcomes.drop_first(), end)
    }
}

/// Where every entrypoint has a URL, those URLs are added, all of them and in the
/// order of the entrypoints.
pub proof fn law_all_entrypoints_are_added(
    entrypoints: Seq<String>,
    urls: Seq<String>,
    begin: EntrypointsStep,
    found: Seq<String>,
    end: EntrypointsStep,
)
    requires
        urls.len() + found.len() == entrypoints.len(),
        next_entrypoint(entrypoints, urls, begin),
        leads_to(begin, found.map_values(|url: String| Ok::<String, LoaderError>(url)), end),
    ensures
        end matches EntrypointsStep::Add(wait) && wait.urls@ == urls + found,
    decreases found.len(),
{
    let outcomes = found.map_values(|url: String| Ok::<String, LoaderError>(url));
    if found.len() == 0 {
        assert(urls + found =~= urls);
    } else {
        let wait = begin->Resolve_1;
        let next = choose|next: EntrypointsStep|
            #[trigger] wait.goes_on(outcomes[0], next) && leads_to(
                next,
                outcomes.drop_first(),
                end,
            );
        let rest = found.drop_first();
        assert(outcomes.drop_first() =~= rest.map_values(
            |url: String| Ok::<String, LoaderError>(url),
        ));
        law_all_entrypoints_are_added(entrypoints, urls.push(found[0]), next, rest, end);
        assert(urls.push(found[0]) + rest =~= urls + found);
    }
}

/// The graph of a loader changes only when it is built itself: neither a new
/// loader nor an entrypoint that is added to another one touches it.
pub proof fn law_loaders_have_their_own_graphs<G>(
    graphs: Seq<G>,
    events: Seq<GraphEvent<G>>,
    j: usize,
)
    requires
        j < graphs.len(),
        forall|k: int|
            0 <= k < events.len() ==> !(#[trigger] events[k] matches GraphEvent::Built(i, Ok(_))
                && i == j),
    ensures
        graphs_after_all(graphs, events).len() >= graphs.len(),
        graphs_after_all(graphs, events)[j as int] == graphs[j as int],
    decreases events.len(),
{
    if events.len() > 0 {
        let rest = events.drop_last();
        assert forall|k: int| 0 <= k < rest.len() implies !(#[trigger] rest[k] matches
            GraphEvent::Built(i, Ok(_)) && i == j) by {
            assert(rest[k] == events[k]);
        }
        law_loaders_have_their_own_graphs(graphs, rest, j);
        assert(events.last() == events[events.len() - 1]);
    }
}

/// A new loader starts with the empty graph that was made for it, whatever was
/// added to the graphs of others before.
pub proof fn law_new_loader_starts_empty<G>(
    graphs: Seq<G>,
    events: Seq<GraphEvent<G>>,
    empty: G,
)
    ensures
        ({
            let before = graphs_after_all(graphs, events);
            let after = graphs_after_all(graphs, events.push(GraphEvent::Created(empty)));
            after == before.push(empty)
        }),
{
    assert(events.push(GraphEvent::Created(empty)).drop_last() =~= events);
}

/// Where clones of graphs are equal, a copy is the graph that readers of the cell
/// see. They see it until another is set, whatever becomes of the copy.
pub proof fn law_copy_is_what_readers_see<G: Clone>(cell: ModuleGraphCell<G>, seen: Rc<G>, copy: G)
    requires
        clones_are_equal::<G>(),
        *seen == cell.current(),
        cloned(cell.current(), copy),
    ensures
        copy == *seen,
{
}

/// The outcomes where each of these URLs is found, and the next entrypoint has
/// none.
pub open spec fn found_until(
    found: Seq<String>,
    error: LoaderError,
) -> Seq<Result<String, LoaderError>> {
    found.map_values(|url: String| Ok::<String, LoaderError>(url)).push(Err(error))
}

/// The first entrypoint without a URL ends the addition with its error, however
/// many URLs were found before it, and nothing is added.
pub proof fn law_first_failure_adds_nothing(
    entrypoints: Seq<String>,
    urls: Seq<String>,
    begin: EntrypointsStep,
    found: Seq<String>,
    error: LoaderError,
    end: EntrypointsStep,
)
    requires
        next_entrypoint(entrypoints, urls, begin),
        leads_to(begin, found_until(found, error), end),
    ensures
        end == EntrypointsStep::Fail(error),
    decreases found.len(),
{
    let outcomes = found_until(found, error);
    let wait = begin->Resolve_1;
    let next = choose|next: EntrypointsStep|
        #[trigger] wait.goes_on(outcomes[0], next) && leads_to(next, outcomes.drop_first(), end);
    if found.len() == 0 {
        assert(outcomes[0] == Err::<String, LoaderError>(error));
        assert(outcomes.drop_first() =~= seq![]);
    } else {
        let rest = found.drop_first();
        assert(outcomes[0] == Ok::<String, LoaderError>(found[0]));
        assert(outcomes.drop_first() =~= found_until(rest, error));
        law_first_failure_adds_nothing(
            entrypoints,
            urls.push(found[0]),
            next,
            rest,
            error,
            end,
        );
    }
}

/// An error of an entrypoint or of the addition is the end of it. What is wrong
/// with the graph afterwards never is: it is reported as it was found.
pub proof fn law_only_walk_errors_are_reported(
    step: EntrypointsStep,
    outcome: EntrypointsOutcome,
    next: EntrypointsStep,
)
    requires
        follows(step, outcome, next),
    ensures
        outcome matches EntrypointsOutcome::Url(Err(error)) ==> next == EntrypointsStep::Fail(
            error,
        ),
        outcome matches EntrypointsOutcome::Build(Err(error)) ==> next == EntrypointsStep::Fail(
            error,
        ),
        outcome matches EntrypointsOutcome::Walk(errors) ==> next == EntrypointsStep::Report(
            errors,
        ),
        next is Fail ==> (outcome matches EntrypointsOutcome::Url(Err(_))) || (outcome matches
            EntrypointsOutcome::Build(Err(_))),
        next is Report ==> outcome is Walk,
{
}

/// The graph is walked from the URLs that were added to it, and only once they
/// were.
pub proof fn law_added_urls_are_walked(
    step: EntrypointsStep,
    outcome: EntrypointsOutcome,
    next: EntrypointsStep,
)
    requires
        follows(step, outcome, next),
        next is Walk,
    ensures
        step is Add,
        next->Walk_0.urls == step->Add_0.urls,
        outcome matches EntrypointsOutcome::Build(Ok(_)),
{
}

/// Whether these are steps of one addition in turn, each with its outcome.
pub open spec fn is_run(steps: Seq<EntrypointsStep>, outcomes: Seq<EntrypointsOutcome>) -> bool {
    &&& steps.len() == outcomes.len() + 1
    &&& forall|i: int|
        0 <= i < outcomes.len() ==> follows(steps[i], #[trigger] outcomes[i], steps[i + 1])
}

/// As long as URLs are found, a run is at the entrypoint whose turn it is, with
/// the URLs that were found so far.
proof fn lemma_turn(
    entrypoints: Seq<String>,
    steps: Seq<EntrypointsStep>,
    outcomes: Seq<EntrypointsOutcome>,
    i: int,
)
    requires
        next_entrypoint(entrypoints, Seq::empty(), steps[0]),
        is_run(steps, outcomes),
        0 <= i < steps.len(),
        i <= entrypoints.len(),
        forall|k: int|
            0 <= k < i ==> (#[trigger] outcomes[k]) matches EntrypointsOutcome::Url(Ok(_)),
    ensures
        next_entrypoint(
            entrypoints,
            Seq::new(i as nat, |k: int| outcomes[k]->Url_0->Ok_0),
            steps[i],
        ),
    decreases i,
{
    let found = Seq::new(i as nat, |k: int| outcomes[k]->Url_0->Ok_0);
    if i == 0 {
        assert(found =~= Seq::<String>::empty());
    } else {
        lemma_turn(entrypoints, steps, outcomes, i - 1);
        let before = Seq::new((i - 1) as nat, |k: int| outcomes[k]->Url_0->Ok_0);
        assert(outcomes[i - 1] matches EntrypointsOutcome::Url(Ok(_)));
        assert(follows(steps[i - 1], outcomes[i - 1], steps[i - 1 + 1]));
        assert(before.push(outcomes[i - 1]->Url_0->Ok_0) =~= found);
    }
}

/// The entrypoints are asked for one after the other, each of them once: the step
/// that follows `i` URLs asks for the entrypoint with the index `i`.
pub proof fn law_entrypoints_are_asked_for_in_turn(
    entrypoints: Vec<String>,
    steps: Seq<EntrypointsStep>,
    outcomes: Seq<EntrypointsOutcome>,
    i: int,
)
    requires
        call_ensures(begin_entrypoints, (entrypoints,), steps[0]),
        is_run(steps, outcomes),
        0 <= i < steps.len(),
        i < entrypoints@.len(),
        forall|k: int|
            0 <= k < i ==> (#[trigger] outcomes[k]) matches EntrypointsOutcome::Url(Ok(_)),
    ensures
        steps[i] matches EntrypointsStep::Resolve(asked, _) && asked == entrypoints@[i],
{
    lemma_turn(entrypoints@, steps, outcomes, i);
}

/// Where every entrypoint that is asked for has its URL, what is added, and then
/// walked, is the URL of each entrypoint, in the order of the entrypoints.
pub proof fn law_each_entrypoint_is_added(
    entrypoints: Vec<String>,
    url_of: spec_fn(String) -> String,
    steps: Seq<EntrypointsStep>,
    outcomes: Seq<EntrypointsOutcome>,
)
    requires
        call_ensures(begin_entrypoints, (entrypoints,), steps[0]),
        is_run(steps, outcomes),
        outcomes.len() >= entrypoints@.len(),
        forall|k: int|
            0 <= k < entrypoints@.len() ==> ((#[trigger] steps[k]) matches EntrypointsStep::Resolve(
                asked,
                _,
            ) ==> outcomes[k] == EntrypointsOutcome::Url(Ok(url_of(asked)))),
    ensures
        steps[entrypoints@.len() as int] matches EntrypointsStep::Add(wait) && wait.urls@
            == entrypoints@.map_values(url_of),
        outcomes.len() > entrypoints@.len() ==> (steps[entrypoints@.len() as int + 1] matches
            EntrypointsStep::Walk(wait) ==> wait.urls@ == entrypoints@.map_values(url_of)),
{
    let n = entrypoints@.len() as int;
    lemma_all_found(entrypoints@, url_of, steps, outcomes, n);
    lemma_turn(entrypoints@, steps, outcomes, n);
    let found = Seq::new(n as nat, |k: int| outcomes[k]->Url_0->Ok_0);
    assert(found =~= entrypoints@.map_values(url_of)) by {
        assert forall|k: int| 0 <= k < n implies found[k] == url_of(entrypoints@[k]) by {
            assert(outcomes[k] == EntrypointsOutcome::Url(Ok(url_of(entrypoints@[k]))));
        }
    }
    if outcomes.len() > n {
        assert(follows(steps[n], outcomes[n], steps[n + 1]));
    }
}

proof fn lemma_all_found(
    entrypoints: Seq<String>,
    url_of: spec_fn(String) -> String,
    steps: Seq<EntrypointsStep>,
    outcomes: Seq<EntrypointsOutcome>,
    i: int,
)
    requires
        next_entrypoint(entrypoints, Seq::empty(), steps[0]),
        is_run(steps, outcomes),
        outcomes.len() >= entrypoints.len(),
        0 <= i <= entrypoints.len(),
        forall|k: int|
            0 <= k < entrypoints.len() ==> ((#[trigger] steps[k]) matches EntrypointsStep::Resolve(
                asked,
                _,
            ) ==> outcomes[k] == EntrypointsOutcome::Url(Ok(url_of(asked)))),
    ensures
        forall|k: int|
            0 <= k < i ==> #[trigger] outcomes[k] == EntrypointsOutcome::Url(
                Ok(url_of(entrypoints[k])),
            ),
    decreases i,
{
    if i > 0 {
        lemma_all_found(entrypoints, url_of, steps, outcomes, i - 1);
        assert forall|k: int| 0 <= k < i - 1 implies (#[trigger] outcomes[k]) matches
            EntrypointsOutcome::Url(Ok(_)) by {
            assert(outcomes[k] == EntrypointsOutcome::Url(Ok(url_of(entrypoints[k]))));
        }
        lemma_turn(entrypoints, steps, outcomes, i - 1);
        assert(steps[i - 1] is Resolve);
    }
}

/// The steps that follow an outcome are those of the functions that take it.
pub proof fn law_steps_of_an_addition(
    url: AwaitingUrl,
    build: AwaitingBuild,
    walk: AwaitingWalk,
    found: Result<String, LoaderError>,
    built: Result<(), LoaderError>,
    errors: Vec<String>,
    after_url: EntrypointsStep,
    after_build: EntrypointsStep,
    after_walk: EntrypointsStep,
)
    requires
        call_ensures(AwaitingUrl::resolved, (url, found), after_url),
        call_ensures(AwaitingBuild::added, (build, built), after_build),
        call_ensures(AwaitingWalk::walked, (walk, errors), after_walk),
    ensures
        found matches Err(error) ==> after_url == EntrypointsStep::Fail(error),
        found matches Ok(one) ==> url.urls@.len() + 1 < url.entrypoints@.len() ==> (after_url
            matches EntrypointsStep::Resolve(asked, next) && asked
            == url.entrypoints@[url.urls@.len() as int + 1] && next.entrypoints@
            == url.entrypoints@ && next.urls@ == url.urls@.push(one)),
        found matches Ok(one) ==> url.urls@.len() + 1 >= url.entrypoints@.len() ==> (after_url
            matches EntrypointsStep::Add(next) && next.urls@ == url.urls@.push(one)),
        built is Ok ==> (after_build matches EntrypointsStep::Walk(next) && next.urls
            == build.urls),
        built matches Err(error) ==> after_build == EntrypointsStep::Fail(error),
        after_walk == EntrypointsStep::Report(errors),
{
}

/// The lockfile is taken over exactly where there is one and the graph has no
/// roots yet. Text and bytes can be imported, the rest of what is unstable cannot.
pub proof fn law_how_the_graph_is_built(
    has_roots: bool,
    has_lockfile: bool,
    settings: GraphBuildSettings,
)
    requires
        call_ensures(graph_build_settings, (has_roots, has_lockfile), settings),
    ensures
        settings.fill_from_lockfile <==> has_lockfile && !has_roots,
        settings.unstable_bytes_imports && settings.unstable_text_imports,
        !settings.unstable_css_imports && !settings.unstable_config_imports,
        !settings.is_dynamic && !settings.skip_dynamic_deps,
        !settings.passthrough_jsr_specifiers && !settings.include_npm_sources,
        settings.npm_types == NpmTypesResolutionMode::FallbackToExecution,
{
}

/// The graph is walked for errors of code, JavaScript among it, without what is
/// imported dynamically.
pub proof fn law_how_the_graph_is_walked(settings: GraphWalkSettings)
    requires
        call_ensures(graph_walk_settings, (), settings),
    ensures
        settings.kind == GraphKind::CodeOnly,
        settings.check_js,
        !settings.follow_dynamic,
        !settings.prefer_fast_check_graph,
{
}

/// A cell gives its readers the graph that it was made with.
pub proof fn law_cell_gives_what_it_was_made_with<G>(
    graph: G,
    cell: ModuleGraphCell<G>,
    seen: Rc<G>,
)
    requires
        call_ensures(ModuleGraphCell::<G>::new, (graph,), cell),
        call_ensures(ModuleGraphCell::<G>::get, (&cell,), seen),
    ensures
        *seen == graph,
{
}

/// A build that failed leaves the graph as it was, and one that did not replaces
/// it.
pub proof fn law_only_builds_replace_the_graph<G>(before: G, built: Result<G, LoaderError>)
    ensures
        built is Err ==> graph_after(before, built) == before,
        built matches Ok(graph) ==> graph_after(before, built) == graph,
{
}

/// A build that could be made is what every reader sees from then on. One that
/// could not be leaves the graph as it was, and its error is handed back.
pub proof fn law_readers_see_what_was_built<G>(
    built: Result<G, LoaderError>,
    outcome: Result<(), LoaderError>,
)
    ensures
        forall|cell: &mut ModuleGraphCell<G>, seen: Rc<G>|
            #[trigger] call_ensures(ModuleGraphCell::<G>::take_build, (cell, built), outcome)
                && #[trigger] call_ensures(ModuleGraphCell::<G>::get, (&*final(cell),), seen)
                ==> match built {
                Ok(graph) => outcome is Ok && *seen == graph,
                Err(error) => outcome == Err::<(), LoaderError>(error) && *seen
                    == cell.current(),
            },
{
}

/// A graph that is set is what every reader sees from then on.
pub proof fn law_readers_see_what_was_set<G>(graph: Rc<G>)
    ensures
        forall|cell: &mut ModuleGraphCell<G>, seen: Rc<G>|
            #[trigger] call_ensures(ModuleGraphCell::<G>::set, (cell, graph), ())
                && #[trigger] call_ensures(ModuleGraphCell::<G>::get, (&*final(cell),), seen)
                ==> *seen == *graph,
{
}

} // verus!
