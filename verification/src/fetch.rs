//! The decisions of a discovery-document fetch, as a state machine.
//!
//! A fetch validates the service and version, consults the on-disk cache
//! (24-hour TTL) when a cache directory is given, requests the primary URL,
//! falls back to the per-service `$discovery/rest` URL only when no base URL
//! override is set, writes a fetched body back to the cache, and finally
//! parses the document. The caller performs each [`FetchAction`] (file
//! system and network work) and reports its outcome as a [`FetchEvent`].
use vstd::prelude::*;
use crate::encoding::{is_api_identifier, validate_api_identifier};
use crate::urls::{
    discovery_cache_filename, discovery_fallback_url, opt_str_view, primary_discovery_url,
    spec_discovery_cache_filename, spec_discovery_fallback_url, spec_primary_discovery_url,
};

verus! {

/// How long a cached discovery document stays fresh: 24 hours, in seconds.
pub const CACHE_TTL_SECS: u64 = 86400;

/// Where a fetch stands: which outcome it is waiting for.
#[derive(Clone, Copy, Debug, PartialEq, Eq, Structural)]
pub enum FetchPhase {
    /// The cache directory is being created.
    AwaitCacheDir,
    /// The age of the cached document is being looked up.
    AwaitCacheAge,
    /// The primary URL has been requested.
    AwaitPrimary,
    /// The fallback URL has been requested.
    AwaitFallback,
    /// The body of a successful response is being read.
    AwaitBody,
    /// The fetched body is being written to the cache.
    AwaitCacheWrite,
    /// The fetch has handed out its last action.
    Finished,
}

/// The outcome of the outside work that the last action asked for.
#[derive(Clone, Copy, Debug, PartialEq, Eq, Structural)]
pub enum FetchEvent {
    /// The work (creating the cache directory, reading the body, writing the
    /// cache) succeeded.
    Completed,
    /// The work failed with an error, which the caller keeps.
    Failed,
    /// The cached document exists and was last modified this many whole
    /// seconds ago (0 when its modification time lies in the future).
    CacheAge { seconds: u64 },
    /// There is no cached document, or its modification time is unknown.
    CacheMissing,
    /// An HTTP response arrived with this status code.
    Response { status: u16 },
}

/// Why a fetch failed.
#[derive(Clone, Copy, Debug, PartialEq, Eq, Structural)]
pub enum FetchFailure {
    /// The service name is not a valid API identifier.
    InvalidService,
    /// The version is not a valid API identifier.
    InvalidVersion,
    /// Outside work failed; the caller holds the error.
    Io,
    /// With a base URL override, the primary URL answered with this
    /// non-success status.
    PrimaryStatus { status: u16 },
    /// Both the primary and the fallback URL failed; the fallback answered
    /// with this non-success status.
    FallbackStatus { status: u16 },
}

/// What the caller is to do next.
#[derive(Debug)]
pub enum FetchAction {
    /// Create the cache directory (with its parents).
    CreateCacheDir,
    /// Look up the modification age of this file in the cache directory.
    InspectCache { file_name: String },
    /// Read this cached file, parse it and return the document (or the error
    /// of reading or parsing). Last action.
    UseCache { file_name: String },
    /// Send a GET request to `url`, with a `version` query parameter when
    /// `version_query` is given.
    Request { url: String, version_query: Option<String> },
    /// Read the body of the successful response.
    ReadBody,
    /// Write the body to this file in the cache directory.
    WriteCache { file_name: String },
    /// Parse the body and return the document (or the parse error). Last action.
    ParseBody,
    /// Fail the fetch. Last action.
    Fail(FetchFailure),
}

/// The mathematical view of a [`FetchAction`].
pub enum ActionView {
    CreateCacheDir,
    InspectCache { file_name: Seq<char> },
    UseCache { file_name: Seq<char> },
    Request { url: Seq<char>, version_query: Option<Seq<char>> },
    ReadBody,
    WriteCache { file_name: Seq<char> },
    ParseBody,
    Fail(FetchFailure),
}

impl View for FetchAction {
    type V = ActionView;

    open spec fn view(&self) -> ActionView {
        match self {
            FetchAction::CreateCacheDir => ActionView::CreateCacheDir,
            FetchAction::InspectCache { file_name } => ActionView::InspectCache {
                file_name: file_name@,
            },
            FetchAction::UseCache { file_name } => ActionView::UseCache { file_name: file_name@ },
            FetchAction::Request { url, version_query } => ActionView::Request {
                url: url@,
                version_query: match version_query {
                    Some(v) => Some(v@),
                    None => None,
                },
            },
            FetchAction::ReadBody => ActionView::ReadBody,
            FetchAction::WriteCache { file_name } => ActionView::WriteCache {
                file_name: file_name@,
            },
            FetchAction::ParseBody => ActionView::ParseBody,
            FetchAction::Fail(f) => ActionView::Fail(*f),
        }
    }
}

/// The mathematical model of a fetch in progress.
pub struct FetchModel {
    pub service: Seq<char>,
    pub version: Seq<char>,
    /// Whether a cache directory was given.
    pub caching: bool,
    /// The base URL override, if any.
    pub base: Option<Seq<char>>,
    pub phase: FetchPhase,
}

/// Whether an HTTP status code counts as success (2xx).
pub open spec fn is_success_status(status: u16) -> bool {
    200 <= status <= 299
}

/// Which outcomes a phase waits for.
pub open spec fn accepts(phase: FetchPhase, event: FetchEvent) -> bool {
    match phase {
        FetchPhase::AwaitCacheDir | FetchPhase::AwaitBody | FetchPhase::AwaitCacheWrite => (
        event is Completed) || (event is Failed),
        FetchPhase::AwaitCacheAge => (event is CacheAge) || (event is CacheMissing),
        FetchPhase::AwaitPrimary | FetchPhase::AwaitFallback => (event is Response) || (
        event is Failed),
        FetchPhase::Finished => false,
    }
}

/// The model in another phase.
pub open spec fn in_phase(m: FetchModel, phase: FetchPhase) -> FetchModel {
    FetchModel { phase, ..m }
}

/// The cache file name of a fetch.
pub open spec fn cache_name(m: FetchModel) -> Seq<char> {
    spec_discovery_cache_filename(m.service, m.version, m.base)
}

/// The request of the primary URL.
pub open spec fn primary_request(m: FetchModel) -> ActionView {
    ActionView::Request {
        url: spec_primary_discovery_url(m.service, m.version, m.base),
        version_query: None,
    }
}

/// How a fetch begins.
pub open spec fn launch(
    service: Seq<char>,
    version: Seq<char>,
    caching: bool,
    base: Option<Seq<char>>,
) -> (FetchModel, ActionView) {
    let m = FetchModel { service, version, caching, base, phase: FetchPhase::Finished };
    if !is_api_identifier(service) {
        (m, ActionView::Fail(FetchFailure::InvalidService))
    } else if !is_api_identifier(version) {
        (m, ActionView::Fail(FetchFailure::InvalidVersion))
    } else if caching {
        (in_phase(m, FetchPhase::AwaitCacheDir), ActionView::CreateCacheDir)
    } else {
        (in_phase(m, FetchPhase::AwaitPrimary), primary_request(m))
    }
}

/// One decision of a fetch: from its state and the outcome of the last
/// action, the next state and action.
pub open spec fn transition(m: FetchModel, e: FetchEvent) -> (FetchModel, ActionView) {
    let done = in_phase(m, FetchPhase::Finished);
    match m.phase {
        FetchPhase::AwaitCacheDir => match e {
            FetchEvent::Completed => (
                in_phase(m, FetchPhase::AwaitCacheAge),
                ActionView::InspectCache { file_name: cache_name(m) },
            ),
            _ => (done, ActionView::Fail(FetchFailure::Io)),
        },
        FetchPhase::AwaitCacheAge => match e {
            FetchEvent::CacheAge { seconds } if seconds < CACHE_TTL_SECS => (
                done,
                ActionView::UseCache { file_name: cache_name(m) },
            ),
            _ => (in_phase(m, FetchPhase::AwaitPrimary), primary_request(m)),
        },
        FetchPhase::AwaitPrimary => match e {
            FetchEvent::Response { status } => if is_success_status(status) {
                (in_phase(m, FetchPhase::AwaitBody), ActionView::ReadBody)
            } else {
                match spec_discovery_fallback_url(m.service, m.base) {
                    Some(alt) => (
                        in_phase(m, FetchPhase::AwaitFallback),
                        ActionView::Request { url: alt, version_query: Some(m.version) },
                    ),
                    None => (done, ActionView::Fail(FetchFailure::PrimaryStatus { status })),
                }
            },
            _ => (done, ActionView::Fail(FetchFailure::Io)),
        },
        FetchPhase::AwaitFallback => match e {
            FetchEvent::Response { status } => if is_success_status(status) {
                (in_phase(m, FetchPhase::AwaitBody), ActionView::ReadBody)
            } else {
                (done, ActionView::Fail(FetchFailure::FallbackStatus { status }))
            },
            _ => (done, ActionView::Fail(FetchFailure::Io)),
        },
        FetchPhase::AwaitBody => match e {
            FetchEvent::Completed => if m.caching {
                (
                    in_phase(m, FetchPhase::AwaitCacheWrite),
                    ActionView::WriteCache { file_name: cache_name(m) },
                )
            } else {
                (done, ActionView::ParseBody)
            },
            _ => (done, ActionView::Fail(FetchFailure::Io)),
        },
        FetchPhase::AwaitCacheWrite => (done, ActionView::ParseBody),
        FetchPhase::Finished => (m, ActionView::Fail(FetchFailure::Io)),
    }
}

/// A fetch of a discovery document in progress.
pub struct DiscoveryFetch {
    service: String,
    version: String,
    caching: bool,
    base_url: Option<String>,
    phase: FetchPhase,
}

impl View for DiscoveryFetch {
    type V = FetchModel;

    closed spec fn view(&self) -> FetchModel {
        FetchModel {
            service: self.service@,
            version: self.version@,
            caching: self.caching,
            base: match self.base_url {
                Some(b) => Some(b@),
                None => None,
            },
            phase: self.phase,
        }
    }
}

fn copy_str(s: &str) -> (r: String)
    ensures
        r@ == s@,
{
    let mut r = String::new();
    r.append(s);
    r
}

impl DiscoveryFetch {
    /// Begins fetching the discovery document of `service`/`version`.
    /// `caching` says whether a cache directory is given; `base_url` is the
    /// optional proxy base.
    pub fn start(service: &str, version: &str, caching: bool, base_url: Option<&str>) -> (r: (
        DiscoveryFetch,
        FetchAction,
    ))
        ensures
            (r.0@, r.1@) == launch(service@, version@, caching, opt_str_view(base_url)),
    {
        let mut fetch = DiscoveryFetch {
            service: copy_str(service),
            version: copy_str(version),
            caching,
            base_url: match base_url {
                Some(b) => Some(copy_str(b)),
                None => None,
            },
            phase: FetchPhase::Finished,
        };
        if !validate_api_identifier(service) {
            return (fetch, FetchAction::Fail(FetchFailure::InvalidService));
        }
        if !validate_api_identifier(version) {
            return (fetch, FetchAction::Fail(FetchFailure::InvalidVersion));
        }
        if caching {
            fetch.phase = FetchPhase::AwaitCacheDir;
            (fetch, FetchAction::CreateCacheDir)
        } else {
            fetch.phase = FetchPhase::AwaitPrimary;
            let action = fetch.primary_request();
            (fetch, action)
        }
    }

    /// The phase the fetch is in.
    pub fn phase(&self) -> (p: FetchPhase)
        ensures
            p == self@.phase,
    {
        self.phase
    }

    fn base_str(&self) -> (b: Option<&str>)
        ensures
            opt_str_view(b) == self@.base,
    {
        match &self.base_url {
            Some(b) => Some(b.as_str()),
            None => None,
        }
    }

    fn primary_request(&self) -> (a: FetchAction)
        ensures
            a@ == primary_request(self@),
    {
        let url = primary_discovery_url(self.service.as_str(), self.version.as_str(), self.base_str());
        FetchAction::Request { url, version_query: None }
    }

    fn cache_file_name(&self) -> (n: String)
        ensures
            n@ == cache_name(self@),
    {
        discovery_cache_filename(self.service.as_str(), self.version.as_str(), self.base_str())
    }

    /// Takes the outcome of the last action and returns the next action.
    pub fn step(&mut self, event: FetchEvent) -> (a: FetchAction)
        requires
            accepts(old(self)@.phase, event),
        ensures
            (final(self)@, a@) == transition(old(self)@, event),
    {
        match self.phase {
            FetchPhase::AwaitCacheDir => match event {
                FetchEvent::Completed => {
                    self.phase = FetchPhase::AwaitCacheAge;
                    FetchAction::InspectCache { file_name: self.cache_file_name() }
                },
                _ => {
                    self.phase = FetchPhase::Finished;
                    FetchAction::Fail(FetchFailure::Io)
                },
            },
            FetchPhase::AwaitCacheAge => {
                let fresh = match event {
                    FetchEvent::CacheAge { seconds } => seconds < CACHE_TTL_SECS,
                    _ => false,
                };
                if fresh {
                    self.phase = FetchPhase::Finished;
                    FetchAction::UseCache { file_name: self.cache_file_name() }
                } else {
                    self.phase = FetchPhase::AwaitPrimary;
                    self.primary_request()
                }
            },
            FetchPhase::AwaitPrimary => match event {
                FetchEvent::Response { status } => {
                    if 200 <= status && status <= 299 {
                        self.phase = FetchPhase::AwaitBody;
                        FetchAction::ReadBody
                    } else {
                        match discovery_fallback_url(self.service.as_str(), self.base_str()) {
                            Some(url) => {
                                let version_query = Some(copy_str(self.version.as_str()));
                                self.phase = FetchPhase::AwaitFallback;
                                FetchAction::Request { url, version_query }
                            },
                            None => {
                                self.phase = FetchPhase::Finished;
                                FetchAction::Fail(FetchFailure::PrimaryStatus { status })
                            },
                        }
                    }
                },
                _ => {
                    self.phase = FetchPhase::Finished;
                    FetchAction::Fail(FetchFailure::Io)
                },
            },
            FetchPhase::AwaitFallback => match event {
                FetchEvent::Response { status } => {
                    if 200 <= status && status <= 299 {
                        self.phase = FetchPhase::AwaitBody;
                        FetchAction::ReadBody
                    } else {
                        self.phase = FetchPhase::Finished;
                        FetchAction::Fail(FetchFailure::FallbackStatus { status })
                    }
                },
                _ => {
                    self.phase = FetchPhase::Finished;
                    FetchAction::Fail(FetchFailure::Io)
                },
            },
            FetchPhase::AwaitBody => match event {
                FetchEvent::Completed => {
                    if self.caching {
                        self.phase = FetchPhase::AwaitCacheWrite;
                        FetchAction::WriteCache { file_name: self.cache_file_name() }
                    } else {
                        self.phase = FetchPhase::Finished;
                        FetchAction::ParseBody
                    }
                },
                _ => {
                    self.phase = FetchPhase::Finished;
                    FetchAction::Fail(FetchFailure::Io)
                },
            },
            FetchPhase::AwaitCacheWrite => {
                self.phase = FetchPhase::Finished;
                FetchAction::ParseBody
            },
            FetchPhase::Finished => FetchAction::Fail(FetchFailure::Io),
        }
    }
}

// ---------------------------------------------------------------------------
// Whole fetches
// ---------------------------------------------------------------------------

/// The actions a fetch hands out for a sequence of outcomes, stopping at the
/// first outcome that its phase does not wait for.
pub open spec fn run(m: FetchModel, events: Seq<FetchEvent>) -> Seq<ActionView>
    decreases events.len(),
{
    if events.len() == 0 || !accepts(m.phase, events[0]) {
        Seq::empty()
    } else {
        let (next, a) = transition(m, events[0]);
        seq![a] + run(next, events.drop_first())
    }
}

/// Every action of a whole fetch: the first one, then those that follow the
/// outcomes in `events`.
pub open spec fn session(
    service: Seq<char>,
    version: Seq<char>,
    caching: bool,
    base: Option<Seq<char>>,
    events: Seq<FetchEvent>,
) -> Seq<ActionView> {
    let (m, a) = launch(service, version, caching, base);
    seq![a] + run(m, events)
}

/// Whether an action touches the cache.
pub open spec fn is_cache_action(a: ActionView) -> bool {
    (a is CreateCacheDir) || (a is InspectCache) || (a is UseCache) || (a is WriteCache)
}

/// The number of HTTP requests among some actions.
pub open spec fn request_count(actions: Seq<ActionView>) -> nat
    decreases actions.len(),
{
    if actions.len() == 0 {
        0
    } else {
        (if actions[0] is Request {
            1nat
        } else {
            0nat
        }) + request_count(actions.drop_first())
    }
}

/// How many requests a fetch may still send from a phase.
pub open spec fn request_budget(phase: FetchPhase) -> nat {
    match phase {
        FetchPhase::AwaitCacheDir | FetchPhase::AwaitCacheAge => 2,
        FetchPhase::AwaitPrimary => 1,
        _ => 0,
    }
}

/// How many more actions a fetch may hand out from a phase.
pub open spec fn steps_left(phase: FetchPhase) -> nat {
    match phase {
        FetchPhase::AwaitCacheDir => 6,
        FetchPhase::AwaitCacheAge => 5,
        FetchPhase::AwaitPrimary => 4,
        FetchPhase::AwaitFallback => 3,
        FetchPhase::AwaitBody => 2,
        FetchPhase::AwaitCacheWrite => 1,
        FetchPhase::Finished => 0,
    }
}

proof fn lemma_transition_keeps_request(m: FetchModel, e: FetchEvent)
    ensures
        transition(m, e).0.service == m.service,
        transition(m, e).0.version == m.version,
        transition(m, e).0.caching == m.caching,
        transition(m, e).0.base == m.base,
{
}

proof fn lemma_index_after_first(a: ActionView, rest: Seq<ActionView>, i: int)
    requires
        1 <= i < rest.len() + 1,
    ensures
        (seq![a] + rest)[i] == rest[i - 1],
{
}

proof fn lemma_run_proxy(m: FetchModel, events: Seq<FetchEvent>)
    requires
        (m.base is Some),
    ensures
        forall|i: int|
            0 <= i < run(m, events).len() ==> (#[trigger] run(m, events)[i] is Request ==> run(
                m,
                events,
            )[i] == primary_request(m)),
    decreases events.len(),
{
    if events.len() > 0 && accepts(m.phase, events[0]) {
        let (next, a) = transition(m, events[0]);
        lemma_transition_keeps_request(m, events[0]);
        lemma_run_proxy(next, events.drop_first());
        assert(primary_request(next) == primary_request(m));
        let rest = run(next, events.drop_first());
        assert forall|i: int| 1 <= i < run(m, events).len() implies #[trigger] run(m, events)[i]
            == rest[i - 1] by {
            lemma_index_after_first(a, rest, i);
        }
    }
}

/// With a base URL override the proxy is never bypassed: whatever the
/// outcomes, every request a fetch sends is to the primary URL under the
/// base, with no extra query; the per-service fallback host is never asked.
pub proof fn law_proxy_is_never_bypassed(
    service: Seq<char>,
    version: Seq<char>,
    caching: bool,
    base: Seq<char>,
    events: Seq<FetchEvent>,
)
    ensures
        forall|i: int|
            0 <= i < session(service, version, caching, Some(base), events).len() ==> (
            #[trigger] session(service, version, caching, Some(base), events)[i] is Request ==> session(
                service,
                version,
                caching,
                Some(base),
                events,
            )[i] == (ActionView::Request {
                url: spec_primary_discovery_url(service, version, Some(base)),
                version_query: None,
            })),
{
    let (m, a) = launch(service, version, caching, Some(base));
    lemma_run_proxy(m, events);
    let rest = run(m, events);
    assert forall|i: int|
        1 <= i < session(service, version, caching, Some(base), events).len() implies #[trigger] session(
        service,
        version,
        caching,
        Some(base),
        events,
    )[i] == rest[i - 1] by {
        lemma_index_after_first(a, rest, i);
    }
}

/// A phase that a fetch without a cache directory can be in.
pub open spec fn cache_free(m: FetchModel) -> bool {
    !m.caching && m.phase != FetchPhase::AwaitCacheDir && m.phase != FetchPhase::AwaitCacheAge
        && m.phase != FetchPhase::AwaitCacheWrite
}

proof fn lemma_run_cache_free(m: FetchModel, events: Seq<FetchEvent>)
    requires
        cache_free(m),
    ensures
        forall|i: int|
            0 <= i < run(m, events).len() ==> !is_cache_action(#[trigger] run(m, events)[i]),
    decreases events.len(),
{
    if events.len() > 0 && accepts(m.phase, events[0]) {
        let (next, a) = transition(m, events[0]);
        lemma_run_cache_free(next, events.drop_first());
        let rest = run(next, events.drop_first());
        assert forall|i: int| 0 <= i < run(m, events).len() implies !is_cache_action(
            #[trigger] run(m, events)[i],
        ) by {
            if i > 0 {
                lemma_index_after_first(a, rest, i);
            }
        }
    }
}

/// Without a cache directory caching is skipped entirely: whatever the
/// outcomes, a fetch neither creates, inspects, reads nor writes the cache.
pub proof fn law_no_cache_dir_no_cache_work(
    service: Seq<char>,
    version: Seq<char>,
    base: Option<Seq<char>>,
    events: Seq<FetchEvent>,
)
    ensures
        forall|i: int|
            0 <= i < session(service, version, false, base, events).len() ==> !is_cache_action(
                #[trigger] session(service, version, false, base, events)[i],
            ),
{
    let (m, a) = launch(service, version, false, base);
    lemma_run_cache_free(m, events);
    let rest = run(m, events);
    assert forall|i: int| 0 <= i < session(service, version, false, base, events).len() implies !is_cache_action(
        #[trigger] session(service, version, false, base, events)[i],
    ) by {
        if i > 0 {
            lemma_index_after_first(a, rest, i);
        }
    }
}

proof fn lemma_request_count_prepend(a: ActionView, rest: Seq<ActionView>)
    ensures
        request_count(seq![a] + rest) == (if a is Request {
            1nat
        } else {
            0nat
        }) + request_count(rest),
{
    assert((seq![a] + rest).drop_first() =~= rest);
}

proof fn lemma_run_bounds(m: FetchModel, events: Seq<FetchEvent>)
    ensures
        request_count(run(m, events)) <= request_budget(m.phase),
        run(m, events).len() <= steps_left(m.phase),
    decreases events.len(),
{
    if events.len() > 0 && accepts(m.phase, events[0]) {
        let (next, a) = transition(m, events[0]);
        lemma_run_bounds(next, events.drop_first());
        lemma_request_count_prepend(a, run(next, events.drop_first()));
    }
}

/// A fetch ends: it hands out at most seven actions in all, and sends at
/// most two HTTP requests (the primary URL, then at most once the fallback).
pub proof fn law_fetch_is_bounded(
    service: Seq<char>,
    version: Seq<char>,
    caching: bool,
    base: Option<Seq<char>>,
    events: Seq<FetchEvent>,
)
    ensures
        session(service, version, caching, base, events).len() <= 7,
        request_count(session(service, version, caching, base, events)) <= 2,
{
    let (m, a) = launch(service, version, caching, base);
    lemma_run_bounds(m, events);
    lemma_request_count_prepend(a, run(m, events));
}

/// The cache has a 24-hour TTL: once the cached document's age is known, it
/// is used if and only if it is younger than `CACHE_TTL_SECS` seconds;
/// otherwise, and when there is no cached document, the primary URL is
/// requested.
pub proof fn law_cache_used_only_when_fresh(m: FetchModel, e: FetchEvent)
    requires
        m.phase == FetchPhase::AwaitCacheAge,
        accepts(m.phase, e),
    ensures
        (transition(m, e).1 is UseCache) <==> (e matches FetchEvent::CacheAge { seconds }
            && seconds < 86400),
        (transition(m, e).1 is UseCache) ==> transition(m, e).1 == (ActionView::UseCache {
            file_name: spec_discovery_cache_filename(m.service, m.version, m.base),
        }),
        !(transition(m, e).1 is UseCache) ==> transition(m, e).1 == (ActionView::Request {
            url: spec_primary_discovery_url(m.service, m.version, m.base),
            version_query: None,
        }),
{
}

/// A body is written to the cache only when a cache directory is given, and
/// only once the body of a successful response has been read; a failure to
/// write it does not fail the fetch, which goes on to parse the body.
pub proof fn law_cache_written_only_after_body(m: FetchModel, e: FetchEvent)
    requires
        accepts(m.phase, e),
    ensures
        (transition(m, e).1 is WriteCache) ==> (m.caching && m.phase == FetchPhase::AwaitBody
            && e == FetchEvent::Completed),
        m.phase == FetchPhase::AwaitCacheWrite ==> transition(m, e).1 == ActionView::ParseBody,
{
}

/// The fallback URL is requested only after the primary URL answered with a
/// non-success status, and only when no base URL override is set; it carries
/// the version as a query parameter.
pub proof fn law_fallback_only_after_primary_failed(m: FetchModel, e: FetchEvent)
    requires
        accepts(m.phase, e),
        (transition(m, e).1 is Request),
        transition(m, e).0.phase == FetchPhase::AwaitFallback,
    ensures
        m.phase == FetchPhase::AwaitPrimary,
        (m.base is None),
        (e matches FetchEvent::Response { status } && !is_success_status(status)),
        transition(m, e).1 == (ActionView::Request {
            url: "https://"@ + m.service + ".googleapis.com/$discovery/rest"@,
            version_query: Some(m.version),
        }),
{
}

/// A fetched body is written back to the cache whenever a cache directory is
/// given, whatever the base URL: once the body of a successful response has
/// been read, the next action writes it to this fetch's cache file, and the
/// body is parsed right away only when there is no cache directory.
pub proof fn law_body_written_back_whenever_caching(m: FetchModel)
    requires
        m.phase == FetchPhase::AwaitBody,
    ensures
        m.caching ==> transition(m, FetchEvent::Completed).1 == (ActionView::WriteCache {
            file_name: spec_discovery_cache_filename(m.service, m.version, m.base),
        }),
        m.caching ==> transition(m, FetchEvent::Completed).0.phase
            == FetchPhase::AwaitCacheWrite,
        !m.caching ==> transition(m, FetchEvent::Completed).1 == ActionView::ParseBody,
{
}

/// How the answer to a request decides: a 2xx status (200 to 299) and only
/// that leads to reading the body. Any other status of the fallback fails the
/// fetch with that status; any other status of the primary URL leads to the
/// fallback URL without a base URL override, and fails the fetch with that
/// status under one.
pub proof fn law_response_status_decides(m: FetchModel, status: u16)
    requires
        m.phase == FetchPhase::AwaitPrimary || m.phase == FetchPhase::AwaitFallback,
    ensures
        (transition(m, FetchEvent::Response { status }).1 == ActionView::ReadBody) <==> (200
            <= status <= 299),
        m.phase == FetchPhase::AwaitFallback && !(200 <= status <= 299) ==> transition(
            m,
            FetchEvent::Response { status },
        ).1 == ActionView::Fail(FetchFailure::FallbackStatus { status }),
        m.phase == FetchPhase::AwaitPrimary && !(200 <= status <= 299) && (m.base is Some)
            ==> transition(m, FetchEvent::Response { status }).1 == ActionView::Fail(
            FetchFailure::PrimaryStatus { status },
        ),
        m.phase == FetchPhase::AwaitPrimary && !(200 <= status <= 299) && (m.base is None)
            ==> transition(m, FetchEvent::Response { status }).1 == (ActionView::Request {
            url: "https://"@ + m.service + ".googleapis.com/$discovery/rest"@,
            version_query: Some(m.version),
        }),
{
}

/// A fetch does nothing for an invalid service or version: its only action
/// is to fail, naming the service first. With both valid, it begins by
/// creating the cache directory when one is given, and otherwise by
/// requesting the primary URL; once the directory exists it looks up the age
/// of this fetch's cache file.
pub proof fn law_fetch_begins(
    service: Seq<char>,
    version: Seq<char>,
    caching: bool,
    base: Option<Seq<char>>,
    events: Seq<FetchEvent>,
)
    ensures
        !is_api_identifier(service) ==> session(service, version, caching, base, events) == seq![
            ActionView::Fail(FetchFailure::InvalidService),
        ],
        is_api_identifier(service) && !is_api_identifier(version) ==> session(
            service,
            version,
            caching,
            base,
            events,
        ) == seq![ActionView::Fail(FetchFailure::InvalidVersion)],
        is_api_identifier(service) && is_api_identifier(version) && caching ==> session(
            service,
            version,
            caching,
            base,
            events,
        )[0] == ActionView::CreateCacheDir,
        is_api_identifier(service) && is_api_identifier(version) && !caching ==> session(
            service,
            version,
            caching,
            base,
            events,
        )[0] == (ActionView::Request {
            url: spec_primary_discovery_url(service, version, base),
            version_query: None,
        }),
        is_api_identifier(service) && is_api_identifier(version) && caching && events.len() > 0
            && events[0] == FetchEvent::Completed ==> session(
            service,
            version,
            caching,
            base,
            events,
        )[1] == (ActionView::InspectCache {
            file_name: spec_discovery_cache_filename(service, version, base),
        }),
{
    let (m, a) = launch(service, version, caching, base);
    if !is_api_identifier(service) || !is_api_identifier(version) {
        assert(run(m, events) =~= Seq::<ActionView>::empty());
        assert(seq![a] + run(m, events) =~= seq![a]);
    }
    if run(m, events).len() > 0 {
        lemma_index_after_first(a, run(m, events), 1);
    }
}

} // verus!
