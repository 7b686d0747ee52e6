use crate::application::{AppInfo, ApplicationError};
use vstd::prelude::*;
use vstd::string::*;

verus! {

/// What came of asking the server for a descriptor.
pub enum FetchOutcome {
    /// The transport failed: no answer at all.
    Unreachable,
    /// An answer whose HTTP status was not a success.
    Rejected(u16),
    /// A parsed envelope `{code, data}`.
    Answered { code: i32, data: AppInfo },
}

/// Where a descriptor lookup stands.
pub enum DescriptorPhase {
    AwaitSchema,
    AwaitFetch,
    AwaitPersist(AppInfo),
    AwaitCache,
    Done,
}

/// What the surroundings report back after carrying out an action.
pub enum DescriptorEvent {
    SchemaReady,
    Fetched(FetchOutcome),
    Persisted,
    CacheRead(Option<AppInfo>),
    Failed(ApplicationError),
}

/// What the surroundings are asked to do next.
pub enum DescriptorAction {
    /// Create the descriptor table if it is absent.
    EnsureSchema,
    /// Send a GET to the URL.
    Request(String),
    /// Store the pending descriptor under the id, replacing any earlier one.
    Persist,
    /// Read the descriptor stored under the id.
    ReadCache,
    /// The lookup is over.
    Finish(Result<Option<AppInfo>, ApplicationError>),
}

/// One descriptor lookup: network first, the stored copy as fallback.
pub struct DescriptorResolver {
    id: String,
    url: String,
    phase: DescriptorPhase,
}

/// The address of a descriptor on a server.
pub open spec fn descriptor_url_spec(server: Seq<char>, id: Seq<char>) -> Seq<char> {
    server + "/appinfo/"@ + id
}

/// A server's answer is authoritative exactly when it carries code 0.
pub open spec fn is_authoritative(outcome: FetchOutcome) -> bool {
    match outcome {
        FetchOutcome::Answered { code, .. } => code == 0,
        _ => false,
    }
}

/// The transition function of a descriptor lookup.
pub open spec fn descriptor_next(phase: DescriptorPhase, ev: DescriptorEvent, url: String) -> (
    DescriptorPhase,
    DescriptorAction,
) {
    match (phase, ev) {
        (_, DescriptorEvent::Failed(e)) => (DescriptorPhase::Done, DescriptorAction::Finish(Err(e))),
        (DescriptorPhase::AwaitSchema, DescriptorEvent::SchemaReady) => (
            DescriptorPhase::AwaitFetch,
            DescriptorAction::Request(url),
        ),
        (DescriptorPhase::AwaitFetch, DescriptorEvent::Fetched(outcome)) => match outcome {
            FetchOutcome::Answered { code, data } => if code == 0 {
                (DescriptorPhase::AwaitPersist(data), DescriptorAction::Persist)
            } else {
                (DescriptorPhase::AwaitCache, DescriptorAction::ReadCache)
            },
            _ => (DescriptorPhase::AwaitCache, DescriptorAction::ReadCache),
        },
        (DescriptorPhase::AwaitPersist(data), DescriptorEvent::Persisted) => (
            DescriptorPhase::Done,
            DescriptorAction::Finish(Ok(Some(data))),
        ),
        (DescriptorPhase::AwaitCache, DescriptorEvent::CacheRead(cached)) => (
            DescriptorPhase::Done,
            DescriptorAction::Finish(Ok(cached)),
        ),
        _ => (DescriptorPhase::Done, DescriptorAction::Finish(Err(ApplicationError::UnexpectedEvent))),
    }
}

/// The descriptor table: application id to the last authoritative descriptor.
pub type DescriptorStore = Map<Seq<char>, AppInfo>;

/// What the table holds for `id`.
pub open spec fn stored(store: DescriptorStore, id: Seq<char>) -> Option<AppInfo> {
    if store.contains_key(id) {
        Some(store[id])
    } else {
        None
    }
}

/// The result carried by a final action.
pub open spec fn finish_result(a: DescriptorAction) -> Result<Option<AppInfo>, ApplicationError> {
    match a {
        DescriptorAction::Finish(r) => r,
        _ => Err(ApplicationError::UnexpectedEvent),
    }
}

/// A whole lookup of `id`, driven by surroundings that keep the table `store`,
/// create the schema without fault and get `outcome` from the server: the table
/// afterwards and the lookup's result.
pub open spec fn descriptor_run(store: DescriptorStore, id: Seq<char>, url: String, outcome: FetchOutcome) -> (
    DescriptorStore,
    Result<Option<AppInfo>, ApplicationError>,
) {
    let (p1, _a1) = descriptor_next(DescriptorPhase::AwaitSchema, DescriptorEvent::SchemaReady, url);
    let (p2, a2) = descriptor_next(p1, DescriptorEvent::Fetched(outcome), url);
    match (p2, a2) {
        (DescriptorPhase::AwaitPersist(d), DescriptorAction::Persist) => {
            let (_p3, a3) = descriptor_next(p2, DescriptorEvent::Persisted, url);
            (store.insert(id, d), finish_result(a3))
        },
        (_, DescriptorAction::ReadCache) => {
            let (_p3, a3) = descriptor_next(p2, DescriptorEvent::CacheRead(stored(store, id)), url);
            (store, finish_result(a3))
        },
        _ => (store, finish_result(a2)),
    }
}

/// A descriptor fetched with code 0 is returned, stored, and then returned
/// again by a lookup that cannot reach the server.
pub proof fn lemma_fetched_descriptor_survives_outage(
    store: DescriptorStore,
    id: Seq<char>,
    url: String,
    d: AppInfo,
)
    ensures
        ({
            let (s1, r1) = descriptor_run(store, id, url, FetchOutcome::Answered { code: 0, data: d });
            &&& r1 == Ok::<Option<AppInfo>, ApplicationError>(Some(d))
            &&& stored(s1, id) == Some(d)
            &&& descriptor_run(s1, id, url, FetchOutcome::Unreachable) == (s1, Ok::<Option<AppInfo>, ApplicationError>(Some(d)))
        }),
{
}

/// A negative answer from the server leaves the table as it was and falls
/// back to it: with nothing stored, the lookup yields no descriptor, not an error.
pub proof fn lemma_negative_answer_falls_back(
    store: DescriptorStore,
    id: Seq<char>,
    url: String,
    code: i32,
    d: AppInfo,
)
    requires
        code != 0,
    ensures
        descriptor_run(store, id, url, FetchOutcome::Answered { code, data: d }) == (store, Ok::<Option<AppInfo>, ApplicationError>(stored(store, id))),
        !store.contains_key(id) ==> descriptor_run(store, id, url, FetchOutcome::Answered { code, data: d }).1 == Ok::<Option<AppInfo>, ApplicationError>(None),
{
}

/// Without an authoritative answer the table is untouched and the stored
/// descriptor, if any, is the result.
pub proof fn lemma_failed_fetch_falls_back(store: DescriptorStore, id: Seq<char>, url: String, outcome: FetchOutcome)
    requires
        !is_authoritative(outcome),
    ensures
        descriptor_run(store, id, url, outcome) == (store, Ok::<Option<AppInfo>, ApplicationError>(stored(store, id))),
{
}

/// Builds the address of a descriptor: `{server}/appinfo/{id}`.
pub fn descriptor_url(server: &str, id: &str) -> (r: String)
    ensures
        r@ == descriptor_url_spec(server@, id@),
{
    let mut r = String::from_str(server);
    r.append("/appinfo/");
    r.append(id);
    r
}

impl DescriptorResolver {
    pub closed spec fn id_spec(&self) -> Seq<char> {
        self.id@
    }

    pub closed spec fn url_spec(&self) -> String {
        self.url
    }

    pub closed spec fn phase_spec(&self) -> DescriptorPhase {
        self.phase
    }

    /// Starts a lookup of `id` on `server`; the first action is to ensure the schema.
    pub fn new(server: &str, id: &str) -> (r: (Self, DescriptorAction))
        ensures
            r.0.id_spec() == id@,
            r.0.url_spec()@ == descriptor_url_spec(server@, id@),
            r.0.phase_spec() == DescriptorPhase::AwaitSchema,
            r.1 == DescriptorAction::EnsureSchema,
    {
        let url = descriptor_url(server, id);
        (
            DescriptorResolver { id: String::from_str(id), url, phase: DescriptorPhase::AwaitSchema },
            DescriptorAction::EnsureSchema,
        )
    }

    /// The application id being looked up.
    pub fn id(&self) -> (r: &str)
        ensures
            r@ == self.id_spec(),
    {
        self.id.as_str()
    }

    /// The descriptor waiting to be stored, if the lookup is at that point.
    pub fn pending(&self) -> (r: Option<&AppInfo>)
        ensures
            match self.phase_spec() {
                DescriptorPhase::AwaitPersist(d) => r == Some(&d),
                _ => r is None,
            },
    {
        match &self.phase {
            DescriptorPhase::AwaitPersist(d) => Some(d),
            _ => None,
        }
    }

    /// Takes in what the last action produced and says what to do next.
    pub fn step(&mut self, ev: DescriptorEvent) -> (r: DescriptorAction)
        ensures
            (final(self).phase_spec(), r) == descriptor_next(old(self).phase_spec(), ev, old(self).url_spec()),
            final(self).id_spec() == old(self).id_spec(),
            final(self).url_spec() == old(self).url_spec(),
    {
        let mut phase = DescriptorPhase::Done;
        std::mem::swap(&mut self.phase, &mut phase);
        match (phase, ev) {
            (_, DescriptorEvent::Failed(e)) => DescriptorAction::Finish(Err(e)),
            (DescriptorPhase::AwaitSchema, DescriptorEvent::SchemaReady) => {
                self.phase = DescriptorPhase::AwaitFetch;
                DescriptorAction::Request(self.url.clone())
            },
            (DescriptorPhase::AwaitFetch, DescriptorEvent::Fetched(outcome)) => match outcome {
                FetchOutcome::Answered { code, data } => if code == 0 {
                    self.phase = DescriptorPhase::AwaitPersist(data);
                    DescriptorAction::Persist
                } else {
                    self.phase = DescriptorPhase::AwaitCache;
                    DescriptorAction::ReadCache
                },
                _ => {
                    self.phase = DescriptorPhase::AwaitCache;
                    DescriptorAction::ReadCache
                },
            },
            (DescriptorPhase::AwaitPersist(data), DescriptorEvent::Persisted) => {
                DescriptorAction::Finish(Ok(Some(data)))
            },
            (DescriptorPhase::AwaitCache, DescriptorEvent::CacheRead(cached)) => {
                DescriptorAction::Finish(Ok(cached))
            },
            _ => DescriptorAction::Finish(Err(ApplicationError::UnexpectedEvent)),
        }
    }
}

} // verus!
