use crate::application::{ApplicationError, Resource};
use vstd::prelude::*;
use vstd::string::*;

verus! {

/// Whether a text parses as an absolute URL.
pub uninterp spec fn url_parses(s: Seq<char>) -> bool;

/// Relies on url::Url::parse: whether the text is an absolute URL, which
/// depends on the text alone.
#[verifier::external_body]
fn parses_as_url(s: &str) -> (r: bool)
    ensures
        r == url_parses(s@),
{
    url::Url::parse(s).is_ok()
}

/// Relies on uuid::Uuid::new_v4 and its `Display`: a random version-4 UUID
/// in hyphenated form, always 36 characters.
#[verifier::external_body]
fn fresh_name() -> (r: String)
    ensures
        r@.len() == 36,
{
    uuid::Uuid::new_v4().to_string()
}

/// An HTTP status counts as success when it lies in 200..=299.
pub open spec fn is_success_spec(status: u16) -> bool {
    200 <= status && status <= 299
}

/// Whether an HTTP status is a success.
pub fn is_success(status: u16) -> (r: bool)
    ensures
        r == is_success_spec(status),
{
    200 <= status && status <= 299
}

/// A file name placed under a directory: the name alone under an empty
/// directory, else joined with one `/`.
pub open spec fn join_path(dir: Seq<char>, name: Seq<char>) -> Seq<char> {
    if dir.len() == 0 {
        name
    } else if dir.last() == '/' {
        dir + name
    } else {
        dir + seq!['/'] + name
    }
}

/// Places a relative file name under a directory.
pub fn cache_file_path(dir: &str, name: &str) -> (r: String)
    ensures
        r@ == join_path(dir@, name@),
{
    let n = dir.unicode_len();
    if n == 0 {
        return String::from_str(name);
    }
    let last = dir.get_char(n - 1);
    let mut r = String::from_str(dir);
    if last != '/' {
        proof { reveal_strlit("/"); }
        r.append("/");
    }
    r.append(name);
    r
}

/// A path for a new download: a fresh 36-character name under the cache directory.
pub fn fresh_cache_path(dir: &str) -> (r: String)
    ensures
        exists|name: Seq<char>| name.len() == 36 && r@ == join_path(dir@, name),
{
    let name = fresh_name();
    cache_file_path(dir, name.as_str())
}

/// Where a resource lookup stands.
pub enum ResourcePhase {
    AwaitDir,
    AwaitSchema,
    AwaitLookup,
    /// The record found is being removed from the store.
    AwaitDelete(Resource),
    /// The record's file is being hashed to validate it.
    AwaitCheck(Resource),
    /// The validated record is being stored again.
    AwaitReinsert(Resource),
    AwaitResponse,
    AwaitWrite,
    AwaitNewHash,
    AwaitInsert,
    Done,
}

/// What the surroundings report back after carrying out an action.
pub enum ResourceEvent {
    DirReady,
    SchemaReady,
    /// The first record stored for the URL, if any.
    LookedUp(Option<Resource>),
    Deleted,
    /// The digest text of the file asked for, or `None` when it does not exist.
    Hashed(Option<String>),
    /// The HTTP status of the download's answer.
    Responded(u16),
    Written,
    Inserted,
    Failed(ApplicationError),
}

/// What the surroundings are asked to do next.
pub enum ResourceAction {
    /// Create the directory and its parents if it is missing.
    EnsureDir(String),
    /// Create the resource table if it is absent.
    EnsureSchema,
    /// Find the first record stored for the URL.
    Lookup(String),
    /// Remove the record with this id.
    Delete(i64),
    /// Compute the digest text of the file at this path, if it exists.
    HashFile(String),
    /// Send a GET to the URL.
    Request(String),
    /// Write the body of the answer to a new file at this path.
    WriteFile(String),
    /// Add a new record.
    Insert { url: String, path: String, hash_code: String, cache_ctrl: String },
    /// The lookup is over: the local path of the resource, or why there is none.
    Finish(Result<String, ApplicationError>),
}

/// What a lookup works with; fixed when it starts.
pub struct ResourceRequest {
    pub url: String,
    pub cache_dir: String,
    pub disable_cache: bool,
    /// Where a download of this lookup is written.
    pub fresh_path: String,
    /// The cache-control text of new records.
    pub cache_ctrl: String,
}

/// One resource lookup: a validated cached file, else a fresh download.
pub struct ResourceResolver {
    request: ResourceRequest,
    phase: ResourcePhase,
}

/// The start of a download: an unparsable URL ends the lookup.
pub open spec fn begin_download(req: ResourceRequest) -> (ResourcePhase, ResourceAction) {
    if url_parses(req.url@) {
        (ResourcePhase::AwaitResponse, ResourceAction::Request(req.url))
    } else {
        (ResourcePhase::Done, ResourceAction::Finish(Err(ApplicationError::UrlParseError)))
    }
}

/// The transition function of a resource lookup.
pub open spec fn resource_next(req: ResourceRequest, phase: ResourcePhase, ev: ResourceEvent) -> (
    ResourcePhase,
    ResourceAction,
) {
    match (phase, ev) {
        (_, ResourceEvent::Failed(e)) => (ResourcePhase::Done, ResourceAction::Finish(Err(e))),
        (ResourcePhase::AwaitDir, ResourceEvent::DirReady) => (
            ResourcePhase::AwaitSchema,
            ResourceAction::EnsureSchema,
        ),
        (ResourcePhase::AwaitSchema, ResourceEvent::SchemaReady) => (
            ResourcePhase::AwaitLookup,
            ResourceAction::Lookup(req.url),
        ),
        (ResourcePhase::AwaitLookup, ResourceEvent::LookedUp(found)) => match found {
            Some(rec) => (ResourcePhase::AwaitDelete(rec), ResourceAction::Delete(rec.id)),
            None => begin_download(req),
        },
        (ResourcePhase::AwaitDelete(rec), ResourceEvent::Deleted) => if req.disable_cache {
            begin_download(req)
        } else {
            (ResourcePhase::AwaitCheck(rec), ResourceAction::HashFile(rec.path))
        },
        (ResourcePhase::AwaitCheck(rec), ResourceEvent::Hashed(h)) => match h {
            Some(h) => if h@ == rec.hash_code@ {
                (
                    ResourcePhase::AwaitReinsert(rec),
                    ResourceAction::Insert {
                        url: rec.url,
                        path: rec.path,
                        hash_code: rec.hash_code,
                        cache_ctrl: rec.cache_ctrl,
                    },
                )
            } else {
                begin_download(req)
            },
            None => begin_download(req),
        },
        (ResourcePhase::AwaitResponse, ResourceEvent::Responded(status)) => if is_success_spec(status) {
            (ResourcePhase::AwaitWrite, ResourceAction::WriteFile(req.fresh_path))
        } else {
            (ResourcePhase::Done, ResourceAction::Finish(Err(ApplicationError::FileDownloadFail(req.url))))
        },
        (ResourcePhase::AwaitWrite, ResourceEvent::Written) => (
            ResourcePhase::AwaitNewHash,
            ResourceAction::HashFile(req.fresh_path),
        ),
        (ResourcePhase::AwaitNewHash, ResourceEvent::Hashed(Some(h))) => (
            ResourcePhase::AwaitInsert,
            ResourceAction::Insert {
                url: req.url,
                path: req.fresh_path,
                hash_code: h,
                cache_ctrl: req.cache_ctrl,
            },
        ),
        (ResourcePhase::AwaitInsert, ResourceEvent::Inserted) => (
            ResourcePhase::Done,
            ResourceAction::Finish(Ok(req.fresh_path)),
        ),
        (ResourcePhase::AwaitReinsert(rec), ResourceEvent::Inserted) => (
            ResourcePhase::Done,
            ResourceAction::Finish(Ok(rec.path)),
        ),
        _ => (ResourcePhase::Done, ResourceAction::Finish(Err(ApplicationError::UnexpectedEvent))),
    }
}

impl ResourceResolver {
    pub closed spec fn request_spec(&self) -> ResourceRequest {
        self.request
    }

    pub closed spec fn phase_spec(&self) -> ResourcePhase {
        self.phase
    }

    /// Starts a lookup of `url`; the first action is to ensure the cache directory.
    pub fn new(url: &str, cache_dir: &str, disable_cache: bool) -> (r: (Self, ResourceAction))
        ensures
            r.0.request_spec().url@ == url@,
            r.0.request_spec().cache_dir@ == cache_dir@,
            r.0.request_spec().disable_cache == disable_cache,
            r.0.request_spec().cache_ctrl@ == Seq::<char>::empty(),
            exists|name: Seq<char>|
                name.len() == 36 && r.0.request_spec().fresh_path@ == join_path(cache_dir@, name),
            r.0.phase_spec() == ResourcePhase::AwaitDir,
            r.1 == ResourceAction::EnsureDir(r.0.request_spec().cache_dir),
    {
        let request = ResourceRequest {
            url: String::from_str(url),
            cache_dir: String::from_str(cache_dir),
            disable_cache,
            fresh_path: fresh_cache_path(cache_dir),
            cache_ctrl: String::new(),
        };
        let dir = request.cache_dir.clone();
        (ResourceResolver { request, phase: ResourcePhase::AwaitDir }, ResourceAction::EnsureDir(dir))
    }

    /// What this lookup works with.
    pub fn request(&self) -> (r: &ResourceRequest)
        ensures
            *r == self.request_spec(),
    {
        &self.request
    }

    fn start_download(&mut self) -> (r: ResourceAction)
        ensures
            (final(self).phase_spec(), r) == begin_download(old(self).request_spec()),
            final(self).request_spec() == old(self).request_spec(),
    {
        if parses_as_url(self.request.url.as_str()) {
            self.phase = ResourcePhase::AwaitResponse;
            ResourceAction::Request(self.request.url.clone())
        } else {
            self.phase = ResourcePhase::Done;
            ResourceAction::Finish(Err(ApplicationError::UrlParseError))
        }
    }

    /// Takes in what the last action produced and says what to do next.
    pub fn step(&mut self, ev: ResourceEvent) -> (r: ResourceAction)
        ensures
            (final(self).phase_spec(), r) == resource_next(old(self).request_spec(), old(self).phase_spec(), ev),
            final(self).request_spec() == old(self).request_spec(),
    {
        let mut phase = ResourcePhase::Done;
        std::mem::swap(&mut self.phase, &mut phase);
        match (phase, ev) {
            (_, ResourceEvent::Failed(e)) => ResourceAction::Finish(Err(e)),
            (ResourcePhase::AwaitDir, ResourceEvent::DirReady) => {
                self.phase = ResourcePhase::AwaitSchema;
                ResourceAction::EnsureSchema
            },
            (ResourcePhase::AwaitSchema, ResourceEvent::SchemaReady) => {
                self.phase = ResourcePhase::AwaitLookup;
                ResourceAction::Lookup(self.request.url.clone())
            },
            (ResourcePhase::AwaitLookup, ResourceEvent::LookedUp(found)) => match found {
                Some(rec) => {
                    let id = rec.id;
                    self.phase = ResourcePhase::AwaitDelete(rec);
                    ResourceAction::Delete(id)
                },
                None => self.start_download(),
            },
            (ResourcePhase::AwaitDelete(rec), ResourceEvent::Deleted) => if self.request.disable_cache {
                self.start_download()
            } else {
                let path = rec.path.clone();
                self.phase = ResourcePhase::AwaitCheck(rec);
                ResourceAction::HashFile(path)
            },
            (ResourcePhase::AwaitCheck(rec), ResourceEvent::Hashed(h)) => match h {
                Some(h) => if h == rec.hash_code {
                    let action = ResourceAction::Insert {
                        url: rec.url.clone(),
                        path: rec.path.clone(),
                        hash_code: rec.hash_code.clone(),
                        cache_ctrl: rec.cache_ctrl.clone(),
                    };
                    self.phase = ResourcePhase::AwaitReinsert(rec);
                    action
                } else {
                    self.start_download()
                },
                None => self.start_download(),
            },
            (ResourcePhase::AwaitResponse, ResourceEvent::Responded(status)) => if is_success(status) {
                self.phase = ResourcePhase::AwaitWrite;
                ResourceAction::WriteFile(self.request.fresh_path.clone())
            } else {
                ResourceAction::Finish(Err(ApplicationError::FileDownloadFail(self.request.url.clone())))
            },
            (ResourcePhase::AwaitWrite, ResourceEvent::Written) => {
                self.phase = ResourcePhase::AwaitNewHash;
                ResourceAction::HashFile(self.request.fresh_path.clone())
            },
            (ResourcePhase::AwaitNewHash, ResourceEvent::Hashed(Some(h))) => {
                self.phase = ResourcePhase::AwaitInsert;
                ResourceAction::Insert {
                    url: self.request.url.clone(),
                    path: self.request.fresh_path.clone(),
                    hash_code: h,
                    cache_ctrl: self.request.cache_ctrl.clone(),
                }
            },
            (ResourcePhase::AwaitInsert, ResourceEvent::Inserted) => {
                ResourceAction::Finish(Ok(self.request.fresh_path.clone()))
            },
            (ResourcePhase::AwaitReinsert(rec), ResourceEvent::Inserted) => ResourceAction::Finish(Ok(rec.path)),
            _ => ResourceAction::Finish(Err(ApplicationError::UnexpectedEvent)),
        }
    }
}

} // verus!
