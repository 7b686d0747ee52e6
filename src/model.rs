use crate::application::{ApplicationError, Resource};
use crate::digest::digest_text;
use crate::resource::{
    is_success_spec, resource_next, url_parses, ResourceAction, ResourceEvent, ResourcePhase,
    ResourceRequest,
};
use crate::descriptor::{descriptor_run, DescriptorStore, FetchOutcome};
use vstd::prelude::*;

verus! {

/// What a resource lookup runs against: the resource table in row order, the
/// files on disk, the digest texts that hashing those files yields, the
/// server's answer to a download, and the id the next inserted row gets.
pub struct World {
    pub rows: Seq<Resource>,
    pub files: Map<Seq<char>, Seq<u8>>,
    pub texts: Map<Seq<char>, String>,
    pub status: u16,
    pub body: Seq<u8>,
    pub body_text: String,
    pub next_id: i64,
}

/// Hashing a file yields its digest text, and so does hashing a download.
pub open spec fn faithful(w: World) -> bool {
    &&& forall|p: Seq<char>| #[trigger] w.files.contains_key(p) ==> w.texts.contains_key(p) && w.texts[p]@ == digest_text(w.files[p])
    &&& w.body_text@ == digest_text(w.body)
}

/// The first row stored for a URL.
pub open spec fn first_row(rows: Seq<Resource>, url: Seq<char>) -> Option<Resource>
    decreases rows.len(),
{
    if rows.len() == 0 {
        None
    } else if rows[0].url@ == url {
        Some(rows[0])
    } else {
        first_row(rows.drop_first(), url)
    }
}

/// The rows without those that have the given id.
pub open spec fn remove_id(rows: Seq<Resource>, id: i64) -> Seq<Resource>
    decreases rows.len(),
{
    if rows.len() == 0 {
        rows
    } else if rows[0].id == id {
        remove_id(rows.drop_first(), id)
    } else {
        seq![rows[0]] + remove_id(rows.drop_first(), id)
    }
}

/// Whether some row is stored for a URL.
pub open spec fn has_row(rows: Seq<Resource>, url: Seq<char>) -> bool {
    exists|i: int| 0 <= i < rows.len() && (#[trigger] rows[i]).url@ == url
}

/// How the surroundings carry out one action: the world afterwards and the event.
pub open spec fn respond(w: World, a: ResourceAction) -> (World, ResourceEvent) {
    match a {
        ResourceAction::EnsureDir(_) => (w, ResourceEvent::DirReady),
        ResourceAction::EnsureSchema => (w, ResourceEvent::SchemaReady),
        ResourceAction::Lookup(u) => (w, ResourceEvent::LookedUp(first_row(w.rows, u@))),
        ResourceAction::Delete(id) => (World { rows: remove_id(w.rows, id), ..w }, ResourceEvent::Deleted),
        ResourceAction::HashFile(p) => (
            w,
            ResourceEvent::Hashed(if w.files.contains_key(p@) { Some(w.texts[p@]) } else { None }),
        ),
        ResourceAction::Request(_) => (w, ResourceEvent::Responded(w.status)),
        ResourceAction::WriteFile(p) => (
            World { files: w.files.insert(p@, w.body), texts: w.texts.insert(p@, w.body_text), ..w },
            ResourceEvent::Written,
        ),
        ResourceAction::Insert { url, path, hash_code, cache_ctrl } => (
            World {
                rows: w.rows.push(Resource { id: w.next_id, url, path, hash_code, cache_ctrl }),
                next_id: (w.next_id + 1) as i64,
                ..w
            },
            ResourceEvent::Inserted,
        ),
        ResourceAction::Finish(_) => (w, ResourceEvent::Inserted),
    }
}

/// What a whole lookup comes to: the world afterwards, the result, and the
/// number of downloads it asked for.
pub struct Run {
    pub world: World,
    pub result: Result<String, ApplicationError>,
    pub requests: nat,
}

/// Drives a lookup from a phase and its pending action for at most `fuel` steps.
pub open spec fn drive(req: ResourceRequest, phase: ResourcePhase, a: ResourceAction, w: World, fuel: nat) -> Run
    decreases fuel,
{
    match a {
        ResourceAction::Finish(r) => Run { world: w, result: r, requests: 0 },
        _ => if fuel == 0 {
            Run { world: w, result: Err(ApplicationError::UnexpectedEvent), requests: 0 }
        } else {
            let (w2, ev) = respond(w, a);
            let (p2, a2) = resource_next(req, phase, ev);
            let rest = drive(req, p2, a2, w2, (fuel - 1) as nat);
            Run { requests: rest.requests + if a is Request { 1nat } else { 0nat }, ..rest }
        },
    }
}

/// A whole lookup from its first action.
pub open spec fn resource_run(req: ResourceRequest, w: World) -> Run {
    drive(req, ResourcePhase::AwaitDir, ResourceAction::EnsureDir(req.cache_dir), w, 12)
}


/// The row a lookup finds is gone after its deletion.
pub open spec fn rows_after_claim(req: ResourceRequest, w: World) -> Seq<Resource> {
    match first_row(w.rows, req.url@) {
        Some(rec) => remove_id(w.rows, rec.id),
        None => w.rows,
    }
}

/// The stored record for the URL cannot be served: there is none, the cache
/// is bypassed, its file is gone, or the file's digest differs from the record's.
pub open spec fn must_download(req: ResourceRequest, w: World) -> bool {
    match first_row(w.rows, req.url@) {
        None => true,
        Some(rec) => req.disable_cache || !w.files.contains_key(rec.path@) || digest_text(w.files[rec.path@]) != rec.hash_code@,
    }
}

/// The record that a successful download adds.
pub open spec fn new_row(req: ResourceRequest, w: World) -> Resource {
    Resource { id: w.next_id, url: req.url, path: req.fresh_path, hash_code: w.body_text, cache_ctrl: req.cache_ctrl }
}

/// The row that a validated record is stored again as.
pub open spec fn reinserted_row(rec: Resource, w: World) -> Resource {
    Resource { id: w.next_id, ..rec }
}

/// A stored record whose file still has the recorded digest is served as it
/// is, without a download; its row is claimed and stored again.
pub proof fn lemma_valid_record_is_served(req: ResourceRequest, w: World)
    requires
        faithful(w),
        !must_download(req, w),
    ensures
        first_row(w.rows, req.url@) is Some,
        resource_run(req, w).result == Ok::<String, ApplicationError>(first_row(w.rows, req.url@)->0.path),
        resource_run(req, w).requests == 0,
        resource_run(req, w).world.rows == rows_after_claim(req, w).push(
            reinserted_row(first_row(w.rows, req.url@)->0, w),
        ),
        resource_run(req, w).world.files == w.files,
        resource_run(req, w).world.texts == w.texts,
        resource_run(req, w).world.body == w.body,
        resource_run(req, w).world.body_text == w.body_text,
{
    reveal_with_fuel(drive, 8);
}

/// A lookup that cannot serve a stored record downloads exactly once: on a
/// success status it records and returns the new file; otherwise it fails with
/// a download failure and adds no record.
pub proof fn lemma_unservable_record_is_downloaded(req: ResourceRequest, w: World)
    requires
        faithful(w),
        url_parses(req.url@),
        must_download(req, w),
    ensures
        resource_run(req, w).requests == 1,
        resource_run(req, w).world.body == w.body,
        resource_run(req, w).world.body_text == w.body_text,
        resource_run(req, w).world.status == w.status,
        is_success_spec(w.status) ==> {
            &&& resource_run(req, w).result == Ok::<String, ApplicationError>(req.fresh_path)
            &&& resource_run(req, w).world.rows == rows_after_claim(req, w).push(new_row(req, w))
            &&& resource_run(req, w).world.files == w.files.insert(req.fresh_path@, w.body)
            &&& resource_run(req, w).world.texts == w.texts.insert(req.fresh_path@, w.body_text)
        },
        !is_success_spec(w.status) ==> {
            &&& resource_run(req, w).result == Err::<String, ApplicationError>(ApplicationError::FileDownloadFail(req.url))
            &&& resource_run(req, w).world.rows == rows_after_claim(req, w)
            &&& resource_run(req, w).world.files == w.files
        },
{
    reveal_with_fuel(drive, 12);
}


/// A world stays faithful when a file is written along with its digest text.
proof fn lemma_write_keeps_faithful(w: World, w2: World, p: Seq<char>, bytes: Seq<u8>, text: String)
    requires
        faithful(w),
        text@ == digest_text(bytes),
        w2.files == w.files.insert(p, bytes),
        w2.texts == w.texts.insert(p, text),
        w2.body == w.body,
        w2.body_text == w.body_text,
    ensures
        faithful(w2),
{
    assert forall|q: Seq<char>| #[trigger] w2.files.contains_key(q) implies w2.texts.contains_key(q) && w2.texts[q]@ == digest_text(w2.files[q]) by {
        if q != p {
            assert(w.files.contains_key(q));
        }
    }
}

/// A row appended for a URL that had none is the first for it.
proof fn lemma_first_row_push(rows: Seq<Resource>, r: Resource, url: Seq<char>)
    requires
        first_row(rows, url) is None,
        r.url@ == url,
    ensures
        first_row(rows.push(r), url) == Some(r),
    decreases rows.len(),
{
    if rows.len() > 0 {
        assert(rows.push(r).drop_first() =~= rows.drop_first().push(r));
        lemma_first_row_push(rows.drop_first(), r, url);
    }
}

/// Removing rows by id keeps only rows that were there, and none with that id.
proof fn lemma_remove_id(rows: Seq<Resource>, id: i64)
    ensures
        forall|i: int| 0 <= i < remove_id(rows, id).len() ==> rows.contains(#[trigger] remove_id(rows, id)[i]),
        forall|i: int| 0 <= i < remove_id(rows, id).len() ==> (#[trigger] remove_id(rows, id)[i]).id != id,
    decreases rows.len(),
{
    if rows.len() > 0 {
        let rest = rows.drop_first();
        lemma_remove_id(rest, id);
        assert forall|i: int| 0 <= i < remove_id(rows, id).len() implies rows.contains(#[trigger] remove_id(rows, id)[i]) && remove_id(rows, id)[i].id != id by {
            if rows[0].id == id {
                let j = choose|j: int| 0 <= j < rest.len() && rest[j] == remove_id(rest, id)[i];
                assert(rows[j + 1] == rest[j]);
            } else if i > 0 {
                assert(remove_id(rows, id)[i] == remove_id(rest, id)[i - 1]);
                let j = choose|j: int| 0 <= j < rest.len() && rest[j] == remove_id(rest, id)[i - 1];
                assert(rows[j + 1] == rest[j]);
            } else {
                assert(remove_id(rows, id)[0] == rows[0]);
            }
        }
    }
}

/// A resource downloaded once is served from the cache by the next lookup of
/// the same URL that does not bypass it: the same path, and no second download.
pub proof fn lemma_second_lookup_reuses_download(req1: ResourceRequest, req2: ResourceRequest, w: World)
    requires
        faithful(w),
        url_parses(req1.url@),
        is_success_spec(w.status),
        first_row(w.rows, req1.url@) is None,
        req2.url@ == req1.url@,
        !req2.disable_cache,
    ensures
        resource_run(req1, w).result == Ok::<String, ApplicationError>(req1.fresh_path),
        resource_run(req2, resource_run(req1, w).world).result == Ok::<String, ApplicationError>(req1.fresh_path),
        resource_run(req2, resource_run(req1, w).world).requests == 0,
{
    lemma_unservable_record_is_downloaded(req1, w);
    let w1 = resource_run(req1, w).world;
    lemma_first_row_push(w.rows, new_row(req1, w), req1.url@);
    lemma_write_keeps_faithful(w, w1, req1.fresh_path@, w.body, w.body_text);
    lemma_valid_record_is_served(req2, w1);
}

/// A cached file whose bytes were changed so that its digest differs is not
/// served: the next lookup downloads again, returns the new file, drops the
/// old record and adds a new one.
pub proof fn lemma_tampered_file_is_replaced(
    req1: ResourceRequest,
    req2: ResourceRequest,
    w: World,
    tampered: Seq<u8>,
    tampered_text: String,
)
    requires
        faithful(w),
        url_parses(req1.url@),
        is_success_spec(w.status),
        first_row(w.rows, req1.url@) is None,
        req2.url@ == req1.url@,
        !req2.disable_cache,
        tampered_text@ == digest_text(tampered),
        digest_text(tampered) != digest_text(w.body),
    ensures
        ({
            let w1 = resource_run(req1, w).world;
            let w2 = World {
                files: w1.files.insert(req1.fresh_path@, tampered),
                texts: w1.texts.insert(req1.fresh_path@, tampered_text),
                ..w1
            };
            let r2 = resource_run(req2, w2);
            &&& r2.requests == 1
            &&& r2.result == Ok::<String, ApplicationError>(req2.fresh_path)
            &&& r2.world.rows.last() == new_row(req2, w2)
            &&& forall|i: int| 0 <= i < r2.world.rows.len() - 1 ==> (#[trigger] r2.world.rows[i]).id != w.next_id
        }),
{
    lemma_unservable_record_is_downloaded(req1, w);
    let w1 = resource_run(req1, w).world;
    lemma_first_row_push(w.rows, new_row(req1, w), req1.url@);
    lemma_write_keeps_faithful(w, w1, req1.fresh_path@, w.body, w.body_text);
    let w2 = World {
        files: w1.files.insert(req1.fresh_path@, tampered),
        texts: w1.texts.insert(req1.fresh_path@, tampered_text),
        ..w1
    };
    lemma_write_keeps_faithful(w1, w2, req1.fresh_path@, tampered, tampered_text);
    assert(must_download(req2, w2));
    lemma_unservable_record_is_downloaded(req2, w2);
    lemma_remove_id(w1.rows, w.next_id);
    let r2 = resource_run(req2, w2);
    assert forall|i: int| 0 <= i < r2.world.rows.len() - 1 implies (#[trigger] r2.world.rows[i]).id != w.next_id by {
        assert(r2.world.rows[i] == remove_id(w1.rows, w.next_id)[i]);
    }
}

/// Bypassing the cache always downloads, whatever is stored.
pub proof fn lemma_bypass_always_downloads(req: ResourceRequest, w: World)
    requires
        faithful(w),
        url_parses(req.url@),
        req.disable_cache,
    ensures
        resource_run(req, w).requests == 1,
        is_success_spec(w.status) ==> resource_run(req, w).result == Ok::<String, ApplicationError>(req.fresh_path),
{
    lemma_unservable_record_is_downloaded(req, w);
}

/// A download answered with a failure status (404 among them) fails the
/// lookup with a download failure, and the table holds no row that was not
/// there before.
pub proof fn lemma_failed_download_adds_no_record(req: ResourceRequest, w: World)
    requires
        faithful(w),
        url_parses(req.url@),
        must_download(req, w),
        !is_success_spec(w.status),
    ensures
        resource_run(req, w).result == Err::<String, ApplicationError>(ApplicationError::FileDownloadFail(req.url)),
        forall|i: int| 0 <= i < resource_run(req, w).world.rows.len() ==> w.rows.contains(#[trigger] resource_run(req, w).world.rows[i]),
{
    lemma_unservable_record_is_downloaded(req, w);
    if let Some(rec) = first_row(w.rows, req.url@) {
        lemma_remove_id(w.rows, rec.id);
    }
}

/// After the store is destroyed both tables start empty, and lookups work
/// from there without error: a descriptor lookup yields a result whatever the
/// server answers, and a resource lookup downloads and returns its file.
pub proof fn lemma_lookups_after_destroy(
    req: ResourceRequest,
    w: World,
    id: Seq<char>,
    url: String,
    outcome: FetchOutcome,
)
    requires
        faithful(w),
        w.rows.len() == 0,
        url_parses(req.url@),
        is_success_spec(w.status),
    ensures
        descriptor_run(DescriptorStore::empty(), id, url, outcome).1 is Ok,
        resource_run(req, w).result == Ok::<String, ApplicationError>(req.fresh_path),
{
    assert(first_row(w.rows, req.url@) is None);
    lemma_unservable_record_is_downloaded(req, w);
}

/// Every stored record points to a file whose digest text is the record's.
pub open spec fn records_valid(w: World) -> bool {
    forall|i: int| 0 <= i < w.rows.len() ==> {
        &&& w.files.contains_key((#[trigger] w.rows[i]).path@)
        &&& digest_text(w.files[w.rows[i].path@]) == w.rows[i].hash_code@
    }
}

/// A lookup never leaves a record whose file fails validation: when every
/// record was valid before, every record is valid after, provided the fresh
/// download path is not one that a record already uses.
pub proof fn lemma_lookup_keeps_records_valid(req: ResourceRequest, w: World)
    requires
        faithful(w),
        records_valid(w),
        url_parses(req.url@),
        forall|i: int| 0 <= i < w.rows.len() ==> (#[trigger] w.rows[i]).path@ != req.fresh_path@,
    ensures
        records_valid(resource_run(req, w).world),
{
    let claimed = rows_after_claim(req, w);
    if let Some(rec) = first_row(w.rows, req.url@) {
        lemma_remove_id(w.rows, rec.id);
    }
    assert forall|i: int| 0 <= i < claimed.len() implies w.rows.contains(#[trigger] claimed[i]) by {}
    if must_download(req, w) {
        lemma_unservable_record_is_downloaded(req, w);
        let w2 = resource_run(req, w).world;
        assert forall|i: int| 0 <= i < w2.rows.len() implies {
            &&& w2.files.contains_key((#[trigger] w2.rows[i]).path@)
            &&& digest_text(w2.files[w2.rows[i].path@]) == w2.rows[i].hash_code@
        } by {
            if i < claimed.len() {
                assert(w2.rows[i] == claimed[i]);
                assert(w.rows.contains(claimed[i]));
            }
        }
    } else {
        lemma_valid_record_is_served(req, w);
        lemma_first_row_found(w.rows, req.url@);
        let w2 = resource_run(req, w).world;
        assert forall|i: int| 0 <= i < w2.rows.len() implies {
            &&& w2.files.contains_key((#[trigger] w2.rows[i]).path@)
            &&& digest_text(w2.files[w2.rows[i].path@]) == w2.rows[i].hash_code@
        } by {
            if i < claimed.len() {
                assert(w2.rows[i] == claimed[i]);
                assert(w.rows.contains(claimed[i]));
            }
        }
    }
}

/// The first row found for a URL is one of the rows.
proof fn lemma_first_row_found(rows: Seq<Resource>, url: Seq<char>)
    ensures
        first_row(rows, url) matches Some(r) ==> rows.contains(r) && r.url@ == url,
    decreases rows.len(),
{
    if rows.len() > 0 && rows[0].url@ != url {
        lemma_first_row_found(rows.drop_first(), url);
        if let Some(r) = first_row(rows, url) {
            let j = choose|j: int| 0 <= j < rows.drop_first().len() && rows.drop_first()[j] == r;
            assert(rows[j + 1] == r);
        }
    } else if rows.len() > 0 {
        assert(rows[0] == rows[0]);
    }
}

/// A record served from the cache is stored again, so when it was the only
/// row for its URL the next lookup that does not bypass the cache is served
/// the same path, again without a download.
pub proof fn lemma_served_record_stays_served(req1: ResourceRequest, req2: ResourceRequest, w: World)
    requires
        faithful(w),
        !must_download(req1, w),
        first_row(rows_after_claim(req1, w), req1.url@) is None,
        req2.url@ == req1.url@,
        !req2.disable_cache,
    ensures
        resource_run(req2, resource_run(req1, w).world).result == resource_run(req1, w).result,
        resource_run(req2, resource_run(req1, w).world).requests == 0,
{
    lemma_valid_record_is_served(req1, w);
    let rec = first_row(w.rows, req1.url@)->0;
    let w1 = resource_run(req1, w).world;
    lemma_first_row_found(w.rows, req1.url@);
    lemma_first_row_push(rows_after_claim(req1, w), reinserted_row(rec, w), req1.url@);
    assert(faithful(w1));
    lemma_valid_record_is_served(req2, w1);
}

} // verus!
