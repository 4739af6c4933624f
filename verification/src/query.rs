//! The issue query service.
//!
//! The read path composes the authorization gate with the two store
//! queries: a request is authorized first, and only then are objects and
//! issues fetched and joined by object id.  The write path ingests a batch
//! of submitted issues, registering each element's object before storing
//! its issue row; the first failure aborts the remainder of the batch while
//! everything already stored stays stored.

use vstd::prelude::*;

use crate::authz::AuthzBackendError;
use crate::db::{
    add_issue_post, add_issue_result, issues_query, issues_view, objects_query, objects_view,
    register_post, register_result, Database, DatabaseView, StorageError,
};
use crate::issues::{
    issue_record_view, make_issue_record, Issue, IssueCategory, IssueList, IssueListWithObjects,
    IssueView, ObjectWithIssues, ObjectWithIssuesView, PostIssueView,
};
use crate::objects::{NamespacedObject, NamespacedObjectView, ObjectId};

verus! {

/// Failure of a service request, as surfaced to the transport layer.
#[derive(Clone, Copy, PartialEq, Eq, Structural, Debug)]
pub enum ApiError {
    /// The subject may not read the namespace.  Deliberately carries no
    /// detail: a denial must not reveal whether the namespace or any issue
    /// exists.
    Forbidden,
    /// The storage or the access-control backend failed; detail belongs in
    /// the log, never in the response.
    Internal,
}

/// The issues among `issues` that reference the object with id `id`, in
/// their given order.
pub open spec fn object_issues(issues: Seq<IssueView>, id: ObjectId) -> Seq<IssueView> {
    issues.filter(|iss: IssueView| iss.object_id == id)
}

/// The client-side join: every object, paired with the issues that
/// reference it by object id.
pub open spec fn merged_view(
    objects: Seq<NamespacedObjectView>,
    issues: Seq<IssueView>,
) -> Seq<ObjectWithIssuesView> {
    objects.map_values(
        |o: NamespacedObjectView| ObjectWithIssuesView {
            metadata: o,
            issues: object_issues(issues, o.id),
        },
    )
}

/// What the read path answers: a backend failure is a server error, a deny
/// is forbidden, and an authorized request gets the two category/namespace
/// queries joined by object id.
pub open spec fn read_result(
    db: DatabaseView,
    authz: Result<bool, AuthzBackendError>,
    category: IssueCategory,
    namespace: Seq<char>,
) -> Result<Seq<ObjectWithIssuesView>, ApiError> {
    match authz {
        Ok(true) => Ok(
            merged_view(
                objects_query(db, category, namespace),
                issues_query(db, category, namespace),
            ),
        ),
        Ok(false) => Err(ApiError::Forbidden),
        Err(_) => Err(ApiError::Internal),
    }
}

/// The response with its text fields abstracted to sequences, for stating
/// what the read path returns.
pub open spec fn response_view(r: Result<IssueListWithObjects, ApiError>) -> Result<
    Seq<ObjectWithIssuesView>,
    ApiError,
> {
    match r {
        Ok(list) => Ok(list@),
        Err(e) => Err(e),
    }
}

/// [`object_issues`] restricted to the first `n` issues.
spec fn object_issues_prefix(issues: Seq<IssueView>, id: ObjectId, n: int) -> Seq<IssueView> {
    issues.take(n).filter(|iss: IssueView| iss.object_id == id)
}

proof fn lemma_object_issues_prefix_step(issues: Seq<IssueView>, id: ObjectId, n: int)
    requires
        0 <= n < issues.len(),
    ensures
        object_issues_prefix(issues, id, n + 1) == if issues[n].object_id == id {
            object_issues_prefix(issues, id, n).push(issues[n])
        } else {
            object_issues_prefix(issues, id, n)
        },
{
    broadcast use vstd::prelude::Seq::lemma_filter_push;

    assert(issues.take(n + 1) =~= issues.take(n).push(issues[n]));
}

proof fn lemma_object_issues_prefix_full(issues: Seq<IssueView>, id: ObjectId)
    ensures
        object_issues_prefix(issues, id, issues.len() as int) == object_issues(issues, id),
{
    assert(issues.take(issues.len() as int) =~= issues);
}

/// The images of a merged row set.
spec fn entries_view(entries: Seq<ObjectWithIssues>) -> Seq<ObjectWithIssuesView> {
    entries.map_values(|ow: ObjectWithIssues| ow@)
}

/// The issues that reference the object with id `id`, in their given order.
fn issues_for_object(issues: &Vec<Issue>, id: ObjectId) -> (r: Vec<Issue>)
    ensures
        issues_view(r@) == object_issues(issues_view(issues@), id),
{
    let mut result: Vec<Issue> = Vec::new();
    let mut k: usize = 0;
    while k < issues.len()
        invariant
            k <= issues.len(),
            issues_view(result@) == object_issues_prefix(issues_view(issues@), id, k as int),
        decreases issues.len() - k,
    {
        proof {
            assert(issues_view(issues@)[k as int] == issues@[k as int]@);
        }
        let ghost prev = issues_view(result@);
        if issues[k].object_id == id {
            let iss = issues[k].clone();
            result.push(iss);
            proof {
                assert(issues_view(result@) =~= prev.push(issues@[k as int]@));
            }
        }
        proof {
            lemma_object_issues_prefix_step(issues_view(issues@), id, k as int);
        }
        k = k + 1;
    }
    proof {
        lemma_object_issues_prefix_full(issues_view(issues@), id);
    }
    result
}

/// Joins the two query results by object id: every object keeps its place
/// and is paired with the issues whose `object_id` equals its id.  An
/// object that only appears through a `linked_object_id` reference keeps an
/// empty issue list rather than being dropped.
pub fn merge_objects_with_issues(objects: Vec<NamespacedObject>, issues: Vec<Issue>) -> (r:
    IssueListWithObjects)
    ensures
        r@ == merged_view(objects_view(objects@), issues_view(issues@)),
{
    let mut merged: Vec<ObjectWithIssues> = Vec::new();
    let mut i: usize = 0;
    while i < objects.len()
        invariant
            i <= objects.len(),
            merged@.len() == i as int,
            entries_view(merged@) == merged_view(
                objects_view(objects@),
                issues_view(issues@),
            ).take(i as int),
        decreases objects.len() - i,
    {
        proof {
            assert(objects_view(objects@)[i as int] == objects@[i as int]@);
        }
        let metadata = objects[i].clone();
        let own_issues = issues_for_object(&issues, metadata.id);
        let entry = ObjectWithIssues { metadata: metadata, issues: own_issues };
        proof {
            assert(entry@.issues =~= object_issues(issues_view(issues@), entry.metadata.id));
            assert(entry@ == merged_view(objects_view(objects@), issues_view(issues@))[i as int]);
        }
        let ghost prevv = merged@;
        merged.push(entry);
        proof {
            let full = merged_view(objects_view(objects@), issues_view(issues@));
            assert(merged@ == prevv.push(entry));
            assert(merged@.len() == i as int + 1);
            assert(full.len() == objects@.len());
            assert forall|j: int| 0 <= j < i as int + 1 implies entries_view(merged@)[j]
                == full.take(i as int + 1)[j] by {
                assert(entries_view(merged@)[j] == merged@[j]@);
                if j < i as int {
                    assert(merged@[j] == prevv[j]);
                    assert(entries_view(prevv)[j] == prevv[j]@);
                    assert(entries_view(prevv)[j] == full.take(i as int)[j]);
                } else {
                    assert(merged@[j] == entry);
                }
            }
            assert(entries_view(merged@) =~= full.take(i as int + 1));
        }
        i = i + 1;
    }
    proof {
        let full = merged_view(objects_view(objects@), issues_view(issues@));
        assert(full.take(objects@.len() as int) =~= full);
        let r = IssueListWithObjects { issues: merged };
        assert(r@ =~= entries_view(merged@));
    }
    IssueListWithObjects { issues: merged }
}

/// The authorizing step of the read path: a backend failure becomes a
/// server error, a deny becomes forbidden (with no further detail), and
/// only an allow lets the request proceed to the store.
pub fn authorize_read(authz: Result<bool, AuthzBackendError>) -> (r: Result<(), ApiError>)
    ensures
        r == match authz {
            Ok(true) => Ok::<(), ApiError>(()),
            Ok(false) => Err::<(), ApiError>(ApiError::Forbidden),
            Err(_) => Err::<(), ApiError>(ApiError::Internal),
        },
{
    match authz {
        Ok(true) => Ok(()),
        Ok(false) => Err(ApiError::Forbidden),
        Err(_) => Err(ApiError::Internal),
    }
}

/// The read path.  The authorization verdict comes first: a deny or a
/// backend failure answers without touching the store, and only an allow
/// reaches the two category/namespace queries, whose results are joined by
/// object id.  An empty list is a valid success.
pub fn list_issues_by_category(
    db: &Database,
    authz: Result<bool, AuthzBackendError>,
    category: IssueCategory,
    namespace_name: &str,
) -> (r: Result<IssueListWithObjects, ApiError>)
    ensures
        response_view(r) == read_result(db@, authz, category, namespace_name@),
{
    match authorize_read(authz) {
        Err(e) => Err(e),
        Ok(_) => {
            let objects = db.get_objects_with_issue_category_in_namespace(
                category,
                namespace_name,
            );
            let issues = db.get_issues_with_category_for_namespace(category, namespace_name);
            Ok(merge_objects_with_issues(objects, issues))
        },
    }
}

/// One ingestion element applied to the store: the object is registered
/// (idempotently), then the issue row referencing the fresh-or-found id is
/// stored.  If registration fails, no issue row is attempted.
pub open spec fn ingest_post(db: DatabaseView, p: PostIssueView) -> DatabaseView {
    let db1 = register_post(db, p.object_type, p.object_name, p.cluster, p.namespace);
    match register_result(db, p.object_type, p.object_name, p.cluster, p.namespace) {
        Ok(id) => add_issue_post(db1, issue_record_view(p, id)),
        Err(_) => db1,
    }
}

/// Whether one ingestion element succeeds.
pub open spec fn ingest_result(db: DatabaseView, p: PostIssueView) -> Result<(), StorageError> {
    let db1 = register_post(db, p.object_type, p.object_name, p.cluster, p.namespace);
    match register_result(db, p.object_type, p.object_name, p.cluster, p.namespace) {
        Ok(id) => add_issue_result(db1, issue_record_view(p, id)),
        Err(e) => Err(e),
    }
}

/// The store after ingesting a batch in submission order: elements are
/// applied one after the other until the first failure, which leaves
/// everything already applied in place and stops.
pub open spec fn batch_post(db: DatabaseView, posts: Seq<PostIssueView>) -> DatabaseView
    decreases posts.len(),
{
    if posts.len() <= 0 {
        db
    } else {
        let rest = posts.drop_last();
        let pre = batch_post(db, rest);
        if batch_result(db, rest) is Ok {
            ingest_post(pre, posts.last())
        } else {
            pre
        }
    }
}

/// Whether a batch succeeds as a whole: the error of the first failing
/// element, if any.
pub open spec fn batch_result(db: DatabaseView, posts: Seq<PostIssueView>) -> Result<
    (),
    StorageError,
>
    decreases posts.len(),
{
    if posts.len() <= 0 {
        Ok(())
    } else {
        let rest = posts.drop_last();
        match batch_result(db, rest) {
            Ok(_) => ingest_result(batch_post(db, rest), posts.last()),
            Err(e) => Err(e),
        }
    }
}

/// Once a prefix of the batch has failed, the remaining elements change
/// nothing: the store stays as the failing prefix left it, and the batch
/// reports that prefix's error.  Together with [`batch_post`] this is the
/// partial-failure policy: elements before the failure stay persisted,
/// elements after it are never applied.
pub proof fn lemma_batch_failure_stops(db: DatabaseView, posts: Seq<PostIssueView>, n: int)
    requires
        0 <= n <= posts.len(),
        batch_result(db, posts.take(n)) is Err,
    ensures
        batch_post(db, posts) == batch_post(db, posts.take(n)),
        batch_result(db, posts) == batch_result(db, posts.take(n)),
    decreases posts.len() - n,
{
    if n == posts.len() {
        assert(posts.take(n) =~= posts);
    } else {
        assert(posts.take(n + 1).drop_last() =~= posts.take(n));
        assert(batch_post(db, posts.take(n + 1)) == batch_post(db, posts.take(n)));
        assert(batch_result(db, posts.take(n + 1)) == batch_result(db, posts.take(n)));
        lemma_batch_failure_stops(db, posts, n + 1);
    }
}

/// Bulk ingestion.  For each submitted element, in submission order: the
/// element's object is registered (an idempotent upsert), then its issue
/// row is stored.  The batch is not atomic: the first failure aborts the
/// remainder and is returned, while every element already applied stays
/// applied.  No deduplication by `issue_tech_id` takes place: re-ingesting
/// the same finding stores a new row.
pub fn store_issues(db: &mut Database, issue_list: &IssueList) -> (r: Result<(), StorageError>)
    requires
        old(db)@.wf(),
    ensures
        final(db)@.wf(),
        final(db)@ == batch_post(old(db)@, issue_list@),
        r == batch_result(old(db)@, issue_list@),
{
    let ghost db0 = db@;
    let ghost posts = issue_list@;
    let mut idx: usize = 0;
    while idx < issue_list.issues.len()
        invariant
            idx <= issue_list.issues.len(),
            posts == issue_list@,
            db0 == old(db)@,
            db0.wf(),
            db@.wf(),
            db@ == batch_post(db0, posts.take(idx as int)),
            batch_result(db0, posts.take(idx as int)) == Ok::<(), StorageError>(()),
        decreases issue_list.issues.len() - idx,
    {
        proof {
            assert(issue_list@[idx as int] == issue_list.issues@[idx as int]@);
            assert(posts.take(idx as int + 1).drop_last() =~= posts.take(idx as int));
            assert(posts.take(idx as int + 1).last() == posts[idx as int]);
        }
        let post = &issue_list.issues[idx];
        let ghost dbk = db@;
        let registered = db.record_namespaced_object(
            post.object_type.as_str(),
            post.object_name.as_str(),
            post.cluster.as_str(),
            post.namespace.as_str(),
        );
        let id = match registered {
            Ok(id) => id,
            Err(e) => {
                proof {
                    assert(db@ == ingest_post(dbk, posts[idx as int]));
                    assert(batch_post(db0, posts.take(idx as int + 1)) == db@);
                    assert(batch_result(db0, posts.take(idx as int + 1)) == Err::<
                        (),
                        StorageError,
                    >(e));
                    lemma_batch_failure_stops(db0, posts, idx as int + 1);
                }
                return Err(e);
            },
        };
        let row = make_issue_record(post, id);
        match db.add_object_issue(row) {
            Ok(_) => {
                proof {
                    assert(db@ == ingest_post(dbk, posts[idx as int]));
                    assert(batch_post(db0, posts.take(idx as int + 1)) == db@);
                    assert(batch_result(db0, posts.take(idx as int + 1)) == Ok::<
                        (),
                        StorageError,
                    >(()));
                }
            },
            Err(e) => {
                proof {
                    assert(db@ == ingest_post(dbk, posts[idx as int]));
                    assert(batch_post(db0, posts.take(idx as int + 1)) == db@);
                    assert(batch_result(db0, posts.take(idx as int + 1)) == Err::<
                        (),
                        StorageError,
                    >(e));
                    lemma_batch_failure_stops(db0, posts, idx as int + 1);
                }
                return Err(e);
            },
        }
        idx = idx + 1;
    }
    proof {
        assert(posts.take(posts.len() as int) =~= posts);
    }
    Ok(())
}

/// An issue of the category in the namespace whose `linked_object_id`
/// points at an object of the namespace makes that object appear in the
/// authorized read result, even when no issue references the object
/// directly.
pub proof fn lemma_linked_object_included(
    db: DatabaseView,
    k: int,
    i: int,
    category: IssueCategory,
    namespace: Seq<char>,
)
    requires
        0 <= k < db.issues.len(),
        0 <= i < db.objects.len(),
        db.issues[k].category == category,
        db.issues[k].linked_object_id == Some(db.objects[i].id),
        crate::db::namespace_has_object(db.objects, db.issues[k].object_id, namespace),
        db.objects[i].namespace == namespace,
    ensures
        objects_query(db, category, namespace).contains(db.objects[i]),
        ({
            let out = merged_view(
                objects_query(db, category, namespace),
                issues_query(db, category, namespace),
            );
            &&& read_result(db, Ok(true), category, namespace) == Ok::<
                Seq<ObjectWithIssuesView>,
                ApiError,
            >(out)
            &&& exists|m: int|
                0 <= m < out.len() && (#[trigger] out[m]).metadata == db.objects[i]
        }),
{
    assert(crate::db::issue_flags_object(
        db.objects,
        db.issues[k],
        db.objects[i].id,
        category,
        namespace,
    ));
    assert(crate::db::object_flagged(db.objects, db.issues, db.objects[i], category, namespace));
    crate::db::lemma_flagged_object_in_query(db, i, category, namespace);
    let oq = objects_query(db, category, namespace);
    let m = choose|m: int| 0 <= m < oq.len() && oq[m] == db.objects[i];
    let out = merged_view(oq, issues_query(db, category, namespace));
    assert(out[m].metadata == db.objects[i]);
}

/// A denied read answers `Forbidden` whatever the store holds: the answer
/// is the same for every two stores, so a deny reveals nothing about
/// whether the namespace or any issue exists, and no store query is needed
/// to produce it.
pub proof fn lemma_denied_read_reveals_nothing(
    db1: DatabaseView,
    db2: DatabaseView,
    category: IssueCategory,
    namespace: Seq<char>,
)
    ensures
        read_result(db1, Ok(false), category, namespace) == Err::<
            Seq<ObjectWithIssuesView>,
            ApiError,
        >(ApiError::Forbidden),
        read_result(db1, Ok(false), category, namespace) == read_result(
            db2,
            Ok(false),
            category,
            namespace,
        ),
{
}

/// A category with no issue in the store yields a successful, empty answer
/// for every namespace: absence of findings is not an error.
pub proof fn lemma_empty_result_is_success(
    db: DatabaseView,
    category: IssueCategory,
    namespace: Seq<char>,
)
    requires
        forall|k: int| 0 <= k < db.issues.len() ==> (#[trigger] db.issues[k]).category != category,
    ensures
        read_result(db, Ok(true), category, namespace) == Ok::<
            Seq<ObjectWithIssuesView>,
            ApiError,
        >(Seq::<ObjectWithIssuesView>::empty()),
{
    broadcast use vstd::seq_lib::group_filter_ensures;

    let oq = objects_query(db, category, namespace);
    assert(oq.len() == 0) by {
        if oq.len() > 0 {
            assert(crate::db::object_flagged(db.objects, db.issues, oq[0], category, namespace));
            let k = choose|k: int|
                0 <= k < db.issues.len() && crate::db::issue_flags_object(
                    db.objects,
                    #[trigger] db.issues[k],
                    oq[0].id,
                    category,
                    namespace,
                );
            assert(db.issues[k].category != category);
        }
    }
    assert(oq =~= Seq::<NamespacedObjectView>::empty());
    assert(merged_view(oq, issues_query(db, category, namespace)) =~= Seq::<
        ObjectWithIssuesView,
    >::empty());
}

} // verus!
