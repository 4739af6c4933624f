//! The relational store, modelled explicitly.
//!
//! [`Database`] holds the object registry and the issue table.  Its
//! well-formedness captures the schema's guarantees: the generated ids are
//! unique, the identity tuple (cluster, namespace, object_type,
//! object_name) is unique, and every stored issue references a registered
//! object.  Each operation's contract relates the store before and after
//! the call through spec-level transition functions, on which the library's
//! laws are proved.

use vstd::prelude::*;

use crate::issues::{Issue, IssueCategory, IssueView};
use crate::objects::{NamespacedObject, NamespacedObjectView, ObjectId};

verus! {

/// Failure of a store operation.
#[derive(Clone, Copy, PartialEq, Eq, Structural, Debug)]
pub enum StorageError {
    /// The issue references an object id that was never registered.
    ReferentialIntegrity,
    /// No fresh identifier is available for a new registration.
    IdSpaceExhausted,
}

/// Mathematical image of the store.
pub struct DatabaseView {
    pub objects: Seq<NamespacedObjectView>,
    pub issues: Seq<IssueView>,
    pub next_id: u128,
}

/// The object registry and the issue table.
///
/// `next_id` generates fresh identifiers: every id already handed out lies
/// below it.
pub struct Database {
    pub objects: Vec<NamespacedObject>,
    pub issues: Vec<Issue>,
    pub next_id: u128,
}

/// The images of a row set.
pub open spec fn objects_view(objects: Seq<NamespacedObject>) -> Seq<NamespacedObjectView> {
    objects.map_values(|o: NamespacedObject| o@)
}

/// The images of an issue row set.
pub open spec fn issues_view(issues: Seq<Issue>) -> Seq<IssueView> {
    issues.map_values(|i: Issue| i@)
}

impl View for Database {
    type V = DatabaseView;

    open spec fn view(&self) -> DatabaseView {
        DatabaseView {
            objects: objects_view(self.objects@),
            issues: issues_view(self.issues@),
            next_id: self.next_id,
        }
    }
}

/// Does `o` carry exactly this identity tuple?
pub open spec fn key_matches(
    o: NamespacedObjectView,
    object_type: Seq<char>,
    object_name: Seq<char>,
    cluster: Seq<char>,
    namespace: Seq<char>,
) -> bool {
    &&& o.object_type == object_type
    &&& o.object_name == object_name
    &&& o.cluster == cluster
    &&& o.namespace == namespace
}

/// Do two rows carry the same identity tuple?
pub open spec fn same_key(a: NamespacedObjectView, b: NamespacedObjectView) -> bool {
    key_matches(b, a.object_type, a.object_name, a.cluster, a.namespace)
}

/// Is some row registered under this identity tuple?
pub open spec fn has_key(
    objects: Seq<NamespacedObjectView>,
    object_type: Seq<char>,
    object_name: Seq<char>,
    cluster: Seq<char>,
    namespace: Seq<char>,
) -> bool {
    exists|i: int|
        0 <= i < objects.len() && key_matches(
            #[trigger] objects[i],
            object_type,
            object_name,
            cluster,
            namespace,
        )
}

/// The position of the row registered under this identity tuple (meaningful
/// only when [`has_key`] holds; unique in a well-formed store).
pub open spec fn key_index(
    objects: Seq<NamespacedObjectView>,
    object_type: Seq<char>,
    object_name: Seq<char>,
    cluster: Seq<char>,
    namespace: Seq<char>,
) -> int {
    choose|i: int|
        0 <= i < objects.len() && key_matches(
            #[trigger] objects[i],
            object_type,
            object_name,
            cluster,
            namespace,
        )
}

/// Is some row registered under this id?
pub open spec fn has_object_id(objects: Seq<NamespacedObjectView>, id: ObjectId) -> bool {
    exists|i: int| 0 <= i < objects.len() && (#[trigger] objects[i]).id == id
}

/// Is some row with this id registered in this namespace?
pub open spec fn namespace_has_object(
    objects: Seq<NamespacedObjectView>,
    id: ObjectId,
    namespace: Seq<char>,
) -> bool {
    exists|i: int|
        0 <= i < objects.len() && (#[trigger] objects[i]).id == id && objects[i].namespace
            == namespace
}

/// All generated ids are distinct.
pub open spec fn distinct_ids(objects: Seq<NamespacedObjectView>) -> bool {
    forall|i: int, j: int|
        0 <= i < objects.len() && 0 <= j < objects.len() && i != j ==> (#[trigger] objects[i]).id
            != (#[trigger] objects[j]).id
}

/// All identity tuples are distinct.
pub open spec fn distinct_keys(objects: Seq<NamespacedObjectView>) -> bool {
    forall|i: int, j: int|
        0 <= i < objects.len() && 0 <= j < objects.len() && i != j ==> !same_key(
            #[trigger] objects[i],
            #[trigger] objects[j],
        )
}

/// Every id already handed out lies below the generator.
pub open spec fn ids_below(objects: Seq<NamespacedObjectView>, bound: u128) -> bool {
    forall|i: int| 0 <= i < objects.len() ==> (#[trigger] objects[i]).id.raw < bound
}

/// Referential integrity: every stored issue references a registered object.
pub open spec fn refs_valid(
    objects: Seq<NamespacedObjectView>,
    issues: Seq<IssueView>,
) -> bool {
    forall|k: int| 0 <= k < issues.len() ==> has_object_id(objects, (#[trigger] issues[k]).object_id)
}

impl DatabaseView {
    /// Well-formedness of the store.  [`Database::new`] establishes it and
    /// every operation preserves it.
    pub open spec fn wf(self) -> bool {
        &&& distinct_ids(self.objects)
        &&& distinct_keys(self.objects)
        &&& ids_below(self.objects, self.next_id)
        &&& refs_valid(self.objects, self.issues)
    }
}

/// The id that registering this identity tuple yields: the id of the
/// existing row on conflict, a fresh id otherwise.
pub open spec fn register_result(
    db: DatabaseView,
    object_type: Seq<char>,
    object_name: Seq<char>,
    cluster: Seq<char>,
    namespace: Seq<char>,
) -> Result<ObjectId, StorageError> {
    if has_key(db.objects, object_type, object_name, cluster, namespace) {
        Ok(db.objects[key_index(db.objects, object_type, object_name, cluster, namespace)].id)
    } else if db.next_id < u128::MAX {
        Ok(ObjectId { raw: db.next_id })
    } else {
        Err(StorageError::IdSpaceExhausted)
    }
}

/// The row that a first-time registration appends.
pub open spec fn registered_object_view(
    db: DatabaseView,
    object_type: Seq<char>,
    object_name: Seq<char>,
    cluster: Seq<char>,
    namespace: Seq<char>,
) -> NamespacedObjectView {
    NamespacedObjectView {
        id: ObjectId { raw: db.next_id },
        object_type: object_type,
        object_name: object_name,
        namespace: namespace,
        cluster: cluster,
    }
}

/// The store after registering this identity tuple: unchanged on conflict
/// (upsert, not insert-or-fail), extended by one row otherwise.
pub open spec fn register_post(
    db: DatabaseView,
    object_type: Seq<char>,
    object_name: Seq<char>,
    cluster: Seq<char>,
    namespace: Seq<char>,
) -> DatabaseView {
    if has_key(db.objects, object_type, object_name, cluster, namespace) {
        db
    } else if db.next_id < u128::MAX {
        DatabaseView {
            objects: db.objects.push(
                registered_object_view(db, object_type, object_name, cluster, namespace),
            ),
            issues: db.issues,
            next_id: (db.next_id + 1) as u128,
        }
    } else {
        db
    }
}

/// Whether storing this issue succeeds: it must reference a registered
/// object (the foreign key of the issue table).
pub open spec fn add_issue_result(db: DatabaseView, issue: IssueView) -> Result<
    (),
    StorageError,
> {
    if has_object_id(db.objects, issue.object_id) {
        Ok(())
    } else {
        Err(StorageError::ReferentialIntegrity)
    }
}

/// The store after storing this issue: extended by one row on success,
/// unchanged on a referential-integrity failure.
pub open spec fn add_issue_post(db: DatabaseView, issue: IssueView) -> DatabaseView {
    if has_object_id(db.objects, issue.object_id) {
        DatabaseView { objects: db.objects, issues: db.issues.push(issue), next_id: db.next_id }
    } else {
        db
    }
}

/// Does this issue make the object with id `id` appear in a query for
/// `category` in `namespace`?  It does when it carries the category and
/// either sits on the object itself, or names it as its linked object while
/// belonging to the namespace — a linking issue counts only if its own
/// object is registered there, so one namespace's result is never shaped by
/// another namespace's issues.
pub open spec fn issue_flags_object(
    objects: Seq<NamespacedObjectView>,
    issue: IssueView,
    id: ObjectId,
    category: IssueCategory,
    namespace: Seq<char>,
) -> bool {
    issue.category == category && (issue.object_id == id || (issue.linked_object_id == Some(id)
        && namespace_has_object(objects, issue.object_id, namespace)))
}

/// Does the object belong to the namespace and carry (or stand linked to)
/// an issue of the category?
pub open spec fn object_flagged(
    objects: Seq<NamespacedObjectView>,
    issues: Seq<IssueView>,
    o: NamespacedObjectView,
    category: IssueCategory,
    namespace: Seq<char>,
) -> bool {
    o.namespace == namespace && exists|k: int|
        0 <= k < issues.len() && issue_flags_object(
            objects,
            #[trigger] issues[k],
            o.id,
            category,
            namespace,
        )
}

/// The objects of the namespace that a query for `category` returns, in
/// registration order.
pub open spec fn objects_query(
    db: DatabaseView,
    category: IssueCategory,
    namespace: Seq<char>,
) -> Seq<NamespacedObjectView> {
    db.objects.filter(
        |o: NamespacedObjectView| object_flagged(db.objects, db.issues, o, category, namespace),
    )
}

/// Does the issue carry the category and reference an object registered in
/// the namespace?  Namespace membership is resolved through the object's
/// registration, never stored on the issue itself.
pub open spec fn issue_in_category_namespace(
    objects: Seq<NamespacedObjectView>,
    issue: IssueView,
    category: IssueCategory,
    namespace: Seq<char>,
) -> bool {
    issue.category == category && namespace_has_object(objects, issue.object_id, namespace)
}

/// The issues that a query for `category` in `namespace` returns, in
/// insertion order.
pub open spec fn issues_query(
    db: DatabaseView,
    category: IssueCategory,
    namespace: Seq<char>,
) -> Seq<IssueView> {
    db.issues.filter(
        |iss: IssueView| issue_in_category_namespace(db.objects, iss, category, namespace),
    )
}

/// The objects query restricted to the first `n` rows of the registry.
spec fn objects_query_prefix(
    db: DatabaseView,
    category: IssueCategory,
    namespace: Seq<char>,
    n: int,
) -> Seq<NamespacedObjectView> {
    db.objects.take(n).filter(
        |o: NamespacedObjectView| object_flagged(db.objects, db.issues, o, category, namespace),
    )
}

/// The issues query restricted to the first `n` rows of the issue table.
spec fn issues_query_prefix(
    db: DatabaseView,
    category: IssueCategory,
    namespace: Seq<char>,
    n: int,
) -> Seq<IssueView> {
    db.issues.take(n).filter(
        |iss: IssueView| issue_in_category_namespace(db.objects, iss, category, namespace),
    )
}

proof fn lemma_objects_query_prefix_step(
    db: DatabaseView,
    category: IssueCategory,
    namespace: Seq<char>,
    n: int,
)
    requires
        0 <= n < db.objects.len(),
    ensures
        objects_query_prefix(db, category, namespace, n + 1) == if object_flagged(
            db.objects,
            db.issues,
            db.objects[n],
            category,
            namespace,
        ) {
            objects_query_prefix(db, category, namespace, n).push(db.objects[n])
        } else {
            objects_query_prefix(db, category, namespace, n)
        },
{
    broadcast use vstd::prelude::Seq::lemma_filter_push;

    assert(db.objects.take(n + 1) =~= db.objects.take(n).push(db.objects[n]));
}

proof fn lemma_issues_query_prefix_step(
    db: DatabaseView,
    category: IssueCategory,
    namespace: Seq<char>,
    n: int,
)
    requires
        0 <= n < db.issues.len(),
    ensures
        issues_query_prefix(db, category, namespace, n + 1) == if issue_in_category_namespace(
            db.objects,
            db.issues[n],
            category,
            namespace,
        ) {
            issues_query_prefix(db, category, namespace, n).push(db.issues[n])
        } else {
            issues_query_prefix(db, category, namespace, n)
        },
{
    broadcast use vstd::prelude::Seq::lemma_filter_push;

    assert(db.issues.take(n + 1) =~= db.issues.take(n).push(db.issues[n]));
}

proof fn lemma_objects_query_prefix_full(
    db: DatabaseView,
    category: IssueCategory,
    namespace: Seq<char>,
)
    ensures
        objects_query_prefix(db, category, namespace, db.objects.len() as int) == objects_query(
            db,
            category,
            namespace,
        ),
{
    assert(db.objects.take(db.objects.len() as int) =~= db.objects);
}

proof fn lemma_issues_query_prefix_full(
    db: DatabaseView,
    category: IssueCategory,
    namespace: Seq<char>,
)
    ensures
        issues_query_prefix(db, category, namespace, db.issues.len() as int) == issues_query(
            db,
            category,
            namespace,
        ),
{
    assert(db.issues.take(db.issues.len() as int) =~= db.issues);
}

impl Database {
    /// An empty store.
    pub fn new() -> (db: Database)
        ensures
            db@.objects == Seq::<NamespacedObjectView>::empty(),
            db@.issues == Seq::<IssueView>::empty(),
            db@.next_id == 0,
            db@.wf(),
    {
        let db = Database { objects: Vec::new(), issues: Vec::new(), next_id: 0 };
        proof {
            assert(db@.objects =~= Seq::<NamespacedObjectView>::empty());
            assert(db@.issues =~= Seq::<IssueView>::empty());
        }
        db
    }

    /// The position of the row registered under this identity tuple, if any.
    fn find_key(
        objects: &Vec<NamespacedObject>,
        object_type: &String,
        object_name: &String,
        cluster: &String,
        namespace: &String,
    ) -> (r: Option<usize>)
        ensures
            match r {
                Some(i) => i < objects.len() && key_matches(
                    objects_view(objects@)[i as int],
                    object_type@,
                    object_name@,
                    cluster@,
                    namespace@,
                ),
                None => !has_key(
                    objects_view(objects@),
                    object_type@,
                    object_name@,
                    cluster@,
                    namespace@,
                ),
            },
    {
        let mut i: usize = 0;
        while i < objects.len()
            invariant
                i <= objects.len(),
                forall|k: int|
                    0 <= k < i ==> !key_matches(
                        objects_view(objects@)[k],
                        object_type@,
                        object_name@,
                        cluster@,
                        namespace@,
                    ),
            decreases objects.len() - i,
        {
            proof {
                assert(objects_view(objects@)[i as int] == objects@[i as int]@);
            }
            let o = &objects[i];
            if o.object_type == *object_type && o.object_name == *object_name && o.cluster
                == *cluster && o.namespace == *namespace {
                return Some(i);
            }
            i = i + 1;
        }
        None
    }

    /// Is some row registered under this id?
    fn contains_id(objects: &Vec<NamespacedObject>, id: ObjectId) -> (r: bool)
        ensures
            r == has_object_id(objects_view(objects@), id),
    {
        let mut i: usize = 0;
        while i < objects.len()
            invariant
                i <= objects.len(),
                forall|k: int| 0 <= k < i ==> (#[trigger] objects_view(objects@)[k]).id != id,
            decreases objects.len() - i,
        {
            proof {
                assert(objects_view(objects@)[i as int] == objects@[i as int]@);
            }
            if objects[i].id == id {
                return true;
            }
            i = i + 1;
        }
        false
    }

    /// Idempotent upsert of an object identity.
    ///
    /// Registering a tuple that is already present returns the existing id
    /// and leaves the store unchanged; registering a new tuple appends one
    /// row under a fresh id.  The only failure is exhaustion of the id
    /// space.
    pub fn record_namespaced_object(
        &mut self,
        object_type: &str,
        object_name: &str,
        cluster_name: &str,
        namespace: &str,
    ) -> (r: Result<ObjectId, StorageError>)
        requires
            old(self)@.wf(),
        ensures
            final(self)@.wf(),
            final(self)@ == register_post(
                old(self)@,
                object_type@,
                object_name@,
                cluster_name@,
                namespace@,
            ),
            r == register_result(
                old(self)@,
                object_type@,
                object_name@,
                cluster_name@,
                namespace@,
            ),
    {
        let ty = object_type.to_owned();
        let nm = object_name.to_owned();
        let cl = cluster_name.to_owned();
        let ns = namespace.to_owned();
        match Self::find_key(&self.objects, &ty, &nm, &cl, &ns) {
            Some(i) => {
                let id = self.objects[i].id;
                proof {
                    let objs = self@.objects;
                    assert(has_key(objs, object_type@, object_name@, cluster_name@, namespace@));
                    let j = key_index(objs, object_type@, object_name@, cluster_name@, namespace@);
                    assert(key_matches(
                        objs[j],
                        object_type@,
                        object_name@,
                        cluster_name@,
                        namespace@,
                    ));
                    assert(same_key(objs[i as int], objs[j]));
                    assert(j == i as int);
                }
                Ok(id)
            },
            None => {
                if self.next_id == u128::MAX {
                    return Err(StorageError::IdSpaceExhausted);
                }
                let ghost pre = self@;
                let id = ObjectId { raw: self.next_id };
                let row = NamespacedObject {
                    id: id,
                    object_type: ty,
                    object_name: nm,
                    namespace: ns,
                    cluster: cl,
                };
                self.objects.push(row);
                self.next_id = self.next_id + 1;
                proof {
                    let post = register_post(
                        pre,
                        object_type@,
                        object_name@,
                        cluster_name@,
                        namespace@,
                    );
                    assert(self@.objects =~= pre.objects.push(
                        registered_object_view(
                            pre,
                            object_type@,
                            object_name@,
                            cluster_name@,
                            namespace@,
                        ),
                    ));
                    assert(self@.issues =~= pre.issues);
                    assert(self@ == post);
                    assert(self@.wf()) by {
                        lemma_register_fresh_preserves_wf(
                            pre,
                            object_type@,
                            object_name@,
                            cluster_name@,
                            namespace@,
                        );
                    }
                }
                Ok(id)
            },
        }
    }

    /// Stores one issue row.  Fails, leaving the store unchanged, if the
    /// referenced object id was never registered.
    pub fn add_object_issue(&mut self, object_issue: Issue) -> (r: Result<(), StorageError>)
        requires
            old(self)@.wf(),
        ensures
            final(self)@.wf(),
            final(self)@ == add_issue_post(old(self)@, object_issue@),
            r == add_issue_result(old(self)@, object_issue@),
    {
        let ghost pre = self@;
        if Self::contains_id(&self.objects, object_issue.object_id) {
            self.issues.push(object_issue);
            proof {
                assert(self@.issues =~= pre.issues.push(object_issue@));
                assert(self@.objects =~= pre.objects);
                assert(self@ == add_issue_post(pre, object_issue@));
                assert forall|k: int| 0 <= k < self@.issues.len() implies has_object_id(
                    self@.objects,
                    (#[trigger] self@.issues[k]).object_id,
                ) by {
                    if k < pre.issues.len() {
                        assert(has_object_id(pre.objects, pre.issues[k].object_id));
                    }
                }
            }
            Ok(())
        } else {
            Err(StorageError::ReferentialIntegrity)
        }
    }

    /// Is some row with this id registered in this namespace?
    fn object_in_namespace(
        objects: &Vec<NamespacedObject>,
        id: ObjectId,
        namespace: &String,
    ) -> (r: bool)
        ensures
            r == namespace_has_object(objects_view(objects@), id, namespace@),
    {
        let mut i: usize = 0;
        while i < objects.len()
            invariant
                i <= objects.len(),
                forall|k: int|
                    0 <= k < i ==> !((#[trigger] objects_view(objects@)[k]).id == id
                        && objects_view(objects@)[k].namespace == namespace@),
            decreases objects.len() - i,
        {
            proof {
                assert(objects_view(objects@)[i as int] == objects@[i as int]@);
            }
            if objects[i].id == id && objects[i].namespace == *namespace {
                return true;
            }
            i = i + 1;
        }
        false
    }

    /// Does some issue of `category` flag the object with id `id`, directly
    /// or through its linked object?  A linking issue counts only if its own
    /// object is registered in the namespace.
    fn has_flagging_issue(
        objects: &Vec<NamespacedObject>,
        issues: &Vec<Issue>,
        id: ObjectId,
        category: IssueCategory,
        namespace: &String,
    ) -> (r: bool)
        ensures
            r == exists|k: int|
                0 <= k < issues_view(issues@).len() && issue_flags_object(
                    objects_view(objects@),
                    #[trigger] issues_view(issues@)[k],
                    id,
                    category,
                    namespace@,
                ),
    {
        let mut k: usize = 0;
        while k < issues.len()
            invariant
                k <= issues.len(),
                forall|m: int|
                    0 <= m < k ==> !issue_flags_object(
                        objects_view(objects@),
                        #[trigger] issues_view(issues@)[m],
                        id,
                        category,
                        namespace@,
                    ),
            decreases issues.len() - k,
        {
            proof {
                assert(issues_view(issues@)[k as int] == issues@[k as int]@);
            }
            let iss = &issues[k];
            let points_at_linked = match iss.linked_object_id {
                Some(l) => l == id,
                None => false,
            };
            let linked = points_at_linked && Self::object_in_namespace(
                objects,
                iss.object_id,
                namespace,
            );
            if iss.category == category && (iss.object_id == id || linked) {
                return true;
            }
            k = k + 1;
        }
        false
    }

    /// All issues of the category whose object is registered in the
    /// namespace, in insertion order.  The namespace is resolved through
    /// the object registration, which is why ingestion must register the
    /// object before storing the issue.
    pub fn get_issues_with_category_for_namespace(
        &self,
        category: IssueCategory,
        namespace: &str,
    ) -> (r: Vec<Issue>)
        ensures
            issues_view(r@) == issues_query(self@, category, namespace@),
    {
        let ns = namespace.to_owned();
        let mut result: Vec<Issue> = Vec::new();
        let mut k: usize = 0;
        while k < self.issues.len()
            invariant
                k <= self.issues.len(),
                ns@ == namespace@,
                issues_view(result@) == issues_query_prefix(self@, category, namespace@, k as int),
            decreases self.issues.len() - k,
        {
            proof {
                assert(issues_view(self.issues@)[k as int] == self.issues@[k as int]@);
            }
            let iss = &self.issues[k];
            let ghost prev = issues_view(result@);
            if iss.category == category && Self::object_in_namespace(
                &self.objects,
                iss.object_id,
                &ns,
            ) {
                result.push(iss.clone());
                proof {
                    assert(issues_view(result@) =~= prev.push(iss@));
                }
            }
            proof {
                lemma_issues_query_prefix_step(self@, category, namespace@, k as int);
            }
            k = k + 1;
        }
        proof {
            lemma_issues_query_prefix_full(self@, category, namespace@);
        }
        result
    }

    /// All objects of the namespace that carry an issue of the category, or
    /// stand linked to one of the namespace's issues of that category, in
    /// registration order.
    pub fn get_objects_with_issue_category_in_namespace(
        &self,
        category: IssueCategory,
        namespace: &str,
    ) -> (r: Vec<NamespacedObject>)
        ensures
            objects_view(r@) == objects_query(self@, category, namespace@),
    {
        let ns = namespace.to_owned();
        let mut result: Vec<NamespacedObject> = Vec::new();
        let mut i: usize = 0;
        while i < self.objects.len()
            invariant
                i <= self.objects.len(),
                ns@ == namespace@,
                objects_view(result@) == objects_query_prefix(self@, category, namespace@, i as int),
            decreases self.objects.len() - i,
        {
            proof {
                assert(objects_view(self.objects@)[i as int] == self.objects@[i as int]@);
            }
            let o = &self.objects[i];
            let ghost prev = objects_view(result@);
            if o.namespace == *(&ns) && Self::has_flagging_issue(
                &self.objects,
                &self.issues,
                o.id,
                category,
                &ns,
            ) {
                result.push(o.clone());
                proof {
                    assert(objects_view(result@) =~= prev.push(o@));
                }
            }
            proof {
                lemma_objects_query_prefix_step(self@, category, namespace@, i as int);
            }
            i = i + 1;
        }
        proof {
            lemma_objects_query_prefix_full(self@, category, namespace@);
        }
        result
    }
}

/// Registration is an idempotent upsert: registering the same identity
/// tuple a second time succeeds with the same id and leaves the store
/// exactly as the first registration left it, where exactly one row carries
/// the tuple.
pub proof fn lemma_register_idempotent(
    db: DatabaseView,
    object_type: Seq<char>,
    object_name: Seq<char>,
    cluster: Seq<char>,
    namespace: Seq<char>,
)
    requires
        db.wf(),
    ensures
        ({
            let db1 = register_post(db, object_type, object_name, cluster, namespace);
            &&& db1.wf()
            &&& register_result(db1, object_type, object_name, cluster, namespace)
                == register_result(db, object_type, object_name, cluster, namespace)
            &&& register_post(db1, object_type, object_name, cluster, namespace) == db1
            &&& (register_result(db, object_type, object_name, cluster, namespace) is Ok
                ==> has_key(db1.objects, object_type, object_name, cluster, namespace))
        }),
{
    let db1 = register_post(db, object_type, object_name, cluster, namespace);
    if has_key(db.objects, object_type, object_name, cluster, namespace) {
        assert(db1 == db);
    } else if db.next_id < u128::MAX {
        lemma_register_fresh_preserves_wf(db, object_type, object_name, cluster, namespace);
        let n = db.objects.len() as int;
        assert(db1.objects[n] == registered_object_view(
            db,
            object_type,
            object_name,
            cluster,
            namespace,
        ));
        assert(key_matches(db1.objects[n], object_type, object_name, cluster, namespace));
        assert(has_key(db1.objects, object_type, object_name, cluster, namespace));
        let j = key_index(db1.objects, object_type, object_name, cluster, namespace);
        assert(0 <= j < db1.objects.len() && key_matches(
            db1.objects[j],
            object_type,
            object_name,
            cluster,
            namespace,
        ));
        if j != n {
            assert(same_key(db1.objects[j], db1.objects[n]));
            assert(false);
        }
        assert(register_result(db1, object_type, object_name, cluster, namespace) == Ok::<
            ObjectId,
            StorageError,
        >(ObjectId { raw: db.next_id }));
    } else {
        assert(db1 == db);
    }
}

/// An issue that references an id that was never registered is rejected
/// with a referential-integrity error and is not persisted.
pub proof fn lemma_unregistered_reference_rejected(db: DatabaseView, issue: IssueView)
    requires
        !has_object_id(db.objects, issue.object_id),
    ensures
        add_issue_result(db, issue) == Err::<(), StorageError>(StorageError::ReferentialIntegrity),
        add_issue_post(db, issue) == db,
{
}

/// An object that [`object_flagged`] holds of appears in the objects query.
pub proof fn lemma_flagged_object_in_query(
    db: DatabaseView,
    i: int,
    category: IssueCategory,
    namespace: Seq<char>,
)
    requires
        0 <= i < db.objects.len(),
        object_flagged(db.objects, db.issues, db.objects[i], category, namespace),
    ensures
        objects_query(db, category, namespace).contains(db.objects[i]),
{
    broadcast use vstd::seq_lib::group_filter_ensures;

    assert(objects_query(db, category, namespace).contains(db.objects[i]));
}

/// A first-time registration preserves well-formedness: the fresh id and
/// the new tuple collide with nothing already present.
proof fn lemma_register_fresh_preserves_wf(
    db: DatabaseView,
    object_type: Seq<char>,
    object_name: Seq<char>,
    cluster: Seq<char>,
    namespace: Seq<char>,
)
    requires
        db.wf(),
        !has_key(db.objects, object_type, object_name, cluster, namespace),
        db.next_id < u128::MAX,
    ensures
        register_post(db, object_type, object_name, cluster, namespace).wf(),
{
    let post = register_post(db, object_type, object_name, cluster, namespace);
    let row = registered_object_view(db, object_type, object_name, cluster, namespace);
    let n = db.objects.len() as int;
    assert forall|i: int, j: int|
        0 <= i < post.objects.len() && 0 <= j < post.objects.len() && i != j implies (
    #[trigger] post.objects[i]).id != (#[trigger] post.objects[j]).id by {
        if i < n && j < n {
            assert(db.objects[i].id != db.objects[j].id);
        } else if i == n {
            assert(db.objects[j].id.raw < db.next_id);
        } else if j == n {
            assert(db.objects[i].id.raw < db.next_id);
        }
    }
    assert forall|i: int, j: int|
        0 <= i < post.objects.len() && 0 <= j < post.objects.len() && i != j implies !same_key(
        #[trigger] post.objects[i],
        #[trigger] post.objects[j],
    ) by {
        if i < n && j < n {
            assert(!same_key(db.objects[i], db.objects[j]));
        } else if i == n {
            assert(!key_matches(db.objects[j], object_type, object_name, cluster, namespace));
        } else if j == n {
            assert(!key_matches(db.objects[i], object_type, object_name, cluster, namespace));
        }
    }
    assert forall|k: int| 0 <= k < post.issues.len() implies has_object_id(
        post.objects,
        (#[trigger] post.issues[k]).object_id,
    ) by {
        assert(has_object_id(db.objects, db.issues[k].object_id));
        let w = choose|i: int|
            0 <= i < db.objects.len() && (#[trigger] db.objects[i]).id == db.issues[k].object_id;
        assert(post.objects[w].id == db.issues[k].object_id);
    }
}

} // verus!
