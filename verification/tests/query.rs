use coa_apiservice::db::{Database, StorageError};
use coa_apiservice::issues::{Issue, IssueCategory, IssueList, IssueSeverity, PostIssue};
use coa_apiservice::objects::ObjectId;
use coa_apiservice::authz::AuthzBackendError;
use coa_apiservice::query::{authorize_read, list_issues_by_category, store_issues, ApiError};

fn issue(object_id: ObjectId, category: IssueCategory, tech_id: &str) -> Issue {
    Issue {
        object_id,
        category,
        details: String::new(),
        severity: IssueSeverity::Medium,
        issue_tech_id: tech_id.to_string(),
        issue_message: "finding".to_string(),
        reported_by: "scanner".to_string(),
        reported_at: "t0".to_string(),
        last_seen_at: "t1".to_string(),
        linked_object_id: None,
    }
}

fn post(object_name: &str, category: IssueCategory, tech_id: &str) -> PostIssue {
    PostIssue {
        cluster: "c1".to_string(),
        namespace: "ns".to_string(),
        object_name: object_name.to_string(),
        object_type: "Deployment".to_string(),
        category,
        details: None,
        severity: IssueSeverity::High,
        issue_tech_id: tech_id.to_string(),
        issue_message: "finding".to_string(),
        reported_by: None,
        reported_at: None,
        last_seen_at: None,
        linked_object_id: None,
    }
}

#[test]
fn category_join_correctness() {
    let mut db = Database::new();
    let o1 = db
        .record_namespaced_object("Deployment", "one", "c1", "ns")
        .unwrap();
    let o2 = db
        .record_namespaced_object("Deployment", "two", "c1", "ns")
        .unwrap();
    db.add_object_issue(issue(o1, IssueCategory::Security, "S-1"))
        .unwrap();
    db.add_object_issue(issue(o1, IssueCategory::Security, "S-2"))
        .unwrap();
    db.add_object_issue(issue(o1, IssueCategory::Performance, "P-1"))
        .unwrap();
    db.add_object_issue(issue(o2, IssueCategory::Security, "S-3"))
        .unwrap();

    let security = list_issues_by_category(&db, Ok(true), IssueCategory::Security, "ns").unwrap();
    assert_eq!(security.issues.len(), 2);
    assert_eq!(security.issues[0].metadata.id, o1);
    assert_eq!(security.issues[0].issues.len(), 2);
    assert_eq!(security.issues[0].issues[0].issue_tech_id, "S-1");
    assert_eq!(security.issues[0].issues[1].issue_tech_id, "S-2");
    assert_eq!(security.issues[1].metadata.id, o2);
    assert_eq!(security.issues[1].issues.len(), 1);
    assert_eq!(security.issues[1].issues[0].issue_tech_id, "S-3");

    let performance =
        list_issues_by_category(&db, Ok(true), IssueCategory::Performance, "ns").unwrap();
    assert_eq!(performance.issues.len(), 1);
    assert_eq!(performance.issues[0].metadata.id, o1);
    assert_eq!(performance.issues[0].issues.len(), 1);
    assert_eq!(performance.issues[0].issues[0].issue_tech_id, "P-1");

    let reliability =
        list_issues_by_category(&db, Ok(true), IssueCategory::Reliability, "ns").unwrap();
    assert!(reliability.issues.is_empty());
}

#[test]
fn join_is_scoped_to_the_namespace() {
    let mut db = Database::new();
    let here = db
        .record_namespaced_object("Deployment", "app", "c1", "ns")
        .unwrap();
    let elsewhere = db
        .record_namespaced_object("Deployment", "app", "c1", "other")
        .unwrap();
    db.add_object_issue(issue(here, IssueCategory::Security, "S-1"))
        .unwrap();
    db.add_object_issue(issue(elsewhere, IssueCategory::Security, "S-2"))
        .unwrap();

    let listed = list_issues_by_category(&db, Ok(true), IssueCategory::Security, "ns").unwrap();
    assert_eq!(listed.issues.len(), 1);
    assert_eq!(listed.issues[0].metadata.id, here);
    assert_eq!(listed.issues[0].issues.len(), 1);
    assert_eq!(listed.issues[0].issues[0].issue_tech_id, "S-1");
}

#[test]
fn linked_object_inclusion() {
    let mut db = Database::new();
    let o1 = db
        .record_namespaced_object("Deployment", "one", "c1", "ns")
        .unwrap();
    let o2 = db
        .record_namespaced_object("Deployment", "two", "c1", "ns")
        .unwrap();
    let mut linked = issue(o1, IssueCategory::Security, "S-1");
    linked.linked_object_id = Some(o2);
    db.add_object_issue(linked).unwrap();

    let listed = list_issues_by_category(&db, Ok(true), IssueCategory::Security, "ns").unwrap();
    assert_eq!(listed.issues.len(), 2);
    assert_eq!(listed.issues[0].metadata.id, o1);
    assert_eq!(listed.issues[0].issues.len(), 1);
    // The linked object appears even though no issue is attached to it.
    assert_eq!(listed.issues[1].metadata.id, o2);
    assert!(listed.issues[1].issues.is_empty());
}

#[test]
fn linked_object_inclusion_is_scoped_to_the_namespace() {
    let mut db = Database::new();
    let outside = db
        .record_namespaced_object("Deployment", "far", "c1", "other")
        .unwrap();
    let inside = db
        .record_namespaced_object("Deployment", "near", "c1", "ns")
        .unwrap();
    let mut linked = issue(outside, IssueCategory::Security, "S-1");
    linked.linked_object_id = Some(inside);
    db.add_object_issue(linked).unwrap();

    // The linking issue belongs to "other", so it pulls nothing into "ns".
    let ns = list_issues_by_category(&db, Ok(true), IssueCategory::Security, "ns").unwrap();
    assert!(ns.issues.is_empty());

    // In its own namespace the issue's object appears as usual.
    let other = list_issues_by_category(&db, Ok(true), IssueCategory::Security, "other").unwrap();
    assert_eq!(other.issues.len(), 1);
    assert_eq!(other.issues[0].metadata.id, outside);
    assert_eq!(other.issues[0].issues.len(), 1);
}

#[test]
fn authorization_gate_precedence() {
    let mut db = Database::new();
    let id = db
        .record_namespaced_object("Deployment", "app", "c1", "ns")
        .unwrap();
    db.add_object_issue(issue(id, IssueCategory::Security, "S-1"))
        .unwrap();
    let empty = Database::new();

    // A deny answers Forbidden, identically for a full and an empty store:
    // nothing about the namespace's contents can be inferred.
    let denied_full = list_issues_by_category(&db, Ok(false), IssueCategory::Security, "ns");
    let denied_empty = list_issues_by_category(&empty, Ok(false), IssueCategory::Security, "ns");
    assert_eq!(denied_full, Err(ApiError::Forbidden));
    assert_eq!(denied_empty, Err(ApiError::Forbidden));

    // A backend failure is a server error, not a deny.
    let failed = list_issues_by_category(
        &db,
        Err(AuthzBackendError::CallFailed),
        IssueCategory::Security,
        "ns",
    );
    assert_eq!(failed, Err(ApiError::Internal));

    // The authorizing step alone maps the three outcomes the same way.
    assert_eq!(authorize_read(Ok(true)), Ok(()));
    assert_eq!(authorize_read(Ok(false)), Err(ApiError::Forbidden));
    assert_eq!(
        authorize_read(Err(AuthzBackendError::MalformedResponse)),
        Err(ApiError::Internal)
    );
}

#[test]
fn empty_result_validity() {
    let mut db = Database::new();
    let id = db
        .record_namespaced_object("Deployment", "app", "c1", "ns")
        .unwrap();
    db.add_object_issue(issue(id, IssueCategory::Security, "S-1"))
        .unwrap();

    let listed =
        list_issues_by_category(&db, Ok(true), IssueCategory::Reliability, "ns").unwrap();
    assert!(listed.issues.is_empty());

    let other_ns =
        list_issues_by_category(&db, Ok(true), IssueCategory::Security, "elsewhere").unwrap();
    assert!(other_ns.issues.is_empty());
}

#[test]
fn bulk_ingestion_success() {
    let mut db = Database::new();
    let batch = IssueList {
        issues: vec![
            post("app", IssueCategory::Security, "S-1"),
            post("app", IssueCategory::Security, "S-2"),
            post("other", IssueCategory::Performance, "P-1"),
        ],
    };
    let r = store_issues(&mut db, &batch);
    assert_eq!(r, Ok(()));
    // Two distinct identity tuples, three issue rows.
    assert_eq!(db.objects.len(), 2);
    assert_eq!(db.issues.len(), 3);
    // The two issues of the same object share its id.
    assert_eq!(db.issues[0].object_id, db.issues[1].object_id);
    assert_ne!(db.issues[0].object_id, db.issues[2].object_id);
}

#[test]
fn reingestion_is_not_deduplicated() {
    let mut db = Database::new();
    let batch = IssueList {
        issues: vec![
            post("app", IssueCategory::Security, "S-1"),
            post("app", IssueCategory::Security, "S-1"),
        ],
    };
    store_issues(&mut db, &batch).unwrap();
    // Same finding reported twice: one object row, two issue rows.
    assert_eq!(db.objects.len(), 1);
    assert_eq!(db.issues.len(), 2);
}

#[test]
fn partial_batch_ingestion() {
    let mut db = Database::new();
    // Leave room for exactly one more identifier, so that the second
    // element's registration fails.
    db.next_id = u128::MAX - 1;
    let batch = IssueList {
        issues: vec![
            post("app", IssueCategory::Security, "S-1"),
            post("other", IssueCategory::Security, "S-2"),
            post("third", IssueCategory::Security, "S-3"),
        ],
    };
    let r = store_issues(&mut db, &batch);
    assert_eq!(r, Err(StorageError::IdSpaceExhausted));
    // The first element stays persisted; the second and third are absent.
    assert_eq!(db.objects.len(), 1);
    assert_eq!(db.objects[0].object_name, "app");
    assert_eq!(db.issues.len(), 1);
    assert_eq!(db.issues[0].issue_tech_id, "S-1");
}
