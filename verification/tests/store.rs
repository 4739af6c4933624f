use coa_apiservice::db::{Database, StorageError};
use coa_apiservice::issues::{
    category_from_storage, category_to_storage, make_issue_record, severity_from_storage,
    severity_to_storage, Issue, IssueCategory, IssueSeverity, PostIssue,
};
use coa_apiservice::objects::ObjectId;

fn sample_issue(object_id: ObjectId, category: IssueCategory) -> Issue {
    Issue {
        object_id,
        category,
        details: String::new(),
        severity: IssueSeverity::High,
        issue_tech_id: "RULE-1".to_string(),
        issue_message: "something is off".to_string(),
        reported_by: "scanner".to_string(),
        reported_at: "2024-01-01T00:00:00Z".to_string(),
        last_seen_at: "2024-01-02T00:00:00Z".to_string(),
        linked_object_id: None,
    }
}

#[test]
fn upsert_idempotence() {
    let mut db = Database::new();
    let id1 = db
        .record_namespaced_object("Deployment", "app", "c1", "ns")
        .unwrap();
    let id2 = db
        .record_namespaced_object("Deployment", "app", "c1", "ns")
        .unwrap();
    assert_eq!(id1, id2);
    assert_eq!(db.objects.len(), 1);
    assert_eq!(db.objects[0].id, id1);
    assert_eq!(db.objects[0].object_type, "Deployment");
    assert_eq!(db.objects[0].object_name, "app");
    assert_eq!(db.objects[0].cluster, "c1");
    assert_eq!(db.objects[0].namespace, "ns");
}

#[test]
fn distinct_tuples_get_distinct_ids() {
    let mut db = Database::new();
    let id1 = db
        .record_namespaced_object("Deployment", "app", "c1", "ns")
        .unwrap();
    let id2 = db
        .record_namespaced_object("Deployment", "app", "c1", "other")
        .unwrap();
    let id3 = db
        .record_namespaced_object("StatefulSet", "app", "c1", "ns")
        .unwrap();
    assert_ne!(id1, id2);
    assert_ne!(id1, id3);
    assert_ne!(id2, id3);
    assert_eq!(db.objects.len(), 3);
}

#[test]
fn referential_order() {
    let mut db = Database::new();
    let bogus = ObjectId { raw: 42 };
    let r = db.add_object_issue(sample_issue(bogus, IssueCategory::Security));
    assert_eq!(r, Err(StorageError::ReferentialIntegrity));
    assert!(db.issues.is_empty());

    let id = db
        .record_namespaced_object("Deployment", "app", "c1", "ns")
        .unwrap();
    let r = db.add_object_issue(sample_issue(id, IssueCategory::Security));
    assert_eq!(r, Ok(()));
    assert_eq!(db.issues.len(), 1);
    assert_eq!(db.issues[0].object_id, id);
}

#[test]
fn category_storage_mapping() {
    assert_eq!(category_to_storage(IssueCategory::Security), "security");
    assert_eq!(
        category_to_storage(IssueCategory::Reliability),
        "reliability"
    );
    assert_eq!(
        category_to_storage(IssueCategory::Performance),
        "performance"
    );
    assert_eq!(
        category_to_storage(IssueCategory::Configuration),
        "configuration"
    );
    assert_eq!(category_to_storage(IssueCategory::Unknown), "unknown");

    assert_eq!(
        category_from_storage("security"),
        Some(IssueCategory::Security)
    );
    assert_eq!(
        category_from_storage("configuration"),
        Some(IssueCategory::Configuration)
    );
    assert_eq!(category_from_storage("Security"), None);
    assert_eq!(category_from_storage(""), None);
}

#[test]
fn severity_storage_mapping() {
    assert_eq!(severity_to_storage(IssueSeverity::Critical), "critical");
    assert_eq!(severity_to_storage(IssueSeverity::High), "high");
    assert_eq!(severity_to_storage(IssueSeverity::Medium), "medium");
    assert_eq!(severity_to_storage(IssueSeverity::Low), "low");
    assert_eq!(severity_to_storage(IssueSeverity::Unknown), "unknown");

    assert_eq!(
        severity_from_storage("critical"),
        Some(IssueSeverity::Critical)
    );
    assert_eq!(severity_from_storage("low"), Some(IssueSeverity::Low));
    assert_eq!(severity_from_storage("serious"), None);
}

#[test]
fn issue_record_defaults_omitted_fields_to_empty() {
    let post = PostIssue {
        cluster: "c1".to_string(),
        namespace: "ns".to_string(),
        object_name: "app".to_string(),
        object_type: "Deployment".to_string(),
        category: IssueCategory::Configuration,
        details: None,
        severity: IssueSeverity::Low,
        issue_tech_id: "RULE-7".to_string(),
        issue_message: "drift".to_string(),
        reported_by: None,
        reported_at: None,
        last_seen_at: None,
        linked_object_id: None,
    };
    let id = ObjectId { raw: 3 };
    let row = make_issue_record(&post, id);
    assert_eq!(row.object_id, id);
    assert_eq!(row.details, "");
    assert_eq!(row.reported_by, "");
    assert_eq!(row.reported_at, "");
    assert_eq!(row.last_seen_at, "");
    assert_eq!(row.issue_tech_id, "RULE-7");
    assert_eq!(row.issue_message, "drift");
    assert_eq!(row.linked_object_id, None);
}

#[test]
fn issue_record_keeps_supplied_fields() {
    let post = PostIssue {
        cluster: "c1".to_string(),
        namespace: "ns".to_string(),
        object_name: "app".to_string(),
        object_type: "Deployment".to_string(),
        category: IssueCategory::Security,
        details: Some("cve".to_string()),
        severity: IssueSeverity::Critical,
        issue_tech_id: "RULE-9".to_string(),
        issue_message: "vulnerable".to_string(),
        reported_by: Some("scanner".to_string()),
        reported_at: Some("t0".to_string()),
        last_seen_at: Some("t1".to_string()),
        linked_object_id: Some(ObjectId { raw: 8 }),
    };
    let row = make_issue_record(&post, ObjectId { raw: 5 });
    assert_eq!(row.details, "cve");
    assert_eq!(row.reported_by, "scanner");
    assert_eq!(row.reported_at, "t0");
    assert_eq!(row.last_seen_at, "t1");
    assert_eq!(row.linked_object_id, Some(ObjectId { raw: 8 }));
}
