//! Issue records and their category/severity taxonomy.

use vstd::prelude::*;

use crate::objects::{NamespacedObject, NamespacedObjectView, ObjectId};

verus! {

/// Closed set of issue categories.
#[derive(Clone, Copy, PartialEq, Eq, Structural, Debug)]
pub enum IssueCategory {
    Security,
    Reliability,
    Performance,
    Configuration,
    Unknown,
}

/// Closed set of issue severities.
#[derive(Clone, Copy, PartialEq, Eq, Structural, Debug)]
pub enum IssueSeverity {
    Critical,
    High,
    Medium,
    Low,
    Unknown,
}

/// Storage representation of a category: the lower-case variant name.
pub open spec fn category_storage_name(c: IssueCategory) -> Seq<char> {
    match c {
        IssueCategory::Security => "security"@,
        IssueCategory::Reliability => "reliability"@,
        IssueCategory::Performance => "performance"@,
        IssueCategory::Configuration => "configuration"@,
        IssueCategory::Unknown => "unknown"@,
    }
}

/// The category whose storage representation is `s`, if any.
pub open spec fn category_of_storage_name(s: Seq<char>) -> Option<IssueCategory> {
    if s == "security"@ {
        Some(IssueCategory::Security)
    } else if s == "reliability"@ {
        Some(IssueCategory::Reliability)
    } else if s == "performance"@ {
        Some(IssueCategory::Performance)
    } else if s == "configuration"@ {
        Some(IssueCategory::Configuration)
    } else if s == "unknown"@ {
        Some(IssueCategory::Unknown)
    } else {
        None
    }
}

/// Storage representation of a severity: the lower-case variant name.
pub open spec fn severity_storage_name(s: IssueSeverity) -> Seq<char> {
    match s {
        IssueSeverity::Critical => "critical"@,
        IssueSeverity::High => "high"@,
        IssueSeverity::Medium => "medium"@,
        IssueSeverity::Low => "low"@,
        IssueSeverity::Unknown => "unknown"@,
    }
}

/// The severity whose storage representation is `s`, if any.
pub open spec fn severity_of_storage_name(s: Seq<char>) -> Option<IssueSeverity> {
    if s == "critical"@ {
        Some(IssueSeverity::Critical)
    } else if s == "high"@ {
        Some(IssueSeverity::High)
    } else if s == "medium"@ {
        Some(IssueSeverity::Medium)
    } else if s == "low"@ {
        Some(IssueSeverity::Low)
    } else if s == "unknown"@ {
        Some(IssueSeverity::Unknown)
    } else {
        None
    }
}

/// Central mapping of a category to its storage representation.
pub fn category_to_storage(c: IssueCategory) -> (r: String)
    ensures
        r@ == category_storage_name(c),
{
    match c {
        IssueCategory::Security => "security".to_owned(),
        IssueCategory::Reliability => "reliability".to_owned(),
        IssueCategory::Performance => "performance".to_owned(),
        IssueCategory::Configuration => "configuration".to_owned(),
        IssueCategory::Unknown => "unknown".to_owned(),
    }
}

/// Central mapping of a storage representation back to a category.
pub fn category_from_storage(s: &str) -> (r: Option<IssueCategory>)
    ensures
        r == category_of_storage_name(s@),
{
    let t = s.to_owned();
    if t == "security".to_owned() {
        Some(IssueCategory::Security)
    } else if t == "reliability".to_owned() {
        Some(IssueCategory::Reliability)
    } else if t == "performance".to_owned() {
        Some(IssueCategory::Performance)
    } else if t == "configuration".to_owned() {
        Some(IssueCategory::Configuration)
    } else if t == "unknown".to_owned() {
        Some(IssueCategory::Unknown)
    } else {
        None
    }
}

/// Central mapping of a severity to its storage representation.
pub fn severity_to_storage(s: IssueSeverity) -> (r: String)
    ensures
        r@ == severity_storage_name(s),
{
    match s {
        IssueSeverity::Critical => "critical".to_owned(),
        IssueSeverity::High => "high".to_owned(),
        IssueSeverity::Medium => "medium".to_owned(),
        IssueSeverity::Low => "low".to_owned(),
        IssueSeverity::Unknown => "unknown".to_owned(),
    }
}

/// Central mapping of a storage representation back to a severity.
pub fn severity_from_storage(s: &str) -> (r: Option<IssueSeverity>)
    ensures
        r == severity_of_storage_name(s@),
{
    let t = s.to_owned();
    if t == "critical".to_owned() {
        Some(IssueSeverity::Critical)
    } else if t == "high".to_owned() {
        Some(IssueSeverity::High)
    } else if t == "medium".to_owned() {
        Some(IssueSeverity::Medium)
    } else if t == "low".to_owned() {
        Some(IssueSeverity::Low)
    } else if t == "unknown".to_owned() {
        Some(IssueSeverity::Unknown)
    } else {
        None
    }
}

/// The storage mapping loses nothing: decoding an encoded category yields
/// the category it was made from.
pub proof fn lemma_category_storage_round_trip(c: IssueCategory)
    ensures
        category_of_storage_name(category_storage_name(c)) == Some(c),
{
    reveal_strlit("security");
    reveal_strlit("reliability");
    reveal_strlit("performance");
    reveal_strlit("configuration");
    reveal_strlit("unknown");
    assert("security"@.len() == 8);
    assert("reliability"@.len() == 11);
    assert("performance"@.len() == 11);
    assert("configuration"@.len() == 13);
    assert("unknown"@.len() == 7);
    assert("reliability"@[0] == 'r');
    assert("performance"@[0] == 'p');
}

/// The storage mapping loses nothing: decoding an encoded severity yields
/// the severity it was made from.
pub proof fn lemma_severity_storage_round_trip(s: IssueSeverity)
    ensures
        severity_of_storage_name(severity_storage_name(s)) == Some(s),
{
    reveal_strlit("critical");
    reveal_strlit("high");
    reveal_strlit("medium");
    reveal_strlit("low");
    reveal_strlit("unknown");
    assert("critical"@.len() == 8);
    assert("high"@.len() == 4);
    assert("medium"@.len() == 6);
    assert("low"@.len() == 3);
    assert("unknown"@.len() == 7);
}

/// One finding attached to a registered object.  `object_id` must reference
/// an existing [`NamespacedObject`] at the time the record is stored.
#[derive(Debug, PartialEq, Eq)]
pub struct Issue {
    pub object_id: ObjectId,
    pub category: IssueCategory,
    pub details: String,
    pub severity: IssueSeverity,
    pub issue_tech_id: String,
    pub issue_message: String,
    pub reported_by: String,
    pub reported_at: String,
    pub last_seen_at: String,
    pub linked_object_id: Option<ObjectId>,
}

/// Mathematical image of an [`Issue`].
pub struct IssueView {
    pub object_id: ObjectId,
    pub category: IssueCategory,
    pub details: Seq<char>,
    pub severity: IssueSeverity,
    pub issue_tech_id: Seq<char>,
    pub issue_message: Seq<char>,
    pub reported_by: Seq<char>,
    pub reported_at: Seq<char>,
    pub last_seen_at: Seq<char>,
    pub linked_object_id: Option<ObjectId>,
}

impl View for Issue {
    type V = IssueView;

    open spec fn view(&self) -> IssueView {
        IssueView {
            object_id: self.object_id,
            category: self.category,
            details: self.details@,
            severity: self.severity,
            issue_tech_id: self.issue_tech_id@,
            issue_message: self.issue_message@,
            reported_by: self.reported_by@,
            reported_at: self.reported_at@,
            last_seen_at: self.last_seen_at@,
            linked_object_id: self.linked_object_id,
        }
    }
}

impl Clone for Issue {
    fn clone(&self) -> (r: Self)
        ensures
            r == *self,
    {
        Issue {
            object_id: self.object_id,
            category: self.category,
            details: self.details.clone(),
            severity: self.severity,
            issue_tech_id: self.issue_tech_id.clone(),
            issue_message: self.issue_message.clone(),
            reported_by: self.reported_by.clone(),
            reported_at: self.reported_at.clone(),
            last_seen_at: self.last_seen_at.clone(),
            linked_object_id: self.linked_object_id,
        }
    }
}

/// One element of a bulk submission: the issue together with the identity
/// tuple of the object it is reported against.
#[derive(Debug, PartialEq, Eq)]
pub struct PostIssue {
    pub cluster: String,
    pub namespace: String,
    pub object_name: String,
    pub object_type: String,
    pub category: IssueCategory,
    pub details: Option<String>,
    pub severity: IssueSeverity,
    pub issue_tech_id: String,
    pub issue_message: String,
    pub reported_by: Option<String>,
    pub reported_at: Option<String>,
    pub last_seen_at: Option<String>,
    pub linked_object_id: Option<ObjectId>,
}

/// Mathematical image of a [`PostIssue`].
pub struct PostIssueView {
    pub cluster: Seq<char>,
    pub namespace: Seq<char>,
    pub object_name: Seq<char>,
    pub object_type: Seq<char>,
    pub category: IssueCategory,
    pub details: Option<Seq<char>>,
    pub severity: IssueSeverity,
    pub issue_tech_id: Seq<char>,
    pub issue_message: Seq<char>,
    pub reported_by: Option<Seq<char>>,
    pub reported_at: Option<Seq<char>>,
    pub last_seen_at: Option<Seq<char>>,
    pub linked_object_id: Option<ObjectId>,
}

impl View for PostIssue {
    type V = PostIssueView;

    open spec fn view(&self) -> PostIssueView {
        PostIssueView {
            cluster: self.cluster@,
            namespace: self.namespace@,
            object_name: self.object_name@,
            object_type: self.object_type@,
            category: self.category,
            details: self.details.deep_view(),
            severity: self.severity,
            issue_tech_id: self.issue_tech_id@,
            issue_message: self.issue_message@,
            reported_by: self.reported_by.deep_view(),
            reported_at: self.reported_at.deep_view(),
            last_seen_at: self.last_seen_at.deep_view(),
            linked_object_id: self.linked_object_id,
        }
    }
}

/// A bulk submission of issues.
#[derive(Debug, PartialEq, Eq)]
pub struct IssueList {
    pub issues: Vec<PostIssue>,
}

impl View for IssueList {
    type V = Seq<PostIssueView>;

    open spec fn view(&self) -> Seq<PostIssueView> {
        self.issues@.map_values(|p: PostIssue| p@)
    }
}

/// Read-model composition: one object together with the issues of the
/// queried category that point at it.
#[derive(Debug, PartialEq, Eq)]
pub struct ObjectWithIssues {
    pub metadata: NamespacedObject,
    pub issues: Vec<Issue>,
}

/// Mathematical image of an [`ObjectWithIssues`].
pub struct ObjectWithIssuesView {
    pub metadata: NamespacedObjectView,
    pub issues: Seq<IssueView>,
}

impl View for ObjectWithIssues {
    type V = ObjectWithIssuesView;

    open spec fn view(&self) -> ObjectWithIssuesView {
        ObjectWithIssuesView {
            metadata: self.metadata@,
            issues: self.issues@.map_values(|i: Issue| i@),
        }
    }
}

/// The assembled response of the read path.
#[derive(Debug, PartialEq, Eq)]
pub struct IssueListWithObjects {
    pub issues: Vec<ObjectWithIssues>,
}

impl View for IssueListWithObjects {
    type V = Seq<ObjectWithIssuesView>;

    open spec fn view(&self) -> Seq<ObjectWithIssuesView> {
        self.issues@.map_values(|o: ObjectWithIssues| o@)
    }
}

/// Path parameters of the read endpoint.
#[derive(Debug, PartialEq, Eq)]
pub struct IssuesNamespaceParams {
    pub category: IssueCategory,
    pub namespace_name: String,
}

/// `details` and the reporter fields may be omitted on submission; an
/// omitted field is stored as the empty string.
pub open spec fn or_empty(o: Option<Seq<char>>) -> Seq<char> {
    match o {
        Some(s) => s,
        None => Seq::empty(),
    }
}

/// The issue row that a submitted element produces once its object has been
/// registered under `object_id`.
pub open spec fn issue_record_view(p: PostIssueView, object_id: ObjectId) -> IssueView {
    IssueView {
        object_id: object_id,
        category: p.category,
        details: or_empty(p.details),
        severity: p.severity,
        issue_tech_id: p.issue_tech_id,
        issue_message: p.issue_message,
        reported_by: or_empty(p.reported_by),
        reported_at: or_empty(p.reported_at),
        last_seen_at: or_empty(p.last_seen_at),
        linked_object_id: p.linked_object_id,
    }
}

fn unwrap_or_empty(o: &Option<String>) -> (r: String)
    ensures
        r@ == or_empty(o.deep_view()),
{
    match o {
        Some(s) => s.clone(),
        None => String::new(),
    }
}

/// Builds the issue row for one submitted element, defaulting every omitted
/// optional field to the empty string.
pub fn make_issue_record(post: &PostIssue, object_id: ObjectId) -> (r: Issue)
    ensures
        r@ == issue_record_view(post@, object_id),
{
    Issue {
        object_id: object_id,
        category: post.category,
        details: unwrap_or_empty(&post.details),
        severity: post.severity,
        issue_tech_id: post.issue_tech_id.clone(),
        issue_message: post.issue_message.clone(),
        reported_by: unwrap_or_empty(&post.reported_by),
        reported_at: unwrap_or_empty(&post.reported_at),
        last_seen_at: unwrap_or_empty(&post.last_seen_at),
        linked_object_id: post.linked_object_id,
    }
}

} // verus!
