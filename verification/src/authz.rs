//! The authorization gate.
//!
//! Before a namespace read is served, the cluster's own access-control
//! subsystem is consulted: a review names verb `get` on resource `pods`
//! (API group "", version `v1`) in the namespace, and its verdict stands
//! for "may view this namespace's issues", so operators configure access
//! once, in one place.  [`access_review_request`] fixes the request that is
//! sent and [`review_verdict`] interprets the answer that comes back; the
//! network call between the two happens outside the library.

use vstd::prelude::*;

verus! {

/// The access-control subsystem call itself failed.  Distinct from a deny,
/// which is a legitimate outcome, not an error.
#[derive(Clone, Copy, PartialEq, Eq, Structural, Debug)]
pub enum AuthzBackendError {
    /// The call to the subsystem did not complete.
    CallFailed,
    /// The subsystem answered without a verdict.
    MalformedResponse,
}

/// A synthetic access review: "may `subject` (with `groups`) perform `verb`
/// on `resource` (API group `group`, version `version`) in `namespace`?"
#[derive(Debug, PartialEq, Eq)]
pub struct AccessReviewRequest {
    pub verb: String,
    pub resource: String,
    pub group: String,
    pub version: String,
    pub namespace: String,
    pub subject: String,
    pub groups: Vec<String>,
}

fn clone_string_vec(v: &Vec<String>) -> (r: Vec<String>)
    ensures
        r.deep_view() == v.deep_view(),
{
    let mut r: Vec<String> = Vec::new();
    let mut i: usize = 0;
    while i < v.len()
        invariant
            i <= v.len(),
            r.deep_view() == v.deep_view().take(i as int),
        decreases v.len() - i,
    {
        let ghost prev = r.deep_view();
        r.push(v[i].clone());
        proof {
            assert(r.deep_view() =~= prev.push(v@[i as int]@));
            assert(v.deep_view().take(i as int + 1) =~= v.deep_view().take(i as int).push(
                v@[i as int]@,
            ));
        }
        i = i + 1;
    }
    proof {
        assert(v.deep_view().take(v@.len() as int) =~= v.deep_view());
    }
    r
}

/// The request that gates a namespace read: pod-read access stands in for
/// "may view this namespace's issues", so operators configure access once,
/// in the cluster's own access-control system.
pub fn access_review_request(namespace: &str, username: &str, groups: &Vec<String>) -> (r:
    AccessReviewRequest)
    ensures
        r.verb@ == "get"@,
        r.resource@ == "pods"@,
        r.group@ == ""@,
        r.version@ == "v1"@,
        r.namespace@ == namespace@,
        r.subject@ == username@,
        r.groups.deep_view() == groups.deep_view(),
{
    AccessReviewRequest {
        verb: "get".to_owned(),
        resource: "pods".to_owned(),
        group: "".to_owned(),
        version: "v1".to_owned(),
        namespace: namespace.to_owned(),
        subject: username.to_owned(),
        groups: clone_string_vec(groups),
    }
}

/// Interprets what the access-control subsystem answered.  An answer that
/// carries no verdict is malformed and counts as a backend failure, never
/// as an allow or a deny.
pub fn review_verdict(status: Option<bool>) -> (r: Result<bool, AuthzBackendError>)
    ensures
        r == match status {
            Some(allowed) => Ok::<bool, AuthzBackendError>(allowed),
            None => Err::<bool, AuthzBackendError>(AuthzBackendError::MalformedResponse),
        },
{
    match status {
        Some(allowed) => Ok(allowed),
        None => Err(AuthzBackendError::MalformedResponse),
    }
}

/// Credential extraction, stubbed to a fixed administrative identity: the
/// subject `admin` in the single group `system:masters`.  A full extractor
/// would produce the same shape of (subject, groups) from request
/// credentials.
pub fn get_user_context() -> (r: (String, Vec<String>))
    ensures
        r.0@ == "admin"@,
        r.1.deep_view() == seq!["system:masters"@],
{
    let username = "admin".to_owned();
    let mut groups: Vec<String> = Vec::new();
    groups.push("system:masters".to_owned());
    proof {
        assert(groups.deep_view() =~= seq!["system:masters"@]);
    }
    (username, groups)
}

} // verus!
