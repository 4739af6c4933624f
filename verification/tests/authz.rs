use coa_apiservice::authz::{
    access_review_request, get_user_context, review_verdict, AuthzBackendError,
};
use coa_apiservice::billing::BillingResult;
use coa_apiservice::cluster::ClusterIdentity;

#[test]
fn access_review_request_shape() {
    let groups = vec!["dev".to_string(), "ops".to_string()];
    let r = access_review_request("ns", "alice", &groups);
    assert_eq!(r.verb, "get");
    assert_eq!(r.resource, "pods");
    assert_eq!(r.group, "");
    assert_eq!(r.version, "v1");
    assert_eq!(r.namespace, "ns");
    assert_eq!(r.subject, "alice");
    assert_eq!(r.groups, groups);
}

#[test]
fn review_verdict_interpretation() {
    assert_eq!(review_verdict(Some(true)), Ok(true));
    assert_eq!(review_verdict(Some(false)), Ok(false));
    assert_eq!(
        review_verdict(None),
        Err(AuthzBackendError::MalformedResponse)
    );
}

#[test]
fn fixed_user_context() {
    let (subject, groups) = get_user_context();
    assert_eq!(subject, "admin");
    assert_eq!(groups, vec!["system:masters".to_string()]);
}

#[test]
fn cluster_identity_label() {
    let c = ClusterIdentity::new("prod-eu".to_string());
    assert_eq!(c.name(), "prod-eu");
    assert_eq!(c, ClusterIdentity::new("prod-eu".to_string()));
    assert!(c != ClusterIdentity::new("prod-us".to_string()));
}

#[test]
fn billing_acknowledgement() {
    let r = BillingResult::accepted();
    assert_eq!(r.status, "OK");
}
