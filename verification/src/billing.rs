//! Billing submissions.  The endpoint itself is a stub: it acknowledges
//! every submission; recording and pricing live elsewhere.

use vstd::prelude::*;

verus! {

/// One pod's billing period, as submitted to the billing endpoint.
#[derive(Debug, PartialEq, Eq)]
pub struct PodBillingEntry {
    pub namespace: String,
    pub pod_name: String,
    pub start_time: Option<String>,
    pub end_time: Option<String>,
}

/// Outcome of a billing submission.
#[derive(Debug, PartialEq, Eq)]
pub struct BillingResult {
    pub status: String,
}

impl BillingResult {
    /// The acknowledgement that the stub endpoint answers with.
    pub fn accepted() -> (r: BillingResult)
        ensures
            r.status@ == "OK"@,
    {
        BillingResult { status: "OK".to_owned() }
    }
}

} // verus!
