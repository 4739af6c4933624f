//! Verified core of an issue-tracking API service for Kubernetes workloads.
//!
//! The library records operational issues (security, reliability,
//! performance, configuration findings) against namespaced objects, and
//! serves category-scoped queries gated by a namespace-level authorization
//! decision.  The relational store is modelled explicitly: [`db::Database`]
//! holds the object registry and the issue table together with their
//! invariants (identity uniqueness, referential integrity), and every
//! operation carries a contract that pins its result down.
//!
//! Network transport, the Kubernetes access-review call and the SQL driver
//! live outside the library; they hand plain values in and take plain
//! values back.

pub mod authz;
pub mod billing;
pub mod cluster;
pub mod db;
pub mod issues;
pub mod objects;
pub mod query;
