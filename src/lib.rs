//! Merging a freshly fetched single-cluster kubeconfig into an existing one.

pub mod document;
pub mod merge;
