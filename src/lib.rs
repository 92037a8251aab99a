//! Derives, for each Service of a Kubernetes namespace, the addresses through
//! which it and its backing Pods can be reached.

pub mod names;
pub mod scheme;
pub mod model;
pub mod resolve;
pub mod facts;
pub mod filter;
