//! Offline-tolerant cache for application descriptors and downloadable
//! resources: the decisions that reconcile a network answer with what is
//! kept locally, stated and proved.

pub mod application;
pub mod digest;
pub mod descriptor;
pub mod resource;
pub mod host;
pub mod model;
