//! Aggregation of a managed-device inventory into one flat report.
//!
//! A device-management backend lists its devices, tells the detail of each,
//! and offers a catalog of operating-system versions. This library joins the
//! three into a report that says of every device what it runs and whether
//! that is the latest version on offer. It performs no call itself: it
//! describes the calls, classifies the answers, and decides what is to be
//! done next, so that a driver of any kind can run it.

pub mod client;
pub mod laws;
pub mod machine;
pub mod model;
pub mod pipeline;
pub mod render;
pub mod text;
pub mod version;
