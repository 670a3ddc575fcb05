//! An event-triggered file-derivative pipeline.
//!
//! Given a batch of object-creation notifications from a storage service, the
//! pipeline validates each record, fetches the newly created object, derives a
//! fixed-size image thumbnail from it, and writes the derivative to a
//! companion container whose name is the source container name with a fixed
//! suffix. Records are processed independently: one record's failure never
//! aborts or taints the processing of its siblings.

pub mod laws;
pub mod pipeline;
pub mod record;
pub mod store;
pub mod transform;
