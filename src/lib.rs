//! Query engine over a dynamic-analysis sandbox report attached to a scan unit.
//!
//! Queries are three-valued: `None` when the section they read is absent,
//! otherwise the number of matching entries, zero included.
pub mod cache;
pub mod init;
pub mod laws;
pub mod query;
pub mod report;
