//! The domain model: jobs, their status, actions, filters and plist documents.
pub mod action;
pub mod diagnostic;
pub mod filter;
pub mod job;
pub mod job_detail;
pub mod plist_document;
pub mod status;
