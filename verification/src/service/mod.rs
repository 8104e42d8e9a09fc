//! Services: the flows of the app over the domain model and the adapters.
pub mod action_service;
pub mod delete_service;
pub mod diagnostic_service;
pub mod job_service;
pub mod star_service;
pub mod quicklaunch_service;
pub mod plist_service;
pub mod log_service;
pub mod ai_service;
