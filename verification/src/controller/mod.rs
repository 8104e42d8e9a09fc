//! The desktop app's controller: what each user action does to the job list, the editor,
//! the filters and the status line, independent of how they are drawn.
pub mod editor;
pub mod filters;
pub mod state;
pub mod views;
