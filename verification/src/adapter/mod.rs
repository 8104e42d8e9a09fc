//! The interfaces to the outside world (launchctl, plist files, stores, AI providers)
//! and the pure parts of the adapters: parsing what they return.
pub mod clipboard;
pub mod fs_ops;
pub mod fs_scan;
pub mod launchctl;
pub mod log_stream;
pub mod plist_codec;
pub mod plist_doc;
pub mod plist_reader;
pub mod plist_value;
pub mod star_store;
pub mod ai;
pub mod quicklaunch;
