//! The QuickLaunch menubar companion: the items it shows and the actions it queues.
use crate::error::{validation, AppError, AppResult};
use crate::path::{join, path_join};
use crate::text::{from_chars, to_chars};
use vstd::prelude::*;

verus! {

/// One job as the menubar companion shows it.
#[derive(Debug, Clone, PartialEq, Eq)]
pub struct QuickLaunchItem {
    pub id: String,
    pub title: String,
    pub status: String,
    pub group: String,
    pub is_starred: bool,
    pub updated_at_unix_secs: u64,
}

/// An action that the companion queued for the app: its name and the jobs it targets.
#[derive(Debug, Clone, PartialEq, Eq)]
pub struct QuickLaunchAction {
    pub action: String,
    pub job_ids: Vec<String>,
}

/// Where the app publishes its QuickLaunch items and collects queued actions.
pub trait QuickLaunchProvider {
    fn sync_items(&self, items: &[QuickLaunchItem]) -> AppResult<()>;

    /// The queued actions, which the provider forgets once handed out; a provider that
    /// queues nothing has none.
    fn drain_actions(&self) -> (r: AppResult<Vec<QuickLaunchAction>>)
        default_ensures
            r matches Ok(v) && v@.len() == 0,
    {
        Ok(Vec::new())
    }
}

/// Where the app writes its QuickLaunch items for the companion to read: under the home
/// directory where it is known, else in the working directory.
pub fn items_file_path(home: Option<String>) -> (r: String)
    ensures
        r@ == match home {
            Some(h) => path_join(h@, ".config/launchpad/quicklaunch-items.json"@),
            None => ".launchpad-quicklaunch-items.json"@,
        },
{
    match &home {
        Some(h) => join(h.as_str(), ".config/launchpad/quicklaunch-items.json"),
        None => from_chars(to_chars(".launchpad-quicklaunch-items.json").as_slice()),
    }
}

/// The message of a build without the menubar companion.
pub open spec fn quicklaunch_unavailable_message() -> Seq<char> {
    "QuickLaunch menubar integration is not available on this build."@
}

/// Stands in where QuickLaunch is off: every sync is refused.
#[derive(Debug, Default)]
pub struct NoopQuickLaunchProvider;

impl QuickLaunchProvider for NoopQuickLaunchProvider {
    fn sync_items(&self, items: &[QuickLaunchItem]) -> (r: AppResult<()>)
        ensures
            r matches Err(AppError::Validation(m)) && m@ == quicklaunch_unavailable_message(),
    {
        Err(validation("QuickLaunch menubar integration is not available on this build."))
    }
}

} // verus!
