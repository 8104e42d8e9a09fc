//! The app's state and what each user action does to it.
use crate::adapter::ai::provider::AiProvider;
use crate::adapter::fs_ops::FsOps;
use crate::adapter::fs_scan::ScannedFile;
use crate::adapter::launchctl::LaunchctlClient;
use crate::adapter::log_stream::LogStreamClient;
use crate::adapter::plist_doc::PlistDocumentStore;
use crate::adapter::plist_reader::PlistReader;
use crate::adapter::quicklaunch::{QuickLaunchAction, QuickLaunchProvider};
use crate::adapter::star_store::StarStore;
use crate::config::AppConfig;
use crate::controller::editor::{
    add_key_template, ai_patch_candidate_from_prompt, blank_editor, build_line_diff,
    editor_document_from_state, EditorState, EditorTarget,
};
use crate::controller::filters::{
    advanced_filter_texts, filter_badge, shown_indices, status_filter_from_value,
    visible_job_indices, ScopeFilter, lemma_shown_indices_in_range,
};
use crate::controller::views::{clear_details, formatted_job_details, parse_palette_command, selection_details, PaletteCommand, SelectionDetails};
use crate::domain::action::{action_name, TriggerAction};
use crate::domain::diagnostic::{issue_line, IssueView};
use crate::domain::filter::AdvancedFilter;
use crate::domain::job::{compute_capabilities, jobs_sorted, sort_jobs, JobMetadata, JobScope, JobSummary};
use crate::domain::job_detail::JobRuntimeDetails;
use crate::domain::plist_document::{search_key_defs, LaunchdKeyDef, StandardPlistDocument};
use crate::domain::status::JobStatus;
use crate::error::{error_message, AppError, AppResult};
use crate::service::action_service::{executed, ActionService};
use crate::service::ai_service::AiService;
use crate::service::delete_service::{delete_refusal, deleted, DeleteService};
use crate::service::diagnostic_service::DiagnosticService;
use crate::service::job_service::JobService;
use crate::service::log_service::LogService;
use crate::service::plist_service::PlistService;
use crate::service::quicklaunch_service::{QuickLaunchConfig, QuickLaunchGroupBy, QuickLaunchService};
use crate::service::star_service::StarService;
use crate::text::{
    append_chars, append_str, decimal, decimal_chars, eq_str, from_chars, join_strings, str_eq,
    to_chars, trim, trim_chars,
};
use crate::ui_state::UiState;
use std::sync::Arc;
use vstd::prelude::*;

verus! {

/// The message that a status line shows.
pub open spec fn msg(s: &str) -> Seq<char> {
    s@
}

fn text(s: &str) -> (r: String)
    ensures
        r@ == s@,
{
    from_chars(to_chars(s).as_slice())
}

fn concat2(a: &str, b: &str) -> (r: String)
    ensures
        r@ == a@ + b@,
{
    let mut v: Vec<char> = Vec::new();
    append_str(&mut v, a);
    append_str(&mut v, b);
    from_chars(v.as_slice())
}

fn concat3(a: &str, b: &str, c: &str) -> (r: String)
    ensures
        r@ == a@ + b@ + c@,
{
    let mut v: Vec<char> = Vec::new();
    append_str(&mut v, a);
    append_str(&mut v, b);
    append_str(&mut v, c);
    from_chars(v.as_slice())
}

fn number(n: usize) -> (r: String)
    ensures
        r@ == decimal(n as nat),
{
    from_chars(decimal_chars(n as u64).as_slice())
}

/// The editor's fields that the user types are as they were.
pub open spec fn same_inputs(a: EditorState, b: EditorState) -> bool {
    &&& a.label == b.label && a.program == b.program && a.program_arguments == b.program_arguments
    &&& a.run_at_load == b.run_at_load && a.keep_alive == b.keep_alive
    &&& a.start_interval == b.start_interval && a.working_directory == b.working_directory
    &&& a.environment_variables == b.environment_variables && a.expert_entries == b.expert_entries
    &&& a.ai_prompt == b.ai_prompt && a.ai_response == b.ai_response
    &&& a.ai_diff_preview == b.ai_diff_preview && a.log_live_mode == b.log_live_mode
    &&& a.log_window_minutes == b.log_window_minutes
    &&& a.log_stream_seconds == b.log_stream_seconds && a.log_max_lines == b.log_max_lines
}

/// The desktop app: its services, the listed jobs and everything the user has set.
pub struct AppController<
    L: LaunchctlClient,
    R: PlistReader,
    F: FsOps,
    S: StarStore,
    Q: QuickLaunchProvider,
    D: PlistDocumentStore,
    G: LogStreamClient,
    P: AiProvider,
> {
    pub job_service: JobService<R, L>,
    pub action_service: ActionService<L>,
    pub delete_service: DeleteService<L, F>,
    pub diagnostic_service: DiagnosticService,
    pub log_service: LogService<G>,
    pub ai_service: AiService<P>,
    pub quicklaunch_service: QuickLaunchService<Q>,
    pub plist_service: PlistService<D>,
    pub star_service: StarService<S>,
    pub jobs: Vec<JobSummary>,
    pub visible_indices: Vec<usize>,
    pub runtime_details: Vec<(String, JobRuntimeDetails)>,
    pub search_query: String,
    pub command_query: String,
    pub key_panel_query: String,
    pub visible_key_defs: Vec<LaunchdKeyDef>,
    pub scope_filter: Option<ScopeFilter>,
    pub advanced_filter: AdvancedFilter,
    pub starred_only: bool,
    pub advanced_details_visible: bool,
    pub recent_logs_text: String,
    pub editor_state: EditorState,
    pub editor_target: Option<EditorTarget>,
    pub pending_ai_patch_document: Option<StandardPlistDocument>,
    pub pending_ai_actions: Vec<TriggerAction>,
    pub ai_patch_confirmation_required: bool,
    pub ui_state: UiState,
    pub status_message: String,
    pub log_view_text: String,
}

/// The positions the list shows, given the controller's jobs and filters.
pub open spec fn expected_visible<
    L: LaunchctlClient,
    R: PlistReader,
    F: FsOps,
    S: StarStore,
    Q: QuickLaunchProvider,
    D: PlistDocumentStore,
    G: LogStreamClient,
    P: AiProvider,
>(c: AppController<L, R, F, S, Q, D, G, P>) -> Seq<usize> {
    shown_indices(c.jobs@, c.search_query@, c.scope_filter, c.advanced_filter, c.starred_only)
}

impl<
    L: LaunchctlClient,
    R: PlistReader,
    F: FsOps,
    S: StarStore,
    Q: QuickLaunchProvider,
    D: PlistDocumentStore,
    G: LogStreamClient,
    P: AiProvider,
> AppController<L, R, F, S, Q, D, G, P> {
    /// Every shown position is a listed job's.
    pub open spec fn visible_valid(&self) -> bool {
        forall|k: int|
            0 <= k < self.visible_indices@.len() ==> #[trigger] self.visible_indices@[k]
                < self.jobs@.len()
    }

    /// The app with its services, stars loaded from the store, nothing listed yet and no
    /// filter set.
    pub fn new(
        launchctl: Arc<L>,
        plist_reader: Arc<R>,
        fs_ops: Arc<F>,
        star_store: Arc<S>,
        quicklaunch_provider: Arc<Q>,
        plist_store: Arc<D>,
        log_client: Arc<G>,
        ai_provider: Arc<P>,
        uid: u32,
        home_dir: Option<String>,
        config: &AppConfig,
        group_by: QuickLaunchGroupBy,
    ) -> (r: Self)
        ensures
            r.jobs@.len() == 0,
            r.visible_indices@.len() == 0,
            r.scope_filter is None,
            !r.starred_only,
            r.ui_state.selected_index is None,
            r.editor_target is None,
            r.visible_valid(),
            r.quicklaunch_service.config() == (QuickLaunchConfig {
                enabled: config.quicklaunch_enabled,
                starred_only: config.quicklaunch_starred_only,
                max_items: config.quicklaunch_max_items,
                group_by,
            }),
            r.star_service.store() == star_store,
            exists|loaded: AppResult<Vec<String>>|
                #[trigger] call_ensures(S::load_stars, (&*star_store,), loaded)
                    && r.star_service.starred() == crate::service::star_service::stars_loaded(loaded),
    {
        let mut star_service = StarService::new(star_store);
        let _ = star_service.load();
        let quicklaunch_config = QuickLaunchConfig {
            enabled: config.quicklaunch_enabled,
            starred_only: config.quicklaunch_starred_only,
            max_items: config.quicklaunch_max_items,
            group_by,
        };
        AppController {
            job_service: JobService::new(plist_reader, launchctl.clone(), uid),
            action_service: ActionService::new(launchctl.clone(), uid),
            delete_service: DeleteService::new(launchctl, fs_ops, uid),
            diagnostic_service: DiagnosticService,
            log_service: LogService::new(log_client),
            ai_service: AiService::with_provider(ai_provider),
            quicklaunch_service: QuickLaunchService::new(quicklaunch_provider, quicklaunch_config),
            plist_service: PlistService::with_home_dir(plist_store, home_dir),
            star_service,
            jobs: Vec::new(),
            visible_indices: Vec::new(),
            runtime_details: Vec::new(),
            search_query: String::new(),
            command_query: String::new(),
            key_panel_query: String::new(),
            visible_key_defs: search_key_defs(""),
            scope_filter: None,
            advanced_filter: AdvancedFilter::default(),
            starred_only: false,
            advanced_details_visible: false,
            recent_logs_text: String::new(),
            editor_state: EditorState::default(),
            editor_target: None,
            pending_ai_patch_document: None,
            pending_ai_actions: Vec::new(),
            ai_patch_confirmation_required: false,
            ui_state: UiState::default(),
            status_message: String::new(),
            log_view_text: String::new(),
        }
    }

    /// The id of the selected job, if one is selected.
    fn selected_job_id(&self) -> (r: Option<String>)
        ensures
            r matches Some(id) ==> self.ui_state.selected_index matches Some(i) && i
                < self.jobs@.len() && id@ == self.jobs@[i as int].id@,
            r is None ==> match self.ui_state.selected_index {
                Some(i) => i >= self.jobs@.len(),
                None => true,
            },
    {
        match self.ui_state.selected_index {
            Some(i) => if i < self.jobs.len() {
                Some(text(self.jobs[i].id.as_str()))
            } else {
                None
            },
            None => None,
        }
    }

    /// Forgets the editor's target, fields and pending AI suggestions.
    fn reset_editor(&mut self)
        ensures
            final(self).action_service == old(self).action_service,
            final(self).star_service == old(self).star_service,
            final(self).quicklaunch_service == old(self).quicklaunch_service,
            final(self).editor_target is None,
            blank_editor(final(self).editor_state),
            final(self).pending_ai_patch_document is None,
            final(self).pending_ai_actions@.len() == 0,
            !final(self).ai_patch_confirmation_required,
            final(self).jobs == old(self).jobs,
            final(self).visible_indices == old(self).visible_indices,
            final(self).ui_state == old(self).ui_state,
            final(self).search_query == old(self).search_query,
            final(self).scope_filter == old(self).scope_filter,
            final(self).advanced_filter == old(self).advanced_filter,
            final(self).starred_only == old(self).starred_only,
    {
        self.editor_target = None;
        self.editor_state = EditorState::default();
        self.pending_ai_patch_document = None;
        self.pending_ai_actions = Vec::new();
        self.ai_patch_confirmation_required = false;
    }

    /// The list, its filters and the selection are as they were.
    pub open spec fn same_listing(a: Self, b: Self) -> bool {
        &&& a.jobs == b.jobs
        &&& a.visible_indices == b.visible_indices
        &&& a.search_query == b.search_query
        &&& a.scope_filter == b.scope_filter
        &&& a.advanced_filter == b.advanced_filter
        &&& a.starred_only == b.starred_only
        &&& a.ui_state == b.ui_state
    }

    /// Where the runtime details of the job with `id` are kept, if they were loaded.
    fn details_slot(&self, id: &str) -> (r: Option<usize>)
        ensures
            r matches Some(k) ==> k < self.runtime_details@.len() && self.runtime_details@[k as int].0@
                == id@,
            r is None ==> forall|k: int|
                0 <= k < self.runtime_details@.len() ==> (#[trigger] self.runtime_details@[k]).0@
                    != id@,
    {
        let target = to_chars(id);
        let mut k: usize = 0;
        while k < self.runtime_details.len()
            invariant
                k <= self.runtime_details.len(),
                target@ == id@,
                forall|j: int| 0 <= j < k ==> (#[trigger] self.runtime_details@[j]).0@ != id@,
            decreases self.runtime_details.len() - k,
        {
            if crate::text::chars_eq(&to_chars(self.runtime_details[k].0.as_str()), &target) {
                return Some(k);
            }
            k = k + 1;
        }
        None
    }

    /// The runtime details loaded for a job, or none.
    pub fn details_for(&self, index: usize) -> (r: JobRuntimeDetails)
        requires
            index < self.jobs@.len(),
        ensures
            details_kept(self.runtime_details@, self.jobs@[index as int].id@, r),
    {
        match self.details_slot(self.jobs[index].id.as_str()) {
            Some(k) => {
                let d = &self.runtime_details[k].1;
                JobRuntimeDetails {
                    pid: crate::domain::job::clone_opt_string(&d.pid),
                    last_exit_status: crate::domain::job::clone_opt_string(&d.last_exit_status),
                    last_run: crate::domain::job::clone_opt_string(&d.last_run),
                    raw_hint: crate::domain::job::clone_opt_string(&d.raw_hint),
                }
            },
            None => JobRuntimeDetails::default(),
        }
    }

    /// The runtime details kept after loading those of the job at `index` once: nothing
    /// changes where there is no such job or its details are known; else one entry is added
    /// for it, read from launchctl's print, or recording the failure, which is reported.
    pub open spec fn details_loaded(before: Self, after: Self, index: usize) -> bool {
        &&& (index >= before.jobs@.len() || details_known(
            before.runtime_details@,
            before.jobs@[index as int].id@,
        ) ==> after.runtime_details == before.runtime_details && after.status_message
            == before.status_message)
        &&& (index < before.jobs@.len() && !details_known(
            before.runtime_details@,
            before.jobs@[index as int].id@,
        ) ==> {
            let added = after.runtime_details@.last();
            &&& after.runtime_details@.drop_last() == before.runtime_details@
            &&& after.runtime_details@.len() == before.runtime_details@.len() + 1
            &&& added.0@ == before.jobs@[index as int].id@
            &&& (crate::service::job_service::details_from_print(added.1) && after.status_message
                == before.status_message) || exists|m: Seq<char>|
                failed_details(added.1, m) && after.status_message@
                    == "Runtime details unavailable: "@ + m
        })
    }

    /// Loads a job's runtime details once; a failure is kept as a hint and reported.
    pub fn ensure_runtime_details_loaded(&mut self, index: usize)
        ensures
            final(self).advanced_details_visible == old(self).advanced_details_visible,
            final(self).action_service == old(self).action_service,
            Self::same_listing(*old(self), *final(self)),
            final(self).star_service == old(self).star_service,
            final(self).quicklaunch_service == old(self).quicklaunch_service,
            final(self).editor_state == old(self).editor_state,
            final(self).editor_target == old(self).editor_target,
            Self::details_loaded(*old(self), *final(self), index),
    {
        if index >= self.jobs.len() {
            return;
        }
        let id = text(self.jobs[index].id.as_str());
        if self.details_slot(id.as_str()).is_some() {
            return;
        }
        let ghost before = self.runtime_details@;
        match self.job_service.fetch_job_details(&self.jobs[index]) {
            Ok(details) => {
                self.runtime_details.push((id, details));
            },
            Err(err) => {
                let m = err.message();
                let hint = concat2("Failed to load runtime details: ", m.as_str());
                let mut details = JobRuntimeDetails::default();
                details.raw_hint = Some(hint);
                self.runtime_details.push((id, details));
                self.status_message = concat2("Runtime details unavailable: ", m.as_str());
                assert(failed_details(self.runtime_details@.last().1, m@));
            },
        }
        assert(self.runtime_details@.drop_last() =~= before);
    }

    /// Shows the document's XML and its diagnostics, or why they are unavailable.
    pub fn refresh_editor_preview(&mut self)
        ensures
            final(self).advanced_details_visible == old(self).advanced_details_visible,
            final(self).ai_service == old(self).ai_service,
            final(self).log_service == old(self).log_service,
            final(self).plist_service == old(self).plist_service,
            final(self).action_service == old(self).action_service,
            Self::same_listing(*old(self), *final(self)),
            final(self).star_service == old(self).star_service,
            final(self).quicklaunch_service == old(self).quicklaunch_service,
            final(self).editor_target == old(self).editor_target,
            same_inputs(old(self).editor_state, final(self).editor_state),
            final(self).pending_ai_patch_document == old(self).pending_ai_patch_document,
            final(self).pending_ai_actions == old(self).pending_ai_actions,
            final(self).ai_patch_confirmation_required == old(self).ai_patch_confirmation_required,
            final(self).status_message == old(self).status_message,
            final(self).runtime_details == old(self).runtime_details,
            preview_refreshed(old(self).editor_state, final(self).editor_state),
    {
        match editor_document_from_state(&self.editor_state, &self.plist_service) {
            Ok(document) => match self.plist_service.xml_preview(&document) {
                Ok(xml) => {
                    self.editor_state.xml_preview = xml;
                    let diagnostics = self.diagnostic_service.analyze(&document);
                    let ghost issues = crate::service::diagnostic_service::issue_views(diagnostics@);
                    if diagnostics.len() == 0 {
                        self.editor_state.diagnostics_text = text("未发现问题。");
                    } else {
                        let mut lines: Vec<String> = Vec::new();
                        let mut i: usize = 0;
                        while i < diagnostics.len()
                            invariant
                                i <= diagnostics.len(),
                                issues == crate::service::diagnostic_service::issue_views(diagnostics@),
                                crate::text::str_views(lines@) == issues.take(i as int).map_values(
                                    |x: IssueView| issue_line(x),
                                ),
                            decreases diagnostics.len() - i,
                        {
                            let ghost before = lines@;
                            let line = diagnostics[i].to_line();
                            lines.push(line);
                            proof {
                                crate::text::lemma_str_views_push(before, line);
                            }
                            assert(issues.take(i + 1).map_values(|x: IssueView| issue_line(x))
                                =~= issues.take(i as int).map_values(|x: IssueView| issue_line(x)).push(
                                line@,
                            ));
                            i = i + 1;
                        }
                        assert(issues.take(diagnostics@.len() as int) =~= issues);
                        self.editor_state.diagnostics_text = join_strings(&lines, "\n");
                    }
                },
                Err(err) => {
                    let m = err.message();
                    self.editor_state.xml_preview = concat2("XML preview unavailable: ", m.as_str());
                    self.editor_state.diagnostics_text = concat2("诊断暂不可用: ", m.as_str());
                    assert(self.editor_state.xml_preview@ == "XML preview unavailable: "@ + error_message(err));
                },
            },
            Err(m) => {
                self.editor_state.xml_preview = concat2("XML preview unavailable: ", m.as_str());
                self.editor_state.diagnostics_text = concat2("诊断暂不可用: ", m.as_str());
            },
        }
    }

    /// Opens the editor on a listed job's plist.
    pub fn load_editor_for_existing_job(&mut self, index: usize)
        ensures
            final(self).advanced_details_visible == old(self).advanced_details_visible,
            final(self).action_service == old(self).action_service,
            Self::same_listing(*old(self), *final(self)),
            final(self).star_service == old(self).star_service,
            final(self).quicklaunch_service == old(self).quicklaunch_service,
            index < old(self).jobs@.len() ==> final(self).editor_target == Some(
                EditorTarget::Existing { index },
            ),
            index >= old(self).jobs@.len() ==> final(self).editor_target == old(self).editor_target,
    {
        if index >= self.jobs.len() {
            return;
        }
        self.editor_target = Some(EditorTarget::Existing { index });
        match self.plist_service.load_document(self.jobs[index].path.as_str()) {
            Ok(document) => {
                self.editor_state = EditorState::from_document(&document, &self.plist_service);
                self.pending_ai_patch_document = None;
                self.pending_ai_actions = Vec::new();
                self.ai_patch_confirmation_required = false;
                self.recent_logs_text = text("Click 'Refresh Logs' to load runtime logs.");
                self.log_view_text = text("Click 'Refresh Logs' to load runtime logs.");
                self.refresh_editor_preview();
            },
            Err(err) => {
                self.editor_state = EditorState::default();
                self.pending_ai_patch_document = None;
                self.pending_ai_actions = Vec::new();
                self.ai_patch_confirmation_required = false;
                self.recent_logs_text = text("Log view unavailable: plist load failed.");
                self.log_view_text = text("Log view unavailable: plist load failed.");
                let m = err.message();
                self.status_message = concat2("Failed to load plist editor: ", m.as_str());
            },
        }
    }

    /// Applies the filters to the list and keeps a visible job selected: the preferred
    /// job if it is shown, else the selected one if it is shown, else the first shown.
    pub fn apply_filters_and_render(&mut self, preferred_job_id: Option<String>)
        ensures
            final(self).action_service == old(self).action_service,
            final(self).jobs == old(self).jobs,
            final(self).star_service == old(self).star_service,
            final(self).quicklaunch_service == old(self).quicklaunch_service,
            final(self).search_query == old(self).search_query,
            final(self).scope_filter == old(self).scope_filter,
            final(self).advanced_filter == old(self).advanced_filter,
            final(self).starred_only == old(self).starred_only,
            final(self).visible_indices@ == expected_visible(*old(self)),
            final(self).visible_valid(),
            final(self).ui_state.pending_delete_index is None,
            final(self).visible_indices@.len() == 0 ==> final(self).ui_state.selected_index is None
                && final(self).editor_target is None,
            final(self).visible_indices@.len() > 0 ==> (final(self).ui_state.selected_index matches Some(
                i,
            ) && final(self).visible_indices@.contains(i)),
    {
        let n = self.jobs.len();
        proof {
            lemma_shown_indices_in_range(
                self.jobs@,
                self.search_query@,
                self.scope_filter,
                self.advanced_filter,
                self.starred_only,
            );
        }
        self.visible_indices = visible_job_indices(
            &self.jobs,
            self.search_query.as_str(),
            self.scope_filter,
            &self.advanced_filter,
            self.starred_only,
        );
        if self.visible_indices.len() == 0 {
            self.ui_state.clear_selection();
            self.reset_editor();
            self.recent_logs_text = String::new();
            self.log_view_text = String::new();
            return;
        }
        let mut selected: usize = self.visible_indices[0];
        assert(self.visible_indices@.contains(selected));
        let mut found_preferred = false;
        match &preferred_job_id {
            Some(id) => {
                let mut k: usize = 0;
                while k < self.visible_indices.len()
                    invariant
                        k <= self.visible_indices.len(),
                        self.visible_valid(),
                        self.visible_indices@.contains(selected),
                    decreases self.visible_indices.len() - k,
                {
                    let j = self.visible_indices[k];
                    if str_eq(self.jobs[j].id.as_str(), id.as_str()) {
                        selected = j;
                        found_preferred = true;
                        break;
                    }
                    k = k + 1;
                }
            },
            None => {},
        }
        if !found_preferred {
            match self.ui_state.selected_index {
                Some(current) => {
                    let mut k: usize = 0;
                    while k < self.visible_indices.len()
                        invariant
                            k <= self.visible_indices.len(),
                            self.visible_indices@.contains(selected),
                        decreases self.visible_indices.len() - k,
                    {
                        if self.visible_indices[k] == current {
                            selected = current;
                            break;
                        }
                        k = k + 1;
                    }
                },
                None => {},
            }
        }
        self.ui_state.select(selected);
        self.ensure_runtime_details_loaded(selected);
        self.load_editor_for_existing_job(selected);
    }

    /// The status line after a refresh that listed `total` jobs, `visible` of them shown.
    pub open spec fn loaded_message(total: nat, visible: nat) -> Seq<char> {
        if visible == 0 {
            "Loaded "@ + decimal(total) + " jobs. No jobs match current filters."@
        } else {
            "Loaded "@ + decimal(total) + " jobs ("@ + decimal(visible) + " visible)."@
        }
    }

    /// What listing the jobs again from `scan` does.
    pub open spec fn refreshed(before: Self, after: Self, scan: AppResult<Vec<ScannedFile>>) -> bool {
        &&& (after.ui_state.pending_delete_index is None)
        &&& (after.search_query == before.search_query)
        &&& (after.scope_filter == before.scope_filter)
        &&& (after.advanced_filter == before.advanced_filter)
        &&& (after.starred_only == before.starred_only)
        &&& (after.visible_valid())
        &&& (match scan {
                Err(e) => after.jobs@.len() == 0 && after.visible_indices@.len() == 0
                    && after.ui_state.selected_index is None && after.status_message@
                    == "Failed to refresh jobs: "@ + error_message(e),
                Ok(files) => if files@.len() == 0 {
                    after.jobs@.len() == 0 && after.visible_indices@.len() == 0
                        && after.ui_state.selected_index is None
                        && after.status_message@
                        == "No launchd jobs found in configured directories."@
                } else {
                    after.jobs@.len() == files@.len() && jobs_sorted(after.jobs@, true)
                        && stars_shown(after.jobs@, after.star_service.starred())
                        && after.visible_indices@ == expected_visible(after)
                        && crate::text::starts_with(
                        after.status_message@,
                        Self::loaded_message(
                            after.jobs@.len(),
                            after.visible_indices@.len(),
                        ),
                    ) && exists|
                        listed: Seq<JobSummary>,
                        synced: AppResult<usize>,
                        drained: AppResult<Vec<QuickLaunchAction>>,
                        note: Seq<char>,
                    |
                        #![trigger JobService::jobs_listed(before.job_service, files@, listed), QuickLaunchService::synced(before.quicklaunch_service, after.jobs@, synced), actions_noted(before.action_service, note, drained, after.jobs@)]
                        JobService::jobs_listed(before.job_service, files@, listed)
                            && starred_reordering(listed, after.jobs@, after.star_service.starred())
                            && QuickLaunchService::synced(before.quicklaunch_service, after.jobs@, synced)
                            && call_ensures(Q::drain_actions, (&*before.quicklaunch_service.provider(),), drained)
                            && actions_noted(before.action_service, note, drained, after.jobs@)
                            && after.status_message@ == Self::loaded_message(
                            after.jobs@.len(),
                            after.visible_indices@.len(),
                        ) + sync_note(synced) + note
                },
            })
    }

    /// Lists the jobs again from a fresh scan of the plist directories: stars applied,
    /// starred jobs first then by label, filters applied with the selected job kept where
    /// it is still shown, and QuickLaunch synced and its queued actions carried out.
    pub fn refresh(&mut self, scan: &AppResult<Vec<ScannedFile>>)
        ensures
            Self::refreshed(*old(self), *final(self), *scan),
    {
        let selected_before = self.selected_job_id();
        self.ui_state.reset_pending_delete();
        let files = match scan {
            Ok(files) => files,
            Err(err) => {
                let m = err.message();
                self.jobs = Vec::new();
                self.visible_indices = Vec::new();
                self.ui_state.clear_selection();
                self.reset_editor();
                self.recent_logs_text = String::new();
                self.log_view_text = String::new();
                self.status_message = concat2("Failed to refresh jobs: ", m.as_str());
                return;
            },
        };
        let listed = match self.job_service.list_jobs(files) {
            Ok(jobs) => jobs,
            Err(err) => {
                let m = err.message();
                self.jobs = Vec::new();
                self.visible_indices = Vec::new();
                self.ui_state.clear_selection();
                self.reset_editor();
                self.recent_logs_text = String::new();
                self.log_view_text = String::new();
                self.status_message = concat2("Failed to refresh jobs: ", m.as_str());
                return;
            },
        };
        let ghost listed_g = listed@;
        let mut starred = listed;
        self.star_service.apply_to_jobs(&mut starred);
        let sorted = sort_jobs(&starred, true);
        assert(starred_reordering(listed_g, sorted@, self.star_service.starred()));
        proof {
            vstd::seq_lib::to_multiset_len(starred@);
            vstd::seq_lib::to_multiset_len(sorted@);
            lemma_stars_survive_reordering(starred@, sorted@, self.star_service.starred());
        }
        self.jobs = sorted;
        self.runtime_details = Vec::new();
        if self.jobs.len() == 0 {
            self.ui_state.clear_selection();
            self.visible_indices = Vec::new();
            self.reset_editor();
            self.recent_logs_text = String::new();
            self.log_view_text = String::new();
            self.status_message = text("No launchd jobs found in configured directories.");
            return;
        }
        self.apply_filters_and_render(selected_before);
        let synced = self.quicklaunch_service.sync_jobs(self.jobs.as_slice());
        let quicklaunch_note = match &synced {
            Ok(count) => if *count == 0 {
                String::new()
            } else {
                concat3(" QuickLaunch synced ", number(*count).as_str(), " items.")
            },
            Err(err) => concat3(" QuickLaunch sync skipped: ", err.message().as_str(), "."),
        };
        assert(quicklaunch_note@ == sync_note(synced));
        let action_note = self.process_quicklaunch_actions();
        let ghost drained = choose|drained: AppResult<Vec<QuickLaunchAction>>|
            #[trigger] call_ensures(Q::drain_actions, (&*self.quicklaunch_service.provider(),), drained)
                && actions_noted(self.action_service, action_note@, drained, self.jobs@);
        let total = number(self.jobs.len());
        let visible = self.visible_indices.len();
        let mut message: Vec<char> = Vec::new();
        append_str(&mut message, "Loaded ");
        append_str(&mut message, total.as_str());
        if visible == 0 {
            append_str(&mut message, " jobs. No jobs match current filters.");
        } else {
            append_str(&mut message, " jobs (");
            append_str(&mut message, number(visible).as_str());
            append_str(&mut message, " visible).");
        }
        let ghost head = message@;
        append_str(&mut message, quicklaunch_note.as_str());
        append_str(&mut message, action_note.as_str());
        assert(message@.subrange(0, head.len() as int) =~= head);
        self.status_message = from_chars(message.as_slice());
        assert(self.status_message@ == Self::loaded_message(self.jobs@.len(), self.visible_indices@.len())
            + sync_note(synced) + action_note@);
        assert(JobService::jobs_listed(old(self).job_service, files@, listed_g));
        assert(QuickLaunchService::synced(old(self).quicklaunch_service, self.jobs@, synced));
        assert(call_ensures(Q::drain_actions, (&*old(self).quicklaunch_service.provider(),), drained)
            && actions_noted(old(self).action_service, action_note@, drained, self.jobs@));
    }

    /// Carries out an action queued for some jobs: each id's first listed job gets the
    /// action; the counts are of the jobs it succeeded on, failed on, and of ids that name no
    /// listed job.
    pub fn execute_quicklaunch_action(&self, queued_action: &QuickLaunchAction, trigger: TriggerAction) -> (r:
        (usize, usize, usize))
        ensures
            r.0 + r.1 + r.2 == queued_action.job_ids@.len(),
            r.2 == unmatched_ids(queued_action.job_ids@, self.jobs@),
            exists|os: Seq<Option<AppResult<()>>>|
                #[trigger] ids_handled(self.action_service, self.jobs@, queued_action.job_ids@, trigger, os)
                    && r.0 == ok_count(os) && r.1 == err_count(os),
    {
        let mut success: usize = 0;
        let mut failed: usize = 0;
        let mut skipped: usize = 0;
        let ghost mut os: Seq<Option<AppResult<()>>> = Seq::empty();
        let mut i: usize = 0;
        while i < queued_action.job_ids.len()
            invariant
                i <= queued_action.job_ids.len(),
                success + failed + skipped == i,
                skipped == unmatched_ids(queued_action.job_ids@.take(i as int), self.jobs@),
                ids_handled(self.action_service, self.jobs@, queued_action.job_ids@.take(i as int), trigger, os),
                success == ok_count(os),
                failed == err_count(os),
            decreases queued_action.job_ids.len() - i,
        {
            assert(queued_action.job_ids@.take(i + 1).drop_last() =~= queued_action.job_ids@.take(
                i as int,
            ));
            let id = queued_action.job_ids[i].as_str();
            let mut found: Option<usize> = None;
            let mut j: usize = 0;
            while j < self.jobs.len()
                invariant_except_break
                    found is None,
                invariant
                    j <= self.jobs.len(),
                    forall|k: int| 0 <= k < j ==> (#[trigger] self.jobs@[k]).id@ != id@,
                ensures
                    found matches Some(x) ==> x < self.jobs.len() && self.jobs@[x as int].id@ == id@
                        && forall|k: int| 0 <= k < x ==> (#[trigger] self.jobs@[k]).id@ != id@,
                    found is None ==> forall|k: int|
                        0 <= k < self.jobs@.len() ==> (#[trigger] self.jobs@[k]).id@ != id@,
                decreases self.jobs.len() - j,
            {
                if str_eq(self.jobs[j].id.as_str(), id) {
                    found = Some(j);
                    break;
                }
                j = j + 1;
            }
            let ghost ids_now = queued_action.job_ids@.take(i + 1);
            let ghost prev = os;
            assert(ids_now.last() == queued_action.job_ids@[i as int]);
            match found {
                Some(x) => {
                    assert(self.jobs@[x as int].id@ == ids_now.last()@);
                    let res = self.action_service.execute(&self.jobs[x], trigger);
                    proof {
                        os = os.push(Some(res));
                        assert(id_handled(self.action_service, self.jobs@, ids_now.last()@, trigger, Some(res)));
                    }
                    match res {
                        Ok(_) => {
                            success = success + 1;
                        },
                        Err(_) => {
                            failed = failed + 1;
                        },
                    }
                },
                None => {
                    assert(!exists|k: int|
                        0 <= k < self.jobs@.len() && (#[trigger] self.jobs@[k]).id@ == ids_now.last()@);
                    proof {
                        os = os.push(None);
                        assert(id_handled(self.action_service, self.jobs@, ids_now.last()@, trigger, None::<AppResult<()>>));
                    }
                    skipped = skipped + 1;
                },
            }
            assert(os.drop_last() =~= prev);
            assert forall|k: int| 0 <= k < ids_now.len() implies #[trigger] id_handled(
                self.action_service,
                self.jobs@,
                ids_now[k]@,
                trigger,
                os[k],
            ) by {
                if k < i {
                    assert(ids_now[k] == queued_action.job_ids@.take(i as int)[k]);
                    assert(os[k] == prev[k]);
                }
            }
            i = i + 1;
        }
        assert(queued_action.job_ids@.take(queued_action.job_ids@.len() as int) =~= queued_action.job_ids@);
        (success, failed, skipped)
    }

    /// Carries out the actions the QuickLaunch companion queued, and describes how it went
    /// (an empty note where nothing was queued).
    pub fn process_quicklaunch_actions(&self) -> (r: String)
        ensures
            exists|drained: AppResult<Vec<QuickLaunchAction>>|
                #[trigger] call_ensures(Q::drain_actions, (&*self.quicklaunch_service.provider(),), drained)
                    && actions_noted(self.action_service, r@, drained, self.jobs@),
    {
        let drained = self.quicklaunch_service.drain_actions();
        let actions = match drained {
            Ok(actions) => actions,
            Err(err) => {
                let r = concat3(" QuickLaunch actions skipped: ", err.message().as_str(), ".");
                assert(actions_noted(self.action_service, r@, Err::<Vec<QuickLaunchAction>, AppError>(err), self.jobs@));
                return r;
            },
        };
        if actions.len() == 0 {
            let r = String::new();
            assert(actions_noted(self.action_service, r@, Ok::<Vec<QuickLaunchAction>, AppError>(actions), self.jobs@));
            return r;
        }
        let mut success: usize = 0;
        let mut failed: usize = 0;
        let mut skipped: usize = 0;
        let ghost mut outs: Seq<Seq<Option<AppResult<()>>>> = Seq::empty();
        let mut i: usize = 0;
        while i < actions.len()
            invariant
                i <= actions.len(),
                actions_handled(self.action_service, actions@.take(i as int), self.jobs@, outs),
                actions_total(actions@.take(i as int)) <= usize::MAX ==> success + failed + skipped
                    == actions_total(actions@.take(i as int)) && skipped == actions_skipped(
                    actions@.take(i as int),
                    self.jobs@,
                ) && success == outs_ok(outs) && failed == outs_err(outs),
            decreases actions.len() - i,
        {
            let ghost prefix = actions@.take(i as int);
            let ghost prev = outs;
            assert(actions@.take(i + 1).drop_last() =~= prefix);
            assert(actions@.take(i + 1).last() == actions@[i as int]);
            match TriggerAction::from_ui_value(actions[i].action.as_str()) {
                None => {
                    let n = actions[i].job_ids.len();
                    skipped = skipped.saturating_add(if n > 1 {
                        n
                    } else {
                        1
                    });
                    proof {
                        outs = outs.push(Seq::empty());
                        assert(ok_count(Seq::<Option<AppResult<()>>>::empty()) == 0);
                        assert(err_count(Seq::<Option<AppResult<()>>>::empty()) == 0);
                    }
                },
                Some(trigger) => {
                    let (s, f, k) = self.execute_quicklaunch_action(&actions[i], trigger);
                    let ghost os = choose|os: Seq<Option<AppResult<()>>>|
                        #[trigger] ids_handled(self.action_service, self.jobs@, actions@[i as int].job_ids@, trigger, os)
                            && s == ok_count(os) && f == err_count(os);
                    success = success.saturating_add(s);
                    failed = failed.saturating_add(f);
                    skipped = skipped.saturating_add(k);
                    proof {
                        outs = outs.push(os);
                    }
                },
            }
            assert(outs.drop_last() =~= prev);
            assert(action_handled(self.action_service, actions@[i as int], self.jobs@, outs.last()));
            assert forall|k: int| 0 <= k < i + 1 implies #[trigger] action_handled(
                self.action_service,
                actions@.take(i + 1)[k],
                self.jobs@,
                outs[k],
            ) by {
                if k < i {
                    assert(actions@.take(i + 1)[k] == prefix[k]);
                    assert(outs[k] == prev[k]);
                }
            }
            i = i + 1;
        }
        assert(actions@.take(actions@.len() as int) =~= actions@);
        let mut v: Vec<char> = Vec::new();
        append_str(&mut v, " QuickLaunch actions: ");
        append_str(&mut v, number(success).as_str());
        append_str(&mut v, " success, ");
        append_str(&mut v, number(failed).as_str());
        append_str(&mut v, " failed, ");
        append_str(&mut v, number(skipped).as_str());
        append_str(&mut v, " skipped.");
        let r = from_chars(v.as_slice());
        assert(r@ == quicklaunch_actions_note(success as nat, failed as nat, skipped as nat));
        assert(actions_handled(self.action_service, actions@, self.jobs@, outs));
        assert(actions_noted(self.action_service, r@, Ok::<Vec<QuickLaunchAction>, AppError>(actions), self.jobs@));
        r
    }

    /// Carries out queued QuickLaunch actions while jobs are listed, and lists the jobs
    /// again when any note came of it.
    pub fn poll_quicklaunch_actions(&mut self, scan: &AppResult<Vec<ScannedFile>>)
        ensures
            old(self).jobs@.len() == 0 ==> *final(self) == *old(self),
            old(self).jobs@.len() > 0 ==> exists|
                drained: AppResult<Vec<QuickLaunchAction>>,
                note: Seq<char>,
            |
                #![trigger call_ensures(Q::drain_actions, (&*old(self).quicklaunch_service.provider(),), drained), actions_noted(old(self).action_service, note, drained, old(self).jobs@)]
                call_ensures(
                    Q::drain_actions,
                    (&*old(self).quicklaunch_service.provider(),),
                    drained,
                ) && actions_noted(old(self).action_service, note, drained, old(self).jobs@) && (trim(note).len() == 0
                    ==> *final(self) == *old(self)) && (trim(note).len() > 0
                    ==> final(self).status_message@ == "Auto-applied queued QuickLaunch actions."@
                    + note && Self::listed_again(*old(self), *final(self), *scan)),
    {
        if self.jobs.len() == 0 {
            return;
        }
        let note = self.process_quicklaunch_actions();
        let ghost drained = choose|drained: AppResult<Vec<QuickLaunchAction>>|
            #[trigger] call_ensures(Q::drain_actions, (&*self.quicklaunch_service.provider(),), drained)
                && actions_noted(self.action_service, note@, drained, self.jobs@);
        if trim_chars(&to_chars(note.as_str())).len() == 0 {
            assert(actions_noted(old(self).action_service, note@, drained, old(self).jobs@));
            return;
        }
        self.refresh(scan);
        let ghost mid = *self;
        self.status_message = concat2("Auto-applied queued QuickLaunch actions.", note.as_str());
        assert(Self::refreshed(*old(self), mid, *scan));
        assert(*self == (Self { status_message: self.status_message, ..mid }));
        assert(actions_noted(old(self).action_service, note@, drained, old(self).jobs@));
    }

    fn visible_count_message(prefix: &str, value: &str, visible: usize) -> (r: String)
        ensures
            r@ == prefix@ + value@ + "' ("@ + decimal(visible as nat) + " visible)."@,
    {
        let mut v: Vec<char> = Vec::new();
        append_str(&mut v, prefix);
        append_str(&mut v, value);
        append_str(&mut v, "' (");
        append_str(&mut v, number(visible).as_str());
        append_str(&mut v, " visible).");
        from_chars(v.as_slice())
    }

    /// Selects the job shown at `index` of the list and opens it in the editor.
    pub fn select(&mut self, index: usize)
        requires
            old(self).visible_valid(),
        ensures
            final(self).visible_valid(),
            index >= old(self).visible_indices@.len() ==> final(self).ui_state == old(self).ui_state
                && final(self).status_message == old(self).status_message,
            index < old(self).visible_indices@.len() ==> final(self).ui_state.selected_index == Some(
                old(self).visible_indices@[index as int],
            ) && final(self).status_message@ == "Selected "@ + old(self).jobs@[old(self).visible_indices@[index as int] as int].label@
                && !final(self).advanced_details_visible && final(self).ui_state.pending_delete_index
                is None && final(self).editor_target == Some(
                EditorTarget::Existing { index: old(self).visible_indices@[index as int] },
            ) && final(self).jobs == old(self).jobs,
    {
        if index >= self.visible_indices.len() {
            return;
        }
        let job_index = self.visible_indices[index];
        self.ui_state.select(job_index);
        self.advanced_details_visible = false;
        self.ensure_runtime_details_loaded(job_index);
        self.load_editor_for_existing_job(job_index);
        self.status_message = concat2("Selected ", self.jobs[job_index].label.as_str());
    }

    /// What starting a draft of a new job of `scope` does.
    pub open spec fn new_draft_started(before: Self, after: Self, scope: JobScope) -> bool {
        &&& (after.editor_target == Some(EditorTarget::New { scope }))
        &&& (after.editor_state.label@ == "com.example.new-job"@)
        &&& (after.editor_state.program@ == "/usr/bin/true"@)
        &&& (after.pending_ai_patch_document is None)
        &&& (after.status_message@ == "Preparing new "@ + crate::domain::job::scope_name(scope)
                + " plist draft."@)
        &&& (Self::same_listing(before, after))
    }

    /// Starts a draft of a new job of `scope` in the editor.
    pub fn start_new_job_editor(&mut self, scope: JobScope)
        ensures
            Self::new_draft_started(*old(self), *final(self), scope),
    {
        self.editor_target = Some(EditorTarget::New { scope });
        self.editor_state = EditorState::new_job_draft();
        self.pending_ai_patch_document = None;
        self.pending_ai_actions = Vec::new();
        self.ai_patch_confirmation_required = false;
        self.refresh_editor_preview();
        self.status_message = concat3("Preparing new ", scope.as_str(), " plist draft.");
    }

    /// Filters the list by a search query, trimmed.
    pub fn query_changed(&mut self, query: &str)
        ensures
            final(self).search_query@ == trim(query@),
            final(self).visible_indices@ == expected_visible(*final(self)),
            final(self).visible_valid(),
            final(self).status_message@ == "Applied search filter '"@ + trim(query@) + "' ("@
                + decimal(final(self).visible_indices@.len()) + " visible)."@,
    {
        self.search_query = from_chars(trim_chars(&to_chars(query)).as_slice());
        let preferred = self.selected_job_id();
        self.apply_filters_and_render(preferred);
        let v = self.visible_indices.len();
        self.status_message = Self::visible_count_message(
            "Applied search filter '",
            self.search_query.as_str(),
            v,
        );
    }

    pub fn command_query_changed(&mut self, query: &str)
        ensures
            final(self).command_query@ == query@,
            Self::same_listing(*old(self), *final(self)),
    {
        self.command_query = text(query);
    }

    /// Filters the list by the scope a control names (all scopes for any other value).
    pub fn scope_filter_requested(&mut self, value: &str)
        ensures
            final(self).scope_filter == crate::controller::filters::scope_filter_of(value@),
            final(self).visible_indices@ == expected_visible(*final(self)),
            final(self).visible_valid(),
            final(self).status_message@ == "Applied scope filter '"@ + match final(self).scope_filter {
                Some(f) => crate::controller::filters::scope_filter_label(f),
                None => "all scopes"@,
            } + "' ("@ + decimal(final(self).visible_indices@.len()) + " visible)."@,
    {
        self.scope_filter = ScopeFilter::from_ui_value(value);
        let preferred = self.selected_job_id();
        self.apply_filters_and_render(preferred);
        let v = self.visible_indices.len();
        let scope_text = match self.scope_filter {
            Some(f) => f.label(),
            None => "all scopes",
        };
        self.status_message = Self::visible_count_message("Applied scope filter '", scope_text, v);
    }

    /// Filters the list by the status a control names (any status for other values).
    pub fn status_filter_requested(&mut self, value: &str)
        ensures
            final(self).advanced_filter == (AdvancedFilter {
                status: crate::controller::filters::status_filter_of(value@),
                ..old(self).advanced_filter
            }),
            final(self).scope_filter == old(self).scope_filter,
            final(self).search_query == old(self).search_query,
            final(self).starred_only == old(self).starred_only,
            final(self).jobs == old(self).jobs,
            final(self).visible_indices@ == expected_visible(*final(self)),
            final(self).visible_valid(),
    {
        self.advanced_filter.status = status_filter_from_value(value);
        let preferred = self.selected_job_id();
        self.apply_filters_and_render(preferred);
    }

    /// Moves the disabled-key filter to its next setting.
    pub fn cycle_disabled_filter(&mut self)
        ensures
            final(self).advanced_filter == (AdvancedFilter {
                disabled: crate::domain::filter::next_tri(old(self).advanced_filter.disabled),
                ..old(self).advanced_filter
            }),
            final(self).scope_filter == old(self).scope_filter,
            final(self).search_query == old(self).search_query,
            final(self).starred_only == old(self).starred_only,
            final(self).jobs == old(self).jobs,
            final(self).visible_indices@ == expected_visible(*final(self)),
            final(self).visible_valid(),
    {
        self.advanced_filter.disabled = self.advanced_filter.disabled.cycle();
        self.apply_filters_and_render(None);
    }

    /// Moves the run-at-load filter to its next setting.
    pub fn cycle_run_at_load_filter(&mut self)
        ensures
            final(self).advanced_filter == (AdvancedFilter {
                run_at_load: crate::domain::filter::next_tri(old(self).advanced_filter.run_at_load),
                ..old(self).advanced_filter
            }),
            final(self).scope_filter == old(self).scope_filter,
            final(self).search_query == old(self).search_query,
            final(self).starred_only == old(self).starred_only,
            final(self).jobs == old(self).jobs,
            final(self).visible_indices@ == expected_visible(*final(self)),
            final(self).visible_valid(),
    {
        self.advanced_filter.run_at_load = self.advanced_filter.run_at_load.cycle();
        self.apply_filters_and_render(None);
    }

    /// Moves the keep-alive filter to its next setting.
    pub fn cycle_keep_alive_filter(&mut self)
        ensures
            final(self).advanced_filter == (AdvancedFilter {
                keep_alive: crate::domain::filter::next_tri(old(self).advanced_filter.keep_alive),
                ..old(self).advanced_filter
            }),
            final(self).scope_filter == old(self).scope_filter,
            final(self).search_query == old(self).search_query,
            final(self).starred_only == old(self).starred_only,
            final(self).jobs == old(self).jobs,
            final(self).visible_indices@ == expected_visible(*final(self)),
            final(self).visible_valid(),
    {
        self.advanced_filter.keep_alive = self.advanced_filter.keep_alive.cycle();
        self.apply_filters_and_render(None);
    }

    /// Moves the has-error filter to its next setting.
    pub fn cycle_error_filter(&mut self)
        ensures
            final(self).advanced_filter == (AdvancedFilter {
                has_error: crate::domain::filter::next_tri(old(self).advanced_filter.has_error),
                ..old(self).advanced_filter
            }),
            final(self).scope_filter == old(self).scope_filter,
            final(self).search_query == old(self).search_query,
            final(self).starred_only == old(self).starred_only,
            final(self).jobs == old(self).jobs,
            final(self).visible_indices@ == expected_visible(*final(self)),
            final(self).visible_valid(),
    {
        self.advanced_filter.has_error = self.advanced_filter.has_error.cycle();
        self.apply_filters_and_render(None);
    }

    /// Drops every filter: all scopes, all jobs, no query, the open advanced filter.
    pub fn clear_filters(&mut self)
        ensures
            final(self).scope_filter is None,
            !final(self).starred_only,
            final(self).search_query@.len() == 0,
            final(self).advanced_filter == crate::domain::filter::open_filter(),
            final(self).visible_indices@ == expected_visible(*final(self)),
            final(self).status_message@ == "Cleared filters."@,
    {
        self.scope_filter = None;
        self.starred_only = false;
        self.search_query = String::new();
        self.advanced_filter.clear();
        self.apply_filters_and_render(None);
        self.status_message = text("Cleared filters.");
    }

    /// Shows only starred jobs, or all jobs again.
    pub fn set_starred_only(&mut self, value: bool)
        ensures
            final(self).starred_only == value,
            final(self).visible_indices@ == expected_visible(*final(self)),
            final(self).status_message@ == (if value {
                "Showing starred jobs only."@
            } else {
                "Showing all jobs."@
            }),
    {
        self.starred_only = value;
        let preferred = self.selected_job_id();
        self.apply_filters_and_render(preferred);
        self.status_message = if value {
            text("Showing starred jobs only.")
        } else {
            text("Showing all jobs.")
        };
    }

    pub fn toggle_advanced_details(&mut self)
        ensures
            final(self).advanced_details_visible == !old(self).advanced_details_visible,
            Self::same_listing(*old(self), *final(self)),
    {
        self.advanced_details_visible = !self.advanced_details_visible;
    }

    /// The selected job's position in the list, with the messages for no selection and
    /// for a selection that is gone.
    fn selected_index_checked(&mut self) -> (r: Option<usize>)
        ensures
            Self::same_listing(*old(self), *final(self)),
            final(self).job_service == old(self).job_service,
            final(self).delete_service == old(self).delete_service,
            final(self).runtime_details == old(self).runtime_details,
            final(self).log_service == old(self).log_service,
            final(self).ai_service == old(self).ai_service,
            final(self).plist_service == old(self).plist_service,
            final(self).action_service == old(self).action_service,
            final(self).star_service == old(self).star_service,
            final(self).quicklaunch_service == old(self).quicklaunch_service,
            final(self).editor_state == old(self).editor_state,
            match old(self).ui_state.selected_index {
                None => r is None && final(self).status_message@ == "Select a job first."@,
                Some(i) => if i < old(self).jobs@.len() {
                    r == Some(i) && final(self).status_message == old(self).status_message
                } else {
                    r is None && final(self).status_message@
                        == "Selected job is no longer available."@
                },
            },
    {
        match self.ui_state.selected_index {
            None => {
                self.status_message = text("Select a job first.");
                None
            },
            Some(i) => if i >= self.jobs.len() {
                self.status_message = text("Selected job is no longer available.");
                None
            } else {
                Some(i)
            },
        }
    }

    /// What sending `action` to the selected job does.
    pub open spec fn triggered(before: Self, after: Self, action: TriggerAction, scan: AppResult<Vec<ScannedFile>>) -> bool {
        &&& (match before.ui_state.selected_index {
                None => after.status_message@ == "Select a job first."@,
                Some(i) => if i >= before.jobs@.len() {
                    after.status_message@ == "Selected job is no longer available."@
                        && after.jobs == before.jobs
                } else {
                    &&& after.ui_state.pending_delete_index is None
                    &&& exists|r: AppResult<()>|
                        #[trigger] executed(before.action_service, before.jobs@[i as int], action, r)
                            && match r {
                            Ok(_) => Self::refreshed(before, after, scan),
                            Err(e) => after.status_message@ == action_name(action) + " failed: "@
                                + error_message(e) && after.jobs == before.jobs,
                        }
                    &&& (!before.jobs@[i as int].capabilities.can_trigger ==> after.status_message@
                        == action_name(action) + " failed: "@
                        + crate::service::action_service::trigger_refusal(before.jobs@[i as int]))
                },
            })
    }

    /// Sends an action to the selected job; on success the list is refreshed.
    pub fn trigger(&mut self, action: TriggerAction, scan: &AppResult<Vec<ScannedFile>>)
        ensures
            Self::triggered(*old(self), *final(self), action, *scan),
    {
        let index = match self.selected_index_checked() {
            Some(i) => i,
            None => {
                return;
            },
        };
        self.ui_state.cancel_delete_confirmation();
        let r = self.action_service.execute(&self.jobs[index], action);
        match r {
            Ok(()) => {
                self.status_message = concat2(action.as_str(), " command sent.");
                self.refresh(scan);
            },
            Err(err) => {
                self.status_message = concat3(action.as_str(), " failed: ", err.message().as_str());
            },
        }
        assert(executed(old(self).action_service, old(self).jobs@[index as int], action, r));
    }

    /// Arms the delete of the selected job, which a confirmation must follow.
    pub fn request_delete(&mut self)
        ensures
            match old(self).ui_state.selected_index {
                None => final(self).status_message@ == "Select a job first."@ && final(self).ui_state
                    == old(self).ui_state,
                Some(i) => i < old(self).jobs@.len() ==> final(self).ui_state.pending_delete_index
                    == Some(i) && final(self).status_message@
                    == "Delete requested. Review the warning and confirm deletion."@,
            },
    {
        let index = match self.selected_index_checked() {
            Some(i) => i,
            None => {
                return;
            },
        };
        self.ui_state.begin_delete_confirmation(index);
        self.status_message = text("Delete requested. Review the warning and confirm deletion.");
    }

    /// Disarms a requested delete.
    pub fn cancel_delete(&mut self)
        ensures
            final(self).ui_state.pending_delete_index is None,
            final(self).ui_state.selected_index == old(self).ui_state.selected_index,
            final(self).status_message@ == "Delete request cancelled."@,
    {
        self.ui_state.cancel_delete_confirmation();
        self.status_message = text("Delete request cancelled.");
    }

    /// What confirming the requested delete does.
    pub open spec fn delete_confirmed(before: Self, after: Self, scan: AppResult<Vec<ScannedFile>>) -> bool {
        &&& (after.ui_state.pending_delete_index is None)
        &&& (match before.ui_state.pending_delete_index {
                None => after.status_message@ == "No pending delete request."@ && after.jobs
                    == before.jobs,
                Some(i) => if i >= before.jobs@.len() {
                    after.status_message@ == "Selected job is no longer available."@
                        && after.jobs == before.jobs
                } else {
                    &&& exists|r: AppResult<()>|
                        #[trigger] deleted(before.delete_service, before.jobs@[i as int], r)
                            && match r {
                            Ok(_) => Self::refreshed(before, after, scan),
                            Err(e) => after.status_message@ == "Delete failed: "@ + error_message(e)
                                && after.jobs == before.jobs,
                        }
                    &&& (!before.jobs@[i as int].capabilities.can_delete ==> after.status_message@
                        == "Delete failed: "@ + delete_refusal(before.jobs@[i as int]))
                },
            })
    }

    /// Deletes the job whose delete was requested; without a request nothing is deleted.
    /// On success the list is refreshed.
    pub fn confirm_delete(&mut self, scan: &AppResult<Vec<ScannedFile>>)
        ensures
            Self::delete_confirmed(*old(self), *final(self), *scan),
    {
        let index = match self.ui_state.take_confirmed_delete() {
            Some(i) => i,
            None => {
                self.status_message = text("No pending delete request.");
                return;
            },
        };
        if index >= self.jobs.len() {
            self.status_message = text("Selected job is no longer available.");
            return;
        }
        let r = self.delete_service.delete(&self.jobs[index]);
        match r {
            Ok(()) => {
                self.status_message = text("Job plist deleted successfully.");
                self.refresh(scan);
            },
            Err(err) => {
                self.status_message = concat2("Delete failed: ", err.message().as_str());
            },
        }
        assert(deleted(old(self).delete_service, old(self).jobs@[index as int], r));
    }

    /// What starring or unstarring the selected job does.
    pub open spec fn star_toggled(before: Self, after: Self) -> bool {
        &&& (before.ui_state.selected_index is None ==> after.status_message@
                == "Select a job first."@)
        &&& (after.jobs@.len() == before.jobs@.len())
        &&& (match before.ui_state.selected_index {
                None => true,
                Some(i) => i < before.jobs@.len() ==> {
                let label = before.jobs@[i as int].label@;
                let was = before.star_service.starred().contains(label);
                &&& after.star_service.starred() == crate::service::star_service::toggled(
                    before.star_service.starred(),
                    label,
                )
                &&& exists|saved: &Vec<String>, res: AppResult<()>|
                    #[trigger] call_ensures(
                        S::save_stars,
                        (&*before.star_service.store(), saved),
                        res,
                    ) && crate::service::star_service::label_set(saved@)
                        == after.star_service.starred() && match res {
                        Ok(_) => after.status_message@ == label + " is now "@ + (if was {
                            "unstarred"@
                        } else {
                            "starred"@
                        }) + "."@ && stars_shown(after.jobs@, after.star_service.starred()),
                        Err(e) => after.status_message@ == "Failed to update star: "@
                            + error_message(e),
                    }
                },
            })
    }

    /// Stars or unstars the selected job, then reorders the list keeping it selected.
    pub fn toggle_star(&mut self)
        ensures
            Self::star_toggled(*old(self), *final(self)),
    {
        let index = match self.selected_index_checked() {
            Some(i) => i,
            None => {
                return;
            },
        };
        let id = text(self.jobs[index].id.as_str());
        let label = text(self.jobs[index].label.as_str());
        let ghost before = self.star_service;
        let toggled = self.star_service.toggle(label.as_str());
        let ghost after = self.star_service;
        let ghost (saved, res) = choose|saved: &Vec<String>, res: AppResult<()>|
            #[trigger] call_ensures(S::save_stars, (&*before.store(), saved), res)
                && crate::service::star_service::label_set(saved@) == after.starred() && match res {
                Ok(_) => toggled == Ok::<bool, AppError>(!before.starred().contains(label@)),
                Err(e) => toggled == Err::<bool, AppError>(e),
            };
        match toggled {
            Ok(is_starred) => {
                let mut jobs = Vec::new();
                std::mem::swap(&mut jobs, &mut self.jobs);
                self.star_service.apply_to_jobs(&mut jobs);
                let sorted = sort_jobs(&jobs, true);
                proof {
                    vstd::seq_lib::to_multiset_len(jobs@);
                    vstd::seq_lib::to_multiset_len(sorted@);
                    lemma_stars_survive_reordering(jobs@, sorted@, self.star_service.starred());
                }
                self.jobs = sorted;
                self.apply_filters_and_render(Some(id));
                let status = if is_starred {
                    "starred"
                } else {
                    "unstarred"
                };
                self.status_message = concat3(label.as_str(), " is now ", status);
                let s = concat2(self.status_message.as_str(), ".");
                self.status_message = s;
                assert(call_ensures(S::save_stars, (&*old(self).star_service.store(), saved), res));
            },
            Err(err) => {
                let m = err.message();
                self.status_message = concat2("Failed to update star: ", m.as_str());
                assert(self.status_message@ == "Failed to update star: "@ + error_message(err));
                assert(call_ensures(S::save_stars, (&*old(self).star_service.store(), saved), res));
            },
        }
    }

    /// The selected job's details as text, for the clipboard, its runtime details loaded
    /// first; none without a selection.
    pub fn selected_details_text(&mut self) -> (r: Option<String>)
        ensures
            Self::same_listing(*old(self), *final(self)),
            match old(self).ui_state.selected_index {
                None => r is None && final(self).status_message@ == "Select a job first."@,
                Some(i) => if i < old(self).jobs@.len() {
                    &&& Self::details_loaded(*old(self), *final(self), i)
                    &&& r matches Some(t) && exists|d: JobRuntimeDetails|
                        #[trigger] details_kept(
                            final(self).runtime_details@,
                            old(self).jobs@[i as int].id@,
                            d,
                        ) && t@ == crate::text::join(
                            crate::controller::views::job_detail_lines(old(self).jobs@[i as int], d),
                            "\n"@,
                        )
                } else {
                    r is None && final(self).status_message@
                        == "Selected job is no longer available."@
                },
            },
    {
        let index = match self.selected_index_checked() {
            Some(i) => i,
            None => {
                return None;
            },
        };
        self.ensure_runtime_details_loaded(index);
        let details = self.details_for(index);
        let t = formatted_job_details(&self.jobs[index], &details);
        assert(t@ == crate::text::join(
            crate::controller::views::job_detail_lines(self.jobs@[index as int], details),
            "\n"@,
        ));
        assert(details_kept(self.runtime_details@, old(self).jobs@[index as int].id@, details));
        Some(t)
    }

    /// `after` is `before` listed again from `scan`, with the status line set afterwards.
    pub open spec fn listed_again(before: Self, after: Self, scan: AppResult<Vec<ScannedFile>>) -> bool {
        exists|mid: Self|
            #[trigger] Self::refreshed(before, mid, scan) && after == (Self {
                status_message: after.status_message,
                ..mid
            })
    }

    /// What sending `action` to every triggerable starred job does.
    pub open spec fn batch_triggered(before: Self, after: Self, action: TriggerAction, scan: AppResult<Vec<ScannedFile>>) -> bool {
        let targets = batch_targets(before.jobs@);
        &&& (targets.len() == 0 ==> after.status_message@ == "No triggerable starred jobs found."@
            && after.jobs == before.jobs)
        &&& (targets.len() > 0 ==> exists|rs: Seq<AppResult<()>>|
            #[trigger] batch_sent(before.action_service, targets, action, rs) && Self::listed_again(
                before,
                after,
                scan,
            ) && after.status_message@ == batch_message(
                action,
                results_ok(rs),
                results_err(rs),
                first_failure(targets, rs),
            ))
    }

    /// Sends an action to every starred job that may be triggered, refreshes the list,
    /// and reports how many succeeded and failed, with the first error.
    pub fn trigger_starred_batch(&mut self, action: TriggerAction, scan: &AppResult<Vec<ScannedFile>>)
        ensures
            Self::batch_triggered(*old(self), *final(self), action, *scan),
    {
        let mut targets: Vec<JobSummary> = Vec::new();
        let mut i: usize = 0;
        while i < self.jobs.len()
            invariant
                i <= self.jobs.len(),
                targets@ == batch_targets(self.jobs@.take(i as int)),
            decreases self.jobs.len() - i,
        {
            assert(self.jobs@.take(i + 1).drop_last() =~= self.jobs@.take(i as int));
            if self.jobs[i].is_starred && self.jobs[i].capabilities.can_trigger {
                targets.push(self.jobs[i].duplicate());
            }
            assert(targets@ =~= batch_targets(self.jobs@.take(i + 1)));
            i = i + 1;
        }
        assert(self.jobs@.take(self.jobs@.len() as int) =~= self.jobs@);
        if targets.len() == 0 {
            self.status_message = text("No triggerable starred jobs found.");
            return;
        }
        let mut success: usize = 0;
        let mut failed: usize = 0;
        let mut first_error: Option<String> = None;
        let ghost mut rs: Seq<AppResult<()>> = Seq::empty();
        let mut k: usize = 0;
        while k < targets.len()
            invariant
                k <= targets.len(),
                rs.len() == k,
                forall|j: int| 0 <= j < k ==> #[trigger] executed(self.action_service, targets@[j], action, rs[j]),
                success == results_ok(rs),
                failed == results_err(rs),
                success + failed == k,
                match first_error {
                    Some(e) => first_failure(targets@, rs) == Some(e@),
                    None => first_failure(targets@, rs) is None,
                },
            decreases targets.len() - k,
        {
            let ghost prev = rs;
            let res = self.action_service.execute(&targets[k], action);
            proof {
                rs = rs.push(res);
                assert(rs.drop_last() =~= prev);
            }
            match res {
                Ok(_) => {
                    success = success + 1;
                },
                Err(err) => {
                    failed = failed + 1;
                    if first_error.is_none() {
                        first_error = Some(concat3(targets[k].label.as_str(), ": ", err.message().as_str()));
                    }
                },
            }
            assert forall|j: int| 0 <= j < k + 1 implies #[trigger] executed(self.action_service, targets@[j], action, rs[j]) by {
                if j < k {
                    assert(rs[j] == prev[j]);
                }
            }
            k = k + 1;
        }
        assert(batch_sent(old(self).action_service, batch_targets(old(self).jobs@), action, rs));
        self.refresh(scan);
        let ghost mid = *self;
        let mut v: Vec<char> = Vec::new();
        append_str(&mut v, "Batch ");
        append_str(&mut v, action.as_str());
        append_str(&mut v, " finished: ");
        append_str(&mut v, number(success).as_str());
        append_str(&mut v, " success, ");
        append_str(&mut v, number(failed).as_str());
        append_str(&mut v, " failed.");
        let ghost first_view: Option<Seq<char>> = match &first_error {
            Some(e) => Some(e@),
            None => None,
        };
        match first_error {
            Some(e) => {
                append_str(&mut v, " First error: ");
                append_str(&mut v, e.as_str());
            },
            None => {},
        }
        self.status_message = from_chars(v.as_slice());
        assert(self.status_message@ == batch_message(action, success as nat, failed as nat, first_view));
        assert(Self::refreshed(*old(self), mid, *scan));
        assert(*self == (Self { status_message: self.status_message, ..mid }));
    }

    /// Sets an editor field from what the user typed, trimmed, and updates the preview.
    pub fn editor_field_changed(&mut self, field: EditorField, value: &str)
        ensures
            Self::same_listing(*old(self), *final(self)),
            final(self).editor_target == old(self).editor_target,
            field == EditorField::Label ==> final(self).editor_state.label@ == trim(value@),
            field == EditorField::Program ==> final(self).editor_state.program@ == trim(value@),
            field == EditorField::ProgramArguments ==> final(self).editor_state.program_arguments@
                == trim(value@),
            field == EditorField::WorkingDirectory ==> final(self).editor_state.working_directory@
                == trim(value@),
            field == EditorField::StartInterval ==> final(self).editor_state.start_interval@ == trim(
                value@,
            ),
            field == EditorField::EnvironmentVariables
                ==> final(self).editor_state.environment_variables@ == trim(value@),
            field == EditorField::ExpertEntries ==> final(self).editor_state.expert_entries@ == trim(
                value@,
            ),
    {
        let t = from_chars(trim_chars(&to_chars(value)).as_slice());
        match field {
            EditorField::Label => {
                self.editor_state.label = t;
            },
            EditorField::Program => {
                self.editor_state.program = t;
            },
            EditorField::ProgramArguments => {
                self.editor_state.program_arguments = t;
            },
            EditorField::WorkingDirectory => {
                self.editor_state.working_directory = t;
            },
            EditorField::StartInterval => {
                self.editor_state.start_interval = t;
            },
            EditorField::EnvironmentVariables => {
                self.editor_state.environment_variables = t;
            },
            EditorField::ExpertEntries => {
                self.editor_state.expert_entries = t;
            },
        }
        self.refresh_editor_preview();
    }

    /// Sets a log setting from what the user typed, trimmed.
    pub fn log_setting_changed(&mut self, setting: LogSetting, value: &str)
        ensures
            Self::same_listing(*old(self), *final(self)),
            setting == LogSetting::WindowMinutes ==> final(self).editor_state.log_window_minutes@
                == trim(value@),
            setting == LogSetting::StreamSeconds ==> final(self).editor_state.log_stream_seconds@
                == trim(value@),
            setting == LogSetting::MaxLines ==> final(self).editor_state.log_max_lines@ == trim(
                value@,
            ),
    {
        let t = from_chars(trim_chars(&to_chars(value)).as_slice());
        match setting {
            LogSetting::WindowMinutes => {
                self.editor_state.log_window_minutes = t;
            },
            LogSetting::StreamSeconds => {
                self.editor_state.log_stream_seconds = t;
            },
            LogSetting::MaxLines => {
                self.editor_state.log_max_lines = t;
            },
        }
    }

    pub fn toggle_log_live_mode(&mut self)
        ensures
            final(self).editor_state.log_live_mode == !old(self).editor_state.log_live_mode,
            Self::same_listing(*old(self), *final(self)),
    {
        self.editor_state.log_live_mode = !self.editor_state.log_live_mode;
    }

    pub fn toggle_editor_run_at_load(&mut self)
        ensures
            final(self).editor_state.run_at_load == !old(self).editor_state.run_at_load,
            Self::same_listing(*old(self), *final(self)),
    {
        self.editor_state.run_at_load = !self.editor_state.run_at_load;
        self.refresh_editor_preview();
    }

    pub fn toggle_editor_keep_alive(&mut self)
        ensures
            final(self).editor_state.keep_alive == !old(self).editor_state.keep_alive,
            Self::same_listing(*old(self), *final(self)),
    {
        self.editor_state.keep_alive = !self.editor_state.keep_alive;
        self.refresh_editor_preview();
    }

    /// Searches the launchd key reference.
    pub fn key_panel_query_changed(&mut self, query: &str)
        ensures
            crate::domain::plist_document::def_views(final(self).visible_key_defs@)
                == crate::domain::plist_document::key_search(query@),
            final(self).key_panel_query@ == query@,
    {
        self.key_panel_query = text(query);
        self.visible_key_defs = search_key_defs(query);
    }

    /// Adds the template of the key shown at `index` of the key reference to the editor.
    pub fn add_key_from_panel(&mut self, index: usize)
        ensures
            index >= old(self).visible_key_defs@.len() ==> final(self).status_message == old(self).status_message,
            index < old(self).visible_key_defs@.len() ==> final(self).status_message@
                == "Added key template '"@ + old(self).visible_key_defs@[index as int].key@ + "'."@
                && exists|filled: EditorState|
                crate::controller::editor::template_added(
                    old(self).editor_state,
                    old(self).visible_key_defs@[index as int].key@,
                    filled,
                ) && same_inputs(filled, final(self).editor_state),
            Self::same_listing(*old(self), *final(self)),
            final(self).editor_target == old(self).editor_target,
    {
        if index >= self.visible_key_defs.len() {
            return;
        }
        let def = self.visible_key_defs[index];
        let ghost before = self.editor_state;
        add_key_template(&mut self.editor_state, def.key, &self.plist_service);
        let ghost filled = self.editor_state;
        assert(crate::controller::editor::template_added(before, def.key@, filled));
        self.refresh_editor_preview();
        assert(same_inputs(filled, self.editor_state));
        self.status_message = concat3("Added key template '", def.key, "'.");
        assert(crate::controller::editor::template_added(
            old(self).editor_state,
            old(self).visible_key_defs@[index as int].key@,
            filled,
        ) && same_inputs(filled, self.editor_state));
    }

    /// Takes the AI prompt the user typed; suggested actions from an earlier answer are
    /// dropped.
    pub fn ai_prompt_changed(&mut self, value: &str)
        ensures
            final(self).editor_state.ai_prompt@ == value@,
            final(self).pending_ai_actions@.len() == 0,
    {
        self.editor_state.ai_prompt = text(value);
        self.pending_ai_actions = Vec::new();
    }

    /// The AI assistant's name, which the palette and the provider button show.
    pub fn cycle_ai_provider(&mut self) -> (r: String)
        ensures
            final(self).status_message@ == "Switched AI provider to "@ + r@ + "."@,
            exists|active: &str|
                #[trigger] call_ensures(P::provider_name, (&*old(self).ai_service.provider(),), active)
                    && r@ == active@,
    {
        let active = self.ai_service.active_provider_name();
        let name = text(active);
        self.status_message = concat3("Switched AI provider to ", name.as_str(), ".");
        name
    }

    /// Infers a patch from the prompt and shows its diff, kept until it is applied.
    pub fn preview_ai_patch(&mut self)
        ensures
            !final(self).ai_patch_confirmation_required,
            Self::same_listing(*old(self), *final(self)),
            final(self).editor_target == old(self).editor_target,
            final(self).editor_state == (EditorState {
                ai_diff_preview: final(self).editor_state.ai_diff_preview,
                ..old(self).editor_state
            }),
            final(self).pending_ai_actions == old(self).pending_ai_actions,
            final(self).status_message == old(self).status_message,
            patch_previewed(
                old(self).editor_state,
                final(self).pending_ai_patch_document,
                final(self).editor_state.ai_diff_preview@,
            ),
    {
        let current = match editor_document_from_state(&self.editor_state, &self.plist_service) {
            Ok(d) => d,
            Err(_) => {
                self.pending_ai_patch_document = None;
                self.ai_patch_confirmation_required = false;
                self.editor_state.ai_diff_preview = text(
                    "Cannot build AI patch preview: current editor state is invalid.",
                );
                return;
            },
        };
        let candidate = match ai_patch_candidate_from_prompt(self.editor_state.ai_prompt.as_str(), &current) {
            Some(c) => c,
            None => {
                self.pending_ai_patch_document = None;
                self.ai_patch_confirmation_required = false;
                self.editor_state.ai_diff_preview = text(
                    "No deterministic patch could be inferred from prompt.",
                );
                return;
            },
        };
        if candidate.same_as(&current) {
            self.pending_ai_patch_document = None;
            self.ai_patch_confirmation_required = false;
            self.editor_state.ai_diff_preview = text("AI patch preview detected no effective changes.");
            return;
        }
        let before = match self.plist_service.xml_preview(&current) {
            Ok(x) => x,
            Err(_) => String::new(),
        };
        let after = match self.plist_service.xml_preview(&candidate) {
            Ok(x) => x,
            Err(_) => String::new(),
        };
        self.editor_state.ai_diff_preview = build_line_diff(before.as_str(), after.as_str());
        self.pending_ai_patch_document = Some(candidate);
        self.ai_patch_confirmation_required = false;
    }

    /// Asks the AI assistant about the prompt and the current plist, shows its answer and
    /// previews the patch the prompt asks for.
    pub fn run_ai_assistant(&mut self)
        ensures
            Self::same_listing(*old(self), *final(self)),
            trim(old(self).editor_state.ai_prompt@).len() == 0 ==> final(self).status_message@
                == "Please enter AI prompt first."@,
            trim(old(self).editor_state.ai_prompt@).len() > 0 ==> exists|
                request: crate::adapter::ai::provider::AiEditRequest,
                res: AppResult<crate::adapter::ai::provider::AiStreamResponse>,
            |
                #[trigger] call_ensures(
                    P::suggest_edit_with_stream,
                    (&*old(self).ai_service.provider(), &request),
                    res,
                ) && request.user_prompt@ == old(self).editor_state.ai_prompt@
                    && request.xml_snapshot@ == final(self).editor_state.xml_preview@ && (trim(
                    old(self).editor_state.xml_preview@,
                ).len() > 0 ==> final(self).editor_state.xml_preview == old(
                    self,
                ).editor_state.xml_preview) && (trim(old(self).editor_state.xml_preview@).len()
                    == 0 ==> preview_refreshed(old(self).editor_state, final(self).editor_state))
                    && !final(self).ai_patch_confirmation_required && match res {
                    Err(e) => final(self).status_message@ == "AI request failed: "@ + error_message(e)
                        && final(self).editor_state.ai_response@ == "AI request failed: "@
                        + error_message(e) && final(self).pending_ai_patch_document is None
                        && final(self).pending_ai_actions@.len() == 0
                        && final(self).editor_state.ai_diff_preview@.len() == 0,
                    Ok(stream) => final(self).status_message@ == "AI suggestions updated."@
                        && final(self).editor_state.ai_response@ == ai_answer_text(stream)
                        && final(self).pending_ai_actions@ == actions_of_names(
                        crate::text::str_views(stream.response.suggested_actions@),
                    ) && patch_previewed(
                        old(self).editor_state,
                        final(self).pending_ai_patch_document,
                        final(self).editor_state.ai_diff_preview@,
                    ),
                },
    {
        if trim_chars(&to_chars(self.editor_state.ai_prompt.as_str())).len() == 0 {
            self.status_message = text("Please enter AI prompt first.");
            return;
        }
        if trim_chars(&to_chars(self.editor_state.xml_preview.as_str())).len() == 0 {
            self.refresh_editor_preview();
        }
        let ghost asked = self.editor_state;
        let res = self.ai_service.suggest_edit_with_stream(
            self.editor_state.ai_prompt.as_str(),
            self.editor_state.xml_preview.as_str(),
        );
        let ghost request = choose|request: crate::adapter::ai::provider::AiEditRequest|
            crate::service::ai_service::asks(request, asked.ai_prompt@, asked.xml_preview@)
                && call_ensures(P::suggest_edit_with_stream, (&*self.ai_service.provider(), &request), res);
        assert(call_ensures(P::suggest_edit_with_stream, (&*old(self).ai_service.provider(), &request), res));
        match res {
            Ok(stream) => {
                self.editor_state.ai_response = ai_response_text(&stream);
                let ghost names = crate::text::str_views(stream.response.suggested_actions@);
                let mut actions: Vec<TriggerAction> = Vec::new();
                let mut i: usize = 0;
                while i < stream.response.suggested_actions.len()
                    invariant
                        i <= stream.response.suggested_actions.len(),
                        names == crate::text::str_views(stream.response.suggested_actions@),
                        actions@ == actions_of_names(names.take(i as int)),
                    decreases stream.response.suggested_actions.len() - i,
                {
                    assert(names.take(i + 1).drop_last() =~= names.take(i as int));
                    match TriggerAction::from_ui_value(stream.response.suggested_actions[i].as_str()) {
                        Some(a) => actions.push(a),
                        None => {},
                    }
                    i = i + 1;
                }
                assert(names.take(names.len() as int) =~= names);
                self.pending_ai_actions = actions;
                self.preview_ai_patch();
                self.status_message = text("AI suggestions updated.");
                assert(self.editor_state.ai_response@ == ai_answer_text(stream));
            },
            Err(err) => {
                let m = err.message();
                self.editor_state.ai_response = concat2("AI request failed: ", m.as_str());
                self.pending_ai_patch_document = None;
                self.pending_ai_actions = Vec::new();
                self.ai_patch_confirmation_required = false;
                self.editor_state.ai_diff_preview = String::new();
                self.status_message = concat2("AI request failed: ", m.as_str());
                assert(self.status_message@ == "AI request failed: "@ + error_message(err));
            },
        }
    }

    /// Asks to apply the previewed patch, which a confirmation must follow.
    pub fn request_apply_ai_patch(&mut self)
        ensures
            old(self).pending_ai_patch_document is None ==> final(self).status_message@
                == "No AI patch preview available."@ && final(self).ai_patch_confirmation_required
                == old(self).ai_patch_confirmation_required,
            old(self).pending_ai_patch_document is Some ==> final(self).ai_patch_confirmation_required
                && final(self).status_message@
                == "AI patch ready. Click confirm to apply to editor."@,
            final(self).pending_ai_patch_document == old(self).pending_ai_patch_document,
    {
        if self.pending_ai_patch_document.is_none() {
            self.status_message = text("No AI patch preview available.");
            return;
        }
        self.ai_patch_confirmation_required = true;
        self.status_message = text("AI patch ready. Click confirm to apply to editor.");
    }

    /// Applies the previewed patch to the editor, once its application was requested.
    pub fn confirm_apply_ai_patch(&mut self)
        ensures
            !old(self).ai_patch_confirmation_required ==> final(self).status_message@
                == "No pending AI patch confirmation."@ && final(self).editor_state == old(self).editor_state,
            old(self).ai_patch_confirmation_required ==> match old(self).pending_ai_patch_document {
                None => final(self).status_message@ == "No AI patch data available."@,
                Some(d) => final(self).status_message@
                    == "AI patch applied to editor. Review and click Save when ready."@
                    && final(self).pending_ai_patch_document is None
                    && !final(self).ai_patch_confirmation_required
                    && final(self).editor_state.label@ == d@.label
                    && final(self).editor_state.program@ == d@.program,
            },
    {
        if !self.ai_patch_confirmation_required {
            self.status_message = text("No pending AI patch confirmation.");
            return;
        }
        let document = match &self.pending_ai_patch_document {
            Some(d) => d.duplicate(),
            None => {
                self.status_message = text("No AI patch data available.");
                return;
            },
        };
        self.editor_state = EditorState::from_document(&document, &self.plist_service);
        self.pending_ai_patch_document = None;
        self.ai_patch_confirmation_required = false;
        self.editor_state.ai_diff_preview = String::new();
        self.refresh_editor_preview();
        self.status_message = text("AI patch applied to editor. Review and click Save when ready.");
    }

    /// What running the AI's suggested actions on the selected job does.
    pub open spec fn ai_actions_run(before: Self, after: Self, scan: AppResult<Vec<ScannedFile>>) -> bool {
        &&& (before.pending_ai_actions@.len() == 0 ==> after.status_message@
                == "No AI suggested actions available."@)
        &&& (before.pending_ai_actions@.len() > 0 ==> match before.ui_state.selected_index {
                None => after.status_message@ == "Select a job first to run AI actions."@
                    && after.pending_ai_actions == before.pending_ai_actions,
                Some(i) => if i >= before.jobs@.len() {
                    after.status_message@ == "Selected job is no longer available."@
                        && after.pending_ai_actions == before.pending_ai_actions
                } else {
                    after.pending_ai_actions@.len() == 0 && exists|rs: Seq<AppResult<()>>|
                        #[trigger] actions_sent(
                            before.action_service,
                            before.jobs@[i as int],
                            before.pending_ai_actions@,
                            rs,
                        ) && (exists|mid: Self|
                            #[trigger] Self::refreshed(before, mid, scan) && after == (Self {
                                status_message: after.status_message,
                                pending_ai_actions: after.pending_ai_actions,
                                ..mid
                            })) && after.status_message@ == "AI actions finished: "@ + decimal(
                            results_ok(rs),
                        ) + " success, "@ + decimal(results_err(rs)) + " failed."@
                },
            })
    }

    /// Sends the AI's suggested actions to the selected job, then refreshes the list.
    pub fn run_ai_suggested_actions(&mut self, scan: &AppResult<Vec<ScannedFile>>)
        ensures
            Self::ai_actions_run(*old(self), *final(self), *scan),
    {
        if self.pending_ai_actions.len() == 0 {
            self.status_message = text("No AI suggested actions available.");
            return;
        }
        let index = match self.ui_state.selected_index {
            Some(i) => i,
            None => {
                self.status_message = text("Select a job first to run AI actions.");
                return;
            },
        };
        if index >= self.jobs.len() {
            self.status_message = text("Selected job is no longer available.");
            return;
        }
        let job = self.jobs[index].duplicate();
        let mut success: usize = 0;
        let mut failed: usize = 0;
        let ghost mut rs: Seq<AppResult<()>> = Seq::empty();
        let mut i: usize = 0;
        while i < self.pending_ai_actions.len()
            invariant
                i <= self.pending_ai_actions.len(),
                rs.len() == i,
                forall|j: int| 0 <= j < i ==> #[trigger] executed(self.action_service, job, self.pending_ai_actions@[j], rs[j]),
                success == results_ok(rs),
                failed == results_err(rs),
                success + failed == i,
            decreases self.pending_ai_actions.len() - i,
        {
            let ghost prev = rs;
            let res = self.action_service.execute(&job, self.pending_ai_actions[i]);
            proof {
                rs = rs.push(res);
                assert(rs.drop_last() =~= prev);
            }
            match res {
                Ok(_) => {
                    success = success + 1;
                },
                Err(_) => {
                    failed = failed + 1;
                },
            }
            assert forall|j: int| 0 <= j < i + 1 implies #[trigger] executed(self.action_service, job, self.pending_ai_actions@[j], rs[j]) by {
                if j < i {
                    assert(rs[j] == prev[j]);
                }
            }
            i = i + 1;
        }
        assert(actions_sent(old(self).action_service, old(self).jobs@[index as int], old(self).pending_ai_actions@, rs));
        self.refresh(scan);
        let ghost mid = *self;
        self.pending_ai_actions = Vec::new();
        let mut v: Vec<char> = Vec::new();
        append_str(&mut v, "AI actions finished: ");
        append_str(&mut v, number(success).as_str());
        append_str(&mut v, " success, ");
        append_str(&mut v, number(failed).as_str());
        append_str(&mut v, " failed.");
        self.status_message = from_chars(v.as_slice());
        assert(self.status_message@ == "AI actions finished: "@ + decimal(success as nat)
            + " success, "@ + decimal(failed as nat) + " failed."@);
        assert(Self::refreshed(*old(self), mid, *scan));
        assert(*self == (Self { status_message: self.status_message, pending_ai_actions: self.pending_ai_actions, ..mid }));
    }

    /// What loading the selected job's logs does.
    pub open spec fn logs_loaded(before: Self, after: Self) -> bool {
        &&& (Self::same_listing(before, after))
        &&& (after.editor_state == before.editor_state)
        &&& (match before.ui_state.selected_index {
                None => after.status_message@ == "Select a job first."@,
                Some(i) => if i < before.jobs@.len() {
                    exists|res: AppResult<String>|
                        logs_fetched(
                            res,
                            before.editor_state,
                            after.recent_logs_text@,
                            after.status_message@,
                        ) && logs_asked(
                            &*before.log_service.client(),
                            before.jobs@[i as int].label@,
                            before.editor_state,
                            res,
                        ) && after.log_view_text@ == after.recent_logs_text@
                } else {
                    after.status_message@ == "Selected job is no longer available."@
                },
            })
    }

    /// Loads the selected job's logs, from the recent past or live, as the log settings
    /// say (10 minutes, 5 seconds, 120 lines where a setting is not a positive number).
    pub fn load_recent_logs(&mut self)
        ensures
            Self::logs_loaded(*old(self), *final(self)),
    {
        let index = match self.selected_index_checked() {
            Some(i) => i,
            None => {
                return;
            },
        };
        let minutes = log_setting_u32(self.editor_state.log_window_minutes.as_str(), 10);
        let max_lines = log_setting_usize(self.editor_state.log_max_lines.as_str(), 120);
        let seconds = log_setting_u32(self.editor_state.log_stream_seconds.as_str(), 5);
        let live = self.editor_state.log_live_mode;
        let l = self.jobs[index].label.as_str();
        let result = if live {
            self.log_service.live_logs(l, seconds, max_lines)
        } else {
            self.log_service.recent_logs(l, minutes, max_lines)
        };
        assert(logs_asked(&*self.log_service.client(), l@, self.editor_state, result));
        let (shown, status) = logs_view(&result, live, seconds, minutes, max_lines);
        self.log_view_text = text(shown.as_str());
        self.recent_logs_text = shown;
        self.status_message = status;
        assert(logs_fetched(result, self.editor_state, self.recent_logs_text@, self.status_message@)
            && logs_asked(
            &*old(self).log_service.client(),
            old(self).jobs@[index as int].label@,
            old(self).editor_state,
            result,
        ));
    }

    /// What the status line says after saving the editor's document with the given
    /// follow-ups: the editor's refusal, a missing or vanished target, the save's failure,
    /// or the report of the save and of each follow-up.
    pub open spec fn save_reported(before: Self, after: Self, should_load: bool, should_enable: bool) -> bool {
        match crate::controller::editor::document_of_editor(before.editor_state) {
            Err(m) => after.status_message@ == "Editor validation failed: "@ + m,
            Ok(doc) => match before.editor_target {
                None => after.status_message@ == "Select a job or create a new draft first."@,
                Some(EditorTarget::Existing { index }) => if index >= before.jobs@.len() {
                    after.status_message@ == "Selected job is no longer available."@
                } else {
                    let job = before.jobs@[index as int];
                    exists|d: StandardPlistDocument, p: &str, saved: AppResult<()>|
                        #![trigger crate::service::plist_service::saved_over(&*before.plist_service.store(), p, job.scope, &d, saved)]
                        d@ == doc && p@ == job.path@ && crate::service::plist_service::saved_over(
                            &*before.plist_service.store(),
                            p,
                            job.scope,
                            &d,
                            saved,
                        ) && match saved {
                            Err(e) => after.status_message@ == "Save failed: "@ + error_message(e),
                            Ok(_) => Self::followed_up(
                                before,
                                after,
                                job.scope,
                                doc.label,
                                job.path@,
                                should_load,
                                should_enable,
                            ),
                        }
                },
                Some(EditorTarget::New { scope }) => exists|
                    d: StandardPlistDocument,
                    created: AppResult<String>,
                |
                    #![trigger crate::service::plist_service::created_as_new(&*before.plist_service.store(), before.plist_service.home(), scope, &d, created)]
                    d@ == doc && crate::service::plist_service::created_as_new(
                        &*before.plist_service.store(),
                        before.plist_service.home(),
                        scope,
                        &d,
                        created,
                    ) && match created {
                        Err(e) => after.status_message@ == "Create failed: "@ + error_message(e),
                        Ok(path) => Self::followed_up(
                            before,
                            after,
                            scope,
                            doc.label,
                            path@,
                            should_load,
                            should_enable,
                        ),
                    },
            },
        }
    }

    /// After a save, the load and enable that were asked for ran through the action
    /// service on a job with the saved label, path and scope, and the status reports them.
    pub open spec fn followed_up(
        before: Self,
        after: Self,
        scope: JobScope,
        label: Seq<char>,
        path: Seq<char>,
        should_load: bool,
        should_enable: bool,
    ) -> bool {
        exists|saved_job: JobSummary, l: AppResult<()>, n: AppResult<()>|
            #![trigger saved_message(should_load, l, should_enable, n), saved_job.label]
            saved_job.label@ == label && saved_job.path@ == path && saved_job.scope == scope && (
            saved_job.capabilities.can_trigger <==> scope != JobScope::SystemDaemon) && (should_load
                ==> crate::service::action_service::executed(
                before.action_service,
                saved_job,
                TriggerAction::Load,
                l,
            )) && (should_enable ==> crate::service::action_service::executed(
                before.action_service,
                saved_job,
                TriggerAction::Enable,
                n,
            )) && after.status_message@ == saved_message(should_load, l, should_enable, n)
    }

    /// Saves the editor's document over the edited plist or as a new one, then loads and
    /// enables the job where asked, refreshes the list and reports each step.
    pub fn save_editor_with_post_actions(
        &mut self,
        should_load: bool,
        should_enable: bool,
        scan: &AppResult<Vec<ScannedFile>>,
    )
        ensures
            Self::save_reported(*old(self), *final(self), should_load, should_enable),
    {
        let document = match editor_document_from_state(&self.editor_state, &self.plist_service) {
            Ok(d) => d,
            Err(m) => {
                self.status_message = concat2("Editor validation failed: ", m.as_str());
                return;
            },
        };
        let target = match self.editor_target {
            Some(t) => t,
            None => {
                self.status_message = text("Select a job or create a new draft first.");
                return;
            },
        };
        let ghost mut saved_g: AppResult<()> = Ok(());
        let ghost mut path_g: &str = vstd::pervasive::arbitrary();
        let ghost mut created_g: AppResult<String> = vstd::pervasive::arbitrary();
        let post_action_job: JobSummary = match target {
            EditorTarget::Existing { index } => {
                if index >= self.jobs.len() {
                    self.status_message = text("Selected job is no longer available.");
                    return;
                }
                let job = &self.jobs[index];
                let p = job.path.as_str();
                let saved = self.plist_service.save_existing(p, &job.scope, &document);
                proof {
                    saved_g = saved;
                    path_g = p;
                }
                match saved {
                    Ok(_) => JobSummary {
                        id: text(job.id.as_str()),
                        label: text(document.label.as_str()),
                        path: text(job.path.as_str()),
                        scope: job.scope,
                        status: job.status,
                        is_starred: job.is_starred,
                        metadata: job.metadata,
                        capabilities: compute_capabilities(&job.scope, job.capabilities.can_delete),
                        error: None,
                    },
                    Err(err) => {
                        self.status_message = concat2("Save failed: ", err.message().as_str());
                        assert(self.status_message@ == "Save failed: "@ + error_message(err));
                        assert(crate::service::plist_service::saved_over(
                            &*old(self).plist_service.store(),
                            path_g,
                            old(self).jobs@[index as int].scope,
                            &document,
                            saved_g,
                        ));
                        return;
                    },
                }
            },
            EditorTarget::New { scope } => {
                let created = self.plist_service.create_new(scope, &document);
                proof {
                    created_g = created;
                }
                match created {
                    Ok(path) => JobSummary {
                        id: text(path.as_str()),
                        label: text(document.label.as_str()),
                        path,
                        scope,
                        status: JobStatus::Unknown,
                        is_starred: false,
                        metadata: JobMetadata::default(),
                        capabilities: compute_capabilities(&scope, true),
                        error: None,
                    },
                    Err(err) => {
                        self.status_message = concat2("Create failed: ", err.message().as_str());
                        assert(self.status_message@ == "Create failed: "@ + error_message(err));
                        assert(crate::service::plist_service::created_as_new(
                            &*old(self).plist_service.store(),
                            old(self).plist_service.home(),
                            scope,
                            &document,
                            created_g,
                        ));
                        return;
                    },
                }
            },
        };
        let load_result = if should_load {
            Some(self.action_service.execute(&post_action_job, TriggerAction::Load))
        } else {
            None
        };
        let enable_result = if should_enable {
            Some(self.action_service.execute(&post_action_job, TriggerAction::Enable))
        } else {
            None
        };
        self.refresh(scan);
        let mut v: Vec<char> = Vec::new();
        append_str(&mut v, "Saved plist changes.");
        if should_load {
            match &load_result {
                Some(Ok(())) => append_str(&mut v, " Load: success."),
                Some(Err(err)) => {
                    append_str(&mut v, " Load failed: ");
                    append_str(&mut v, err.message().as_str());
                    append_str(&mut v, ".");
                },
                None => append_str(&mut v, " Load skipped."),
            }
        }
        if should_enable {
            match &enable_result {
                Some(Ok(())) => append_str(&mut v, " Enable: success."),
                Some(Err(err)) => {
                    append_str(&mut v, " Enable failed: ");
                    append_str(&mut v, err.message().as_str());
                    append_str(&mut v, ".");
                },
                None => append_str(&mut v, " Enable skipped."),
            }
        }
        self.status_message = from_chars(v.as_slice());
        let ghost l: AppResult<()> = match load_result {
            Some(r) => r,
            None => Ok(()),
        };
        let ghost n: AppResult<()> = match enable_result {
            Some(r) => r,
            None => Ok(()),
        };
        assert(self.status_message@ == saved_message(should_load, l, should_enable, n));
        assert(should_load ==> crate::service::action_service::executed(
            old(self).action_service,
            post_action_job,
            TriggerAction::Load,
            l,
        ));
        assert(should_enable ==> crate::service::action_service::executed(
            old(self).action_service,
            post_action_job,
            TriggerAction::Enable,
            n,
        ));
        assert(post_action_job.capabilities.can_trigger <==> post_action_job.scope
            != JobScope::SystemDaemon);
        match target {
            EditorTarget::Existing { index } => {
                assert(crate::service::plist_service::saved_over(
                    &*old(self).plist_service.store(),
                    path_g,
                    old(self).jobs@[index as int].scope,
                    &document,
                    saved_g,
                ));
                assert(post_action_job.label@ == document@.label && post_action_job.path@
                    == old(self).jobs@[index as int].path@ && post_action_job.scope == old(
                    self,
                ).jobs@[index as int].scope);
                assert(Self::followed_up(
                    *old(self),
                    *self,
                    old(self).jobs@[index as int].scope,
                    document@.label,
                    old(self).jobs@[index as int].path@,
                    should_load,
                    should_enable,
                ));
            },
            EditorTarget::New { scope } => {
                assert(crate::service::plist_service::created_as_new(
                    &*old(self).plist_service.store(),
                    old(self).plist_service.home(),
                    scope,
                    &document,
                    created_g,
                ));
                assert(created_g matches Ok(x) && x@ == post_action_job.path@);
                assert(Self::followed_up(
                    *old(self),
                    *self,
                    scope,
                    document@.label,
                    post_action_job.path@,
                    should_load,
                    should_enable,
                ));
            },
        }
    }

    /// Saves the editor's document.
    pub fn save_editor(&mut self, scan: &AppResult<Vec<ScannedFile>>)
        ensures
            Self::save_reported(*old(self), *final(self), false, false),
    {
        self.save_editor_with_post_actions(false, false, scan);
    }

    /// Saves the editor's document and loads the job.
    pub fn save_editor_and_load(&mut self, scan: &AppResult<Vec<ScannedFile>>)
        ensures
            Self::save_reported(*old(self), *final(self), true, false),
    {
        self.save_editor_with_post_actions(true, false, scan);
    }

    /// Saves the editor's document, loads the job and enables it.
    pub fn save_editor_load_enable(&mut self, scan: &AppResult<Vec<ScannedFile>>)
        ensures
            Self::save_reported(*old(self), *final(self), true, true),
    {
        self.save_editor_with_post_actions(true, true, scan);
    }

    /// Carries out the command typed in the palette.
    pub fn run_command_palette(&mut self, scan: &AppResult<Vec<ScannedFile>>)
        ensures
            match crate::controller::views::palette_command_of(old(self).command_query@) {
                crate::controller::views::PaletteView::Refresh => Self::refreshed(*old(self), *final(self), *scan),
                crate::controller::views::PaletteView::Trigger(a) => Self::triggered(*old(self), *final(self), a, *scan),
                crate::controller::views::PaletteView::TriggerStarred(a) => Self::batch_triggered(
                    *old(self),
                    *final(self),
                    a,
                    *scan,
                ),
                crate::controller::views::PaletteView::Save => Self::save_reported(*old(self), *final(self), false, false),
                crate::controller::views::PaletteView::SaveLoad => Self::save_reported(*old(self), *final(self), true, false),
                crate::controller::views::PaletteView::SaveLoadEnable => Self::save_reported(
                    *old(self),
                    *final(self),
                    true,
                    true,
                ),
                crate::controller::views::PaletteView::RunAiActions => Self::ai_actions_run(*old(self), *final(self), *scan),
                crate::controller::views::PaletteView::Logs => Self::logs_loaded(*old(self), *final(self)),
                crate::controller::views::PaletteView::LogsLive => Self::logs_loaded(
                    Self {
                        editor_state: EditorState { log_live_mode: true, ..old(self).editor_state },
                        ..*old(self)
                    },
                    *final(self),
                ),
                crate::controller::views::PaletteView::LogsHistory => Self::logs_loaded(
                    Self {
                        editor_state: EditorState { log_live_mode: false, ..old(self).editor_state },
                        ..*old(self)
                    },
                    *final(self),
                ),
                crate::controller::views::PaletteView::ToggleStar => Self::star_toggled(*old(self), *final(self)),
                crate::controller::views::PaletteView::NewJob(scope) => Self::new_draft_started(*old(self), *final(self), scope),
                _ => true,
            },
            crate::controller::views::palette_command_of(old(self).command_query@)
                is Empty ==> final(self).status_message@ == "Type a command first."@,
            crate::controller::views::palette_command_of(old(self).command_query@)
                is ProviderUsage ==> final(self).status_message@ == "Usage: provider <name>"@,
            crate::controller::views::palette_command_of(old(self).command_query@) matches crate::controller::views::PaletteView::Unknown(n)
                ==> final(self).status_message@ == "Unknown command '"@ + n
                + "'. Try: refresh/start/stop/restart/enable/load/new user/save/ai actions/logs/logs live/start starred"@,
            crate::controller::views::palette_command_of(old(self).command_query@) matches crate::controller::views::PaletteView::SwitchProvider(n)
                ==> exists|active: &str|
                #[trigger] call_ensures(P::provider_name, (&*old(self).ai_service.provider(),), active)
                    && if n == active@ {
                    final(self).status_message@ == "Switched AI provider to "@ + n + "."@
                } else {
                    final(self).status_message@ == "Unknown provider '"@ + n + "'. Available: "@
                        + active@
                },
            crate::controller::views::palette_command_of(old(self).command_query@)
                is ListProviders ==> exists|active: &str|
                #[trigger] call_ensures(P::provider_name, (&*old(self).ai_service.provider(),), active)
                    && final(self).status_message@ == "Available AI providers: "@ + active@,
            crate::controller::views::palette_command_of(old(self).command_query@) matches crate::controller::views::PaletteView::NewJob(scope)
                ==> final(self).editor_target == Some(EditorTarget::New { scope })
                && final(self).status_message@ == "Preparing new "@
                + crate::domain::job::scope_name(scope) + " plist draft."@,
            old(self).ui_state.selected_index is None && (crate::controller::views::palette_command_of(
                old(self).command_query@,
            ) is Trigger || crate::controller::views::palette_command_of(old(self).command_query@)
                is ToggleStar || crate::controller::views::palette_command_of(old(self).command_query@)
                is Logs || crate::controller::views::palette_command_of(old(self).command_query@)
                is LogsLive || crate::controller::views::palette_command_of(old(self).command_query@)
                is LogsHistory) ==> final(self).status_message@ == "Select a job first."@,
            crate::controller::views::palette_command_of(old(self).command_query@) is TriggerStarred
                && batch_targets(old(self).jobs@).len() == 0 ==> final(self).status_message@
                == "No triggerable starred jobs found."@,
            crate::controller::views::palette_command_of(old(self).command_query@) is RunAiActions
                && old(self).pending_ai_actions@.len() == 0 ==> final(self).status_message@
                == "No AI suggested actions available."@,
    {
        let command = parse_palette_command(self.command_query.as_str());
        match command {
            PaletteCommand::Empty => {
                self.status_message = text("Type a command first.");
            },
            PaletteCommand::ProviderUsage => {
                self.status_message = text("Usage: provider <name>");
            },
            PaletteCommand::SwitchProvider(name) => {
                let active = self.ai_service.active_provider_name();
                if str_eq(name.as_str(), active) {
                    self.status_message = concat3("Switched AI provider to ", name.as_str(), ".");
                } else {
                    let mut v: Vec<char> = Vec::new();
                    append_str(&mut v, "Unknown provider '");
                    append_str(&mut v, name.as_str());
                    append_str(&mut v, "'. Available: ");
                    append_str(&mut v, active);
                    self.status_message = from_chars(v.as_slice());
                }
            },
            PaletteCommand::ListProviders => {
                let active = self.ai_service.active_provider_name();
                self.status_message = concat2("Available AI providers: ", active);
            },
            PaletteCommand::Refresh => self.refresh(scan),
            PaletteCommand::Trigger(action) => self.trigger(action, scan),
            PaletteCommand::TriggerStarred(action) => self.trigger_starred_batch(action, scan),
            PaletteCommand::Save => self.save_editor(scan),
            PaletteCommand::SaveLoad => self.save_editor_and_load(scan),
            PaletteCommand::SaveLoadEnable => self.save_editor_load_enable(scan),
            PaletteCommand::RunAiActions => self.run_ai_suggested_actions(scan),
            PaletteCommand::Logs => self.load_recent_logs(),
            PaletteCommand::LogsLive => {
                self.editor_state.log_live_mode = true;
                self.load_recent_logs();
            },
            PaletteCommand::LogsHistory => {
                self.editor_state.log_live_mode = false;
                self.load_recent_logs();
            },
            PaletteCommand::ToggleStar => self.toggle_star(),
            PaletteCommand::NewJob(scope) => self.start_new_job_editor(scope),
            PaletteCommand::Unknown(n) => {
                let mut v: Vec<char> = Vec::new();
                append_str(&mut v, "Unknown command '");
                append_str(&mut v, n.as_str());
                append_str(
                    &mut v,
                    "'. Try: refresh/start/stop/restart/enable/load/new user/save/ai actions/logs/logs live/start starred",
                );
                self.status_message = from_chars(v.as_slice());
            },
        }
    }

    /// The lines of the list, one per shown job.
    pub fn job_lines(&self) -> (r: Vec<String>)
        requires
            self.visible_valid(),
        ensures
            r@.len() == self.visible_indices@.len(),
            forall|k: int|
                0 <= k < r@.len() ==> (#[trigger] r@[k])@ == crate::domain::job::list_line_of(
                    self.jobs@[self.visible_indices@[k] as int],
                ),
    {
        let mut r: Vec<String> = Vec::new();
        let mut k: usize = 0;
        while k < self.visible_indices.len()
            invariant
                k <= self.visible_indices.len(),
                self.visible_valid(),
                r@.len() == k,
                forall|j: int|
                    0 <= j < k ==> (#[trigger] r@[j])@ == crate::domain::job::list_line_of(
                        self.jobs@[self.visible_indices@[j] as int],
                    ),
            decreases self.visible_indices.len() - k,
        {
            let i = self.visible_indices[k];
            r.push(self.jobs[i].list_line());
            k = k + 1;
        }
        r
    }

    /// The lines of the key reference, `key — note` each.
    pub fn key_panel_lines(&self) -> (r: Vec<String>)
        ensures
            r@.len() == self.visible_key_defs@.len(),
            forall|k: int|
                0 <= k < r@.len() ==> (#[trigger] r@[k])@ == self.visible_key_defs@[k].key@
                    + " — "@ + self.visible_key_defs@[k].note@,
    {
        let mut r: Vec<String> = Vec::new();
        let mut k: usize = 0;
        while k < self.visible_key_defs.len()
            invariant
                k <= self.visible_key_defs.len(),
                r@.len() == k,
                forall|j: int|
                    0 <= j < k ==> (#[trigger] r@[j])@ == self.visible_key_defs@[j].key@ + " — "@
                        + self.visible_key_defs@[j].note@,
            decreases self.visible_key_defs.len() - k,
        {
            let d = self.visible_key_defs[k];
            r.push(concat3(d.key, " — ", d.note));
            k = k + 1;
        }
        r
    }

    /// What the editor is editing, in words.
    pub fn editor_target_text(&self) -> (r: String)
        ensures
            self.editor_target is None ==> r@ == "No editor target selected"@,
            self.editor_target matches Some(EditorTarget::New { scope }) ==> r@ == "Creating new "@
                + crate::domain::job::scope_name(scope) + " plist"@,
    {
        match self.editor_target {
            Some(EditorTarget::Existing { index }) => if index < self.jobs.len() {
                concat2("Editing existing: ", self.jobs[index].path.as_str())
            } else {
                text("Editing existing job")
            },
            Some(EditorTarget::New { scope }) => concat3("Creating new ", scope.as_str(), " plist"),
            None => text("No editor target selected"),
        }
    }

    /// The detail pane for the selected job, or an empty one.
    pub fn selection_view(&self) -> (r: SelectionDetails)
        ensures
            match self.ui_state.selected_index {
                None => crate::controller::views::details_cleared(r),
                Some(i) => if i >= self.jobs@.len() {
                    crate::controller::views::details_cleared(r)
                } else {
                    exists|d: JobRuntimeDetails, row: int|
                        #![trigger crate::controller::views::details_show(r, self.jobs@[i as int], d, row)]
                        details_kept(self.runtime_details@, self.jobs@[i as int].id@, d)
                            && (self.visible_indices@.len() <= i64::MAX ==> row_of_job(
                            self.visible_indices@,
                            i,
                            row,
                        ))
                            && crate::controller::views::details_show(r, self.jobs@[i as int], d, row)
                },
            },
    {
        let index = match self.ui_state.selected_index {
            Some(i) => i,
            None => {
                return clear_details();
            },
        };
        if index >= self.jobs.len() {
            return clear_details();
        }
        let mut row: i64 = -1;
        let mut k: usize = 0;
        while k < self.visible_indices.len()
            invariant_except_break
                row == -1,
                forall|j: int| 0 <= j < k ==> self.visible_indices@[j] != index,
            invariant
                k <= self.visible_indices.len(),
            ensures
                self.visible_indices@.len() <= i64::MAX ==> row_of_job(
                    self.visible_indices@,
                    index,
                    row as int,
                ),
            decreases self.visible_indices.len() - k,
        {
            if self.visible_indices[k] == index {
                row = k as i64;
                break;
            }
            k = k + 1;
        }
        let details = self.details_for(index);
        let r = selection_details(&self.jobs[index], &details, row);
        assert(details_kept(self.runtime_details@, self.jobs@[index as int].id@, details));
        r
    }

    /// The summary of the active filters.
    pub fn filter_badge_text(&self) -> (r: String)
        ensures
            r@ == crate::controller::filters::filter_badge_text(
                self.scope_filter,
                self.search_query@,
                self.starred_only,
                self.advanced_filter,
            ),
    {
        filter_badge(self.scope_filter, self.search_query.as_str(), self.starred_only, &self.advanced_filter)
    }
}

/// The editor fields the user types in.
#[derive(Debug, Clone, Copy, PartialEq, Eq, Structural)]
pub enum EditorField {
    Label,
    Program,
    ProgramArguments,
    WorkingDirectory,
    StartInterval,
    EnvironmentVariables,
    ExpertEntries,
}

/// The log settings the user types.
#[derive(Debug, Clone, Copy, PartialEq, Eq, Structural)]
pub enum LogSetting {
    WindowMinutes,
    StreamSeconds,
    MaxLines,
}

/// What the log panel shows for a fetch of logs: the logs, a note where there were none,
/// or the failure.
pub open spec fn logs_text_of(result: AppResult<String>, live: bool) -> Seq<char> {
    match result {
        Ok(logs) => if trim(logs@).len() == 0 {
            if live {
                "No live logs captured."@
            } else {
                "No recent logs found."@
            }
        } else {
            logs@
        },
        Err(e) => "Failed to load logs: "@ + error_message(e),
    }
}

/// The status line after a fetch of logs: the window and line limit it used, or the
/// failure.
pub open spec fn logs_status_of(
    result: AppResult<String>,
    live: bool,
    seconds: u32,
    minutes: u32,
    max_lines: usize,
) -> Seq<char> {
    match result {
        Ok(_) => "Loaded logs ("@ + (if live {
            "live="@ + decimal(seconds as nat) + "s"@
        } else {
            "history="@ + decimal(minutes as nat) + "m"@
        }) + ", max_lines="@ + decimal(max_lines as nat) + ")."@,
        Err(e) => "Log load failed: "@ + error_message(e),
    }
}

/// The panel text and status that a fetch with the result `res` gives, with the window,
/// the stream length and the line limit read from the editor's log settings.
pub open spec fn logs_fetched(
    res: AppResult<String>,
    editor: EditorState,
    shown: Seq<char>,
    status: Seq<char>,
) -> bool {
    let live = editor.log_live_mode;
    let minutes = positive_u32_or(editor.log_window_minutes@, 10);
    let seconds = positive_u32_or(editor.log_stream_seconds@, 5);
    let max_lines = positive_usize_or(editor.log_max_lines@, 120);
    shown == logs_text_of(res, live) && status == logs_status_of(
        res,
        live,
        seconds,
        minutes,
        max_lines,
    )
}

/// The panel text and status line for the outcome of a fetch of logs.
pub fn logs_view(result: &AppResult<String>, live: bool, seconds: u32, minutes: u32, max_lines: usize) -> (r: (
    String,
    String,
))
    ensures
        r.0@ == logs_text_of(*result, live),
        r.1@ == logs_status_of(*result, live, seconds, minutes, max_lines),
{
    match result {
        Ok(logs) => {
            let shown = if trim_chars(&to_chars(logs.as_str())).len() == 0 {
                if live {
                    text("No live logs captured.")
                } else {
                    text("No recent logs found.")
                }
            } else {
                text(logs.as_str())
            };
            let mut v: Vec<char> = Vec::new();
            append_str(&mut v, "Loaded logs (");
            if live {
                append_str(&mut v, "live=");
                append_chars(&mut v, &decimal_chars(seconds as u64));
                append_str(&mut v, "s");
            } else {
                append_str(&mut v, "history=");
                append_chars(&mut v, &decimal_chars(minutes as u64));
                append_str(&mut v, "m");
            }
            append_str(&mut v, ", max_lines=");
            append_chars(&mut v, &decimal_chars(max_lines as u64));
            append_str(&mut v, ").");
            (shown, from_chars(v.as_slice()))
        },
        Err(err) => {
            let m = err.message();
            (concat2("Failed to load logs: ", m.as_str()), concat2("Log load failed: ", m.as_str()))
        },
    }
}

/// The starred jobs that may be triggered, in list order.
pub open spec fn batch_targets(jobs: Seq<JobSummary>) -> Seq<JobSummary>
    decreases jobs.len(),
{
    if jobs.len() == 0 {
        Seq::empty()
    } else {
        batch_targets(jobs.drop_last()) + (if jobs.last().is_starred
            && jobs.last().capabilities.can_trigger {
            seq![jobs.last()]
        } else {
            Seq::empty()
        })
    }
}

/// `rs` are the outcomes of sending `action` through `service` to each of `targets`, in order.
pub open spec fn batch_sent<L: LaunchctlClient>(
    service: ActionService<L>,
    targets: Seq<JobSummary>,
    action: TriggerAction,
    rs: Seq<AppResult<()>>,
) -> bool {
    &&& rs.len() == targets.len()
    &&& forall|k: int| 0 <= k < rs.len() ==> #[trigger] executed(service, targets[k], action, rs[k])
}

/// `rs` are the outcomes of sending each of `actions` through `service` to `job`, in order.
pub open spec fn actions_sent<L: LaunchctlClient>(
    service: ActionService<L>,
    job: JobSummary,
    actions: Seq<TriggerAction>,
    rs: Seq<AppResult<()>>,
) -> bool {
    &&& rs.len() == actions.len()
    &&& forall|k: int| 0 <= k < rs.len() ==> #[trigger] executed(service, job, actions[k], rs[k])
}

/// How many of the outcomes are successes.
pub open spec fn results_ok(rs: Seq<AppResult<()>>) -> nat
    decreases rs.len(),
{
    if rs.len() == 0 {
        0
    } else {
        results_ok(rs.drop_last()) + (if rs.last() is Ok {
            1nat
        } else {
            0nat
        })
    }
}

/// How many of the outcomes are failures.
pub open spec fn results_err(rs: Seq<AppResult<()>>) -> nat
    decreases rs.len(),
{
    if rs.len() == 0 {
        0
    } else {
        results_err(rs.drop_last()) + (if rs.last() is Err {
            1nat
        } else {
            0nat
        })
    }
}

/// The first failure among the outcomes, named by its job's label.
pub open spec fn first_failure(targets: Seq<JobSummary>, rs: Seq<AppResult<()>>) -> Option<Seq<char>>
    decreases rs.len(),
{
    if rs.len() == 0 {
        None
    } else {
        match first_failure(targets, rs.drop_last()) {
            Some(e) => Some(e),
            None => match rs.last() {
                Err(e) => Some(targets[rs.len() - 1].label@ + ": "@ + error_message(e)),
                Ok(_) => None,
            },
        }
    }
}

/// The report of a batch action: the counts, and the first error where one failed.
pub open spec fn batch_message(
    action: TriggerAction,
    success: nat,
    failed: nat,
    first_error: Option<Seq<char>>,
) -> Seq<char> {
    "Batch "@ + action_name(action) + " finished: "@ + decimal(success) + " success, "@ + decimal(
        failed,
    ) + " failed."@ + match first_error {
        Some(e) => " First error: "@ + e,
        None => Seq::empty(),
    }
}

/// The report of a save: the load and enable that followed it where they were asked for,
/// each with its outcome.
pub open spec fn saved_message(
    should_load: bool,
    load: AppResult<()>,
    should_enable: bool,
    enable: AppResult<()>,
) -> Seq<char> {
    "Saved plist changes."@ + (if should_load {
        match load {
            Ok(_) => " Load: success."@,
            Err(e) => " Load failed: "@ + error_message(e) + "."@,
        }
    } else {
        Seq::empty()
    }) + (if should_enable {
        match enable {
            Ok(_) => " Enable: success."@,
            Err(e) => " Enable failed: "@ + error_message(e) + "."@,
        }
    } else {
        Seq::empty()
    })
}

/// The number of ids that name no listed job.
pub open spec fn unmatched_ids(ids: Seq<String>, jobs: Seq<JobSummary>) -> nat
    decreases ids.len(),
{
    if ids.len() == 0 {
        0
    } else {
        unmatched_ids(ids.drop_last(), jobs) + (if exists|k: int|
            0 <= k < jobs.len() && (#[trigger] jobs[k]).id@ == ids.last()@ {
            0nat
        } else {
            1nat
        })
    }
}

/// How one id of a queued action went: `None` where no listed job has it, else the outcome
/// of sending the action to the first listed job with that id.
pub open spec fn id_handled<L: LaunchctlClient>(
    service: ActionService<L>,
    jobs: Seq<JobSummary>,
    id: Seq<char>,
    action: TriggerAction,
    o: Option<AppResult<()>>,
) -> bool {
    match o {
        None => forall|k: int| 0 <= k < jobs.len() ==> (#[trigger] jobs[k]).id@ != id,
        Some(r) => exists|j: int|
            0 <= j < jobs.len() && jobs[j].id@ == id && (forall|k: int|
                0 <= k < j ==> (#[trigger] jobs[k]).id@ != id) && #[trigger] executed(
                service,
                jobs[j],
                action,
                r,
            ),
    }
}

/// The outcomes of a queued action's ids, one for each, in order.
pub open spec fn ids_handled<L: LaunchctlClient>(
    service: ActionService<L>,
    jobs: Seq<JobSummary>,
    ids: Seq<String>,
    action: TriggerAction,
    os: Seq<Option<AppResult<()>>>,
) -> bool {
    &&& os.len() == ids.len()
    &&& forall|k: int| 0 <= k < ids.len() ==> #[trigger] id_handled(service, jobs, ids[k]@, action, os[k])
}

/// How many of the outcomes are successes.
pub open spec fn ok_count(os: Seq<Option<AppResult<()>>>) -> nat
    decreases os.len(),
{
    if os.len() == 0 {
        0
    } else {
        ok_count(os.drop_last()) + (if os.last() matches Some(Ok(_)) {
            1nat
        } else {
            0nat
        })
    }
}

/// How many of the outcomes are failures.
pub open spec fn err_count(os: Seq<Option<AppResult<()>>>) -> nat
    decreases os.len(),
{
    if os.len() == 0 {
        0
    } else {
        err_count(os.drop_last()) + (if os.last() matches Some(Err(_)) {
            1nat
        } else {
            0nat
        })
    }
}

/// The note on carried-out QuickLaunch actions.
pub open spec fn quicklaunch_actions_note(success: nat, failed: nat, skipped: nat) -> Seq<char> {
    " QuickLaunch actions: "@ + decimal(success) + " success, "@ + decimal(failed) + " failed, "@
        + decimal(skipped) + " skipped."@
}

/// The actions that a list of names names, in order; names of no action are left out.
pub open spec fn actions_of_names(names: Seq<Seq<char>>) -> Seq<TriggerAction>
    decreases names.len(),
{
    if names.len() == 0 {
        Seq::empty()
    } else {
        actions_of_names(names.drop_last()) + match crate::domain::action::action_of_value(
            names.last(),
        ) {
            Some(a) => seq![a],
            None => Seq::empty(),
        }
    }
}

/// The AI panel's text for a streamed answer, as `ai_response_text` writes it.
pub open spec fn ai_answer_text(stream: crate::adapter::ai::provider::AiStreamResponse) -> Seq<char> {
    crate::text::join(
        ai_response_lines(
            stream.response.provider@,
            stream.response.summary@,
            crate::text::str_views(stream.chunks@),
            crate::text::str_views(stream.response.suggested_patch_notes@),
            crate::text::str_views(stream.response.suggested_actions@),
        ),
        "\n"@,
    )
}

/// Each job is marked starred exactly when its label is among the stars.
pub open spec fn stars_shown(jobs: Seq<JobSummary>, stars: Set<Seq<char>>) -> bool {
    forall|k: int| 0 <= k < jobs.len() ==> (#[trigger] jobs[k]).is_starred == stars.contains(jobs[k].label@)
}

/// Reordering jobs keeps each one's star mark in step with the stars.
proof fn lemma_stars_survive_reordering(
    before: Seq<JobSummary>,
    after: Seq<JobSummary>,
    stars: Set<Seq<char>>,
)
    requires
        stars_shown(before, stars),
        after.to_multiset() == before.to_multiset(),
    ensures
        stars_shown(after, stars),
{
    broadcast use vstd::seq_lib::group_to_multiset_ensures;

    assert forall|k: int| 0 <= k < after.len() implies (#[trigger] after[k]).is_starred
        == stars.contains(after[k].label@) by {
        assert(after.contains(after[k]));
        assert(after.to_multiset().count(after[k]) > 0);
        assert(before.contains(after[k]));
    }
}

/// The diagnostics panel's text for a document's findings: one line each, or a note that
/// there are none.
pub open spec fn diagnostics_text_of(issues: Seq<IssueView>) -> Seq<char> {
    if issues.len() == 0 {
        "未发现问题。"@
    } else {
        crate::text::join(issues.map_values(|x: IssueView| issue_line(x)), "\n"@)
    }
}

/// Whether details are kept for the job with this id.
pub open spec fn details_known(kept: Seq<(String, JobRuntimeDetails)>, id: Seq<char>) -> bool {
    exists|k: int| 0 <= k < kept.len() && (#[trigger] kept[k]).0@ == id
}

/// Details that only record why they could not be loaded.
pub open spec fn failed_details(d: JobRuntimeDetails, m: Seq<char>) -> bool {
    &&& d.pid is None
    &&& d.last_exit_status is None
    &&& d.last_run is None
    &&& d.raw_hint matches Some(h) && h@ == "Failed to load runtime details: "@ + m
}

/// What one queued action adds to the tally: its ids, or for an unknown action its ids
/// (at least one) all counted as skipped.
pub open spec fn action_total(a: QuickLaunchAction) -> nat {
    match crate::domain::action::action_of_value(a.action@) {
        None => if a.job_ids@.len() > 1 {
            a.job_ids@.len()
        } else {
            1
        },
        Some(_) => a.job_ids@.len(),
    }
}

/// What one queued action adds to the skipped count: all of an unknown action, else the
/// ids that name no listed job.
pub open spec fn action_skipped(a: QuickLaunchAction, jobs: Seq<JobSummary>) -> nat {
    match crate::domain::action::action_of_value(a.action@) {
        None => action_total(a),
        Some(_) => unmatched_ids(a.job_ids@, jobs),
    }
}

pub open spec fn actions_total(acts: Seq<QuickLaunchAction>) -> nat
    decreases acts.len(),
{
    if acts.len() == 0 {
        0
    } else {
        actions_total(acts.drop_last()) + action_total(acts.last())
    }
}

pub open spec fn actions_skipped(acts: Seq<QuickLaunchAction>, jobs: Seq<JobSummary>) -> nat
    decreases acts.len(),
{
    if acts.len() == 0 {
        0
    } else {
        actions_skipped(acts.drop_last(), jobs) + action_skipped(acts.last(), jobs)
    }
}

/// How one queued action went: nothing for an action of no known name, else the outcome
/// for each of its ids.
pub open spec fn action_handled<L: LaunchctlClient>(
    service: ActionService<L>,
    a: QuickLaunchAction,
    jobs: Seq<JobSummary>,
    os: Seq<Option<AppResult<()>>>,
) -> bool {
    match crate::domain::action::action_of_value(a.action@) {
        None => os.len() == 0,
        Some(t) => ids_handled(service, jobs, a.job_ids@, t, os),
    }
}

/// How each of the queued actions went, in order.
pub open spec fn actions_handled<L: LaunchctlClient>(
    service: ActionService<L>,
    acts: Seq<QuickLaunchAction>,
    jobs: Seq<JobSummary>,
    outs: Seq<Seq<Option<AppResult<()>>>>,
) -> bool {
    &&& outs.len() == acts.len()
    &&& forall|k: int| 0 <= k < acts.len() ==> #[trigger] action_handled(service, acts[k], jobs, outs[k])
}

/// The successes over all the queued actions.
pub open spec fn outs_ok(outs: Seq<Seq<Option<AppResult<()>>>>) -> nat
    decreases outs.len(),
{
    if outs.len() == 0 {
        0
    } else {
        outs_ok(outs.drop_last()) + ok_count(outs.last())
    }
}

/// The failures over all the queued actions.
pub open spec fn outs_err(outs: Seq<Seq<Option<AppResult<()>>>>) -> nat
    decreases outs.len(),
{
    if outs.len() == 0 {
        0
    } else {
        outs_err(outs.drop_last()) + err_count(outs.last())
    }
}

/// The note on queued QuickLaunch actions, given what draining them gave: the drain's
/// failure, nothing where none were queued, else the counts, with each queued action sent
/// through `service` to the jobs it names. Wherever the tally fits in a `usize` the counts
/// are exact: the successes and failures of those sends, and the ids or actions skipped.
pub open spec fn actions_noted<L: LaunchctlClient>(
    service: ActionService<L>,
    note: Seq<char>,
    drained: AppResult<Vec<QuickLaunchAction>>,
    jobs: Seq<JobSummary>,
) -> bool {
    match drained {
        Err(e) => note == " QuickLaunch actions skipped: "@ + error_message(e) + "."@,
        Ok(acts) => if acts@.len() == 0 {
            note.len() == 0
        } else {
            exists|success: nat, failed: nat, skipped: nat, outs: Seq<Seq<Option<AppResult<()>>>>|
                #![trigger quicklaunch_actions_note(success, failed, skipped), actions_handled(service, acts@, jobs, outs)]
                quicklaunch_actions_note(success, failed, skipped) == note && actions_handled(
                    service,
                    acts@,
                    jobs,
                    outs,
                ) && (actions_total(acts@) <= usize::MAX ==> success + failed + skipped
                    == actions_total(acts@) && skipped == actions_skipped(acts@, jobs) && success
                    == outs_ok(outs) && failed == outs_err(outs))
        },
    }
}

/// `res` is what the log client can return when asked for the label's logs the way the
/// editor's log settings say: live for the stream length, or recent for the window, with
/// the line limit.
pub open spec fn logs_asked<G: LogStreamClient>(
    client: &G,
    label: Seq<char>,
    editor: EditorState,
    res: AppResult<String>,
) -> bool {
    let max_lines = positive_usize_or(editor.log_max_lines@, 120);
    if editor.log_live_mode {
        exists|l: &str|
            l@ == label && #[trigger] call_ensures(
                G::live_logs_for_label,
                (client, l, positive_u32_or(editor.log_stream_seconds@, 5), max_lines),
                res,
            )
    } else {
        exists|l: &str|
            l@ == label && #[trigger] call_ensures(
                G::recent_logs_for_label,
                (client, l, positive_u32_or(editor.log_window_minutes@, 10), max_lines),
                res,
            )
    }
}

/// The AI patch preview for the editor: why none can be built, that the prompt asks for
/// no change or for none that differs, or the patched document, kept as pending.
pub open spec fn patch_previewed(
    editor: EditorState,
    pending: Option<StandardPlistDocument>,
    diff: Seq<char>,
) -> bool {
    match crate::controller::editor::document_of_editor(editor) {
        Err(_) => pending is None && diff
            == "Cannot build AI patch preview: current editor state is invalid."@,
        Ok(current) => match crate::controller::editor::patched_by_prompt(editor.ai_prompt@, current) {
            None => pending is None && diff == "No deterministic patch could be inferred from prompt."@,
            Some(candidate) => if candidate == current {
                pending is None && diff == "AI patch preview detected no effective changes."@
            } else {
                pending matches Some(d) && d@ == candidate
            },
        },
    }
}

/// The editor's XML preview and diagnostics after they are built again from its fields:
/// why no document can be built, why no XML can be written, or the diagnostics of the
/// document.
pub open spec fn preview_refreshed(before: EditorState, after: EditorState) -> bool {
    match crate::controller::editor::document_of_editor(before) {
        Err(m) => after.xml_preview@ == "XML preview unavailable: "@ + m && after.diagnostics_text@
            == "诊断暂不可用: "@ + m,
        Ok(doc) => (exists|e: AppError|
            after.xml_preview@ == "XML preview unavailable: "@ + error_message(e)
                && after.diagnostics_text@ == "诊断暂不可用: "@ + error_message(e))
            || after.diagnostics_text@ == diagnostics_text_of(
            crate::service::diagnostic_service::analysis_of(doc),
        ),
    }
}

/// The details kept for the job with this id, or none at all where none are kept.
pub open spec fn details_kept(
    kept: Seq<(String, JobRuntimeDetails)>,
    id: Seq<char>,
    d: JobRuntimeDetails,
) -> bool {
    (exists|k: int| 0 <= k < kept.len() && (#[trigger] kept[k]).0@ == id && d == kept[k].1) || ((
    forall|k: int| 0 <= k < kept.len() ==> (#[trigger] kept[k]).0@ != id) && d.pid is None
        && d.last_exit_status is None && d.last_run is None && d.raw_hint is None)
}

/// `row` is the first position of the job in the list, or -1 where it is not shown.
pub open spec fn row_of_job(shown: Seq<usize>, job: usize, row: int) -> bool {
    if 0 <= row {
        row < shown.len() && shown[row] == job && forall|k: int| 0 <= k < row ==> shown[k] != job
    } else {
        row == -1 && forall|k: int| 0 <= k < shown.len() ==> shown[k] != job
    }
}

/// `jobs` are the listed jobs, each marked starred exactly when its label is among the
/// stars, in some order.
pub open spec fn starred_reordering(
    listed: Seq<JobSummary>,
    jobs: Seq<JobSummary>,
    stars: Set<Seq<char>>,
) -> bool {
    exists|marked: Seq<JobSummary>|
        #![trigger marked.to_multiset()]
        marked.len() == listed.len() && jobs.to_multiset() == marked.to_multiset() && forall|
            k: int,
        |
            0 <= k < marked.len() ==> #[trigger] marked[k] == (JobSummary {
                is_starred: stars.contains(listed[k].label@),
                ..listed[k]
            })
}

/// The note on a QuickLaunch sync: nothing where nothing was published, the count, or
/// why it was skipped.
pub open spec fn sync_note(synced: AppResult<usize>) -> Seq<char> {
    match synced {
        Ok(n) => if n == 0 {
            Seq::empty()
        } else {
            " QuickLaunch synced "@ + decimal(n as nat) + " items."@
        },
        Err(e) => " QuickLaunch sync skipped: "@ + error_message(e) + "."@,
    }
}

/// A positive number setting, or its default.
pub open spec fn positive_u32_or(value: Seq<char>, default: u32) -> u32 {
    match crate::text::parse_u32(trim(value)) {
        Some(n) => if n > 0 {
            n
        } else {
            default
        },
        None => default,
    }
}

/// A positive number setting, or its default.
pub open spec fn positive_usize_or(value: Seq<char>, default: usize) -> usize {
    match crate::text::parse_usize(trim(value)) {
        Some(n) => if n > 0 {
            n
        } else {
            default
        },
        None => default,
    }
}

pub fn log_setting_u32(value: &str, default: u32) -> (r: u32)
    ensures
        r == positive_u32_or(value@, default),
{
    match crate::text::parse_u32_chars(&trim_chars(&to_chars(value))) {
        Some(n) => if n > 0 {
            n
        } else {
            default
        },
        None => default,
    }
}

pub fn log_setting_usize(value: &str, default: usize) -> (r: usize)
    ensures
        r == positive_usize_or(value@, default),
{
    match crate::text::parse_usize_chars(&trim_chars(&to_chars(value))) {
        Some(n) => if n > 0 {
            n
        } else {
            default
        },
        None => default,
    }
}

/// The AI panel's text for an answer: provider and summary, the streamed chunks, the
/// suggestions and the suggested actions, each part with its heading where it has lines.
pub open spec fn ai_response_lines(
    provider: Seq<char>,
    summary: Seq<char>,
    chunks: Seq<Seq<char>>,
    notes: Seq<Seq<char>>,
    actions: Seq<Seq<char>>,
) -> Seq<Seq<char>> {
    let head = seq!["Provider: "@ + provider + "\nSummary: "@ + summary];
    let a = if chunks.len() > 0 {
        head.push("Stream preview:"@) + chunks.map_values(|c: Seq<char>| "> "@ + c)
    } else {
        head
    };
    let b = if notes.len() > 0 {
        a.push("Suggestions:"@) + notes.map_values(|n: Seq<char>| "- "@ + n)
    } else {
        a
    };
    if actions.len() > 0 {
        b.push("Suggested Actions:"@) + actions.map_values(|x: Seq<char>| "* "@ + x)
    } else {
        b
    }
}

fn push_prefixed_all(lines: &mut Vec<String>, prefix: &str, items: &Vec<String>)
    ensures
        crate::text::str_views(final(lines)@) == crate::text::str_views(old(lines)@)
            + crate::text::str_views(items@).map_values(|x: Seq<char>| prefix@ + x),
{
    let ghost start = crate::text::str_views(lines@);
    let ghost all = crate::text::str_views(items@).map_values(|x: Seq<char>| prefix@ + x);
    let mut i: usize = 0;
    while i < items.len()
        invariant
            i <= items.len(),
            all == crate::text::str_views(items@).map_values(|x: Seq<char>| prefix@ + x),
            crate::text::str_views(lines@) == start + all.take(i as int),
        decreases items.len() - i,
    {
        let ghost before = lines@;
        let x = concat2(prefix, items[i].as_str());
        lines.push(x);
        proof {
            crate::text::lemma_str_views_push(before, x);
        }
        assert(all.take(i + 1) =~= all.take(i as int).push(x@));
        assert(start + all.take(i + 1) =~= (start + all.take(i as int)).push(x@));
        i = i + 1;
    }
    assert(all.take(items.len() as int) =~= all);
}

fn push_text(lines: &mut Vec<String>, s: &str)
    ensures
        crate::text::str_views(final(lines)@) == crate::text::str_views(old(lines)@).push(s@),
{
    let ghost before = lines@;
    let x = text(s);
    lines.push(x);
    proof {
        crate::text::lemma_str_views_push(before, x);
    }
}

/// The AI panel's text for a streamed answer.
pub fn ai_response_text(stream: &crate::adapter::ai::provider::AiStreamResponse) -> (r: String)
    ensures
        r@ == crate::text::join(
            ai_response_lines(
                stream.response.provider@,
                stream.response.summary@,
                crate::text::str_views(stream.chunks@),
                crate::text::str_views(stream.response.suggested_patch_notes@),
                crate::text::str_views(stream.response.suggested_actions@),
            ),
            "\n"@,
        ),
{
    let mut lines: Vec<String> = Vec::new();
    let mut first: Vec<char> = Vec::new();
    append_str(&mut first, "Provider: ");
    append_str(&mut first, stream.response.provider.as_str());
    append_str(&mut first, "\nSummary: ");
    append_str(&mut first, stream.response.summary.as_str());
    assert(crate::text::str_views(lines@) =~= Seq::<Seq<char>>::empty());
    let ghost before = lines@;
    let f = from_chars(first.as_slice());
    lines.push(f);
    proof {
        crate::text::lemma_str_views_push(before, f);
    }
    if stream.chunks.len() > 0 {
        push_text(&mut lines, "Stream preview:");
        push_prefixed_all(&mut lines, "> ", &stream.chunks);
    }
    if stream.response.suggested_patch_notes.len() > 0 {
        push_text(&mut lines, "Suggestions:");
        push_prefixed_all(&mut lines, "- ", &stream.response.suggested_patch_notes);
    }
    if stream.response.suggested_actions.len() > 0 {
        push_text(&mut lines, "Suggested Actions:");
        push_prefixed_all(&mut lines, "* ", &stream.response.suggested_actions);
    }
    join_strings(&lines, "\n")
}

} // verus!
