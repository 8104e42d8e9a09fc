use crate::adapter::launchctl::LaunchctlClient;
use crate::domain::action::TriggerAction;
use crate::domain::job::{bootout_domain_for, target_for, JobSummary};
use crate::error::{validation, AppError, AppResult};
use crate::text::from_chars;
use std::sync::Arc;
use vstd::prelude::*;

verus! {

/// A launchctl invocation: the verb and what it acts on.
#[derive(Debug)]
pub enum LaunchctlCommand {
    Start(String),
    Stop(String),
    Kickstart(String),
    Enable(String),
    Disable(String),
    Bootstrap { domain: String, path: String },
    Bootout { domain: String, path: String },
}

/// The command as plain values: a verb, and the target or the domain and path.
pub enum CommandView {
    Start(Seq<char>),
    Stop(Seq<char>),
    Kickstart(Seq<char>),
    Enable(Seq<char>),
    Disable(Seq<char>),
    Bootstrap(Seq<char>, Seq<char>),
    Bootout(Seq<char>, Seq<char>),
}

impl View for LaunchctlCommand {
    type V = CommandView;

    open spec fn view(&self) -> CommandView {
        match self {
            LaunchctlCommand::Start(t) => CommandView::Start(t@),
            LaunchctlCommand::Stop(t) => CommandView::Stop(t@),
            LaunchctlCommand::Kickstart(t) => CommandView::Kickstart(t@),
            LaunchctlCommand::Enable(t) => CommandView::Enable(t@),
            LaunchctlCommand::Disable(t) => CommandView::Disable(t@),
            LaunchctlCommand::Bootstrap { domain, path } => CommandView::Bootstrap(domain@, path@),
            LaunchctlCommand::Bootout { domain, path } => CommandView::Bootout(domain@, path@),
        }
    }
}

/// The command that carries out an action on a job: start, stop, kickstart, enable and
/// disable act on the job's service target; load bootstraps and unload boots out its
/// plist in the scope's domain.
pub open spec fn command_for(job: JobSummary, action: TriggerAction, uid: nat) -> CommandView {
    let target = target_for(job.scope, uid, job.label@);
    let domain = bootout_domain_for(job.scope, uid);
    match action {
        TriggerAction::Start => CommandView::Start(target),
        TriggerAction::Stop => CommandView::Stop(target),
        TriggerAction::Kickstart => CommandView::Kickstart(target),
        TriggerAction::Enable => CommandView::Enable(target),
        TriggerAction::Disable => CommandView::Disable(target),
        TriggerAction::Load => CommandView::Bootstrap(domain, job.path@),
        TriggerAction::Unload => CommandView::Bootout(domain, job.path@),
    }
}

/// The reason an action is refused when the job cannot be triggered.
pub open spec fn trigger_refusal(job: JobSummary) -> Seq<char> {
    match job.capabilities.trigger_reason {
        Some(r) => r@,
        None => "Trigger is disabled for this job"@,
    }
}

/// The command for an action on a job, or the refusal where the job cannot be triggered.
pub fn plan_action(job: &JobSummary, action: TriggerAction, uid: u32) -> (r: AppResult<
    LaunchctlCommand,
>)
    ensures
        !job.capabilities.can_trigger ==> (r matches Err(AppError::Validation(m)) && m@
            == trigger_refusal(*job)),
        job.capabilities.can_trigger ==> (r matches Ok(c) && c@ == command_for(
            *job,
            action,
            uid as nat,
        )),
{
    if !job.capabilities.can_trigger {
        return match &job.capabilities.trigger_reason {
            Some(reason) => Err(AppError::Validation(reason.clone())),
            None => Err(validation("Trigger is disabled for this job")),
        };
    }
    let target = job.scope.target_for_label(uid, job.label.as_str());
    match action {
        TriggerAction::Start => Ok(LaunchctlCommand::Start(target)),
        TriggerAction::Stop => Ok(LaunchctlCommand::Stop(target)),
        TriggerAction::Kickstart => Ok(LaunchctlCommand::Kickstart(target)),
        TriggerAction::Enable => Ok(LaunchctlCommand::Enable(target)),
        TriggerAction::Disable => Ok(LaunchctlCommand::Disable(target)),
        TriggerAction::Load => Ok(
            LaunchctlCommand::Bootstrap {
                domain: job.scope.bootout_domain(uid),
                path: job.path.clone(),
            },
        ),
        TriggerAction::Unload => Ok(
            LaunchctlCommand::Bootout { domain: job.scope.bootout_domain(uid), path: job.path.clone() },
        ),
    }
}

/// Runs a command through a launchctl client and hands back what the client returned.
pub fn run_command<L: LaunchctlClient>(client: &L, command: &LaunchctlCommand) -> (r: AppResult<()>)
    ensures
        command_ran(client, *command, r),
{
    match command {
        LaunchctlCommand::Start(t) => client.start(t.as_str()),
        LaunchctlCommand::Stop(t) => client.stop(t.as_str()),
        LaunchctlCommand::Kickstart(t) => client.kickstart(t.as_str()),
        LaunchctlCommand::Enable(t) => client.enable(t.as_str()),
        LaunchctlCommand::Disable(t) => client.disable(t.as_str()),
        LaunchctlCommand::Bootstrap { domain, path } => client.bootstrap(
            domain.as_str(),
            path.as_str(),
        ),
        LaunchctlCommand::Bootout { domain, path } => client.bootout(domain.as_str(), path.as_str()),
    }
}

/// The result `r` is one that the client's method for the command can return, called
/// with the command's target (or domain and path).
pub open spec fn command_ran<L: LaunchctlClient>(
    client: &L,
    command: LaunchctlCommand,
    r: AppResult<()>,
) -> bool {
    match command {
        LaunchctlCommand::Start(t) => exists|s: &str| s@ == t@ && #[trigger] call_ensures(L::start, (client, s), r),
        LaunchctlCommand::Stop(t) => exists|s: &str| s@ == t@ && #[trigger] call_ensures(L::stop, (client, s), r),
        LaunchctlCommand::Kickstart(t) => exists|s: &str|
            s@ == t@ && #[trigger] call_ensures(L::kickstart, (client, s), r),
        LaunchctlCommand::Enable(t) => exists|s: &str| s@ == t@ && #[trigger] call_ensures(L::enable, (client, s), r),
        LaunchctlCommand::Disable(t) => exists|s: &str|
            s@ == t@ && #[trigger] call_ensures(L::disable, (client, s), r),
        LaunchctlCommand::Bootstrap { domain, path } => exists|d: &str, p: &str|
            d@ == domain@ && p@ == path@ && #[trigger] call_ensures(L::bootstrap, (client, d, p), r),
        LaunchctlCommand::Bootout { domain, path } => exists|d: &str, p: &str|
            d@ == domain@ && p@ == path@ && #[trigger] call_ensures(L::bootout, (client, d, p), r),
    }
}

/// What carrying out `action` on `job` gives: the refusal, without any launchctl call,
/// where the job cannot be triggered; otherwise a result of running the command that
/// `command_for` gives.
pub open spec fn executed<L: LaunchctlClient>(
    service: ActionService<L>,
    job: JobSummary,
    action: TriggerAction,
    r: AppResult<()>,
) -> bool {
    &&& (!job.capabilities.can_trigger ==> (r matches Err(AppError::Validation(m)) && m@
        == trigger_refusal(job)))
    &&& (job.capabilities.can_trigger ==> exists|c: LaunchctlCommand|
        c@ == command_for(job, action, service.uid() as nat) && #[trigger] command_ran(
            &*service.launchctl(),
            c,
            r,
        ))
}

/// Sends actions to jobs through launchctl, for the user with the given uid.
pub struct ActionService<L: LaunchctlClient> {
    launchctl: Arc<L>,
    uid: u32,
}

impl<L: LaunchctlClient> ActionService<L> {
    pub fn new(launchctl: Arc<L>, uid: u32) -> (r: Self)
        ensures
            r.uid() == uid,
    {
        ActionService { launchctl, uid }
    }

    pub closed spec fn uid(&self) -> u32 {
        self.uid
    }

    /// Carries out an action on a job: refused, without any launchctl call, where the job
    /// cannot be triggered; otherwise the result of the command that `plan_action` gives.
    pub fn execute(&self, job: &JobSummary, action: TriggerAction) -> (r: AppResult<()>)
        ensures
            executed(*self, *job, action, r),
    {
        let command = plan_action(job, action, self.uid)?;
        let r = run_command(&*self.launchctl, &command);
        assert(command_ran(&*self.launchctl(), command, r));
        r
    }

    /// The client that commands are sent through.
    pub closed spec fn launchctl(&self) -> Arc<L> {
        self.launchctl
    }
}

} // verus!
