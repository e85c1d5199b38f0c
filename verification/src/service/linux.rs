//! The service as a systemd unit.

use vstd::prelude::*;
use vstd::string::StringExecFns;
use crate::service::{
    ServiceCommand, ServicePlan, ServiceStep, ServiceStepView, SERVICE_DESCRIPTION, SERVICE_NAME,
};

verus! {

/// Where the unit file is installed.
pub const UNIT_FILE: &'static str = "/etc/systemd/system/cf-ddns.service";

/// The program that controls systemd.
pub const SYSTEMCTL: &'static str = "systemctl";

/// The unit file up to the description.
pub const UNIT_HEAD: &'static str = "[Unit]\nDescription=";

/// The unit file between the description and the executable.
pub const UNIT_BODY: &'static str =
    "\nAfter=network-online.target\nWants=network-online.target\n\n[Service]\nType=simple\nExecStart=";

/// The unit file after the executable.
pub const UNIT_TAIL: &'static str =
    " service run\nRestart=on-failure\n\n[Install]\nWantedBy=multi-user.target\n";

/// Text of the unit that runs `exec` as the service.
pub open spec fn unit_def(exec: Seq<char>) -> Seq<char> {
    UNIT_HEAD@ + SERVICE_DESCRIPTION@ + UNIT_BODY@ + exec + UNIT_TAIL@
}

/// The unit file for the executable at `exec`: started once the network is
/// up, restarted when it fails.
pub fn gen_unit_def(exec: &str) -> (unit: String)
    ensures
        unit@ == unit_def(exec@),
{
    let mut unit = String::from_str(UNIT_HEAD);
    unit.append(SERVICE_DESCRIPTION);
    unit.append(UNIT_BODY);
    unit.append(exec);
    unit.append(UNIT_TAIL);
    unit
}

/// A call of `systemctl` with one argument.
fn systemctl(arg: &str) -> (step: ServiceStep)
    ensures
        step@ == (ServiceStepView::Exec { cmd: SYSTEMCTL@, args: seq![arg@] }),
{
    let mut args: Vec<String> = Vec::new();
    args.push(String::from_str(arg));
    let step = ServiceStep::Exec { cmd: String::from_str(SYSTEMCTL), args };
    assert(args.deep_view() =~= seq![arg@]);
    step
}

/// A call of `systemctl` with the arguments `verb --now cf-ddns`.
fn systemctl_now(verb: &str) -> (step: ServiceStep)
    ensures
        step@ == (ServiceStepView::Exec {
            cmd: SYSTEMCTL@,
            args: seq![verb@, "--now"@, SERVICE_NAME@],
        }),
{
    let mut args: Vec<String> = Vec::new();
    args.push(String::from_str(verb));
    args.push(String::from_str("--now"));
    args.push(String::from_str(SERVICE_NAME));
    let step = ServiceStep::Exec { cmd: String::from_str(SYSTEMCTL), args };
    assert(args.deep_view() =~= seq![verb@, "--now"@, SERVICE_NAME@]);
    step
}

/// The steps that install the service for the executable at `exec`.
pub open spec fn install_steps(exec: Seq<char>) -> Seq<ServiceStepView> {
    seq![
        ServiceStepView::Write { path: UNIT_FILE@, content: unit_def(exec) },
        ServiceStepView::Exec { cmd: SYSTEMCTL@, args: seq!["daemon-reload"@] },
        ServiceStepView::Exec { cmd: SYSTEMCTL@, args: seq!["enable"@, "--now"@, SERVICE_NAME@] },
    ]
}

/// The steps that remove the service.
pub open spec fn uninstall_steps() -> Seq<ServiceStepView> {
    seq![
        ServiceStepView::Exec { cmd: SYSTEMCTL@, args: seq!["disable"@, "--now"@, SERVICE_NAME@] },
        ServiceStepView::Remove { path: UNIT_FILE@ },
        ServiceStepView::Exec { cmd: SYSTEMCTL@, args: seq!["daemon-reload"@] },
    ]
}

/// Installs the service for the executable at `exec`: write the unit file,
/// have systemd read it, then enable and start the unit.
pub fn install(exec: &str) -> (steps: Vec<ServiceStep>)
    ensures
        steps.deep_view() == install_steps(exec@),
{
    let mut steps: Vec<ServiceStep> = Vec::new();
    steps.push(ServiceStep::Write { path: String::from_str(UNIT_FILE), content: gen_unit_def(exec) });
    steps.push(systemctl("daemon-reload"));
    steps.push(systemctl_now("enable"));
    assert(steps.deep_view() =~= install_steps(exec@));
    steps
}

/// Removes the service: stop and disable the unit, delete its file, then
/// have systemd forget it.
pub fn uninstall() -> (steps: Vec<ServiceStep>)
    ensures
        steps.deep_view() == uninstall_steps(),
{
    let mut steps: Vec<ServiceStep> = Vec::new();
    steps.push(systemctl_now("disable"));
    steps.push(ServiceStep::Remove { path: String::from_str(UNIT_FILE) });
    steps.push(systemctl("daemon-reload"));
    assert(steps.deep_view() =~= uninstall_steps());
    steps
}

/// What `command` comes to for the executable at `exec`.
pub fn run_service_command(command: &ServiceCommand, exec: &str) -> (plan: ServicePlan)
    ensures
        match *command {
            ServiceCommand::Install => plan matches ServicePlan::Steps(steps) && steps.deep_view()
                == install_steps(exec@),
            ServiceCommand::Uninstall => plan matches ServicePlan::Steps(steps)
                && steps.deep_view() == uninstall_steps(),
            ServiceCommand::Run => plan is Run,
        },
{
    match command {
        ServiceCommand::Install => ServicePlan::Steps(install(exec)),
        ServiceCommand::Uninstall => ServicePlan::Steps(uninstall()),
        ServiceCommand::Run => ServicePlan::Run,
    }
}

} // verus!
