//! The service as a launchd daemon.

use vstd::prelude::*;
use vstd::string::StringExecFns;
use crate::service::{ServiceCommand, ServicePlan, ServiceStep, ServiceStepView, SERVICE_NAME};

verus! {

/// Where the property list is installed.
pub const PLIST_PATH: &'static str = "/Library/LaunchDaemons/cf-ddns.plist";

/// The program that controls launchd.
pub const LAUNCHCTL: &'static str = "launchctl";

/// The property list up to the label.
pub const PLIST_HEAD: &'static str =
    "<?xml version=\"1.0\" encoding=\"UTF-8\"?>\n<!DOCTYPE plist PUBLIC \"-//Apple//DTD PLIST 1.0//EN\" \"http://www.apple.com/DTDs/PropertyList-1.0.dtd\">\n<plist version=\"1.0\">\n<dict>\n\t<key>Label</key>\n\t<string>";

/// The property list between the label and the executable.
pub const PLIST_ARGUMENTS: &'static str =
    "</string>\n\n\t<key>ProgramArguments</key>\n\t<array>\n\t\t<string>";

/// The property list between the executable and the first log path.
pub const PLIST_BODY: &'static str =
    "</string>\n\t\t<string>service</string>\n\t\t<string>run</string>\n\t</array>\n\n    <key>KeepAlive</key>\n    <dict>\n      <key>NetworkState</key>\n      <true/>\n    </dict>\n\n\t<key>RunAtLoad</key>\n\t<true/>\n\n    <key>StandardOutPath</key>\n    <string>";

/// The property list between the two log paths.
pub const PLIST_STDERR: &'static str = "</string>\n    <key>StandardErrorPath</key>\n    <string>";

/// The property list after the second log path.
pub const PLIST_TAIL: &'static str = "</string>\n</dict>\n</plist>\n";

/// Text of the property list that runs `exec` as the service and sends both
/// output streams to `log`.
pub open spec fn plist(exec: Seq<char>, log: Seq<char>) -> Seq<char> {
    PLIST_HEAD@ + SERVICE_NAME@ + PLIST_ARGUMENTS@ + exec + PLIST_BODY@ + log + PLIST_STDERR@ + log
        + PLIST_TAIL@
}

/// The property list for the executable at `exec`, logging to the file
/// `log`: started at load, kept alive while the network is up.
pub fn gen_plist(exec: &str, log: &str) -> (text: String)
    ensures
        text@ == plist(exec@, log@),
{
    let mut text = String::from_str(PLIST_HEAD);
    text.append(SERVICE_NAME);
    text.append(PLIST_ARGUMENTS);
    text.append(exec);
    text.append(PLIST_BODY);
    text.append(log);
    text.append(PLIST_STDERR);
    text.append(log);
    text.append(PLIST_TAIL);
    text
}

/// A call of `launchctl` with the arguments `verb -w` and the path of the
/// property list.
fn launchctl(verb: &str) -> (step: ServiceStep)
    ensures
        step@ == (ServiceStepView::Exec { cmd: LAUNCHCTL@, args: seq![verb@, "-w"@, PLIST_PATH@] }),
{
    let mut args: Vec<String> = Vec::new();
    args.push(String::from_str(verb));
    args.push(String::from_str("-w"));
    args.push(String::from_str(PLIST_PATH));
    let step = ServiceStep::Exec { cmd: String::from_str(LAUNCHCTL), args };
    assert(args.deep_view() =~= seq![verb@, "-w"@, PLIST_PATH@]);
    step
}

/// The steps that install the service for the executable at `exec`, logging
/// to `log`.
pub open spec fn install_steps(exec: Seq<char>, log: Seq<char>) -> Seq<ServiceStepView> {
    seq![
        ServiceStepView::Write { path: PLIST_PATH@, content: plist(exec, log) },
        ServiceStepView::Exec { cmd: LAUNCHCTL@, args: seq!["load"@, "-w"@, PLIST_PATH@] },
    ]
}

/// The steps that remove the service.
pub open spec fn uninstall_steps() -> Seq<ServiceStepView> {
    seq![
        ServiceStepView::Exec { cmd: LAUNCHCTL@, args: seq!["unload"@, "-w"@, PLIST_PATH@] },
        ServiceStepView::Remove { path: PLIST_PATH@ },
    ]
}

/// Installs the service for the executable at `exec`, logging to `log`:
/// write the property list, then load it.
pub fn install(exec: &str, log: &str) -> (steps: Vec<ServiceStep>)
    ensures
        steps.deep_view() == install_steps(exec@, log@),
{
    let mut steps: Vec<ServiceStep> = Vec::new();
    steps.push(
        ServiceStep::Write { path: String::from_str(PLIST_PATH), content: gen_plist(exec, log) },
    );
    steps.push(launchctl("load"));
    assert(steps.deep_view() =~= install_steps(exec@, log@));
    steps
}

/// Removes the service: unload the property list, then delete it.
pub fn uninstall() -> (steps: Vec<ServiceStep>)
    ensures
        steps.deep_view() == uninstall_steps(),
{
    let mut steps: Vec<ServiceStep> = Vec::new();
    steps.push(launchctl("unload"));
    steps.push(ServiceStep::Remove { path: String::from_str(PLIST_PATH) });
    assert(steps.deep_view() =~= uninstall_steps());
    steps
}

/// What `command` comes to for the executable at `exec`, logging to `log`.
pub fn run_service_command(command: &ServiceCommand, exec: &str, log: &str) -> (plan: ServicePlan)
    ensures
        match *command {
            ServiceCommand::Install => plan matches ServicePlan::Steps(steps) && steps.deep_view()
                == install_steps(exec@, log@),
            ServiceCommand::Uninstall => plan matches ServicePlan::Steps(steps)
                && steps.deep_view() == uninstall_steps(),
            ServiceCommand::Run => plan is Run,
        },
{
    match command {
        ServiceCommand::Install => ServicePlan::Steps(install(exec, log)),
        ServiceCommand::Uninstall => ServicePlan::Steps(uninstall()),
        ServiceCommand::Run => ServicePlan::Run,
    }
}

} // verus!
