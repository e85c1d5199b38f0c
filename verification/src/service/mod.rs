//! Running the client as a background service of the operating system.
//!
//! The modules here say what installing and removing the service consists
//! of. They touch nothing: the host program writes the files and runs the
//! commands, in the order given, and stops at the first that fails.

use vstd::prelude::*;

pub mod linux;
pub mod macos;
pub mod windows;

verus! {

/// Name under which the service is registered.
pub const SERVICE_NAME: &'static str = "cf-ddns";

/// What the service does, in one sentence.
pub const SERVICE_DESCRIPTION: &'static str =
    "Updates Cloudflare DNS records with the current public IP address.";

/// What the service subcommand can be asked to do.
#[derive(Clone, Copy, Debug, PartialEq, Eq, Structural)]
pub enum ServiceCommand {
    /// Register the service and start it.
    Install,
    /// Stop the service and remove it.
    Uninstall,
    /// Run as the service: reconcile at every interval until told to stop.
    Run,
}

/// One thing to do to the system while installing or removing the service.
#[derive(Debug, PartialEq, Eq)]
pub enum ServiceStep {
    /// Write `content` to the file `path`, replacing what is there.
    Write { path: String, content: String },
    /// Remove the file `path`.
    Remove { path: String },
    /// Run the program `cmd` with `args` and require that it succeeds.
    Exec { cmd: String, args: Vec<String> },
}

/// A step over character sequences.
pub enum ServiceStepView {
    Write { path: Seq<char>, content: Seq<char> },
    Remove { path: Seq<char> },
    Exec { cmd: Seq<char>, args: Seq<Seq<char>> },
}

impl View for ServiceStep {
    type V = ServiceStepView;

    open spec fn view(&self) -> ServiceStepView {
        match self {
            ServiceStep::Write { path, content } => ServiceStepView::Write {
                path: path@,
                content: content@,
            },
            ServiceStep::Remove { path } => ServiceStepView::Remove { path: path@ },
            ServiceStep::Exec { cmd, args } => ServiceStepView::Exec {
                cmd: cmd@,
                args: args.deep_view(),
            },
        }
    }
}

impl DeepView for ServiceStep {
    type V = ServiceStepView;

    open spec fn deep_view(&self) -> ServiceStepView {
        self@
    }
}

/// What a service command comes to: steps to carry out, or the service loop.
#[derive(Debug, PartialEq, Eq)]
pub enum ServicePlan {
    /// Carry out these steps in order.
    Steps(Vec<ServiceStep>),
    /// Run the reconciliation loop until interrupted.
    Run,
}

} // verus!
