//! The service under the Windows service control manager.
//!
//! Talking to the service control manager is the host program's. What is
//! decided on the way is decided here.

use vstd::prelude::*;

verus! {

/// Name the service is shown under.
pub const SERVICE_DISPLAY_NAME: &'static str = "Cloudflare DDNS";

/// Image name of the process that starts every service.
pub const SERVICES_IMAGE: &'static str = "services.exe";

/// Bytes that usually hold the table of all processes.
pub const PROCESS_TABLE_BYTES: u32 = 524288;

/// Bytes added to the size the system asked for, in case new processes were
/// spawned in between.
pub const PROCESS_TABLE_MARGIN: u32 = 32768;

/// Control code by which the service control manager asks a service to stop.
pub const SERVICE_CONTROL_STOP: u32 = 1;

/// Control code by which the service control manager asks a service to
/// report its status.
pub const SERVICE_CONTROL_INTERROGATE: u32 = 4;

/// Control code by which the service control manager tells a service that
/// the system is shutting down.
pub const SERVICE_CONTROL_SHUTDOWN: u32 = 5;

/// What the service control manager can ask of the service.
#[derive(Clone, Copy, Debug, PartialEq, Eq, Hash, Structural)]
pub enum ServiceControl {
    /// Report the current status.
    Interrogate,
    /// The system is shutting down.
    Shutdown,
    /// Stop.
    Stop,
}

impl ServiceControl {
    /// The control that the code `control` stands for, if the service knows
    /// it.
    pub open spec fn of(control: u32) -> Option<ServiceControl> {
        if control == SERVICE_CONTROL_INTERROGATE {
            Some(ServiceControl::Interrogate)
        } else if control == SERVICE_CONTROL_SHUTDOWN {
            Some(ServiceControl::Shutdown)
        } else if control == SERVICE_CONTROL_STOP {
            Some(ServiceControl::Stop)
        } else {
            None
        }
    }

    /// Reads a control code as the service control manager hands it to the
    /// handler. A code that the service does not handle gives `None`.
    pub fn from_raw(control: u32) -> (known: Option<ServiceControl>)
        ensures
            known == ServiceControl::of(control),
    {
        if control == SERVICE_CONTROL_INTERROGATE {
            Some(ServiceControl::Interrogate)
        } else if control == SERVICE_CONTROL_SHUTDOWN {
            Some(ServiceControl::Shutdown)
        } else if control == SERVICE_CONTROL_STOP {
            Some(ServiceControl::Stop)
        } else {
            None
        }
    }

    /// The code that stands for the control.
    pub open spec fn code(self) -> u32 {
        match self {
            ServiceControl::Interrogate => SERVICE_CONTROL_INTERROGATE,
            ServiceControl::Shutdown => SERVICE_CONTROL_SHUTDOWN,
            ServiceControl::Stop => SERVICE_CONTROL_STOP,
        }
    }
}

/// A code is read as a control exactly if it is that control's code.
pub proof fn lemma_control_codes(control: u32, known: ServiceControl)
    ensures
        ServiceControl::of(control) == Some(known) <==> control == known.code(),
        ServiceControl::of(known.code()) == Some(known),
{
}

/// The character with an ASCII capital letter turned into its small letter.
pub open spec fn ascii_lower(c: char) -> char {
    if 0x41 <= c as u32 <= 0x5a {
        ((c as u32) + 0x20) as char
    } else {
        c
    }
}

/// The two texts are the same but for the case of their ASCII letters.
pub open spec fn same_ignoring_ascii_case(a: Seq<char>, b: Seq<char>) -> bool {
    &&& a.len() == b.len()
    &&& forall|i: int| 0 <= i < a.len() ==> ascii_lower(#[trigger] a[i]) == ascii_lower(b[i])
}

/// `str::eq_ignore_ascii_case` of the standard library, which is documented
/// as the comparison of the two strings after each had its ASCII letters
/// `A` to `Z` mapped to `a` to `z` and everything else left unchanged. The
/// contract states that.
#[verifier::external_body]
fn eq_ignore_ascii_case(a: &str, b: &str) -> (same: bool)
    ensures
        same == same_ignoring_ascii_case(a@, b@),
{
    a.eq_ignore_ascii_case(b)
}

/// Whether a process runs as a Windows service, told by its parent: the
/// parent of a service is `services.exe`, in whatever case, in session 0.
pub fn is_in_windows_service(parent_session_id: u32, parent_image_name: &str) -> (hosted: bool)
    ensures
        hosted == (parent_session_id == 0 && same_ignoring_ascii_case(
            parent_image_name@,
            SERVICES_IMAGE@,
        )),
{
    parent_session_id == 0 && eq_ignore_ascii_case(parent_image_name, SERVICES_IMAGE)
}

/// The size to ask with when the process table did not fit into `current`
/// bytes: what the system says it needs and a margin on top, or, where it
/// says nothing, twice the size that was too small. The size never exceeds
/// what the system call can be handed.
pub open spec fn grown(current: u32, needed: u32) -> int {
    let wanted = if needed != 0 {
        needed + PROCESS_TABLE_MARGIN
    } else {
        2 * current
    };
    if wanted > u32::MAX {
        u32::MAX as int
    } else {
        wanted
    }
}

/// The buffer size to try next after `current` bytes were too few and the
/// system asked for `needed`, where 0 stands for no answer.
pub fn next_buffer_size(current: u32, needed: u32) -> (next: u32)
    ensures
        next == grown(current, needed),
{
    if needed != 0 {
        needed.saturating_add(PROCESS_TABLE_MARGIN)
    } else {
        current.saturating_add(current)
    }
}

} // verus!
