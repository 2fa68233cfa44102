use vstd::prelude::*;
use crate::exit::ExitEvent;

verus! {

/// The reachability that the backend reports for the active network path.
#[derive(Clone, Copy, Debug, PartialEq, Eq, Structural)]
pub enum Connectivity {
    Unknown,
    Offline,
    Portal,
    Limited,
    Full,
}

/// Why a reachability probe did not succeed.
#[derive(Clone, Copy, Debug, PartialEq, Eq, Structural)]
pub enum ProbeError {
    /// The request could not be sent, or no response came.
    RequestFailed,
    /// A response came, with a status that is not a success.
    NoInternet,
}

impl ProbeError {
    /// What the probe reports for this failure.
    pub open spec fn text(self) -> Seq<char> {
        match self {
            ProbeError::RequestFailed => "Failed to send get request."@,
            ProbeError::NoInternet => "No internet connection."@,
        }
    }

    /// What the probe reports for this failure.
    pub fn message(&self) -> (line: &'static str)
        ensures
            line@ == self.text(),
    {
        match self {
            ProbeError::RequestFailed => "Failed to send get request.",
            ProbeError::NoInternet => "No internet connection.",
        }
    }
}

/// `reqwest::StatusCode::from_u16` followed by `StatusCode::is_success`: for a
/// code that is a status code at all (100 to 999), whether it lies in 200 to
/// 299.
#[verifier::external_body]
fn status_is_success(code: u16) -> (success: bool)
    requires
        100 <= code <= 999,
    ensures
        success == (200 <= code <= 299),
{
    match reqwest::StatusCode::from_u16(code) {
        Ok(status) => status.is_success(),
        Err(_) => false,
    }
}

/// Judges the probe's response: `response` is the status code of the answer,
/// or nothing where the request failed. The probe succeeds on a success
/// status (200 to 299) and on nothing else.
pub fn check_internet_connectivity(response: Option<u16>) -> (outcome: Result<(), ProbeError>)
    ensures
        outcome is Ok <==> (response matches Some(code) && 200 <= code <= 299),
        outcome == Err::<(), ProbeError>(ProbeError::RequestFailed) <==> response is None,
{
    match response {
        Some(code) => {
            if 100 <= code && code <= 999 && status_is_success(code) {
                Ok(())
            } else {
                Err(ProbeError::NoInternet)
            }
        },
        None => Err(ProbeError::RequestFailed),
    }
}

/// The seconds between two probes of the standalone prober.
pub const PROBE_INTERVAL: u64 = 10;

/// What the standalone prober does after a probe.
#[derive(Clone, Copy, Debug, PartialEq, Eq, Structural)]
pub enum ProbeStep {
    /// Post this exit event and end.
    Exit(ExitEvent),
    /// Sleep this many seconds and probe again.
    Retry(u64),
}

/// One round of the standalone prober: a successful probe ends it with
/// `InternetConnected`, any other is followed by a pause and another probe.
pub fn connectivity_thread(response: Option<u16>) -> (step: ProbeStep)
    ensures
        step == if response matches Some(code) && 200 <= code <= 299 {
            ProbeStep::Exit(ExitEvent::InternetConnected)
        } else {
            ProbeStep::Retry(PROBE_INTERVAL)
        },
{
    match check_internet_connectivity(response) {
        Ok(_) => ProbeStep::Exit(ExitEvent::InternetConnected),
        Err(_) => ProbeStep::Retry(PROBE_INTERVAL),
    }
}

/// The seconds for which a fresh connection is given to gain connectivity.
pub const CONNECTION_TIMEOUT: u64 = 30;

/// The seconds between two looks at the connectivity of a fresh connection.
pub const WAIT_INTERVAL: u64 = 1;

/// What to do after a look at the connectivity while waiting for a fresh
/// connection.
#[derive(Clone, Copy, Debug, PartialEq, Eq, Structural)]
pub enum WaitStep {
    /// Connectivity is there: stop waiting.
    Established,
    /// The time is up without connectivity: stop waiting.
    TimedOut,
    /// The backend could not say: stop waiting.
    Unknown,
    /// Sleep `WAIT_INTERVAL` seconds, then look again.
    Wait,
}

/// What follows a look at the connectivity, `total_time` seconds into a wait
/// of at most `timeout` seconds.
pub open spec fn wait_step(connectivity: Option<Connectivity>, total_time: u64, timeout: u64) -> WaitStep {
    match connectivity {
        None => WaitStep::Unknown,
        Some(c) => if c == Connectivity::Full || c == Connectivity::Limited {
            WaitStep::Established
        } else if total_time >= timeout {
            WaitStep::TimedOut
        } else {
            WaitStep::Wait
        },
    }
}

/// One round of the wait for connectivity after a connection was activated.
/// `connectivity` is what the backend reported, or nothing where the query
/// failed; `total_time` is the number of seconds waited so far. Full or
/// limited connectivity ends the wait at once; otherwise it goes on, second by
/// second, until `timeout` seconds have passed.
pub fn wait_for_wifi_connection(
    connectivity: Option<Connectivity>,
    total_time: u64,
    timeout: u64,
) -> (step: WaitStep)
    ensures
        step == wait_step(connectivity, total_time, timeout),
        step == WaitStep::Wait ==> total_time < timeout,
{
    match connectivity {
        None => WaitStep::Unknown,
        Some(Connectivity::Full) => WaitStep::Established,
        Some(Connectivity::Limited) => WaitStep::Established,
        Some(_) => {
            if total_time >= timeout {
                WaitStep::TimedOut
            } else {
                WaitStep::Wait
            }
        },
    }
}

} // verus!
