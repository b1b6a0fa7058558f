//! The daemon as a process: whether it runs, where it notes its process, and how it is
//! stopped.

use crate::client;
use crate::json::Json;
use crate::json::JsonView;
use crate::{json_value, text};
use vstd::prelude::*;

verus! {

/// Whether the daemon runs.
#[derive(PartialEq, Eq, Debug)]
pub enum DaemonStatus {
    Running { pid: u32, uptime: Option<u64> },
    Stopped,
    Unhealthy { pid: u32, error: String },
}

/// The mathematical content of whether the daemon runs.
pub enum DaemonStatusView {
    Running { pid: u32, uptime: Option<u64> },
    Stopped,
    Unhealthy { pid: u32, error: Seq<char> },
}

impl View for DaemonStatus {
    type V = DaemonStatusView;

    open spec fn view(&self) -> DaemonStatusView {
        match self {
            DaemonStatus::Running { pid, uptime } => DaemonStatusView::Running {
                pid: *pid,
                uptime: *uptime,
            },
            DaemonStatus::Stopped => DaemonStatusView::Stopped,
            DaemonStatus::Unhealthy { pid, error } => DaemonStatusView::Unhealthy {
                pid: *pid,
                error: error@,
            },
        }
    }
}

impl Clone for DaemonStatus {
    fn clone(&self) -> (r: Self)
        ensures
            r@ == self@,
    {
        match self {
            DaemonStatus::Running { pid, uptime } => DaemonStatus::Running {
                pid: *pid,
                uptime: *uptime,
            },
            DaemonStatus::Stopped => DaemonStatus::Stopped,
            DaemonStatus::Unhealthy { pid, error } => DaemonStatus::Unhealthy {
                pid: *pid,
                error: error.clone(),
            },
        }
    }
}

/// What the daemon says of its own health.
#[derive(PartialEq, Eq, Debug)]
pub enum HealthEndpointStatus {
    Healthy { uptime: Option<u64> },
    Unhealthy { error: String },
}

/// The mathematical content of what the daemon says of its own health.
pub enum HealthEndpointStatusView {
    Healthy { uptime: Option<u64> },
    Unhealthy { error: Seq<char> },
}

impl View for HealthEndpointStatus {
    type V = HealthEndpointStatusView;

    open spec fn view(&self) -> HealthEndpointStatusView {
        match self {
            HealthEndpointStatus::Healthy { uptime } => HealthEndpointStatusView::Healthy {
                uptime: *uptime,
            },
            HealthEndpointStatus::Unhealthy { error } => HealthEndpointStatusView::Unhealthy {
                error: error@,
            },
        }
    }
}

impl Clone for HealthEndpointStatus {
    fn clone(&self) -> (r: Self)
        ensures
            r@ == self@,
    {
        match self {
            HealthEndpointStatus::Healthy { uptime } => HealthEndpointStatus::Healthy {
                uptime: *uptime,
            },
            HealthEndpointStatus::Unhealthy { error } => HealthEndpointStatus::Unhealthy {
                error: error.clone(),
            },
        }
    }
}

/// The process that the contents of a note name.
pub open spec fn noted_pid(content: Seq<char>) -> Option<u32> {
    match text::parsed_nat(text::trimmed(content)) {
        Some(n) => if n <= u32::MAX {
            Some(n as u32)
        } else {
            None
        },
        None => None,
    }
}

/// The process that the contents of a note name, with white space around it.
pub fn parse_pid(content: &str) -> (r: Option<u32>)
    ensures
        r == noted_pid(content@),
{
    let trimmed = text::trim(content);
    text::parse_u32(trimmed.as_str())
}

/// What is noted of a process.
pub fn pid_file_content(pid: u32) -> (r: String)
    ensures
        r@ == text::decimal(pid as nat),
{
    text::u64_text(pid as u64)
}

/// The address of the daemon at a host and a port.
pub fn build_base_url(host: &str, port: u16) -> (r: String)
    ensures
        r@ == client::base_url_of(host@, port),
{
    client::DaemonClient::new(host, port).base_url
}

/// Where the daemon tells of its health.
pub fn health_url(host: &str, port: u16) -> (r: String)
    ensures
        r@ == client::base_url_of(host@, port) + "/health"@,
{
    build_base_url(host, port).concat("/health")
}

/// How long the daemon has been up, by what it answers; missing where the answer is no
/// JSON, or does not say.
pub open spec fn told_uptime(body: Option<JsonView>) -> Option<u64> {
    match body {
        Some(v) => match v.get("uptime_seconds"@) {
            Some(n) => n.as_u64(),
            None => None,
        },
        None => None,
    }
}

/// What the daemon's answer says of its health, given its status, and the words for it.
pub fn probe_health_endpoint(status: u16, status_text: &str, body: Option<&Json>) -> (r:
    HealthEndpointStatus)
    ensures
        r@ == (if 200 <= status <= 299 {
            HealthEndpointStatusView::Healthy { uptime: told_uptime(crate::json::opt_json(body)) }
        } else {
            HealthEndpointStatusView::Unhealthy { error: "HTTP "@ + status_text@ }
        }),
{
    if 200 <= status && status <= 299 {
        let uptime: Option<u64> = match body {
            Some(v) => match v.get("uptime_seconds") {
                Some(n) => n.as_u64(),
                None => None,
            },
            None => None,
        };
        HealthEndpointStatus::Healthy { uptime }
    } else {
        HealthEndpointStatus::Unhealthy { error: "HTTP ".to_owned().concat(status_text) }
    }
}

/// What the daemon's answer says of its health, as the answer came; the body is missing
/// where it could not be read.
pub fn read_health_answer(status: u16, status_text: &str, body: Option<&[u8]>) -> (r:
    HealthEndpointStatus)
    ensures
        r@ == (if 200 <= status <= 299 {
            HealthEndpointStatusView::Healthy {
                uptime: told_uptime(
                    match body {
                        Some(bytes) => json_value::bytes_hold(bytes@),
                        None => None,
                    },
                ),
            }
        } else {
            HealthEndpointStatusView::Unhealthy { error: "HTTP "@ + status_text@ }
        }),
{
    match body {
        Some(bytes) => match json_value::read_bytes(bytes) {
            Some(read) => probe_health_endpoint(status, status_text, Some(&read)),
            None => probe_health_endpoint(status, status_text, None),
        },
        None => probe_health_endpoint(status, status_text, None),
    }
}

/// What asking the daemon for its health led to.
pub open spec fn probe_view(probe: Result<HealthEndpointStatus, String>) -> Result<
    HealthEndpointStatusView,
    Seq<char>,
> {
    match probe {
        Ok(h) => Ok(h@),
        Err(e) => Err(e@),
    }
}

/// Whether the daemon runs, and whether its note is stale, by what asking it led to, the
/// process that it noted here, and whether that process is there. A daemon that answers
/// runs, wherever it is; one that does not answer is only taken to be there where its
/// process is.
pub open spec fn status_of(
    local_pid: Option<u32>,
    probe: Result<HealthEndpointStatusView, Seq<char>>,
    process_alive: bool,
) -> (DaemonStatusView, bool) {
    let pid = match local_pid {
        Some(p) => p,
        None => 0,
    };
    match probe {
        Ok(HealthEndpointStatusView::Healthy { uptime }) => (
            DaemonStatusView::Running { pid, uptime },
            false,
        ),
        Ok(HealthEndpointStatusView::Unhealthy { error }) => (
            DaemonStatusView::Unhealthy { pid, error },
            false,
        ),
        Err(error) => if local_pid is None {
            (DaemonStatusView::Stopped, false)
        } else if process_alive {
            (DaemonStatusView::Unhealthy { pid, error }, false)
        } else {
            (DaemonStatusView::Stopped, true)
        },
    }
}

/// Decides whether the daemon runs, and whether its note is stale and goes.
pub fn check_daemon_running(
    local_pid: Option<u32>,
    probe: Result<HealthEndpointStatus, String>,
    process_alive: bool,
) -> (r: (DaemonStatus, bool))
    ensures
        (r.0@, r.1) == status_of(local_pid, probe_view(probe), process_alive),
{
    let pid: u32 = match local_pid {
        Some(p) => p,
        None => 0,
    };
    match probe {
        Ok(HealthEndpointStatus::Healthy { uptime }) => (
            DaemonStatus::Running { pid, uptime },
            false,
        ),
        Ok(HealthEndpointStatus::Unhealthy { error }) => (
            DaemonStatus::Unhealthy { pid, error },
            false,
        ),
        Err(error) => if local_pid.is_none() {
            (DaemonStatus::Stopped, false)
        } else if process_alive {
            (DaemonStatus::Unhealthy { pid, error }, false)
        } else {
            (DaemonStatus::Stopped, true)
        },
    }
}

/// What is done next to stop a daemon that was asked to end.
#[derive(Clone, Copy, PartialEq, Eq, Structural, Debug)]
pub enum StopAction {
    /// It has ended: its note goes.
    Stopped,
    /// Wait for a second, and look again.
    Wait,
    /// End it, wait for a second, and remove its note.
    Kill,
    /// Give up.
    TimedOut,
}

/// What is done next to stop a daemon that was asked to end, after a number of seconds:
/// it is looked at once for each second that it has.
pub open spec fn stop_next(alive: bool, waited: u64, timeout_secs: u64, force: bool) -> StopAction {
    if waited < timeout_secs {
        if alive {
            StopAction::Wait
        } else {
            StopAction::Stopped
        }
    } else if force {
        StopAction::Kill
    } else {
        StopAction::TimedOut
    }
}

/// Decides what is done next to stop a daemon that was asked to end.
pub fn stop_daemon(alive: bool, waited: u64, timeout_secs: u64, force: bool) -> (r: StopAction)
    ensures
        r == stop_next(alive, waited, timeout_secs, force),
{
    if waited < timeout_secs {
        if alive {
            StopAction::Wait
        } else {
            StopAction::Stopped
        }
    } else if force {
        StopAction::Kill
    } else {
        StopAction::TimedOut
    }
}

/// The place under a directory at which the daemon notes its process.
pub open spec fn note_under(dir: Seq<char>) -> Seq<char> {
    if dir.len() == 0 || dir.last() == '/' {
        dir + "aegis/aegis.pid"@
    } else {
        dir + "/aegis/aegis.pid"@
    }
}

/// The place at which the daemon notes its process: the one that is given, or one in
/// the directory for what runs, where the superuser has one, or among temporary files.
pub open spec fn pid_file_place(
    explicit: Option<Seq<char>>,
    uid: u32,
    runtime_dir: Option<Seq<char>>,
    temp_dir: Seq<char>,
) -> Seq<char> {
    if explicit is Some {
        explicit->Some_0
    } else if uid == 0 && runtime_dir is Some {
        note_under(runtime_dir->Some_0)
    } else {
        note_under(temp_dir)
    }
}

/// The place at which the daemon notes its process.
pub fn get_pid_file_path(
    explicit: Option<&str>,
    uid: u32,
    runtime_dir: Option<&str>,
    temp_dir: &str,
) -> (r: String)
    ensures
        r@ == pid_file_place(
            text::opt_str_view(explicit),
            uid,
            text::opt_str_view(runtime_dir),
            temp_dir@,
        ),
{
    if let Some(file) = explicit {
        return file.to_owned();
    }
    let dir = match runtime_dir {
        Some(d) => if uid == 0 {
            d
        } else {
            temp_dir
        },
        None => temp_dir,
    };
    let v = text::chars_of(dir);
    if v.len() == 0 || v[v.len() - 1] == '/' {
        dir.to_owned().concat("aegis/aegis.pid")
    } else {
        dir.to_owned().concat("/aegis/aegis.pid")
    }
}

/// The number by which the system knows a process, where the process can have one.
pub fn process_number(pid: u32) -> (r: Option<i32>)
    ensures
        r == (if pid <= i32::MAX {
            Some(pid as i32)
        } else {
            None
        }),
{
    if pid <= i32::MAX as u32 {
        Some(pid as i32)
    } else {
        None
    }
}

/// Why a signal could not be sent.
pub fn signal_error(pid: u32, signal: i32) -> (r: String)
    ensures
        r@ == (if pid <= i32::MAX {
            "Failed to send signal "@ + text::decimal_int(signal as int) + " to process "@
                + text::decimal(pid as nat)
        } else {
            "PID "@ + text::decimal(pid as nat) + " overflows i32; cannot send signal"@
        }),
{
    let pid_text = text::u64_text(pid as u64);
    if pid <= i32::MAX as u32 {
        "Failed to send signal ".to_owned().concat(text::i64_text(signal as i64).as_str()).concat(
            " to process ",
        ).concat(pid_text.as_str())
    } else {
        "PID ".to_owned().concat(pid_text.as_str()).concat(" overflows i32; cannot send signal")
    }
}

/// A note is stale only where the daemon is stopped, and a daemon that is stopped leaves
/// no note that names a process.
pub proof fn law_only_stale_notes_go(
    local_pid: Option<u32>,
    probe: Result<HealthEndpointStatusView, Seq<char>>,
    process_alive: bool,
)
    ensures
        status_of(local_pid, probe, process_alive).1 <==> (status_of(
            local_pid,
            probe,
            process_alive,
        ).0 is Stopped && local_pid is Some),
{
}

/// A daemon is given as many looks as it has seconds: it is never ended by force before,
/// and never waited for after.
pub proof fn law_stop_respects_the_timeout(alive: bool, waited: u64, timeout_secs: u64, force: bool)
    ensures
        stop_next(alive, waited, timeout_secs, force) == StopAction::Kill ==> force && waited
            >= timeout_secs,
        stop_next(alive, waited, timeout_secs, force) == StopAction::Wait ==> waited < timeout_secs,
        stop_next(alive, waited, timeout_secs, force) == StopAction::Stopped ==> !alive,
{
}

proof fn lemma_digit_is_no_space(s: Seq<char>)
    requires
        s.len() > 0,
        !text::whitespace(s[0]),
        !text::whitespace(s.last()),
    ensures
        text::trimmed(s) == s,
{
}

/// What is noted of a process names it.
pub proof fn law_noted_process_is_read_back(pid: u32)
    ensures
        noted_pid(text::decimal(pid as nat)) == Some(pid),
{
    let s = text::decimal(pid as nat);
    text::law_decimal_round_trip(pid as nat);
    lemma_decimal_ends(pid as nat);
    lemma_digit_is_no_space(s);
}

proof fn lemma_decimal_ends(n: nat)
    ensures
        text::decimal(n).len() > 0,
        exists|d: nat| d < 10 && text::decimal(n)[0] == #[trigger] text::digit_char(d),
        exists|d: nat| d < 10 && text::decimal(n).last() == #[trigger] text::digit_char(d),
    decreases n,
{
    if n < 10 {
        assert(text::decimal(n)[0] == text::digit_char(n));
        assert(text::decimal(n).last() == text::digit_char(n));
    } else {
        lemma_decimal_ends(n / 10);
        assert(text::decimal(n).last() == text::digit_char(n % 10));
        assert(text::decimal(n)[0] == text::decimal(n / 10)[0]);
    }
}

/// A daemon that answers is running for as long as it says, under the process that is
/// noted; one that answers badly is unhealthy, and one that is gone has stopped.
pub proof fn law_the_state_of_the_daemon(
    pid: u32,
    uptime: Option<u64>,
    error: Seq<char>,
    alive: bool,
)
    ensures
        status_of(Some(pid), Ok(HealthEndpointStatusView::Healthy { uptime }), alive) == (
            DaemonStatusView::Running { pid, uptime },
            false,
        ),
        status_of(None, Ok(HealthEndpointStatusView::Healthy { uptime }), alive).0 == (
        DaemonStatusView::Running { pid: 0, uptime }),
        status_of(Some(pid), Ok(HealthEndpointStatusView::Unhealthy { error }), alive).0 == (
        DaemonStatusView::Unhealthy { pid, error }),
        status_of(Some(pid), Err(error), true) == (
            DaemonStatusView::Unhealthy { pid, error },
            false,
        ),
        status_of(Some(pid), Err(error), false) == (DaemonStatusView::Stopped, true),
        status_of(None, Err(error), alive) == (DaemonStatusView::Stopped, false),
{
}

/// The time that a daemon has run is the number that its answer tells.
pub proof fn law_the_uptime_is_what_is_told(body: JsonView, n: u64)
    ensures
        body.get("uptime_seconds"@) == Some(JsonView::Int(n as int)) ==> told_uptime(Some(body))
            == Some(n),
        body.get("uptime_seconds"@) is None ==> told_uptime(Some(body)) is None,
        told_uptime(None) is None,
{
}

/// The note of the process lies where it is asked for, or for the superuser under the
/// runtime directory, or under the one for temporary files.
pub proof fn law_where_the_process_is_noted(
    place: Seq<char>,
    uid: u32,
    runtime: Seq<char>,
    temp: Seq<char>,
)
    ensures
        pid_file_place(Some(place), uid, Some(runtime), temp) == place,
        pid_file_place(None, 0, Some(runtime), temp) == note_under(runtime),
        pid_file_place(None, 0, None, temp) == note_under(temp),
        uid != 0 ==> pid_file_place(None, uid, Some(runtime), temp) == note_under(temp),
        temp.len() > 0 && temp.last() != '/' ==> note_under(temp) == temp + "/aegis/aegis.pid"@,
        temp.len() > 0 && temp.last() == '/' ==> note_under(temp) == temp + "aegis/aegis.pid"@,
{
}

/// A process is waited for while there is time and it lives; after that it is killed where
/// that is asked for.
pub proof fn law_stopping_step_by_step(waited: u64, timeout: u64, alive: bool, force: bool)
    ensures
        waited < timeout && alive ==> stop_next(alive, waited, timeout, force) == StopAction::Wait,
        waited < timeout && !alive ==> stop_next(alive, waited, timeout, force)
            == StopAction::Stopped,
        waited >= timeout && force ==> stop_next(alive, waited, timeout, force)
            == StopAction::Kill,
        waited >= timeout && !force ==> stop_next(alive, waited, timeout, force)
            == StopAction::TimedOut,
{
}

} // verus!
