//! Reaping of orphaned agent containers.
//!
//! A container that cannot be killed is retried with growing pauses and, after
//! `QUARANTINE_THRESHOLD` failures in a row, put in quarantine: it is reported
//! once as an error and from then on only at debug level.

use crate::string_map::StringMap;
use crate::text;
use vstd::prelude::*;

verus! {

/// Number of consecutive failures after which a container is quarantined.
pub const QUARANTINE_THRESHOLD: u32 = 5;

/// Where the life of an execution stands.
#[derive(Clone, Copy, PartialEq, Eq, Structural, Debug)]
pub enum ExecutionStatus {
    Pending,
    Running,
    Completed,
    Failed,
    Cancelled,
}

/// A container that the daemon manages, as the container engine lists it.
pub struct ManagedAgentContainer {
    pub id: String,
    pub execution_id: Option<String>,
    pub debug_retain: bool,
    pub state: Option<String>,
}

/// What is kept about a container that could not be killed. Moments are
/// nanoseconds of a monotonic clock.
#[derive(Clone, Copy, PartialEq, Eq, Structural, Debug)]
pub struct ReapAttemptState {
    pub attempts: u32,
    pub last_attempt: u128,
    pub quarantined: bool,
}

/// Seconds to wait after the given number of failures.
pub open spec fn backoff_secs(attempts: u32) -> u64 {
    if attempts <= 1 {
        300
    } else if attempts == 2 {
        600
    } else if attempts == 3 {
        1200
    } else if attempts == 4 {
        2400
    } else {
        3600
    }
}

impl ReapAttemptState {
    /// The state after the first failure.
    pub open spec fn first(now: u128) -> ReapAttemptState {
        ReapAttemptState { attempts: 1, last_attempt: now, quarantined: false }
    }

    /// The state after one more failure.
    pub open spec fn failed_again(self, now: u128) -> ReapAttemptState {
        let attempts = if self.attempts == u32::MAX {
            u32::MAX
        } else {
            (self.attempts + 1) as u32
        };
        ReapAttemptState {
            attempts,
            last_attempt: now,
            quarantined: self.quarantined || attempts >= QUARANTINE_THRESHOLD,
        }
    }

    /// Whether the pause after the last attempt is over.
    pub open spec fn is_due(self, now: u128) -> bool {
        now - self.last_attempt >= backoff_secs(self.attempts) * 1_000_000_000
    }

    /// The state after the first failure.
    pub fn new(now: u128) -> (r: Self)
        ensures
            r == ReapAttemptState::first(now),
    {
        Self { attempts: 1, last_attempt: now, quarantined: false }
    }

    /// Seconds to wait after the given number of failures. The pause is capped
    /// at an hour, so that a quarantined container is still looked at hourly.
    pub fn backoff(attempts: u32) -> (secs: u64)
        ensures
            secs == backoff_secs(attempts),
    {
        match attempts {
            0 | 1 => 300,
            2 => 600,
            3 => 1200,
            4 => 2400,
            _ => 3600,
        }
    }

    /// Whether enough time has passed since the last attempt to try again.
    pub fn should_attempt(&self, now: u128) -> (r: bool)
        ensures
            r == self.is_due(now),
    {
        let pause: u128 = Self::backoff(self.attempts) as u128 * 1_000_000_000;
        now >= self.last_attempt && now - self.last_attempt >= pause
    }

    /// Counts one more failure.
    pub fn record_failure(&mut self, now: u128)
        ensures
            *final(self) == old(self).failed_again(now),
    {
        self.attempts = if self.attempts == u32::MAX { u32::MAX } else { self.attempts + 1 };
        self.last_attempt = now;
        if self.attempts >= QUARANTINE_THRESHOLD {
            self.quarantined = true;
        }
    }
}

impl ManagedAgentContainer {
    /// Whether the engine reports the given state.
    pub open spec fn in_state(self, state: Seq<char>) -> bool {
        text::opt_view(self.state) == Some(state)
    }

    fn is_in_state(&self, state: &str) -> (r: bool)
        ensures
            r == self.in_state(state@),
    {
        match &self.state {
            Some(s) => text::str_eq(s.as_str(), state),
            None => false,
        }
    }
}

/// Why a container is to be reaped, if it is.
pub open spec fn reap_reason(
    container: ManagedAgentContainer,
    status: Option<ExecutionStatus>,
) -> Option<Seq<char>> {
    if container.debug_retain || container.in_state("stopping"@) || container.in_state(
        "removing"@,
    ) {
        None
    } else if status is None {
        Some("missing_execution_record"@)
    } else if status == Some(ExecutionStatus::Running) {
        if container.in_state("running"@) {
            None
        } else {
            Some("container_not_running"@)
        }
    } else {
        Some("execution_not_running"@)
    }
}

/// Why a container is to be reaped, if it is. A container that the engine is
/// already tearing down, or that is kept for debugging, never is.
pub fn managed_container_reap_reason(
    container: &ManagedAgentContainer,
    execution_status: Option<&ExecutionStatus>,
) -> (r: Option<&'static str>)
    ensures
        text::opt_str_view(r) == reap_reason(
            *container,
            match execution_status {
                Some(s) => Some(*s),
                None => None,
            },
        ),
{
    if container.debug_retain {
        return None;
    }
    if container.is_in_state("stopping") || container.is_in_state("removing") {
        return None;
    }
    match execution_status {
        None => Some("missing_execution_record"),
        Some(s) => if *s == ExecutionStatus::Running {
            if container.is_in_state("running") {
                None
            } else {
                Some("container_not_running")
            }
        } else {
            Some("execution_not_running")
        },
    }
}

/// The container engine that manages a container.
#[derive(Clone, Copy, PartialEq, Eq, Structural, Debug)]
pub enum ContainerEngineKind {
    Podman,
    Docker,
    Unknown,
}

/// What looking up a container's execution brought.
#[derive(Clone, Copy, PartialEq, Eq, Structural, Debug)]
pub enum ExecutionLookup {
    Found(ExecutionStatus),
    Missing,
    /// The container's label is not an execution id.
    InvalidId,
    /// The repository failed.
    Failed,
}

/// What came of an attempt to terminate a container.
pub enum TerminateOutcome {
    Terminated,
    Unkillable { container_id: String, engine: ContainerEngineKind },
    Failed,
}

/// What the sweep has just learnt about a container.
pub enum ReapEvent {
    /// The engine listed the container.
    Listed,
    /// The container's execution was looked up.
    LookedUp(ExecutionLookup),
    /// The container was asked to terminate.
    Asked(TerminateOutcome),
}

/// How loud a failure is reported.
#[derive(Clone, Copy, PartialEq, Eq, Structural, Debug)]
pub enum LogLevel {
    Debug,
    Warn,
    Error,
}

/// The report of a container that could not be killed.
pub struct UnkillableLog {
    pub level: LogLevel,
    pub attempts: u32,
    pub quarantined: bool,
    pub next_retry_in_secs: Option<u64>,
    pub message: String,
}

/// The mathematical content of a report.
pub struct UnkillableLogView {
    pub level: LogLevel,
    pub attempts: u32,
    pub quarantined: bool,
    pub next_retry_in_secs: Option<u64>,
    pub message: Seq<char>,
}

impl View for UnkillableLog {
    type V = UnkillableLogView;

    open spec fn view(&self) -> UnkillableLogView {
        UnkillableLogView {
            level: self.level,
            attempts: self.attempts,
            quarantined: self.quarantined,
            next_retry_in_secs: self.next_retry_in_secs,
            message: self.message@,
        }
    }
}

/// What the sweep does next with a container.
pub enum ReapAction {
    /// Go on to the next container.
    NextContainer,
    /// Look up the execution that the label names.
    LookUp,
    /// Go on as if no execution had been found.
    Decide,
    /// Terminate the container, for the given reason.
    Terminate(&'static str),
    /// Count the container as reaped and go on to the next one.
    CountReaped,
    /// Report the failure and go on to the next container.
    Report(UnkillableLog),
}

/// The mathematical content of an action.
pub enum ReapActionView {
    NextContainer,
    LookUp,
    Decide,
    Terminate(Seq<char>),
    CountReaped,
    Report(UnkillableLogView),
}

impl View for ReapAction {
    type V = ReapActionView;

    open spec fn view(&self) -> ReapActionView {
        match self {
            ReapAction::NextContainer => ReapActionView::NextContainer,
            ReapAction::LookUp => ReapActionView::LookUp,
            ReapAction::Decide => ReapActionView::Decide,
            ReapAction::Terminate(reason) => ReapActionView::Terminate(reason@),
            ReapAction::CountReaped => ReapActionView::CountReaped,
            ReapAction::Report(log) => ReapActionView::Report(log@),
        }
    }
}

/// The bookkeeping of the reaper: the failures of each container.
pub type AttemptStates = StringMap<ReapAttemptState>;

/// Drops what is kept about containers that the engine no longer lists.
pub fn begin_sweep(states: &mut AttemptStates, containers: &Vec<ManagedAgentContainer>)
    requires
        old(states).wf(),
    ensures
        final(states).wf(),
        final(states)@ == old(states)@.restrict(container_ids(containers@).to_set()),
{
    let mut ids: Vec<String> = Vec::new();
    for i in 0..containers.len()
        invariant
            ids@.len() == i,
            forall|j: int| 0 <= j < i ==> #[trigger] ids@[j]@ == containers@[j].id@,
    {
        ids.push(containers[i].id.clone());
    }
    assert(text::views(ids@) =~= container_ids(containers@));
    states.retain_keys(&ids);
}

/// The hint that goes with a container that could not be killed.
pub open spec fn unkillable_hint(engine: ContainerEngineKind) -> Seq<char> {
    if engine == ContainerEngineKind::Podman {
        "Agent process likely wedged in a D-state syscall against a hung FUSE mount. Check `systemctl --user status aegis-fuse-daemon` and `/proc/<pid>/stack` for fuse_request_wait or similar; recover with `nsenter -t <pid> -m umount -l <mount>`."@
    } else {
        "Agent process likely in uninterruptible sleep. Check `/proc/<pid>/stack` and `/proc/<pid>/wchan` for the blocked syscall."@
    }
}

/// The report of a failure that left the given state: an error at the moment the
/// threshold is reached, debug output after that, a warning before.
pub open spec fn unkillable_log(
    state: ReapAttemptState,
    engine: ContainerEngineKind,
) -> UnkillableLogView {
    if state.quarantined && state.attempts == QUARANTINE_THRESHOLD {
        UnkillableLogView {
            level: LogLevel::Error,
            attempts: state.attempts,
            quarantined: true,
            next_retry_in_secs: None,
            message: "Container quarantined after repeated unkillable failures. "@
                + unkillable_hint(engine),
        }
    } else if state.quarantined {
        UnkillableLogView {
            level: LogLevel::Debug,
            attempts: state.attempts,
            quarantined: true,
            next_retry_in_secs: None,
            message: "Quarantined container still unkillable; suppressing additional error logs"@,
        }
    } else {
        UnkillableLogView {
            level: LogLevel::Warn,
            attempts: state.attempts,
            quarantined: false,
            next_retry_in_secs: Some(backoff_secs(state.attempts)),
            message: "Container unkillable; will retry after backoff. "@ + unkillable_hint(engine),
        }
    }
}

/// The report of a failure that left the given state.
pub fn emit_unkillable_log(state: &ReapAttemptState, engine: ContainerEngineKind) -> (r:
    UnkillableLog)
    ensures
        r@ == unkillable_log(*state, engine),
{
    let hint = if engine == ContainerEngineKind::Podman {
        "Agent process likely wedged in a D-state syscall against a hung FUSE mount. Check `systemctl --user status aegis-fuse-daemon` and `/proc/<pid>/stack` for fuse_request_wait or similar; recover with `nsenter -t <pid> -m umount -l <mount>`."
    } else {
        "Agent process likely in uninterruptible sleep. Check `/proc/<pid>/stack` and `/proc/<pid>/wchan` for the blocked syscall."
    };
    if state.quarantined && state.attempts == QUARANTINE_THRESHOLD {
        UnkillableLog {
            level: LogLevel::Error,
            attempts: state.attempts,
            quarantined: true,
            next_retry_in_secs: None,
            message: "Container quarantined after repeated unkillable failures. ".to_owned().concat(
                hint,
            ),
        }
    } else if state.quarantined {
        UnkillableLog {
            level: LogLevel::Debug,
            attempts: state.attempts,
            quarantined: true,
            next_retry_in_secs: None,
            message: "Quarantined container still unkillable; suppressing additional error logs".to_owned(),
        }
    } else {
        UnkillableLog {
            level: LogLevel::Warn,
            attempts: state.attempts,
            quarantined: false,
            next_retry_in_secs: Some(ReapAttemptState::backoff(state.attempts)),
            message: "Container unkillable; will retry after backoff. ".to_owned().concat(hint),
        }
    }
}

/// The state of a container after a failure to kill it.
pub open spec fn state_after_failure(
    states: Map<Seq<char>, ReapAttemptState>,
    id: Seq<char>,
    now: u128,
) -> ReapAttemptState {
    if states.dom().contains(id) {
        states[id].failed_again(now)
    } else {
        ReapAttemptState::first(now)
    }
}

/// What the sweep does next with a container.
pub open spec fn reap_action(
    states: Map<Seq<char>, ReapAttemptState>,
    container: ManagedAgentContainer,
    now: u128,
    event: ReapEvent,
) -> ReapActionView {
    match event {
        ReapEvent::Listed => if container.debug_retain {
            ReapActionView::NextContainer
        } else if states.dom().contains(container.id@) && !states[container.id@].is_due(now) {
            ReapActionView::NextContainer
        } else if container.execution_id is Some {
            ReapActionView::LookUp
        } else {
            ReapActionView::Decide
        },
        ReapEvent::LookedUp(ExecutionLookup::Failed) => ReapActionView::NextContainer,
        ReapEvent::LookedUp(lookup) => match reap_reason(container, lookup.status()) {
            Some(reason) => ReapActionView::Terminate(reason),
            None => ReapActionView::NextContainer,
        },
        ReapEvent::Asked(TerminateOutcome::Terminated) => ReapActionView::CountReaped,
        ReapEvent::Asked(
            TerminateOutcome::Unkillable { container_id, engine },
        ) => ReapActionView::Report(
            unkillable_log(state_after_failure(states, container_id@, now), engine),
        ),
        ReapEvent::Asked(TerminateOutcome::Failed) => ReapActionView::NextContainer,
    }
}

/// What is kept about the containers after an event.
pub open spec fn states_after(
    states: Map<Seq<char>, ReapAttemptState>,
    container: ManagedAgentContainer,
    now: u128,
    event: ReapEvent,
) -> Map<Seq<char>, ReapAttemptState> {
    match event {
        ReapEvent::Listed => states,
        ReapEvent::LookedUp(ExecutionLookup::Failed) => states,
        ReapEvent::LookedUp(lookup) => if reap_reason(container, lookup.status()) is None {
            states.remove(container.id@)
        } else {
            states
        },
        ReapEvent::Asked(TerminateOutcome::Terminated) => states.remove(container.id@),
        ReapEvent::Asked(TerminateOutcome::Unkillable { container_id, .. }) => states.insert(
            container_id@,
            state_after_failure(states, container_id@, now),
        ),
        ReapEvent::Asked(TerminateOutcome::Failed) => states,
    }
}

impl ExecutionLookup {
    /// The status that was found. An invalid id counts as no execution.
    pub open spec fn status(self) -> Option<ExecutionStatus> {
        match self {
            ExecutionLookup::Found(s) => Some(s),
            _ => None,
        }
    }
}

/// One step of the sweep with one container: takes what was learnt, updates the
/// bookkeeping and says what to do next. `ReapAction::Decide` asks for a step
/// with `ExecutionLookup::Missing`.
pub fn reap_step(
    states: &mut AttemptStates,
    container: &ManagedAgentContainer,
    now: u128,
    event: ReapEvent,
) -> (action: ReapAction)
    requires
        old(states).wf(),
    ensures
        final(states).wf(),
        final(states)@ == states_after(old(states)@, *container, now, event),
        action@ == reap_action(old(states)@, *container, now, event),
{
    match event {
        ReapEvent::Listed => {
            if container.debug_retain {
                return ReapAction::NextContainer;
            }
            if let Some(state) = states.get(container.id.as_str()) {
                if !state.should_attempt(now) {
                    return ReapAction::NextContainer;
                }
            }
            if container.execution_id.is_some() {
                ReapAction::LookUp
            } else {
                ReapAction::Decide
            }
        },
        ReapEvent::LookedUp(lookup) => {
            let found: Option<ExecutionStatus> = match lookup {
                ExecutionLookup::Failed => {
                    return ReapAction::NextContainer;
                },
                ExecutionLookup::Found(s) => Some(s),
                ExecutionLookup::Missing => None,
                ExecutionLookup::InvalidId => None,
            };
            match managed_container_reap_reason(container, found.as_ref()) {
                Some(reason) => ReapAction::Terminate(reason),
                None => {
                    states.remove(container.id.as_str());
                    ReapAction::NextContainer
                },
            }
        },
        ReapEvent::Asked(outcome) => match outcome {
            TerminateOutcome::Terminated => {
                states.remove(container.id.as_str());
                ReapAction::CountReaped
            },
            TerminateOutcome::Unkillable { container_id, engine } => {
                let state = match states.get(container_id.as_str()) {
                    Some(known) => {
                        let mut next = *known;
                        next.record_failure(now);
                        next
                    },
                    None => ReapAttemptState::new(now),
                };
                states.insert(container_id.as_str(), state);
                ReapAction::Report(emit_unkillable_log(&state, engine))
            },
            TerminateOutcome::Failed => ReapAction::NextContainer,
        },
    }
}

/// The state after the given number of failures in a row, at the given moments.
pub open spec fn after_failures(moments: Seq<u128>) -> ReapAttemptState
    decreases moments.len(),
{
    if moments.len() <= 1 {
        ReapAttemptState::first(moments[0])
    } else {
        after_failures(moments.drop_last()).failed_again(moments.last())
    }
}

/// Consecutive failures are counted, up to the largest count there is, and a container
/// is in quarantine exactly from the threshold on.
pub proof fn law_quarantine_at_threshold(moments: Seq<u128>)
    requires
        1 <= moments.len(),
    ensures
        after_failures(moments).attempts == (if moments.len() < u32::MAX {
            moments.len() as int
        } else {
            u32::MAX as int
        }),
        after_failures(moments).last_attempt == moments.last(),
        after_failures(moments).quarantined <==> moments.len() >= QUARANTINE_THRESHOLD,
    decreases moments.len(),
{
    if moments.len() > 1 {
        law_quarantine_at_threshold(moments.drop_last());
    }
}

/// In a run of consecutive failures exactly one is reported as an error: the one
/// that reaches the threshold.
pub proof fn law_one_error_per_stuck_container(
    moments: Seq<u128>,
    engine: ContainerEngineKind,
)
    requires
        1 <= moments.len(),
    ensures
        unkillable_log(after_failures(moments), engine).level == LogLevel::Error
            <==> moments.len() == QUARANTINE_THRESHOLD,
        unkillable_log(after_failures(moments), engine).level == LogLevel::Warn <==> moments.len()
            < QUARANTINE_THRESHOLD,
{
    law_quarantine_at_threshold(moments);
}

/// The pause never shrinks as failures add up, and stays between five minutes and
/// an hour.
pub proof fn law_backoff_monotone_and_capped(fewer: u32, more: u32)
    requires
        fewer <= more,
    ensures
        backoff_secs(fewer) <= backoff_secs(more),
        300 <= backoff_secs(fewer) <= 3600,
{
}

/// A container that the engine is already tearing down is never asked to
/// terminate, whatever its execution is doing.
pub proof fn law_torn_down_containers_are_left_alone(
    states: Map<Seq<char>, ReapAttemptState>,
    container: ManagedAgentContainer,
    now: u128,
    event: ReapEvent,
)
    requires
        container.in_state("stopping"@) || container.in_state("removing"@)
            || container.debug_retain,
    ensures
        !(reap_action(states, container, now, event) is Terminate),
{
}

/// Once a container was terminated, or is no longer to be reaped, nothing is kept
/// about it: a later failure starts from one.
pub proof fn law_success_clears_bookkeeping(
    states: Map<Seq<char>, ReapAttemptState>,
    container: ManagedAgentContainer,
    now: u128,
    later: u128,
)
    ensures
        state_after_failure(
            states_after(
                states,
                container,
                now,
                ReapEvent::Asked(TerminateOutcome::Terminated),
            ),
            container.id@,
            later,
        ) == ReapAttemptState::first(later),
{
}

/// Until its pause is over, a container that could not be killed is not touched.
pub proof fn law_no_attempt_within_backoff(
    states: Map<Seq<char>, ReapAttemptState>,
    container: ManagedAgentContainer,
    failed_at: u128,
    now: u128,
    engine: ContainerEngineKind,
    container_id: String,
)
    requires
        container_id@ == container.id@,
        now - failed_at < backoff_secs(
            state_after_failure(states, container.id@, failed_at).attempts,
        ) * 1_000_000_000,
    ensures
        reap_action(
            states_after(
                states,
                container,
                failed_at,
                ReapEvent::Asked(TerminateOutcome::Unkillable { container_id, engine }),
            ),
            container,
            now,
            ReapEvent::Listed,
        ) is NextContainer,
{
}

/// What a sweep learns of one container, as far as it asks: when it comes to the
/// container, what the container's execution is doing, what became of the container,
/// and when.
pub struct Observed {
    pub listed_at: u128,
    pub lookup: ExecutionLookup,
    pub outcome: TerminateOutcome,
    pub asked_at: u128,
}

/// What a sweep does with one container: what is kept after it, and whether the
/// container is counted as reaped.
pub open spec fn visit(
    states: Map<Seq<char>, ReapAttemptState>,
    container: ManagedAgentContainer,
    seen: Observed,
) -> (Map<Seq<char>, ReapAttemptState>, bool) {
    let listed = reap_action(states, container, seen.listed_at, ReapEvent::Listed);
    if listed is NextContainer {
        (states, false)
    } else {
        let looked = ReapEvent::LookedUp(
            if listed is LookUp {
                seen.lookup
            } else {
                ExecutionLookup::Missing
            },
        );
        let kept = states_after(states, container, seen.listed_at, looked);
        if reap_action(states, container, seen.listed_at, looked) is Terminate {
            let asked = ReapEvent::Asked(seen.outcome);
            (
                states_after(kept, container, seen.asked_at, asked),
                reap_action(kept, container, seen.asked_at, asked) is CountReaped,
            )
        } else {
            (kept, false)
        }
    }
}

/// What a sweep over containers leaves: what is kept, and the containers that were
/// counted as reaped, in their order.
pub open spec fn sweep(
    states: Map<Seq<char>, ReapAttemptState>,
    containers: Seq<ManagedAgentContainer>,
    seen: Seq<Observed>,
) -> (Map<Seq<char>, ReapAttemptState>, Seq<Seq<char>>)
    decreases containers.len(),
{
    if containers.len() == 0 {
        (states, Seq::empty())
    } else {
        let (before, reaped) = sweep(states, containers.drop_last(), seen.drop_last());
        let (after, counted) = visit(before, containers.last(), seen.last());
        (
            after,
            if counted {
                reaped.push(containers.last().id@)
            } else {
                reaped
            },
        )
    }
}

/// The identifiers of containers.
pub open spec fn container_ids(containers: Seq<ManagedAgentContainer>) -> Seq<Seq<char>> {
    containers.map_values(|c: ManagedAgentContainer| c.id@)
}

/// Whether each container is listed once, and a failure to kill one names the one that
/// was asked.
pub open spec fn consistent(containers: Seq<ManagedAgentContainer>, seen: Seq<Observed>) -> bool {
    &&& seen.len() == containers.len()
    &&& container_ids(containers).no_duplicates()
    &&& forall|i: int|
        0 <= i < seen.len() ==> ((#[trigger] seen[i]).outcome matches TerminateOutcome::Unkillable {
            container_id,
            ..
        } ==> container_id@ == containers[i].id@)
}

proof fn lemma_sweep(
    states: Map<Seq<char>, ReapAttemptState>,
    containers: Seq<ManagedAgentContainer>,
    seen: Seq<Observed>,
)
    requires
        consistent(containers, seen),
    ensures
        forall|id: Seq<char>|
            !container_ids(containers).contains(id) ==> (#[trigger] sweep(
                states,
                containers,
                seen,
            ).0.dom().contains(id) <==> states.dom().contains(id)) && (states.dom().contains(id)
                ==> sweep(states, containers, seen).0[id] == states[id]),
        forall|k: int|
            0 <= k < sweep(states, containers, seen).1.len() ==> container_ids(containers).contains(
                #[trigger] sweep(states, containers, seen).1[k],
            ) && !sweep(states, containers, seen).0.dom().contains(
                sweep(states, containers, seen).1[k],
            ),
        forall|i: int|
            0 <= i < containers.len() ==> sweep(states, containers, seen).1.contains(
                (#[trigger] containers[i]).id@,
            ) == visit(states, containers[i], seen[i]).1,
        sweep(states, containers, seen).1.no_duplicates(),
    decreases containers.len(),
{
    if containers.len() > 0 {
        let front = containers.drop_last();
        let last = containers.last();
        let n = front.len() as int;
        assert(container_ids(front) =~= container_ids(containers).drop_last());
        assert(container_ids(containers)[n] == last.id@);
        assert forall|i: int| 0 <= i < seen.drop_last().len() implies ((
        #[trigger] seen.drop_last()[i]).outcome matches TerminateOutcome::Unkillable {
            container_id,
            ..
        } ==> container_id@ == front[i].id@) by {
            assert(seen[i].outcome == seen.drop_last()[i].outcome);
        }
        lemma_sweep(states, front, seen.drop_last());
        let (before, reaped) = sweep(states, front, seen.drop_last());
        let (after, counted) = visit(before, last, seen.last());
        let all = sweep(states, containers, seen).1;
        assert(seen[n] == seen.last());
        assert(!container_ids(front).contains(last.id@)) by {
            if container_ids(front).contains(last.id@) {
                let k = choose|k: int|
                    0 <= k < container_ids(front).len() && container_ids(front)[k] == last.id@;
                assert(container_ids(containers)[k] == container_ids(containers)[n]);
            }
        }
        assert(before.dom().contains(last.id@) == states.dom().contains(last.id@));
        assert(visit(before, last, seen.last()).1 == visit(states, last, seen.last()).1);
        assert forall|id: Seq<char>| !container_ids(containers).contains(id) implies (
        #[trigger] sweep(states, containers, seen).0.dom().contains(id) <==> states.dom().contains(
            id,
        )) && (states.dom().contains(id) ==> sweep(states, containers, seen).0[id]
            == states[id]) by {
            assert(id != last.id@);
            if container_ids(front).contains(id) {
                let k = choose|k: int|
                    0 <= k < container_ids(front).len() && container_ids(front)[k] == id;
                assert(container_ids(containers)[k] == id);
            }
            assert(after.dom().contains(id) == before.dom().contains(id));
        }
        assert(!reaped.contains(last.id@)) by {
            if reaped.contains(last.id@) {
                let k = choose|k: int| 0 <= k < reaped.len() && reaped[k] == last.id@;
                assert(container_ids(front).contains(reaped[k]));
            }
        }
        assert forall|k: int| 0 <= k < all.len() implies container_ids(containers).contains(
            #[trigger] all[k],
        ) && !after.dom().contains(all[k]) by {
            if k < reaped.len() {
                assert(all[k] == reaped[k]);
                assert(container_ids(front).contains(reaped[k]));
                let m = choose|m: int|
                    0 <= m < container_ids(front).len() && container_ids(front)[m] == reaped[k];
                assert(container_ids(containers)[m] == reaped[k]);
                assert(reaped[k] != last.id@);
                assert(!before.dom().contains(reaped[k]));
            }
        }
        assert forall|i: int| 0 <= i < containers.len() implies all.contains(
            (#[trigger] containers[i]).id@,
        ) == visit(states, containers[i], seen[i]).1 by {
            if i < n {
                assert(front[i] == containers[i] && seen.drop_last()[i] == seen[i]);
                assert(container_ids(containers)[i] != container_ids(containers)[n]);
                if reaped.contains(containers[i].id@) {
                    let k = choose|k: int|
                        0 <= k < reaped.len() && reaped[k] == containers[i].id@;
                    assert(all[k] == containers[i].id@);
                }
                if all.contains(containers[i].id@) {
                    let k = choose|k: int| 0 <= k < all.len() && all[k] == containers[i].id@;
                    assert(k < reaped.len());
                    assert(reaped[k] == containers[i].id@);
                }
            } else {
                if counted {
                    assert(all[reaped.len() as int] == last.id@);
                }
            }
        }
    }
}

/// A whole sweep, from the bookkeeping that `begin_sweep` leaves: the containers that
/// are counted as reaped are those that were terminated, each once; what is kept is
/// kept about listed containers; and nothing is kept about one that was terminated.
pub proof fn law_a_sweep_counts_the_terminated(
    kept: Map<Seq<char>, ReapAttemptState>,
    containers: Seq<ManagedAgentContainer>,
    seen: Seq<Observed>,
)
    requires
        consistent(containers, seen),
    ensures
        ({
            let start = kept.restrict(container_ids(containers).to_set());
            let (after, reaped) = sweep(start, containers, seen);
            &&& reaped.no_duplicates()
            &&& forall|i: int|
                0 <= i < containers.len() ==> reaped.contains((#[trigger] containers[i]).id@)
                    == visit(start, containers[i], seen[i]).1
            &&& forall|k: int|
                0 <= k < reaped.len() ==> container_ids(containers).contains(#[trigger] reaped[k])
            &&& after.dom().subset_of(container_ids(containers).to_set())
            &&& forall|k: int|
                0 <= k < reaped.len() ==> !after.dom().contains(#[trigger] reaped[k])
        }),
{
    let start = kept.restrict(container_ids(containers).to_set());
    lemma_sweep(start, containers, seen);
    let after = sweep(start, containers, seen).0;
    assert forall|id: Seq<char>| after.dom().contains(id) implies container_ids(
        containers,
    ).to_set().contains(id) by {
        if !container_ids(containers).contains(id) {
            assert(!start.dom().contains(id));
        }
    }
}

/// A container is counted as reaped only where it was to be reaped and the engine
/// terminated it.
pub proof fn law_only_the_terminated_are_counted(
    states: Map<Seq<char>, ReapAttemptState>,
    container: ManagedAgentContainer,
    seen: Observed,
)
    ensures
        visit(states, container, seen).1 ==> seen.outcome is Terminated
            && !container.debug_retain && reap_reason(
            container,
            if container.execution_id is Some {
                seen.lookup.status()
            } else {
                None
            },
        ) is Some,
{
}

/// A container that is neither kept for debugging nor being torn down is left alone
/// exactly where its execution runs and the engine says that it runs itself; where its
/// execution has any other status, that is the reason to reap it.
pub proof fn law_only_running_work_keeps_its_container(
    container: ManagedAgentContainer,
    status: Option<ExecutionStatus>,
    state: Option<Seq<char>>,
)
    requires
        !container.debug_retain,
        state == text::opt_view(container.state),
        state != Some("stopping"@),
        state != Some("removing"@),
    ensures
        reap_reason(container, status) is None <==> status == Some(ExecutionStatus::Running)
            && state == Some("running"@),
        status matches Some(s) && s != ExecutionStatus::Running ==> reap_reason(container, status)
            == Some("execution_not_running"@),
        status == Some(ExecutionStatus::Running) && state != Some("running"@) ==> reap_reason(
            container,
            status,
        ) == Some("container_not_running"@),
        status is None ==> reap_reason(container, status) == Some("missing_execution_record"@),
{
}

/// A container is asked to terminate for exactly the reason that it has to be reaped, once
/// its execution was looked up; one without such a reason is left alone, and so is every
/// container whose execution could not be looked up.
pub proof fn law_containers_are_terminated_for_a_reason(
    states: Map<Seq<char>, ReapAttemptState>,
    container: ManagedAgentContainer,
    now: u128,
    status: ExecutionStatus,
)
    ensures
        reap_action(
            states,
            container,
            now,
            ReapEvent::LookedUp(ExecutionLookup::Failed),
        ) is NextContainer,
        reap_reason(container, Some(status)) matches Some(reason) ==> reap_action(
            states,
            container,
            now,
            ReapEvent::LookedUp(ExecutionLookup::Found(status)),
        ) == ReapActionView::Terminate(reason),
        reap_reason(container, Some(status)) is None ==> reap_action(
            states,
            container,
            now,
            ReapEvent::LookedUp(ExecutionLookup::Found(status)),
        ) is NextContainer,
        reap_reason(container, None) matches Some(reason) ==> reap_action(
            states,
            container,
            now,
            ReapEvent::LookedUp(ExecutionLookup::Missing),
        ) == ReapActionView::Terminate(reason) && reap_action(
            states,
            container,
            now,
            ReapEvent::LookedUp(ExecutionLookup::InvalidId),
        ) == ReapActionView::Terminate(reason),
{
}

/// A listed container is looked into exactly where it is not kept for debugging and no
/// pause is running for it: its execution is looked up where it names one.
pub proof fn law_listed_containers_are_looked_into(
    states: Map<Seq<char>, ReapAttemptState>,
    container: ManagedAgentContainer,
    now: u128,
)
    ensures
        !container.debug_retain && !states.dom().contains(container.id@) ==> reap_action(
            states,
            container,
            now,
            ReapEvent::Listed,
        ) is LookUp == container.execution_id is Some && reap_action(
            states,
            container,
            now,
            ReapEvent::Listed,
        ) is Decide == container.execution_id is None,
        !container.debug_retain && states.dom().contains(container.id@) && now
            >= states[container.id@].last_attempt + 3_600_000_000_000 ==> !(reap_action(
            states,
            container,
            now,
            ReapEvent::Listed,
        ) is NextContainer),
        container.debug_retain ==> reap_action(states, container, now, ReapEvent::Listed)
            is NextContainer,
{
}

/// The pause doubles with every failure, from five minutes to forty, and stays at an hour
/// from the fifth on.
pub proof fn law_the_pause_doubles(attempts: u32)
    ensures
        attempts <= 1 ==> backoff_secs(attempts) == 300,
        2 <= attempts <= 4 ==> backoff_secs(attempts) == 2 * backoff_secs((attempts - 1) as u32),
        attempts >= 5 ==> backoff_secs(attempts) == 3600,
{
}

/// What is kept of a container that could not be killed counts that one failure more, at
/// its time, and nothing is changed of any other container.
pub proof fn law_failures_are_counted_for_their_container(
    states: Map<Seq<char>, ReapAttemptState>,
    container: ManagedAgentContainer,
    now: u128,
    container_id: String,
    engine: ContainerEngineKind,
    other: Seq<char>,
)
    requires
        other != container_id@,
    ensures
        ({
            let after = states_after(
                states,
                container,
                now,
                ReapEvent::Asked(TerminateOutcome::Unkillable { container_id, engine }),
            );
            &&& after.dom().contains(container_id@)
            &&& after[container_id@].last_attempt == now
            &&& !states.dom().contains(container_id@) ==> after[container_id@].attempts == 1
            &&& states.dom().contains(container_id@) && states[container_id@].attempts < u32::MAX
                ==> after[container_id@].attempts == states[container_id@].attempts + 1
            &&& after.dom().contains(other) == states.dom().contains(other)
            &&& states.dom().contains(other) ==> after[other] == states[other]
        }),
{
}

/// The report of a failure tells how often it failed and when it is tried again, with the
/// hint for its engine.
pub proof fn law_reports_of_failures_tell_the_count(
    state: ReapAttemptState,
    engine: ContainerEngineKind,
)
    ensures
        unkillable_log(state, engine).attempts == state.attempts,
        unkillable_log(state, engine).quarantined == state.quarantined,
        !state.quarantined ==> unkillable_log(state, engine).next_retry_in_secs == Some(
            backoff_secs(state.attempts),
        ),
        state.quarantined ==> unkillable_log(state, engine).next_retry_in_secs is None,
{
}

/// A further failure is counted, at its own time; the container is set aside once the count
/// reaches its limit, and stays so.
pub proof fn law_further_failures_are_counted(state: ReapAttemptState, now: u128)
    ensures
        state.attempts < u32::MAX ==> state.failed_again(now).attempts == state.attempts + 1,
        state.failed_again(now).last_attempt == now,
        state.quarantined ==> state.failed_again(now).quarantined,
        state.attempts + 1 >= QUARANTINE_THRESHOLD ==> state.failed_again(now).quarantined,
        !state.quarantined && state.attempts + 1 < QUARANTINE_THRESHOLD ==> !state.failed_again(
            now,
        ).quarantined,
        state.is_due(now) <==> now >= state.last_attempt + backoff_secs(state.attempts)
            * 1_000_000_000,
{
}

/// Who runs the containers is told where to look: for Podman at its file system, for all
/// others at the blocked call.
pub proof fn law_hints_are_for_the_engine(engine: ContainerEngineKind)
    ensures
        engine == ContainerEngineKind::Podman ==> text::occurs(
            "aegis-fuse-daemon"@,
            unkillable_hint(engine),
        ),
        engine != ContainerEngineKind::Podman ==> unkillable_hint(engine)
            == "Agent process likely in uninterruptible sleep. Check `/proc/<pid>/stack` and `/proc/<pid>/wchan` for the blocked syscall."@,
{
    if engine == ContainerEngineKind::Podman {
        let hint = unkillable_hint(engine);
        reveal_strlit(
            "Agent process likely wedged in a D-state syscall against a hung FUSE mount. Check `systemctl --user status aegis-fuse-daemon` and `/proc/<pid>/stack` for fuse_request_wait or similar; recover with `nsenter -t <pid> -m umount -l <mount>`.",
        );
        reveal_strlit("aegis-fuse-daemon");
        assert(hint.subrange(107, 124) =~= "aegis-fuse-daemon"@);
        assert(text::occurs_at("aegis-fuse-daemon"@, hint, 107));
    }
}

} // verus!
