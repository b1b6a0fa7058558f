//! What operators see: stimuli, security incidents and storage violations.

use crate::json::{Json, JsonView};
use crate::string_map::StringMap;
use crate::{primitives, text};
use std::collections::VecDeque;
use vstd::prelude::*;

verus! {

/// How many security incidents are kept.
pub const DEFAULT_CAPACITY: usize = 512;

/// A moment, in nanoseconds since the epoch.
pub type Moment = i128;

/// A stimulus as operators see it. The confidence is kept as the bits of its
/// floating-point form.
pub struct StimulusView {
    pub stimulus_id: String,
    pub source: String,
    pub status: String,
    pub workflow_id: Option<String>,
    pub confidence: Option<u64>,
    pub routing_mode: Option<String>,
    pub rejection_reason: Option<String>,
    pub classification_error: Option<String>,
    pub received_at: Moment,
    pub last_event_at: Moment,
}

/// The mathematical content of a stimulus.
pub struct StimulusModel {
    pub stimulus_id: Seq<char>,
    pub source: Seq<char>,
    pub status: Seq<char>,
    pub workflow_id: Option<Seq<char>>,
    pub confidence: Option<u64>,
    pub routing_mode: Option<Seq<char>>,
    pub rejection_reason: Option<Seq<char>>,
    pub classification_error: Option<Seq<char>>,
    pub received_at: Moment,
    pub last_event_at: Moment,
}

impl View for StimulusView {
    type V = StimulusModel;

    open spec fn view(&self) -> StimulusModel {
        StimulusModel {
            stimulus_id: self.stimulus_id@,
            source: self.source@,
            status: self.status@,
            workflow_id: text::opt_view(self.workflow_id),
            confidence: self.confidence,
            routing_mode: text::opt_view(self.routing_mode),
            rejection_reason: text::opt_view(self.rejection_reason),
            classification_error: text::opt_view(self.classification_error),
            received_at: self.received_at,
            last_event_at: self.last_event_at,
        }
    }
}

fn copy_opt(s: &Option<String>) -> (r: Option<String>)
    ensures
        text::opt_view(r) == text::opt_view(*s),
{
    match s {
        Some(t) => Some(t.clone()),
        None => None,
    }
}

impl Clone for StimulusView {
    fn clone(&self) -> (r: Self)
        ensures
            r@ == self@,
    {
        StimulusView {
            stimulus_id: self.stimulus_id.clone(),
            source: self.source.clone(),
            status: self.status.clone(),
            workflow_id: copy_opt(&self.workflow_id),
            confidence: self.confidence,
            routing_mode: copy_opt(&self.routing_mode),
            rejection_reason: copy_opt(&self.rejection_reason),
            classification_error: copy_opt(&self.classification_error),
            received_at: self.received_at,
            last_event_at: self.last_event_at,
        }
    }
}

/// A security incident as operators see it.
pub struct SecurityIncidentView {
    pub category: String,
    pub severity: String,
    pub agent_id: Option<String>,
    pub execution_id: Option<String>,
    pub session_id: Option<String>,
    pub tool_name: Option<String>,
    pub details: String,
    pub occurred_at: Moment,
}

/// The mathematical content of an incident.
pub struct SecurityIncidentModel {
    pub category: Seq<char>,
    pub severity: Seq<char>,
    pub agent_id: Option<Seq<char>>,
    pub execution_id: Option<Seq<char>>,
    pub session_id: Option<Seq<char>>,
    pub tool_name: Option<Seq<char>>,
    pub details: Seq<char>,
    pub occurred_at: Moment,
}

impl View for SecurityIncidentView {
    type V = SecurityIncidentModel;

    open spec fn view(&self) -> SecurityIncidentModel {
        SecurityIncidentModel {
            category: self.category@,
            severity: self.severity@,
            agent_id: text::opt_view(self.agent_id),
            execution_id: text::opt_view(self.execution_id),
            session_id: text::opt_view(self.session_id),
            tool_name: text::opt_view(self.tool_name),
            details: self.details@,
            occurred_at: self.occurred_at,
        }
    }
}

impl Clone for SecurityIncidentView {
    fn clone(&self) -> (r: Self)
        ensures
            r@ == self@,
    {
        SecurityIncidentView {
            category: self.category.clone(),
            severity: self.severity.clone(),
            agent_id: copy_opt(&self.agent_id),
            execution_id: copy_opt(&self.execution_id),
            session_id: copy_opt(&self.session_id),
            tool_name: copy_opt(&self.tool_name),
            details: self.details.clone(),
            occurred_at: self.occurred_at,
        }
    }
}

/// A storage violation, or an audited access, as operators see it.
pub struct StorageViolationView {
    pub category: String,
    pub execution_id: String,
    pub volume_id: Option<String>,
    pub path: Option<String>,
    pub operation: Option<String>,
    pub details: String,
    pub occurred_at: Moment,
}

/// The mathematical content of a violation.
pub struct StorageViolationModel {
    pub category: Seq<char>,
    pub execution_id: Seq<char>,
    pub volume_id: Option<Seq<char>>,
    pub path: Option<Seq<char>>,
    pub operation: Option<Seq<char>>,
    pub details: Seq<char>,
    pub occurred_at: Moment,
}

impl View for StorageViolationView {
    type V = StorageViolationModel;

    open spec fn view(&self) -> StorageViolationModel {
        StorageViolationModel {
            category: self.category@,
            execution_id: self.execution_id@,
            volume_id: text::opt_view(self.volume_id),
            path: text::opt_view(self.path),
            operation: text::opt_view(self.operation),
            details: self.details@,
            occurred_at: self.occurred_at,
        }
    }
}

/// Something that happened in storage.
pub enum StorageEvent {
    PathTraversalBlocked { execution_id: String, attempted_path: String, blocked_at: Moment },
    FilesystemPolicyViolation {
        execution_id: String,
        volume_id: String,
        operation: String,
        path: String,
        policy_rule: String,
        violated_at: Moment,
    },
    QuotaExceeded {
        execution_id: String,
        volume_id: String,
        requested_bytes: u64,
        available_bytes: u64,
        exceeded_at: Moment,
    },
    UnauthorizedVolumeAccess { execution_id: String, volume_id: String, attempted_at: Moment },
    FileOpened {
        execution_id: String,
        volume_id: String,
        path: String,
        open_mode: String,
        opened_at: Moment,
    },
    FileRead { execution_id: String, volume_id: String, path: String, read_at: Moment },
    FileWritten { execution_id: String, volume_id: String, path: String, written_at: Moment },
    FileClosed { execution_id: String, volume_id: String, path: String, closed_at: Moment },
    DirectoryListed { execution_id: String, volume_id: String, path: String, listed_at: Moment },
    FileCreated { execution_id: String, volume_id: String, path: String, created_at: Moment },
    FileDeleted { execution_id: String, volume_id: String, path: String, deleted_at: Moment },
}

/// The view of an audited access to a file or directory.
pub open spec fn audit_model(
    category: Seq<char>,
    execution_id: Seq<char>,
    volume_id: Seq<char>,
    path: Seq<char>,
    operation: Seq<char>,
    details: Seq<char>,
    at: Moment,
) -> StorageViolationModel {
    StorageViolationModel {
        category,
        execution_id,
        volume_id: Some(volume_id),
        path: Some(path),
        operation: Some(operation),
        details,
        occurred_at: at,
    }
}

fn audit_view(
    category: &str,
    execution_id: &String,
    volume_id: &String,
    path: &String,
    operation: &str,
    details: &str,
    at: Moment,
) -> (r: StorageViolationView)
    ensures
        r@ == audit_model(category@, execution_id@, volume_id@, path@, operation@, details@, at),
{
    StorageViolationView {
        category: category.to_owned(),
        execution_id: execution_id.clone(),
        volume_id: Some(volume_id.clone()),
        path: Some(path.clone()),
        operation: Some(operation.to_owned()),
        details: details.to_owned(),
        occurred_at: at,
    }
}

/// What operators see of an event in storage.
pub open spec fn violation_model(event: StorageEvent) -> StorageViolationModel {
    match event {
        StorageEvent::PathTraversalBlocked {
            execution_id,
            attempted_path,
            blocked_at,
        } => StorageViolationModel {
            category: "path_traversal_blocked"@,
            execution_id: execution_id@,
            volume_id: None,
            path: Some(attempted_path@),
            operation: Some("path_traversal"@),
            details: "Path traversal was blocked before reaching storage"@,
            occurred_at: blocked_at,
        },
        StorageEvent::FilesystemPolicyViolation {
            execution_id,
            volume_id,
            operation,
            path,
            policy_rule,
            violated_at,
        } => StorageViolationModel {
            category: "filesystem_policy_violation"@,
            execution_id: execution_id@,
            volume_id: Some(volume_id@),
            path: Some(path@),
            operation: Some(operation@),
            details: "Policy rule violated: "@ + policy_rule@,
            occurred_at: violated_at,
        },
        StorageEvent::QuotaExceeded {
            execution_id,
            volume_id,
            requested_bytes,
            available_bytes,
            exceeded_at,
        } => StorageViolationModel {
            category: "quota_exceeded"@,
            execution_id: execution_id@,
            volume_id: Some(volume_id@),
            path: None,
            operation: Some("quota"@),
            details: "Requested "@ + text::decimal(requested_bytes as nat) + " bytes but only "@
                + text::decimal(available_bytes as nat) + " bytes were available"@,
            occurred_at: exceeded_at,
        },
        StorageEvent::UnauthorizedVolumeAccess {
            execution_id,
            volume_id,
            attempted_at,
        } => StorageViolationModel {
            category: "unauthorized_volume_access"@,
            execution_id: execution_id@,
            volume_id: Some(volume_id@),
            path: None,
            operation: Some("access"@),
            details: "Unauthorized volume access was blocked"@,
            occurred_at: attempted_at,
        },
        StorageEvent::FileOpened {
            execution_id,
            volume_id,
            path,
            open_mode,
            opened_at,
        } => audit_model(
            "file_opened"@,
            execution_id@,
            volume_id@,
            path@,
            open_mode@,
            "File open audit event"@,
            opened_at,
        ),
        StorageEvent::FileRead { execution_id, volume_id, path, read_at } => audit_model(
            "file_read"@,
            execution_id@,
            volume_id@,
            path@,
            "read"@,
            "File read audit event"@,
            read_at,
        ),
        StorageEvent::FileWritten { execution_id, volume_id, path, written_at } => audit_model(
            "file_written"@,
            execution_id@,
            volume_id@,
            path@,
            "write"@,
            "File write audit event"@,
            written_at,
        ),
        StorageEvent::FileClosed { execution_id, volume_id, path, closed_at } => audit_model(
            "file_closed"@,
            execution_id@,
            volume_id@,
            path@,
            "close"@,
            "File close audit event"@,
            closed_at,
        ),
        StorageEvent::DirectoryListed { execution_id, volume_id, path, listed_at } => audit_model(
            "directory_listed"@,
            execution_id@,
            volume_id@,
            path@,
            "list"@,
            "Directory listing audit event"@,
            listed_at,
        ),
        StorageEvent::FileCreated { execution_id, volume_id, path, created_at } => audit_model(
            "file_created"@,
            execution_id@,
            volume_id@,
            path@,
            "create"@,
            "File creation audit event"@,
            created_at,
        ),
        StorageEvent::FileDeleted { execution_id, volume_id, path, deleted_at } => audit_model(
            "file_deleted"@,
            execution_id@,
            volume_id@,
            path@,
            "delete"@,
            "File deletion audit event"@,
            deleted_at,
        ),
    }
}

/// What operators see of an event in storage.
pub fn storage_violation_event_view(event: &StorageEvent) -> (r: StorageViolationView)
    ensures
        r@ == violation_model(*event),
{
    match event {
        StorageEvent::PathTraversalBlocked {
            execution_id,
            attempted_path,
            blocked_at,
        } => StorageViolationView {
            category: "path_traversal_blocked".to_owned(),
            execution_id: execution_id.clone(),
            volume_id: None,
            path: Some(attempted_path.clone()),
            operation: Some("path_traversal".to_owned()),
            details: "Path traversal was blocked before reaching storage".to_owned(),
            occurred_at: *blocked_at,
        },
        StorageEvent::FilesystemPolicyViolation {
            execution_id,
            volume_id,
            operation,
            path,
            policy_rule,
            violated_at,
        } => StorageViolationView {
            category: "filesystem_policy_violation".to_owned(),
            execution_id: execution_id.clone(),
            volume_id: Some(volume_id.clone()),
            path: Some(path.clone()),
            operation: Some(operation.clone()),
            details: "Policy rule violated: ".to_owned().concat(policy_rule.as_str()),
            occurred_at: *violated_at,
        },
        StorageEvent::QuotaExceeded {
            execution_id,
            volume_id,
            requested_bytes,
            available_bytes,
            exceeded_at,
        } => StorageViolationView {
            category: "quota_exceeded".to_owned(),
            execution_id: execution_id.clone(),
            volume_id: Some(volume_id.clone()),
            path: None,
            operation: Some("quota".to_owned()),
            details: "Requested ".to_owned().concat(
                text::u64_text(*requested_bytes).as_str(),
            ).concat(" bytes but only ").concat(text::u64_text(*available_bytes).as_str()).concat(
                " bytes were available",
            ),
            occurred_at: *exceeded_at,
        },
        StorageEvent::UnauthorizedVolumeAccess {
            execution_id,
            volume_id,
            attempted_at,
        } => StorageViolationView {
            category: "unauthorized_volume_access".to_owned(),
            execution_id: execution_id.clone(),
            volume_id: Some(volume_id.clone()),
            path: None,
            operation: Some("access".to_owned()),
            details: "Unauthorized volume access was blocked".to_owned(),
            occurred_at: *attempted_at,
        },
        StorageEvent::FileOpened {
            execution_id,
            volume_id,
            path,
            open_mode,
            opened_at,
        } => audit_view(
            "file_opened",
            execution_id,
            volume_id,
            path,
            open_mode.as_str(),
            "File open audit event",
            *opened_at,
        ),
        StorageEvent::FileRead { execution_id, volume_id, path, read_at } => audit_view(
            "file_read",
            execution_id,
            volume_id,
            path,
            "read",
            "File read audit event",
            *read_at,
        ),
        StorageEvent::FileWritten { execution_id, volume_id, path, written_at } => audit_view(
            "file_written",
            execution_id,
            volume_id,
            path,
            "write",
            "File write audit event",
            *written_at,
        ),
        StorageEvent::FileClosed { execution_id, volume_id, path, closed_at } => audit_view(
            "file_closed",
            execution_id,
            volume_id,
            path,
            "close",
            "File close audit event",
            *closed_at,
        ),
        StorageEvent::DirectoryListed { execution_id, volume_id, path, listed_at } => audit_view(
            "directory_listed",
            execution_id,
            volume_id,
            path,
            "list",
            "Directory listing audit event",
            *listed_at,
        ),
        StorageEvent::FileCreated { execution_id, volume_id, path, created_at } => audit_view(
            "file_created",
            execution_id,
            volume_id,
            path,
            "create",
            "File creation audit event",
            *created_at,
        ),
        StorageEvent::FileDeleted { execution_id, volume_id, path, deleted_at } => audit_view(
            "file_deleted",
            execution_id,
            volume_id,
            path,
            "delete",
            "File deletion audit event",
            *deleted_at,
        ),
    }
}

/// Something that happened to a stimulus.
pub enum StimulusEvent {
    StimulusReceived { stimulus_id: String, source: String, received_at: Moment },
    StimulusClassified {
        stimulus_id: String,
        workflow_id: String,
        confidence: u64,
        routing_mode: String,
        classified_at: Moment,
    },
    StimulusRejected { stimulus_id: String, reason: String, rejected_at: Moment },
    ClassificationFailed { stimulus_id: String, error: String, failed_at: Moment },
}

impl StimulusEvent {
    /// The stimulus that an event is about.
    pub open spec fn id(self) -> Seq<char> {
        match self {
            StimulusEvent::StimulusReceived { stimulus_id, .. } => stimulus_id@,
            StimulusEvent::StimulusClassified { stimulus_id, .. } => stimulus_id@,
            StimulusEvent::StimulusRejected { stimulus_id, .. } => stimulus_id@,
            StimulusEvent::ClassificationFailed { stimulus_id, .. } => stimulus_id@,
        }
    }
}

/// The stimulus that an event is about.
pub fn stimulus_event_id(event: &StimulusEvent) -> (r: &str)
    ensures
        r@ == event.id(),
{
    match event {
        StimulusEvent::StimulusReceived { stimulus_id, .. } => stimulus_id.as_str(),
        StimulusEvent::StimulusClassified { stimulus_id, .. } => stimulus_id.as_str(),
        StimulusEvent::StimulusRejected { stimulus_id, .. } => stimulus_id.as_str(),
        StimulusEvent::ClassificationFailed { stimulus_id, .. } => stimulus_id.as_str(),
    }
}

/// A stimulus of which nothing but an event is known.
pub open spec fn unseen(id: Seq<char>, source: Seq<char>, at: Moment) -> StimulusModel {
    StimulusModel {
        stimulus_id: id,
        source,
        status: "received"@,
        workflow_id: None,
        confidence: None,
        routing_mode: None,
        rejection_reason: None,
        classification_error: None,
        received_at: at,
        last_event_at: at,
    }
}

fn unseen_view(id: &str, source: &str, at: Moment) -> (r: StimulusView)
    ensures
        r@ == unseen(id@, source@, at),
{
    StimulusView {
        stimulus_id: id.to_owned(),
        source: source.to_owned(),
        status: "received".to_owned(),
        workflow_id: None,
        confidence: None,
        routing_mode: None,
        rejection_reason: None,
        classification_error: None,
        received_at: at,
        last_event_at: at,
    }
}

/// A stimulus after an event: reception starts it anew, every other event sets what
/// it brings and leaves the rest. An event about an unseen stimulus makes one from
/// an unknown source.
pub open spec fn stimulus_after(known: Option<StimulusModel>, event: StimulusEvent) -> StimulusModel {
    match event {
        StimulusEvent::StimulusReceived { stimulus_id, source, received_at } => unseen(
            stimulus_id@,
            source@,
            received_at,
        ),
        StimulusEvent::StimulusClassified {
            stimulus_id,
            workflow_id,
            confidence,
            routing_mode,
            classified_at,
        } => StimulusModel {
            status: "classified"@,
            workflow_id: Some(workflow_id@),
            confidence: Some(confidence),
            routing_mode: Some(routing_mode@),
            last_event_at: classified_at,
            ..known_or_unseen(known, stimulus_id@, classified_at)
        },
        StimulusEvent::StimulusRejected { stimulus_id, reason, rejected_at } => StimulusModel {
            status: "rejected"@,
            rejection_reason: Some(reason@),
            last_event_at: rejected_at,
            ..known_or_unseen(known, stimulus_id@, rejected_at)
        },
        StimulusEvent::ClassificationFailed { stimulus_id, error, failed_at } => StimulusModel {
            status: "classification_failed"@,
            classification_error: Some(error@),
            last_event_at: failed_at,
            ..known_or_unseen(known, stimulus_id@, failed_at)
        },
    }
}

/// What is known of a stimulus, or a fresh one from an unknown source.
pub open spec fn known_or_unseen(
    known: Option<StimulusModel>,
    id: Seq<char>,
    at: Moment,
) -> StimulusModel {
    match known {
        Some(k) => k,
        None => unseen(id, "unknown"@, at),
    }
}

/// The stimuli by their ids.
pub open spec fn stimuli_model(stimuli: Map<Seq<char>, StimulusView>) -> Map<
    Seq<char>,
    StimulusModel,
> {
    stimuli.map_values(|v: StimulusView| v@)
}

/// The stimulus with the given id.
pub open spec fn stimulus_known(stimuli: Map<Seq<char>, StimulusModel>, id: Seq<char>) -> Option<
    StimulusModel,
> {
    if stimuli.dom().contains(id) {
        Some(stimuli[id])
    } else {
        None
    }
}

/// Brings an event to the stimulus that it is about.
pub fn apply_stimulus_event(stimuli: &mut StringMap<StimulusView>, event: &StimulusEvent)
    requires
        old(stimuli).wf(),
    ensures
        final(stimuli).wf(),
        stimuli_model(final(stimuli)@) == stimuli_model(old(stimuli)@).insert(
            event.id(),
            stimulus_after(stimulus_known(stimuli_model(old(stimuli)@), event.id()), *event),
        ),
{
    let id = stimulus_event_id(event);
    let known: Option<StimulusView> = match stimuli.get(id) {
        Some(v) => Some(v.clone()),
        None => None,
    };
    let next = match event {
        StimulusEvent::StimulusReceived { source, received_at, .. } => unseen_view(
            id,
            source.as_str(),
            *received_at,
        ),
        StimulusEvent::StimulusClassified {
            workflow_id,
            confidence,
            routing_mode,
            classified_at,
            ..
        } => {
            let mut entry = match known {
                Some(k) => k,
                None => unseen_view(id, "unknown", *classified_at),
            };
            entry.status = "classified".to_owned();
            entry.workflow_id = Some(workflow_id.clone());
            entry.confidence = Some(*confidence);
            entry.routing_mode = Some(routing_mode.clone());
            entry.last_event_at = *classified_at;
            entry
        },
        StimulusEvent::StimulusRejected { reason, rejected_at, .. } => {
            let mut entry = match known {
                Some(k) => k,
                None => unseen_view(id, "unknown", *rejected_at),
            };
            entry.status = "rejected".to_owned();
            entry.rejection_reason = Some(reason.clone());
            entry.last_event_at = *rejected_at;
            entry
        },
        StimulusEvent::ClassificationFailed { error, failed_at, .. } => {
            let mut entry = match known {
                Some(k) => k,
                None => unseen_view(id, "unknown", *failed_at),
            };
            entry.status = "classification_failed".to_owned();
            entry.classification_error = Some(error.clone());
            entry.last_event_at = *failed_at;
            entry
        },
    };
    let ghost before = stimuli@;
    let ghost after = next@;
    stimuli.insert(id, next);
    assert(stimuli_model(stimuli@) =~= stimuli_model(before).insert(event.id(), after));
}

/// An event of the tool protocol's policy layer.
pub enum SmcpEvent {
    PolicyViolationBlocked {
        agent_id: String,
        execution_id: String,
        tool_name: String,
        violation_type: String,
        details: String,
        blocked_at: Moment,
    },
    SessionRevoked { session_id: String, agent_id: String, reason: String, revoked_at: Moment },
    Other,
}

/// The incident that an event of the tool protocol is, if it is one.
pub open spec fn smcp_incident(event: SmcpEvent) -> Option<SecurityIncidentModel> {
    match event {
        SmcpEvent::PolicyViolationBlocked {
            agent_id,
            execution_id,
            tool_name,
            violation_type,
            details,
            blocked_at,
        } => Some(
            SecurityIncidentModel {
                category: "smcp_policy_violation_blocked"@,
                severity: "high"@,
                agent_id: Some(agent_id@),
                execution_id: Some(execution_id@),
                session_id: None,
                tool_name: Some(tool_name@),
                details: violation_type@ + ": "@ + details@,
                occurred_at: blocked_at,
            },
        ),
        SmcpEvent::SessionRevoked { session_id, agent_id, reason, revoked_at } => Some(
            SecurityIncidentModel {
                category: "smcp_session_revoked"@,
                severity: "medium"@,
                agent_id: Some(agent_id@),
                execution_id: None,
                session_id: Some(session_id@),
                tool_name: None,
                details: reason@,
                occurred_at: revoked_at,
            },
        ),
        SmcpEvent::Other => None,
    }
}

/// The view of an optional incident.
pub open spec fn opt_incident(i: Option<SecurityIncidentView>) -> Option<SecurityIncidentModel> {
    match i {
        Some(i) => Some(i@),
        None => None,
    }
}

/// The incident that an event of the tool protocol is, if it is one.
pub fn security_incident_from_smcp(event: &SmcpEvent) -> (r: Option<SecurityIncidentView>)
    ensures
        opt_incident(r) == smcp_incident(*event),
{
    match event {
        SmcpEvent::PolicyViolationBlocked {
            agent_id,
            execution_id,
            tool_name,
            violation_type,
            details,
            blocked_at,
        } => Some(
            SecurityIncidentView {
                category: "smcp_policy_violation_blocked".to_owned(),
                severity: "high".to_owned(),
                agent_id: Some(agent_id.clone()),
                execution_id: Some(execution_id.clone()),
                session_id: None,
                tool_name: Some(tool_name.clone()),
                details: violation_type.clone().concat(": ").concat(details.as_str()),
                occurred_at: *blocked_at,
            },
        ),
        SmcpEvent::SessionRevoked { session_id, agent_id, reason, revoked_at } => Some(
            SecurityIncidentView {
                category: "smcp_session_revoked".to_owned(),
                severity: "medium".to_owned(),
                agent_id: Some(agent_id.clone()),
                execution_id: None,
                session_id: Some(session_id.clone()),
                tool_name: None,
                details: reason.clone(),
                occurred_at: *revoked_at,
            },
        ),
        SmcpEvent::Other => None,
    }
}

/// An event of the policy layer.
pub enum PolicyEvent {
    PolicyViolationAttempted {
        agent_id: String,
        violation_type: String,
        details: String,
        attempted_at: Moment,
    },
    PolicyViolationBlocked {
        agent_id: String,
        violation_type: String,
        details: String,
        blocked_at: Moment,
    },
}

/// The incident that an event of the policy layer is.
pub open spec fn policy_incident(event: PolicyEvent) -> SecurityIncidentModel {
    match event {
        PolicyEvent::PolicyViolationAttempted {
            agent_id,
            violation_type,
            details,
            attempted_at,
        } => SecurityIncidentModel {
            category: "policy_violation_attempted"@,
            severity: "medium"@,
            agent_id: Some(agent_id@),
            execution_id: None,
            session_id: None,
            tool_name: Some(violation_type@),
            details: details@,
            occurred_at: attempted_at,
        },
        PolicyEvent::PolicyViolationBlocked {
            agent_id,
            violation_type,
            details,
            blocked_at,
        } => SecurityIncidentModel {
            category: "policy_violation_blocked"@,
            severity: "high"@,
            agent_id: Some(agent_id@),
            execution_id: None,
            session_id: None,
            tool_name: Some(violation_type@),
            details: details@,
            occurred_at: blocked_at,
        },
    }
}

/// The incident that an event of the policy layer is.
pub fn security_incident_from_policy(event: &PolicyEvent) -> (r: SecurityIncidentView)
    ensures
        r@ == policy_incident(*event),
{
    match event {
        PolicyEvent::PolicyViolationAttempted {
            agent_id,
            violation_type,
            details,
            attempted_at,
        } => SecurityIncidentView {
            category: "policy_violation_attempted".to_owned(),
            severity: "medium".to_owned(),
            agent_id: Some(agent_id.clone()),
            execution_id: None,
            session_id: None,
            tool_name: Some(violation_type.clone()),
            details: details.clone(),
            occurred_at: *attempted_at,
        },
        PolicyEvent::PolicyViolationBlocked {
            agent_id,
            violation_type,
            details,
            blocked_at,
        } => SecurityIncidentView {
            category: "policy_violation_blocked".to_owned(),
            severity: "high".to_owned(),
            agent_id: Some(agent_id.clone()),
            execution_id: None,
            session_id: None,
            tool_name: Some(violation_type.clone()),
            details: details.clone(),
            occurred_at: *blocked_at,
        },
    }
}

/// A queue with one more item in front, cut off at the capacity.
pub open spec fn pushed<T>(queue: Seq<T>, item: T, capacity: usize) -> Seq<T> {
    let longer = seq![item] + queue;
    if longer.len() <= capacity {
        longer
    } else {
        longer.take(capacity as int)
    }
}

/// Puts an item in front of a queue and drops the oldest ones beyond the capacity.
pub fn push_bounded<T>(queue: &mut VecDeque<T>, item: T, capacity: usize)
    ensures
        final(queue)@ == pushed(old(queue)@, item, capacity),
{
    let ghost longer = seq![item] + queue@;
    queue.push_front(item);
    assert(longer =~= longer.take(longer.len() as int));
    while queue.len() > capacity
        invariant
            queue@.len() <= longer.len(),
            queue@ == longer.take(queue@.len() as int),
            longer.len() > capacity ==> queue@.len() >= capacity,
            longer.len() <= capacity ==> queue@.len() == longer.len(),
        decreases queue@.len(),
    {
        let ghost before = queue@;
        let _ = queue.pop_back();
        assert(queue@ =~= longer.take(before.len() - 1));
    }
}

/// An event of the daemon.
pub enum DomainEvent {
    Stimulus(StimulusEvent),
    Smcp(SmcpEvent),
    Policy(PolicyEvent),
    Other,
}

/// What operators can look at.
pub struct OperatorReadModelStore {
    pub stimuli: StringMap<StimulusView>,
    pub security_incidents: VecDeque<SecurityIncidentView>,
    pub capacity: usize,
}

/// The mathematical content of the store: the stimuli by their ids, the incidents, the
/// newest first, and how many of them are kept.
pub struct OperatorReadModel {
    pub stimuli: Map<Seq<char>, StimulusModel>,
    pub incidents: Seq<SecurityIncidentModel>,
    pub capacity: usize,
}

impl View for OperatorReadModelStore {
    type V = OperatorReadModel;

    open spec fn view(&self) -> OperatorReadModel {
        OperatorReadModel {
            stimuli: stimuli_model(self.stimuli@),
            incidents: self.security_incidents@.map_values(|i: SecurityIncidentView| i@),
            capacity: self.capacity,
        }
    }
}

/// The incident that an event is, if it is one.
pub open spec fn event_incident(event: DomainEvent) -> Option<SecurityIncidentModel> {
    match event {
        DomainEvent::Smcp(e) => smcp_incident(e),
        DomainEvent::Policy(e) => Some(policy_incident(e)),
        _ => None,
    }
}

/// The store after an event.
pub open spec fn recorded(store: OperatorReadModel, event: DomainEvent) -> OperatorReadModel {
    OperatorReadModel {
        stimuli: match event {
            DomainEvent::Stimulus(e) => store.stimuli.insert(
                e.id(),
                stimulus_after(stimulus_known(store.stimuli, e.id()), e),
            ),
            _ => store.stimuli,
        },
        incidents: match event_incident(event) {
            Some(incident) => pushed(store.incidents, incident, store.capacity),
            None => store.incidents,
        },
        capacity: store.capacity,
    }
}

impl OperatorReadModelStore {
    /// Ids are unique, and no more incidents are kept than the capacity allows.
    pub open spec fn wf(&self) -> bool {
        self.stimuli.wf() && self.security_incidents@.len() <= self.capacity
    }

    /// A store that has recorded nothing.
    pub fn new() -> (r: Self)
        ensures
            r.wf(),
            r@.capacity == DEFAULT_CAPACITY,
            r@.stimuli == Map::<Seq<char>, StimulusModel>::empty(),
            r@.incidents == Seq::<SecurityIncidentModel>::empty(),
    {
        let r = OperatorReadModelStore {
            stimuli: StringMap::new(),
            security_incidents: VecDeque::new(),
            capacity: DEFAULT_CAPACITY,
        };
        assert(r@.stimuli =~= Map::<Seq<char>, StimulusModel>::empty());
        assert(r@.incidents =~= Seq::<SecurityIncidentModel>::empty());
        r
    }

    fn push_incident(&mut self, incident: SecurityIncidentView)
        requires
            old(self).wf(),
        ensures
            final(self).wf(),
            final(self).capacity == old(self).capacity,
            final(self)@.stimuli == old(self)@.stimuli,
            final(self)@.incidents == pushed(old(self)@.incidents, incident@, old(self).capacity),
    {
        let ghost before = self.security_incidents@;
        let ghost f = |i: SecurityIncidentView| i@;
        let ghost item = incident;
        push_bounded(&mut self.security_incidents, incident, self.capacity);
        assert((seq![item] + before).map_values(f) =~= seq![item@] + before.map_values(f));
        assert(self.security_incidents@.map_values(f) =~= pushed(
            before.map_values(f),
            item@,
            self.capacity,
        ));
    }

    /// Records an event.
    pub fn record_event(&mut self, event: DomainEvent)
        requires
            old(self).wf(),
        ensures
            final(self).wf(),
            final(self)@ == recorded(old(self)@, event),
    {
        match event {
            DomainEvent::Stimulus(e) => {
                apply_stimulus_event(&mut self.stimuli, &e);
            },
            DomainEvent::Smcp(e) => {
                if let Some(incident) = security_incident_from_smcp(&e) {
                    self.push_incident(incident);
                }
            },
            DomainEvent::Policy(e) => {
                let incident = security_incident_from_policy(&e);
                self.push_incident(incident);
            },
            DomainEvent::Other => {},
        }
    }

    /// The stimuli in the order in which they were first seen.
    pub open spec fn stimuli_seen(&self) -> Seq<StimulusModel> {
        self.stimuli.keys().map_values(|k: Seq<char>| self@.stimuli[k])
    }

    /// Every stimulus once, the one with the latest event first.
    pub fn list_stimuli(&self) -> (items: Vec<StimulusView>)
        requires
            self.wf(),
        ensures
            latest_first(items@.map_values(|v: StimulusView| v@)),
            items@.map_values(|v: StimulusView| v@).to_multiset()
                == self.stimuli_seen().to_multiset(),
    {
        let mut items: Vec<StimulusView> = Vec::new();
        let ghost model = |v: StimulusView| v@;
        let ghost seen = self.stimuli_seen();
        assert(items@.map_values(model) =~= seen.take(0));
        let mut n: usize = 0;
        while n < self.stimuli.len()
            invariant
                self.wf(),
                n <= self.stimuli.keys().len(),
                seen == self.stimuli_seen(),
                model == (|v: StimulusView| v@),
                latest_first(items@.map_values(model)),
                items@.map_values(model).to_multiset() == seen.take(n as int).to_multiset(),
            decreases self.stimuli.keys().len() - n,
        {
            let next = self.stimuli.value_at(n).clone();
            let ghost next_model = next@;
            assert(next_model == seen[n as int]);
            let ghost before = items@;
            let mut at: usize = 0;
            while at < items.len() && items[at].last_event_at >= next.last_event_at
                invariant
                    at <= items@.len(),
                    next@ == next_model,
                    forall|j: int|
                        0 <= j < at ==> #[trigger] items@[j].last_event_at >= next.last_event_at,
                decreases items@.len() - at,
            {
                at += 1;
            }
            items.insert(at, next);
            proof {
                let old_models = before.map_values(model);
                let models = items@.map_values(model);
                assert(models =~= old_models.insert(at as int, next_model));
                vstd::seq_lib::to_multiset_insert(old_models, at as int, next_model);
                assert(seen.take(n + 1) =~= seen.take(n as int).push(seen[n as int]));
                vstd::seq_lib::to_multiset_build(seen.take(n as int), seen[n as int]);
                assert forall|i: int, j: int| 0 <= i < j < models.len() implies (
                #[trigger] models[i]).last_event_at >= (#[trigger] models[j]).last_event_at by {
                    let a = at as int;
                    let n_old = old_models.len();
                    if j < a {
                        assert(old_models[i].last_event_at >= old_models[j].last_event_at);
                    } else if i > a {
                        assert(old_models[i - 1].last_event_at >= old_models[j - 1].last_event_at);
                    } else if i == a {
                        assert(old_models[a].last_event_at < next_model.last_event_at);
                        if j - 1 > a {
                            assert(old_models[a].last_event_at >= old_models[j - 1].last_event_at);
                        }
                    } else if j == a {
                        assert(before[i].last_event_at >= next_model.last_event_at);
                    } else {
                        assert(old_models[i].last_event_at >= old_models[j - 1].last_event_at);
                    }
                }
            }
            n += 1;
        }
        assert(seen.take(seen.len() as int) =~= seen);
        items
    }

    /// The stimulus with the given id.
    pub fn get_stimulus(&self, stimulus_id: &str) -> (r: Option<StimulusView>)
        requires
            self.wf(),
        ensures
            (match r {
                Some(v) => Some(v@),
                None => None,
            }) == stimulus_known(self@.stimuli, stimulus_id@),
    {
        match self.stimuli.get(stimulus_id) {
            Some(v) => Some(v.clone()),
            None => None,
        }
    }

    /// The incidents that are kept, the newest first.
    pub fn list_security_incidents(&self) -> (items: Vec<SecurityIncidentView>)
        ensures
            items@.map_values(|i: SecurityIncidentView| i@) == self@.incidents,
    {
        let mut items: Vec<SecurityIncidentView> = Vec::new();
        let mut n: usize = 0;
        while n < self.security_incidents.len()
            invariant
                n <= self.security_incidents@.len(),
                items@.len() == n,
                forall|j: int|
                    0 <= j < n ==> (#[trigger] items@[j])@ == self.security_incidents@[j]@,
            decreases self.security_incidents@.len() - n,
        {
            items.push(self.security_incidents[n].clone());
            n += 1;
        }
        assert(items@.map_values(|i: SecurityIncidentView| i@) =~= self@.incidents);
        items
    }
}

/// Whether stimuli stand in the order of their last events, the latest first.
pub open spec fn latest_first(items: Seq<StimulusModel>) -> bool {
    forall|i: int, j: int|
        0 <= i < j < items.len() ==> (#[trigger] items[i]).last_event_at >= (
        #[trigger] items[j]).last_event_at
}

/// A bounded queue never holds more than its capacity, and its newest item stands
/// in front.
pub proof fn law_bounded_queue<T>(queue: Seq<T>, item: T, capacity: usize)
    ensures
        pushed(queue, item, capacity).len() <= capacity,
        capacity > 0 ==> pushed(queue, item, capacity)[0] == item,
        forall|i: int|
            0 <= i < queue.len() && i + 1 < capacity ==> pushed(queue, item, capacity)[i + 1]
                == #[trigger] queue[i],
{
}

/// Recording an event about one stimulus leaves every other stimulus as it was, and
/// an event that is no incident leaves the incidents as they were.
pub proof fn law_recording_is_local(
    store: OperatorReadModel,
    event: DomainEvent,
    other: Seq<char>,
)
    requires
        event matches DomainEvent::Stimulus(e) ==> e.id() != other,
    ensures
        stimulus_known(recorded(store, event).stimuli, other) == stimulus_known(
            store.stimuli,
            other,
        ),
        event_incident(event) is None ==> recorded(store, event).incidents == store.incidents,
        recorded(store, event).capacity == store.capacity,
{
}

/// However often a stimulus is classified, rejected or fails, it keeps its source
/// and the moment of its reception.
pub proof fn law_reception_is_kept(known: StimulusModel, event: StimulusEvent)
    requires
        !(event is StimulusReceived),
    ensures
        stimulus_after(Some(known), event).source == known.source,
        stimulus_after(Some(known), event).received_at == known.received_at,
        stimulus_after(Some(known), event).stimulus_id == known.stimulus_id,
{
}

/// A moment as whole seconds since the epoch and the nanoseconds after them, where the
/// seconds can be told.
pub open spec fn second_of(at: Moment) -> Option<(i64, u32)> {
    let seconds = at as int / 1_000_000_000;
    if i64::MIN <= seconds <= i64::MAX {
        Some((seconds as i64, (at as int % 1_000_000_000) as u32))
    } else {
        None
    }
}

/// A moment as whole seconds since the epoch and the nanoseconds after them.
fn split_moment(at: Moment) -> (r: Option<(i64, u32)>)
    ensures
        r == second_of(at),
        r matches Some(split) ==> split.1 < 1_000_000_000,
{
    let (seconds, nanos): (i128, u128) = if at >= 0 {
        ((at as u128 / 1_000_000_000) as i128, at as u128 % 1_000_000_000)
    } else {
        let before: u128 = (-(at + 1)) as u128;
        (-1 - (before / 1_000_000_000) as i128, 999_999_999 - before % 1_000_000_000)
    };
    assert(seconds == at as int / 1_000_000_000);
    assert(nanos == at as int % 1_000_000_000);
    if seconds < i64::MIN as i128 || seconds > i64::MAX as i128 {
        return None;
    }
    Some((seconds as i64, nanos as u32))
}

/// How a moment is written, where the calendar has it.
pub open spec fn moment_chars(at: Moment) -> Option<Seq<char>> {
    match second_of(at) {
        Some((seconds, nanos)) => if primitives::calendar_has(seconds) {
            Some(primitives::calendar_chars(seconds, nanos))
        } else {
            None
        },
        None => None,
    }
}

/// How a moment is written, where the calendar has it.
pub fn moment_text(at: Moment) -> (r: Option<String>)
    ensures
        text::opt_view(r) == moment_chars(at),
{
    match split_moment(at) {
        Some((seconds, nanos)) => primitives::calendar_text(seconds, nanos),
        None => None,
    }
}

/// How a moment is written with its distance from UTC, where the calendar has it.
pub open spec fn stamp_chars(at: Moment) -> Option<Seq<char>> {
    match second_of(at) {
        Some((seconds, nanos)) => if primitives::calendar_has(seconds) {
            Some(primitives::stamped_chars(seconds, nanos))
        } else {
            None
        },
        None => None,
    }
}

/// How a moment is written with its distance from UTC, where the calendar has it.
pub fn stamp_text(at: Moment) -> (r: Option<String>)
    ensures
        text::opt_view(r) == stamp_chars(at),
{
    match split_moment(at) {
        Some((seconds, nanos)) => primitives::stamped_text(seconds, nanos),
        None => None,
    }
}

/// How a moment is shown with its distance from UTC.
pub open spec fn stamp_shown(at: Moment) -> JsonView {
    JsonView::opt_text(stamp_chars(at))
}

/// How a moment is shown with its distance from UTC.
pub fn show_stamp(at: Moment) -> (r: Json)
    ensures
        r@ == stamp_shown(at),
{
    Json::opt_text(&stamp_text(at))
}

/// How a moment is shown with its distance from UTC, where there is one.
pub open spec fn opt_stamp_shown(at: Option<Moment>) -> JsonView {
    match at {
        Some(t) => stamp_shown(t),
        None => JsonView::Null,
    }
}

/// How a moment is shown with its distance from UTC, where there is one.
pub fn show_opt_stamp(at: Option<Moment>) -> (r: Json)
    ensures
        r@ == opt_stamp_shown(at),
{
    match at {
        Some(t) => show_stamp(t),
        None => Json::Null,
    }
}

/// How a moment is shown.
pub open spec fn moment_shown(at: Moment) -> JsonView {
    JsonView::opt_text(moment_chars(at))
}

/// How a moment is shown.
pub fn show_moment(at: Moment) -> (r: Json)
    ensures
        r@ == moment_shown(at),
{
    Json::opt_text(&moment_text(at))
}

/// How a moment is shown, where there is one.
pub open spec fn opt_moment_shown(at: Option<Moment>) -> JsonView {
    match at {
        Some(t) => moment_shown(t),
        None => JsonView::Null,
    }
}

/// How a moment is shown, where there is one.
pub fn show_opt_moment(at: Option<Moment>) -> (r: Json)
    ensures
        r@ == opt_moment_shown(at),
{
    match at {
        Some(t) => show_moment(t),
        None => Json::Null,
    }
}

impl StimulusModel {
    /// The JSON in which a stimulus, given its confidence, is shown.
    pub open spec fn rendered(self, confidence: JsonView) -> JsonView {
        JsonView::object().with(
            "stimulus_id"@,
            JsonView::Str(self.stimulus_id),
        ).with(
            "source"@,
            JsonView::Str(self.source),
        ).with(
            "status"@,
            JsonView::Str(self.status),
        ).with(
            "workflow_id"@,
            JsonView::opt_text(self.workflow_id),
        ).with(
            "confidence"@,
            confidence,
        ).with(
            "routing_mode"@,
            JsonView::opt_text(self.routing_mode),
        ).with(
            "rejection_reason"@,
            JsonView::opt_text(self.rejection_reason),
        ).with(
            "classification_error"@,
            JsonView::opt_text(self.classification_error),
        ).with(
            "received_at"@,
            moment_shown(self.received_at),
        ).with(
            "last_event_at"@,
            moment_shown(self.last_event_at),
        )
    }
}

impl StimulusView {
    /// The JSON in which a stimulus, given its confidence, is shown.
    pub fn render(&self, confidence: Json) -> (r: Json)
        ensures
            r@ == self@.rendered(confidence@),
    {
        Json::object().with(
            "stimulus_id",
            Json::text(self.stimulus_id.as_str()),
        ).with(
            "source",
            Json::text(self.source.as_str()),
        ).with(
            "status",
            Json::text(self.status.as_str()),
        ).with(
            "workflow_id",
            Json::opt_text(&self.workflow_id),
        ).with(
            "confidence",
            confidence,
        ).with(
            "routing_mode",
            Json::opt_text(&self.routing_mode),
        ).with(
            "rejection_reason",
            Json::opt_text(&self.rejection_reason),
        ).with(
            "classification_error",
            Json::opt_text(&self.classification_error),
        ).with(
            "received_at",
            show_moment(self.received_at),
        ).with(
            "last_event_at",
            show_moment(self.last_event_at),
        )
    }
}

impl SecurityIncidentModel {
    /// The JSON in which an incident is shown.
    pub open spec fn rendered(self) -> JsonView {
        JsonView::object().with(
            "category"@,
            JsonView::Str(self.category),
        ).with(
            "severity"@,
            JsonView::Str(self.severity),
        ).with(
            "agent_id"@,
            JsonView::opt_text(self.agent_id),
        ).with(
            "execution_id"@,
            JsonView::opt_text(self.execution_id),
        ).with(
            "session_id"@,
            JsonView::opt_text(self.session_id),
        ).with(
            "tool_name"@,
            JsonView::opt_text(self.tool_name),
        ).with(
            "details"@,
            JsonView::Str(self.details),
        ).with(
            "occurred_at"@,
            moment_shown(self.occurred_at),
        )
    }
}

impl SecurityIncidentView {
    /// The JSON in which an incident is shown.
    pub fn render(&self) -> (r: Json)
        ensures
            r@ == self@.rendered(),
    {
        Json::object().with(
            "category",
            Json::text(self.category.as_str()),
        ).with(
            "severity",
            Json::text(self.severity.as_str()),
        ).with(
            "agent_id",
            Json::opt_text(&self.agent_id),
        ).with(
            "execution_id",
            Json::opt_text(&self.execution_id),
        ).with(
            "session_id",
            Json::opt_text(&self.session_id),
        ).with(
            "tool_name",
            Json::opt_text(&self.tool_name),
        ).with(
            "details",
            Json::text(self.details.as_str()),
        ).with(
            "occurred_at",
            show_moment(self.occurred_at),
        )
    }
}

impl StorageViolationModel {
    /// The JSON in which a violation is shown.
    pub open spec fn rendered(self) -> JsonView {
        JsonView::object().with(
            "category"@,
            JsonView::Str(self.category),
        ).with(
            "execution_id"@,
            JsonView::Str(self.execution_id),
        ).with(
            "volume_id"@,
            JsonView::opt_text(self.volume_id),
        ).with(
            "path"@,
            JsonView::opt_text(self.path),
        ).with(
            "operation"@,
            JsonView::opt_text(self.operation),
        ).with(
            "details"@,
            JsonView::Str(self.details),
        ).with(
            "occurred_at"@,
            moment_shown(self.occurred_at),
        )
    }
}

impl StorageViolationView {
    /// The JSON in which a violation is shown.
    pub fn render(&self) -> (r: Json)
        ensures
            r@ == self@.rendered(),
    {
        Json::object().with(
            "category",
            Json::text(self.category.as_str()),
        ).with(
            "execution_id",
            Json::text(self.execution_id.as_str()),
        ).with(
            "volume_id",
            Json::opt_text(&self.volume_id),
        ).with(
            "path",
            Json::opt_text(&self.path),
        ).with(
            "operation",
            Json::opt_text(&self.operation),
        ).with(
            "details",
            Json::text(self.details.as_str()),
        ).with(
            "occurred_at",
            show_moment(self.occurred_at),
        )
    }
}

/// A stimulus is what its events make of it: received it is new, with its own source and
/// time; what comes later changes its status, the time of its last event and what it tells,
/// and keeps all the rest.
pub proof fn law_stimuli_follow_their_events(
    known: StimulusModel,
    stimulus_id: String,
    source: String,
    workflow_id: String,
    confidence: u64,
    routing_mode: String,
    reason: String,
    at: Moment,
)
    ensures
        stimulus_after(
            Some(known),
            StimulusEvent::StimulusReceived { stimulus_id, source, received_at: at },
        ) == (StimulusModel {
            stimulus_id: stimulus_id@,
            source: source@,
            status: "received"@,
            workflow_id: None,
            confidence: None,
            routing_mode: None,
            rejection_reason: None,
            classification_error: None,
            received_at: at,
            last_event_at: at,
        }),
        stimulus_after(
            Some(known),
            StimulusEvent::StimulusClassified {
                stimulus_id,
                workflow_id,
                confidence,
                routing_mode,
                classified_at: at,
            },
        ) == (StimulusModel {
            status: "classified"@,
            workflow_id: Some(workflow_id@),
            confidence: Some(confidence),
            routing_mode: Some(routing_mode@),
            last_event_at: at,
            ..known
        }),
        stimulus_after(
            Some(known),
            StimulusEvent::StimulusRejected { stimulus_id, reason, rejected_at: at },
        ) == (StimulusModel {
            status: "rejected"@,
            rejection_reason: Some(reason@),
            last_event_at: at,
            ..known
        }),
        stimulus_after(
            Some(known),
            StimulusEvent::ClassificationFailed { stimulus_id, error: reason, failed_at: at },
        ) == (StimulusModel {
            status: "classification_failed"@,
            classification_error: Some(reason@),
            last_event_at: at,
            ..known
        }),
{
}

/// A stimulus of which nothing was known before an event is taken up with an unknown
/// source, at the time of the event.
pub proof fn law_unknown_stimuli_are_taken_up(
    stimulus_id: String,
    reason: String,
    at: Moment,
)
    ensures
        ({
            let taken = stimulus_after(
                None,
                StimulusEvent::StimulusRejected { stimulus_id, reason, rejected_at: at },
            );
            &&& taken.stimulus_id == stimulus_id@
            &&& taken.source == "unknown"@
            &&& taken.status == "rejected"@
            &&& taken.rejection_reason == Some(reason@)
            &&& taken.received_at == at
            &&& taken.last_event_at == at
        }),
        ({
            let taken = stimulus_after(
                None,
                StimulusEvent::ClassificationFailed { stimulus_id, error: reason, failed_at: at },
            );
            &&& taken.stimulus_id == stimulus_id@
            &&& taken.source == "unknown"@
            &&& taken.classification_error == Some(reason@)
            &&& taken.received_at == at
        }),
{
}

/// An event of a stimulus is recorded under the stimulus' own identifier, and an incident
/// comes first among the incidents; neither touches anything else.
pub proof fn law_events_are_recorded_where_they_belong(
    store: OperatorReadModel,
    event: StimulusEvent,
    policy: PolicyEvent,
    other: Seq<char>,
)
    requires
        store.capacity > 0,
    ensures
        recorded(store, DomainEvent::Stimulus(event)).stimuli.dom().contains(event.id()),
        recorded(store, DomainEvent::Stimulus(event)).stimuli[event.id()] == stimulus_after(
            if store.stimuli.dom().contains(event.id()) {
                Some(store.stimuli[event.id()])
            } else {
                None
            },
            event,
        ),
        other != event.id() ==> recorded(
            store,
            DomainEvent::Stimulus(event),
        ).stimuli.dom().contains(other) == store.stimuli.dom().contains(other),
        other != event.id() && store.stimuli.dom().contains(other) ==> recorded(
            store,
            DomainEvent::Stimulus(event),
        ).stimuli[other] == store.stimuli[other],
        recorded(store, DomainEvent::Stimulus(event)).incidents == store.incidents,
        recorded(store, DomainEvent::Policy(policy)).stimuli == store.stimuli,
        recorded(store, DomainEvent::Policy(policy)).incidents.len() > 0,
        recorded(store, DomainEvent::Policy(policy)).incidents[0] == policy_incident(policy),
{
}

/// The newest item comes first in a bounded queue, the others keep their order behind it,
/// and only what no longer fits is gone.
pub proof fn law_the_newest_comes_first<T>(queue: Seq<T>, item: T, capacity: usize, i: int)
    requires
        capacity > 0,
    ensures
        pushed(queue, item, capacity)[0] == item,
        0 <= i < queue.len() && i + 1 < capacity ==> pushed(queue, item, capacity)[i + 1] == queue[i],
        pushed(queue, item, capacity).len() == (if queue.len() < capacity {
            queue.len() + 1
        } else {
            capacity as nat
        }),
{
}

/// An incident tells of the agent, the time and the reason of its event; one that was
/// blocked is graver than one that was only attempted.
pub proof fn law_incidents_tell_of_their_event(
    agent_id: String,
    execution_id: String,
    session_id: String,
    tool_name: String,
    violation_type: String,
    details: String,
    at: Moment,
)
    ensures
        smcp_incident(
            SmcpEvent::PolicyViolationBlocked {
                agent_id,
                execution_id,
                tool_name,
                violation_type,
                details,
                blocked_at: at,
            },
        ) == Some(
            SecurityIncidentModel {
                category: "smcp_policy_violation_blocked"@,
                severity: "high"@,
                agent_id: Some(agent_id@),
                execution_id: Some(execution_id@),
                session_id: None,
                tool_name: Some(tool_name@),
                details: violation_type@ + ": "@ + details@,
                occurred_at: at,
            },
        ),
        smcp_incident(
            SmcpEvent::SessionRevoked { session_id, agent_id, reason: details, revoked_at: at },
        ) == Some(
            SecurityIncidentModel {
                category: "smcp_session_revoked"@,
                severity: "medium"@,
                agent_id: Some(agent_id@),
                execution_id: None,
                session_id: Some(session_id@),
                tool_name: None,
                details: details@,
                occurred_at: at,
            },
        ),
        smcp_incident(SmcpEvent::Other) is None,
        policy_incident(
            PolicyEvent::PolicyViolationAttempted {
                agent_id,
                violation_type,
                details,
                attempted_at: at,
            },
        ) == (SecurityIncidentModel {
            category: "policy_violation_attempted"@,
            severity: "medium"@,
            agent_id: Some(agent_id@),
            execution_id: None,
            session_id: None,
            tool_name: Some(violation_type@),
            details: details@,
            occurred_at: at,
        }),
        policy_incident(
            PolicyEvent::PolicyViolationBlocked {
                agent_id,
                violation_type,
                details,
                blocked_at: at,
            },
        ).severity == "high"@,
        policy_incident(
            PolicyEvent::PolicyViolationBlocked {
                agent_id,
                violation_type,
                details,
                blocked_at: at,
            },
        ).category == "policy_violation_blocked"@,
        policy_incident(
            PolicyEvent::PolicyViolationBlocked {
                agent_id,
                violation_type,
                details,
                blocked_at: at,
            },
        ).details == details@,
        policy_incident(
            PolicyEvent::PolicyViolationBlocked {
                agent_id,
                violation_type,
                details,
                blocked_at: at,
            },
        ).occurred_at == at,
{
}

/// A violation tells of the execution, the volume, the path and the time of its event,
/// under a category of its own.
pub proof fn law_violations_tell_of_their_event(
    execution_id: String,
    volume_id: String,
    path: String,
    operation: String,
    policy_rule: String,
    requested_bytes: u64,
    available_bytes: u64,
    at: Moment,
)
    ensures
        violation_model(
            StorageEvent::PathTraversalBlocked {
                execution_id,
                attempted_path: path,
                blocked_at: at,
            },
        ) == (StorageViolationModel {
            category: "path_traversal_blocked"@,
            execution_id: execution_id@,
            volume_id: None,
            path: Some(path@),
            operation: Some("path_traversal"@),
            details: "Path traversal was blocked before reaching storage"@,
            occurred_at: at,
        }),
        violation_model(
            StorageEvent::FilesystemPolicyViolation {
                execution_id,
                volume_id,
                operation,
                path,
                policy_rule,
                violated_at: at,
            },
        ) == (StorageViolationModel {
            category: "filesystem_policy_violation"@,
            execution_id: execution_id@,
            volume_id: Some(volume_id@),
            path: Some(path@),
            operation: Some(operation@),
            details: "Policy rule violated: "@ + policy_rule@,
            occurred_at: at,
        }),
        violation_model(
            StorageEvent::QuotaExceeded {
                execution_id,
                volume_id,
                requested_bytes,
                available_bytes,
                exceeded_at: at,
            },
        ) == (StorageViolationModel {
            category: "quota_exceeded"@,
            execution_id: execution_id@,
            volume_id: Some(volume_id@),
            path: None,
            operation: Some("quota"@),
            details: "Requested "@ + text::decimal(requested_bytes as nat) + " bytes but only "@
                + text::decimal(available_bytes as nat) + " bytes were available"@,
            occurred_at: at,
        }),
        violation_model(
            StorageEvent::UnauthorizedVolumeAccess { execution_id, volume_id, attempted_at: at },
        ) == (StorageViolationModel {
            category: "unauthorized_volume_access"@,
            execution_id: execution_id@,
            volume_id: Some(volume_id@),
            path: None,
            operation: Some("access"@),
            details: "Unauthorized volume access was blocked"@,
            occurred_at: at,
        }),
{
}

/// An access that is audited tells of the execution, the volume, the path, the operation
/// and the time.
pub proof fn law_audited_accesses_tell_of_their_event(
    execution_id: String,
    volume_id: String,
    path: String,
    open_mode: String,
    at: Moment,
    seen: StorageViolationModel,
)
    requires
        ({
            ||| seen == violation_model(
                StorageEvent::FileRead { execution_id, volume_id, path, read_at: at },
            ) && seen.operation == Some("read"@)
            ||| seen == violation_model(
                StorageEvent::FileWritten { execution_id, volume_id, path, written_at: at },
            ) && seen.operation == Some("write"@)
            ||| seen == violation_model(
                StorageEvent::FileClosed { execution_id, volume_id, path, closed_at: at },
            ) && seen.operation == Some("close"@)
            ||| seen == violation_model(
                StorageEvent::FileCreated { execution_id, volume_id, path, created_at: at },
            ) && seen.operation == Some("create"@)
            ||| seen == violation_model(
                StorageEvent::FileDeleted { execution_id, volume_id, path, deleted_at: at },
            ) && seen.operation == Some("delete"@)
            ||| seen == violation_model(
                StorageEvent::DirectoryListed { execution_id, volume_id, path, listed_at: at },
            ) && seen.operation == Some("list"@)
            ||| seen == violation_model(
                StorageEvent::FileOpened { execution_id, volume_id, path, open_mode, opened_at: at },
            ) && seen.operation == Some(open_mode@)
        }),
    ensures
        seen.execution_id == execution_id@,
        seen.volume_id == Some(volume_id@),
        seen.path == Some(path@),
        seen.occurred_at == at,
{
}

/// Each audited access goes by its own category and operation.
pub proof fn law_audited_accesses_go_by_their_category(
    execution_id: String,
    volume_id: String,
    path: String,
    open_mode: String,
    at: Moment,
)
    ensures
        ({
            let seen = violation_model(
                StorageEvent::FileRead { execution_id, volume_id, path, read_at: at },
            );
            seen.category == "file_read"@ && seen.operation == Some("read"@)
        }),
        ({
            let seen = violation_model(
                StorageEvent::FileWritten { execution_id, volume_id, path, written_at: at },
            );
            seen.category == "file_written"@ && seen.operation == Some("write"@)
        }),
        ({
            let seen = violation_model(
                StorageEvent::FileClosed { execution_id, volume_id, path, closed_at: at },
            );
            seen.category == "file_closed"@ && seen.operation == Some("close"@)
        }),
        ({
            let seen = violation_model(
                StorageEvent::FileCreated { execution_id, volume_id, path, created_at: at },
            );
            seen.category == "file_created"@ && seen.operation == Some("create"@)
        }),
        ({
            let seen = violation_model(
                StorageEvent::FileDeleted { execution_id, volume_id, path, deleted_at: at },
            );
            seen.category == "file_deleted"@ && seen.operation == Some("delete"@)
        }),
        ({
            let seen = violation_model(
                StorageEvent::DirectoryListed { execution_id, volume_id, path, listed_at: at },
            );
            seen.category == "directory_listed"@ && seen.operation == Some("list"@)
        }),
        ({
            let seen = violation_model(
                StorageEvent::FileOpened { execution_id, volume_id, path, open_mode, opened_at: at },
            );
            seen.category == "file_opened"@ && seen.operation == Some(open_mode@)
        }),
{
}

/// A moment is split into the seconds and the nanoseconds that make it up.
pub proof fn law_moments_are_made_of_seconds(at: Moment)
    ensures
        second_of(at) matches Some((seconds, nanos)) ==> seconds * 1_000_000_000 + nanos == at
            && nanos < 1_000_000_000,
        -9_000_000_000_000_000_000_000_000_000 <= at <= 9_000_000_000_000_000_000_000_000_000
            ==> second_of(at) is Some,
{
}

/// The JSON in which a stimulus, given its confidence, is shown: each part is found
/// under its own name, as it is.
pub proof fn law_stimulus_model_rendered_holds_its_parts(
    row: StimulusModel,
    confidence: JsonView,
)
    ensures
        row.rendered(confidence).get("stimulus_id"@) == Some(JsonView::Str(row.stimulus_id)),
        row.rendered(confidence).get("source"@) == Some(JsonView::Str(row.source)),
        row.rendered(confidence).get("status"@) == Some(JsonView::Str(row.status)),
        row.rendered(confidence).get("workflow_id"@) == Some(JsonView::opt_text(row.workflow_id)),
        row.rendered(confidence).get("confidence"@) == Some(confidence),
        row.rendered(confidence).get("routing_mode"@) == Some(JsonView::opt_text(row.routing_mode)),
        row.rendered(confidence).get("rejection_reason"@) == Some(JsonView::opt_text(row.rejection_reason)),
        row.rendered(confidence).get("classification_error"@) == Some(JsonView::opt_text(row.classification_error)),
        row.rendered(confidence).get("received_at"@) == Some(moment_shown(row.received_at)),
        row.rendered(confidence).get("last_event_at"@) == Some(moment_shown(row.last_event_at)),
{
    broadcast use crate::json::lemma_get_with;

    reveal_strlit("stimulus_id");
    reveal_strlit("source");
    reveal_strlit("status");
    reveal_strlit("workflow_id");
    reveal_strlit("confidence");
    reveal_strlit("routing_mode");
    reveal_strlit("rejection_reason");
    reveal_strlit("classification_error");
    reveal_strlit("received_at");
    reveal_strlit("last_event_at");
    assert("stimulus_id"@.len() == 11 && "source"@.len() == 6 && "status"@.len() == 6 && "workflow_id"@.len() == 11 && "confidence"@.len() == 10 && "routing_mode"@.len() == 12 && "rejection_reason"@.len() == 16 && "classification_error"@.len() == 20 && "received_at"@.len() == 11 && "last_event_at"@.len() == 13 && "status"@[1] == 't' && "source"@[1] == 'o' && "workflow_id"@[0] == 'w' && "stimulus_id"@[0] == 's' && "received_at"@[0] == 'r');
}

/// The JSON in which an incident is shown: each part is found under its own name, as it
/// is.
pub proof fn law_security_incident_model_rendered_holds_its_parts(
    row: SecurityIncidentModel,
)
    ensures
        row.rendered().get("category"@) == Some(JsonView::Str(row.category)),
        row.rendered().get("severity"@) == Some(JsonView::Str(row.severity)),
        row.rendered().get("agent_id"@) == Some(JsonView::opt_text(row.agent_id)),
        row.rendered().get("execution_id"@) == Some(JsonView::opt_text(row.execution_id)),
        row.rendered().get("session_id"@) == Some(JsonView::opt_text(row.session_id)),
        row.rendered().get("tool_name"@) == Some(JsonView::opt_text(row.tool_name)),
        row.rendered().get("details"@) == Some(JsonView::Str(row.details)),
        row.rendered().get("occurred_at"@) == Some(moment_shown(row.occurred_at)),
{
    broadcast use crate::json::lemma_get_with;

    reveal_strlit("category");
    reveal_strlit("severity");
    reveal_strlit("agent_id");
    reveal_strlit("execution_id");
    reveal_strlit("session_id");
    reveal_strlit("tool_name");
    reveal_strlit("details");
    reveal_strlit("occurred_at");
    assert("category"@.len() == 8 && "severity"@.len() == 8 && "agent_id"@.len() == 8 && "execution_id"@.len() == 12 && "session_id"@.len() == 10 && "tool_name"@.len() == 9 && "details"@.len() == 7 && "occurred_at"@.len() == 11 && "severity"@[0] == 's' && "category"@[0] == 'c' && "agent_id"@[0] == 'a');
}

/// The JSON in which a violation is shown: each part is found under its own name, as it
/// is.
pub proof fn law_storage_violation_model_rendered_holds_its_parts(
    row: StorageViolationModel,
)
    ensures
        row.rendered().get("category"@) == Some(JsonView::Str(row.category)),
        row.rendered().get("execution_id"@) == Some(JsonView::Str(row.execution_id)),
        row.rendered().get("volume_id"@) == Some(JsonView::opt_text(row.volume_id)),
        row.rendered().get("path"@) == Some(JsonView::opt_text(row.path)),
        row.rendered().get("operation"@) == Some(JsonView::opt_text(row.operation)),
        row.rendered().get("details"@) == Some(JsonView::Str(row.details)),
        row.rendered().get("occurred_at"@) == Some(moment_shown(row.occurred_at)),
{
    broadcast use crate::json::lemma_get_with;

    reveal_strlit("category");
    reveal_strlit("execution_id");
    reveal_strlit("volume_id");
    reveal_strlit("path");
    reveal_strlit("operation");
    reveal_strlit("details");
    reveal_strlit("occurred_at");
    assert("category"@.len() == 8 && "execution_id"@.len() == 12 && "volume_id"@.len() == 9 && "path"@.len() == 4 && "operation"@.len() == 9 && "details"@.len() == 7 && "occurred_at"@.len() == 11 && "operation"@[0] == 'o' && "volume_id"@[0] == 'v');
}

/// A stimulus that was not seen before begins as received, at the time of its event.
pub proof fn law_new_stimuli_are_received(id: Seq<char>, source: Seq<char>, at: Moment)
    ensures
        unseen(id, source, at).stimulus_id == id,
        unseen(id, source, at).source == source,
        unseen(id, source, at).status == "received"@,
        unseen(id, source, at).received_at == at,
        unseen(id, source, at).last_event_at == at,
        unseen(id, source, at).workflow_id is None,
        unseen(id, source, at).rejection_reason is None,
{
}

/// A list that is in order begins with the latest, and every stimulus that is known is
/// among those seen.
pub proof fn law_stimuli_are_listed_latest_first(
    store: OperatorReadModelStore,
    items: Seq<StimulusModel>,
    i: int,
    j: int,
)
    ensures
        latest_first(items) && 0 <= i < j < items.len() ==> items[i].last_event_at
            >= items[j].last_event_at,
        store.stimuli_seen().len() == store.stimuli.keys().len(),
        0 <= i < store.stimuli.keys().len() ==> store.stimuli_seen()[i]
            == store@.stimuli[store.stimuli.keys()[i]],
{
    if latest_first(items) && 0 <= i < j < items.len() {
        assert(items[i].last_event_at >= items[j].last_event_at);
    }
}

/// A moment that the calendar reaches is written as its calendar time, and one that it does
/// not is not written.
pub proof fn law_moments_are_written_where_the_calendar_reaches(
    at: Moment,
    seconds: i64,
    nanos: u32,
)
    requires
        at == seconds * 1_000_000_000 + nanos,
        nanos < 1_000_000_000,
    ensures
        primitives::calendar_has(seconds) ==> moment_shown(at) == JsonView::Str(
            primitives::calendar_chars(seconds, nanos),
        ) && stamp_shown(at) == JsonView::Str(primitives::stamped_chars(seconds, nanos)),
        !primitives::calendar_has(seconds) ==> moment_shown(at) == JsonView::Null && stamp_shown(
            at,
        ) == JsonView::Null,
{
    assert(second_of(at) == Some((seconds, nanos)));
}

} // verus!
