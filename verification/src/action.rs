//! Action system for real-time enforcement.
//!
//! Blocking, kill, quarantine and alert actions, in inline (blocking), async
//! (background) and offline (simulation) modes.
use sha2::Digest;
use vstd::prelude::*;
use vstd::string::*;
use crate::decimal::{hex_bytes, push_hex_bytes};

verus! {

/// Action type - the enforcement action to take
#[derive(Debug, Clone, Copy, PartialEq, Eq, Hash)]
pub enum ActionType {
    /// Block/deny the operation (inline enforcement only)
    Block,
    /// Allow the operation (explicit allowlist)
    Allow,
    /// Kill the process
    Kill,
    /// Quarantine the file (mark as suspicious)
    Quarantine,
    /// Alert only (no enforcement)
    Alert,
}

/// Lower-case name of each action type.
pub open spec fn action_type_name(a: ActionType) -> Seq<char> {
    match a {
        ActionType::Block => "block"@,
        ActionType::Allow => "allow"@,
        ActionType::Kill => "kill"@,
        ActionType::Quarantine => "quarantine"@,
        ActionType::Alert => "alert"@,
    }
}

impl ActionType {
    /// The lower-case name of the action.
    pub fn to_string(&self) -> (r: String)
        ensures
            r@ == action_type_name(*self),
    {
        match self {
            ActionType::Block => "block".to_owned(),
            ActionType::Allow => "allow".to_owned(),
            ActionType::Kill => "kill".to_owned(),
            ActionType::Quarantine => "quarantine".to_owned(),
            ActionType::Alert => "alert".to_owned(),
        }
    }
}

/// Action policy - determines how actions are executed
#[derive(Debug, Clone, Copy, PartialEq, Eq, Hash)]
pub enum ActionPolicy {
    /// Real-time blocking with strict budget (inline enforcement)
    Inline,
    /// Asynchronous processing (background enforcement)
    Async,
    /// Offline mode (simulation only, no actual enforcement)
    Offline,
}

/// Lower-case name of each policy.
pub open spec fn action_policy_name(p: ActionPolicy) -> Seq<char> {
    match p {
        ActionPolicy::Inline => "inline"@,
        ActionPolicy::Async => "async"@,
        ActionPolicy::Offline => "offline"@,
    }
}

impl ActionPolicy {
    /// The lower-case name of the policy.
    pub fn to_string(&self) -> (r: String)
        ensures
            r@ == action_policy_name(*self),
    {
        match self {
            ActionPolicy::Inline => "inline".to_owned(),
            ActionPolicy::Async => "async".to_owned(),
            ActionPolicy::Offline => "offline".to_owned(),
        }
    }
}

/// Target of the action
#[derive(Debug, PartialEq, Eq, Hash)]
pub enum ActionTarget {
    /// Process execution (execve/execveat)
    ProcessExec { pid: u32, executable: String },
    /// File operation (open/write/rename/unlink)
    FileOp { pid: u32, path: String },
    /// Network operation (connect/sendto)
    NetworkOp { pid: u32, addr: String },
    /// Memory operation (mmap/mprotect/process_vm_writev)
    MemoryOp { pid: u32 },
}

/// The process a target belongs to.
pub open spec fn target_pid(t: ActionTarget) -> u32 {
    match t {
        ActionTarget::ProcessExec { pid, .. } => pid,
        ActionTarget::FileOp { pid, .. } => pid,
        ActionTarget::NetworkOp { pid, .. } => pid,
        ActionTarget::MemoryOp { pid } => pid,
    }
}

impl ActionTarget {
    /// Get the PID associated with this target
    pub fn pid(&self) -> (r: u32)
        ensures
            r == target_pid(*self),
    {
        match self {
            ActionTarget::ProcessExec { pid, .. } => *pid,
            ActionTarget::FileOp { pid, .. } => *pid,
            ActionTarget::NetworkOp { pid, .. } => *pid,
            ActionTarget::MemoryOp { pid } => *pid,
        }
    }
}

impl Clone for ActionTarget {
    fn clone(&self) -> (r: Self)
        ensures
            r == *self,
    {
        match self {
            ActionTarget::ProcessExec { pid, executable } => ActionTarget::ProcessExec {
                pid: *pid,
                executable: executable.clone(),
            },
            ActionTarget::FileOp { pid, path } => ActionTarget::FileOp {
                pid: *pid,
                path: path.clone(),
            },
            ActionTarget::NetworkOp { pid, addr } => ActionTarget::NetworkOp {
                pid: *pid,
                addr: addr.clone(),
            },
            ActionTarget::MemoryOp { pid } => ActionTarget::MemoryOp { pid: *pid },
        }
    }
}

/// Evidence associated with an action decision
#[derive(Debug)]
pub struct ActionEvidence {
    /// Event type ID
    pub event_type_id: u16,
    /// Event timestamp
    pub timestamp_ns: u64,
    /// Relevant fields
    pub fields: Vec<(String, serde_json::Value)>,
}

impl ActionEvidence {
    /// Create new evidence from event data
    pub fn new(event_type_id: u16, timestamp_ns: u64, fields: Vec<(String, serde_json::Value)>) -> (r:
        Self)
        ensures
            r.event_type_id == event_type_id,
            r.timestamp_ns == timestamp_ns,
            r.fields == fields,
    {
        ActionEvidence { event_type_id, timestamp_ns, fields }
    }
}

/// Two pieces of evidence with the same event type, time and fields.
pub open spec fn same_evidence(a: ActionEvidence, b: ActionEvidence) -> bool {
    &&& a.event_type_id == b.event_type_id
    &&& a.timestamp_ns == b.timestamp_ns
    &&& a.fields@ == b.fields@
}

impl Clone for ActionEvidence {
    fn clone(&self) -> (r: Self)
        ensures
            same_evidence(r, *self),
    {
        let mut fields: Vec<(String, serde_json::Value)> = Vec::new();
        let mut i: usize = 0;
        while i < self.fields.len()
            invariant
                i <= self.fields.len(),
                fields@ == self.fields@.take(i as int),
            decreases self.fields.len() - i,
        {
            let (k, v) = &self.fields[i];
            fields.push((k.clone(), v.clone()));
            assert(self.fields@.take(i + 1) == self.fields@.take(i as int).push(self.fields@[i as int]));
            i = i + 1;
        }
        assert(fields@ =~= self.fields@);
        ActionEvidence { event_type_id: self.event_type_id, timestamp_ns: self.timestamp_ns, fields }
    }
}

/// Wraps `uuid::Uuid::new_v4` rendered as text: a fresh random identifier in
/// the hyphenated form the uuid source writes, 36 characters with hyphens
/// after the 8th, 12th, 16th and 20th digit, and the version digit `4` first
/// in the third group. Nothing more is stated of the random digits.
#[verifier::external_body]
pub fn new_uuid_string() -> (r: String)
    ensures
        r@.len() == 36,
        r@[8] == '-' && r@[13] == '-' && r@[18] == '-' && r@[23] == '-',
        r@[14] == '4',
{
    uuid::Uuid::new_v4().to_string()
}

/// Action decision - result of evaluating a rule against an event
#[derive(Debug)]
pub struct ActionDecision {
    /// Unique decision ID
    pub id: String,
    /// Rule ID that generated this decision
    pub rule_id: String,
    /// Action to take
    pub action: ActionType,
    /// Policy for execution
    pub policy: ActionPolicy,
    /// Target of the action
    pub target: ActionTarget,
    /// Decision timestamp (nanoseconds)
    pub timestamp_ns: u64,
    /// Reason for this decision (for audit)
    pub reason: String,
    /// Evidence/events that led to this decision
    pub evidence: Vec<ActionEvidence>,
}

impl ActionDecision {
    /// Create a new action decision with a fresh identifier, stamped with the
    /// current wall-clock time.
    pub fn new(
        rule_id: String,
        action: ActionType,
        policy: ActionPolicy,
        target: ActionTarget,
        reason: String,
        evidence: Vec<ActionEvidence>,
    ) -> (d: Self)
        ensures
            d.rule_id == rule_id,
            d.action == action,
            d.policy == policy,
            d.target == target,
            d.reason == reason,
            d.evidence == evidence,
            d.id@.len() == 36,
    {
        let id = new_uuid_string();
        let timestamp_ns = crate::clock::wall_clock_ns();
        ActionDecision { id, rule_id, action, policy, target, timestamp_ns, reason, evidence }
    }
}

/// Two decisions that agree in every field, the evidence item by item.
pub open spec fn same_decision(a: ActionDecision, b: ActionDecision) -> bool {
    &&& a.id == b.id
    &&& a.rule_id == b.rule_id
    &&& a.action == b.action
    &&& a.policy == b.policy
    &&& a.target == b.target
    &&& a.timestamp_ns == b.timestamp_ns
    &&& a.reason == b.reason
    &&& a.evidence@.len() == b.evidence@.len()
    &&& forall|i: int| 0 <= i < a.evidence@.len() ==> same_evidence(#[trigger] a.evidence@[i], b.evidence@[i])
}

impl Clone for ActionDecision {
    fn clone(&self) -> (r: Self)
        ensures
            same_decision(r, *self),
    {
        let mut evidence: Vec<ActionEvidence> = Vec::new();
        let mut i: usize = 0;
        while i < self.evidence.len()
            invariant
                i <= self.evidence.len(),
                evidence@.len() == i,
                forall|j: int| 0 <= j < i ==> same_evidence(#[trigger] evidence@[j], self.evidence@[j]),
            decreases self.evidence.len() - i,
        {
            evidence.push(self.evidence[i].clone());
            i = i + 1;
        }
        ActionDecision {
            id: self.id.clone(),
            rule_id: self.rule_id.clone(),
            action: self.action,
            policy: self.policy,
            target: self.target.clone(),
            timestamp_ns: self.timestamp_ns,
            reason: self.reason.clone(),
            evidence,
        }
    }
}

/// Result of attempting to execute an action
#[derive(Debug)]
pub struct ActionResult {
    /// Decision ID this result corresponds to
    pub decision_id: String,
    /// Whether the action was successful
    pub success: bool,
    /// Error message if unsuccessful
    pub error: Option<String>,
    /// Actual action taken (may differ from requested)
    pub actual_action: Option<ActionType>,
    /// Result timestamp
    pub timestamp_ns: u64,
    /// Additional result details
    pub details: serde_json::Value,
}

impl Clone for ActionResult {
    fn clone(&self) -> (r: Self)
        ensures
            r == *self,
    {
        ActionResult {
            decision_id: self.decision_id.clone(),
            success: self.success,
            error: match &self.error {
                Some(e) => Some(e.clone()),
                None => None,
            },
            actual_action: self.actual_action,
            timestamp_ns: self.timestamp_ns,
            details: self.details.clone(),
        }
    }
}

/// A result reports success of `action` for decision `id`.
pub open spec fn is_success_of(r: ActionResult, id: Seq<char>, action: ActionType) -> bool {
    &&& r.decision_id@ == id
    &&& r.success
    &&& r.error is None
    &&& r.actual_action == Some(action)
}

impl ActionResult {
    /// Create a successful result
    pub fn success(decision_id: String, actual_action: ActionType) -> (r: Self)
        ensures
            is_success_of(r, decision_id@, actual_action),
    {
        ActionResult {
            decision_id,
            success: true,
            error: None,
            actual_action: Some(actual_action),
            timestamp_ns: crate::clock::wall_clock_ns(),
            details: crate::json::json_empty_object(),
        }
    }

    /// Create a failed result
    pub fn failure(decision_id: String, error: String) -> (r: Self)
        ensures
            r.decision_id == decision_id,
            !r.success,
            r.error == Some(error),
            r.actual_action is None,
    {
        ActionResult {
            decision_id,
            success: false,
            error: Some(error),
            actual_action: None,
            timestamp_ns: crate::clock::wall_clock_ns(),
            details: crate::json::json_empty_object(),
        }
    }
}

/// Action errors
#[derive(Debug)]
pub enum ActionError {
    NotSupported(String),
    PermissionDenied(String),
    TargetNotFound(String),
    ActionFailed(String),
    InvalidAction(String),
    IoError(String),
    QuarantineError(String),
}

/// Message of an action error.
pub open spec fn action_error_message(e: ActionError) -> Seq<char> {
    match e {
        ActionError::NotSupported(m) => "Action not supported in current mode: "@ + m@,
        ActionError::PermissionDenied(m) => "Permission denied for action: "@ + m@,
        ActionError::TargetNotFound(m) => "Target not found: "@ + m@,
        ActionError::ActionFailed(m) => "Action failed: "@ + m@,
        ActionError::InvalidAction(m) => "Invalid action: "@ + m@,
        ActionError::IoError(m) => "IO error: "@ + m@,
        ActionError::QuarantineError(m) => "Quarantine error: "@ + m@,
    }
}

impl ActionError {
    /// The error message.
    pub fn to_string(&self) -> (r: String)
        ensures
            r@ == action_error_message(*self),
    {
        let (prefix, m) = match self {
            ActionError::NotSupported(m) => ("Action not supported in current mode: ", m),
            ActionError::PermissionDenied(m) => ("Permission denied for action: ", m),
            ActionError::TargetNotFound(m) => ("Target not found: ", m),
            ActionError::ActionFailed(m) => ("Action failed: ", m),
            ActionError::InvalidAction(m) => ("Invalid action: ", m),
            ActionError::IoError(m) => ("IO error: ", m),
            ActionError::QuarantineError(m) => ("Quarantine error: ", m),
        };
        let mut s = prefix.to_owned();
        s.append(m.as_str());
        s
    }
}

/// Capability flags for what actions are available
#[derive(Debug, Clone, Copy, PartialEq, Eq, Hash)]
pub struct ActionCapabilities {
    /// Block/deny operations supported
    pub can_block: bool,
    /// Allow operations supported
    pub can_allow: bool,
    /// Kill processes supported
    pub can_kill: bool,
    /// Quarantine files supported
    pub can_quarantine: bool,
    /// Alert-only mode
    pub alert_only: bool,
}

/// Capabilities of full enforcement.
pub open spec fn enforce_caps() -> ActionCapabilities {
    ActionCapabilities {
        can_block: true,
        can_allow: true,
        can_kill: true,
        can_quarantine: true,
        alert_only: false,
    }
}

/// Capabilities of alert-only operation.
pub open spec fn alert_only_caps() -> ActionCapabilities {
    ActionCapabilities {
        can_block: false,
        can_allow: false,
        can_kill: false,
        can_quarantine: false,
        alert_only: true,
    }
}

/// Whether capabilities `c` support `action`: killing and quarantining are
/// also possible where blocking is; alerting always is.
pub open spec fn caps_support(c: ActionCapabilities, action: ActionType) -> bool {
    match action {
        ActionType::Block => c.can_block,
        ActionType::Allow => c.can_allow,
        ActionType::Kill => c.can_kill || c.can_block,
        ActionType::Quarantine => c.can_quarantine || c.can_block,
        ActionType::Alert => true,
    }
}

impl ActionCapabilities {
    /// Full enforcement capabilities
    pub fn enforce() -> (c: Self)
        ensures
            c == enforce_caps(),
    {
        ActionCapabilities {
            can_block: true,
            can_allow: true,
            can_kill: true,
            can_quarantine: true,
            alert_only: false,
        }
    }

    /// Alert-only mode (no enforcement)
    pub fn alert_only() -> (c: Self)
        ensures
            c == alert_only_caps(),
    {
        ActionCapabilities {
            can_block: false,
            can_allow: false,
            can_kill: false,
            can_quarantine: false,
            alert_only: true,
        }
    }

    /// Check if an action type is supported
    pub fn supports(&self, action: ActionType) -> (r: bool)
        ensures
            r == caps_support(*self, action),
    {
        match action {
            ActionType::Block => self.can_block,
            ActionType::Allow => self.can_allow,
            ActionType::Kill => self.kill_process(),
            ActionType::Quarantine => self.quarantine_file(),
            ActionType::Alert => true,
        }
    }

    /// Kill requires either kill or block capability.
    fn kill_process(&self) -> (r: bool)
        ensures
            r == (self.can_kill || self.can_block),
    {
        self.can_kill || self.can_block
    }

    /// Quarantine requires either quarantine or block capability.
    fn quarantine_file(&self) -> (r: bool)
        ensures
            r == (self.can_quarantine || self.can_block),
    {
        self.can_quarantine || self.can_block
    }
}

/// Alerting is supported by every set of capabilities; alert-only
/// capabilities support nothing else, and full enforcement supports everything.
pub proof fn law_capabilities(c: ActionCapabilities, a: ActionType)
    ensures
        caps_support(c, ActionType::Alert),
        caps_support(alert_only_caps(), a) <==> a == ActionType::Alert,
        caps_support(enforce_caps(), a),
        c.can_block ==> caps_support(c, ActionType::Kill) && caps_support(c, ActionType::Quarantine),
{
}

/// Action executor - handles the actual enforcement
pub trait ActionExecutor {
    /// What executing `decision` may report.
    spec fn executes(&self, decision: ActionDecision, r: Result<ActionResult, ActionError>) -> bool;

    /// Execute an action decision
    fn execute(&self, decision: &ActionDecision) -> (r: Result<ActionResult, ActionError>)
        ensures
            self.executes(*decision, r),
    ;

    /// The capabilities of this executor.
    spec fn capabilities_spec(&self) -> ActionCapabilities;

    /// Get the capabilities of this executor
    fn capabilities(&self) -> (c: ActionCapabilities)
        ensures
            c == self.capabilities_spec(),
    ;

    /// The policy this executor operates in.
    spec fn policy_spec(&self) -> ActionPolicy;

    /// Get the policy this executor operates in
    fn policy(&self) -> (p: ActionPolicy)
        ensures
            p == self.policy_spec(),
    ;
}

/// Configuration for block action executor
#[derive(Debug, Clone, Copy)]
pub struct BlockActionConfig {
    /// Use ptrace for process blocking
    pub use_ptrace: bool,
    /// Use seccomp for syscall filtering
    pub use_seccomp: bool,
    /// Use fanotify for file access blocking
    pub use_fanotify: bool,
    /// Signal to send when killing process
    pub kill_signal: i32,
}

impl Default for BlockActionConfig {
    fn default() -> (c: Self)
        ensures
            !c.use_ptrace,
            !c.use_seccomp,
            !c.use_fanotify,
            c.kill_signal == 9,
    {
        BlockActionConfig { use_ptrace: false, use_seccomp: false, use_fanotify: false, kill_signal: 9 }
    }
}

/// Block action executor - handles blocking operations using OS mechanisms
#[derive(Debug, Clone, Copy)]
pub struct BlockActionExecutor {
    pub config: BlockActionConfig,
}

impl BlockActionExecutor {
    /// Create a new block action executor with default config
    pub fn new() -> (e: Self)
        ensures
            e.config.kill_signal == 9,
            !e.config.use_ptrace && !e.config.use_seccomp && !e.config.use_fanotify,
    {
        BlockActionExecutor { config: BlockActionConfig::default() }
    }

    /// Create with custom configuration
    pub fn with_config(config: BlockActionConfig) -> (e: Self)
        ensures
            e.config == config,
    {
        BlockActionExecutor { config }
    }

    /// Kill a process by PID (simulated: the operation is only recorded).
    pub fn kill_process(&self, pid: u32, signal: i32) -> (r: Result<(), ActionError>)
        ensures
            r is Ok,
    {
        Ok(())
    }

    /// Block a file operation (simulated).
    pub fn block_file_operation(&self, pid: u32, path: &str) -> (r: Result<(), ActionError>)
        ensures
            r is Ok,
    {
        Ok(())
    }

    /// Block a network operation (simulated).
    pub fn block_network_operation(&self, pid: u32, addr: &str) -> (r: Result<(), ActionError>)
        ensures
            r is Ok,
    {
        Ok(())
    }
}

impl ActionExecutor for BlockActionExecutor {
    /// Blocking succeeds and reports the decision's action as taken.
    open spec fn executes(&self, decision: ActionDecision, r: Result<ActionResult, ActionError>) -> bool {
        r matches Ok(res) && is_success_of(res, decision.id@, decision.action)
    }

    open spec fn capabilities_spec(&self) -> ActionCapabilities {
        enforce_caps()
    }

    open spec fn policy_spec(&self) -> ActionPolicy {
        ActionPolicy::Inline
    }

    fn execute(&self, decision: &ActionDecision) -> (r: Result<ActionResult, ActionError>)
        ensures
            r matches Ok(res) && is_success_of(res, decision.id@, decision.action),
    {
        match &decision.target {
            ActionTarget::ProcessExec { pid, .. } => {
                self.kill_process(*pid, self.config.kill_signal)?;
            },
            ActionTarget::FileOp { pid, path } => {
                self.block_file_operation(*pid, path.as_str())?;
            },
            ActionTarget::NetworkOp { pid, addr } => {
                self.block_network_operation(*pid, addr.as_str())?;
            },
            ActionTarget::MemoryOp { pid } => {
                self.kill_process(*pid, self.config.kill_signal)?;
            },
        }
        Ok(ActionResult::success(decision.id.clone(), decision.action))
    }

    fn capabilities(&self) -> (c: ActionCapabilities)
        ensures
            c == enforce_caps(),
    {
        ActionCapabilities::enforce()
    }

    fn policy(&self) -> (p: ActionPolicy)
        ensures
            p == ActionPolicy::Inline,
    {
        ActionPolicy::Inline
    }
}

/// The SHA-256 digest of a byte string.
pub uninterp spec fn sha256_digest(data: Seq<u8>) -> Seq<u8>;

/// Wraps `sha2::Sha256::digest`: the SHA-256 digest of the bytes, which is
/// 32 bytes long.
#[verifier::external_body]
fn sha256(data: &[u8]) -> (r: Vec<u8>)
    ensures
        r@ == sha256_digest(data@),
        r@.len() == 32,
{
    sha2::Sha256::digest(data).to_vec()
}

/// The bytes of lines of text, one after the other, without line ends.
pub open spec fn joined_bytes(lines: Seq<String>) -> Seq<u8>
    decreases lines.len(),
{
    if lines.len() == 0 {
        Seq::empty()
    } else {
        joined_bytes(lines.drop_last()) + vstd::utf8::encode_utf8(lines.last()@)
    }
}

/// Configuration for quarantine action executor
#[derive(Debug, Clone)]
pub struct QuarantineConfig {
    /// Directory where quarantined files are stored
    pub quarantine_dir: String,
    /// Maximum size for files to quarantine (bytes)
    pub max_file_size: u64,
    /// Whether to compute content hash
    pub compute_hash: bool,
}

impl Default for QuarantineConfig {
    fn default() -> (c: Self)
        ensures
            c.quarantine_dir@ == "/var/lib/kestrel/quarantine"@,
            c.max_file_size == 100 * 1024 * 1024,
            c.compute_hash,
    {
        QuarantineConfig {
            quarantine_dir: "/var/lib/kestrel/quarantine".to_owned(),
            max_file_size: 100 * 1024 * 1024,
            compute_hash: true,
        }
    }
}

/// Quarantine executor - handles file isolation
#[derive(Debug, Clone)]
pub struct QuarantineExecutor {
    pub config: QuarantineConfig,
}

/// Capabilities of the quarantine executor.
pub open spec fn quarantine_caps() -> ActionCapabilities {
    ActionCapabilities {
        can_block: false,
        can_allow: false,
        can_kill: false,
        can_quarantine: true,
        alert_only: false,
    }
}

/// The file a quarantine decision names, with its process.
pub open spec fn quarantine_target_spec(t: ActionTarget) -> Option<(u32, Seq<char>)> {
    match t {
        ActionTarget::FileOp { pid, path } => Some((pid, path@)),
        ActionTarget::ProcessExec { pid, executable } => Some((pid, executable@)),
        _ => None,
    }
}

impl QuarantineExecutor {
    /// Create a new quarantine executor with default config
    pub fn new() -> (e: Self)
        ensures
            e.config.quarantine_dir@ == "/var/lib/kestrel/quarantine"@,
            e.config.max_file_size == 100 * 1024 * 1024,
            e.config.compute_hash,
    {
        QuarantineExecutor { config: QuarantineConfig::default() }
    }

    /// Create with custom configuration
    pub fn with_config(config: QuarantineConfig) -> (e: Self)
        ensures
            e.config == config,
    {
        QuarantineExecutor { config }
    }

    /// The process and file that a decision asks to quarantine: the file of a
    /// file operation, or the executable of a process execution; other
    /// targets cannot be quarantined.
    pub fn quarantine_target(decision: &ActionDecision) -> (r: Result<(u32, String), ActionError>)
        ensures
            r matches Ok((pid, path)) ==> quarantine_target_spec(decision.target) == Some(
                (pid, path@),
            ),
            r matches Err(e) ==> quarantine_target_spec(decision.target) is None && action_error_message(
                e,
            ) == "Invalid action: "@ + "Quarantine not supported for this target type"@,
    {
        match &decision.target {
            ActionTarget::FileOp { pid, path } => Ok((*pid, path.clone())),
            ActionTarget::ProcessExec { pid, executable } => Ok((*pid, executable.clone())),
            _ => Err(
                ActionError::InvalidAction(
                    "Quarantine not supported for this target type".to_owned(),
                ),
            ),
        }
    }

    /// The content hash of a file read as lines: the lower-case hexadecimal
    /// SHA-256 digest of the lines' bytes, one after the other, without the
    /// line ends.
    pub fn compute_file_hash(lines: &[String]) -> (r: String)
        ensures
            r@ == hex_bytes(sha256_digest(joined_bytes(lines@))),
    {
        let mut data: Vec<u8> = Vec::new();
        let mut i: usize = 0;
        while i < lines.len()
            invariant
                i <= lines@.len(),
                data@ == joined_bytes(lines@.take(i as int)),
            decreases lines@.len() - i,
        {
            let bytes = lines[i].as_str().as_bytes();
            let ghost before = data@;
            let mut j: usize = 0;
            while j < bytes.len()
                invariant
                    j <= bytes@.len(),
                    data@ == before + bytes@.take(j as int),
                decreases bytes@.len() - j,
            {
                data.push(bytes[j]);
                assert(bytes@.take(j + 1) =~= bytes@.take(j as int).push(bytes@[j as int]));
                j = j + 1;
            }
            assert(bytes@.take(bytes@.len() as int) =~= bytes@);
            assert(lines@.take(i + 1).drop_last() =~= lines@.take(i as int));
            assert(data@ =~= joined_bytes(lines@.take(i + 1)));
            i = i + 1;
        }
        assert(lines@.take(lines@.len() as int) =~= lines@);
        let digest = sha256(data.as_slice());
        let mut r = String::new();
        push_hex_bytes(&mut r, digest.as_slice());
        assert(r@ =~= hex_bytes(sha256_digest(joined_bytes(lines@))));
        r
    }

    /// Refuses a file larger than the configured maximum.
    pub fn check_file_size(&self, size: u64) -> (r: Result<(), ActionError>)
        ensures
            r is Ok <==> size <= self.config.max_file_size,
            r matches Err(e) ==> action_error_message(e) == "Quarantine error: "@ + (
            "File too large to quarantine: "@ + crate::decimal::decimal(size as nat) + " bytes"@),
    {
        if size > self.config.max_file_size {
            let mut m = "File too large to quarantine: ".to_owned();
            crate::decimal::push_decimal(&mut m, size as u128);
            m.append(" bytes");
            Err(ActionError::QuarantineError(m))
        } else {
            Ok(())
        }
    }

    /// Name of the quarantined copy of a file:
    /// `<file name>_<timestamp>_<pid>.<extension>`.
    pub fn quarantine_file_name(file_name: &str, timestamp_secs: u64, pid: u32, extension: &str) -> (r:
        String)
        ensures
            r@ == file_name@ + "_"@ + crate::decimal::decimal(timestamp_secs as nat) + "_"@
                + crate::decimal::decimal(pid as nat) + "."@ + extension@,
    {
        let mut s = file_name.to_owned();
        s.append("_");
        crate::decimal::push_decimal(&mut s, timestamp_secs as u128);
        s.append("_");
        crate::decimal::push_decimal(&mut s, pid as u128);
        s.append(".");
        s.append(extension);
        s
    }

    /// Capabilities of the quarantine executor.
    pub fn capabilities(&self) -> (c: ActionCapabilities)
        ensures
            c == quarantine_caps(),
    {
        ActionCapabilities {
            can_block: false,
            can_allow: false,
            can_kill: false,
            can_quarantine: true,
            alert_only: false,
        }
    }

    /// Quarantine runs in the background.
    pub fn policy(&self) -> (p: ActionPolicy)
        ensures
            p == ActionPolicy::Async,
    {
        ActionPolicy::Async
    }
}

/// Kill action executor - handles process termination
#[derive(Debug, Clone, Copy)]
pub struct KillActionExecutor {
    pub kill_signal: i32,
}

/// Capabilities of the kill executor.
pub open spec fn kill_caps() -> ActionCapabilities {
    ActionCapabilities {
        can_block: false,
        can_allow: false,
        can_kill: true,
        can_quarantine: false,
        alert_only: false,
    }
}

impl KillActionExecutor {
    /// Create a new kill action executor (SIGKILL).
    pub fn new() -> (e: Self)
        ensures
            e.kill_signal == 9,
    {
        KillActionExecutor { kill_signal: 9 }
    }

    /// Create with custom signal
    pub fn with_signal(signal: i32) -> (e: Self)
        ensures
            e.kill_signal == signal,
    {
        KillActionExecutor { kill_signal: signal }
    }

    /// Terminate a process (simulated: the operation is only recorded).
    pub fn terminate_process(&self, pid: u32) -> (r: Result<(), ActionError>)
        ensures
            r is Ok,
    {
        Ok(())
    }
}

impl ActionExecutor for KillActionExecutor {
    /// Killing succeeds and reports the decision's action as taken.
    open spec fn executes(&self, decision: ActionDecision, r: Result<ActionResult, ActionError>) -> bool {
        r matches Ok(res) && is_success_of(res, decision.id@, decision.action)
    }

    open spec fn capabilities_spec(&self) -> ActionCapabilities {
        kill_caps()
    }

    open spec fn policy_spec(&self) -> ActionPolicy {
        ActionPolicy::Inline
    }

    fn execute(&self, decision: &ActionDecision) -> (r: Result<ActionResult, ActionError>)
        ensures
            r matches Ok(res) && is_success_of(res, decision.id@, decision.action),
    {
        self.terminate_process(decision.target.pid())?;
        Ok(ActionResult::success(decision.id.clone(), decision.action))
    }

    fn capabilities(&self) -> (c: ActionCapabilities)
        ensures
            c == kill_caps(),
    {
        ActionCapabilities {
            can_block: false,
            can_allow: false,
            can_kill: true,
            can_quarantine: false,
            alert_only: false,
        }
    }

    fn policy(&self) -> (p: ActionPolicy)
        ensures
            p == ActionPolicy::Inline,
    {
        ActionPolicy::Inline
    }
}

/// Alert action executor - handles alert generation without enforcement
#[derive(Debug, Clone, Copy)]
pub struct AlertActionExecutor;

impl AlertActionExecutor {
    /// Create a new alert action executor
    pub fn new() -> (e: Self) {
        AlertActionExecutor
    }
}

impl ActionExecutor for AlertActionExecutor {
    /// Alerting succeeds and reports an alert as taken.
    open spec fn executes(&self, decision: ActionDecision, r: Result<ActionResult, ActionError>) -> bool {
        r matches Ok(res) && is_success_of(res, decision.id@, ActionType::Alert)
    }

    open spec fn capabilities_spec(&self) -> ActionCapabilities {
        alert_only_caps()
    }

    open spec fn policy_spec(&self) -> ActionPolicy {
        ActionPolicy::Async
    }

    fn execute(&self, decision: &ActionDecision) -> (r: Result<ActionResult, ActionError>)
        ensures
            r matches Ok(res) && is_success_of(res, decision.id@, ActionType::Alert),
    {
        Ok(ActionResult::success(decision.id.clone(), ActionType::Alert))
    }

    fn capabilities(&self) -> (c: ActionCapabilities)
        ensures
            c == alert_only_caps(),
    {
        ActionCapabilities::alert_only()
    }

    fn policy(&self) -> (p: ActionPolicy)
        ensures
            p == ActionPolicy::Async,
    {
        ActionPolicy::Async
    }
}

/// No-op executor for alert-only mode
#[derive(Debug, Clone, Copy, Default)]
pub struct NoOpExecutor;

impl ActionExecutor for NoOpExecutor {
    /// The no-op executor reports an alert as taken.
    open spec fn executes(&self, decision: ActionDecision, r: Result<ActionResult, ActionError>) -> bool {
        r matches Ok(res) && is_success_of(res, decision.id@, ActionType::Alert)
    }

    open spec fn capabilities_spec(&self) -> ActionCapabilities {
        alert_only_caps()
    }

    open spec fn policy_spec(&self) -> ActionPolicy {
        ActionPolicy::Async
    }

    fn execute(&self, decision: &ActionDecision) -> (r: Result<ActionResult, ActionError>)
        ensures
            r matches Ok(res) && is_success_of(res, decision.id@, ActionType::Alert),
    {
        let details = crate::json::json_object(
            vec![("mode".to_owned(), "no-op".to_owned()), ("policy".to_owned(), "alert-only".to_owned())],
            Vec::new(),
        );
        Ok(
            ActionResult {
                decision_id: decision.id.clone(),
                success: true,
                error: None,
                actual_action: Some(ActionType::Alert),
                timestamp_ns: crate::clock::wall_clock_ns(),
                details,
            },
        )
    }

    fn capabilities(&self) -> (c: ActionCapabilities)
        ensures
            c == alert_only_caps(),
    {
        ActionCapabilities::alert_only()
    }

    fn policy(&self) -> (p: ActionPolicy)
        ensures
            p == ActionPolicy::Async,
    {
        ActionPolicy::Async
    }
}

/// Audit record for action decisions
#[derive(Debug)]
pub struct ActionAudit {
    /// Unique audit ID
    pub id: String,
    /// Timestamp of the decision
    pub timestamp_ns: u64,
    /// Action type that was decided
    pub action_type: ActionType,
    /// Action policy used
    pub policy: ActionPolicy,
    /// Entity key associated with this action
    pub entity_key: u128,
    /// Rule ID that triggered this action
    pub rule_id: String,
    /// Human-readable decision reason
    pub decision: String,
    /// Execution result
    pub result: ActionResult,
    /// Target details
    pub target: ActionTarget,
}

impl Clone for ActionAudit {
    fn clone(&self) -> (r: Self)
        ensures
            r == *self,
    {
        ActionAudit {
            id: self.id.clone(),
            timestamp_ns: self.timestamp_ns,
            action_type: self.action_type,
            policy: self.policy,
            entity_key: self.entity_key,
            rule_id: self.rule_id.clone(),
            decision: self.decision.clone(),
            result: self.result.clone(),
            target: self.target.clone(),
        }
    }
}

impl ActionAudit {
    /// Create an audit record from an action decision and result
    pub fn from_decision(decision: &ActionDecision, entity_key: u128, result: ActionResult) -> (a: Self)
        ensures
            a.timestamp_ns == decision.timestamp_ns,
            a.action_type == decision.action,
            a.policy == decision.policy,
            a.entity_key == entity_key,
            a.rule_id == decision.rule_id,
            a.decision == decision.reason,
            a.result == result,
            a.target == decision.target,
            a.id@.len() == 36,
    {
        ActionAudit {
            id: new_uuid_string(),
            timestamp_ns: decision.timestamp_ns,
            action_type: decision.action,
            policy: decision.policy,
            entity_key,
            rule_id: decision.rule_id.clone(),
            decision: decision.reason.clone(),
            result,
            target: decision.target.clone(),
        }
    }
}

/// The records a log keeps after appending `a` to `records`: the newest at
/// most `max` ones... unless the log is already over its bound, in which case
/// only the oldest one leaves.
pub open spec fn log_append(records: Seq<ActionAudit>, a: ActionAudit, max: usize) -> Seq<ActionAudit> {
    let r = records.push(a);
    if r.len() > max {
        r.drop_first()
    } else {
        r
    }
}

/// Action audit log - stores the most recent action decisions
#[derive(Debug)]
pub struct ActionAuditLog {
    /// Stored audit records, oldest first
    pub records: Vec<ActionAudit>,
    /// Maximum number of records to keep
    pub max_records: usize,
    /// Number of audits ever logged
    pub total_audits: u64,
}

impl ActionAuditLog {
    /// Create a new action audit log
    pub fn new(max_records: usize) -> (l: Self)
        ensures
            l.records@.len() == 0,
            l.max_records == max_records,
            l.total_audits == 0,
    {
        ActionAuditLog { records: Vec::new(), max_records, total_audits: 0 }
    }

    /// Log an action decision; past the bound the oldest record is dropped.
    pub fn log(&mut self, audit: ActionAudit)
        ensures
            final(self).records@ == log_append(old(self).records@, audit, old(self).max_records),
            final(self).max_records == old(self).max_records,
            final(self).total_audits == old(self).total_audits.wrapping_add(1),
    {
        self.records.push(audit);
        if self.records.len() > self.max_records {
            self.records.remove(0);
        }
        self.total_audits = self.total_audits.wrapping_add(1);
    }

    /// Get all audit records, oldest first
    pub fn get_records(&self) -> (r: Vec<ActionAudit>)
        ensures
            r@ == self.records@,
    {
        let mut out: Vec<ActionAudit> = Vec::new();
        let mut i: usize = 0;
        while i < self.records.len()
            invariant
                i <= self.records@.len(),
                out@ == self.records@.take(i as int),
            decreases self.records@.len() - i,
        {
            out.push(self.records[i].clone());
            i = i + 1;
            assert(out@ =~= self.records@.take(i as int));
        }
        assert(self.records@.take(i as int) =~= self.records@);
        out
    }

    /// Get audit records for a specific entity, oldest first
    pub fn get_by_entity(&self, entity_key: u128) -> (r: Vec<ActionAudit>)
        ensures
            r@ == self.records@.filter(|a: ActionAudit| a.entity_key == entity_key),
    {
        let ghost pred = |a: ActionAudit| a.entity_key == entity_key;
        let mut out: Vec<ActionAudit> = Vec::new();
        let mut i: usize = 0;
        while i < self.records.len()
            invariant
                i <= self.records@.len(),
                pred == (|a: ActionAudit| a.entity_key == entity_key),
                out@ == self.records@.take(i as int).filter(pred),
            decreases self.records@.len() - i,
        {
            let ghost t = self.records@.take(i + 1);
            proof {
                assert(t.drop_last() =~= self.records@.take(i as int));
                assert(t.last() == self.records@[i as int]);
                reveal_with_fuel(Seq::<_>::filter, 1);
                assert(t.filter(pred) == t.drop_last().filter(pred) + (if pred(t.last()) {
                    seq![t.last()]
                } else {
                    Seq::<ActionAudit>::empty()
                }));
            }
            if self.records[i].entity_key == entity_key {
                out.push(self.records[i].clone());
            }
            assert(out@ =~= t.filter(pred));
            i = i + 1;
        }
        assert(self.records@.take(i as int) =~= self.records@);
        out
    }

    /// Get audit records for a specific rule, oldest first
    pub fn get_by_rule(&self, rule_id: &str) -> (r: Vec<ActionAudit>)
        ensures
            r@ == self.records@.filter(|a: ActionAudit| a.rule_id@ == rule_id@),
    {
        let ghost pred = |a: ActionAudit| a.rule_id@ == rule_id@;
        let key = rule_id.to_owned();
        let mut out: Vec<ActionAudit> = Vec::new();
        let mut i: usize = 0;
        while i < self.records.len()
            invariant
                i <= self.records@.len(),
                key@ == rule_id@,
                pred == (|a: ActionAudit| a.rule_id@ == rule_id@),
                out@ == self.records@.take(i as int).filter(pred),
            decreases self.records@.len() - i,
        {
            let ghost t = self.records@.take(i + 1);
            proof {
                assert(t.drop_last() =~= self.records@.take(i as int));
                assert(t.last() == self.records@[i as int]);
                reveal_with_fuel(Seq::<_>::filter, 1);
                assert(t.filter(pred) == t.drop_last().filter(pred) + (if pred(t.last()) {
                    seq![t.last()]
                } else {
                    Seq::<ActionAudit>::empty()
                }));
            }
            if self.records[i].rule_id == key {
                out.push(self.records[i].clone());
            }
            assert(out@ =~= t.filter(pred));
            i = i + 1;
        }
        assert(self.records@.take(i as int) =~= self.records@);
        out
    }

    /// Get total number of audits
    pub fn total_audits(&self) -> (n: u64)
        ensures
            n == self.total_audits,
    {
        self.total_audits
    }

    /// Clear all audit records
    pub fn clear(&mut self)
        ensures
            final(self).records@.len() == 0,
            final(self).max_records == old(self).max_records,
            final(self).total_audits == old(self).total_audits,
    {
        self.records.clear();
    }
}

/// A log kept within its bound stays within it, keeps the newest record last,
/// and drops a record only when it had to.
pub proof fn law_audit_log_bounded(records: Seq<ActionAudit>, a: ActionAudit, max: usize)
    requires
        records.len() <= max,
    ensures
        log_append(records, a, max).len() <= max || max == 0 && log_append(records, a, max).len() == 0,
        max > 0 ==> log_append(records, a, max).last() == a,
        records.len() < max ==> log_append(records, a, max) == records.push(a),
        records.len() == max && max > 0 ==> log_append(records, a, max) == records.drop_first().push(a),
{
    if records.len() == max && max > 0 {
        assert(records.push(a).drop_first() =~= records.drop_first().push(a));
    }
}

/// The log `after` is `before` with one audit appended that records `result`
/// for the process `pid`.
pub open spec fn logged(before: Option<ActionAuditLog>, after: Option<ActionAuditLog>, result: ActionResult, pid: u32) -> bool {
    &&& before matches Some(l)
    &&& after matches Some(m)
    &&& m.max_records == l.max_records
    &&& exists|a: ActionAudit|
        #![trigger log_append(l.records@, a, l.max_records)]
        a.result == result && a.entity_key == pid as u128 && m.records@ == log_append(l.records@, a, l.max_records)
}

/// What a composite executor does with a decision.
#[derive(Debug, Clone, Copy, PartialEq, Eq)]
pub enum CompositePlan {
    /// Offline on either side: report success without acting.
    Simulate,
    /// An async executor refuses inline decisions.
    RefuseInline,
    /// Hand the decision to the executor of this action.
    Route(ActionType),
}

/// The plan for a decision with policy `decided` in an executor with policy
/// `own`.
pub open spec fn composite_plan_spec(own: ActionPolicy, decided: ActionPolicy, action: ActionType) -> CompositePlan {
    if own == ActionPolicy::Offline || decided == ActionPolicy::Offline {
        CompositePlan::Simulate
    } else if own == ActionPolicy::Async && decided == ActionPolicy::Inline {
        CompositePlan::RefuseInline
    } else {
        CompositePlan::Route(action)
    }
}

/// Capabilities of a composite executor under each policy.
pub open spec fn composite_caps(p: ActionPolicy) -> ActionCapabilities {
    match p {
        ActionPolicy::Inline => enforce_caps(),
        ActionPolicy::Async => ActionCapabilities {
            can_block: false,
            can_allow: true,
            can_kill: false,
            can_quarantine: true,
            alert_only: false,
        },
        ActionPolicy::Offline => alert_only_caps(),
    }
}

/// Composite executor that routes actions to appropriate specialized executors
#[derive(Debug)]
pub struct CompositeActionExecutor {
    pub block_executor: BlockActionExecutor,
    pub quarantine_executor: QuarantineExecutor,
    pub kill_executor: KillActionExecutor,
    pub alert_executor: AlertActionExecutor,
    pub audit_log: Option<ActionAuditLog>,
    pub policy: ActionPolicy,
}

impl CompositeActionExecutor {
    /// Create a new composite executor with default configuration
    pub fn new(policy: ActionPolicy) -> (e: Self)
        ensures
            e.policy == policy,
            e.audit_log is None,
    {
        CompositeActionExecutor {
            block_executor: BlockActionExecutor::new(),
            quarantine_executor: QuarantineExecutor::new(),
            kill_executor: KillActionExecutor::new(),
            alert_executor: AlertActionExecutor::new(),
            audit_log: None,
            policy,
        }
    }

    /// Create with an audit log
    pub fn with_audit_log(policy: ActionPolicy, audit_log: ActionAuditLog) -> (e: Self)
        ensures
            e.policy == policy,
            e.audit_log == Some(audit_log),
    {
        CompositeActionExecutor {
            block_executor: BlockActionExecutor::new(),
            quarantine_executor: QuarantineExecutor::new(),
            kill_executor: KillActionExecutor::new(),
            alert_executor: AlertActionExecutor::new(),
            audit_log: Some(audit_log),
            policy,
        }
    }

    /// Get reference to audit log if available
    pub fn audit_log(&self) -> (r: Option<&ActionAuditLog>)
        ensures
            r == match self.audit_log {
                Some(l) => Some(&l),
                None => None::<&ActionAuditLog>,
            },
    {
        match &self.audit_log {
            Some(l) => Some(l),
            None => None,
        }
    }

    /// What this executor does with `decision` under the two policies.
    pub fn plan(&self, decision: &ActionDecision) -> (p: CompositePlan)
        ensures
            p == composite_plan_spec(self.policy, decision.policy, decision.action),
    {
        match (self.policy, decision.policy) {
            (ActionPolicy::Offline, _) | (_, ActionPolicy::Offline) => CompositePlan::Simulate,
            (ActionPolicy::Async, ActionPolicy::Inline) => CompositePlan::RefuseInline,
            _ => CompositePlan::Route(decision.action),
        }
    }

    /// Execute the actions that need no file-system work. Quarantine needs
    /// the file moved and is carried out by the caller: for it (and only for
    /// it) the result is `None`.
    pub fn execute_routed(&mut self, decision: &ActionDecision) -> (r: Option<Result<ActionResult, ActionError>>)
        ensures
            final(self).policy == old(self).policy,
            (r is None) <==> composite_plan_spec(old(self).policy, decision.policy, decision.action)
                == CompositePlan::Route(ActionType::Quarantine),
            r matches Some(res) ==> match composite_plan_spec(old(self).policy, decision.policy, decision.action) {
                CompositePlan::Simulate => res matches Ok(x) && is_success_of(x, decision.id@, decision.action),
                CompositePlan::RefuseInline => res matches Err(e) && action_error_message(e) == "Action not supported in current mode: "@ + "Inline action not supported in async mode"@,
                CompositePlan::Route(ActionType::Alert) => res matches Ok(x) && is_success_of(x, decision.id@, ActionType::Alert),
                CompositePlan::Route(a) => res matches Ok(x) && is_success_of(x, decision.id@, a),
            },
            r matches Some(Ok(x)) ==> (old(self).audit_log is Some && !(composite_plan_spec(
                old(self).policy,
                decision.policy,
                decision.action,
            ) is Simulate)) ==> logged(old(self).audit_log, final(self).audit_log, x, target_pid(decision.target)),
            r matches Some(Err(_)) ==> final(self).audit_log == old(self).audit_log,
            composite_plan_spec(old(self).policy, decision.policy, decision.action) is Simulate
                ==> *final(self) == *old(self),
            decision.action != ActionType::Quarantine ==> (r matches Some(res) && (res is Err <==> (
            old(self).policy == ActionPolicy::Async && decision.policy == ActionPolicy::Inline))),
            r matches Some(Err(e)) ==> e is NotSupported,
            r matches Some(Ok(x)) ==> is_success_of(x, decision.id@, decision.action),
            old(self).policy == ActionPolicy::Offline || decision.policy == ActionPolicy::Offline
                ==> *final(self) == *old(self),
    {
        let plan = self.plan(decision);
        let result = match plan {
            CompositePlan::Simulate => {
                return Some(Ok(ActionResult::success(decision.id.clone(), decision.action)));
            },
            CompositePlan::RefuseInline => {
                return Some(
                    Err(
                        ActionError::NotSupported(
                            "Inline action not supported in async mode".to_owned(),
                        ),
                    ),
                );
            },
            CompositePlan::Route(ActionType::Block) => self.block_executor.execute(decision),
            CompositePlan::Route(ActionType::Allow) => Ok(
                ActionResult::success(decision.id.clone(), ActionType::Allow),
            ),
            CompositePlan::Route(ActionType::Kill) => self.kill_executor.execute(decision),
            CompositePlan::Route(ActionType::Alert) => self.alert_executor.execute(decision),
            CompositePlan::Route(ActionType::Quarantine) => {
                return None;
            },
        };
        match result {
            Ok(res) => {
                self.record_audit(decision, &res);
                Some(Ok(res))
            },
            Err(e) => Some(Err(e)),
        }
    }

    /// Logs an executed decision in the audit log, if there is one, under the
    /// target's process id.
    pub fn record_audit(&mut self, decision: &ActionDecision, result: &ActionResult)
        ensures
            final(self).policy == old(self).policy,
            old(self).audit_log is None ==> final(self).audit_log is None,
            old(self).audit_log is Some ==> logged(old(self).audit_log, final(self).audit_log, *result, target_pid(decision.target)),
    {
        let policy = self.policy;
        if let Some(log) = &mut self.audit_log {
            let entity_key = decision.target.pid() as u128;
            let audit = ActionAudit::from_decision(decision, entity_key, result.clone());
            let ghost a = audit;
            log.log(audit);
            assert(log.records@ == log_append(old(self).audit_log.unwrap().records@, a, log.max_records));
        }
    }

    /// Capabilities under this executor's policy.
    pub fn capabilities(&self) -> (c: ActionCapabilities)
        ensures
            c == composite_caps(self.policy),
    {
        match self.policy {
            ActionPolicy::Inline => ActionCapabilities::enforce(),
            ActionPolicy::Async => ActionCapabilities {
                can_block: false,
                can_allow: true,
                can_kill: false,
                can_quarantine: true,
                alert_only: false,
            },
            ActionPolicy::Offline => ActionCapabilities::alert_only(),
        }
    }
}

} // verus!
