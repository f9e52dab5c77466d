//! Kernel-level enforcement through LSM hooks: which processes, paths and
//! network endpoints are blocked, how action decisions map onto blocking, and
//! which kernels support LSM programs.
use std::collections::HashMap;
use vstd::prelude::*;
use vstd::string::*;
use crate::action::{alert_only_caps, is_success_of, target_pid, ActionCapabilities, ActionDecision, ActionError, ActionPolicy, ActionResult, ActionTarget, ActionType};

verus! {

broadcast use vstd::std_specs::hash::group_hash_axioms;

/// LSM hook points.
#[derive(Debug, Clone, Copy, PartialEq, Eq)]
pub enum LsmHookType {
    BprmCheckSecurity,
    FileOpen,
    InodePermission,
    SocketConnect,
    MmapFile,
    InodeUnlink,
    Bpf,
    PerfEventOpen,
}

/// The kernel's number for each hook point.
pub open spec fn hook_number(h: LsmHookType) -> u32 {
    match h {
        LsmHookType::BprmCheckSecurity => 1,
        LsmHookType::FileOpen => 2,
        LsmHookType::InodePermission => 3,
        LsmHookType::SocketConnect => 4,
        LsmHookType::MmapFile => 5,
        LsmHookType::InodeUnlink => 7,
        LsmHookType::Bpf => 10,
        LsmHookType::PerfEventOpen => 11,
    }
}

impl LsmHookType {
    /// The kernel's number for this hook point.
    pub fn as_u32(&self) -> (r: u32)
        ensures
            r == hook_number(*self),
    {
        match self {
            LsmHookType::BprmCheckSecurity => 1,
            LsmHookType::FileOpen => 2,
            LsmHookType::InodePermission => 3,
            LsmHookType::SocketConnect => 4,
            LsmHookType::MmapFile => 5,
            LsmHookType::InodeUnlink => 7,
            LsmHookType::Bpf => 10,
            LsmHookType::PerfEventOpen => 11,
        }
    }
}

/// What a hook does with a matched operation.
#[derive(Debug, Clone, Copy, PartialEq, Eq)]
pub enum BlockingAction {
    Allow,
    Block,
    Kill,
}

/// The kernel's number for each blocking action.
pub open spec fn blocking_number(a: BlockingAction) -> u32 {
    match a {
        BlockingAction::Allow => 0,
        BlockingAction::Block => 1,
        BlockingAction::Kill => 2,
    }
}

impl BlockingAction {
    /// The kernel's number for this action.
    pub fn as_u32(&self) -> (r: u32)
        ensures
            r == blocking_number(*self),
    {
        match self {
            BlockingAction::Allow => 0,
            BlockingAction::Block => 1,
            BlockingAction::Kill => 2,
        }
    }
}

/// A blocking rule for one entity.
#[derive(Debug, Clone, Copy)]
pub struct BlockingRule {
    pub entity_key: u64,
    pub action: BlockingAction,
    pub ttl_ns: u64,
    pub timestamp_ns: u64,
    pub rule_id: u64,
}

/// An enforcement event reported by a hook.
#[derive(Debug, Clone)]
pub struct EnforcementEvent {
    pub ts_mono_ns: u64,
    pub pid: u32,
    pub hook_type: u32,
    pub action: u32,
    pub result: u32,
    pub entity_key: u64,
    pub details: String,
}

/// LSM errors
#[derive(Debug)]
pub enum LsmError {
    ProgramNotFound(String),
    ProgramLoadError(String),
    AttachmentError(String),
    MapError(String),
    LsmNotSupported,
    FallbackError(String),
    FanotifyError(String),
    PermissionDenied(String),
}

/// The message of each LSM error.
pub open spec fn lsm_error_message(e: LsmError) -> Seq<char> {
    match e {
        LsmError::ProgramNotFound(m) => "eBPF program not found: "@ + m@,
        LsmError::ProgramLoadError(m) => "eBPF program load error: "@ + m@,
        LsmError::AttachmentError(m) => "LSM attachment error: "@ + m@,
        LsmError::MapError(m) => "Map error: "@ + m@,
        LsmError::LsmNotSupported => "Kernel does not support eBPF LSM (requires 5.7+)"@,
        LsmError::FallbackError(m) => "Fallback mechanism error: "@ + m@,
        LsmError::FanotifyError(m) => "Fanotify error: "@ + m@,
        LsmError::PermissionDenied(m) => "Permission denied: "@ + m@,
    }
}

impl LsmError {
    /// The error's message.
    pub fn to_string(&self) -> (r: String)
        ensures
            r@ == lsm_error_message(*self),
    {
        let (prefix, m) = match self {
            LsmError::ProgramNotFound(m) => ("eBPF program not found: ", m.as_str()),
            LsmError::ProgramLoadError(m) => ("eBPF program load error: ", m.as_str()),
            LsmError::AttachmentError(m) => ("LSM attachment error: ", m.as_str()),
            LsmError::MapError(m) => ("Map error: ", m.as_str()),
            LsmError::LsmNotSupported => ("Kernel does not support eBPF LSM (requires 5.7+)", ""),
            LsmError::FallbackError(m) => ("Fallback mechanism error: ", m.as_str()),
            LsmError::FanotifyError(m) => ("Fanotify error: ", m.as_str()),
            LsmError::PermissionDenied(m) => ("Permission denied: ", m.as_str()),
        };
        let mut s = prefix.to_owned();
        s.append(m);
        proof {
            reveal_strlit("");
        }
        assert(s@ =~= lsm_error_message(*self));
        s
    }
}

/// Enforcement used where the kernel has no LSM programs.
#[derive(Debug, Clone, Copy, PartialEq, Eq)]
pub enum LsmFallback {
    /// No fallback.
    NoFallback,
    Fanotify,
    LegacyLsm,
}

/// Wraps the constant `libc::FAN_OPEN_PERM`, the fanotify event bit for a
/// permission check on open; the libc source gives it as `0x0001_0000`.
#[verifier::external_body]
fn fan_open_perm() -> (r: u64)
    ensures
        r == 0x0001_0000,
{
    libc::FAN_OPEN_PERM
}

/// Wraps the constant `libc::FAN_ACCESS_PERM`, the fanotify event bit for a
/// permission check on read access; the libc source gives it as `0x0002_0000`.
#[verifier::external_body]
fn fan_access_perm() -> (r: u64)
    ensures
        r == 0x0002_0000,
{
    libc::FAN_ACCESS_PERM
}

/// LSM configuration
#[derive(Debug)]
pub struct LsmConfig {
    pub fallback: LsmFallback,
    pub fanotify_fd: Option<i32>,
    pub fanotify_mask: u32,
    pub enable_all_hooks: bool,
}

impl Default for LsmConfig {
    fn default() -> (c: Self)
        ensures
            c.fallback == LsmFallback::NoFallback,
            c.fanotify_fd is None,
            c.fanotify_mask == 0x0003_0000,
            !c.enable_all_hooks,
    {
        let open = fan_open_perm();
        let access = fan_access_perm();
        let mask = open | access;
        assert(mask == 0x0003_0000) by (bit_vector)
            requires
                open == 0x0001_0000u64,
                access == 0x0002_0000u64,
                mask == open | access,
        ;
        LsmConfig { fallback: LsmFallback::NoFallback, fanotify_fd: None, fanotify_mask: mask as u32, enable_all_hooks: false }
    }
}

/// Which LSM programs are attached.
struct AttachedLsmPrograms {
    bprm_check_security: Option<()>,
    file_open: Option<()>,
    inode_permission: Option<()>,
    socket_connect: Option<()>,
    mmap_file: Option<()>,
    inode_unlink: Option<()>,
    bpf: Option<()>,
    perf_event_open: Option<()>,
}

impl AttachedLsmPrograms {
    /// Whether each program is attached.
    spec fn flags(&self) -> Seq<bool> {
        seq![
            self.bprm_check_security is Some,
            self.file_open is Some,
            self.inode_permission is Some,
            self.socket_connect is Some,
            self.mmap_file is Some,
            self.inode_unlink is Some,
            self.bpf is Some,
            self.perf_event_open is Some,
        ]
    }

    /// Nothing attached.
    fn new() -> (p: Self)
        ensures
            p.flags() == no_programs_attached(),
    {
        let p = AttachedLsmPrograms {
            bprm_check_security: None,
            file_open: None,
            inode_permission: None,
            socket_connect: None,
            mmap_file: None,
            inode_unlink: None,
            bpf: None,
            perf_event_open: None,
        };
        assert(p.flags() =~= no_programs_attached());
        p
    }

    /// Detach every program.
    fn detach_all(&mut self)
        ensures
            final(self).flags() == no_programs_attached(),
    {
        self.bprm_check_security = None;
        self.file_open = None;
        self.inode_permission = None;
        self.socket_connect = None;
        self.mmap_file = None;
        self.inode_unlink = None;
        self.bpf = None;
        self.perf_event_open = None;
        assert(self.flags() =~= no_programs_attached());
    }
}

/// None of the eight kernel programs attached.
pub open spec fn no_programs_attached() -> Seq<bool> {
    Seq::new(8, |i: int| false)
}

/// The blocking state of the LSM hooks.
pub struct LsmView {
    pub rules: Map<u64, BlockingRule>,
    pub pids: Map<u32, BlockingAction>,
    pub paths: Set<u64>,
    pub networks: Set<u64>,
    pub active: bool,
    /// For each hook of `LsmHookType`, in the order of its variants, whether
    /// its kernel program is attached.
    pub attached_programs: Seq<bool>,
    /// Whether shutdown was requested.
    pub shutdown: bool,
}

/// The 31-based polynomial hash of a byte string, wrapping at 64 bits.
pub open spec fn bytes_hash(bytes: Seq<u8>) -> u64
    decreases bytes.len(),
{
    if bytes.len() == 0 {
        0
    } else {
        bytes_hash(bytes.drop_last()).wrapping_mul(31).wrapping_add(bytes.last() as u64)
    }
}

/// The hash of a path: the polynomial hash of its UTF-8 bytes.
pub open spec fn path_hash(path: &str) -> u64 {
    bytes_hash(path.spec_bytes())
}

/// The hash of a network endpoint: the address's hash shifted up 16 bits,
/// with the port in the low bits.
pub open spec fn network_hash(addr: &str, port: u16) -> u64 {
    bytes_hash(addr.spec_bytes()).wrapping_mul(0x1_0000) ^ (port as u64)
}

/// The 31-based polynomial hash of `bytes`, wrapping at 64 bits.
fn hash_bytes(bytes: &[u8]) -> (h: u64)
    ensures
        h == bytes_hash(bytes@),
{
    let mut hash: u64 = 0;
    let mut i: usize = 0;
    while i < bytes.len()
        invariant
            i <= bytes@.len(),
            hash == bytes_hash(bytes@.take(i as int)),
        decreases bytes@.len() - i,
    {
        assert(bytes@.take(i + 1).drop_last() =~= bytes@.take(i as int));
        hash = hash.wrapping_mul(31).wrapping_add(bytes[i] as u64);
        i = i + 1;
    }
    assert(bytes@.take(bytes@.len() as int) =~= bytes@);
    hash
}

/// LSM hooks: the blocked processes, paths and network endpoints, and the
/// blocking rules, that the kernel programs consult.
pub struct LsmHooks {
    attached: AttachedLsmPrograms,
    config: LsmConfig,
    blocking_rules: HashMap<u64, BlockingRule>,
    blocked_pids: HashMap<u32, BlockingAction>,
    blocked_paths: HashMap<u64, ()>,
    blocked_networks: HashMap<u64, ()>,
    shutdown: bool,
    active: bool,
}

impl View for LsmHooks {
    type V = LsmView;

    closed spec fn view(&self) -> LsmView {
        LsmView {
            rules: self.blocking_rules@,
            pids: self.blocked_pids@,
            paths: self.blocked_paths@.dom(),
            networks: self.blocked_networks@.dom(),
            active: self.active,
            attached_programs: self.attached.flags(),
            shutdown: self.shutdown,
        }
    }
}

impl LsmHooks {
    /// Hooks with nothing blocked, not yet attached.
    pub fn new(config: LsmConfig) -> (h: Self)
        ensures
            h@.rules == Map::<u64, BlockingRule>::empty(),
            h@.pids == Map::<u32, BlockingAction>::empty(),
            h@.paths == Set::<u64>::empty(),
            h@.networks == Set::<u64>::empty(),
            !h@.active,
            h@.attached_programs == no_programs_attached(),
            !h@.shutdown,
            h.config_spec() == config,
    {
        let h = LsmHooks {
            attached: AttachedLsmPrograms::new(),
            config,
            blocking_rules: HashMap::new(),
            blocked_pids: HashMap::new(),
            blocked_paths: HashMap::new(),
            blocked_networks: HashMap::new(),
            shutdown: false,
            active: false,
        };
        assert(h@.paths =~= Set::<u64>::empty());
        assert(h@.networks =~= Set::<u64>::empty());
        h
    }

    /// The configuration the hooks were made with.
    pub closed spec fn config_spec(&self) -> LsmConfig {
        self.config
    }

    /// The configuration the hooks were made with.
    pub fn config(&self) -> (c: &LsmConfig)
        ensures
            *c == self.config_spec(),
    {
        &self.config
    }

    /// Whether the hooks are attached.
    pub fn is_active(&self) -> (r: bool)
        ensures
            r == self@.active,
    {
        self.active
    }

    /// Attach the hooks.
    pub fn attach(&mut self) -> (r: Result<(), LsmError>)
        ensures
            r is Ok,
            final(self)@ == (LsmView { active: true, ..old(self)@ }),
    {
        self.active = true;
        Ok(())
    }

    /// Detach the hooks, if attached: every kernel program is then detached.
    pub fn detach(&mut self)
        ensures
            final(self)@ == (LsmView {
                active: false,
                attached_programs: if old(self)@.active {
                    no_programs_attached()
                } else {
                    old(self)@.attached_programs
                },
                ..old(self)@
            }),
    {
        if !self.active {
            return;
        }
        self.attached.detach_all();
        self.active = false;
    }

    /// Add a blocking rule for its entity, replacing any earlier one.
    pub fn add_blocking_rule(&mut self, rule: BlockingRule) -> (r: Result<(), LsmError>)
        ensures
            r is Ok,
            final(self)@ == (LsmView { rules: old(self)@.rules.insert(rule.entity_key, rule), ..old(self)@ }),
    {
        self.blocking_rules.insert(rule.entity_key, rule);
        Ok(())
    }

    /// Remove the blocking rule for an entity, if any.
    pub fn remove_blocking_rule(&mut self, entity_key: u64) -> (r: Result<(), LsmError>)
        ensures
            r is Ok,
            final(self)@ == (LsmView { rules: old(self)@.rules.remove(entity_key), ..old(self)@ }),
    {
        self.blocking_rules.remove(&entity_key);
        Ok(())
    }

    /// Block a process.
    pub fn block_pid(&mut self, pid: u32) -> (r: Result<(), LsmError>)
        ensures
            r is Ok,
            final(self)@ == (LsmView { pids: old(self)@.pids.insert(pid, BlockingAction::Block), ..old(self)@ }),
    {
        self.blocked_pids.insert(pid, BlockingAction::Block);
        Ok(())
    }

    /// Stop blocking a process.
    pub fn unblock_pid(&mut self, pid: u32) -> (r: Result<(), LsmError>)
        ensures
            r is Ok,
            final(self)@ == (LsmView { pids: old(self)@.pids.remove(pid), ..old(self)@ }),
    {
        self.blocked_pids.remove(&pid);
        Ok(())
    }

    /// Mark a process to be killed.
    pub fn kill_process(&mut self, pid: u32) -> (r: Result<(), LsmError>)
        ensures
            r is Ok,
            final(self)@ == (LsmView { pids: old(self)@.pids.insert(pid, BlockingAction::Kill), ..old(self)@ }),
    {
        self.blocked_pids.insert(pid, BlockingAction::Kill);
        Ok(())
    }

    /// Whether a process is blocked or marked to be killed.
    pub fn is_pid_blocked(&self, pid: u32) -> (r: bool)
        ensures
            r == self@.pids.contains_key(pid),
    {
        self.blocked_pids.contains_key(&pid)
    }

    /// The hash under which a path is blocked.
    pub fn hash_path(&self, path: &str) -> (h: u64)
        ensures
            h == path_hash(path),
    {
        hash_bytes(path.as_bytes())
    }

    /// The hash under which a network endpoint is blocked.
    pub fn hash_network_addr(&self, addr: &str, port: u16) -> (h: u64)
        ensures
            h == network_hash(addr, port),
    {
        let hash = hash_bytes(addr.as_bytes());
        hash.wrapping_mul(0x1_0000) ^ (port as u64)
    }

    /// Block a path; its hash is returned.
    pub fn block_path(&mut self, path: &str) -> (r: Result<u64, LsmError>)
        ensures
            r == Ok::<u64, LsmError>(path_hash(path)),
            final(self)@ == (LsmView { paths: old(self)@.paths.insert(path_hash(path)), ..old(self)@ }),
    {
        let h = self.hash_path(path);
        self.blocked_paths.insert(h, ());
        assert(self@.paths =~= old(self)@.paths.insert(h));
        Ok(h)
    }

    /// Stop blocking the path with the given hash.
    pub fn unblock_path(&mut self, path_hash: u64) -> (r: Result<(), LsmError>)
        ensures
            r is Ok,
            final(self)@ == (LsmView { paths: old(self)@.paths.remove(path_hash), ..old(self)@ }),
    {
        self.blocked_paths.remove(&path_hash);
        assert(self@.paths =~= old(self)@.paths.remove(path_hash));
        Ok(())
    }

    /// Whether the path with the given hash is blocked.
    pub fn is_path_blocked(&self, path_hash: u64) -> (r: bool)
        ensures
            r == self@.paths.contains(path_hash),
    {
        self.blocked_paths.contains_key(&path_hash)
    }

    /// Block a network endpoint; its hash is returned.
    pub fn block_network(&mut self, addr: &str, port: u16) -> (r: Result<u64, LsmError>)
        ensures
            r == Ok::<u64, LsmError>(network_hash(addr, port)),
            final(self)@ == (LsmView { networks: old(self)@.networks.insert(network_hash(addr, port)), ..old(self)@ }),
    {
        let h = self.hash_network_addr(addr, port);
        self.blocked_networks.insert(h, ());
        assert(self@.networks =~= old(self)@.networks.insert(h));
        Ok(h)
    }

    /// Stop blocking the network endpoint with the given hash.
    pub fn unblock_network(&mut self, addr_hash: u64) -> (r: Result<(), LsmError>)
        ensures
            r is Ok,
            final(self)@ == (LsmView { networks: old(self)@.networks.remove(addr_hash), ..old(self)@ }),
    {
        self.blocked_networks.remove(&addr_hash);
        assert(self@.networks =~= old(self)@.networks.remove(addr_hash));
        Ok(())
    }

    /// Whether the network endpoint with the given hash is blocked.
    pub fn is_network_blocked(&self, addr_hash: u64) -> (r: bool)
        ensures
            r == self@.networks.contains(addr_hash),
    {
        self.blocked_networks.contains_key(&addr_hash)
    }
}

/// Blocking something and then unblocking it leaves it unblocked, and
/// blocking it makes it blocked: for processes, paths and network endpoints.
pub proof fn law_block_then_unblock(v: LsmView, pid: u32, h: u64)
    ensures
        v.pids.insert(pid, BlockingAction::Block).contains_key(pid),
        !v.pids.insert(pid, BlockingAction::Block).remove(pid).contains_key(pid),
        v.paths.insert(h).contains(h),
        !v.paths.insert(h).remove(h).contains(h),
        v.networks.insert(h).contains(h),
        !v.networks.insert(h).remove(h).contains(h),
{
}

/// The blocking action an action decision maps to; quarantine is enforced
/// as a block and alerts as allow.
pub open spec fn blocking_for(a: ActionType) -> BlockingAction {
    match a {
        ActionType::Block => BlockingAction::Block,
        ActionType::Kill => BlockingAction::Kill,
        ActionType::Allow => BlockingAction::Allow,
        ActionType::Alert => BlockingAction::Allow,
        ActionType::Quarantine => BlockingAction::Block,
    }
}

/// The blocked processes after enforcing `action` on `pid`.
pub open spec fn pids_after(pids: Map<u32, BlockingAction>, pid: u32, action: ActionType) -> Map<u32, BlockingAction> {
    match blocking_for(action) {
        BlockingAction::Block => pids.insert(pid, BlockingAction::Block),
        BlockingAction::Kill => pids.insert(pid, BlockingAction::Kill),
        BlockingAction::Allow => pids.remove(pid),
    }
}

/// What an LSM executor can do under each policy.
pub open spec fn lsm_caps(p: ActionPolicy) -> ActionCapabilities {
    match p {
        ActionPolicy::Inline => ActionCapabilities {
            can_block: true,
            can_allow: true,
            can_kill: true,
            can_quarantine: false,
            alert_only: false,
        },
        ActionPolicy::Async => ActionCapabilities {
            can_block: false,
            can_allow: true,
            can_kill: false,
            can_quarantine: false,
            alert_only: false,
        },
        ActionPolicy::Offline => alert_only_caps(),
    }
}

/// Action executor that enforces decisions through the LSM hooks.
pub struct LsmExecutor {
    lsm_hooks: LsmHooks,
    policy: ActionPolicy,
}

impl LsmExecutor {
    /// An executor over the given hooks.
    pub fn new(lsm_hooks: LsmHooks, policy: ActionPolicy) -> (e: Self)
        ensures
            e.hooks()@ == lsm_hooks@,
            e.policy_spec() == policy,
    {
        LsmExecutor { lsm_hooks, policy }
    }

    /// The hooks decisions are enforced through.
    pub closed spec fn hooks(&self) -> LsmHooks {
        self.lsm_hooks
    }

    /// The policy the executor operates in.
    pub closed spec fn policy_spec(&self) -> ActionPolicy {
        self.policy
    }

    /// The hooks decisions are enforced through.
    pub fn lsm_hooks(&self) -> (h: &LsmHooks)
        ensures
            *h == self.hooks(),
    {
        &self.lsm_hooks
    }

    /// The process a target belongs to.
    pub fn extract_pid(target: &ActionTarget) -> (pid: u32)
        ensures
            pid == target_pid(*target),
    {
        match target {
            ActionTarget::ProcessExec { pid, .. } => *pid,
            ActionTarget::FileOp { pid, .. } => *pid,
            ActionTarget::NetworkOp { pid, .. } => *pid,
            ActionTarget::MemoryOp { pid } => *pid,
        }
    }

    /// The blocking action an action decision maps to.
    pub fn convert_action(action: ActionType) -> (r: Result<BlockingAction, ActionError>)
        ensures
            r == Ok::<BlockingAction, ActionError>(blocking_for(action)),
    {
        match action {
            ActionType::Block => Ok(BlockingAction::Block),
            ActionType::Kill => Ok(BlockingAction::Kill),
            ActionType::Allow => Ok(BlockingAction::Allow),
            ActionType::Alert => Ok(BlockingAction::Allow),
            ActionType::Quarantine => Ok(BlockingAction::Block),
        }
    }

    /// Enforce a decision: in offline mode nothing is enforced; otherwise
    /// the decision's process is blocked, marked to be killed, or unblocked.
    /// The decision's action is reported as taken.
    pub fn execute(&mut self, decision: &ActionDecision) -> (r: Result<ActionResult, ActionError>)
        ensures
            r matches Ok(res) && is_success_of(res, decision.id@, decision.action),
            final(self).policy_spec() == old(self).policy_spec(),
            final(self).hooks()@ == (if old(self).policy_spec() is Offline {
                old(self).hooks()@
            } else {
                LsmView {
                    pids: pids_after(old(self).hooks()@.pids, target_pid(decision.target), decision.action),
                    ..old(self).hooks()@
                }
            }),
    {
        if let ActionPolicy::Offline = self.policy {
            return Ok(
                ActionResult {
                    decision_id: decision.id.clone(),
                    success: true,
                    error: None,
                    actual_action: Some(decision.action),
                    timestamp_ns: crate::clock::wall_clock_ns(),
                    details: crate::json::json_object(vec![("mode".to_owned(), "offline".to_owned())], Vec::new()),
                },
            );
        }
        let pid = Self::extract_pid(&decision.target);
        let blocking_action = match Self::convert_action(decision.action) {
            Ok(a) => a,
            Err(e) => {
                return Err(e);
            },
        };
        match blocking_action {
            BlockingAction::Block => {
                let _ = self.lsm_hooks.block_pid(pid);
            },
            BlockingAction::Kill => {
                let _ = self.lsm_hooks.kill_process(pid);
            },
            BlockingAction::Allow => {
                let _ = self.lsm_hooks.unblock_pid(pid);
            },
        }
        Ok(
            ActionResult {
                decision_id: decision.id.clone(),
                success: true,
                error: None,
                actual_action: Some(decision.action),
                timestamp_ns: crate::clock::wall_clock_ns(),
                details: crate::json::json_object(
                    vec![("mode".to_owned(), "lsm".to_owned())],
                    vec![("pid".to_owned(), pid as u64)],
                ),
            },
        )
    }

    /// What the executor can do under its policy.
    pub fn capabilities(&self) -> (c: ActionCapabilities)
        ensures
            c == lsm_caps(self.policy_spec()),
    {
        match self.policy {
            ActionPolicy::Inline => ActionCapabilities {
                can_block: true,
                can_allow: true,
                can_kill: true,
                can_quarantine: false,
                alert_only: false,
            },
            ActionPolicy::Async => ActionCapabilities {
                can_block: false,
                can_allow: true,
                can_kill: false,
                can_quarantine: false,
                alert_only: false,
            },
            ActionPolicy::Offline => ActionCapabilities::alert_only(),
        }
    }

    /// The policy the executor operates in.
    pub fn policy(&self) -> (p: ActionPolicy)
        ensures
            p == self.policy_spec(),
    {
        self.policy
    }
}

/// Whether a byte is an ASCII decimal digit.
pub open spec fn is_digit(b: u8) -> bool {
    48 <= b <= 57
}

/// The value of a string of decimal digits.
pub open spec fn digits_value(s: Seq<u8>) -> nat
    decreases s.len(),
{
    if s.len() == 0 {
        0
    } else {
        digits_value(s.drop_last()) * 10 + (s.last() - 48) as nat
    }
}

/// A byte string without its leading `+`, if it has one.
pub open spec fn strip_plus(s: Seq<u8>) -> Seq<u8> {
    if s.len() > 0 && s[0] == 43 {
        s.drop_first()
    } else {
        s
    }
}

/// Whether every byte is an ASCII decimal digit.
pub open spec fn all_digits(s: Seq<u8>) -> bool {
    forall|i: int| 0 <= i < s.len() ==> is_digit(#[trigger] s[i])
}

/// An unsigned 32-bit number written in decimal, as `u32::from_str` reads
/// it: an optional `+`, then one or more digits, with a value that fits.
pub open spec fn parse_u32_spec(s: Seq<u8>) -> Option<u32> {
    let d = strip_plus(s);
    if d.len() == 0 || !all_digits(d) {
        None
    } else if digits_value(d) > u32::MAX {
        None
    } else {
        Some(digits_value(d) as u32)
    }
}

/// The position of the first `.` at or after `from`, or the end.
pub open spec fn dot_from(s: Seq<u8>, from: int) -> int
    decreases s.len() - from,
{
    if from >= s.len() {
        s.len() as int
    } else if s[from] == 46 {
        from
    } else {
        dot_from(s, from + 1)
    }
}

/// Whether a kernel release string, such as `5.15.0-91-generic`, names a
/// kernel with LSM program support (5.7 or later): not when it has no `.`;
/// an error when its first two fields are not numbers.
pub open spec fn kernel_release_support(s: Seq<u8>) -> Result<bool, ()> {
    let d1 = dot_from(s, 0);
    if d1 >= s.len() {
        Ok(false)
    } else {
        let d2 = dot_from(s, d1 + 1);
        match (parse_u32_spec(s.subrange(0, d1)), parse_u32_spec(s.subrange(d1 + 1, d2))) {
            (Some(major), Some(minor)) => Ok(major > 5 || (major == 5 && minor >= 7)),
            _ => Err(()),
        }
    }
}

/// The first `.` at or after `from`, or the end.
fn find_dot(s: &[u8], from: usize) -> (r: usize)
    requires
        from <= s@.len(),
    ensures
        r == dot_from(s@, from as int),
        from <= r <= s@.len(),
    decreases s@.len() - from,
{
    if from >= s.len() {
        s.len()
    } else if s[from] == 46 {
        from
    } else {
        find_dot(s, from + 1)
    }
}

/// Digit values only grow as digits are appended.
proof fn lemma_digits_value_grows(s: Seq<u8>, n: int)
    requires
        0 <= n <= s.len(),
        forall|i: int| 0 <= i < s.len() ==> is_digit(#[trigger] s[i]),
    ensures
        digits_value(s.take(n)) <= digits_value(s),
    decreases s.len() - n,
{
    if n < s.len() {
        lemma_digits_value_grows(s, n + 1);
        assert(s.take(n + 1).drop_last() =~= s.take(n));
    } else {
        assert(s.take(n) =~= s);
    }
}

/// Read the unsigned 32-bit decimal number in `s[start..end]`, as
/// `u32::from_str` does.
fn parse_u32_field(s: &[u8], start: usize, end: usize) -> (r: Option<u32>)
    requires
        start <= end <= s@.len(),
    ensures
        r == parse_u32_spec(s@.subrange(start as int, end as int)),
{
    let ghost f = s@.subrange(start as int, end as int);
    let mut i = start;
    if i < end && s[i] == 43 {
        i = i + 1;
    }
    let ghost d = s@.subrange(i as int, end as int);
    assert(d == strip_plus(f));
    if i == end {
        return None;
    }
    let begin = i;
    let mut value: u64 = 0;
    while i < end
        invariant
            start <= begin <= i <= end <= s@.len(),
            begin < end,
            d == s@.subrange(begin as int, end as int),
            f == s@.subrange(start as int, end as int),
            d == strip_plus(f),
            forall|j: int| 0 <= j < i - begin ==> is_digit(#[trigger] d[j]),
            value == (if digits_value(d.take(i - begin)) > u32::MAX { u32::MAX + 1 } else { digits_value(d.take(i - begin)) as int }),
        decreases end - i,
    {
        let b = s[i];
        if b < 48 || b > 57 {
            assert(d[i - begin] == b);
            assert(!is_digit(d[i - begin]));
            assert(!all_digits(d));
            return None;
        }
        let ghost p = d.take(i - begin);
        let ghost q = d.take(i - begin + 1);
        assert(q.drop_last() =~= p);
        assert(q.last() == b);
        let digit = (b - 48) as u64;
        assert(digits_value(q) == digits_value(p) * 10 + digit);
        let next = value * 10 + digit;
        if next > 4_294_967_296 {
            value = 4_294_967_296;
        } else {
            value = next;
        }
        i = i + 1;
    }
    assert(d.take(d.len() as int) =~= d);
    if value > 4_294_967_295 {
        None
    } else {
        Some(value as u32)
    }
}

/// Whether a kernel release string, such as `5.15.0-91-generic`, names a
/// kernel with LSM program support (5.7 or later). A release with no `.`
/// is not supported; one whose first two fields are not numbers is an
/// error.
pub fn kernel_supports_lsm(release: &str) -> (r: Result<bool, LsmError>)
    ensures
        match kernel_release_support(release.spec_bytes()) {
            Ok(b) => r == Ok::<bool, LsmError>(b),
            Err(()) => r matches Err(LsmError::LsmNotSupported),
        },
{
    let s = release.as_bytes();
    let d1 = find_dot(s, 0);
    if d1 >= s.len() {
        return Ok(false);
    }
    let d2 = find_dot(s, d1 + 1);
    let major = match parse_u32_field(s, 0, d1) {
        Some(v) => v,
        None => {
            return Err(LsmError::LsmNotSupported);
        },
    };
    let minor = match parse_u32_field(s, d1 + 1, d2) {
        Some(v) => v,
        None => {
            return Err(LsmError::LsmNotSupported);
        },
    };
    Ok(major > 5 || (major == 5 && minor >= 7))
}

/// For a release whose first two dot-separated fields read as numbers
/// `major` and `minor`, LSM programs are supported exactly from 5.7 on:
/// every major version above 5, no major version below it, and within 5
/// the minor versions from 7.
pub proof fn law_support_from_five_seven(s: Seq<u8>, major: u32, minor: u32)
    requires
        dot_from(s, 0) < s.len(),
        parse_u32_spec(s.subrange(0, dot_from(s, 0))) == Some(major),
        parse_u32_spec(s.subrange(dot_from(s, 0) + 1, dot_from(s, dot_from(s, 0) + 1))) == Some(minor),
    ensures
        kernel_release_support(s) is Ok,
        major > 5 ==> kernel_release_support(s) == Ok::<bool, ()>(true),
        major < 5 ==> kernel_release_support(s) == Ok::<bool, ()>(false),
        major == 5 ==> kernel_release_support(s) == Ok::<bool, ()>(minor >= 7),
{
}

} // verus!
