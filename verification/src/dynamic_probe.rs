//! Dynamic kernel probes: their identities, kinds, targets and errors.
use vstd::prelude::*;
use vstd::string::*;
use crate::table::{find_key, keys_distinct, lemma_key_pos_unique, lemma_table_push, lemma_table_remove, lemma_table_update, table_map};

verus! {

/// Unique identifier for a probe
#[derive(Debug, PartialEq, Eq, Hash)]
pub struct ProbeId(pub String);

impl Clone for ProbeId {
    fn clone(&self) -> (r: Self)
        ensures
            r == *self,
    {
        ProbeId(self.0.clone())
    }
}

/// Kinds of kernel probes.
#[derive(Debug, Clone, Copy, PartialEq, Eq, Hash)]
pub enum ProbeType {
    Kprobe,
    Kretprobe,
    Tracepoint,
    Lsm,
    Uprobe,
    Uretprobe,
}

/// What a probe attaches to.
#[derive(Debug)]
pub enum ProbeTarget {
    Kprobe { function: String },
    Tracepoint { category: String, name: String },
    Lsm { hook: String },
    Uprobe { binary: String, function: String },
}

impl Clone for ProbeTarget {
    fn clone(&self) -> (r: Self)
        ensures
            r == *self,
    {
        match self {
            ProbeTarget::Kprobe { function } => ProbeTarget::Kprobe { function: function.clone() },
            ProbeTarget::Tracepoint { category, name } => ProbeTarget::Tracepoint {
                category: category.clone(),
                name: name.clone(),
            },
            ProbeTarget::Lsm { hook } => ProbeTarget::Lsm { hook: hook.clone() },
            ProbeTarget::Uprobe { binary, function } => ProbeTarget::Uprobe {
                binary: binary.clone(),
                function: function.clone(),
            },
        }
    }
}

/// An attached probe.
#[derive(Debug)]
pub struct ProbeMetadata {
    pub id: ProbeId,
    pub probe_type: ProbeType,
    pub target: ProbeTarget,
    pub attached_at: std::time::SystemTime,
}

impl Clone for ProbeMetadata {
    fn clone(&self) -> (r: Self)
        ensures
            r == *self,
    {
        ProbeMetadata {
            id: self.id.clone(),
            probe_type: self.probe_type,
            target: self.target.clone(),
            attached_at: self.attached_at.clone(),
        }
    }
}

/// Probe errors
#[derive(Debug)]
pub enum ProbeError {
    ProgramNotFound(String),
    AttachFailed(String),
    DetachFailed(String),
    VerificationFailed(String),
    Conflict(String),
}

/// The message of each probe error.
pub open spec fn probe_error_message(e: ProbeError) -> Seq<char> {
    match e {
        ProbeError::ProgramNotFound(m) => "Program not found: "@ + m@,
        ProbeError::AttachFailed(m) => "Attach failed: "@ + m@,
        ProbeError::DetachFailed(m) => "Detach failed: "@ + m@,
        ProbeError::VerificationFailed(m) => "Verification failed: "@ + m@,
        ProbeError::Conflict(m) => "Conflict with existing probe: "@ + m@,
    }
}

impl ProbeError {
    /// The error's message.
    pub fn to_string(&self) -> (r: String)
        ensures
            r@ == probe_error_message(*self),
    {
        let (prefix, m) = match self {
            ProbeError::ProgramNotFound(m) => ("Program not found: ", m),
            ProbeError::AttachFailed(m) => ("Attach failed: ", m),
            ProbeError::DetachFailed(m) => ("Detach failed: ", m),
            ProbeError::VerificationFailed(m) => ("Verification failed: ", m),
            ProbeError::Conflict(m) => ("Conflict with existing probe: ", m),
        };
        let mut s = prefix.to_owned();
        s.append(m.as_str());
        s
    }
}

/// How a probe gets attached, once its program is loaded.
#[derive(Debug, Clone)]
pub enum AttachStep {
    /// Attach the kprobe to a kernel function.
    Kprobe { function: String },
    /// Attach the tracepoint to a category and event.
    Tracepoint { category: String, name: String },
    /// Load the LSM program for a hook, which attaches it.
    Lsm { hook: String },
    /// The target does not suit the probe kind: nothing is attached.
    Skip,
}

/// The attach step for a probe kind and target, or the refusal of a kind
/// that cannot be attached here.
pub open spec fn attach_step_spec(probe_type: ProbeType, target: ProbeTarget) -> Option<AttachStep> {
    match probe_type {
        ProbeType::Kprobe => Some(
            match target {
                ProbeTarget::Kprobe { function } => AttachStep::Kprobe { function },
                _ => AttachStep::Skip,
            },
        ),
        ProbeType::Tracepoint => Some(
            match target {
                ProbeTarget::Tracepoint { category, name } => AttachStep::Tracepoint { category, name },
                _ => AttachStep::Skip,
            },
        ),
        ProbeType::Lsm => Some(
            match target {
                ProbeTarget::Lsm { hook } => AttachStep::Lsm { hook },
                _ => AttachStep::Skip,
            },
        ),
        _ => None,
    }
}

/// Decide how to attach a probe: kprobes, tracepoints and LSM programs are
/// attached to a target of their own kind (a target of another kind is
/// skipped); any other kind is refused.
pub fn attach_step(probe_type: ProbeType, target: &ProbeTarget) -> (r: Result<AttachStep, ProbeError>)
    ensures
        match attach_step_spec(probe_type, *target) {
            Some(step) => r matches Ok(s) && s == step,
            None => r matches Err(ProbeError::AttachFailed(m)) && m@ == "Unsupported probe type"@,
        },
{
    match probe_type {
        ProbeType::Kprobe => Ok(
            match target {
                ProbeTarget::Kprobe { function } => AttachStep::Kprobe { function: function.clone() },
                _ => AttachStep::Skip,
            },
        ),
        ProbeType::Tracepoint => Ok(
            match target {
                ProbeTarget::Tracepoint { category, name } => AttachStep::Tracepoint {
                    category: category.clone(),
                    name: name.clone(),
                },
                _ => AttachStep::Skip,
            },
        ),
        ProbeType::Lsm => Ok(
            match target {
                ProbeTarget::Lsm { hook } => AttachStep::Lsm { hook: hook.clone() },
                _ => AttachStep::Skip,
            },
        ),
        _ => Err(ProbeError::AttachFailed("Unsupported probe type".to_owned())),
    }
}

/// Attaches and detaches probes at runtime; implemented over the loaded
/// kernel programs.
pub trait DynamicProbeManager {
    /// Attach the program `id` as a probe of the given type on `target`.
    fn attach(&mut self, id: ProbeId, probe_type: ProbeType, target: ProbeTarget) -> Result<
        ProbeMetadata,
        ProbeError,
    >;

    /// Detach the probe `id`.
    fn detach(&mut self, id: &ProbeId) -> Result<(), ProbeError>;

    /// The attached probes.
    fn list_probes(&self) -> Vec<ProbeMetadata>;

    /// Detach every probe.
    fn shutdown(&mut self) -> Result<(), ProbeError>;
}

/// The attached probes, by probe id.
pub struct ProbeRegistry {
    probes: Vec<(String, ProbeMetadata)>,
}

impl ProbeRegistry {
    /// The attached probes as a map from probe ids.
    pub closed spec fn attached(&self) -> Map<Seq<char>, ProbeMetadata> {
        table_map(self.probes@)
    }

    /// One entry per probe id, stored under that id.
    pub closed spec fn wf(&self) -> bool {
        &&& keys_distinct(self.probes@)
        &&& forall|i: int| 0 <= i < self.probes@.len() ==> (#[trigger] self.probes@[i]).0@ == self.probes@[i].1.id.0@
    }

    /// No probes.
    pub fn new() -> (r: Self)
        ensures
            r.wf(),
            r.attached() == Map::<Seq<char>, ProbeMetadata>::empty(),
    {
        let r = ProbeRegistry { probes: Vec::new() };
        assert(r.attached() =~= Map::<Seq<char>, ProbeMetadata>::empty());
        r
    }

    /// Record an attached probe under its id, replacing an earlier one.
    pub fn record(&mut self, metadata: ProbeMetadata)
        requires
            old(self).wf(),
        ensures
            final(self).wf(),
            final(self).attached() == old(self).attached().insert(metadata.id.0@, metadata),
    {
        let key = metadata.id.0.clone();
        match find_key(&self.probes, key.as_str()) {
            Some(i) => {
                proof {
                    lemma_table_update(self.probes@, i as int, metadata);
                }
                let k = self.probes[i].0.clone();
                self.probes.set(i, (k, metadata));
            },
            None => {
                proof {
                    lemma_table_push(self.probes@, key, metadata);
                }
                self.probes.push((key, metadata));
            },
        }
    }

    /// Detach a probe: it is forgotten; an unknown id is an error.
    pub fn detach(&mut self, id: &ProbeId) -> (r: Result<(), ProbeError>)
        requires
            old(self).wf(),
        ensures
            final(self).wf(),
            final(self).attached() == old(self).attached().remove(id.0@),
            r is Ok <==> old(self).attached().contains_key(id.0@),
            r matches Err(e) ==> e matches ProbeError::DetachFailed(m) && m@ == "Probe "@ + id.0@ + " not found"@,
    {
        match find_key(&self.probes, id.0.as_str()) {
            Some(i) => {
                proof {
                    lemma_key_pos_unique(self.probes@, i as int);
                    lemma_table_remove(self.probes@, i as int);
                }
                self.probes.remove(i);
                Ok(())
            },
            None => {
                assert(self.attached() =~= self.attached().remove(id.0@));
                let mut m = "Probe ".to_owned();
                m.append(id.0.as_str());
                m.append(" not found");
                Err(ProbeError::DetachFailed(m))
            },
        }
    }

    /// The attached probes, each once.
    pub fn list_probes(&self) -> (r: Vec<ProbeMetadata>)
        requires
            self.wf(),
        ensures
            forall|i: int| 0 <= i < r@.len() ==> #[trigger] self.attached().contains_key(r@[i].id.0@)
                && self.attached()[r@[i].id.0@] == r@[i],
            forall|k: Seq<char>| #[trigger] self.attached().contains_key(k) ==> exists|i: int| 0 <= i < r@.len() && (#[trigger] r@[i]).id.0@ == k,
            forall|i: int, j: int| 0 <= i < r@.len() && 0 <= j < r@.len() && i != j ==> (#[trigger] r@[i]).id.0@ != (#[trigger] r@[j]).id.0@,
    {
        let mut out: Vec<ProbeMetadata> = Vec::new();
        let mut i: usize = 0;
        while i < self.probes.len()
            invariant
                i <= self.probes@.len(),
                out@.len() == i,
                forall|j: int| 0 <= j < i ==> (#[trigger] out@[j]) == self.probes@[j].1,
            decreases self.probes@.len() - i,
        {
            out.push(self.probes[i].1.clone());
            i = i + 1;
        }
        proof {
            assert forall|j: int| 0 <= j < out@.len() implies #[trigger] self.attached().contains_key(out@[j].id.0@)
                && self.attached()[out@[j].id.0@] == out@[j] by {
                lemma_key_pos_unique(self.probes@, j);
            }
            assert forall|k: Seq<char>| #[trigger] self.attached().contains_key(k) implies exists|i: int| 0 <= i < out@.len() && (#[trigger] out@[i]).id.0@ == k by {
                let p = choose|p: int| 0 <= p < self.probes@.len() && (#[trigger] self.probes@[p]).0@ == k;
                assert(out@[p].id.0@ == k);
            }
            assert forall|a: int, b: int| 0 <= a < out@.len() && 0 <= b < out@.len() && a != b implies (#[trigger] out@[a]).id.0@ != (#[trigger] out@[b]).id.0@ by {
                assert(self.probes@[a].0@ == out@[a].id.0@);
                assert(self.probes@[b].0@ == out@[b].id.0@);
            }
        }
        out
    }

    /// Detach every probe.
    pub fn shutdown(&mut self)
        ensures
            final(self).wf(),
            final(self).attached() == Map::<Seq<char>, ProbeMetadata>::empty(),
    {
        self.probes.clear();
        assert(self.attached() =~= Map::<Seq<char>, ProbeMetadata>::empty());
    }
}

} // verus!
