//! Interest pushdown: which event types, fields and simple predicates the
//! loaded rules need, so that events can be filtered at the kernel level.
use std::collections::HashMap;
use vstd::prelude::*;
use crate::ebpf::EbpfEventType;

verus! {

broadcast use vstd::std_specs::hash::group_hash_axioms;

/// Comparison operators for kernel-level filtering
#[derive(Debug, Clone, Copy, PartialEq, Eq)]
pub enum FilterOp {
    /// Equals
    Eq,
    /// Not equals
    Ne,
    /// Greater than
    Gt,
    /// Less than
    Lt,
    /// Greater or equal
    Ge,
    /// Less or equal
    Le,
    /// Contains (for strings)
    Contains,
    /// Starts with (for strings)
    StartsWith,
    /// Ends with (for strings)
    EndsWith,
}

/// Filter values
#[derive(Debug)]
pub enum FilterValue {
    U32(u32),
    U64(u64),
    I32(i32),
    I64(i64),
    String(String),
}

impl Clone for FilterValue {
    fn clone(&self) -> (r: Self)
        ensures
            r == *self,
    {
        match self {
            FilterValue::U32(v) => FilterValue::U32(*v),
            FilterValue::U64(v) => FilterValue::U64(*v),
            FilterValue::I32(v) => FilterValue::I32(*v),
            FilterValue::I64(v) => FilterValue::I64(*v),
            FilterValue::String(s) => FilterValue::String(s.clone()),
        }
    }
}

/// Simple predicate filter that can be evaluated in the kernel
#[derive(Debug)]
pub struct PredicateFilter {
    /// Field ID to filter on
    pub field_id: u32,
    /// Comparison operator
    pub op: FilterOp,
    /// Value to compare against
    pub value: FilterValue,
}

impl Clone for PredicateFilter {
    fn clone(&self) -> (r: Self)
        ensures
            r == *self,
    {
        PredicateFilter { field_id: self.field_id, op: self.op, value: self.value.clone() }
    }
}

/// The interests the loaded rules have declared.
pub struct PushdownView {
    /// Event types rules are interested in.
    pub event_types: Set<EbpfEventType>,
    /// Field ids rules need, per event type.
    pub fields: Map<u32, Set<u32>>,
    /// Predicate filters, per event type, in the order they were added.
    pub filters: Map<u32, Seq<PredicateFilter>>,
}

/// Interest pushdown: tracks which event types and fields are needed by
/// loaded rules.
pub struct InterestPushdown {
    event_types: Vec<EbpfEventType>,
    field_interests: HashMap<u32, Vec<u32>>,
    predicate_filters: HashMap<u32, Vec<PredicateFilter>>,
}

/// The fields of each event type, as sets.
pub open spec fn field_sets(m: Map<u32, Vec<u32>>) -> Map<u32, Set<u32>> {
    Map::new(|k: u32| m.contains_key(k), |k: u32| m[k]@.to_set())
}

/// The filters of each event type, as sequences.
pub open spec fn filter_seqs(m: Map<u32, Vec<PredicateFilter>>) -> Map<u32, Seq<PredicateFilter>> {
    Map::new(|k: u32| m.contains_key(k), |k: u32| m[k]@)
}

impl View for InterestPushdown {
    type V = PushdownView;

    closed spec fn view(&self) -> PushdownView {
        PushdownView {
            event_types: self.event_types@.to_set(),
            fields: field_sets(self.field_interests@),
            filters: filter_seqs(self.predicate_filters@),
        }
    }
}

impl InterestPushdown {
    /// No type or field listed twice.
    pub closed spec fn wf(&self) -> bool {
        &&& self.event_types@.no_duplicates()
        &&& forall|k: u32| #[trigger] self.field_interests@.contains_key(k) ==> self.field_interests@[k]@.no_duplicates()
    }

    /// No interests.
    pub fn new() -> (p: Self)
        ensures
            p.wf(),
            p@.event_types == Set::<EbpfEventType>::empty(),
            p@.fields == Map::<u32, Set<u32>>::empty(),
            p@.filters == Map::<u32, Seq<PredicateFilter>>::empty(),
    {
        let p = InterestPushdown { event_types: Vec::new(), field_interests: HashMap::new(), predicate_filters: HashMap::new() };
        assert(p@.event_types =~= Set::<EbpfEventType>::empty());
        assert(p@.fields =~= Map::<u32, Set<u32>>::empty());
        assert(p@.filters =~= Map::<u32, Seq<PredicateFilter>>::empty());
        p
    }

    /// Replace the event types rules are interested in.
    pub fn update_event_types(&mut self, event_types: Vec<EbpfEventType>)
        requires
            old(self).wf(),
        ensures
            final(self).wf(),
            final(self)@ == (PushdownView { event_types: event_types@.to_set(), ..old(self)@ }),
    {
        let mut types: Vec<EbpfEventType> = Vec::new();
        let mut i: usize = 0;
        while i < event_types.len()
            invariant
                i <= event_types@.len(),
                types@.no_duplicates(),
                types@.to_set() == event_types@.take(i as int).to_set(),
            decreases event_types@.len() - i,
        {
            let t = event_types[i];
            let mut found = false;
            let mut j: usize = 0;
            while j < types.len()
                invariant
                    j <= types@.len(),
                    found <==> exists|k: int| 0 <= k < j && types@[k] == t,
                decreases types@.len() - j,
            {
                if types[j] == t {
                    found = true;
                }
                j = j + 1;
            }
            assert(event_types@.take(i + 1) == event_types@.take(i as int).push(t));
            if !found {
                proof {
                    assert(!types@.contains(t));
                }
                types.push(t);
                assert(types@.to_set() =~= event_types@.take(i + 1).to_set()) by {
                    broadcast use vstd::seq_lib::group_seq_properties;
                    assert(types@.to_set() =~= event_types@.take(i as int).to_set().insert(t));
                    assert(event_types@.take(i + 1).to_set() =~= event_types@.take(i as int).to_set().insert(t));
                }
            } else {
                assert(types@.to_set() =~= event_types@.take(i + 1).to_set()) by {
                    broadcast use vstd::seq_lib::group_seq_properties;
                    assert(types@.contains(t));
                    assert(event_types@.take(i + 1).to_set() =~= event_types@.take(i as int).to_set().insert(t));
                }
            }
            i = i + 1;
        }
        assert(event_types@.take(event_types@.len() as int) =~= event_types@);
        self.event_types = types;
    }

    /// Add field interest for an event type
    pub fn add_field_interest(&mut self, event_type: u32, field_id: u32)
        requires
            old(self).wf(),
        ensures
            final(self).wf(),
            final(self)@ == (PushdownView {
                fields: old(self)@.fields.insert(
                    event_type,
                    (if old(self)@.fields.contains_key(event_type) {
                        old(self)@.fields[event_type]
                    } else {
                        Set::<u32>::empty()
                    }).insert(field_id),
                ),
                ..old(self)@
            }),
    {
        let ghost old_fields = self.field_interests@;
        let mut fields = match self.field_interests.remove(&event_type) {
            Some(f) => f,
            None => Vec::new(),
        };
        let ghost before = fields@;
        assert(before.to_set() =~= (if old(self)@.fields.contains_key(event_type) {
            old(self)@.fields[event_type]
        } else {
            Set::<u32>::empty()
        }));
        let mut present = false;
        let mut j: usize = 0;
        while j < fields.len()
            invariant
                j <= fields@.len(),
                present <==> exists|k: int| 0 <= k < j && fields@[k] == field_id,
            decreases fields@.len() - j,
        {
            if fields[j] == field_id {
                present = true;
            }
            j = j + 1;
        }
        if !present {
            assert(!fields@.contains(field_id));
            fields.push(field_id);
        }
        assert(fields@.to_set() =~= before.to_set().insert(field_id)) by {
            broadcast use vstd::seq_lib::group_seq_properties;
        }
        self.field_interests.insert(event_type, fields);
        assert(field_sets(self.field_interests@) =~= old(self)@.fields.insert(event_type, before.to_set().insert(field_id)));
    }

    /// Add predicate filter for an event type
    pub fn add_predicate_filter(&mut self, event_type: u32, filter: PredicateFilter)
        requires
            old(self).wf(),
        ensures
            final(self).wf(),
            final(self)@ == (PushdownView {
                filters: old(self)@.filters.insert(
                    event_type,
                    (if old(self)@.filters.contains_key(event_type) {
                        old(self)@.filters[event_type]
                    } else {
                        Seq::<PredicateFilter>::empty()
                    }).push(filter),
                ),
                ..old(self)@
            }),
    {
        let mut filters = match self.predicate_filters.remove(&event_type) {
            Some(f) => f,
            None => Vec::new(),
        };
        let ghost before = filters@;
        filters.push(filter);
        self.predicate_filters.insert(event_type, filters);
        assert(filter_seqs(self.predicate_filters@) =~= old(self)@.filters.insert(event_type, before.push(filter)));
    }

    /// Check if an event type is interesting
    pub fn is_event_type_interesting(&self, event_type: EbpfEventType) -> (r: bool)
        ensures
            r == self@.event_types.contains(event_type),
    {
        let mut i: usize = 0;
        while i < self.event_types.len()
            invariant
                i <= self.event_types@.len(),
                forall|k: int| 0 <= k < i ==> self.event_types@[k] != event_type,
            decreases self.event_types@.len() - i,
        {
            if self.event_types[i] == event_type {
                assert(self.event_types@.contains(event_type));
                return true;
            }
            i = i + 1;
        }
        assert(!self.event_types@.contains(event_type));
        false
    }

    /// The field ids rules need for an event type, each once.
    pub fn get_field_interests(&self, event_type: u32) -> (r: Vec<u32>)
        requires
            self.wf(),
        ensures
            r@.no_duplicates(),
            r@.to_set() == (if self@.fields.contains_key(event_type) {
                self@.fields[event_type]
            } else {
                Set::<u32>::empty()
            }),
    {
        match self.field_interests.get(&event_type) {
            Some(f) => {
                let out = f.clone();
                assert(out@ =~= f@);
                out
            },
            None => {
                let out: Vec<u32> = Vec::new();
                assert(out@.to_set() =~= Set::<u32>::empty());
                out
            },
        }
    }

    /// The predicate filters for an event type, in the order they were added.
    pub fn get_predicate_filters(&self, event_type: u32) -> (r: Vec<PredicateFilter>)
        ensures
            r@ == (if self@.filters.contains_key(event_type) {
                self@.filters[event_type]
            } else {
                Seq::<PredicateFilter>::empty()
            }),
    {
        match self.predicate_filters.get(&event_type) {
            Some(f) => {
                let mut out: Vec<PredicateFilter> = Vec::new();
                let mut i: usize = 0;
                while i < f.len()
                    invariant
                        i <= f@.len(),
                        out@ == f@.take(i as int),
                    decreases f@.len() - i,
                {
                    out.push(f[i].clone());
                    assert(f@.take(i + 1) == f@.take(i as int).push(f@[i as int]));
                    i = i + 1;
                }
                assert(f@.take(f@.len() as int) =~= f@);
                out
            },
            None => Vec::new(),
        }
    }

    /// Clear all interests
    pub fn clear(&mut self)
        ensures
            final(self).wf(),
            final(self)@.event_types == Set::<EbpfEventType>::empty(),
            final(self)@.fields == Map::<u32, Set<u32>>::empty(),
            final(self)@.filters == Map::<u32, Seq<PredicateFilter>>::empty(),
    {
        self.event_types.clear();
        self.field_interests.clear();
        self.predicate_filters.clear();
        assert(self@.event_types =~= Set::<EbpfEventType>::empty());
        assert(self@.fields =~= Map::<u32, Set<u32>>::empty());
        assert(self@.filters =~= Map::<u32, Seq<PredicateFilter>>::empty());
    }
}

impl Default for InterestPushdown {
    fn default() -> (p: Self)
        ensures
            p.wf(),
            p@.event_types == Set::<EbpfEventType>::empty(),
            p@.fields == Map::<u32, Set<u32>>::empty(),
            p@.filters == Map::<u32, Seq<PredicateFilter>>::empty(),
    {
        Self::new()
    }
}

/// Adding a field interest is idempotent: adding the same field to the same
/// event type again changes nothing.
pub proof fn law_field_interest_idempotent(fields: Map<u32, Set<u32>>, event_type: u32, field_id: u32)
    ensures
        ({
            let once = fields.insert(
                event_type,
                (if fields.contains_key(event_type) { fields[event_type] } else { Set::<u32>::empty() }).insert(field_id),
            );
            let twice = once.insert(
                event_type,
                (if once.contains_key(event_type) { once[event_type] } else { Set::<u32>::empty() }).insert(field_id),
            );
            twice == once
        }),
{
    let once = fields.insert(
        event_type,
        (if fields.contains_key(event_type) { fields[event_type] } else { Set::<u32>::empty() }).insert(field_id),
    );
    assert(once[event_type].insert(field_id) =~= once[event_type]);
    assert(once.insert(event_type, once[event_type].insert(field_id)) =~= once);
}

} // verus!
