//! Normalized events: a header and typed fields keyed by the ids that a
//! field schema gives to field names.
use vstd::prelude::*;

verus! {

/// A typed field value.
#[derive(Debug, Clone)]
pub enum TypedValue {
    U64(u64),
    I64(i64),
    Text(String),
}

/// What a field value holds: a number or a text.
pub enum FieldVal {
    U64(u64),
    I64(i64),
    Text(Seq<char>),
}

impl View for TypedValue {
    type V = FieldVal;

    open spec fn view(&self) -> FieldVal {
        match self {
            TypedValue::U64(n) => FieldVal::U64(*n),
            TypedValue::I64(n) => FieldVal::I64(*n),
            TypedValue::Text(s) => FieldVal::Text(s@),
        }
    }
}

impl TypedValue {
    /// The text, for a text value.
    pub fn as_str(&self) -> (r: Option<&str>)
        ensures
            r matches Some(s) ==> self@ == FieldVal::Text(s@),
            r is None ==> !(self is Text),
    {
        match self {
            TypedValue::Text(s) => Some(s.as_str()),
            _ => None,
        }
    }

    /// The number, for an unsigned value.
    pub fn as_u64(&self) -> (r: Option<u64>)
        ensures
            r matches Some(n) ==> self@ == FieldVal::U64(n),
            r is None ==> !(self is U64),
    {
        match self {
            TypedValue::U64(n) => Some(*n),
            _ => None,
        }
    }

    /// The number, for a signed value.
    pub fn as_i64(&self) -> (r: Option<i64>)
        ensures
            r matches Some(n) ==> self@ == FieldVal::I64(n),
            r is None ==> !(self is I64),
    {
        match self {
            TypedValue::I64(n) => Some(*n),
            _ => None,
        }
    }
}

/// The names a field schema knows, in registration order.
pub struct FieldSchema {
    names: Vec<String>,
}

/// No name occurs twice.
pub open spec fn names_distinct(names: Seq<Seq<char>>) -> bool {
    forall|i: int, j: int|
        0 <= i < names.len() && 0 <= j < names.len() && i != j ==> names[i] != names[j]
}

/// The id of `name` among `names`: one more than its position.
pub open spec fn id_of(names: Seq<Seq<char>>, name: Seq<char>) -> Option<u32> {
    if exists|i: int| 0 <= i < names.len() && names[i] == name {
        Some((names.index_of(name) + 1) as u32)
    } else {
        None
    }
}

impl FieldSchema {
    /// The registered names.
    pub closed spec fn names(&self) -> Seq<Seq<char>> {
        self.names@.map_values(|s: String| s@)
    }

    #[verifier::type_invariant]
    closed spec fn wf(&self) -> bool {
        &&& names_distinct(self.names())
        &&& self.names@.len() < u32::MAX
    }

    /// The id of a field name, if it is registered.
    pub open spec fn field_id(&self, name: Seq<char>) -> Option<u32> {
        id_of(self.names(), name)
    }

    /// A schema with no fields.
    pub fn new() -> (s: Self)
        ensures
            s.names() == Seq::<Seq<char>>::empty(),
    {
        let s = FieldSchema { names: Vec::new() };
        assert(s.names() =~= Seq::<Seq<char>>::empty());
        s
    }

    /// Position of `name`, if registered.
    fn position(&self, name: &str) -> (r: Option<usize>)
        ensures
            r matches Some(i) ==> i < self.names().len() && self.names()[i as int] == name@,
            r is None ==> !self.names().contains(name@),
    {
        let key = name.to_owned();
        let mut i: usize = 0;
        while i < self.names.len()
            invariant
                i <= self.names@.len(),
                key@ == name@,
                forall|j: int| 0 <= j < i ==> self.names()[j] != name@,
            decreases self.names@.len() - i,
        {
            if self.names[i] == key {
                return Some(i);
            }
            i = i + 1;
        }
        None
    }

    /// The id of `name`, if registered.
    pub fn get_field_id(&self, name: &str) -> (r: Option<u32>)
        ensures
            r == self.field_id(name@),
    {
        proof {
            use_type_invariant(self);
        }
        match self.position(name) {
            Some(i) => {
                proof {
                    lemma_index_of_distinct(self.names(), i as int);
                }
                Some((i + 1) as u32)
            },
            None => None,
        }
    }

    /// Registers `name` and gives its id; a known name keeps its id. A
    /// schema that already holds `u32::MAX - 1` names takes no new one.
    pub fn register_field(&mut self, name: &str) -> (r: Option<u32>)
        ensures
            old(self).names().contains(name@) ==> final(self).names() == old(self).names()
                && r == old(self).field_id(name@),
            !old(self).names().contains(name@) && old(self).names().len() + 1 < u32::MAX
                ==> final(self).names() == old(self).names().push(name@)
                && r == Some((old(self).names().len() + 1) as u32),
            !old(self).names().contains(name@) && old(self).names().len() + 1 >= u32::MAX
                ==> final(self).names() == old(self).names() && r is None,
            r matches Some(id) ==> final(self).field_id(name@) == Some(id),
    {
        proof {
            use_type_invariant(&*self);
        }
        match self.position(name) {
            Some(i) => {
                proof {
                    lemma_index_of_distinct(self.names(), i as int);
                }
                Some((i + 1) as u32)
            },
            None => {
                let n = self.names.len();
                if n + 1 >= 0xFFFF_FFFF {
                    return None;
                }
                let ghost before = self.names();
                let ghost raw = self.names@;
                let owned = name.to_owned();
                let mut names: Vec<String> = Vec::new();
                std::mem::swap(&mut names, &mut self.names);
                names.push(owned);
                assert(names@.map_values(|s: String| s@) =~= before.push(name@)) by {
                    assert(names@ =~= raw.push(owned));
                }
                proof {
                    assert forall|a: int, b: int|
                        0 <= a < before.len() + 1 && 0 <= b < before.len() + 1 && a != b
                        implies before.push(name@)[a] != before.push(name@)[b] by {
                        if a == before.len() {
                            assert(before[b] != name@);
                        } else if b == before.len() {
                            assert(before[a] != name@);
                        }
                    }
                }
                self.names = names;
                proof {
                    lemma_index_of_distinct(self.names(), n as int);
                }
                Some((n + 1) as u32)
            },
        }
    }

    /// The registered names, in registration order.
    pub fn list_fields(&self) -> (r: Vec<String>)
        ensures
            r@.map_values(|s: String| s@) == self.names(),
    {
        let mut out: Vec<String> = Vec::new();
        let mut i: usize = 0;
        while i < self.names.len()
            invariant
                i <= self.names@.len(),
                out@.map_values(|s: String| s@) =~= self.names().take(i as int),
            decreases self.names@.len() - i,
        {
            let s = self.names[i].clone();
            let ghost prev = out@;
            out.push(s);
            proof {
                assert(out@ =~= prev.push(s));
                assert(self.names().take(i + 1) =~= self.names().take(i as int).push(s@));
            }
            i = i + 1;
        }
        assert(self.names().take(i as int) =~= self.names());
        out
    }
}

impl Clone for FieldSchema {
    /// A schema with the same names.
    fn clone(&self) -> (r: Self)
        ensures
            r.names() == self.names(),
    {
        proof {
            use_type_invariant(self);
        }
        let mut names: Vec<String> = Vec::new();
        let mut i: usize = 0;
        while i < self.names.len()
            invariant
                i <= self.names@.len(),
                names@.map_values(|s: String| s@) =~= self.names().take(i as int),
            decreases self.names@.len() - i,
        {
            let s = self.names[i].clone();
            let ghost before = names@;
            names.push(s);
            proof {
                assert(names@ =~= before.push(s));
                assert(self.names().take(i + 1) =~= self.names().take(i as int).push(s@));
            }
            i = i + 1;
        }
        assert(self.names().take(i as int) =~= self.names());
        FieldSchema { names }
    }
}

/// With distinct names, the name at position `i` has id `i + 1`.
pub proof fn lemma_index_of_distinct(names: Seq<Seq<char>>, i: int)
    requires
        names_distinct(names),
        0 <= i < names.len(),
        names.len() < u32::MAX,
    ensures
        id_of(names, names[i]) == Some((i + 1) as u32),
{
    let name = names[i];
    assert(names.contains(name));
    let k = names.index_of(name);
    assert(0 <= k < names.len() && names[k] == name);
    assert(k == i);
}

/// The fields that survive the schema: each candidate whose name the schema
/// knows, under its id, in candidate order.
pub open spec fn schema_fields(schema: FieldSchema, cands: Seq<(Seq<char>, FieldVal)>) -> Seq<
    (u32, FieldVal),
>
    decreases cands.len(),
{
    if cands.len() == 0 {
        Seq::empty()
    } else {
        let rest = schema_fields(schema, cands.drop_last());
        match schema.field_id(cands.last().0) {
            Some(id) => rest.push((id, cands.last().1)),
            None => rest,
        }
    }
}

/// Appends `value` under the id of `name` when `schema` knows the name.
pub(crate) fn add_field(
    schema: &FieldSchema,
    fields: &mut Vec<(u32, TypedValue)>,
    Ghost(cands): Ghost<Seq<(Seq<char>, FieldVal)>>,
    name: &str,
    value: TypedValue,
)
    requires
        fields_view(old(fields)@) == schema_fields(*schema, cands),
    ensures
        fields_view(final(fields)@) == schema_fields(*schema, cands.push((name@, value@))),
{
    let ghost next = cands.push((name@, value@));
    assert(next.drop_last() =~= cands);
    match schema.get_field_id(name) {
        Some(id) => {
            let ghost before = fields@;
            let ghost v = value@;
            fields.push((id, value));
            assert(fields_view(fields@) =~= fields_view(before).push((id, v)));
        },
        None => {},
    }
}

/// A schema that knows no name lets no field through.
pub proof fn law_empty_schema_no_fields(schema: FieldSchema, cands: Seq<(Seq<char>, FieldVal)>)
    requires
        schema.names().len() == 0,
    ensures
        schema_fields(schema, cands).len() == 0,
    decreases cands.len(),
{
    if cands.len() > 0 {
        law_empty_schema_no_fields(schema, cands.drop_last());
    }
}

/// When the schema knows every candidate name, every candidate comes
/// through, in order, under the id of its name.
pub proof fn law_known_fields_kept(schema: FieldSchema, cands: Seq<(Seq<char>, FieldVal)>)
    requires
        forall|i: int| 0 <= i < cands.len() ==> (#[trigger] schema.field_id(cands[i].0)) is Some,
    ensures
        schema_fields(schema, cands).len() == cands.len(),
        forall|i: int|
            0 <= i < cands.len() ==> #[trigger] schema_fields(schema, cands)[i] == (
                schema.field_id(cands[i].0)->0,
                cands[i].1,
            ),
    decreases cands.len(),
{
    if cands.len() > 0 {
        let init = cands.drop_last();
        assert forall|i: int| 0 <= i < init.len() implies (#[trigger] schema.field_id(
            init[i].0,
        )) is Some by {
            assert(init[i] == cands[i]);
        }
        law_known_fields_kept(schema, init);
        assert(schema.field_id(cands[cands.len() - 1].0) is Some);
        assert forall|i: int| 0 <= i < cands.len() implies #[trigger] schema_fields(
            schema,
            cands,
        )[i] == (schema.field_id(cands[i].0)->0, cands[i].1) by {
            if i < init.len() {
                assert(init[i] == cands[i]);
                assert(schema_fields(schema, init)[i] == (
                    schema.field_id(init[i].0)->0,
                    init[i].1,
                ));
            }
        }
    }
}

/// A normalized event.
#[derive(Debug, Clone)]
pub struct Event {
    pub event_id: u64,
    pub event_type_id: u16,
    pub ts_mono_ns: u64,
    pub ts_wall_ns: u64,
    pub entity_key: u128,
    pub source_id: Option<String>,
    pub fields: Vec<(u32, TypedValue)>,
}

/// The fields of an event as ids and values.
pub open spec fn fields_view(fields: Seq<(u32, TypedValue)>) -> Seq<(u32, FieldVal)> {
    fields.map_values(|p: (u32, TypedValue)| (p.0, p.1@))
}

/// The value of the first field with id `id`.
pub open spec fn field_lookup(fields: Seq<(u32, FieldVal)>, id: u32) -> Option<FieldVal>
    decreases fields.len(),
{
    if fields.len() == 0 {
        None
    } else if fields[0].0 == id {
        Some(fields[0].1)
    } else {
        field_lookup(fields.drop_first(), id)
    }
}

/// `e` has the given header, source and fields, with both timestamps `ts`.
pub open spec fn event_is(
    e: Event,
    id: u64,
    type_id: u16,
    ts: u64,
    key: u128,
    source: Seq<char>,
    fields: Seq<(u32, FieldVal)>,
) -> bool {
    &&& e.event_id == id
    &&& e.event_type_id == type_id
    &&& e.ts_mono_ns == ts
    &&& e.ts_wall_ns == ts
    &&& e.entity_key == key
    &&& e.source_id matches Some(s) && s@ == source
    &&& e.field_vals() == fields
}

impl Event {
    /// The event's fields as ids and values.
    pub open spec fn field_vals(&self) -> Seq<(u32, FieldVal)> {
        fields_view(self.fields@)
    }

    /// The value of the field with id `id`.
    pub fn get_field(&self, id: u32) -> (r: Option<&TypedValue>)
        ensures
            r matches Some(v) ==> field_lookup(self.field_vals(), id) == Some(v@),
            r is None ==> field_lookup(self.field_vals(), id) is None,
    {
        let mut i: usize = 0;
        assert(self.field_vals().subrange(0, self.fields@.len() as int) =~= self.field_vals());
        while i < self.fields.len()
            invariant
                i <= self.fields@.len(),
                field_lookup(self.field_vals(), id) == field_lookup(
                    self.field_vals().subrange(i as int, self.fields@.len() as int),
                    id,
                ),
            decreases self.fields@.len() - i,
        {
            let ghost rest = self.field_vals().subrange(i as int, self.fields@.len() as int);
            assert(rest[0] == (self.fields@[i as int].0, self.fields@[i as int].1@));
            if self.fields[i].0 == id {
                return Some(&self.fields[i].1);
            }
            assert(rest.drop_first() =~= self.field_vals().subrange(
                i + 1,
                self.fields@.len() as int,
            ));
            i = i + 1;
        }
        None
    }
}

} // verus!
