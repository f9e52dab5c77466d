//! Normalization of Endpoint Security records into events whose fields
//! carry the ids of a field schema.
use vstd::prelude::*;
use crate::core_platform::PlatformError;
use crate::event::{add_field, event_is, fields_view, schema_fields, Event, FieldSchema, FieldVal, TypedValue};
use crate::macos_types::{create_entity_key, event_type_id, EventType, RawEsfEvent};

verus! {

/// One candidate text field when the text is not empty, none otherwise.
pub open spec fn nonempty_text(name: Seq<char>, t: Seq<char>) -> Seq<(Seq<char>, FieldVal)> {
    if t.len() > 0 {
        seq![(name, FieldVal::Text(t))]
    } else {
        Seq::empty()
    }
}

/// One candidate field when the value is there, none otherwise.
pub open spec fn opt_field(name: Seq<char>, v: Option<FieldVal>) -> Seq<(Seq<char>, FieldVal)> {
    match v {
        Some(x) => seq![(name, x)],
        None => Seq::empty(),
    }
}

/// An optional unsigned value as a field value.
pub open spec fn opt_u32(v: Option<u32>) -> Option<FieldVal> {
    match v {
        Some(x) => Some(FieldVal::U64(x as u64)),
        None => None,
    }
}

/// An optional signed value as a field value.
pub open spec fn opt_i32(v: Option<i32>) -> Option<FieldVal> {
    match v {
        Some(x) => Some(FieldVal::I64(x as i64)),
        None => None,
    }
}

/// An optional text as a field value.
pub open spec fn opt_string(v: Option<String>) -> Option<FieldVal> {
    match v {
        Some(s) => Some(FieldVal::Text(s@)),
        None => None,
    }
}

/// The fields every record carries: the process ids and, when known, its name.
pub open spec fn common_candidates(raw: RawEsfEvent) -> Seq<(Seq<char>, FieldVal)> {
    seq![
        ("process.pid"@, FieldVal::U64(raw.pid as u64)),
        ("process.ppid"@, FieldVal::U64(raw.ppid as u64)),
        ("process.uid"@, FieldVal::U64(raw.uid as u64)),
        ("process.gid"@, FieldVal::U64(raw.gid as u64)),
    ] + nonempty_text("process.comm"@, raw.comm@)
}

/// The fields that depend on the kind of record.
pub open spec fn specific_candidates(raw: RawEsfEvent) -> Seq<(Seq<char>, FieldVal)> {
    match raw.event_type {
        EventType::ProcessExec => nonempty_text("file.path"@, raw.primary@) + nonempty_text(
            "process.args"@,
            raw.secondary@,
        ) + opt_field("process.cs_flags"@, opt_u32(raw.metadata.cs_flags)),
        EventType::ProcessExit => opt_field("process.exit_code"@, opt_i32(raw.metadata.exit_code)),
        EventType::ProcessSignal => opt_field("process.signal"@, opt_i32(raw.metadata.signal)),
        EventType::FileCreate | EventType::FileOpen | EventType::FileWrite
        | EventType::FileUnlink => nonempty_text("file.path"@, raw.primary@) + opt_field(
            "file.mode"@,
            opt_u32(raw.metadata.mode),
        ),
        EventType::FileRename => opt_field(
            "file.source_path"@,
            opt_string(raw.metadata.source_path),
        ) + opt_field("file.dest_path"@, opt_string(raw.metadata.dest_path)),
        _ => Seq::empty(),
    }
}

/// Normalizes Endpoint Security records into events with the fields a
/// schema knows.
pub struct EventNormalizer {
    schema: FieldSchema,
}

impl EventNormalizer {
    /// A normalizer over `schema`.
    pub fn new(schema: FieldSchema) -> (n: Self)
        ensures
            n.schema_spec() == schema,
    {
        EventNormalizer { schema }
    }

    /// The schema whose field ids events carry.
    pub closed spec fn schema_spec(&self) -> FieldSchema {
        self.schema
    }

    /// The schema whose field ids events carry.
    pub fn schema(&self) -> (r: &FieldSchema)
        ensures
            *r == self.schema_spec(),
    {
        &self.schema
    }

    /// Normalizes a record: an event with id 0 of the record's type, both
    /// timestamps the record's, the entity key of its process instance, and
    /// the common fields followed by those of its kind. The event is always
    /// built.
    pub fn normalize(&self, raw: &RawEsfEvent) -> (r: Result<Event, PlatformError>)
        ensures
            r matches Ok(e) && event_is(
                e,
                0,
                event_type_id(raw.event_type),
                raw.timestamp_ns,
                (raw.pid * 0x1_0000_0000_0000_0000 + raw.timestamp_ns) as u128,
                "macos"@,
                schema_fields(
                    self.schema_spec(),
                    common_candidates(*raw) + specific_candidates(*raw),
                ),
            ),
    {
        let entity_key = create_entity_key(raw.pid, raw.timestamp_ns);
        let mut fields: Vec<(u32, TypedValue)> = Vec::new();
        let ghost mut c: Seq<(Seq<char>, FieldVal)> = Seq::empty();
        assert(fields_view(fields@) =~= schema_fields(self.schema, c));
        self.add_common_fields(&mut fields, Ghost(c), raw);
        proof { c = common_candidates(*raw); }
        self.add_event_specific_fields(&mut fields, Ghost(c), raw);
        Ok(Event {
            event_id: 0,
            event_type_id: raw.event_type.to_event_type_id(),
            ts_mono_ns: raw.timestamp_ns,
            ts_wall_ns: raw.timestamp_ns,
            entity_key,
            source_id: Some("macos".to_owned()),
            fields,
        })
    }

    /// Adds `text` under `name` when it is not empty.
    fn add_nonempty(
        &self,
        fields: &mut Vec<(u32, TypedValue)>,
        Ghost(c): Ghost<Seq<(Seq<char>, FieldVal)>>,
        name: &str,
        text: &String,
    )
        requires
            fields_view(old(fields)@) == schema_fields(self.schema_spec(), c),
        ensures
            fields_view(final(fields)@) == schema_fields(
                self.schema_spec(),
                c + nonempty_text(name@, text@),
            ),
    {
        if !text.as_str().is_empty() {
            add_field(&self.schema, fields, Ghost(c), name, TypedValue::Text(text.clone()));
            assert(c + nonempty_text(name@, text@) =~= c.push((name@, FieldVal::Text(text@))));
        } else {
            assert(c + nonempty_text(name@, text@) =~= c);
        }
    }

    /// Adds `value` under `name` when it is there.
    fn add_opt(
        &self,
        fields: &mut Vec<(u32, TypedValue)>,
        Ghost(c): Ghost<Seq<(Seq<char>, FieldVal)>>,
        name: &str,
        value: Option<TypedValue>,
    )
        requires
            fields_view(old(fields)@) == schema_fields(self.schema_spec(), c),
        ensures
            fields_view(final(fields)@) == schema_fields(
                self.schema_spec(),
                c + opt_field(
                    name@,
                    match value {
                        Some(v) => Some(v@),
                        None => None,
                    },
                ),
            ),
    {
        match value {
            Some(v) => {
                let ghost vv = v@;
                add_field(&self.schema, fields, Ghost(c), name, v);
                assert(c + opt_field(name@, Some(vv)) =~= c.push((name@, vv)));
            },
            None => {
                assert(c + opt_field(name@, None) =~= c);
            },
        }
    }

    fn add_common_fields(
        &self,
        fields: &mut Vec<(u32, TypedValue)>,
        Ghost(c): Ghost<Seq<(Seq<char>, FieldVal)>>,
        raw: &RawEsfEvent,
    )
        requires
            c == Seq::<(Seq<char>, FieldVal)>::empty(),
            fields_view(old(fields)@) == schema_fields(self.schema_spec(), c),
        ensures
            fields_view(final(fields)@) == schema_fields(self.schema_spec(), common_candidates(*raw)),
    {
        let ghost mut c = c;
        add_field(&self.schema, fields, Ghost(c), "process.pid", TypedValue::U64(raw.pid as u64));
        proof { c = c.push(("process.pid"@, FieldVal::U64(raw.pid as u64))); }
        add_field(&self.schema, fields, Ghost(c), "process.ppid", TypedValue::U64(raw.ppid as u64));
        proof { c = c.push(("process.ppid"@, FieldVal::U64(raw.ppid as u64))); }
        add_field(&self.schema, fields, Ghost(c), "process.uid", TypedValue::U64(raw.uid as u64));
        proof { c = c.push(("process.uid"@, FieldVal::U64(raw.uid as u64))); }
        add_field(&self.schema, fields, Ghost(c), "process.gid", TypedValue::U64(raw.gid as u64));
        proof { c = c.push(("process.gid"@, FieldVal::U64(raw.gid as u64))); }
        self.add_nonempty(fields, Ghost(c), "process.comm", &raw.comm);
        assert(c + nonempty_text("process.comm"@, raw.comm@) =~= common_candidates(*raw));
    }

    fn add_event_specific_fields(
        &self,
        fields: &mut Vec<(u32, TypedValue)>,
        Ghost(c): Ghost<Seq<(Seq<char>, FieldVal)>>,
        raw: &RawEsfEvent,
    )
        requires
            fields_view(old(fields)@) == schema_fields(self.schema_spec(), c),
        ensures
            fields_view(final(fields)@) == schema_fields(
                self.schema_spec(),
                c + specific_candidates(*raw),
            ),
    {
        match raw.event_type {
            EventType::ProcessExec => self.add_exec_fields(fields, Ghost(c), raw),
            EventType::ProcessExit => self.add_exit_fields(fields, Ghost(c), raw),
            EventType::ProcessSignal => self.add_signal_fields(fields, Ghost(c), raw),
            EventType::FileCreate | EventType::FileOpen | EventType::FileWrite
            | EventType::FileUnlink => self.add_file_fields(fields, Ghost(c), raw),
            EventType::FileRename => self.add_rename_fields(fields, Ghost(c), raw),
            _ => {
                assert(c + specific_candidates(*raw) =~= c);
            },
        }
    }

    fn add_exec_fields(
        &self,
        fields: &mut Vec<(u32, TypedValue)>,
        Ghost(c): Ghost<Seq<(Seq<char>, FieldVal)>>,
        raw: &RawEsfEvent,
    )
        requires
            raw.event_type == EventType::ProcessExec,
            fields_view(old(fields)@) == schema_fields(self.schema_spec(), c),
        ensures
            fields_view(final(fields)@) == schema_fields(
                self.schema_spec(),
                c + specific_candidates(*raw),
            ),
    {
        self.add_nonempty(fields, Ghost(c), "file.path", &raw.primary);
        let ghost c1 = c + nonempty_text("file.path"@, raw.primary@);
        self.add_nonempty(fields, Ghost(c1), "process.args", &raw.secondary);
        let ghost c2 = c1 + nonempty_text("process.args"@, raw.secondary@);
        let v = match raw.metadata.cs_flags {
            Some(f) => Some(TypedValue::U64(f as u64)),
            None => None,
        };
        self.add_opt(fields, Ghost(c2), "process.cs_flags", v);
        assert(c2 + opt_field("process.cs_flags"@, opt_u32(raw.metadata.cs_flags)) =~= c
            + specific_candidates(*raw));
    }

    fn add_exit_fields(
        &self,
        fields: &mut Vec<(u32, TypedValue)>,
        Ghost(c): Ghost<Seq<(Seq<char>, FieldVal)>>,
        raw: &RawEsfEvent,
    )
        requires
            raw.event_type == EventType::ProcessExit,
            fields_view(old(fields)@) == schema_fields(self.schema_spec(), c),
        ensures
            fields_view(final(fields)@) == schema_fields(
                self.schema_spec(),
                c + specific_candidates(*raw),
            ),
    {
        let v = match raw.metadata.exit_code {
            Some(x) => Some(TypedValue::I64(x as i64)),
            None => None,
        };
        self.add_opt(fields, Ghost(c), "process.exit_code", v);
    }

    fn add_signal_fields(
        &self,
        fields: &mut Vec<(u32, TypedValue)>,
        Ghost(c): Ghost<Seq<(Seq<char>, FieldVal)>>,
        raw: &RawEsfEvent,
    )
        requires
            raw.event_type == EventType::ProcessSignal,
            fields_view(old(fields)@) == schema_fields(self.schema_spec(), c),
        ensures
            fields_view(final(fields)@) == schema_fields(
                self.schema_spec(),
                c + specific_candidates(*raw),
            ),
    {
        let v = match raw.metadata.signal {
            Some(x) => Some(TypedValue::I64(x as i64)),
            None => None,
        };
        self.add_opt(fields, Ghost(c), "process.signal", v);
    }

    fn add_file_fields(
        &self,
        fields: &mut Vec<(u32, TypedValue)>,
        Ghost(c): Ghost<Seq<(Seq<char>, FieldVal)>>,
        raw: &RawEsfEvent,
    )
        requires
            raw.event_type == EventType::FileCreate || raw.event_type == EventType::FileOpen
                || raw.event_type == EventType::FileWrite || raw.event_type
                == EventType::FileUnlink,
            fields_view(old(fields)@) == schema_fields(self.schema_spec(), c),
        ensures
            fields_view(final(fields)@) == schema_fields(
                self.schema_spec(),
                c + specific_candidates(*raw),
            ),
    {
        self.add_nonempty(fields, Ghost(c), "file.path", &raw.primary);
        let ghost c1 = c + nonempty_text("file.path"@, raw.primary@);
        let v = match raw.metadata.mode {
            Some(x) => Some(TypedValue::U64(x as u64)),
            None => None,
        };
        self.add_opt(fields, Ghost(c1), "file.mode", v);
        assert(c1 + opt_field("file.mode"@, opt_u32(raw.metadata.mode)) =~= c
            + specific_candidates(*raw));
    }

    fn add_rename_fields(
        &self,
        fields: &mut Vec<(u32, TypedValue)>,
        Ghost(c): Ghost<Seq<(Seq<char>, FieldVal)>>,
        raw: &RawEsfEvent,
    )
        requires
            raw.event_type == EventType::FileRename,
            fields_view(old(fields)@) == schema_fields(self.schema_spec(), c),
        ensures
            fields_view(final(fields)@) == schema_fields(
                self.schema_spec(),
                c + specific_candidates(*raw),
            ),
    {
        let v = match &raw.metadata.source_path {
            Some(s) => Some(TypedValue::Text(s.clone())),
            None => None,
        };
        self.add_opt(fields, Ghost(c), "file.source_path", v);
        let ghost c1 = c + opt_field("file.source_path"@, opt_string(raw.metadata.source_path));
        let w = match &raw.metadata.dest_path {
            Some(s) => Some(TypedValue::Text(s.clone())),
            None => None,
        };
        self.add_opt(fields, Ghost(c1), "file.dest_path", w);
        assert(c1 + opt_field("file.dest_path"@, opt_string(raw.metadata.dest_path)) =~= c
            + specific_candidates(*raw));
    }
}

} // verus!
