//! Normalization of kernel event records into events whose fields carry the
//! ids of a field schema.
use vstd::prelude::*;
use vstd::utf8::*;
use crate::cstr::{c_str_bytes, c_str_end, c_str_text, decode_c_str, str_from_utf8};
use crate::decimal::{decimal, push_decimal};
use crate::ebpf::{EbpfError, ExecveEvent, RawEbpfEvent};
use crate::ebpf_types::LiveEvent;
use crate::event::{add_field, event_is, fields_view, schema_fields, Event, FieldSchema, FieldVal, TypedValue};

verus! {

/// One candidate field when the text is there, none otherwise.
pub open spec fn opt_text(name: Seq<char>, t: Option<Seq<char>>) -> Seq<(Seq<char>, FieldVal)> {
    match t {
        Some(s) => seq![(name, FieldVal::Text(s))],
        None => Seq::empty(),
    }
}

/// `s` with its trailing `/` characters removed.
pub open spec fn trim_end_slashes(s: Seq<char>) -> Seq<char>
    decreases s.len(),
{
    if s.len() > 0 && s.last() == '/' {
        trim_end_slashes(s.drop_last())
    } else {
        s
    }
}

/// `n` slash characters.
pub open spec fn slashes(n: nat) -> Seq<char> {
    Seq::new(n, |i: int| '/')
}

/// The text of the C string held in `len` bytes of `data` from `offset`:
/// nothing when the range runs past the data or the bytes are not UTF-8.
pub open spec fn path_text(data: Seq<u8>, offset: int, len: int) -> Option<Seq<char>> {
    if offset + len > data.len() {
        None
    } else {
        let b = c_str_bytes(data.subrange(offset, offset + len));
        if valid_utf8(b) {
            Some(decode_utf8(b))
        } else {
            None
        }
    }
}

/// The four bytes of `x`, least significant first.
pub open spec fn le_bytes(x: u32) -> Seq<u8> {
    seq![
        (x % 256) as u8,
        ((x / 256) % 256) as u8,
        ((x / 65536) % 256) as u8,
        (x / 16777216) as u8,
    ]
}

/// The four bytes of `x`, most significant first.
pub open spec fn be_bytes(x: u32) -> Seq<u8> {
    seq![
        (x / 16777216) as u8,
        ((x / 65536) % 256) as u8,
        ((x / 256) % 256) as u8,
        (x % 256) as u8,
    ]
}

/// Dotted-quad text of an IPv4 address given by its four octets.
pub open spec fn dotted_quad(b: Seq<u8>) -> Seq<char> {
    decimal(b[0] as nat) + "."@ + decimal(b[1] as nat) + "."@ + decimal(b[2] as nat) + "."@
        + decimal(b[3] as nat)
}

/// Event type id of a raw record type: process, file or network.
pub open spec fn raw_type_id(t: u32) -> u16 {
    if t == 1 || t == 2 {
        1
    } else if 3 <= t <= 5 {
        3
    } else {
        6
    }
}

/// The candidate fields of a raw record, in the order they are added.
pub open spec fn raw_candidates(raw: RawEbpfEvent, data: Seq<u8>) -> Seq<(Seq<char>, FieldVal)> {
    let entity = seq![("process.entity_id"@, FieldVal::U64(raw.entity_key))];
    let pid = ("process.pid"@, FieldVal::U64(raw.pid as u64));
    if raw.event_type == 1 {
        entity + seq![
            ("process.operation"@, FieldVal::Text("exec"@)),
            pid,
            ("process.ppid"@, FieldVal::U64(raw.ppid as u64)),
            ("process.uid"@, FieldVal::U64(raw.uid as u64)),
            ("process.gid"@, FieldVal::U64(raw.gid as u64)),
        ] + opt_text("process.executable"@, path_text(data, 0, raw.path_len as int)) + opt_text(
            "process.command_line"@,
            path_text(data, raw.path_len as int, raw.cmdline_len as int),
        )
    } else if raw.event_type == 2 {
        entity + seq![
            ("process.operation"@, FieldVal::Text("exit"@)),
            pid,
            ("process.ppid"@, FieldVal::U64(raw.ppid as u64)),
            ("process.exit_code"@, FieldVal::I64(raw.exit_code as i64)),
        ]
    } else if raw.event_type == 3 {
        entity + seq![("file.operation"@, FieldVal::Text("open"@)), pid] + opt_text(
            "file.path"@,
            path_text(data, 0, raw.path_len as int),
        )
    } else if raw.event_type == 4 {
        entity + seq![("file.operation"@, FieldVal::Text("rename"@)), pid]
    } else if raw.event_type == 5 {
        entity + seq![("file.operation"@, FieldVal::Text("unlink"@)), pid]
    } else if raw.event_type == 6 {
        entity + seq![("network.operation"@, FieldVal::Text("connect"@)), pid]
    } else {
        entity + seq![("network.operation"@, FieldVal::Text("send"@)), pid]
    }
}

/// The candidate fields of an execve record.
pub open spec fn execve_candidates(e: ExecveEvent) -> Seq<(Seq<char>, FieldVal)> {
    seq![
        ("process.entity_id"@, FieldVal::U64(e.entity_key as u64)),
        ("process.operation"@, FieldVal::Text("exec"@)),
        ("process.pid"@, FieldVal::U64(e.pid as u64)),
        ("process.ppid"@, FieldVal::U64(e.ppid as u64)),
        ("process.uid"@, FieldVal::U64(e.uid as u64)),
        ("process.gid"@, FieldVal::U64(e.gid as u64)),
    ] + opt_text("process.name"@, c_str_text(e.comm@)) + opt_text(
        "process.executable"@,
        c_str_text(e.pathname@),
    ) + opt_text("process.command_line"@, c_str_text(e.args@))
}

/// Operation name of a live process record.
pub open spec fn process_operation(subtype: u32) -> Seq<char> {
    if subtype == 1 {
        "exec"@
    } else if subtype == 2 {
        "exit"@
    } else {
        "unknown"@
    }
}

/// The candidate fields of a live process record.
pub open spec fn live_process_candidates(e: LiveEvent) -> Seq<(Seq<char>, FieldVal)> {
    seq![
        ("process.entity_id"@, FieldVal::U64(e.entity_key as u64)),
        ("process.operation"@, FieldVal::Text(process_operation(e.subtype))),
        ("process.pid"@, FieldVal::U64(e.pid as u64)),
        ("process.ppid"@, FieldVal::U64(e.ppid as u64)),
        ("process.uid"@, FieldVal::U64(e.uid as u64)),
        ("process.gid"@, FieldVal::U64(e.gid as u64)),
    ] + opt_text("process.name"@, c_str_text(e.comm@)) + opt_text(
        "process.executable"@,
        c_str_text(e.primary@),
    ) + opt_text("process.command_line"@, c_str_text(e.secondary@)) + (if e.subtype == 2 {
        seq![("process.exit_code"@, FieldVal::I64((e.aux_u32_1 as i32) as i64))]
    } else {
        Seq::empty()
    })
}

/// Full path of a file given by its directory, if any, and its name.
pub open spec fn joined_path(dir: Option<Seq<char>>, name: Seq<char>) -> Seq<char> {
    match dir {
        Some(d) => trim_end_slashes(d) + "/"@ + name,
        None => name,
    }
}

/// The candidate fields of a live file record.
pub open spec fn live_file_candidates(e: LiveEvent) -> Seq<(Seq<char>, FieldVal)> {
    let dir = c_str_text(e.secondary@);
    let name = c_str_text(e.primary@);
    seq![
        ("process.entity_id"@, FieldVal::U64(e.entity_key as u64)),
        ("file.operation"@, FieldVal::Text(if e.subtype == 1 { "open"@ } else { "unknown"@ })),
        ("process.pid"@, FieldVal::U64(e.pid as u64)),
    ] + opt_text("file.directory"@, dir) + (match name {
        Some(n) => seq![
            ("file.name"@, FieldVal::Text(n)),
            ("file.path"@, FieldVal::Text(joined_path(dir, n))),
        ],
        None => Seq::empty(),
    }) + (if e.aux_u64_1 > 0 {
        seq![("file.inode"@, FieldVal::U64(e.aux_u64_1))]
    } else {
        Seq::empty()
    })
}

/// The candidate fields of a live network record whose destination address
/// has the octets `ip`.
pub open spec fn live_network_candidates(e: LiveEvent, ip: Seq<u8>) -> Seq<(Seq<char>, FieldVal)> {
    let family = e.aux_u32_1 / 65536;
    let port = e.aux_u32_1 % 65536;
    seq![
        ("process.entity_id"@, FieldVal::U64(e.entity_key as u64)),
        ("network.operation"@, FieldVal::Text(if e.subtype == 1 { "connect"@ } else { "unknown"@ })),
        ("process.pid"@, FieldVal::U64(e.pid as u64)),
    ] + (if family == 2 {
        seq![("network.destination"@, FieldVal::Text(dotted_quad(ip)))]
    } else {
        Seq::empty()
    }) + (if port > 0 {
        seq![("network.dest_port"@, FieldVal::U64(port as u64))]
    } else {
        Seq::empty()
    })
}

/// `err` is a normalization error whose message is `prefix` followed by the
/// record type `t` in decimal.
pub open spec fn is_type_error(err: EbpfError, prefix: Seq<char>, t: u32) -> bool {
    err matches EbpfError::NormalizationError(m) && m@ == prefix + decimal(t as nat)
}

/// Wraps `u32::to_ne_bytes`: the bytes of `x` in the machine's own order,
/// which is little- or big-endian.
#[verifier::external_body]
pub(crate) fn ne_bytes(x: u32) -> (r: [u8; 4])
    ensures
        r@ == le_bytes(x) || r@ == be_bytes(x),
{
    x.to_ne_bytes()
}

/// Renders four octets as a dotted-quad address.
fn format_ipv4(b: [u8; 4]) -> (r: String)
    ensures
        r@ == dotted_quad(b@),
{
    let mut out = String::new();
    push_decimal(&mut out, b[0] as u128);
    out.append(".");
    push_decimal(&mut out, b[1] as u128);
    out.append(".");
    push_decimal(&mut out, b[2] as u128);
    out.append(".");
    push_decimal(&mut out, b[3] as u128);
    out
}

/// Encoding a sequence of characters encodes each part in turn.
proof fn lemma_encode_concat(a: Seq<char>, b: Seq<char>)
    ensures
        encode_utf8(a + b) == encode_utf8(a) + encode_utf8(b),
    decreases a.len(),
{
    if a.len() > 0 {
        assert((a + b).drop_first() =~= a.drop_first() + b);
        lemma_encode_concat(a.drop_first(), b);
        assert(encode_utf8(a + b) =~= encode_utf8(a) + encode_utf8(b));
    } else {
        assert(a + b =~= b);
    }
}

/// A slash is encoded as the single byte 0x2F.
proof fn lemma_encode_slash()
    ensures
        encode_utf8(seq!['/']) == seq![0x2Fu8],
{
    assert(0x2Fu32 & 0x7Fu32 == 0x2Fu32) by (bit_vector);
    assert(('/' as u32) == 0x2Fu32);
    assert(seq!['/'].drop_first() =~= Seq::<char>::empty());
    assert(encode_utf8(Seq::<char>::empty()) =~= Seq::<u8>::empty());
    assert(encode_scalar(('/' as u32)) =~= seq![0x2Fu8]);
    assert(encode_utf8(seq!['/']) == encode_scalar(('/' as u32)) + encode_utf8(Seq::<char>::empty()));
    assert(encode_utf8(seq!['/']) =~= seq![0x2Fu8]);
}

/// `n` slashes are encoded as `n` bytes 0x2F.
proof fn lemma_encode_slashes(n: nat)
    ensures
        encode_utf8(slashes(n)) == Seq::new(n, |i: int| 0x2Fu8),
    decreases n,
{
    if n > 0 {
        lemma_encode_slashes((n - 1) as nat);
        lemma_encode_slash();
        assert(slashes(n) =~= seq!['/'] + slashes((n - 1) as nat));
        lemma_encode_concat(seq!['/'], slashes((n - 1) as nat));
        assert(encode_utf8(slashes(n)) =~= Seq::new(n, |i: int| 0x2Fu8));
    } else {
        assert(slashes(n) =~= Seq::<char>::empty());
        assert(Seq::new(n, |i: int| 0x2Fu8) =~= Seq::<u8>::empty());
    }
}

/// Trailing slashes added to a text go when the slashes are trimmed.
proof fn lemma_trim_slashes_suffix(p: Seq<char>, n: nat)
    ensures
        trim_end_slashes(p + slashes(n)) == trim_end_slashes(p),
    decreases n,
{
    if n > 0 {
        let s = p + slashes(n);
        assert(s.last() == '/');
        assert(s.drop_last() =~= p + slashes((n - 1) as nat));
        lemma_trim_slashes_suffix(p, (n - 1) as nat);
    } else {
        assert(p + slashes(n) =~= p);
    }
}

/// Trimming the trailing slashes of the text of `d` gives the text of its
/// first `k` bytes, when all bytes from `k` on are slashes and the one
/// before is not.
proof fn lemma_trim_bytes(d: Seq<u8>, k: int)
    requires
        valid_utf8(d),
        0 <= k <= d.len(),
        forall|j: int| k <= j < d.len() ==> d[j] == 0x2F,
        k > 0 ==> d[k - 1] != 0x2F,
    ensures
        valid_utf8(d.subrange(0, k)),
        trim_end_slashes(decode_utf8(d)) == decode_utf8(d.subrange(0, k)),
{
    let n = (d.len() - k) as nat;
    let tail = d.subrange(k, d.len() as int);
    assert(is_char_boundary(d, k)) by {
        if k == d.len() {
            is_char_boundary_start_end_of_seq(d);
        } else {
            is_char_boundary_iff_not_is_continuation_byte(d, k);
        }
    }
    valid_utf8_split(d, k);
    decode_utf8_split(d, k);
    let p = d.subrange(0, k);
    let pc = decode_utf8(p);
    assert(tail =~= Seq::new(n, |i: int| 0x2Fu8));
    lemma_encode_slashes(n);
    encode_utf8_decode_utf8(slashes(n));
    assert(decode_utf8(tail) == slashes(n));
    lemma_trim_slashes_suffix(pc, n);
    if pc.len() > 0 && pc.last() == '/' {
        decode_utf8_encode_utf8(p);
        assert(pc =~= pc.drop_last() + seq!['/']);
        lemma_encode_concat(pc.drop_last(), seq!['/']);
        lemma_encode_slash();
        assert(p.last() == 0x2F);
        assert(false);
    }
}

/// `dir/name`, with the trailing slashes of the directory text held as a C
/// string in `dir_buf` dropped.
fn join_path(dir_buf: &[u8], name: &str) -> (r: String)
    requires
        c_str_text(dir_buf@) is Some,
    ensures
        r@ == joined_path(c_str_text(dir_buf@), name@),
{
    let end = c_str_end(dir_buf);
    let (d, _rest) = dir_buf.split_at(end);
    assert(d@ == c_str_bytes(dir_buf@));
    let mut k: usize = end;
    while k > 0 && d[k - 1] == 0x2F
        invariant
            k <= end,
            end == d@.len(),
            forall|j: int| k <= j < end ==> d@[j] == 0x2F,
        decreases k,
    {
        k = k - 1;
    }
    proof {
        lemma_trim_bytes(d@, k as int);
    }
    let (p, _slashes) = d.split_at(k);
    assert(p@ == d@.subrange(0, k as int));
    match str_from_utf8(p) {
        Some(ps) => {
            proof {
                decode_utf8_encode_utf8(p@);
                encode_utf8_decode_utf8(ps@);
            }
            let mut out = ps.to_owned();
            out.append("/");
            out.append(name);
            out
        },
        None => {
            // `p` is valid UTF-8, so the decoding cannot fail.
            assert(false);
            String::new()
        },
    }
}

/// Normalizes kernel records into events with the fields a schema knows.
pub struct EventNormalizer {
    schema: FieldSchema,
}

impl EventNormalizer {
    /// A normalizer over `schema`.
    pub fn new(schema: FieldSchema) -> (n: Self)
        ensures
            n.schema_spec() == schema,
    {
        EventNormalizer { schema }
    }

    /// The schema whose field ids events carry.
    pub closed spec fn schema_spec(&self) -> FieldSchema {
        self.schema
    }

    /// The schema whose field ids events carry.
    pub fn schema(&self) -> (r: &FieldSchema)
        ensures
            *r == self.schema_spec(),
    {
        &self.schema
    }

    /// Normalizes a raw record whose variable-length data follows in `data`:
    /// the record types 1 to 7 give a process, file or network event with
    /// event id 0; any other type is an error.
    pub fn normalize(&self, raw: &RawEbpfEvent, data: &[u8]) -> (r: Result<Event, EbpfError>)
        ensures
            1 <= raw.event_type <= 7 ==> (r matches Ok(e) && event_is(
                e,
                0,
                raw_type_id(raw.event_type),
                raw.ts_mono_ns,
                raw.entity_key as u128,
                "ebpf"@,
                schema_fields(self.schema_spec(), raw_candidates(*raw, data@)),
            )),
            !(1 <= raw.event_type <= 7) ==> (r matches Err(err) && is_type_error(
                err,
                "Unknown event type: "@,
                raw.event_type,
            )),
    {
        match raw.event_type {
            1 => Ok(self.normalize_process_exec(raw, data)),
            2 => Ok(self.normalize_process_exit(raw, data)),
            3 => Ok(self.normalize_file_open(raw, data)),
            4 => Ok(self.normalize_file_rename(raw, data)),
            5 => Ok(self.normalize_file_unlink(raw, data)),
            6 => Ok(self.normalize_network_connect(raw, data)),
            7 => Ok(self.normalize_network_send(raw, data)),
            _ => {
                let mut msg = String::new();
                msg.append("Unknown event type: ");
                push_decimal(&mut msg, raw.event_type as u128);
                Err(EbpfError::NormalizationError(msg))
            },
        }
    }

    /// The event of a raw record: header from the record, the given type,
    /// and the fields the schema knows among `fields`.
    fn raw_event(&self, raw: &RawEbpfEvent, type_id: u16, fields: Vec<(u32, TypedValue)>) -> (e: Event)
        ensures
            e.event_id == 0,
            e.event_type_id == type_id,
            e.ts_mono_ns == raw.ts_mono_ns,
            e.ts_wall_ns == raw.ts_mono_ns,
            e.entity_key == raw.entity_key as u128,
            e.source_id matches Some(s) && s@ == "ebpf"@,
            e.fields == fields,
    {
        Event {
            event_id: 0,
            event_type_id: type_id,
            ts_mono_ns: raw.ts_mono_ns,
            ts_wall_ns: raw.ts_mono_ns,
            entity_key: raw.entity_key as u128,
            source_id: Some("ebpf".to_owned()),
            fields,
        }
    }

    /// Fields for the entity, an operation and the process id.
    fn base_fields(&self, raw: &RawEbpfEvent, op_field: &str, op: &str) -> (r: Vec<(u32, TypedValue)>)
        ensures
            fields_view(r@) == schema_fields(
                self.schema,
                seq![
                    ("process.entity_id"@, FieldVal::U64(raw.entity_key)),
                    (op_field@, FieldVal::Text(op@)),
                    ("process.pid"@, FieldVal::U64(raw.pid as u64)),
                ],
            ),
    {
        let mut fields: Vec<(u32, TypedValue)> = Vec::new();
        let ghost mut c: Seq<(Seq<char>, FieldVal)> = Seq::empty();
        assert(fields_view(fields@) =~= schema_fields(self.schema, c));
        add_field(&self.schema, &mut fields, Ghost(c), "process.entity_id", TypedValue::U64(raw.entity_key));
        proof { c = c.push(("process.entity_id"@, FieldVal::U64(raw.entity_key))); }
        add_field(&self.schema, &mut fields, Ghost(c), op_field, TypedValue::Text(op.to_owned()));
        proof { c = c.push((op_field@, FieldVal::Text(op@))); }
        add_field(&self.schema, &mut fields, Ghost(c), "process.pid", TypedValue::U64(raw.pid as u64));
        proof { c = c.push(("process.pid"@, FieldVal::U64(raw.pid as u64))); }
        assert(c =~= seq![
            ("process.entity_id"@, FieldVal::U64(raw.entity_key)),
            (op_field@, FieldVal::Text(op@)),
            ("process.pid"@, FieldVal::U64(raw.pid as u64)),
        ]);
        fields
    }

    fn normalize_process_exec(&self, raw: &RawEbpfEvent, data: &[u8]) -> (e: Event)
        requires
            raw.event_type == 1,
        ensures
            event_is(e, 0, 1, raw.ts_mono_ns, raw.entity_key as u128, "ebpf"@, schema_fields(
                self.schema_spec(),
                raw_candidates(*raw, data@),
            )),
    {
        let mut fields = self.base_fields(raw, "process.operation", "exec");
        let ghost mut c: Seq<(Seq<char>, FieldVal)> = seq![
            ("process.entity_id"@, FieldVal::U64(raw.entity_key)),
            ("process.operation"@, FieldVal::Text("exec"@)),
            ("process.pid"@, FieldVal::U64(raw.pid as u64)),
        ];
        add_field(&self.schema, &mut fields, Ghost(c), "process.ppid", TypedValue::U64(raw.ppid as u64));
        proof { c = c.push(("process.ppid"@, FieldVal::U64(raw.ppid as u64))); }
        add_field(&self.schema, &mut fields, Ghost(c), "process.uid", TypedValue::U64(raw.uid as u64));
        proof { c = c.push(("process.uid"@, FieldVal::U64(raw.uid as u64))); }
        add_field(&self.schema, &mut fields, Ghost(c), "process.gid", TypedValue::U64(raw.gid as u64));
        proof { c = c.push(("process.gid"@, FieldVal::U64(raw.gid as u64))); }
        if let Some(path) = self.parse_path(data, 0, raw.path_len as usize) {
            let ghost pv = path@;
            add_field(&self.schema, &mut fields, Ghost(c), "process.executable", TypedValue::Text(path));
            proof { c = c.push(("process.executable"@, FieldVal::Text(pv))); }
        }
        if let Some(cmd) = self.parse_path(data, raw.path_len as usize, raw.cmdline_len as usize) {
            let ghost cv = cmd@;
            add_field(&self.schema, &mut fields, Ghost(c), "process.command_line", TypedValue::Text(cmd));
            proof { c = c.push(("process.command_line"@, FieldVal::Text(cv))); }
        }
        assert(c =~= raw_candidates(*raw, data@));
        self.raw_event(raw, 1, fields)
    }

    fn normalize_process_exit(&self, raw: &RawEbpfEvent, data: &[u8]) -> (e: Event)
        requires
            raw.event_type == 2,
        ensures
            event_is(e, 0, 1, raw.ts_mono_ns, raw.entity_key as u128, "ebpf"@, schema_fields(
                self.schema_spec(),
                raw_candidates(*raw, data@),
            )),
    {
        let mut fields = self.base_fields(raw, "process.operation", "exit");
        let ghost mut c: Seq<(Seq<char>, FieldVal)> = seq![
            ("process.entity_id"@, FieldVal::U64(raw.entity_key)),
            ("process.operation"@, FieldVal::Text("exit"@)),
            ("process.pid"@, FieldVal::U64(raw.pid as u64)),
        ];
        add_field(&self.schema, &mut fields, Ghost(c), "process.ppid", TypedValue::U64(raw.ppid as u64));
        proof { c = c.push(("process.ppid"@, FieldVal::U64(raw.ppid as u64))); }
        add_field(&self.schema, &mut fields, Ghost(c), "process.exit_code", TypedValue::I64(raw.exit_code as i64));
        proof { c = c.push(("process.exit_code"@, FieldVal::I64(raw.exit_code as i64))); }
        assert(c =~= raw_candidates(*raw, data@));
        self.raw_event(raw, 1, fields)
    }

    fn normalize_file_open(&self, raw: &RawEbpfEvent, data: &[u8]) -> (e: Event)
        requires
            raw.event_type == 3,
        ensures
            event_is(e, 0, 3, raw.ts_mono_ns, raw.entity_key as u128, "ebpf"@, schema_fields(
                self.schema_spec(),
                raw_candidates(*raw, data@),
            )),
    {
        let mut fields = self.base_fields(raw, "file.operation", "open");
        let ghost mut c: Seq<(Seq<char>, FieldVal)> = seq![
            ("process.entity_id"@, FieldVal::U64(raw.entity_key)),
            ("file.operation"@, FieldVal::Text("open"@)),
            ("process.pid"@, FieldVal::U64(raw.pid as u64)),
        ];
        if let Some(path) = self.parse_path(data, 0, raw.path_len as usize) {
            let ghost pv = path@;
            add_field(&self.schema, &mut fields, Ghost(c), "file.path", TypedValue::Text(path));
            proof { c = c.push(("file.path"@, FieldVal::Text(pv))); }
        }
        assert(c =~= raw_candidates(*raw, data@));
        self.raw_event(raw, 3, fields)
    }

    fn normalize_file_rename(&self, raw: &RawEbpfEvent, data: &[u8]) -> (e: Event)
        requires
            raw.event_type == 4,
        ensures
            event_is(e, 0, 3, raw.ts_mono_ns, raw.entity_key as u128, "ebpf"@, schema_fields(
                self.schema_spec(),
                raw_candidates(*raw, data@),
            )),
    {
        let fields = self.base_fields(raw, "file.operation", "rename");
        assert(raw_candidates(*raw, data@) =~= seq![
            ("process.entity_id"@, FieldVal::U64(raw.entity_key)),
            ("file.operation"@, FieldVal::Text("rename"@)),
            ("process.pid"@, FieldVal::U64(raw.pid as u64)),
        ]);
        self.raw_event(raw, 3, fields)
    }

    fn normalize_file_unlink(&self, raw: &RawEbpfEvent, data: &[u8]) -> (e: Event)
        requires
            raw.event_type == 5,
        ensures
            event_is(e, 0, 3, raw.ts_mono_ns, raw.entity_key as u128, "ebpf"@, schema_fields(
                self.schema_spec(),
                raw_candidates(*raw, data@),
            )),
    {
        let fields = self.base_fields(raw, "file.operation", "unlink");
        assert(raw_candidates(*raw, data@) =~= seq![
            ("process.entity_id"@, FieldVal::U64(raw.entity_key)),
            ("file.operation"@, FieldVal::Text("unlink"@)),
            ("process.pid"@, FieldVal::U64(raw.pid as u64)),
        ]);
        self.raw_event(raw, 3, fields)
    }

    fn normalize_network_connect(&self, raw: &RawEbpfEvent, data: &[u8]) -> (e: Event)
        requires
            raw.event_type == 6,
        ensures
            event_is(e, 0, 6, raw.ts_mono_ns, raw.entity_key as u128, "ebpf"@, schema_fields(
                self.schema_spec(),
                raw_candidates(*raw, data@),
            )),
    {
        let fields = self.base_fields(raw, "network.operation", "connect");
        assert(raw_candidates(*raw, data@) =~= seq![
            ("process.entity_id"@, FieldVal::U64(raw.entity_key)),
            ("network.operation"@, FieldVal::Text("connect"@)),
            ("process.pid"@, FieldVal::U64(raw.pid as u64)),
        ]);
        self.raw_event(raw, 6, fields)
    }

    fn normalize_network_send(&self, raw: &RawEbpfEvent, data: &[u8]) -> (e: Event)
        requires
            raw.event_type == 7,
        ensures
            event_is(e, 0, 6, raw.ts_mono_ns, raw.entity_key as u128, "ebpf"@, schema_fields(
                self.schema_spec(),
                raw_candidates(*raw, data@),
            )),
    {
        let fields = self.base_fields(raw, "network.operation", "send");
        assert(raw_candidates(*raw, data@) =~= seq![
            ("process.entity_id"@, FieldVal::U64(raw.entity_key)),
            ("network.operation"@, FieldVal::Text("send"@)),
            ("process.pid"@, FieldVal::U64(raw.pid as u64)),
        ]);
        self.raw_event(raw, 6, fields)
    }

    /// Normalizes a live record from the shared ring buffer: process (1),
    /// file (3) and network (6) records give an event with id `event_id`;
    /// any other type is an error. The destination address of a network
    /// record is read in the machine's byte order.
    pub fn normalize_live_event(&self, event: &LiveEvent, event_id: u64) -> (r: Result<
        Event,
        EbpfError,
    >)
        ensures
            event.event_type == 1 ==> (r matches Ok(e) && event_is(
                e,
                event_id,
                1,
                event.ts_mono_ns,
                event.entity_key as u128,
                "ebpf"@,
                schema_fields(self.schema_spec(), live_process_candidates(*event)),
            )),
            event.event_type == 3 ==> (r matches Ok(e) && event_is(
                e,
                event_id,
                3,
                event.ts_mono_ns,
                event.entity_key as u128,
                "ebpf"@,
                schema_fields(self.schema_spec(), live_file_candidates(*event)),
            )),
            event.event_type == 6 ==> (r matches Ok(e) && (event_is(
                e,
                event_id,
                6,
                event.ts_mono_ns,
                event.entity_key as u128,
                "ebpf"@,
                schema_fields(
                    self.schema_spec(),
                    live_network_candidates(*event, le_bytes(event.aux_u32_2)),
                ),
            ) || event_is(
                e,
                event_id,
                6,
                event.ts_mono_ns,
                event.entity_key as u128,
                "ebpf"@,
                schema_fields(
                    self.schema_spec(),
                    live_network_candidates(*event, be_bytes(event.aux_u32_2)),
                ),
            ))),
            event.event_type != 1 && event.event_type != 3 && event.event_type != 6 ==> (
            r matches Err(err) && is_type_error(
                err,
                "Unsupported live event type: "@,
                event.event_type,
            )),
    {
        if event.event_type == 1 {
            Ok(self.normalize_live_process_event(event, event_id))
        } else if event.event_type == 3 {
            Ok(self.normalize_live_file_event(event, event_id))
        } else if event.event_type == 6 {
            Ok(self.normalize_live_network_event(event, event_id))
        } else {
            let mut msg = String::new();
            msg.append("Unsupported live event type: ");
            push_decimal(&mut msg, event.event_type as u128);
            Err(EbpfError::NormalizationError(msg))
        }
    }

    /// Normalizes an execve record into a process event with id `event_id`.
    pub fn normalize_execve_event(&self, exec: &ExecveEvent, event_id: u64) -> (r: Result<
        Event,
        EbpfError,
    >)
        ensures
            r matches Ok(e) && event_is(
                e,
                event_id,
                1,
                exec.ts_mono_ns,
                exec.entity_key as u128,
                "ebpf"@,
                schema_fields(self.schema_spec(), execve_candidates(*exec)),
            ),
    {
        let mut fields: Vec<(u32, TypedValue)> = Vec::new();
        let ghost mut c: Seq<(Seq<char>, FieldVal)> = Seq::empty();
        assert(fields_view(fields@) =~= schema_fields(self.schema, c));
        add_field(&self.schema, &mut fields, Ghost(c), "process.entity_id", TypedValue::U64(exec.entity_key as u64));
        proof { c = c.push(("process.entity_id"@, FieldVal::U64(exec.entity_key as u64))); }
        add_field(&self.schema, &mut fields, Ghost(c), "process.operation", TypedValue::Text("exec".to_owned()));
        proof { c = c.push(("process.operation"@, FieldVal::Text("exec"@))); }
        add_field(&self.schema, &mut fields, Ghost(c), "process.pid", TypedValue::U64(exec.pid as u64));
        proof { c = c.push(("process.pid"@, FieldVal::U64(exec.pid as u64))); }
        add_field(&self.schema, &mut fields, Ghost(c), "process.ppid", TypedValue::U64(exec.ppid as u64));
        proof { c = c.push(("process.ppid"@, FieldVal::U64(exec.ppid as u64))); }
        add_field(&self.schema, &mut fields, Ghost(c), "process.uid", TypedValue::U64(exec.uid as u64));
        proof { c = c.push(("process.uid"@, FieldVal::U64(exec.uid as u64))); }
        add_field(&self.schema, &mut fields, Ghost(c), "process.gid", TypedValue::U64(exec.gid as u64));
        proof { c = c.push(("process.gid"@, FieldVal::U64(exec.gid as u64))); }
        let ghost c0 = c;
        if let Some(comm) = self.parse_bytes(exec.comm.as_slice()) {
            let ghost v = comm@;
            add_field(&self.schema, &mut fields, Ghost(c), "process.name", TypedValue::Text(comm));
            proof { c = c.push(("process.name"@, FieldVal::Text(v))); }
        }
        assert(c =~= c0 + opt_text("process.name"@, c_str_text(exec.comm@)));
        let ghost c1 = c;
        if let Some(path) = self.parse_bytes(exec.pathname.as_slice()) {
            let ghost v = path@;
            add_field(&self.schema, &mut fields, Ghost(c), "process.executable", TypedValue::Text(path));
            proof { c = c.push(("process.executable"@, FieldVal::Text(v))); }
        }
        assert(c =~= c1 + opt_text("process.executable"@, c_str_text(exec.pathname@)));
        let ghost c2 = c;
        if let Some(args) = self.parse_bytes(exec.args.as_slice()) {
            let ghost v = args@;
            add_field(&self.schema, &mut fields, Ghost(c), "process.command_line", TypedValue::Text(args));
            proof { c = c.push(("process.command_line"@, FieldVal::Text(v))); }
        }
        assert(c =~= c2 + opt_text("process.command_line"@, c_str_text(exec.args@)));
        assert(c =~= execve_candidates(*exec));
        Ok(Event {
            event_id,
            event_type_id: 1,
            ts_mono_ns: exec.ts_mono_ns,
            ts_wall_ns: exec.ts_mono_ns,
            entity_key: exec.entity_key as u128,
            source_id: Some("ebpf".to_owned()),
            fields,
        })
    }

    fn normalize_live_process_event(&self, event: &LiveEvent, event_id: u64) -> (e: Event)
        ensures
            event_is(
                e,
                event_id,
                1,
                event.ts_mono_ns,
                event.entity_key as u128,
                "ebpf"@,
                schema_fields(self.schema_spec(), live_process_candidates(*event)),
            ),
    {
        let mut fields: Vec<(u32, TypedValue)> = Vec::new();
        let ghost mut c: Seq<(Seq<char>, FieldVal)> = Seq::empty();
        assert(fields_view(fields@) =~= schema_fields(self.schema, c));
        add_field(&self.schema, &mut fields, Ghost(c), "process.entity_id", TypedValue::U64(event.entity_key as u64));
        proof { c = c.push(("process.entity_id"@, FieldVal::U64(event.entity_key as u64))); }
        let op = if event.subtype == 1 {
            "exec"
        } else if event.subtype == 2 {
            "exit"
        } else {
            "unknown"
        };
        add_field(&self.schema, &mut fields, Ghost(c), "process.operation", TypedValue::Text(op.to_owned()));
        proof { c = c.push(("process.operation"@, FieldVal::Text(op@))); }
        add_field(&self.schema, &mut fields, Ghost(c), "process.pid", TypedValue::U64(event.pid as u64));
        proof { c = c.push(("process.pid"@, FieldVal::U64(event.pid as u64))); }
        add_field(&self.schema, &mut fields, Ghost(c), "process.ppid", TypedValue::U64(event.ppid as u64));
        proof { c = c.push(("process.ppid"@, FieldVal::U64(event.ppid as u64))); }
        add_field(&self.schema, &mut fields, Ghost(c), "process.uid", TypedValue::U64(event.uid as u64));
        proof { c = c.push(("process.uid"@, FieldVal::U64(event.uid as u64))); }
        add_field(&self.schema, &mut fields, Ghost(c), "process.gid", TypedValue::U64(event.gid as u64));
        proof { c = c.push(("process.gid"@, FieldVal::U64(event.gid as u64))); }
        let ghost c0 = c;
        if let Some(comm) = self.parse_bytes(event.comm.as_slice()) {
            let ghost v = comm@;
            add_field(&self.schema, &mut fields, Ghost(c), "process.name", TypedValue::Text(comm));
            proof { c = c.push(("process.name"@, FieldVal::Text(v))); }
        }
        assert(c =~= c0 + opt_text("process.name"@, c_str_text(event.comm@)));
        let ghost c1 = c;
        if let Some(path) = self.parse_bytes(event.primary.as_slice()) {
            let ghost v = path@;
            add_field(&self.schema, &mut fields, Ghost(c), "process.executable", TypedValue::Text(path));
            proof { c = c.push(("process.executable"@, FieldVal::Text(v))); }
        }
        assert(c =~= c1 + opt_text("process.executable"@, c_str_text(event.primary@)));
        let ghost c2 = c;
        if let Some(args) = self.parse_bytes(event.secondary.as_slice()) {
            let ghost v = args@;
            add_field(&self.schema, &mut fields, Ghost(c), "process.command_line", TypedValue::Text(args));
            proof { c = c.push(("process.command_line"@, FieldVal::Text(v))); }
        }
        assert(c =~= c2 + opt_text("process.command_line"@, c_str_text(event.secondary@)));
        let ghost c3 = c;
        if event.subtype == 2 {
            let code = event.aux_u32_1 as i32 as i64;
            add_field(&self.schema, &mut fields, Ghost(c), "process.exit_code", TypedValue::I64(code));
            proof { c = c.push(("process.exit_code"@, FieldVal::I64(code))); }
        }
        assert(c =~= live_process_candidates(*event));
        Event {
            event_id,
            event_type_id: 1,
            ts_mono_ns: event.ts_mono_ns,
            ts_wall_ns: event.ts_mono_ns,
            entity_key: event.entity_key as u128,
            source_id: Some("ebpf".to_owned()),
            fields,
        }
    }

    fn normalize_live_file_event(&self, event: &LiveEvent, event_id: u64) -> (e: Event)
        ensures
            event_is(
                e,
                event_id,
                3,
                event.ts_mono_ns,
                event.entity_key as u128,
                "ebpf"@,
                schema_fields(self.schema_spec(), live_file_candidates(*event)),
            ),
    {
        let mut fields: Vec<(u32, TypedValue)> = Vec::new();
        let ghost mut c: Seq<(Seq<char>, FieldVal)> = Seq::empty();
        assert(fields_view(fields@) =~= schema_fields(self.schema, c));
        add_field(&self.schema, &mut fields, Ghost(c), "process.entity_id", TypedValue::U64(event.entity_key as u64));
        proof { c = c.push(("process.entity_id"@, FieldVal::U64(event.entity_key as u64))); }
        let op = if event.subtype == 1 { "open" } else { "unknown" };
        add_field(&self.schema, &mut fields, Ghost(c), "file.operation", TypedValue::Text(op.to_owned()));
        proof { c = c.push(("file.operation"@, FieldVal::Text(op@))); }
        add_field(&self.schema, &mut fields, Ghost(c), "process.pid", TypedValue::U64(event.pid as u64));
        proof { c = c.push(("process.pid"@, FieldVal::U64(event.pid as u64))); }
        let name = self.parse_bytes(event.primary.as_slice());
        let directory = self.parse_bytes(event.secondary.as_slice());
        let ghost c0 = c;
        if let Some(dir) = &directory {
            let ghost v = dir@;
            add_field(&self.schema, &mut fields, Ghost(c), "file.directory", TypedValue::Text(dir.clone()));
            proof { c = c.push(("file.directory"@, FieldVal::Text(v))); }
        }
        assert(c =~= c0 + opt_text("file.directory"@, c_str_text(event.secondary@)));
        let ghost c1 = c;
        if let Some(n) = &name {
            let ghost v = n@;
            add_field(&self.schema, &mut fields, Ghost(c), "file.name", TypedValue::Text(n.clone()));
            proof { c = c.push(("file.name"@, FieldVal::Text(v))); }
            let path = match &directory {
                Some(_) => join_path(event.secondary.as_slice(), n.as_str()),
                None => n.clone(),
            };
            let ghost pv = path@;
            add_field(&self.schema, &mut fields, Ghost(c), "file.path", TypedValue::Text(path));
            proof { c = c.push(("file.path"@, FieldVal::Text(pv))); }
        }
        let ghost c2 = c;
        if event.aux_u64_1 > 0 {
            add_field(&self.schema, &mut fields, Ghost(c), "file.inode", TypedValue::U64(event.aux_u64_1));
            proof { c = c.push(("file.inode"@, FieldVal::U64(event.aux_u64_1))); }
        }
        assert(c =~= live_file_candidates(*event));
        Event {
            event_id,
            event_type_id: 3,
            ts_mono_ns: event.ts_mono_ns,
            ts_wall_ns: event.ts_mono_ns,
            entity_key: event.entity_key as u128,
            source_id: Some("ebpf".to_owned()),
            fields,
        }
    }

    fn normalize_live_network_event(&self, event: &LiveEvent, event_id: u64) -> (e: Event)
        ensures
            event_is(
                e,
                event_id,
                6,
                event.ts_mono_ns,
                event.entity_key as u128,
                "ebpf"@,
                schema_fields(
                    self.schema_spec(),
                    live_network_candidates(*event, le_bytes(event.aux_u32_2)),
                ),
            ) || event_is(
                e,
                event_id,
                6,
                event.ts_mono_ns,
                event.entity_key as u128,
                "ebpf"@,
                schema_fields(
                    self.schema_spec(),
                    live_network_candidates(*event, be_bytes(event.aux_u32_2)),
                ),
            ),
    {
        let octets = ne_bytes(event.aux_u32_2);
        let mut fields: Vec<(u32, TypedValue)> = Vec::new();
        let ghost mut c: Seq<(Seq<char>, FieldVal)> = Seq::empty();
        assert(fields_view(fields@) =~= schema_fields(self.schema, c));
        add_field(&self.schema, &mut fields, Ghost(c), "process.entity_id", TypedValue::U64(event.entity_key as u64));
        proof { c = c.push(("process.entity_id"@, FieldVal::U64(event.entity_key as u64))); }
        let op = if event.subtype == 1 { "connect" } else { "unknown" };
        add_field(&self.schema, &mut fields, Ghost(c), "network.operation", TypedValue::Text(op.to_owned()));
        proof { c = c.push(("network.operation"@, FieldVal::Text(op@))); }
        add_field(&self.schema, &mut fields, Ghost(c), "process.pid", TypedValue::U64(event.pid as u64));
        proof { c = c.push(("process.pid"@, FieldVal::U64(event.pid as u64))); }
        let aux = event.aux_u32_1;
        let family: u32 = aux >> 16;
        let port: u32 = aux & 0xFFFF;
        assert(family == aux / 65536 && port == aux % 65536) by (bit_vector)
            requires
                family == aux >> 16,
                port == aux & 0xFFFF,
        ;
        let ghost c0 = c;
        if family == 2 {
            let ip = format_ipv4(octets);
            let ghost v = ip@;
            add_field(&self.schema, &mut fields, Ghost(c), "network.destination", TypedValue::Text(ip));
            proof { c = c.push(("network.destination"@, FieldVal::Text(v))); }
        }
        let ghost c1 = c;
        if port > 0 {
            add_field(&self.schema, &mut fields, Ghost(c), "network.dest_port", TypedValue::U64(port as u64));
            proof { c = c.push(("network.dest_port"@, FieldVal::U64(port as u64))); }
        }
        assert(c =~= live_network_candidates(*event, octets@));
        Event {
            event_id,
            event_type_id: 6,
            ts_mono_ns: event.ts_mono_ns,
            ts_wall_ns: event.ts_mono_ns,
            entity_key: event.entity_key as u128,
            source_id: Some("ebpf".to_owned()),
            fields,
        }
    }

    /// Parses the C string held in `len` bytes of `data` from `offset`:
    /// nothing when the range runs past the data or the bytes are not UTF-8.
    pub fn parse_path(&self, data: &[u8], offset: usize, len: usize) -> (r: Option<String>)
        ensures
            r matches Some(s) ==> path_text(data@, offset as int, len as int) == Some(s@),
            r is None ==> path_text(data@, offset as int, len as int) is None,
    {
        let n = data.len();
        let end = match offset.checked_add(len) {
            Some(e) => e,
            None => return None,
        };
        if end > n {
            return None;
        }
        let (upto, _after) = data.split_at(end);
        let (_before, slice) = upto.split_at(offset);
        assert(slice@ == data@.subrange(offset as int, end as int));
        let stop = c_str_end(slice);
        let (bytes, _tail) = slice.split_at(stop);
        assert(bytes@ == c_str_bytes(slice@));
        match str_from_utf8(bytes) {
            Some(s) => {
                proof {
                    decode_utf8_encode_utf8(bytes@);
                    encode_utf8_decode_utf8(s@);
                }
                Some(s.to_owned())
            },
            None => None,
        }
    }

    /// Parses a NUL-terminated byte array: nothing for an empty string or
    /// for bytes that are not UTF-8.
    pub fn parse_bytes(&self, data: &[u8]) -> (r: Option<String>)
        ensures
            r matches Some(s) ==> c_str_text(data@) == Some(s@),
            r is None ==> c_str_text(data@) is None,
    {
        decode_c_str(data)
    }
}

/// Raw process and network records name what happened: type 1 a process
/// exec, type 2 an exit, type 6 a network connect, type 7 a send; every raw
/// record starts with its entity and reports its process id next to the
/// operation.
pub proof fn law_raw_records_name_their_operation(raw: RawEbpfEvent, data: Seq<u8>)
    requires
        1 <= raw.event_type <= 7,
    ensures
        raw_candidates(raw, data)[0] == ("process.entity_id"@, FieldVal::U64(raw.entity_key)),
        raw_candidates(raw, data)[2] == ("process.pid"@, FieldVal::U64(raw.pid as u64)),
        raw.event_type == 1 ==> raw_candidates(raw, data)[1] == ("process.operation"@, FieldVal::Text("exec"@)),
        raw.event_type == 2 ==> raw_candidates(raw, data)[1] == ("process.operation"@, FieldVal::Text("exit"@)),
        raw.event_type == 6 ==> raw_candidates(raw, data)[1] == ("network.operation"@, FieldVal::Text("connect"@)),
        raw.event_type == 7 ==> raw_candidates(raw, data)[1] == ("network.operation"@, FieldVal::Text("send"@)),
        raw.event_type == 1 || raw.event_type == 2 ==> raw_type_id(raw.event_type) == 1,
        3 <= raw.event_type <= 5 ==> raw_type_id(raw.event_type) == 3,
        raw.event_type == 6 || raw.event_type == 7 ==> raw_type_id(raw.event_type) == 6,
{
}

/// A candidate whose name the schema knows comes through under its id.
proof fn lemma_known_candidate_kept(schema: FieldSchema, cands: Seq<(Seq<char>, FieldVal)>, i: int)
    requires
        0 <= i < cands.len(),
        schema.field_id(cands[i].0) is Some,
    ensures
        schema_fields(schema, cands).contains((schema.field_id(cands[i].0)->0, cands[i].1)),
    decreases cands.len(),
{
    let rest = schema_fields(schema, cands.drop_last());
    if i == cands.len() - 1 {
        let out = rest.push((schema.field_id(cands[i].0)->0, cands[i].1));
        assert(out[out.len() - 1] == (schema.field_id(cands[i].0)->0, cands[i].1));
    } else {
        assert(cands.drop_last()[i] == cands[i]);
        lemma_known_candidate_kept(schema, cands.drop_last(), i);
        let w = choose|j: int| 0 <= j < rest.len() && rest[j] == (schema.field_id(cands[i].0)->0, cands[i].1);
        match schema.field_id(cands.last().0) {
            Some(id) => {
                assert(rest.push((id, cands.last().1))[w] == rest[w]);
            },
            None => {},
        }
    }
}

/// A raw file record reports what happened to the file: type 3 an open,
/// type 4 a rename, type 5 an unlink; where the schema knows
/// `file.operation`, the normalized event carries that text under its id.
pub proof fn law_file_records_name_their_operation(schema: FieldSchema, raw: RawEbpfEvent, data: Seq<u8>)
    requires
        3 <= raw.event_type <= 5,
    ensures
        raw.event_type == 3 ==> raw_candidates(raw, data)[1] == ("file.operation"@, FieldVal::Text("open"@)),
        raw.event_type == 4 ==> raw_candidates(raw, data)[1] == ("file.operation"@, FieldVal::Text("rename"@)),
        raw.event_type == 5 ==> raw_candidates(raw, data)[1] == ("file.operation"@, FieldVal::Text("unlink"@)),
        raw_candidates(raw, data)[0] == ("process.entity_id"@, FieldVal::U64(raw.entity_key)),
        raw_candidates(raw, data)[2] == ("process.pid"@, FieldVal::U64(raw.pid as u64)),
        schema.field_id("file.operation"@) matches Some(id) ==> schema_fields(schema, raw_candidates(raw, data)).contains(
            (
                id,
                FieldVal::Text(
                    if raw.event_type == 3 {
                        "open"@
                    } else if raw.event_type == 4 {
                        "rename"@
                    } else {
                        "unlink"@
                    },
                ),
            ),
        ),
{
    let cands = raw_candidates(raw, data);
    if schema.field_id("file.operation"@) is Some {
        lemma_known_candidate_kept(schema, cands, 1);
    }
}

} // verus!
