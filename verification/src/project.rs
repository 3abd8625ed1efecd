//! Event-log projector: flattens one uploaded event, together with the
//! machine identifier it came from, into an ordered flat list of key/value
//! fields, and renders that list as one self-contained JSON object suitable
//! for a line-delimited log.
//!
//! Field order is fixed: `machine_id` first, then every event field in
//! declaration order, with the nested signing chain expanded as
//! `signing_chain.{index}.{subfield}` in list order. Optional fields that
//! are absent are omitted entirely, never emitted as null or empty. The
//! list-valued fields `loggedin_users` and `current_sessions` are joined
//! with `", "` into a single value. A decision is rendered by its protocol
//! wire string.

use vstd::prelude::*;
use crate::event_upload::{Event, SigningChainObject, decision_wire_spec};
use crate::text::{dec_str, join_comma, join_comma_spec, string_push, u32_to_string, usize_to_string};

verus! {

broadcast use vstd::string::group_string_axioms;

/// A character a decimal number token may hold.
pub open spec fn is_number_char(c: char) -> bool {
    ('0' <= c <= '9') || c == '-' || c == '+' || c == '.' || c == 'e' || c == 'E'
}

/// The shape of a number as JSON spells one: non-empty, starting with a
/// digit or a minus sign, holding only digits, signs, a point or an
/// exponent marker. A `Num` field's value must have this shape, or the
/// spliced record would not be well-formed JSON.
pub open spec fn is_number_token(s: Seq<char>) -> bool {
    &&& s.len() > 0
    &&& ('0' <= s[0] <= '9' || s[0] == '-')
    &&& forall|i: int| 0 <= i < s.len() ==> is_number_char(#[trigger] s[i])
}

/// Tells whether a string has the shape of a number token; the JSON
/// boundary checks the renderings it hands in with this.
pub fn check_number_token(s: &str) -> (r: bool)
    ensures
        r == is_number_token(s@),
{
    let n = s.unicode_len();
    if n == 0 {
        return false;
    }
    let first = s.get_char(0);
    if !(('0' <= first && first <= '9') || first == '-') {
        return false;
    }
    let mut i: usize = 0;
    while i < n
        invariant
            n == s@.len(),
            i <= n,
            forall|j: int| 0 <= j < i ==> is_number_char(#[trigger] s@[j]),
        decreases n - i,
    {
        let c = s.get_char(i);
        if !(('0' <= c && c <= '9') || c == '-' || c == '+' || c == '.' || c == 'e' || c == 'E') {
            return false;
        }
        i += 1;
    }
    true
}

/// The projector's input invariant: the pre-rendered number fields carry
/// genuine number tokens.
pub open spec fn event_numbers_wf(e: Event) -> bool {
    &&& (e.execution_time matches Some(s) ==> is_number_token(s@))
    &&& (e.quarantine_timestamp matches Some(s) ==> is_number_token(s@))
}

/// One flattened key/value pair of a projected event record.
#[derive(Clone, Debug)]
pub struct LogField {
    pub key: String,
    pub value: FieldValue,
}

/// A field's value: text, rendered quoted and escaped, or a number,
/// spliced into the record as it stands.
#[derive(Clone, Debug)]
pub enum FieldValue {
    Text(String),
    Num(String),
}

/// The mathematical content of one field.
pub struct FieldModel {
    pub key: Seq<char>,
    pub value: ValueModel,
}

/// The mathematical content of a field's value.
pub enum ValueModel {
    Text(Seq<char>),
    Num(Seq<char>),
}

impl LogField {
    /// What this field holds.
    pub open spec fn model(self) -> FieldModel {
        FieldModel {
            key: self.key@,
            value: match self.value {
                FieldValue::Text(s) => ValueModel::Text(s@),
                FieldValue::Num(s) => ValueModel::Num(s@),
            },
        }
    }
}

/// The contents of a whole field list.
pub open spec fn models(fields: Seq<LogField>) -> Seq<FieldModel> {
    fields.map_values(|f: LogField| f.model())
}

/// A text field.
pub open spec fn text_field(key: Seq<char>, value: Seq<char>) -> FieldModel {
    FieldModel { key, value: ValueModel::Text(value) }
}

/// A numeric field.
pub open spec fn num_field(key: Seq<char>, value: Seq<char>) -> FieldModel {
    FieldModel { key, value: ValueModel::Num(value) }
}

/// An optional text field: present exactly when the value is.
pub open spec fn opt_text(key: Seq<char>, v: Option<String>) -> Seq<FieldModel> {
    match v {
        None => Seq::empty(),
        Some(s) => seq![text_field(key, s@)],
    }
}

/// An optional numeric field carried as its decimal rendering.
pub open spec fn opt_num(key: Seq<char>, v: Option<String>) -> Seq<FieldModel> {
    match v {
        None => Seq::empty(),
        Some(s) => seq![num_field(key, s@)],
    }
}

/// An optional numeric field holding an integer.
pub open spec fn opt_u32(key: Seq<char>, v: Option<u32>) -> Seq<FieldModel> {
    match v {
        None => Seq::empty(),
        Some(n) => seq![num_field(key, dec_str(n as nat))],
    }
}

/// The six fields of one signing-chain entry at a given position.
pub open spec fn chain_entry_fields(index: nat, c: SigningChainObject) -> Seq<FieldModel> {
    seq![
        text_field("signing_chain."@ + dec_str(index) + ".sha256"@, c.sha256@),
        text_field("signing_chain."@ + dec_str(index) + ".cn"@, c.cn@),
        text_field("signing_chain."@ + dec_str(index) + ".org"@, c.org@),
        text_field("signing_chain."@ + dec_str(index) + ".ou"@, c.ou@),
        num_field("signing_chain."@ + dec_str(index) + ".valid_from"@, dec_str(c.valid_from as nat)),
        num_field(
            "signing_chain."@ + dec_str(index) + ".valid_until"@,
            dec_str(c.valid_until as nat),
        ),
    ]
}

/// All fields of a signing chain, in list order.
pub open spec fn chain_fields(chain: Seq<SigningChainObject>) -> Seq<FieldModel>
    decreases chain.len(),
{
    if chain.len() == 0 {
        Seq::empty()
    } else {
        chain_fields(chain.drop_last()) + chain_entry_fields(
            (chain.len() - 1) as nat,
            chain.last(),
        )
    }
}

/// The full projection of one event for one machine: `machine_id` first,
/// then every event field in declaration order, absent optional fields
/// omitted, the signing chain expanded in place.
pub open spec fn project_spec(machine_id: Seq<char>, e: Event) -> Seq<FieldModel> {
    seq![text_field("machine_id"@, machine_id)] + seq![
        text_field("file_sha256"@, e.file_sha256@),
    ] + seq![text_field("file_path"@, e.file_path@)] + seq![
        text_field("file_name"@, e.file_name@),
    ] + opt_text("executing_user"@, e.executing_user) + opt_num(
        "execution_time"@,
        e.execution_time,
    ) + seq![
        text_field("loggedin_users"@, join_comma_spec(e.loggedin_users.deep_view())),
    ] + seq![
        text_field("current_sessions"@, join_comma_spec(e.current_sessions.deep_view())),
    ] + seq![
        text_field("decision"@, decision_wire_spec(e.decision)),
    ] + opt_text("file_bundle_id"@, e.file_bundle_id) + opt_text(
        "file_bundle_path"@,
        e.file_bundle_path,
    ) + opt_text("file_bundle_executable_rel_path"@, e.file_bundle_executable_rel_path) + opt_text(
        "file_bundle_name"@,
        e.file_bundle_name,
    ) + opt_text("file_bundle_version"@, e.file_bundle_version) + opt_text(
        "file_bundle_version_string"@,
        e.file_bundle_version_string,
    ) + opt_text("file_bundle_hash"@, e.file_bundle_hash) + opt_u32(
        "file_bundle_hash_millis"@,
        e.file_bundle_hash_millis,
    ) + opt_u32("file_bundle_binary_count"@, e.file_bundle_binary_count) + opt_u32(
        "pid"@,
        e.pid,
    ) + opt_u32("ppid"@, e.ppid) + opt_text("parent_name"@, e.parent_name) + opt_text(
        "quarantine_data_url"@,
        e.quarantine_data_url,
    ) + opt_text("quarantine_referer_url"@, e.quarantine_referer_url) + opt_num(
        "quarantine_timestamp"@,
        e.quarantine_timestamp,
    ) + opt_text("quarantine_agent_bundle_id"@, e.quarantine_agent_bundle_id) + chain_fields(
        e.signing_chain@,
    ) + opt_text("signing_id"@, e.signing_id) + opt_text("team_id"@, e.team_id) + opt_text(
        "cdhash"@,
        e.cdhash,
    )
}

/// Appends one text field.
fn push_text(out: &mut Vec<LogField>, key: String, value: &String)
    ensures
        models(final(out)@) == models(old(out)@) + seq![text_field(key@, value@)],
{
    let f = LogField { key, value: FieldValue::Text(value.clone()) };
    out.push(f);
    proof {
        assert(models(out@) =~= models(old(out)@) + seq![text_field(f.key@, value@)]);
    }
}

/// Appends one numeric field.
fn push_num(out: &mut Vec<LogField>, key: String, value: String)
    ensures
        models(final(out)@) == models(old(out)@) + seq![num_field(key@, value@)],
{
    let ghost v = value@;
    let f = LogField { key, value: FieldValue::Num(value) };
    out.push(f);
    proof {
        assert(models(out@) =~= models(old(out)@) + seq![num_field(f.key@, v)]);
    }
}

/// Appends a text field when the value is present.
fn push_opt_text(out: &mut Vec<LogField>, key: &str, v: &Option<String>)
    ensures
        models(final(out)@) == models(old(out)@) + opt_text(key@, *v),
{
    match v {
        None => {
            proof {
                assert(models(out@) =~= models(out@) + opt_text(key@, *v));
            }
        },
        Some(s) => {
            push_text(out, key.to_owned(), s);
        },
    }
}

/// Appends a pre-rendered numeric field when the value is present.
fn push_opt_num(out: &mut Vec<LogField>, key: &str, v: &Option<String>)
    ensures
        models(final(out)@) == models(old(out)@) + opt_num(key@, *v),
{
    match v {
        None => {
            proof {
                assert(models(out@) =~= models(out@) + opt_num(key@, *v));
            }
        },
        Some(s) => {
            push_num(out, key.to_owned(), s.clone());
        },
    }
}

/// Appends an integer field when the value is present.
fn push_opt_u32(out: &mut Vec<LogField>, key: &str, v: &Option<u32>)
    ensures
        models(final(out)@) == models(old(out)@) + opt_u32(key@, *v),
{
    match v {
        None => {
            proof {
                assert(models(out@) =~= models(out@) + opt_u32(key@, *v));
            }
        },
        Some(n) => {
            push_num(out, key.to_owned(), u32_to_string(*n));
        },
    }
}

/// Builds one signing-chain key, `signing_chain.{index}.{subfield}`.
fn chain_key(index: usize, subfield: &str) -> (r: String)
    ensures
        r@ == "signing_chain."@ + dec_str(index as nat) + subfield@,
{
    let mut key = "signing_chain.".to_owned();
    let idx = usize_to_string(index);
    key.append(idx.as_str());
    key.append(subfield);
    key
}

/// Projects one event into its ordered flat field list.
pub fn project_event(machine_id: &str, event: &Event) -> (r: Vec<LogField>)
    requires
        event_numbers_wf(*event),
    ensures
        models(r@) == project_spec(machine_id@, *event),
{
    let mut out: Vec<LogField> = Vec::new();
    proof {
        assert(models(out@) =~= Seq::<FieldModel>::empty());
    }
    push_text(&mut out, "machine_id".to_owned(), &machine_id.to_owned());
    proof {
        assert(models(out@) =~= seq![text_field("machine_id"@, machine_id@)]);
    }
    push_text(&mut out, "file_sha256".to_owned(), &event.file_sha256);
    push_text(&mut out, "file_path".to_owned(), &event.file_path);
    push_text(&mut out, "file_name".to_owned(), &event.file_name);
    push_opt_text(&mut out, "executing_user", &event.executing_user);
    push_opt_num(&mut out, "execution_time", &event.execution_time);
    push_text(&mut out, "loggedin_users".to_owned(), &join_comma(&event.loggedin_users));
    push_text(&mut out, "current_sessions".to_owned(), &join_comma(&event.current_sessions));
    push_text(&mut out, "decision".to_owned(), &event.decision.wire_name().to_owned());
    push_opt_text(&mut out, "file_bundle_id", &event.file_bundle_id);
    push_opt_text(&mut out, "file_bundle_path", &event.file_bundle_path);
    push_opt_text(&mut out, "file_bundle_executable_rel_path", &event.file_bundle_executable_rel_path);
    push_opt_text(&mut out, "file_bundle_name", &event.file_bundle_name);
    push_opt_text(&mut out, "file_bundle_version", &event.file_bundle_version);
    push_opt_text(&mut out, "file_bundle_version_string", &event.file_bundle_version_string);
    push_opt_text(&mut out, "file_bundle_hash", &event.file_bundle_hash);
    push_opt_u32(&mut out, "file_bundle_hash_millis", &event.file_bundle_hash_millis);
    push_opt_u32(&mut out, "file_bundle_binary_count", &event.file_bundle_binary_count);
    push_opt_u32(&mut out, "pid", &event.pid);
    push_opt_u32(&mut out, "ppid", &event.ppid);
    push_opt_text(&mut out, "parent_name", &event.parent_name);
    push_opt_text(&mut out, "quarantine_data_url", &event.quarantine_data_url);
    push_opt_text(&mut out, "quarantine_referer_url", &event.quarantine_referer_url);
    push_opt_num(&mut out, "quarantine_timestamp", &event.quarantine_timestamp);
    push_opt_text(&mut out, "quarantine_agent_bundle_id", &event.quarantine_agent_bundle_id);

    let ghost before_chain = models(out@);
    let n = event.signing_chain.len();
    let mut i: usize = 0;
    while i < n
        invariant
            n == event.signing_chain@.len(),
            i <= n,
            models(out@) == before_chain + chain_fields(event.signing_chain@.take(i as int)),
        decreases n - i,
    {
        let entry = &event.signing_chain[i];
        push_text(&mut out, chain_key(i, ".sha256"), &entry.sha256);
        push_text(&mut out, chain_key(i, ".cn"), &entry.cn);
        push_text(&mut out, chain_key(i, ".org"), &entry.org);
        push_text(&mut out, chain_key(i, ".ou"), &entry.ou);
        push_num(&mut out, chain_key(i, ".valid_from"), u32_to_string(entry.valid_from));
        push_num(&mut out, chain_key(i, ".valid_until"), u32_to_string(entry.valid_until));
        proof {
            let s = event.signing_chain@;
            assert(s.take(i + 1).drop_last() =~= s.take(i as int));
            assert(s.take(i + 1).last() == s[i as int]);
            assert(chain_fields(s.take(i + 1)) == chain_fields(s.take(i as int))
                + chain_entry_fields(i as nat, s[i as int]));
            assert(models(out@) =~= before_chain + chain_fields(s.take(i + 1)));
        }
        i += 1;
    }
    proof {
        assert(event.signing_chain@.take(n as int) =~= event.signing_chain@);
    }

    push_opt_text(&mut out, "signing_id", &event.signing_id);
    push_opt_text(&mut out, "team_id", &event.team_id);
    push_opt_text(&mut out, "cdhash", &event.cdhash);
    proof {
        assert(models(out@) == project_spec(machine_id@, *event));
    }
    out
}

/// The character for one lower-case hexadecimal digit.
pub open spec fn hex_char(d: nat) -> char
    recommends
        d < 16,
{
    seq!['0', '1', '2', '3', '4', '5', '6', '7', '8', '9', 'a', 'b', 'c', 'd', 'e', 'f'][d as int]
}

/// How one character appears inside a JSON string literal: the quote, the
/// backslash and the named control characters get two-character escapes,
/// any other control character a `\u00..` escape, and everything else
/// stands as itself.
pub open spec fn esc_char(c: char) -> Seq<char> {
    if c == '"' {
        seq!['\\', '"']
    } else if c == '\\' {
        seq!['\\', '\\']
    } else if c == '\u{8}' {
        seq!['\\', 'b']
    } else if c == '\t' {
        seq!['\\', 't']
    } else if c == '\n' {
        seq!['\\', 'n']
    } else if c == '\u{c}' {
        seq!['\\', 'f']
    } else if c == '\r' {
        seq!['\\', 'r']
    } else if (c as u32) < 0x20 {
        seq![
            '\\',
            'u',
            '0',
            '0',
            hex_char(((c as u32) / 16) as nat),
            hex_char(((c as u32) % 16) as nat),
        ]
    } else {
        seq![c]
    }
}

/// A whole character sequence escaped for a JSON string literal.
pub open spec fn json_escaped(s: Seq<char>) -> Seq<char>
    decreases s.len(),
{
    if s.len() == 0 {
        Seq::empty()
    } else {
        esc_char(s[0]) + json_escaped(s.drop_first())
    }
}

/// Escaping distributes over taking one more character at the end.
proof fn lemma_json_escaped_push(s: Seq<char>, c: char)
    ensures
        json_escaped(s.push(c)) == json_escaped(s) + esc_char(c),
    decreases s.len(),
{
    if s.len() == 0 {
        assert(s.push(c) =~= seq![c]);
        assert(seq![c].drop_first() =~= Seq::<char>::empty());
        assert(json_escaped(seq![c]) == esc_char(c) + json_escaped(Seq::<char>::empty()));
        assert(esc_char(c) + Seq::<char>::empty() =~= esc_char(c));
        assert(json_escaped(s) + esc_char(c) =~= esc_char(c));
    } else {
        lemma_json_escaped_push(s.drop_first(), c);
        assert(s.push(c).drop_first() =~= s.drop_first().push(c));
        assert(s.push(c)[0] == s[0]);
        assert(esc_char(s[0]) + (json_escaped(s.drop_first()) + esc_char(c)) =~= (esc_char(s[0])
            + json_escaped(s.drop_first())) + esc_char(c));
    }
}

/// The character for one lower-case hexadecimal digit.
fn hex_of(d: u32) -> (c: char)
    requires
        d < 16,
    ensures
        c == hex_char(d as nat),
{
    match d {
        0 => '0',
        1 => '1',
        2 => '2',
        3 => '3',
        4 => '4',
        5 => '5',
        6 => '6',
        7 => '7',
        8 => '8',
        9 => '9',
        10 => 'a',
        11 => 'b',
        12 => 'c',
        13 => 'd',
        14 => 'e',
        _ => 'f',
    }
}

/// Appends a string escaped for a JSON string literal.
fn append_escaped(out: &mut String, s: &str)
    ensures
        final(out)@ == old(out)@ + json_escaped(s@),
{
    let n = s.unicode_len();
    let mut i: usize = 0;
    while i < n
        invariant
            n == s@.len(),
            i <= n,
            out@ == old(out)@ + json_escaped(s@.take(i as int)),
        decreases n - i,
    {
        let c = s.get_char(i);
        if c == '"' {
            out.append("\\\"");
            proof {
                reveal_strlit("\\\"");
                assert("\\\""@ =~= esc_char(c));
            }
        } else if c == '\\' {
            out.append("\\\\");
            proof {
                reveal_strlit("\\\\");
                assert("\\\\"@ =~= esc_char(c));
            }
        } else if c == '\u{8}' {
            out.append("\\b");
            proof {
                reveal_strlit("\\b");
                assert("\\b"@ =~= esc_char(c));
            }
        } else if c == '\t' {
            out.append("\\t");
            proof {
                reveal_strlit("\\t");
                assert("\\t"@ =~= esc_char(c));
            }
        } else if c == '\n' {
            out.append("\\n");
            proof {
                reveal_strlit("\\n");
                assert("\\n"@ =~= esc_char(c));
            }
        } else if c == '\u{c}' {
            out.append("\\f");
            proof {
                reveal_strlit("\\f");
                assert("\\f"@ =~= esc_char(c));
            }
        } else if c == '\r' {
            out.append("\\r");
            proof {
                reveal_strlit("\\r");
                assert("\\r"@ =~= esc_char(c));
            }
        } else if (c as u32) < 0x20 {
            let v = c as u32;
            out.append("\\u00");
            let high = hex_of(v / 16);
            let low = hex_of(v % 16);
            string_push(out, high);
            string_push(out, low);
            proof {
                reveal_strlit("\\u00");
                assert("\\u00"@ + seq![high] + seq![low] =~= esc_char(c));
            }
        } else {
            string_push(out, c);
            proof {
                assert(seq![c] =~= esc_char(c));
            }
        }
        proof {
            lemma_json_escaped_push(s@.take(i as int), c);
            assert(s@.take(i + 1) =~= s@.take(i as int).push(c));
        }
        i += 1;
    }
    proof {
        assert(s@.take(n as int) =~= s@);
    }
}

/// How a field's value appears in the record: text quoted and escaped, a
/// number as it stands.
pub open spec fn value_text(v: ValueModel) -> Seq<char> {
    match v {
        ValueModel::Text(s) => seq!['"'] + json_escaped(s) + seq!['"'],
        ValueModel::Num(s) => s,
    }
}

/// How one field appears in the record.
pub open spec fn field_text(f: FieldModel) -> Seq<char> {
    seq!['"'] + json_escaped(f.key) + seq!['"', ':'] + value_text(f.value)
}

/// All fields of a record, separated by commas.
pub open spec fn fields_text(fields: Seq<FieldModel>) -> Seq<char>
    decreases fields.len(),
{
    if fields.len() == 0 {
        Seq::empty()
    } else if fields.len() == 1 {
        field_text(fields[0])
    } else {
        fields_text(fields.drop_last()) + seq![','] + field_text(fields.last())
    }
}

/// One self-contained record: a JSON object of all fields, in order.
pub open spec fn line_spec(fields: Seq<FieldModel>) -> Seq<char> {
    seq!['{'] + fields_text(fields) + seq!['}']
}

/// Appends one rendered field.
fn append_field(out: &mut String, f: &LogField)
    ensures
        final(out)@ == old(out)@ + field_text(f.model()),
{
    string_push(out, '"');
    append_escaped(out, f.key.as_str());
    out.append("\":");
    match &f.value {
        FieldValue::Text(s) => {
            string_push(out, '"');
            append_escaped(out, s.as_str());
            string_push(out, '"');
        },
        FieldValue::Num(s) => {
            out.append(s.as_str());
        },
    }
    proof {
        reveal_strlit("\":");
        assert("\":"@ =~= seq!['"', ':']);
        assert(out@ =~= old(out)@ + field_text(f.model()));
    }
}

/// Renders a projected field list as one self-contained JSON object.
pub fn render_line(fields: &Vec<LogField>) -> (r: String)
    ensures
        r@ == line_spec(models(fields@)),
{
    let mut out = String::new();
    string_push(&mut out, '{');
    let n = fields.len();
    let mut i: usize = 0;
    while i < n
        invariant
            n == fields@.len(),
            i <= n,
            out@ == seq!['{'] + fields_text(models(fields@).take(i as int)),
        decreases n - i,
    {
        if i > 0 {
            string_push(&mut out, ',');
        }
        append_field(&mut out, &fields[i]);
        proof {
            let m = models(fields@);
            assert(m.len() == fields@.len());
            assert(m[i as int] == fields@[i as int].model());
            if i > 0 {
                assert(m.take(i + 1).drop_last() =~= m.take(i as int));
                assert(m.take(i + 1).last() == m[i as int]);
                assert(fields_text(m.take(i + 1)) == fields_text(m.take(i as int)) + seq![',']
                    + field_text(m[i as int]));
                assert(out@ =~= seq!['{'] + fields_text(m.take(i + 1)));
            } else {
                assert(m.take(1) =~= seq![m[0]]);
                assert(fields_text(seq![m[0]]) == field_text(m[0]));
                assert(fields_text(m.take(0)) =~= Seq::<char>::empty());
                assert(out@ =~= seq!['{'] + fields_text(m.take(1)));
            }
        }
        i += 1;
    }
    string_push(&mut out, '}');
    proof {
        assert(models(fields@).take(n as int) =~= models(fields@));
        assert(out@ =~= line_spec(models(fields@)));
    }
    out
}

/// Projects one event and renders it as its log line.
pub fn event_log_line(machine_id: &str, event: &Event) -> (r: String)
    requires
        event_numbers_wf(*event),
    ensures
        r@ == line_spec(project_spec(machine_id@, *event)),
{
    let fields = project_event(machine_id, event);
    render_line(&fields)
}

} // verus!
