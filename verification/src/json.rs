//! A JSON rendering of events, with an exact character-level
//! specification: escaped strings, decimal numbers, GUIDs and pointers
//! as strings, timestamps as second/nanosecond objects, and nested
//! arrays and structures.

use vstd::prelude::*;
use vstd::string::StrSliceExecFns;
use vstd::string::StringExecFns;
use crate::event::{EtwEvent, EventValue, Timestamp};
use crate::guid::{guid_string, guid_to_string};
use crate::text::{dec_rep, dec_rep_signed, hex_digit_char, hex_rep, i64_to_dec, push_char,
    u64_to_dec, u64_to_hex};

verus! {

/// The JSON escape of one character.
pub open spec fn escape_char(c: char) -> Seq<char> {
    if c == '"' {
        seq!['\\', '"']
    } else if c == '\\' {
        seq!['\\', '\\']
    } else if c == '\n' {
        seq!['\\', 'n']
    } else if c == '\r' {
        seq!['\\', 'r']
    } else if c == '\t' {
        seq!['\\', 't']
    } else if (c as u32) < 32 {
        seq![
            '\\',
            'u',
            '0',
            '0',
            hex_digit_char((c as u32 / 16) as nat),
            hex_digit_char((c as u32 % 16) as nat),
        ]
    } else {
        seq![c]
    }
}

/// The JSON escape of a text, character by character.
pub open spec fn escaped(s: Seq<char>) -> Seq<char>
    decreases s.len(),
{
    if s.len() == 0 {
        Seq::empty()
    } else {
        escape_char(s[0]) + escaped(s.skip(1))
    }
}

/// A JSON string: the escaped text in double quotes.
pub open spec fn quoted(s: Seq<char>) -> Seq<char> {
    seq!['"'] + escaped(s) + seq!['"']
}

/// A nullable JSON string.
pub open spec fn json_opt_string(v: Option<String>) -> Seq<char> {
    match v {
        Some(s) => quoted(s@),
        None => "null"@,
    }
}

/// A nullable GUID, rendered as its canonical string.
pub open spec fn json_opt_guid(v: Option<u128>) -> Seq<char> {
    match v {
        Some(g) => quoted(guid_string(g)),
        None => "null"@,
    }
}

/// A timestamp as an object of whole seconds and nanoseconds.
pub open spec fn json_of_timestamp(t: Timestamp) -> Seq<char> {
    "{\"secs\":"@ + dec_rep_signed(t.secs as int) + ",\"nanos\":"@ + dec_rep(t.nanos as nat)
        + "}"@
}

/// One property value as JSON. Strings, GUIDs, security identifiers,
/// and pointers render as strings; integers and file times as numbers;
/// float bit patterns as tagged objects holding the raw bits; binary
/// data as a number array; arrays and structures recursively.
pub open spec fn json_of_value(v: EventValue) -> Seq<char>
    decreases v, 0nat,
{
    match v {
        EventValue::Null => "null"@,
        EventValue::Bool(b) => if b {
            "true"@
        } else {
            "false"@
        },
        EventValue::I8(n) => dec_rep_signed(n as int),
        EventValue::U8(n) => dec_rep(n as nat),
        EventValue::I16(n) => dec_rep_signed(n as int),
        EventValue::U16(n) => dec_rep(n as nat),
        EventValue::I32(n) => dec_rep_signed(n as int),
        EventValue::U32(n) => dec_rep(n as nat),
        EventValue::I64(n) => dec_rep_signed(n as int),
        EventValue::U64(n) => dec_rep(n as nat),
        EventValue::F32Bits(b) => "{\"f32_bits\":"@ + dec_rep(b as nat) + "}"@,
        EventValue::F64Bits(b) => "{\"f64_bits\":"@ + dec_rep(b as nat) + "}"@,
        EventValue::String(s) => quoted(s@),
        EventValue::Binary(bytes) => json_arr_of_bytes(bytes@),
        EventValue::Guid(g) => quoted(guid_string(g)),
        EventValue::Pointer(p) => seq!['"'] + "0x"@ + hex_rep(p as nat) + seq!['"'],
        EventValue::FileTime(t) => dec_rep_signed(t as int),
        EventValue::SystemTime(t) => json_of_timestamp(t),
        EventValue::Sid(s) => quoted(s@),
        EventValue::Array(items) => seq!['['] + json_values_upto(items@, items@.len() as int)
            + seq![']'],
        EventValue::Struct(fields) => seq!['{'] + json_fields_upto(fields@, fields@.len() as int)
            + seq!['}'],
    }
}

/// The first `i` values of a list, comma-separated.
pub open spec fn json_values_upto(s: Seq<EventValue>, i: int) -> Seq<char>
    decreases s, i,
{
    if i <= 0 || s.len() == 0 || i > s.len() {
        Seq::empty()
    } else if i == 1 {
        json_of_value(s[0])
    } else {
        json_values_upto(s, i - 1) + seq![','] + json_of_value(s[i - 1])
    }
}

/// The first `i` members of an object, comma-separated `"name":value`
/// pairs.
pub open spec fn json_fields_upto(s: Seq<(String, EventValue)>, i: int) -> Seq<char>
    decreases s, i,
{
    if i <= 0 || s.len() == 0 || i > s.len() {
        Seq::empty()
    } else if i == 1 {
        quoted(s[0].0@) + seq![':'] + json_of_value(s[0].1)
    } else {
        json_fields_upto(s, i - 1) + seq![','] + quoted(s[i - 1].0@) + seq![':'] + json_of_value(
            s[i - 1].1,
        )
    }
}

/// A byte array as a JSON number array.
pub open spec fn json_arr_of_bytes(s: Seq<u8>) -> Seq<char> {
    seq!['['] + json_bytes_upto(s, s.len() as int) + seq![']']
}

/// The first `i` bytes, comma-separated.
pub open spec fn json_bytes_upto(s: Seq<u8>, i: int) -> Seq<char>
    decreases i,
{
    if i <= 0 || s.len() == 0 || i > s.len() {
        Seq::empty()
    } else if i == 1 {
        dec_rep(s[0] as nat)
    } else {
        json_bytes_upto(s, i - 1) + seq![','] + dec_rep(s[i - 1] as nat)
    }
}

/// A 64-bit number array as JSON.
pub open spec fn json_arr_of_u64s(s: Seq<u64>) -> Seq<char> {
    seq!['['] + json_u64s_upto(s, s.len() as int) + seq![']']
}

/// The first `i` values, comma-separated.
pub open spec fn json_u64s_upto(s: Seq<u64>, i: int) -> Seq<char>
    decreases i,
{
    if i <= 0 || s.len() == 0 || i > s.len() {
        Seq::empty()
    } else if i == 1 {
        dec_rep(s[0] as nat)
    } else {
        json_u64s_upto(s, i - 1) + seq![','] + dec_rep(s[i - 1] as nat)
    }
}

/// A nullable byte array.
pub open spec fn json_opt_bytes(v: Option<Vec<u8>>) -> Seq<char> {
    match v {
        Some(bytes) => json_arr_of_bytes(bytes@),
        None => "null"@,
    }
}

/// A nullable 64-bit number array.
pub open spec fn json_opt_u64s(v: Option<Vec<u64>>) -> Seq<char> {
    match v {
        Some(values) => json_arr_of_u64s(values@),
        None => "null"@,
    }
}

/// The whole event as one JSON object, fields in declaration order.
pub open spec fn json_of_event(e: EtwEvent) -> Seq<char> {
    "{\"provider_id\":"@ + quoted(guid_string(e.provider_id)) + ",\"provider_name\":"@
        + json_opt_string(e.provider_name) + ",\"event_id\":"@ + dec_rep(e.event_id as nat)
        + ",\"version\":"@ + dec_rep(e.version as nat) + ",\"opcode\":"@ + dec_rep(
        e.opcode as nat,
    ) + ",\"level\":"@ + dec_rep(e.level as nat) + ",\"keywords\":"@ + dec_rep(e.keywords as nat)
        + ",\"process_id\":"@ + dec_rep(e.process_id as nat) + ",\"thread_id\":"@ + dec_rep(
        e.thread_id as nat,
    ) + ",\"timestamp\":"@ + json_of_timestamp(e.timestamp) + ",\"activity_id\":"@ + json_opt_guid(
        e.activity_id,
    ) + ",\"related_activity_id\":"@ + json_opt_guid(e.related_activity_id) + ",\"task\":"@
        + dec_rep(e.task as nat) + ",\"channel\":"@ + dec_rep(e.channel as nat)
        + ",\"properties\":{"@ + json_fields_upto(e.properties@, e.properties@.len() as int)
        + "},\"raw_data\":"@ + json_opt_bytes(e.raw_data) + ",\"stack_trace\":"@ + json_opt_u64s(
        e.stack_trace,
    ) + "}"@
}

/// Append the escape of one character.
fn append_escaped_char(out: &mut String, c: char)
    ensures
        final(out)@ == old(out)@ + escape_char(c),
{
    let ghost prev = out@;
    if c == '"' {
        push_char(out, '\\');
        push_char(out, '"');
        assert(out@ =~= prev + escape_char(c));
    } else if c == '\\' {
        push_char(out, '\\');
        push_char(out, '\\');
        assert(out@ =~= prev + escape_char(c));
    } else if c == '\n' {
        push_char(out, '\\');
        push_char(out, 'n');
        assert(out@ =~= prev + escape_char(c));
    } else if c == '\r' {
        push_char(out, '\\');
        push_char(out, 'r');
        assert(out@ =~= prev + escape_char(c));
    } else if c == '\t' {
        push_char(out, '\\');
        push_char(out, 't');
        assert(out@ =~= prev + escape_char(c));
    } else {
        let code: u32 = c as u32;
        if code < 32 {
            push_char(out, '\\');
            push_char(out, 'u');
            push_char(out, '0');
            push_char(out, '0');
            let hi: u8 = (code / 16) as u8;
            let lo: u8 = (code % 16) as u8;
            push_char(out, hex_char(hi));
            push_char(out, hex_char(lo));
            assert(out@ =~= prev + escape_char(c));
        } else {
            push_char(out, c);
            assert(out@ =~= prev + escape_char(c));
        }
    }
}

/// The character for one hexadecimal digit.
fn hex_char(d: u8) -> (r: char)
    requires
        d < 16,
    ensures
        r == hex_digit_char(d as nat),
{
    if d < 10 {
        (48 + d) as char
    } else {
        (87 + d) as char
    }
}

/// Escaping distributes over appending one character.
proof fn lemma_escaped_snoc(s: Seq<char>, c: char)
    ensures
        escaped(s.push(c)) =~= escaped(s) + escape_char(c),
    decreases s.len(),
{
    if s.len() == 0 {
        assert(s.push(c)[0] == c);
        assert(s.push(c).skip(1) =~= Seq::<char>::empty());
        assert(escaped(Seq::<char>::empty()) =~= Seq::<char>::empty());
        assert(escaped(s.push(c)) =~= escape_char(c) + escaped(Seq::<char>::empty()));
    } else {
        assert(s.push(c)[0] == s[0]);
        assert(s.push(c).skip(1) =~= s.skip(1).push(c));
        lemma_escaped_snoc(s.skip(1), c);
    }
}

/// Append the escaped text of `s`.
fn append_escaped(out: &mut String, s: &str)
    ensures
        final(out)@ == old(out)@ + escaped(s@),
{
    let ghost base = out@;
    let len = s.unicode_len();
    let mut i: usize = 0;
    proof {
        assert(s@.take(0) =~= Seq::<char>::empty());
        assert(out@ =~= base + escaped(s@.take(0)));
    }
    while i < len
        invariant
            len == s@.len(),
            i <= len,
            out@ == base + escaped(s@.take(i as int)),
        decreases len - i,
    {
        let c = s.get_char(i);
        append_escaped_char(out, c);
        proof {
            assert(s@.take(i as int).push(c) =~= s@.take(i as int + 1));
            lemma_escaped_snoc(s@.take(i as int), c);
            assert(out@ =~= base + escaped(s@.take(i as int + 1)));
        }
        i += 1;
    }
    proof {
        assert(s@.take(len as int) =~= s@);
    }
}

/// Append a JSON string: the escaped text in quotes.
fn append_quoted(out: &mut String, s: &str)
    ensures
        final(out)@ == old(out)@ + quoted(s@),
{
    let ghost base = out@;
    push_char(out, '"');
    append_escaped(out, s);
    push_char(out, '"');
    assert(out@ =~= base + quoted(s@));
}

/// Append a nullable JSON string.
fn append_opt_string(out: &mut String, v: &Option<String>)
    ensures
        final(out)@ == old(out)@ + json_opt_string(*v),
{
    match v {
        Some(s) => append_quoted(out, s.as_str()),
        None => out.append("null"),
    }
}

/// Append a nullable GUID string.
fn append_opt_guid(out: &mut String, v: &Option<u128>)
    ensures
        final(out)@ == old(out)@ + json_opt_guid(*v),
{
    match v {
        Some(g) => {
            let text = guid_to_string(*g);
            append_quoted(out, text.as_str());
        },
        None => out.append("null"),
    }
}

/// Append a decimal number.
fn append_dec_u64(out: &mut String, n: u64)
    ensures
        final(out)@ == old(out)@ + dec_rep(n as nat),
{
    let text = u64_to_dec(n);
    out.append(text.as_str());
}

/// Append a signed decimal number.
fn append_dec_i64(out: &mut String, n: i64)
    ensures
        final(out)@ == old(out)@ + dec_rep_signed(n as int),
{
    let text = i64_to_dec(n);
    out.append(text.as_str());
}

/// Append a timestamp object.
fn append_timestamp(out: &mut String, t: &Timestamp)
    ensures
        final(out)@ == old(out)@ + json_of_timestamp(*t),
{
    let ghost base = out@;
    out.append("{\"secs\":");
    append_dec_i64(out, t.secs);
    out.append(",\"nanos\":");
    append_dec_u64(out, t.nanos as u64);
    out.append("}");
    assert(out@ =~= base + json_of_timestamp(*t));
}

/// Append a byte array.
fn append_bytes(out: &mut String, bytes: &Vec<u8>)
    ensures
        final(out)@ == old(out)@ + json_arr_of_bytes(bytes@),
{
    let ghost base = out@;
    push_char(out, '[');
    let mut i: usize = 0;
    while i < bytes.len()
        invariant
            i <= bytes@.len(),
            out@ == base + seq!['['] + json_bytes_upto(bytes@, i as int)
                || (i == 0 && out@ == base + seq!['[']),
        decreases bytes@.len() - i,
    {
        let ghost prev = out@;
        if i > 0 {
            push_char(out, ',');
        }
        append_dec_u64(out, bytes[i] as u64);
        proof {
            assert(out@ =~= base + seq!['['] + json_bytes_upto(bytes@, i as int + 1));
        }
        i += 1;
    }
    push_char(out, ']');
    assert(out@ =~= base + json_arr_of_bytes(bytes@));
}

/// Append a 64-bit number array.
fn append_u64s(out: &mut String, values: &Vec<u64>)
    ensures
        final(out)@ == old(out)@ + json_arr_of_u64s(values@),
{
    let ghost base = out@;
    push_char(out, '[');
    let mut i: usize = 0;
    while i < values.len()
        invariant
            i <= values@.len(),
            out@ == base + seq!['['] + json_u64s_upto(values@, i as int)
                || (i == 0 && out@ == base + seq!['[']),
        decreases values@.len() - i,
    {
        if i > 0 {
            push_char(out, ',');
        }
        append_dec_u64(out, values[i]);
        proof {
            assert(out@ =~= base + seq!['['] + json_u64s_upto(values@, i as int + 1));
        }
        i += 1;
    }
    push_char(out, ']');
    assert(out@ =~= base + json_arr_of_u64s(values@));
}

/// Append one property value.
fn append_value(out: &mut String, v: &EventValue)
    ensures
        final(out)@ == old(out)@ + json_of_value(*v),
    decreases *v,
{
    let ghost base = out@;
    match v {
        EventValue::Null => out.append("null"),
        EventValue::Bool(b) => {
            if *b {
                out.append("true")
            } else {
                out.append("false")
            }
        },
        EventValue::I8(n) => append_dec_i64(out, *n as i64),
        EventValue::U8(n) => append_dec_u64(out, *n as u64),
        EventValue::I16(n) => append_dec_i64(out, *n as i64),
        EventValue::U16(n) => append_dec_u64(out, *n as u64),
        EventValue::I32(n) => append_dec_i64(out, *n as i64),
        EventValue::U32(n) => append_dec_u64(out, *n as u64),
        EventValue::I64(n) => append_dec_i64(out, *n),
        EventValue::U64(n) => append_dec_u64(out, *n),
        EventValue::F32Bits(b) => {
            out.append("{\"f32_bits\":");
            append_dec_u64(out, *b as u64);
            out.append("}");
            assert(out@ =~= base + json_of_value(*v));
        },
        EventValue::F64Bits(b) => {
            out.append("{\"f64_bits\":");
            append_dec_u64(out, *b);
            out.append("}");
            assert(out@ =~= base + json_of_value(*v));
        },
        EventValue::String(s) => append_quoted(out, s.as_str()),
        EventValue::Binary(bytes) => append_bytes(out, bytes),
        EventValue::Guid(g) => {
            let text = guid_to_string(*g);
            append_quoted(out, text.as_str());
        },
        EventValue::Pointer(p) => {
            push_char(out, '"');
            out.append("0x");
            let digits = u64_to_hex(*p);
            out.append(digits.as_str());
            push_char(out, '"');
            assert(out@ =~= base + json_of_value(*v));
        },
        EventValue::FileTime(t) => append_dec_i64(out, *t),
        EventValue::SystemTime(t) => append_timestamp(out, t),
        EventValue::Sid(s) => append_quoted(out, s.as_str()),
        EventValue::Array(items) => {
            push_char(out, '[');
            let mut i: usize = 0;
            while i < items.len()
                invariant
                    *v == EventValue::Array(*items),
                    i <= items@.len(),
                    out@ == base + seq!['['] + json_values_upto(items@, i as int)
                        || (i == 0 && out@ == base + seq!['[']),
                decreases items@, 0nat, items@.len() - i,
            {
                if i > 0 {
                    push_char(out, ',');
                }
                proof {
                    assert(decreases_to!(*v => v->Array_0));
                    assert(v->Array_0 == *items);
                    assert(decreases_to!(*items => items@));
                    assert(decreases_to!(items@ => items@[i as int]));
                }
                append_value(out, &items[i]);
                proof {
                    assert(out@ =~= base + seq!['['] + json_values_upto(items@, i as int + 1));
                }
                i += 1;
            }
            push_char(out, ']');
            assert(out@ =~= base + json_of_value(*v));
        },
        EventValue::Struct(fields) => {
            push_char(out, '{');
            let mut i: usize = 0;
            while i < fields.len()
                invariant
                    *v == EventValue::Struct(*fields),
                    i <= fields@.len(),
                    out@ == base + seq!['{'] + json_fields_upto(fields@, i as int)
                        || (i == 0 && out@ == base + seq!['{']),
                decreases fields@, 0nat, fields@.len() - i,
            {
                if i > 0 {
                    push_char(out, ',');
                }
                append_quoted(out, fields[i].0.as_str());
                push_char(out, ':');
                proof {
                    assert(decreases_to!(*v => v->Struct_0));
                    assert(v->Struct_0 == *fields);
                    assert(decreases_to!(*fields => fields@));
                    assert(decreases_to!(fields@ => fields@[i as int]));
                    assert(decreases_to!(fields@[i as int] => fields@[i as int].1));
                }
                append_value(out, &fields[i].1);
                proof {
                    assert(out@ =~= base + seq!['{'] + json_fields_upto(fields@, i as int + 1));
                }
                i += 1;
            }
            push_char(out, '}');
            assert(out@ =~= base + json_of_value(*v));
        },
    }
}

impl EtwEvent {
    /// Render the event as one JSON object.
    pub fn to_json(&self) -> (r: String)
        ensures
            r@ == json_of_event(*self),
    {
        let mut out = String::new();
        assert(out@ =~= Seq::<char>::empty());
        out.append("{\"provider_id\":");
        assert(out@ =~= "{\"provider_id\":"@);
        let guid_text = guid_to_string(self.provider_id);
        append_quoted(&mut out, guid_text.as_str());
        out.append(",\"provider_name\":");
        append_opt_string(&mut out, &self.provider_name);
        out.append(",\"event_id\":");
        append_dec_u64(&mut out, self.event_id as u64);
        out.append(",\"version\":");
        append_dec_u64(&mut out, self.version as u64);
        out.append(",\"opcode\":");
        append_dec_u64(&mut out, self.opcode as u64);
        out.append(",\"level\":");
        append_dec_u64(&mut out, self.level as u64);
        out.append(",\"keywords\":");
        append_dec_u64(&mut out, self.keywords);
        out.append(",\"process_id\":");
        append_dec_u64(&mut out, self.process_id as u64);
        out.append(",\"thread_id\":");
        append_dec_u64(&mut out, self.thread_id as u64);
        out.append(",\"timestamp\":");
        append_timestamp(&mut out, &self.timestamp);
        out.append(",\"activity_id\":");
        append_opt_guid(&mut out, &self.activity_id);
        out.append(",\"related_activity_id\":");
        append_opt_guid(&mut out, &self.related_activity_id);
        out.append(",\"task\":");
        append_dec_u64(&mut out, self.task as u64);
        out.append(",\"channel\":");
        append_dec_u64(&mut out, self.channel as u64);
        out.append(",\"properties\":{");
        let ghost mid = out@;
        let mut i: usize = 0;
        while i < self.properties.len()
            invariant
                i <= self.properties@.len(),
                out@ == mid + json_fields_upto(self.properties@, i as int)
                    || (i == 0 && out@ == mid),
            decreases self.properties@.len() - i,
        {
            if i > 0 {
                push_char(&mut out, ',');
            }
            append_quoted(&mut out, self.properties[i].0.as_str());
            push_char(&mut out, ':');
            append_value(&mut out, &self.properties[i].1);
            proof {
                assert(out@ =~= mid + json_fields_upto(self.properties@, i as int + 1));
            }
            i += 1;
        }
        out.append("},\"raw_data\":");
        match &self.raw_data {
            Some(bytes) => append_bytes(&mut out, bytes),
            None => out.append("null"),
        }
        out.append(",\"stack_trace\":");
        match &self.stack_trace {
            Some(values) => append_u64s(&mut out, values),
            None => out.append("null"),
        }
        out.append("}");
        proof {
            assert(out@ =~= json_of_event(*self));
        }
        out
    }
}

} // verus!
