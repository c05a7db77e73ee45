//! The normalized event record and its tagged-union property value type.

use vstd::prelude::*;
use vstd::string::StringExecFns;
use crate::guid::{guid_string, guid_to_string};
use crate::clock::wall_clock_now;
use crate::text::{dec_rep, dec_rep_signed, dec_rep_width, hex_rep, push_char, u64_to_dec,
    u64_to_dec_width, i64_to_dec, u64_to_hex};

verus! {

/// A UTC instant: whole seconds since the Unix epoch and sub-second
/// nanoseconds.
#[derive(Debug, Clone, Copy, PartialEq, Eq, Structural)]
pub struct Timestamp {
    /// Seconds since 1970-01-01T00:00:00Z (negative before it).
    pub secs: i64,
    /// Sub-second nanoseconds, below one billion.
    pub nanos: u32,
}

impl Timestamp {
    /// The nanosecond field stays below one second.
    pub open spec fn wf(self) -> bool {
        self.nanos < 1_000_000_000
    }
}

/// Ticks of 100 nanoseconds between 1601-01-01 (the native trace epoch)
/// and 1970-01-01 (the Unix epoch).
pub const EPOCH_OFFSET_100NS: i64 = 116444736000000000;

/// Convert a native 100-nanosecond-tick timestamp (1601 epoch) to a Unix
/// timestamp. The remaining ticks split into whole seconds and a
/// non-negative sub-second nanosecond part.
pub fn filetime_to_timestamp(ticks: i64) -> (t: Timestamp)
    ensures
        t.wf(),
        t.secs * 10_000_000 + t.nanos / 100 == ticks - EPOCH_OFFSET_100NS,
        t.nanos % 100 == 0,
{
    if ticks >= EPOCH_OFFSET_100NS {
        let unix: u64 = (ticks - EPOCH_OFFSET_100NS) as u64;
        let secs: u64 = unix / 10_000_000;
        let rem: u64 = unix % 10_000_000;
        let t = Timestamp { secs: secs as i64, nanos: (rem as u32) * 100 };
        proof {
            assert(t.secs * 10_000_000 + t.nanos / 100 == ticks - EPOCH_OFFSET_100NS);
        }
        t
    } else {
        let deficit: u64 = ((EPOCH_OFFSET_100NS as i128) - (ticks as i128)) as u64;
        let q: u64 = deficit / 10_000_000;
        let r: u64 = deficit % 10_000_000;
        if r == 0 {
            let t = Timestamp { secs: -(q as i64), nanos: 0 };
            proof {
                assert(t.secs * 10_000_000 + t.nanos / 100 == ticks - EPOCH_OFFSET_100NS);
            }
            t
        } else {
            let t = Timestamp { secs: -(q as i64) - 1, nanos: ((10_000_000 - r) as u32) * 100 };
            proof {
                assert(t.secs * 10_000_000 + t.nanos / 100 == ticks - EPOCH_OFFSET_100NS);
            }
            t
        }
    }
}

/// A single property value: a closed tagged union covering the scalar,
/// string, binary, identifier, time, and composite kinds a trace record
/// can carry. Floating-point payloads are held as their raw bit patterns.
#[derive(Debug)]
pub enum EventValue {
    Null,
    Bool(bool),
    I8(i8),
    U8(u8),
    I16(i16),
    U16(u16),
    I32(i32),
    U32(u32),
    I64(i64),
    U64(u64),
    F32Bits(u32),
    F64Bits(u64),
    String(String),
    Binary(Vec<u8>),
    Guid(u128),
    Pointer(u64),
    FileTime(i64),
    SystemTime(Timestamp),
    Sid(String),
    Array(Vec<EventValue>),
    Struct(Vec<(String, EventValue)>),
}

/// What `as_string` returns: text for every integer, boolean, string,
/// GUID, pointer, and system-time kind (a system time renders as the
/// seconds field, a dot, and the nine-digit nanosecond field); `None`
/// for null, floating-point bit patterns (rendering those needs float
/// arithmetic, which this crate leaves to its callers), binary,
/// file-time, security-identifier, and composite kinds.
pub open spec fn as_string_spec(v: EventValue) -> Option<Seq<char>> {
    match v {
        EventValue::String(s) => Some(s@),
        EventValue::Bool(b) => Some(if b { "true"@ } else { "false"@ }),
        EventValue::I8(n) => Some(dec_rep_signed(n as int)),
        EventValue::U8(n) => Some(dec_rep(n as nat)),
        EventValue::I16(n) => Some(dec_rep_signed(n as int)),
        EventValue::U16(n) => Some(dec_rep(n as nat)),
        EventValue::I32(n) => Some(dec_rep_signed(n as int)),
        EventValue::U32(n) => Some(dec_rep(n as nat)),
        EventValue::I64(n) => Some(dec_rep_signed(n as int)),
        EventValue::U64(n) => Some(dec_rep(n as nat)),
        EventValue::Guid(g) => Some(guid_string(g)),
        EventValue::Pointer(p) => Some("0x"@ + hex_rep(p as nat)),
        EventValue::SystemTime(t) => Some(
            dec_rep_signed(t.secs as int) + seq!['.'] + dec_rep_width(t.nanos as nat, 9),
        ),
        _ => None,
    }
}

/// What `as_u32` returns: unsigned kinds up to 32 bits, and signed kinds
/// up to 32 bits when non-negative.
pub open spec fn as_u32_spec(v: EventValue) -> Option<u32> {
    match v {
        EventValue::U8(n) => Some(n as u32),
        EventValue::U16(n) => Some(n as u32),
        EventValue::U32(n) => Some(n),
        EventValue::I8(n) => if n >= 0 { Some(n as u32) } else { None },
        EventValue::I16(n) => if n >= 0 { Some(n as u32) } else { None },
        EventValue::I32(n) => if n >= 0 { Some(n as u32) } else { None },
        _ => None,
    }
}

/// What `as_u64` returns: unsigned and pointer kinds, and signed kinds
/// when non-negative.
pub open spec fn as_u64_spec(v: EventValue) -> Option<u64> {
    match v {
        EventValue::U8(n) => Some(n as u64),
        EventValue::U16(n) => Some(n as u64),
        EventValue::U32(n) => Some(n as u64),
        EventValue::U64(n) => Some(n),
        EventValue::I8(n) => if n >= 0 { Some(n as u64) } else { None },
        EventValue::I16(n) => if n >= 0 { Some(n as u64) } else { None },
        EventValue::I32(n) => if n >= 0 { Some(n as u64) } else { None },
        EventValue::I64(n) => if n >= 0 { Some(n as u64) } else { None },
        EventValue::Pointer(p) => Some(p),
        _ => None,
    }
}

impl EventValue {
    /// Render the value as text where a scalar rendering exists.
    pub fn as_string(&self) -> (r: Option<String>)
        ensures
            match r {
                Some(s) => as_string_spec(*self) == Some(s@),
                None => as_string_spec(*self) is None,
            },
    {
        match self {
            EventValue::String(s) => Some(s.clone()),
            EventValue::Bool(b) => {
                if *b {
                    Some(String::from_str("true"))
                } else {
                    Some(String::from_str("false"))
                }
            },
            EventValue::I8(n) => Some(i64_to_dec(*n as i64)),
            EventValue::U8(n) => Some(u64_to_dec(*n as u64)),
            EventValue::I16(n) => Some(i64_to_dec(*n as i64)),
            EventValue::U16(n) => Some(u64_to_dec(*n as u64)),
            EventValue::I32(n) => Some(i64_to_dec(*n as i64)),
            EventValue::U32(n) => Some(u64_to_dec(*n as u64)),
            EventValue::I64(n) => Some(i64_to_dec(*n)),
            EventValue::U64(n) => Some(u64_to_dec(*n)),
            EventValue::Guid(g) => Some(guid_to_string(*g)),
            EventValue::Pointer(p) => {
                let mut s = String::from_str("0x");
                let digits = u64_to_hex(*p);
                s.append(digits.as_str());
                Some(s)
            },
            EventValue::SystemTime(t) => {
                let mut s = i64_to_dec(t.secs);
                push_char(&mut s, '.');
                let frac = u64_to_dec_width(t.nanos as u64, 9);
                s.append(frac.as_str());
                Some(s)
            },
            _ => None,
        }
    }

    /// Narrow the value to `u32` where that cannot lose information.
    pub fn as_u32(&self) -> (r: Option<u32>)
        ensures
            r == as_u32_spec(*self),
    {
        match self {
            EventValue::U8(n) => Some(*n as u32),
            EventValue::U16(n) => Some(*n as u32),
            EventValue::U32(n) => Some(*n),
            EventValue::I8(n) => if *n >= 0 { Some(*n as u32) } else { None },
            EventValue::I16(n) => if *n >= 0 { Some(*n as u32) } else { None },
            EventValue::I32(n) => if *n >= 0 { Some(*n as u32) } else { None },
            _ => None,
        }
    }

    /// Widen the value to `u64` where that cannot lose information.
    pub fn as_u64(&self) -> (r: Option<u64>)
        ensures
            r == as_u64_spec(*self),
    {
        match self {
            EventValue::U8(n) => Some(*n as u64),
            EventValue::U16(n) => Some(*n as u64),
            EventValue::U32(n) => Some(*n as u64),
            EventValue::U64(n) => Some(*n),
            EventValue::I8(n) => if *n >= 0 { Some(*n as u64) } else { None },
            EventValue::I16(n) => if *n >= 0 { Some(*n as u64) } else { None },
            EventValue::I32(n) => if *n >= 0 { Some(*n as u64) } else { None },
            EventValue::I64(n) => if *n >= 0 { Some(*n as u64) } else { None },
            EventValue::Pointer(p) => Some(*p),
            _ => None,
        }
    }

    /// Whether the value is the null kind.
    pub fn is_null(&self) -> (r: bool)
        ensures
            r == (*self is Null),
    {
        match self {
            EventValue::Null => true,
            _ => false,
        }
    }
}

/// First value stored under `name`, scanning left to right.
pub open spec fn lookup(props: Seq<(String, EventValue)>, name: Seq<char>) -> Option<EventValue>
    decreases props.len(),
{
    if props.len() == 0 {
        None
    } else if props[0].0@ == name {
        Some(props[0].1)
    } else {
        lookup(props.skip(1), name)
    }
}

/// A normalized trace event: identity, origin, timing, and a mapping from
/// property name to value. Constructed once per raw record and immutable
/// thereafter.
#[derive(Debug)]
pub struct EtwEvent {
    /// Provider GUID as a 128-bit value.
    pub provider_id: u128,
    /// Provider name, when the schema resolved one.
    pub provider_name: Option<String>,
    /// Event id.
    pub event_id: u16,
    /// Event version.
    pub version: u8,
    /// Event opcode.
    pub opcode: u8,
    /// Event level (0 = always … 5 = verbose).
    pub level: u8,
    /// Keyword bitmask.
    pub keywords: u64,
    /// Originating process id.
    pub process_id: u32,
    /// Originating thread id.
    pub thread_id: u32,
    /// When the event was generated (UTC).
    pub timestamp: Timestamp,
    /// Correlation id, absent when the native value was all zero.
    pub activity_id: Option<u128>,
    /// Related correlation id, absent when the native value was all zero.
    pub related_activity_id: Option<u128>,
    /// Task id.
    pub task: u16,
    /// Channel.
    pub channel: u8,
    /// Property name/value pairs, order irrelevant, first match wins.
    pub properties: Vec<(String, EventValue)>,
    /// Raw payload when normalization failed.
    pub raw_data: Option<Vec<u8>>,
    /// Captured stack addresses, when enabled.
    pub stack_trace: Option<Vec<u64>>,
}

impl EtwEvent {
    /// A fresh event with the given identity, informational level, and the
    /// current wall-clock time; every other field empty or zero.
    pub fn new(provider_id: u128, event_id: u16) -> (e: EtwEvent)
        ensures
            e.provider_id == provider_id,
            e.provider_name is None,
            e.event_id == event_id,
            e.version == 0,
            e.opcode == 0,
            e.level == 4,
            e.keywords == 0,
            e.process_id == 0,
            e.thread_id == 0,
            e.timestamp.wf(),
            e.activity_id is None,
            e.related_activity_id is None,
            e.task == 0,
            e.channel == 0,
            e.properties@ =~= Seq::<(String, EventValue)>::empty(),
            e.raw_data is None,
            e.stack_trace is None,
    {
        let now = wall_clock_now();
        let secs: i64 = if now.0 > i64::MAX as u64 {
            i64::MAX
        } else {
            now.0 as i64
        };
        EtwEvent {
            provider_id,
            provider_name: None,
            event_id,
            version: 0,
            opcode: 0,
            level: 4,
            keywords: 0,
            process_id: 0,
            thread_id: 0,
            timestamp: Timestamp { secs, nanos: now.1 },
            activity_id: None,
            related_activity_id: None,
            task: 0,
            channel: 0,
            properties: Vec::new(),
            raw_data: None,
            stack_trace: None,
        }
    }

    /// Look a property up by name.
    pub fn get(&self, name: &str) -> (r: Option<&EventValue>)
        ensures
            match r {
                Some(v) => lookup(self.properties@, name@) == Some(*v),
                None => lookup(self.properties@, name@) is None,
            },
    {
        let key = String::from_str(name);
        let mut i: usize = 0;
        proof {
            assert(self.properties@.skip(0) =~= self.properties@);
        }
        while i < self.properties.len()
            invariant
                i <= self.properties@.len(),
                key@ == name@,
                lookup(self.properties@, name@) == lookup(self.properties@.skip(i as int), name@),
            decreases self.properties@.len() - i,
        {
            proof {
                assert(self.properties@.skip(i as int).len() > 0);
                assert(self.properties@.skip(i as int)[0] == self.properties@[i as int]);
                assert(self.properties@.skip(i as int).skip(1) =~= self.properties@.skip(
                    i as int + 1,
                ));
            }
            if self.properties[i].0 == key {
                proof {
                    assert(lookup(self.properties@.skip(i as int), name@) == Some(
                        self.properties@[i as int].1,
                    ));
                }
                return Some(&self.properties[i].1);
            }
            proof {
                assert(lookup(self.properties@.skip(i as int), name@) == lookup(
                    self.properties@.skip(i as int + 1),
                    name@,
                ));
            }
            i += 1;
        }
        proof {
            assert(lookup(self.properties@.skip(i as int), name@) is None);
        }
        None
    }

    /// Look a property up and render it as text.
    pub fn get_string(&self, name: &str) -> (r: Option<String>)
        ensures
            match lookup(self.properties@, name@) {
                Some(v) => match r {
                    Some(s) => as_string_spec(v) == Some(s@),
                    None => as_string_spec(v) is None,
                },
                None => r is None,
            },
    {
        match self.get(name) {
            Some(v) => v.as_string(),
            None => None,
        }
    }

    /// Look a property up as `u32`.
    pub fn get_u32(&self, name: &str) -> (r: Option<u32>)
        ensures
            r == match lookup(self.properties@, name@) {
                Some(v) => as_u32_spec(v),
                None => None::<u32>,
            },
    {
        match self.get(name) {
            Some(v) => v.as_u32(),
            None => None,
        }
    }

    /// Look a property up as `u64`.
    pub fn get_u64(&self, name: &str) -> (r: Option<u64>)
        ensures
            r == match lookup(self.properties@, name@) {
                Some(v) => as_u64_spec(v),
                None => None::<u64>,
            },
    {
        match self.get(name) {
            Some(v) => v.as_u64(),
            None => None,
        }
    }
}

} // verus!
