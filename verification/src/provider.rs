//! Provider configuration: trace level, keyword masks, and per-provider
//! event filters, with the event-matching policy.

use vstd::prelude::*;
use vstd::string::StringExecFns;
use crate::error::{EtwError, EtwResult};
use crate::filter::EventFilter;
use crate::guid::{guid_parse, parse_guid};

verus! {

/// Verbosity ranking used for coarse filtering; an event passes when its
/// level is at or below the configured one.
#[derive(Debug, Clone, Copy, PartialEq, Eq, Structural)]
pub enum TraceLevel {
    /// Log always.
    Always,
    /// Critical errors.
    Critical,
    /// Errors.
    Error,
    /// Warnings.
    Warning,
    /// Informational.
    Info,
    /// Verbose/debug.
    Verbose,
}

/// The numeric rank of a trace level (0 = always … 5 = verbose).
pub open spec fn level_value(l: TraceLevel) -> u8 {
    match l {
        TraceLevel::Always => 0,
        TraceLevel::Critical => 1,
        TraceLevel::Error => 2,
        TraceLevel::Warning => 3,
        TraceLevel::Info => 4,
        TraceLevel::Verbose => 5,
    }
}

/// The level a numeric rank denotes; ranks above five clamp to verbose.
pub open spec fn level_of_value(value: u8) -> TraceLevel {
    if value == 0 {
        TraceLevel::Always
    } else if value == 1 {
        TraceLevel::Critical
    } else if value == 2 {
        TraceLevel::Error
    } else if value == 3 {
        TraceLevel::Warning
    } else if value == 4 {
        TraceLevel::Info
    } else {
        TraceLevel::Verbose
    }
}

impl TraceLevel {
    /// The numeric rank of the level.
    pub fn as_u8(&self) -> (v: u8)
        ensures
            v == level_value(*self),
    {
        match self {
            TraceLevel::Always => 0,
            TraceLevel::Critical => 1,
            TraceLevel::Error => 2,
            TraceLevel::Warning => 3,
            TraceLevel::Info => 4,
            TraceLevel::Verbose => 5,
        }
    }
}

impl Default for TraceLevel {
    /// The default level keeps everything.
    fn default() -> (l: Self)
        ensures
            l == TraceLevel::Verbose,
    {
        TraceLevel::Verbose
    }
}

impl From<u8> for TraceLevel {
    fn from(value: u8) -> (l: Self) {
        match value {
            0 => TraceLevel::Always,
            1 => TraceLevel::Critical,
            2 => TraceLevel::Error,
            3 => TraceLevel::Warning,
            4 => TraceLevel::Info,
            _ => TraceLevel::Verbose,
        }
    }
}

impl vstd::std_specs::convert::FromSpecImpl<u8> for TraceLevel {
    open spec fn obeys_from_spec() -> bool {
        true
    }

    open spec fn from_spec(value: u8) -> Self {
        level_of_value(value)
    }
}

/// The keyword mask that places no restriction on events.
pub const KEYWORDS_ANY_UNRESTRICTED: u64 = 0xFFFFFFFFFFFFFFFF;

/// A GUID-identified event source with its matching policy.
#[derive(Debug)]
pub struct EtwProvider {
    /// Provider GUID as a 128-bit value.
    pub guid: u128,
    /// Human-readable name, if known.
    pub name: Option<String>,
    /// Coarse verbosity cutoff.
    pub level: TraceLevel,
    /// Events must share at least one of these keyword bits, unless the
    /// mask is all ones, which places no restriction.
    pub keywords_any: u64,
    /// Events must carry every one of these keyword bits; zero places no
    /// restriction.
    pub keywords_all: u64,
    /// Filters, all of which an event must pass.
    pub filters: Vec<EventFilter>,
    /// Whether the provider is enabled.
    pub enabled: bool,
    /// Whether to capture stack traces for its events.
    pub capture_stack: bool,
}

/// The keyword policy: an all-ones `keywords_any` places no restriction,
/// otherwise the event's keywords must intersect it; a zero `keywords_all`
/// places no restriction, otherwise the event must carry every bit of it.
pub open spec fn keywords_pass(p: EtwProvider, keywords: u64) -> bool {
    &&& (p.keywords_any == KEYWORDS_ANY_UNRESTRICTED || keywords & p.keywords_any != 0)
    &&& (p.keywords_all == 0 || keywords & p.keywords_all == p.keywords_all)
}

/// The provider accepts an event iff its level is at or below the
/// configured level, the keyword policy passes, and every attached filter
/// matches.
pub open spec fn matches_event_spec(
    p: EtwProvider,
    event_id: u16,
    opcode: u8,
    level: u8,
    keywords: u64,
) -> bool {
    &&& level <= level_value(p.level)
    &&& keywords_pass(p, keywords)
    &&& forall|k: int|
        0 <= k < p.filters@.len() ==> #[trigger] p.filters@[k].matches_spec(event_id, opcode)
}

impl EtwProvider {
    /// A provider for the given GUID with default policy: verbose level,
    /// unrestricted keywords, no filters, enabled, no stack capture.
    pub fn by_guid(guid: u128) -> (p: Self)
        ensures
            p.guid == guid,
            p.name is None,
            p.level == TraceLevel::Verbose,
            p.keywords_any == KEYWORDS_ANY_UNRESTRICTED,
            p.keywords_all == 0,
            p.filters@ =~= Seq::<EventFilter>::empty(),
            p.enabled,
            !p.capture_stack,
    {
        EtwProvider {
            guid,
            name: None,
            level: TraceLevel::Verbose,
            keywords_any: 0xFFFFFFFFFFFFFFFF,
            keywords_all: 0,
            filters: Vec::new(),
            enabled: true,
            capture_stack: false,
        }
    }

    /// Parse a GUID string and build a default provider for it; a string
    /// that is no GUID is rejected as `InvalidProviderGuid`.
    pub fn from_guid_str(guid_str: &str) -> (r: EtwResult<Self>)
        ensures
            match r {
                Ok(p) => {
                    &&& guid_parse(guid_str@) == Some(p.guid)
                    &&& p.name is None
                    &&& p.level == TraceLevel::Verbose
                    &&& p.keywords_any == KEYWORDS_ANY_UNRESTRICTED
                    &&& p.keywords_all == 0
                    &&& p.filters@ =~= Seq::<EventFilter>::empty()
                    &&& p.enabled
                    &&& !p.capture_stack
                },
                Err(e) => guid_parse(guid_str@) is None && (e matches EtwError::InvalidProviderGuid(
                    g,
                ) && g@ == guid_str@),
            },
    {
        match parse_guid(guid_str) {
            Some(guid) => Ok(Self::by_guid(guid)),
            None => Err(EtwError::InvalidProviderGuid(copy_str(guid_str))),
        }
    }

    /// Set the display name.
    pub fn with_name(self, name: String) -> (p: Self)
        ensures
            p == (EtwProvider { name: Some(name), ..self }),
    {
        EtwProvider { name: Some(name), ..self }
    }

    /// Set the verbosity cutoff.
    pub fn with_level(self, level: TraceLevel) -> (p: Self)
        ensures
            p == (EtwProvider { level, ..self }),
    {
        EtwProvider { level, ..self }
    }

    /// Set the any-of keyword mask.
    pub fn with_keywords_any(self, keywords: u64) -> (p: Self)
        ensures
            p == (EtwProvider { keywords_any: keywords, ..self }),
    {
        EtwProvider { keywords_any: keywords, ..self }
    }

    /// Set the all-of keyword mask.
    pub fn with_keywords_all(self, keywords: u64) -> (p: Self)
        ensures
            p == (EtwProvider { keywords_all: keywords, ..self }),
    {
        EtwProvider { keywords_all: keywords, ..self }
    }

    /// Append an event filter.
    pub fn with_filter(self, filter: EventFilter) -> (p: Self)
        ensures
            p.guid == self.guid,
            p.name == self.name,
            p.level == self.level,
            p.keywords_any == self.keywords_any,
            p.keywords_all == self.keywords_all,
            p.filters@ =~= self.filters@.push(filter),
            p.enabled == self.enabled,
            p.capture_stack == self.capture_stack,
    {
        let mut filters = self.filters;
        filters.push(filter);
        EtwProvider {
            guid: self.guid,
            name: self.name,
            level: self.level,
            keywords_any: self.keywords_any,
            keywords_all: self.keywords_all,
            filters,
            enabled: self.enabled,
            capture_stack: self.capture_stack,
        }
    }

    /// Enable or disable stack capture.
    pub fn with_stack_trace(self, capture: bool) -> (p: Self)
        ensures
            p == (EtwProvider { capture_stack: capture, ..self }),
    {
        EtwProvider { capture_stack: capture, ..self }
    }

    /// Test an event's identity against this provider's policy.
    pub fn matches_event(&self, event_id: u16, opcode: u8, level: u8, keywords: u64) -> (r: bool)
        ensures
            r == matches_event_spec(*self, event_id, opcode, level, keywords),
    {
        if level > self.level.as_u8() {
            return false;
        }
        if self.keywords_any != 0xFFFFFFFFFFFFFFFF && (keywords & self.keywords_any) == 0 {
            return false;
        }
        if self.keywords_all != 0 && (keywords & self.keywords_all) != self.keywords_all {
            return false;
        }
        let mut i: usize = 0;
        while i < self.filters.len()
            invariant
                i <= self.filters@.len(),
                level <= level_value(self.level),
                keywords_pass(*self, keywords),
                forall|k: int|
                    0 <= k < i ==> #[trigger] self.filters@[k].matches_spec(event_id, opcode),
            decreases self.filters@.len() - i,
        {
            if !self.filters[i].matches(event_id, opcode) {
                return false;
            }
            i += 1;
        }
        true
    }
}

/// Copy a borrowed string.
fn copy_str(s: &str) -> (r: String)
    ensures
        r@ == s@,
{
    let mut out = String::new();
    out.append(s);
    out
}

/// Property flags a provider registration can request from the backend.
#[derive(Debug, Clone, Copy, PartialEq, Eq, Structural)]
pub enum EnableProperty {
    /// Capture stack traces.
    StackTrace,
    /// Capture the security identifier.
    Sid,
    /// Capture the terminal session id.
    TsId,
    /// Capture the process start key.
    ProcessStartKey,
}

/// The native flag value of each enable property.
pub open spec fn enable_property_value(p: EnableProperty) -> u32 {
    match p {
        EnableProperty::StackTrace => 0x00000001,
        EnableProperty::Sid => 0x00000002,
        EnableProperty::TsId => 0x00000004,
        EnableProperty::ProcessStartKey => 0x00000008,
    }
}

impl EnableProperty {
    /// The native flag value.
    pub fn value(&self) -> (v: u32)
        ensures
            v == enable_property_value(*self),
    {
        match self {
            EnableProperty::StackTrace => 0x00000001,
            EnableProperty::Sid => 0x00000002,
            EnableProperty::TsId => 0x00000004,
            EnableProperty::ProcessStartKey => 0x00000008,
        }
    }
}

} // verus!
