//! Composable event filters over event id, opcode, and process identity.

use vstd::prelude::*;
use crate::text::{contains_sub, contains_substring, lower_of, to_lowercase};

verus! {

/// A single filter over the identity of an event or of its originating
/// process. Event-identity variants ignore the process axis and vice versa;
/// the two axes are combined by conjunction in `FilterBuilder`.
///
/// A caller-supplied predicate (an arbitrary closure over event id and
/// opcode) cannot be carried in a verified datatype, so it has no variant
/// here; the unverified shell may apply such a predicate on top of these
/// variants. Predicates of that kind are configuration-only and are never
/// persisted.
#[derive(Debug)]
pub enum EventFilter {
    /// Keep only events whose id is in the list.
    EventIds(Vec<u16>),
    /// Keep only events whose opcode is in the list.
    Opcodes(Vec<u8>),
    /// Keep only events from this process id.
    ProcessId(u32),
    /// Keep only events whose process name contains this string
    /// (case-insensitive).
    ProcessName(String),
    /// Drop events whose id is in the list.
    ExcludeEventIds(Vec<u16>),
}

impl EventFilter {
    /// What `matches` returns: membership tests on the event axis; process
    /// variants always pass here.
    pub open spec fn matches_spec(self, event_id: u16, opcode: u8) -> bool {
        match self {
            EventFilter::EventIds(ids) => ids@.contains(event_id),
            EventFilter::Opcodes(ops) => ops@.contains(opcode),
            EventFilter::ExcludeEventIds(ids) => !ids@.contains(event_id),
            EventFilter::ProcessId(_) => true,
            EventFilter::ProcessName(_) => true,
        }
    }

    /// Test the filter against an event's id and opcode.
    pub fn matches(&self, event_id: u16, opcode: u8) -> (r: bool)
        ensures
            r == self.matches_spec(event_id, opcode),
    {
        match self {
            EventFilter::EventIds(ids) => contains_u16(ids, event_id),
            EventFilter::Opcodes(ops) => contains_u8(ops, opcode),
            EventFilter::ExcludeEventIds(ids) => !contains_u16(ids, event_id),
            EventFilter::ProcessId(_) => true,
            EventFilter::ProcessName(_) => true,
        }
    }

    /// What `matches_process` returns: the process-id variant compares
    /// ids; the process-name variant looks for its (case-folded) text
    /// inside the given name and fails when no name is known; every other
    /// variant passes.
    pub open spec fn matches_process_spec(self, pid: u32, process_name: Option<Seq<char>>) -> bool {
        match self {
            EventFilter::ProcessId(filter_pid) => filter_pid == pid,
            EventFilter::ProcessName(name) => match process_name {
                Some(pn) => contains_sub(lower_of(pn), lower_of(name@)),
                None => false,
            },
            _ => true,
        }
    }

    /// Test the filter against an event's process identity.
    pub fn matches_process(&self, pid: u32, process_name: Option<&str>) -> (r: bool)
        ensures
            r == self.matches_process_spec(
                pid,
                match process_name {
                    Some(pn) => Some(pn@),
                    None => None,
                },
            ),
    {
        match self {
            EventFilter::ProcessId(filter_pid) => *filter_pid == pid,
            EventFilter::ProcessName(name) => match process_name {
                Some(pn) => {
                    let hay = to_lowercase(pn);
                    let needle = to_lowercase(name.as_str());
                    contains_substring(hay.as_str(), needle.as_str())
                },
                None => false,
            },
            _ => true,
        }
    }
}

/// An ordered conjunction of filters: an event passes only when every
/// contained filter accepts both its identity and its process context.
#[derive(Debug)]
pub struct FilterBuilder {
    /// The filters, in the order they were added.
    pub filters: Vec<EventFilter>,
}

/// What `matches_all` returns: every filter passes on both axes.
pub open spec fn matches_all_spec(
    filters: Seq<EventFilter>,
    event_id: u16,
    opcode: u8,
    pid: u32,
    process_name: Option<Seq<char>>,
) -> bool {
    forall|k: int|
        0 <= k < filters.len() ==> (#[trigger] filters[k].matches_spec(event_id, opcode)
            && filters[k].matches_process_spec(pid, process_name))
}

impl FilterBuilder {
    /// An empty conjunction, which passes everything.
    pub fn new() -> (b: Self)
        ensures
            b.filters@ =~= Seq::<EventFilter>::empty(),
    {
        FilterBuilder { filters: Vec::new() }
    }

    /// Add a filter keeping only the given event ids.
    pub fn event_ids(self, ids: Vec<u16>) -> (b: Self)
        ensures
            b.filters@ =~= self.filters@.push(EventFilter::EventIds(ids)),
    {
        let mut filters = self.filters;
        filters.push(EventFilter::EventIds(ids));
        FilterBuilder { filters }
    }

    /// Add a filter keeping only the given opcodes.
    pub fn opcodes(self, opcodes: Vec<u8>) -> (b: Self)
        ensures
            b.filters@ =~= self.filters@.push(EventFilter::Opcodes(opcodes)),
    {
        let mut filters = self.filters;
        filters.push(EventFilter::Opcodes(opcodes));
        FilterBuilder { filters }
    }

    /// Add a filter keeping only events of one process id.
    pub fn process_id(self, pid: u32) -> (b: Self)
        ensures
            b.filters@ =~= self.filters@.push(EventFilter::ProcessId(pid)),
    {
        let mut filters = self.filters;
        filters.push(EventFilter::ProcessId(pid));
        FilterBuilder { filters }
    }

    /// Add a filter keeping only events whose process name contains the
    /// given text.
    pub fn process_name(self, name: String) -> (b: Self)
        ensures
            b.filters@ =~= self.filters@.push(EventFilter::ProcessName(name)),
    {
        let mut filters = self.filters;
        filters.push(EventFilter::ProcessName(name));
        FilterBuilder { filters }
    }

    /// Add a filter dropping the given event ids.
    pub fn exclude_event_ids(self, ids: Vec<u16>) -> (b: Self)
        ensures
            b.filters@ =~= self.filters@.push(EventFilter::ExcludeEventIds(ids)),
    {
        let mut filters = self.filters;
        filters.push(EventFilter::ExcludeEventIds(ids));
        FilterBuilder { filters }
    }

    /// Hand the collected filters out.
    pub fn build(self) -> (r: Vec<EventFilter>)
        ensures
            r@ == self.filters@,
    {
        self.filters
    }

    /// Test an event against every filter, on both axes.
    pub fn matches_all(
        &self,
        event_id: u16,
        opcode: u8,
        pid: u32,
        process_name: Option<&str>,
    ) -> (r: bool)
        ensures
            r == matches_all_spec(
                self.filters@,
                event_id,
                opcode,
                pid,
                match process_name {
                    Some(pn) => Some(pn@),
                    None => None,
                },
            ),
    {
        let ghost pname: Option<Seq<char>> = match process_name {
            Some(pn) => Some(pn@),
            None => None,
        };
        let mut i: usize = 0;
        while i < self.filters.len()
            invariant
                i <= self.filters@.len(),
                pname == match process_name {
                    Some(pn) => Some(pn@),
                    None => None::<Seq<char>>,
                },
                forall|k: int|
                    0 <= k < i ==> ((#[trigger] self.filters@[k]).matches_spec(event_id, opcode)
                        && self.filters@[k].matches_process_spec(pid, pname)),
            decreases self.filters@.len() - i,
        {
            let ok_event = self.filters[i].matches(event_id, opcode);
            if !ok_event {
                return false;
            }
            let ok_process = self.filters[i].matches_process(pid, process_name);
            if !ok_process {
                return false;
            }
            proof {
                assert(self.filters@[i as int].matches_spec(event_id, opcode));
                assert(self.filters@[i as int].matches_process_spec(pid, pname));
            }
            i += 1;
        }
        true
    }
}

impl Default for FilterBuilder {
    /// The default builder is the empty conjunction.
    fn default() -> (b: Self)
        ensures
            b.filters@ =~= Seq::<EventFilter>::empty(),
    {
        FilterBuilder::new()
    }
}

/// Linear membership test on a `Vec<u16>`.
fn contains_u16(v: &Vec<u16>, x: u16) -> (r: bool)
    ensures
        r == v@.contains(x),
{
    let mut i: usize = 0;
    while i < v.len()
        invariant
            i <= v@.len(),
            forall|j: int| 0 <= j < i ==> v@[j] != x,
        decreases v@.len() - i,
    {
        if v[i] == x {
            return true;
        }
        i += 1;
    }
    false
}

/// Linear membership test on a `Vec<u8>`.
fn contains_u8(v: &Vec<u8>, x: u8) -> (r: bool)
    ensures
        r == v@.contains(x),
{
    let mut i: usize = 0;
    while i < v.len()
        invariant
            i <= v@.len(),
            forall|j: int| 0 <= j < i ==> v@[j] != x,
        decreases v@.len() - i,
    {
        if v[i] == x {
            return true;
        }
        i += 1;
    }
    false
}

} // verus!
