//! User-mode trace sessions: configuration, the Created → Running →
//! Stopped state machine, the backend start/stop plans, and the callback
//! delivery path into the bounded channel.
//!
//! The backend itself (the native tracing engine) is an outside
//! collaborator: `start` and `stop` decide and record the transition and
//! hand back a plan naming exactly what the caller must ask the backend
//! to do; the thread that runs the backend's processing loop reports its
//! exit through `handle_backend_exit`.

use vstd::prelude::*;
use vstd::string::StringExecFns;
use crate::error::{EtwError, EtwResult};
use crate::event::{EtwEvent, EventValue, filetime_to_timestamp, EPOCH_OFFSET_100NS};
use crate::filter::EventFilter;
use crate::guid::random_suffix;
use crate::pipeline::{EventChannel, channel_capacity, channel_queue};
use crate::provider::{EtwProvider, KEYWORDS_ANY_UNRESTRICTED, level_value};
use crate::stats::{SessionStats, StatsTracker, bumped, bumped_by};

verus! {

/// Where events come from: a live trace or a trace file.
#[derive(Debug, Clone, Copy, PartialEq, Eq, Structural)]
pub enum TraceMode {
    /// Live events as they happen.
    RealTime,
    /// Events replayed from a trace file.
    File,
}

impl Default for TraceMode {
    /// Live tracing is the default.
    fn default() -> (m: Self)
        ensures
            m == TraceMode::RealTime,
    {
        TraceMode::RealTime
    }
}

/// Session configuration. The name must be unique among live sessions.
#[derive(Debug, Clone)]
pub struct SessionConfig {
    /// Session name.
    pub name: String,
    /// Live or file-replay mode.
    pub mode: TraceMode,
    /// Backend buffer size in KB.
    pub buffer_size_kb: u32,
    /// Minimum backend buffer count.
    pub min_buffers: u32,
    /// Maximum backend buffer count.
    pub max_buffers: u32,
    /// Backend flush interval in seconds.
    pub flush_timer_secs: u32,
    /// Best-effort stop of an existing same-named session before starting.
    pub stop_if_exists: bool,
    /// Bounded channel depth between the callback and the consumer.
    pub channel_capacity: usize,
}

impl Default for SessionConfig {
    /// The conventional configuration: a fresh random session name with
    /// the library prefix, live mode, 64 KB buffers, 64 to 128 of them,
    /// one-second flushes, pre-emptive stop on, and a channel of 10000.
    fn default() -> (c: Self)
        ensures
            c.name@.len() == 17,
            c.name@.subrange(0, 9) == "PyETWkit-"@,
            c.mode == TraceMode::RealTime,
            c.buffer_size_kb == 64,
            c.min_buffers == 64,
            c.max_buffers == 128,
            c.flush_timer_secs == 1,
            c.stop_if_exists,
            c.channel_capacity == 10000,
    {
        let mut name = String::from_str("PyETWkit-");
        proof {
            reveal_strlit("PyETWkit-");
        }
        let suffix = random_suffix();
        name.append(suffix.as_str());
        proof {
            assert(name@.subrange(0, 9) =~= "PyETWkit-"@);
        }
        SessionConfig {
            name,
            mode: TraceMode::RealTime,
            buffer_size_kb: 64,
            min_buffers: 64,
            max_buffers: 128,
            flush_timer_secs: 1,
            stop_if_exists: true,
            channel_capacity: 10000,
        }
    }
}

/// The lifecycle of a session.
#[derive(Debug, Clone, Copy, PartialEq, Eq, Structural)]
pub enum SessionState {
    /// Built but never started.
    Created,
    /// The backend trace is live.
    Running,
    /// Stopped, by request or because the backend loop ended.
    Stopped,
    /// Reserved for future use; no transition reaches it.
    Error,
}

/// What one `start` call does to the state: from anything but Running it
/// succeeds and the session is Running; from Running it fails and nothing
/// changes.
pub open spec fn start_step(st: SessionState) -> (SessionState, bool) {
    if st is Running {
        (st, false)
    } else {
        (SessionState::Running, true)
    }
}

/// What one `stop` call does to the state: from Running it succeeds and
/// the session is Stopped; from anything else it fails and nothing
/// changes.
pub open spec fn stop_step(st: SessionState) -> (SessionState, bool) {
    if st is Running {
        (SessionState::Stopped, true)
    } else {
        (st, false)
    }
}

/// The state after `k` consecutive `start` calls, with the number that
/// succeeded.
pub open spec fn run_starts(st: SessionState, k: nat) -> (SessionState, nat)
    decreases k,
{
    if k == 0 {
        (st, 0)
    } else {
        let first = start_step(st);
        let rest = run_starts(first.0, (k - 1) as nat);
        (rest.0, rest.1 + if first.1 {
            1nat
        } else {
            0nat
        })
    }
}

/// Law: in any run of consecutive `start` calls with no `stop` between,
/// only the first can succeed. From a state that admits a start, exactly
/// one of `k >= 1` calls succeeds; from Running, none does.
pub proof fn lemma_start_only_first(st: SessionState, k: nat)
    requires
        k >= 1,
    ensures
        !(st is Running) ==> run_starts(st, k).1 == 1,
        st is Running ==> run_starts(st, k).1 == 0,
    decreases k,
{
    let first = start_step(st);
    if k == 1 {
        assert(run_starts(first.0, 0).1 == 0);
    } else {
        lemma_start_only_first(first.0, (k - 1) as nat);
    }
}

/// Law: a `stop` on a session that was never started, or was already
/// stopped, fails and leaves the state alone.
pub proof fn lemma_stop_needs_running(st: SessionState)
    requires
        st is Created || st is Stopped,
    ensures
        !stop_step(st).1,
        stop_step(st).0 == st,
{
}

/// One provider's registration as the backend will see it: numeric
/// level, keyword masks only where they restrict, event-id filters, and
/// the process-id filters that fit the backend's 16-bit filter width.
#[derive(Debug)]
pub struct BackendProviderPlan {
    /// Provider GUID.
    pub guid: u128,
    /// Numeric trace level.
    pub level: u8,
    /// Any-of keyword mask; absent when unrestricted (all ones).
    pub keywords_any: Option<u64>,
    /// All-of keyword mask; absent when zero.
    pub keywords_all: Option<u64>,
    /// Event ids the backend should keep, gathered from every
    /// `EventIds` filter in order.
    pub event_id_filters: Vec<u16>,
    /// Process ids the backend should keep. Ids beyond 16 bits are
    /// dropped here (under-filtering is safe) and must be re-checked
    /// downstream with `EventFilter::matches_process`.
    pub pid_filters: Vec<u16>,
}

/// The event ids of every `EventIds` filter, in order.
pub open spec fn plan_event_ids(filters: Seq<EventFilter>) -> Seq<u16>
    decreases filters.len(),
{
    if filters.len() == 0 {
        Seq::empty()
    } else {
        (match filters[0] {
            EventFilter::EventIds(ids) => ids@,
            _ => Seq::<u16>::empty(),
        }) + plan_event_ids(filters.skip(1))
    }
}

/// The process ids of every `ProcessId` filter that fits in 16 bits, in
/// order.
pub open spec fn plan_pid_filters(filters: Seq<EventFilter>) -> Seq<u16>
    decreases filters.len(),
{
    if filters.len() == 0 {
        Seq::empty()
    } else {
        (match filters[0] {
            EventFilter::ProcessId(pid) => if pid <= 0xFFFF {
                seq![pid as u16]
            } else {
                Seq::<u16>::empty()
            },
            _ => Seq::<u16>::empty(),
        }) + plan_pid_filters(filters.skip(1))
    }
}

/// Whether a backend plan is the faithful projection of a provider.
pub open spec fn plan_matches_provider(bp: BackendProviderPlan, p: EtwProvider) -> bool {
    &&& bp.guid == p.guid
    &&& bp.level == level_value(p.level)
    &&& bp.keywords_any == (if p.keywords_any == KEYWORDS_ANY_UNRESTRICTED {
        None
    } else {
        Some(p.keywords_any)
    })
    &&& bp.keywords_all == (if p.keywords_all == 0 {
        None::<u64>
    } else {
        Some(p.keywords_all)
    })
    &&& bp.event_id_filters@ == plan_event_ids(p.filters@)
    &&& bp.pid_filters@ == plan_pid_filters(p.filters@)
}

/// Everything a caller must do against the backend to realize a
/// successful `start`: optionally stop a session of the same name first,
/// then start a trace under the session name with these provider
/// registrations, and run the backend's processing loop on its thread.
#[derive(Debug)]
pub struct StartPlan {
    /// Name to stop first, best effort, when `stop_if_exists` is set.
    pub stop_existing_name: Option<String>,
    /// The trace name to start under.
    pub session_name: String,
    /// One registration per attached provider, in order.
    pub providers: Vec<BackendProviderPlan>,
}

/// What a caller must do against the backend after a successful `stop`:
/// stop the trace (by handle where one is held, else by this name) and
/// join the processing thread.
#[derive(Debug)]
pub struct StopAction {
    /// The trace name to stop.
    pub session_name: String,
}

/// What became of one delivered event.
#[derive(Debug, Clone, Copy, PartialEq, Eq, Structural)]
pub enum DeliveryOutcome {
    /// Queued for the consumer.
    Queued,
    /// Dropped because the channel was full.
    Dropped,
}

/// A user-mode trace session: configuration, providers, lifecycle state,
/// statistics, and the bounded channel from the callback to the consumer.
pub struct EtwSession {
    /// The configuration the session was built with.
    pub config: SessionConfig,
    /// The providers to register at start.
    pub providers: Vec<EtwProvider>,
    /// Lifecycle state.
    pub state: SessionState,
    /// The bounded event channel.
    pub channel: EventChannel,
    /// The session's counters.
    pub stats: StatsTracker,
}

/// The channel was built with the configured capacity.
pub open spec fn session_wf(s: EtwSession) -> bool {
    channel_capacity(s.channel) == s.config.channel_capacity as nat
}

/// The ghost model of the delivery pipeline: queue fill, capacity, and
/// the three counters the callback touches.
pub struct PipelineModel {
    /// Events now queued.
    pub queue_len: nat,
    /// Channel capacity.
    pub capacity: nat,
    /// Events received.
    pub received: u64,
    /// Events queued for the consumer.
    pub processed: u64,
    /// Events dropped.
    pub lost: u64,
}

/// The pipeline model of a session.
pub open spec fn pipeline_model(s: EtwSession) -> PipelineModel {
    PipelineModel {
        queue_len: channel_queue(s.channel).len(),
        capacity: channel_capacity(s.channel),
        received: s.stats.events_received,
        processed: s.stats.events_processed,
        lost: s.stats.events_lost,
    }
}

/// What one delivery does to the pipeline: the receive counter always
/// moves; below capacity the event is queued and counted processed, at
/// capacity it is dropped and counted lost.
pub open spec fn deliver_step(m: PipelineModel) -> (PipelineModel, bool) {
    if m.queue_len < m.capacity {
        (
            PipelineModel {
                queue_len: m.queue_len + 1,
                received: bumped(m.received),
                processed: bumped(m.processed),
                ..m
            },
            true,
        )
    } else {
        (
            PipelineModel {
                received: bumped(m.received),
                lost: bumped_by(m.lost, 1),
                ..m
            },
            false,
        )
    }
}

/// The pipeline after `k` deliveries with no consumer draining, with the
/// number that were dropped.
pub open spec fn run_deliveries(m: PipelineModel, k: nat) -> (PipelineModel, nat)
    decreases k,
{
    if k == 0 {
        (m, 0)
    } else {
        let first = deliver_step(m);
        let rest = run_deliveries(first.0, (k - 1) as nat);
        (rest.0, rest.1 + if first.1 {
            0nat
        } else {
            1nat
        })
    }
}

/// The smaller of two naturals.
pub open spec fn min_nat(a: nat, b: nat) -> nat {
    if a <= b {
        a
    } else {
        b
    }
}

/// Law: delivering `k` events into a pipeline with `free` slots left and
/// no consumer draining queues exactly `min(k, free)` of them and drops
/// the remaining `k - min(k, free)`, which is also the number of
/// deliveries that report a full channel. Counters are assumed far from
/// their wrap-around point.
pub proof fn lemma_overflow_accounting(m: PipelineModel, k: nat)
    requires
        m.received + k <= u64::MAX,
        m.processed + k <= u64::MAX,
        m.lost + k <= u64::MAX,
        m.queue_len <= m.capacity,
    ensures
        ({
            let free = (m.capacity - m.queue_len) as nat;
            let queued = min_nat(k, free);
            let out = run_deliveries(m, k);
            &&& out.0.received == m.received + k
            &&& out.0.processed == m.processed + queued
            &&& out.0.lost == m.lost + (k - queued)
            &&& out.0.queue_len == m.queue_len + queued
            &&& out.0.capacity == m.capacity
            &&& out.1 == k - queued
        }),
    decreases k,
{
    if k == 0 {
    } else {
        let first = deliver_step(m);
        lemma_overflow_accounting(first.0, (k - 1) as nat);
    }
}

/// Law: into a fresh pipeline of capacity `capacity`, delivering
/// `capacity + extra` events (`extra` at least one) with no consumer
/// draining queues exactly `capacity` of them and drops the rest:
/// `extra` deliveries report a full channel, the lost counter reads
/// `extra`, and the processed counter reads `capacity`.
pub proof fn lemma_capacity_overflow(capacity: nat, extra: nat)
    requires
        extra >= 1,
        capacity + extra <= u64::MAX,
    ensures
        ({
            let m = PipelineModel {
                queue_len: 0,
                capacity,
                received: 0,
                processed: 0,
                lost: 0,
            };
            let out = run_deliveries(m, capacity + extra);
            &&& out.1 == extra
            &&& out.0.lost == extra
            &&& out.0.processed == capacity
            &&& out.0.received == capacity + extra
        }),
{
    let m = PipelineModel { queue_len: 0, capacity, received: 0, processed: 0, lost: 0 };
    lemma_overflow_accounting(m, capacity + extra);
}

impl EtwSession {
    /// A session under the given name with the default configuration.
    pub fn new(name: String) -> (s: Self)
        ensures
            s.config.name == name,
            s.config.mode == TraceMode::RealTime,
            s.config.buffer_size_kb == 64,
            s.config.min_buffers == 64,
            s.config.max_buffers == 128,
            s.config.flush_timer_secs == 1,
            s.config.stop_if_exists,
            s.config.channel_capacity == 10000,
            s.providers@ =~= Seq::<EtwProvider>::empty(),
            s.state == SessionState::Created,
            channel_queue(s.channel) == Seq::<EtwEvent>::empty(),
            session_wf(s),
            s.stats.events_received == 0,
            s.stats.events_processed == 0,
            s.stats.events_lost == 0,
    {
        let defaults = SessionConfig::default();
        let config = SessionConfig { name, ..defaults };
        Self::with_config(config)
    }

    /// A session with the given configuration: created, idle, with an
    /// empty channel of the configured capacity and zeroed counters.
    pub fn with_config(config: SessionConfig) -> (s: Self)
        requires
            config.channel_capacity < 0x1000_0000_0000_0000,
        ensures
            s.config == config,
            s.providers@ =~= Seq::<EtwProvider>::empty(),
            s.state == SessionState::Created,
            channel_queue(s.channel) == Seq::<EtwEvent>::empty(),
            session_wf(s),
            s.stats.events_received == 0,
            s.stats.events_processed == 0,
            s.stats.events_lost == 0,
            s.stats.buffers_lost == 0,
            s.stats.buffers_read == 0,
            s.stats.buffer_size_kb == config.buffer_size_kb,
            s.stats.buffers_allocated == config.min_buffers,
    {
        let channel = EventChannel::with_capacity(config.channel_capacity);
        let stats = StatsTracker::new(config.buffer_size_kb, config.min_buffers);
        EtwSession { config, providers: Vec::new(), state: SessionState::Created, channel, stats }
    }

    /// Attach a provider; it takes effect at the next `start`.
    pub fn add_provider(&mut self, provider: EtwProvider)
        ensures
            final(self).providers@ =~= old(self).providers@.push(provider),
            final(self).config == old(self).config,
            final(self).state == old(self).state,
            final(self).channel == old(self).channel,
            final(self).stats == old(self).stats,
    {
        self.providers.push(provider);
    }

    /// Start the session. From Running this fails with
    /// `SessionAlreadyRunning` and changes nothing. Otherwise the state
    /// becomes Running at once and the returned plan names what the
    /// caller must do against the backend: optionally stop a same-named
    /// session first (best effort, errors ignored), then start the trace
    /// with the projected provider registrations and run the backend's
    /// processing loop. Callers must not assume queue content right
    /// after this returns. If the backend start fails, report it with
    /// `handle_backend_exit`.
    pub fn start(&mut self) -> (r: EtwResult<StartPlan>)
        ensures
            final(self).state == start_step(old(self).state).0,
            r is Ok <==> start_step(old(self).state).1,
            final(self).config == old(self).config,
            final(self).providers == old(self).providers,
            final(self).channel == old(self).channel,
            final(self).stats == old(self).stats,
            match r {
                Ok(plan) => {
                    &&& plan.session_name@ == old(self).config.name@
                    &&& plan.stop_existing_name matches Some(n) ==> old(self).config.stop_if_exists
                        && n@ == old(self).config.name@
                    &&& plan.stop_existing_name is None ==> !old(self).config.stop_if_exists
                    &&& plan.providers@.len() == old(self).providers@.len()
                    &&& forall|i: int|
                        0 <= i < plan.providers@.len() ==> plan_matches_provider(
                            #[trigger] plan.providers@[i],
                            old(self).providers@[i],
                        )
                },
                Err(e) => e == EtwError::SessionAlreadyRunning,
            },
    {
        if self.is_running() {
            return Err(EtwError::SessionAlreadyRunning);
        }
        let stop_existing_name = if self.config.stop_if_exists {
            Some(copy_string(&self.config.name))
        } else {
            None
        };
        let mut plans: Vec<BackendProviderPlan> = Vec::new();
        let mut i: usize = 0;
        while i < self.providers.len()
            invariant
                i <= self.providers@.len(),
                plans@.len() == i,
                forall|j: int|
                    0 <= j < i ==> plan_matches_provider(
                        #[trigger] plans@[j],
                        self.providers@[j],
                    ),
            decreases self.providers@.len() - i,
        {
            let plan = build_provider_plan(&self.providers[i]);
            plans.push(plan);
            i += 1;
        }
        let plan = StartPlan {
            stop_existing_name,
            session_name: copy_string(&self.config.name),
            providers: plans,
        };
        self.state = SessionState::Running;
        Ok(plan)
    }

    /// Stop the session. From anything but Running this fails with
    /// `SessionNotRunning` and changes nothing — calling stop twice
    /// reports `SessionNotRunning` the second time. From Running the
    /// state becomes Stopped and the returned action names the trace the
    /// caller must stop (by handle where one is held, else by this name)
    /// before joining the processing thread.
    pub fn stop(&mut self) -> (r: EtwResult<StopAction>)
        ensures
            final(self).state == stop_step(old(self).state).0,
            r is Ok <==> stop_step(old(self).state).1,
            final(self).config == old(self).config,
            final(self).providers == old(self).providers,
            final(self).channel == old(self).channel,
            final(self).stats == old(self).stats,
            match r {
                Ok(action) => action.session_name@ == old(self).config.name@,
                Err(e) => e == EtwError::SessionNotRunning,
            },
    {
        if !self.is_running() {
            return Err(EtwError::SessionNotRunning);
        }
        self.state = SessionState::Stopped;
        Ok(StopAction { session_name: copy_string(&self.config.name) })
    }

    /// Record that the backend's processing loop has exited (the
    /// processing thread calls this on its way out, and a caller whose
    /// backend start failed calls it to roll the state back).
    pub fn handle_backend_exit(&mut self)
        ensures
            final(self).state == SessionState::Stopped,
            final(self).config == old(self).config,
            final(self).providers == old(self).providers,
            final(self).channel == old(self).channel,
            final(self).stats == old(self).stats,
    {
        self.state = SessionState::Stopped;
    }

    /// The callback path for one normalized event: count it received,
    /// then try a non-blocking send. Below capacity the event is queued
    /// and counted processed; at capacity it is dropped and counted
    /// lost, never retried. This call never blocks.
    pub fn deliver_event(&mut self, event: EtwEvent) -> (outcome: DeliveryOutcome)
        ensures
            pipeline_model(*final(self)) == deliver_step(pipeline_model(*old(self))).0,
            (outcome is Queued) == deliver_step(pipeline_model(*old(self))).1,
            (outcome is Queued) ==> channel_queue(final(self).channel) == channel_queue(
                old(self).channel,
            ).push(event),
            (outcome is Dropped) ==> channel_queue(final(self).channel) == channel_queue(
                old(self).channel,
            ),
            final(self).config == old(self).config,
            final(self).providers == old(self).providers,
            final(self).state == old(self).state,
            final(self).stats.buffers_lost == old(self).stats.buffers_lost,
            final(self).stats.buffers_read == old(self).stats.buffers_read,
            final(self).stats.buffer_size_kb == old(self).stats.buffer_size_kb,
            final(self).stats.buffers_allocated == old(self).stats.buffers_allocated,
    {
        self.stats.record_event_received();
        if self.channel.try_send(event) {
            self.stats.record_event_processed();
            DeliveryOutcome::Queued
        } else {
            self.stats.record_events_lost(1);
            DeliveryOutcome::Dropped
        }
    }

    /// The next queued event. With both channel halves owned by the
    /// session, a blocking wait on an empty queue could never end, so an
    /// empty queue reports `None` at once.
    pub fn next_event(&mut self) -> (r: Option<EtwEvent>)
        ensures
            next_event_contract(*old(self), *final(self), r),
    {
        if self.channel.len() > 0 {
            Some(self.channel.recv())
        } else {
            None
        }
    }

    /// The next queued event, waiting up to `timeout_ms` milliseconds
    /// (capped at a year) for one to arrive.
    pub fn next_event_timeout(&mut self, timeout_ms: u64) -> (r: Option<EtwEvent>)
        ensures
            next_event_contract(*old(self), *final(self), r),
    {
        let capped: u64 = if timeout_ms > 31_536_000_000 {
            31_536_000_000
        } else {
            timeout_ms
        };
        self.channel.recv_timeout_ms(capped)
    }

    /// The next queued event, never waiting.
    pub fn try_next_event(&mut self) -> (r: Option<EtwEvent>)
        ensures
            next_event_contract(*old(self), *final(self), r),
    {
        self.channel.try_recv()
    }

    /// A snapshot of the session's counters.
    pub fn stats(&self) -> (s: SessionStats)
        ensures
            s.events_received == self.stats.events_received,
            s.events_processed == self.stats.events_processed,
            s.events_lost == self.stats.events_lost,
            s.buffers_lost == self.stats.buffers_lost,
            s.buffers_read == self.stats.buffers_read,
            s.buffer_size_kb == self.stats.buffer_size_kb,
            s.buffers_allocated == self.stats.buffers_allocated,
    {
        self.stats.snapshot()
    }

    /// Whether the session is Running.
    pub fn is_running(&self) -> (r: bool)
        ensures
            r == (self.state is Running),
    {
        match self.state {
            SessionState::Running => true,
            _ => false,
        }
    }

    /// The session's name.
    pub fn name(&self) -> (r: &str)
        ensures
            r@ == self.config.name@,
    {
        self.config.name.as_str()
    }
}

/// What every receive variant guarantees: the head comes off a non-empty
/// queue; an empty queue yields nothing and stays as it was; nothing else
/// about the session moves.
pub open spec fn next_event_contract(
    pre: EtwSession,
    post: EtwSession,
    r: Option<EtwEvent>,
) -> bool {
    &&& channel_capacity(post.channel) == channel_capacity(pre.channel)
    &&& if channel_queue(pre.channel).len() > 0 {
        r == Some(channel_queue(pre.channel)[0]) && channel_queue(post.channel) == channel_queue(
            pre.channel,
        ).skip(1)
    } else {
        r is None && channel_queue(post.channel) == channel_queue(pre.channel)
    }
    &&& post.config == pre.config
    &&& post.providers == pre.providers
    &&& post.state == pre.state
    &&& post.stats == pre.stats
}

/// Project one provider into its backend registration.
fn build_provider_plan(p: &EtwProvider) -> (bp: BackendProviderPlan)
    ensures
        plan_matches_provider(bp, *p),
{
    let keywords_any = if p.keywords_any != 0xFFFFFFFFFFFFFFFF {
        Some(p.keywords_any)
    } else {
        None
    };
    let keywords_all = if p.keywords_all != 0 {
        Some(p.keywords_all)
    } else {
        None
    };
    let mut event_id_filters: Vec<u16> = Vec::new();
    let mut pid_filters: Vec<u16> = Vec::new();
    let mut i: usize = 0;
    proof {
        assert(p.filters@.skip(0) =~= p.filters@);
    }
    while i < p.filters.len()
        invariant
            i <= p.filters@.len(),
            plan_event_ids(p.filters@) =~= event_id_filters@ + plan_event_ids(
                p.filters@.skip(i as int),
            ),
            plan_pid_filters(p.filters@) =~= pid_filters@ + plan_pid_filters(
                p.filters@.skip(i as int),
            ),
        decreases p.filters@.len() - i,
    {
        proof {
            assert(p.filters@.skip(i as int).len() > 0);
            assert(p.filters@.skip(i as int)[0] == p.filters@[i as int]);
            assert(p.filters@.skip(i as int).skip(1) =~= p.filters@.skip(i as int + 1));
        }
        match &p.filters[i] {
            EventFilter::EventIds(ids) => {
                let mut j: usize = 0;
                let ghost before = event_id_filters@;
                while j < ids.len()
                    invariant
                        j <= ids@.len(),
                        event_id_filters@ =~= before + ids@.take(j as int),
                    decreases ids@.len() - j,
                {
                    event_id_filters.push(ids[j]);
                    proof {
                        assert(ids@.take(j as int).push(ids@[j as int]) =~= ids@.take(
                            j as int + 1,
                        ));
                    }
                    j += 1;
                }
                proof {
                    assert(ids@.take(ids@.len() as int) =~= ids@);
                }
            },
            EventFilter::ProcessId(pid) => {
                if *pid <= 0xFFFF {
                    pid_filters.push(*pid as u16);
                }
            },
            _ => {},
        }
        i += 1;
    }
    proof {
        assert(plan_event_ids(p.filters@.skip(p.filters@.len() as int)) =~= Seq::<u16>::empty());
        assert(plan_pid_filters(p.filters@.skip(p.filters@.len() as int)) =~= Seq::<u16>::empty());
        assert(event_id_filters@ =~= plan_event_ids(p.filters@));
        assert(pid_filters@ =~= plan_pid_filters(p.filters@));
    }
    BackendProviderPlan {
        guid: p.guid,
        level: p.level.as_u8(),
        keywords_any,
        keywords_all,
        event_id_filters,
        pid_filters,
    }
}

/// Copy a string.
fn copy_string(s: &String) -> (r: String)
    ensures
        r@ == s@,
{
    s.clone()
}

/// Normalize one raw record, as the backend callback sees it, into an
/// event: fields carried over, the 100-nanosecond 1601-epoch timestamp
/// converted to Unix time, an all-zero activity id read as absent, and
/// the schema-derived provider name and properties attached.
pub fn parse_event_record(
    record: &RawEventRecord,
    provider_name: Option<String>,
    properties: Vec<(String, EventValue)>,
) -> (e: EtwEvent)
    ensures
        e.provider_id == record.provider_id,
        e.provider_name == provider_name,
        e.event_id == record.event_id,
        e.version == record.version,
        e.opcode == record.opcode,
        e.level == record.level,
        e.keywords == record.keywords,
        e.process_id == record.process_id,
        e.thread_id == record.thread_id,
        e.timestamp.wf(),
        e.timestamp.secs * 10_000_000 + e.timestamp.nanos / 100 == record.raw_timestamp
            - EPOCH_OFFSET_100NS,
        record.activity_id == 0 ==> e.activity_id is None,
        record.activity_id != 0 ==> e.activity_id == Some(record.activity_id),
        e.related_activity_id is None,
        e.task == 0,
        e.channel == 0,
        e.properties == properties,
        e.raw_data is None,
        e.stack_trace is None,
{
    let timestamp = filetime_to_timestamp(record.raw_timestamp);
    let activity_id = if record.activity_id != 0 {
        Some(record.activity_id)
    } else {
        None
    };
    EtwEvent {
        provider_id: record.provider_id,
        provider_name,
        event_id: record.event_id,
        version: record.version,
        opcode: record.opcode,
        level: record.level,
        keywords: record.keywords,
        process_id: record.process_id,
        thread_id: record.thread_id,
        timestamp,
        activity_id,
        related_activity_id: None,
        task: 0,
        channel: 0,
        properties,
        raw_data: None,
        stack_trace: None,
    }
}

/// The plain fields of one raw record as the backend callback receives
/// them.
#[derive(Debug, Clone, Copy, PartialEq, Eq, Structural)]
pub struct RawEventRecord {
    /// Provider GUID.
    pub provider_id: u128,
    /// Event id.
    pub event_id: u16,
    /// Event version.
    pub version: u8,
    /// Event opcode.
    pub opcode: u8,
    /// Event level.
    pub level: u8,
    /// Keyword bitmask.
    pub keywords: u64,
    /// Originating process id.
    pub process_id: u32,
    /// Originating thread id.
    pub thread_id: u32,
    /// Timestamp in 100-nanosecond ticks since 1601.
    pub raw_timestamp: i64,
    /// Activity GUID; all zero means absent.
    pub activity_id: u128,
}

} // verus!
