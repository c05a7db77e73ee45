//! Kernel-category tracing: the lifecycle twin of `EtwSession`, configured
//! by a 32-bit category bitmask instead of provider GUIDs, with the
//! conventional singleton session identity.

use vstd::prelude::*;
use vstd::string::StringExecFns;
use crate::error::{EtwError, EtwResult};
use crate::event::EtwEvent;
use crate::pipeline::{EventChannel, channel_capacity, channel_queue};
use crate::session::{DeliveryOutcome, PipelineModel, deliver_step};
use crate::stats::{SessionStats, StatsTracker};

verus! {

/// One category of kernel events, or one of the two shorthands.
#[derive(Debug, Clone, Copy, PartialEq, Eq, Structural)]
pub enum KernelEventCategory {
    /// Process creation and deletion.
    Process,
    /// Thread creation and deletion.
    Thread,
    /// Image load.
    ImageLoad,
    /// Disk I/O.
    DiskIo,
    /// Disk file I/O.
    DiskFileIo,
    /// Memory page faults.
    PageFault,
    /// Memory hard faults.
    HardFault,
    /// Network TCP/IP.
    Network,
    /// Registry.
    Registry,
    /// File I/O.
    FileIo,
    /// File I/O initiation.
    FileIoInit,
    /// Split I/O.
    SplitIo,
    /// Pool allocation.
    Pool,
    /// Deferred procedure calls.
    Dpc,
    /// Interrupts.
    Interrupt,
    /// System calls.
    SystemCall,
    /// Process, thread, and image load together.
    AllBasic,
    /// Every category.
    All,
}

/// The native flag bits of each category.
pub open spec fn category_flags(c: KernelEventCategory) -> u32 {
    match c {
        KernelEventCategory::Process => 0x00000001,
        KernelEventCategory::Thread => 0x00000002,
        KernelEventCategory::ImageLoad => 0x00000004,
        KernelEventCategory::DiskIo => 0x00000100,
        KernelEventCategory::DiskFileIo => 0x00000200,
        KernelEventCategory::PageFault => 0x00001000,
        KernelEventCategory::HardFault => 0x00002000,
        KernelEventCategory::Network => 0x00010000,
        KernelEventCategory::Registry => 0x00020000,
        KernelEventCategory::FileIo => 0x02000000,
        KernelEventCategory::FileIoInit => 0x04000000,
        KernelEventCategory::SplitIo => 0x00200000,
        KernelEventCategory::Pool => 0x00400000,
        KernelEventCategory::Dpc => 0x00000020,
        KernelEventCategory::Interrupt => 0x00000040,
        KernelEventCategory::SystemCall => 0x00000080,
        KernelEventCategory::AllBasic => 0x00000007,
        KernelEventCategory::All => 0xFFFFFFFF,
    }
}

/// The union of the flags of a list of categories, head first.
pub open spec fn combined_flags(cats: Seq<KernelEventCategory>) -> u32
    decreases cats.len(),
{
    if cats.len() == 0 {
        0
    } else {
        category_flags(cats[0]) | combined_flags(cats.skip(1))
    }
}

impl KernelEventCategory {
    /// The native flag bits.
    pub fn to_flags(&self) -> (f: u32)
        ensures
            f == category_flags(*self),
    {
        match self {
            KernelEventCategory::Process => 0x00000001,
            KernelEventCategory::Thread => 0x00000002,
            KernelEventCategory::ImageLoad => 0x00000004,
            KernelEventCategory::DiskIo => 0x00000100,
            KernelEventCategory::DiskFileIo => 0x00000200,
            KernelEventCategory::PageFault => 0x00001000,
            KernelEventCategory::HardFault => 0x00002000,
            KernelEventCategory::Network => 0x00010000,
            KernelEventCategory::Registry => 0x00020000,
            KernelEventCategory::FileIo => 0x02000000,
            KernelEventCategory::FileIoInit => 0x04000000,
            KernelEventCategory::SplitIo => 0x00200000,
            KernelEventCategory::Pool => 0x00400000,
            KernelEventCategory::Dpc => 0x00000020,
            KernelEventCategory::Interrupt => 0x00000040,
            KernelEventCategory::SystemCall => 0x00000080,
            KernelEventCategory::AllBasic => 0x00000007,
            KernelEventCategory::All => 0xFFFFFFFF,
        }
    }

    /// Union the flags of several categories.
    pub fn combine(categories: &Vec<KernelEventCategory>) -> (f: u32)
        ensures
            f == combined_flags(categories@),
    {
        let mut acc: u32 = 0;
        let mut i: usize = categories.len();
        while i > 0
            invariant
                i <= categories@.len(),
                acc == combined_flags(categories@.skip(i as int)),
            decreases i,
        {
            i = i - 1;
            proof {
                assert(categories@.skip(i as int)[0] == categories@[i as int]);
                assert(categories@.skip(i as int).skip(1) =~= categories@.skip(i as int + 1));
            }
            acc = categories[i].to_flags() | acc;
        }
        proof {
            assert(categories@.skip(0) =~= categories@);
        }
        acc
    }
}

/// The lifecycle of a kernel session.
#[derive(Debug, Clone, Copy, PartialEq, Eq, Structural)]
pub enum KernelSessionState {
    /// Built but never started.
    Created,
    /// The kernel trace is live.
    Running,
    /// Stopped, by request or because the backend loop ended.
    Stopped,
    /// Reserved for future use; no transition reaches it.
    Error,
}

/// What one kernel `start` does to the state.
pub open spec fn kernel_start_step(st: KernelSessionState) -> (KernelSessionState, bool) {
    if st is Running {
        (st, false)
    } else {
        (KernelSessionState::Running, true)
    }
}

/// What one kernel `stop` does to the state.
pub open spec fn kernel_stop_step(st: KernelSessionState) -> (KernelSessionState, bool) {
    if st is Running {
        (KernelSessionState::Stopped, true)
    } else {
        (st, false)
    }
}

/// Kernel session configuration.
#[derive(Debug, Clone)]
pub struct KernelSessionConfig {
    /// Session name; kernel sessions are singletons per machine and use
    /// a conventional name by default.
    pub name: String,
    /// Enabled category flag bits.
    pub categories: u32,
    /// Backend buffer size in KB.
    pub buffer_size_kb: u32,
    /// Minimum backend buffer count.
    pub min_buffers: u32,
    /// Maximum backend buffer count.
    pub max_buffers: u32,
    /// Best-effort stop of an existing kernel session before starting.
    pub stop_if_exists: bool,
    /// Bounded channel depth between the callback and the consumer.
    pub channel_capacity: usize,
}

impl Default for KernelSessionConfig {
    /// The conventional configuration: the library's kernel session
    /// name, the basic categories (process, thread, image load), 64 KB
    /// buffers, 64 to 128 of them, pre-emptive stop on, a channel of
    /// 10000.
    fn default() -> (c: Self)
        ensures
            c.name@ == "PyETWkit-Kernel"@,
            c.categories == 0x00000007,
            c.buffer_size_kb == 64,
            c.min_buffers == 64,
            c.max_buffers == 128,
            c.stop_if_exists,
            c.channel_capacity == 10000,
    {
        KernelSessionConfig {
            name: String::from_str("PyETWkit-Kernel"),
            categories: 0x00000007,
            buffer_size_kb: 64,
            min_buffers: 64,
            max_buffers: 128,
            stop_if_exists: true,
            channel_capacity: 10000,
        }
    }
}

/// What a caller must do against the backend to realize a successful
/// kernel `start`: optionally stop both the well-known kernel session
/// name and the configured name (best effort), then start the kernel
/// trace with these category flags and run its processing loop.
#[derive(Debug)]
pub struct KernelStartPlan {
    /// Names to stop first, in order, when `stop_if_exists` is set:
    /// kernel sessions are singletons, so both the well-known name and
    /// the configured one are cleared.
    pub stop_existing_names: Vec<String>,
    /// The trace name to start under.
    pub session_name: String,
    /// The category flag bits to enable.
    pub categories: u32,
}

/// What a caller must do after a successful kernel `stop`: stop the
/// trace under the well-known name, falling back to the configured name,
/// then join the processing thread.
#[derive(Debug)]
pub struct KernelStopAction {
    /// The names to try stopping, in order.
    pub stop_names: Vec<String>,
}

/// A kernel trace session: category configuration, lifecycle state,
/// statistics, and the bounded channel from the callback to the
/// consumer.
pub struct KernelSession {
    /// The configuration the session was built with.
    pub config: KernelSessionConfig,
    /// Lifecycle state.
    pub state: KernelSessionState,
    /// The bounded event channel.
    pub channel: EventChannel,
    /// The session's counters.
    pub stats: StatsTracker,
}

/// The channel was built with the configured capacity.
pub open spec fn kernel_session_wf(s: KernelSession) -> bool {
    channel_capacity(s.channel) == s.config.channel_capacity as nat
}

/// The pipeline model of a kernel session; the delivery law in the
/// session module applies to it unchanged.
pub open spec fn kernel_pipeline_model(s: KernelSession) -> PipelineModel {
    PipelineModel {
        queue_len: channel_queue(s.channel).len(),
        capacity: channel_capacity(s.channel),
        received: s.stats.events_received,
        processed: s.stats.events_processed,
        lost: s.stats.events_lost,
    }
}

impl KernelSession {
    /// A kernel session with the default configuration.
    pub fn new() -> (s: Self)
        ensures
            s.config.name@ == "PyETWkit-Kernel"@,
            s.config.categories == 0x00000007,
            s.config.buffer_size_kb == 64,
            s.config.min_buffers == 64,
            s.config.max_buffers == 128,
            s.config.stop_if_exists,
            s.config.channel_capacity == 10000,
            s.state == KernelSessionState::Created,
            channel_queue(s.channel) == Seq::<EtwEvent>::empty(),
            kernel_session_wf(s),
            s.stats.events_received == 0,
            s.stats.events_processed == 0,
            s.stats.events_lost == 0,
    {
        Self::with_config(KernelSessionConfig::default())
    }

    /// A kernel session with the given configuration: created, idle,
    /// with an empty channel of the configured capacity and zeroed
    /// counters.
    pub fn with_config(config: KernelSessionConfig) -> (s: Self)
        requires
            config.channel_capacity < 0x1000_0000_0000_0000,
        ensures
            s.config == config,
            s.state == KernelSessionState::Created,
            channel_queue(s.channel) == Seq::<EtwEvent>::empty(),
            kernel_session_wf(s),
            s.stats.events_received == 0,
            s.stats.events_processed == 0,
            s.stats.events_lost == 0,
            s.stats.buffers_lost == 0,
            s.stats.buffers_read == 0,
            s.stats.buffer_size_kb == config.buffer_size_kb,
            s.stats.buffers_allocated == config.min_buffers,
    {
        let channel = EventChannel::with_capacity(config.channel_capacity);
        let stats = StatsTracker::new(config.buffer_size_kb, config.min_buffers);
        KernelSession { config, state: KernelSessionState::Created, channel, stats }
    }

    /// Turn one more category on; it takes effect at the next `start`.
    pub fn enable_category(&mut self, category: KernelEventCategory)
        ensures
            final(self).config.categories == old(self).config.categories | category_flags(
                category,
            ),
            final(self).config.name == old(self).config.name,
            final(self).config.buffer_size_kb == old(self).config.buffer_size_kb,
            final(self).config.min_buffers == old(self).config.min_buffers,
            final(self).config.max_buffers == old(self).config.max_buffers,
            final(self).config.stop_if_exists == old(self).config.stop_if_exists,
            final(self).config.channel_capacity == old(self).config.channel_capacity,
            final(self).state == old(self).state,
            final(self).channel == old(self).channel,
            final(self).stats == old(self).stats,
    {
        self.config.categories = self.config.categories | category.to_flags();
    }

    /// Replace the category flags wholesale.
    pub fn set_categories(&mut self, flags: u32)
        ensures
            final(self).config.categories == flags,
            final(self).config.name == old(self).config.name,
            final(self).config.buffer_size_kb == old(self).config.buffer_size_kb,
            final(self).config.min_buffers == old(self).config.min_buffers,
            final(self).config.max_buffers == old(self).config.max_buffers,
            final(self).config.stop_if_exists == old(self).config.stop_if_exists,
            final(self).config.channel_capacity == old(self).config.channel_capacity,
            final(self).state == old(self).state,
            final(self).channel == old(self).channel,
            final(self).stats == old(self).stats,
    {
        self.config.categories = flags;
    }

    /// Start the kernel session. From Running this fails with
    /// `SessionAlreadyRunning` and changes nothing. Otherwise the state
    /// becomes Running at once and the plan names what the caller must
    /// do against the backend. If the backend start fails, report it
    /// with `handle_backend_exit`.
    pub fn start(&mut self) -> (r: EtwResult<KernelStartPlan>)
        ensures
            final(self).state == kernel_start_step(old(self).state).0,
            r is Ok <==> kernel_start_step(old(self).state).1,
            final(self).config == old(self).config,
            final(self).channel == old(self).channel,
            final(self).stats == old(self).stats,
            match r {
                Ok(plan) => {
                    &&& plan.session_name@ == old(self).config.name@
                    &&& plan.categories == old(self).config.categories
                    &&& old(self).config.stop_if_exists ==> plan.stop_existing_names@.len() == 2
                        && plan.stop_existing_names@[0]@ == "NT Kernel Logger"@
                        && plan.stop_existing_names@[1]@ == old(self).config.name@
                    &&& !old(self).config.stop_if_exists ==> plan.stop_existing_names@.len() == 0
                },
                Err(e) => e == EtwError::SessionAlreadyRunning,
            },
    {
        if self.is_running() {
            return Err(EtwError::SessionAlreadyRunning);
        }
        let mut stop_existing_names: Vec<String> = Vec::new();
        if self.config.stop_if_exists {
            stop_existing_names.push(String::from_str("NT Kernel Logger"));
            stop_existing_names.push(self.config.name.clone());
        }
        let plan = KernelStartPlan {
            stop_existing_names,
            session_name: self.config.name.clone(),
            categories: self.config.categories,
        };
        self.state = KernelSessionState::Running;
        Ok(plan)
    }

    /// Stop the kernel session. From anything but Running this fails
    /// with `SessionNotRunning` and changes nothing. From Running the
    /// state becomes Stopped and the action names the traces the caller
    /// must try to stop, well-known name first, before joining the
    /// processing thread.
    pub fn stop(&mut self) -> (r: EtwResult<KernelStopAction>)
        ensures
            final(self).state == kernel_stop_step(old(self).state).0,
            r is Ok <==> kernel_stop_step(old(self).state).1,
            final(self).config == old(self).config,
            final(self).channel == old(self).channel,
            final(self).stats == old(self).stats,
            match r {
                Ok(action) => action.stop_names@.len() == 2 && action.stop_names@[0]@
                    == "NT Kernel Logger"@ && action.stop_names@[1]@ == old(self).config.name@,
                Err(e) => e == EtwError::SessionNotRunning,
            },
    {
        if !self.is_running() {
            return Err(EtwError::SessionNotRunning);
        }
        let mut stop_names: Vec<String> = Vec::new();
        stop_names.push(String::from_str("NT Kernel Logger"));
        stop_names.push(self.config.name.clone());
        self.state = KernelSessionState::Stopped;
        Ok(KernelStopAction { stop_names })
    }

    /// Record that the backend's processing loop has exited.
    pub fn handle_backend_exit(&mut self)
        ensures
            final(self).state == KernelSessionState::Stopped,
            final(self).config == old(self).config,
            final(self).channel == old(self).channel,
            final(self).stats == old(self).stats,
    {
        self.state = KernelSessionState::Stopped;
    }

    /// The callback path for one normalized event: identical to the
    /// user-mode session's policy (count received; queue and count
    /// processed below capacity; drop and count lost at capacity).
    pub fn deliver_event(&mut self, event: EtwEvent) -> (outcome: DeliveryOutcome)
        ensures
            kernel_pipeline_model(*final(self)) == deliver_step(
                kernel_pipeline_model(*old(self)),
            ).0,
            (outcome is Queued) == deliver_step(kernel_pipeline_model(*old(self))).1,
            (outcome is Queued) ==> channel_queue(final(self).channel) == channel_queue(
                old(self).channel,
            ).push(event),
            (outcome is Dropped) ==> channel_queue(final(self).channel) == channel_queue(
                old(self).channel,
            ),
            final(self).config == old(self).config,
            final(self).state == old(self).state,
            final(self).stats.buffers_lost == old(self).stats.buffers_lost,
            final(self).stats.buffers_read == old(self).stats.buffers_read,
            final(self).stats.buffer_size_kb == old(self).stats.buffer_size_kb,
            final(self).stats.buffers_allocated == old(self).stats.buffers_allocated,
    {
        self.stats.record_event_received();
        if self.channel.try_send(event) {
            self.stats.record_event_processed();
            DeliveryOutcome::Queued
        } else {
            self.stats.record_events_lost(1);
            DeliveryOutcome::Dropped
        }
    }

    /// The next queued event; an empty queue reports `None` at once.
    pub fn next_event(&mut self) -> (r: Option<EtwEvent>)
        ensures
            kernel_next_event_contract(*old(self), *final(self), r),
    {
        if self.channel.len() > 0 {
            Some(self.channel.recv())
        } else {
            None
        }
    }

    /// The next queued event, waiting up to `timeout_ms` milliseconds
    /// (capped at a year) for one to arrive.
    pub fn next_event_timeout(&mut self, timeout_ms: u64) -> (r: Option<EtwEvent>)
        ensures
            kernel_next_event_contract(*old(self), *final(self), r),
    {
        let capped: u64 = if timeout_ms > 31_536_000_000 {
            31_536_000_000
        } else {
            timeout_ms
        };
        self.channel.recv_timeout_ms(capped)
    }

    /// The next queued event, never waiting.
    pub fn try_next_event(&mut self) -> (r: Option<EtwEvent>)
        ensures
            kernel_next_event_contract(*old(self), *final(self), r),
    {
        self.channel.try_recv()
    }

    /// A snapshot of the session's counters.
    pub fn stats(&self) -> (s: SessionStats)
        ensures
            s.events_received == self.stats.events_received,
            s.events_processed == self.stats.events_processed,
            s.events_lost == self.stats.events_lost,
            s.buffers_lost == self.stats.buffers_lost,
            s.buffers_read == self.stats.buffers_read,
            s.buffer_size_kb == self.stats.buffer_size_kb,
            s.buffers_allocated == self.stats.buffers_allocated,
    {
        self.stats.snapshot()
    }

    /// Whether the session is Running.
    pub fn is_running(&self) -> (r: bool)
        ensures
            r == (self.state is Running),
    {
        match self.state {
            KernelSessionState::Running => true,
            _ => false,
        }
    }
}

impl Default for KernelSession {
    /// The default kernel session.
    fn default() -> (s: Self)
        ensures
            s.state == KernelSessionState::Created,
            kernel_session_wf(s),
    {
        KernelSession::new()
    }
}

/// What every kernel receive variant guarantees, mirroring the user-mode
/// session.
pub open spec fn kernel_next_event_contract(
    pre: KernelSession,
    post: KernelSession,
    r: Option<EtwEvent>,
) -> bool {
    &&& channel_capacity(post.channel) == channel_capacity(pre.channel)
    &&& if channel_queue(pre.channel).len() > 0 {
        r == Some(channel_queue(pre.channel)[0]) && channel_queue(post.channel) == channel_queue(
            pre.channel,
        ).skip(1)
    } else {
        r is None && channel_queue(post.channel) == channel_queue(pre.channel)
    }
    &&& post.config == pre.config
    &&& post.state == pre.state
    &&& post.stats == pre.stats
}

} // verus!
