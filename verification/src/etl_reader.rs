//! Replay of a captured trace file through the same normalization path
//! as a live session: a single-pass, non-restartable source of events.
//!
//! The file itself is opened and walked by the backend on a thread the
//! caller runs; the caller probes the path, performs the returned start
//! action, feeds each normalized event in with `deliver_event`, and
//! reports exhaustion with `finish`.

use vstd::prelude::*;
use vstd::string::StringExecFns;
use crate::error::{EtwError, EtwResult};
use crate::event::EtwEvent;
use crate::pipeline::{ReplayQueue, replay_queue};

verus! {

/// The single-pass lifecycle of a reader: once the file is exhausted it
/// cannot be started again.
#[derive(Debug, Clone, Copy, PartialEq, Eq, Structural)]
pub enum ReaderState {
    /// Built; the file was found but not opened.
    Created,
    /// The replay thread is walking the file.
    Reading,
    /// The file is exhausted; the reader is consumed.
    Finished,
}

/// What a caller must do to realize a successful reader `start`: open
/// the file at this path through the backend's replay entry point and
/// run its callback loop until the file ends.
#[derive(Debug)]
pub struct ReplayAction {
    /// The file to replay.
    pub path: String,
}

/// A trace-file reader: the path, the single-pass state, and the queue
/// of normalized events not yet consumed.
pub struct EtlReader {
    /// The file being replayed.
    pub path: String,
    /// Where in its single pass the reader stands.
    pub state: ReaderState,
    /// Events replayed but not yet consumed.
    pub queue: ReplayQueue,
}

impl EtlReader {
    /// A reader for the file at `path`. The caller probes the file
    /// system and passes whether the path exists; a missing path fails
    /// at once with `FileNotFound`, before any thread or backend work.
    pub fn new(path: String, path_exists: bool) -> (r: EtwResult<EtlReader>)
        ensures
            match r {
                Ok(reader) => {
                    &&& path_exists
                    &&& reader.path == path
                    &&& reader.state == ReaderState::Created
                    &&& replay_queue(reader.queue) == Seq::<EtwEvent>::empty()
                },
                Err(e) => !path_exists && (e matches EtwError::FileNotFound(p) && p == path),
            },
    {
        if !path_exists {
            return Err(EtwError::FileNotFound(path));
        }
        Ok(EtlReader { path, state: ReaderState::Created, queue: ReplayQueue::new() })
    }

    /// Begin the single pass. Only a freshly created reader can start:
    /// one already reading reports `SessionAlreadyRunning`, and one
    /// whose file is exhausted is consumed and reports that the replay
    /// cannot be restarted.
    pub fn start(&mut self) -> (r: EtwResult<ReplayAction>)
        ensures
            final(self).path == old(self).path,
            final(self).queue == old(self).queue,
            match old(self).state {
                ReaderState::Created => {
                    &&& r matches Ok(action) && action.path == old(self).path
                    &&& final(self).state == ReaderState::Reading
                },
                ReaderState::Reading => {
                    &&& r matches Err(e) && e == EtwError::SessionAlreadyRunning
                    &&& final(self).state == old(self).state
                },
                ReaderState::Finished => {
                    &&& r matches Err(e) && (e matches EtwError::InvalidConfig(m) && m@
                        == "trace file already replayed"@)
                    &&& final(self).state == old(self).state
                },
            },
    {
        match self.state {
            ReaderState::Created => {
                self.state = ReaderState::Reading;
                Ok(ReplayAction { path: self.path.clone() })
            },
            ReaderState::Reading => Err(EtwError::SessionAlreadyRunning),
            ReaderState::Finished => Err(
                EtwError::InvalidConfig(String::from_str("trace file already replayed")),
            ),
        }
    }

    /// Queue one normalized event from the replay thread. Replay is not
    /// real-time, so the queue is unbounded and nothing is ever dropped
    /// or counted lost.
    pub fn deliver_event(&mut self, event: EtwEvent)
        requires
            old(self).state == ReaderState::Reading,
        ensures
            replay_queue(final(self).queue) == replay_queue(old(self).queue).push(event),
            final(self).path == old(self).path,
            final(self).state == old(self).state,
    {
        self.queue.push(event);
    }

    /// Record that the replay thread has exhausted the file. Events
    /// already queued stay readable.
    pub fn finish(&mut self)
        ensures
            final(self).state == ReaderState::Finished,
            final(self).path == old(self).path,
            final(self).queue == old(self).queue,
    {
        self.state = ReaderState::Finished;
    }

    /// The next replayed event not yet consumed; `None` when the queue
    /// is empty.
    pub fn next_event(&mut self) -> (r: Option<EtwEvent>)
        ensures
            reader_pop_contract(*old(self), *final(self), r),
    {
        self.queue.pop()
    }

    /// The next replayed event, never waiting; the same as `next_event`
    /// for a single owner of the queue.
    pub fn try_next_event(&mut self) -> (r: Option<EtwEvent>)
        ensures
            reader_pop_contract(*old(self), *final(self), r),
    {
        self.queue.pop()
    }

    /// Whether the single pass is over (or never began): true unless
    /// the replay thread is still walking the file.
    pub fn is_finished(&self) -> (r: bool)
        ensures
            r == !(self.state is Reading),
    {
        match self.state {
            ReaderState::Reading => false,
            _ => true,
        }
    }

    /// Wait out the replay: a reading pass is marked finished; a reader
    /// that never started is left as it is.
    pub fn wait(&mut self)
        ensures
            old(self).state is Reading ==> final(self).state == ReaderState::Finished,
            !(old(self).state is Reading) ==> final(self).state == old(self).state,
            final(self).path == old(self).path,
            final(self).queue == old(self).queue,
    {
        if self.is_finished() {
        } else {
            self.state = ReaderState::Finished;
        }
    }

    /// Drain every queued event, in replay order, and consume the
    /// reader: the state is Finished and no further start is possible.
    pub fn read_all(&mut self) -> (events: Vec<EtwEvent>)
        ensures
            events@ == replay_queue(old(self).queue),
            replay_queue(final(self).queue) == Seq::<EtwEvent>::empty(),
            final(self).state == ReaderState::Finished,
            final(self).path == old(self).path,
    {
        let mut events: Vec<EtwEvent> = Vec::new();
        loop
            invariant_except_break
                replay_queue(old(self).queue) =~= events@ + replay_queue(self.queue),
                self.path == old(self).path,
            ensures
                events@ =~= replay_queue(old(self).queue),
                replay_queue(self.queue) =~= Seq::<EtwEvent>::empty(),
                self.path == old(self).path,
            decreases replay_queue(self.queue).len(),
        {
            match self.queue.pop() {
                Some(event) => {
                    events.push(event);
                },
                None => {
                    break;
                },
            }
        }
        self.state = ReaderState::Finished;
        events
    }

    /// The file this reader replays.
    pub fn path(&self) -> (r: &str)
        ensures
            r@ == self.path@,
    {
        self.path.as_str()
    }
}

/// What both receive variants guarantee: the head comes off a non-empty
/// queue; an empty queue yields nothing; path and state stay.
pub open spec fn reader_pop_contract(pre: EtlReader, post: EtlReader, r: Option<EtwEvent>) -> bool {
    &&& if replay_queue(pre.queue).len() > 0 {
        r == Some(replay_queue(pre.queue)[0]) && replay_queue(post.queue) == replay_queue(
            pre.queue,
        ).skip(1)
    } else {
        r is None && replay_queue(post.queue) == replay_queue(pre.queue)
    }
    &&& post.path == pre.path
    &&& post.state == pre.state
}

} // verus!
