//! The daemon's own queue of inputs awaiting processing.
//!
//! Incoming requests park in a pre-queue until the daemon resolves them
//! into playable media.  Playback positions and speeds are kept in
//! thousandths, as plain integers.

use vstd::prelude::*;
use crate::SmError;

verus! {

/// Per-entry playback settings, in thousandths where a rate or a
/// position is meant.
#[derive(Debug)]
pub struct Settings {
    /// Playback speed, thousandths of normal rate.
    pub playback_speed_milli: u64,
    pub audio_pitch_correction: bool,
    /// Start position, thousandths of a second.
    pub start_pos_milli: u64,
    /// Duration, thousandths of a second.
    pub duration_milli: u64,
}

/// One user input, parked before it is resolved into media.
#[derive(Debug)]
pub struct InputObject {
    pub input_string: String,
    pub priority: u64,
    pub settings: Settings,
}

/// A pre-queue slot: the input and whether resolving finished.
#[derive(Debug)]
pub struct PreQueueObject {
    pub input: InputObject,
    pub finished: bool,
}

/// One resolved, playable entry of the daemon's media queue.
#[derive(Debug)]
pub struct QueueObject {
    pub id: u64,
    pub priority: u64,
    /// Local path or URL.
    pub path: String,
    pub title: String,
    /// Playback position, thousandths of a second.
    pub playback_position_milli: u64,
    pub settings: Settings,
}

/// The daemon's two queues: resolved media, and inputs still waiting.
#[derive(Debug)]
pub struct DaemonQueue {
    pub media_queue: Vec<QueueObject>,
    pub to_be_processed_queue: Vec<PreQueueObject>,
}

impl DaemonQueue {
    /// Two empty queues.
    pub fn new() -> (r: Result<Self, SmError>)
        ensures
            r is Ok,
            r->Ok_0.media_queue@.len() == 0,
            r->Ok_0.to_be_processed_queue@.len() == 0,
    {
        Ok(DaemonQueue { media_queue: Vec::new(), to_be_processed_queue: Vec::new() })
    }

    /// Parks one input at the end of the pre-queue, unfinished.
    pub fn add_to_queue(&mut self, object: InputObject)
        ensures
            final(self).media_queue == old(self).media_queue,
            final(self).to_be_processed_queue@.len()
                == old(self).to_be_processed_queue@.len() + 1,
            final(self).to_be_processed_queue@.last().input == object,
            final(self).to_be_processed_queue@.last().finished == false,
            final(self).to_be_processed_queue@.take(old(self).to_be_processed_queue@.len() as int)
                == old(self).to_be_processed_queue@,
    {
        self.to_be_processed_queue.push(PreQueueObject { input: object, finished: false });
        proof {
            assert(self.to_be_processed_queue@
                .take(old(self).to_be_processed_queue@.len() as int)
                =~= old(self).to_be_processed_queue@);
        }
    }

    /// Resolving work is not performed yet; the queues are untouched.
    pub fn process_prequeue(&mut self)
        ensures
            *final(self) == *old(self),
    {
    }
}

} // verus!
