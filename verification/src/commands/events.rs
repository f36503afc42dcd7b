//! What happens when a track ends.

use vstd::prelude::*;

use crate::queue::{LoopMode, QueueManager};
use crate::track::TrackMetadata;

verus! {

/// What to do after a track ended.
pub struct TrackEndStep {
    /// The repeat mode that decided the step.
    pub mode: LoopMode,
    /// The track to start next, if any (none: the queue is finished).
    pub next: Option<TrackMetadata>,
    /// Whether the next track is to repeat itself.
    pub enable_loop: bool,
    /// How many tracks wait after the next one.
    pub upcoming: usize,
}

/// Advances the queue of `g` when its track ended: with repeat of the whole
/// queue the ended track goes to the back (the queue cycles), otherwise it
/// is dropped; the new front is the track to start, repeating itself when
/// the repeat mode is `Track`.
pub fn track_end(queues: &mut QueueManager, guild_id: u64) -> (s: TrackEndStep)
    ensures
        s.mode == old(queues).loop_mode_of(guild_id),
        s.mode == LoopMode::Queue ==> QueueManager::cycled_state(old(queues), final(queues), guild_id),
        s.mode != LoopMode::Queue ==> QueueManager::advanced(old(queues), final(queues), guild_id),
        s.next == (if final(queues).queue_of(guild_id).len() > 0 {
            Some(final(queues).queue_of(guild_id)[0])
        } else {
            None
        }),
        s.enable_loop == (s.mode == LoopMode::Track),
        s.upcoming == (if final(queues).queue_of(guild_id).len() > 0 {
            final(queues).queue_of(guild_id).len() - 1
        } else {
            0
        }),
{
    let mode = queues.get_loop_mode(guild_id);
    let next = if mode == LoopMode::Queue {
        queues.cycle_queue(guild_id)
    } else {
        queues.advance(guild_id)
    };
    let len = queues.get_queue(guild_id).len();
    let upcoming = if len > 0 { len - 1 } else { 0 };
    TrackEndStep { mode, next, enable_loop: mode == LoopMode::Track, upcoming }
}

} // verus!
