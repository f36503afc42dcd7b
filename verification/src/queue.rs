//! Per-server play queues, repeat modes and shuffle state.
//!
//! A `QueueManager` holds, for every server (guild) id, the queue of tracks
//! (the first one is the track that is playing), the repeat mode and whether
//! shuffle is on. Each operation is specified by a transition predicate over
//! the model `queue_of`, `loop_mode_of`, `shuffle_of`; the laws below are
//! stated over those predicates.

use std::collections::HashMap;
use std::collections::VecDeque;

use rand::seq::SliceRandom;
use vstd::multiset::Multiset;
use vstd::prelude::*;

use crate::track::{duplicate_tracks, TrackMetadata};

verus! {

broadcast use {vstd::std_specs::hash::group_hash_axioms, vstd::std_specs::vecdeque::group_vec_dequeue_axioms};

// ---------------------------------------------------------------------------
// Randomness
// ---------------------------------------------------------------------------

#[verifier::external_type_specification]
#[verifier::external_body]
pub struct ExThreadRng(rand::rngs::ThreadRng);

/// `rand::thread_rng`: a handle to the thread-local random generator.
/// Nothing is promised of it.
#[verifier::external_body]
fn thread_rng() -> rand::rngs::ThreadRng {
    rand::thread_rng()
}

/// `SliceRandom::shuffle` on the items of a vector: the items end up in an
/// order chosen by the generator. The contract claims only what holds of
/// every outcome: the same items, each as often as before (rand's
/// implementation swaps elements pairwise).
#[verifier::external_body]
fn shuffle_vec<T>(items: &mut Vec<T>, rng: &mut rand::rngs::ThreadRng)
    ensures
        final(items)@.to_multiset() == old(items)@.to_multiset(),
        final(items)@.len() == old(items)@.len(),
{
    items.shuffle(rng);
}

// ---------------------------------------------------------------------------
// Loop mode
// ---------------------------------------------------------------------------

/// The repeat mode of a server.
#[derive(Debug, Clone, Copy, PartialEq, Eq, Structural)]
pub enum LoopMode {
    Off,
    Track,
    Queue,
}

impl Default for LoopMode {
    fn default() -> (m: Self)
        ensures
            m == LoopMode::Off,
    {
        LoopMode::Off
    }
}

impl LoopMode {
    /// The display name of the mode.
    pub open spec fn name(self) -> Seq<char> {
        match self {
            LoopMode::Off => "Off"@,
            LoopMode::Track => "Track (1 Song)"@,
            LoopMode::Queue => "Entire Queue"@,
        }
    }

    /// The emoji that stands for the mode.
    pub open spec fn symbol(self) -> Seq<char> {
        match self {
            LoopMode::Off => "➡️"@,
            LoopMode::Track => "🔂"@,
            LoopMode::Queue => "🔁"@,
        }
    }

    /// The display name of the mode.
    pub fn as_str(&self) -> (r: &'static str)
        ensures
            r@ == self.name(),
    {
        match self {
            LoopMode::Off => "Off",
            LoopMode::Track => "Track (1 Song)",
            LoopMode::Queue => "Entire Queue",
        }
    }

    /// The emoji that stands for the mode.
    pub fn emoji(&self) -> (r: &'static str)
        ensures
            r@ == self.symbol(),
    {
        match self {
            LoopMode::Off => "➡️",
            LoopMode::Track => "🔂",
            LoopMode::Queue => "🔁",
        }
    }
}

/// Different modes have different names and different emojis.
pub proof fn law_loop_mode_names_distinct(a: LoopMode, b: LoopMode)
    requires
        a != b,
    ensures
        a.name() != b.name(),
        a.symbol() != b.symbol(),
{
    reveal_strlit("Off");
    reveal_strlit("Track (1 Song)");
    reveal_strlit("Entire Queue");
    reveal_strlit("➡️");
    reveal_strlit("🔂");
    reveal_strlit("🔁");
    if a.name() == b.name() {
        assert(a.name().len() == b.name().len());
    }
    if a.symbol() == b.symbol() {
        assert(a.symbol().len() == b.symbol().len());
        assert(a.symbol()[0] == b.symbol()[0]);
    }
}

// ---------------------------------------------------------------------------
// Sequence transitions
// ---------------------------------------------------------------------------

/// `new` keeps the first `k` items of `s` in place and holds the remaining
/// items of `s` in some order.
pub open spec fn shuffled_after<A>(s: Seq<A>, new: Seq<A>, k: int) -> bool {
    &&& new.len() == s.len()
    &&& new.take(k) == s.take(k)
    &&& new.skip(k).to_multiset() == s.skip(k).to_multiset()
}

/// The front item moved to the back.
pub open spec fn rotate<A>(s: Seq<A>) -> Seq<A> {
    if s.len() == 0 {
        s
    } else {
        s.drop_first().push(s[0])
    }
}

/// `rotate` applied `n` times.
pub open spec fn rotate_n<A>(s: Seq<A>, n: nat) -> Seq<A>
    decreases n,
{
    if n == 0 {
        s
    } else {
        rotate(rotate_n(s, (n - 1) as nat))
    }
}

/// The queue after `push_playlist` appended `tracks` to `q`, shuffle being
/// `shuffled`.
pub open spec fn playlist_pushed<A>(q: Seq<A>, tracks: Seq<A>, shuffled: bool, new: Seq<A>) -> bool {
    let s = q + tracks;
    if tracks.len() == 0 {
        new == q
    } else if shuffled && s.len() > 1 {
        let k = if q.len() == 0 { 1 } else { q.len() as int };
        shuffled_after(s, new, k)
    } else {
        new == s
    }
}

/// The queue after a cycle: the front track moves to the back, and with
/// shuffle on (and more than two tracks) all but the new front are put in
/// some order.
pub open spec fn cycled<A>(q: Seq<A>, shuffled: bool, new: Seq<A>) -> bool {
    let r = rotate(q);
    if shuffled && r.len() > 2 {
        shuffled_after(r, new, 1)
    } else {
        new == r
    }
}

/// The queue after shuffle is switched on or off: switching it on puts all
/// tracks but the playing one in some order (when there are more than two).
pub open spec fn toggled<A>(q: Seq<A>, now_on: bool, new: Seq<A>) -> bool {
    if now_on && q.len() > 2 {
        shuffled_after(q, new, 1)
    } else {
        new == q
    }
}

/// The position of the first entry of `v` for message `msg`.
fn find_search(v: &Vec<SearchEntry>, msg: u64) -> (r: Option<usize>)
    ensures
        match r {
            Some(j) => j < v@.len() && search_lookup(v@, msg) == Some(v@[j as int]),
            None => search_lookup(v@, msg) is None,
        },
{
    let ghost s = v@;
    let mut i: usize = 0;
    assert(s.skip(0) =~= s);
    while i < v.len()
        invariant
            v@ == s,
            i <= s.len(),
            search_lookup(s, msg) == search_lookup(s.skip(i as int), msg),
        decreases s.len() - i,
    {
        let ghost rest = s.skip(i as int);
        assert(rest[0] == s[i as int]);
        assert(rest.drop_first() =~= s.skip(i + 1));
        if v[i].message_id == msg {
            return Some(i);
        }
        i += 1;
    }
    assert(s.skip(i as int) =~= Seq::<SearchEntry>::empty());
    None
}

// ---------------------------------------------------------------------------
// Queue manager
// ---------------------------------------------------------------------------

// ---------------------------------------------------------------------------
// Search results
// ---------------------------------------------------------------------------

/// How long, in seconds, the candidates of a search stay available.
pub const SEARCH_TTL_SECS: u64 = 300;

/// The candidates of one keyword search, kept under the id of the message
/// that offers them.
pub struct SearchEntry {
    pub message_id: u64,
    pub guild_id: u64,
    pub tracks: Vec<TrackMetadata>,
    /// When the candidates were offered, in seconds.
    pub created_at: u64,
}

/// Whether an entry survives a clean-up: it is not older than
/// `SEARCH_TTL_SECS` at time `now` (when given), is not the one of message
/// `msg` (when given), and is not of server `guild` (when given).
pub open spec fn entry_kept(e: SearchEntry, now: Option<u64>, msg: Option<u64>, guild: Option<u64>) -> bool {
    &&& match now {
        Some(t) => t <= e.created_at + SEARCH_TTL_SECS,
        None => true,
    }
    &&& match msg {
        Some(m) => e.message_id != m,
        None => true,
    }
    &&& match guild {
        Some(g) => e.guild_id != g,
        None => true,
    }
}

/// The entries of `s` that survive a clean-up, in order.
pub open spec fn kept_entries(s: Seq<SearchEntry>, now: Option<u64>, msg: Option<u64>, guild: Option<u64>) -> Seq<SearchEntry>
    decreases s.len(),
{
    if s.len() == 0 {
        Seq::empty()
    } else {
        let k = kept_entries(s.drop_last(), now, msg, guild);
        if entry_kept(s.last(), now, msg, guild) {
            k.push(s.last())
        } else {
            k
        }
    }
}

/// The first entry of `s` for message `msg`.
pub open spec fn search_lookup(s: Seq<SearchEntry>, msg: u64) -> Option<SearchEntry>
    decreases s.len(),
{
    if s.len() == 0 {
        None
    } else if s[0].message_id == msg {
        Some(s[0])
    } else {
        search_lookup(s.drop_first(), msg)
    }
}

fn entry_survives(e: &SearchEntry, now: Option<u64>, msg: Option<u64>, guild: Option<u64>) -> (r: bool)
    ensures
        r == entry_kept(*e, now, msg, guild),
{
    let fresh = match now {
        Some(t) => t <= e.created_at || t - e.created_at <= SEARCH_TTL_SECS,
        None => true,
    };
    let other_msg = match msg {
        Some(m) => e.message_id != m,
        None => true,
    };
    let other_guild = match guild {
        Some(g) => e.guild_id != g,
        None => true,
    };
    fresh && other_msg && other_guild
}

/// The entries of `v` that survive a clean-up.
fn retain_entries(v: Vec<SearchEntry>, now: Option<u64>, msg: Option<u64>, guild: Option<u64>) -> (r: Vec<SearchEntry>)
    ensures
        r@ == kept_entries(v@, now, msg, guild),
{
    let ghost s = v@;
    let mut v = v;
    let mut out: Vec<SearchEntry> = Vec::new();
    let ghost mut i: int = 0;
    assert(s.skip(0) =~= s);
    assert(s.take(0) =~= Seq::<SearchEntry>::empty());
    while v.len() > 0
        invariant
            0 <= i <= s.len(),
            v@ == s.skip(i),
            out@ == kept_entries(s.take(i), now, msg, guild),
        decreases v@.len(),
    {
        let e = v.remove(0);
        proof {
            assert(s.take(i + 1).drop_last() =~= s.take(i));
            assert(s.take(i + 1).last() == s[i]);
            assert(v@ =~= s.skip(i + 1));
        }
        if entry_survives(&e, now, msg, guild) {
            out.push(e);
        }
        proof {
            i = i + 1;
        }
    }
    assert(s.take(i) =~= s);
    out
}

/// Queues, repeat modes and shuffle flags of all servers, keyed by the
/// server's id; the text channel, the last "now playing" message and the
/// track recorded as playing of each server are kept alongside, and so are
/// the candidates of recent keyword searches.
pub struct QueueManager {
    queues: HashMap<u64, VecDeque<TrackMetadata>>,
    loop_modes: HashMap<u64, LoopMode>,
    shuffled: HashMap<u64, bool>,
    text_channels: HashMap<u64, u64>,
    last_messages: HashMap<u64, u64>,
    current: HashMap<u64, TrackMetadata>,
    searches: Vec<SearchEntry>,
}

impl QueueManager {
    /// The queue of server `g`; empty when it has none.
    pub closed spec fn queue_of(&self, g: u64) -> Seq<TrackMetadata> {
        if self.queues@.contains_key(g) {
            self.queues@[g]@
        } else {
            Seq::empty()
        }
    }

    /// The repeat mode of server `g`; `Off` when none was set.
    pub closed spec fn loop_mode_of(&self, g: u64) -> LoopMode {
        if self.loop_modes@.contains_key(g) {
            self.loop_modes@[g]
        } else {
            LoopMode::Off
        }
    }

    /// Whether shuffle is on for server `g`; off when never set.
    pub closed spec fn shuffle_of(&self, g: u64) -> bool {
        self.shuffled@.contains_key(g) && self.shuffled@[g]
    }

    /// The text channel recorded for server `g`.
    pub closed spec fn text_channel_of(&self, g: u64) -> Option<u64> {
        if self.text_channels@.contains_key(g) {
            Some(self.text_channels@[g])
        } else {
            None
        }
    }

    /// The last "now playing" message recorded for server `g`.
    pub closed spec fn last_message_of(&self, g: u64) -> Option<u64> {
        if self.last_messages@.contains_key(g) {
            Some(self.last_messages@[g])
        } else {
            None
        }
    }

    /// The track recorded as playing on server `g`, if any.
    pub closed spec fn current_of(&self, g: u64) -> Option<TrackMetadata> {
        if self.current@.contains_key(g) {
            Some(self.current@[g])
        } else {
            None
        }
    }

    /// The stored search candidates, oldest first.
    pub closed spec fn searches_of(&self) -> Seq<SearchEntry> {
        self.searches@
    }

    /// `new` differs from `old` at most in the queue of server `g`.
    pub open spec fn only_queue_changed(old: &Self, new: &Self, g: u64) -> bool {
        &&& forall|h: u64| h != g ==> #[trigger] new.queue_of(h) == old.queue_of(h)
        &&& forall|h: u64| #[trigger] new.loop_mode_of(h) == old.loop_mode_of(h)
        &&& forall|h: u64| #[trigger] new.shuffle_of(h) == old.shuffle_of(h)
        &&& forall|h: u64| #[trigger] new.text_channel_of(h) == old.text_channel_of(h)
        &&& forall|h: u64| #[trigger] new.last_message_of(h) == old.last_message_of(h)
        &&& forall|h: u64| #[trigger] new.current_of(h) == old.current_of(h)
        &&& new.searches_of() == old.searches_of()
    }

    /// `new` differs from `old` at most in the queue and shuffle flag of `g`.
    pub open spec fn only_queue_and_shuffle_changed(old: &Self, new: &Self, g: u64) -> bool {
        &&& forall|h: u64| h != g ==> #[trigger] new.queue_of(h) == old.queue_of(h)
        &&& forall|h: u64| #[trigger] new.loop_mode_of(h) == old.loop_mode_of(h)
        &&& forall|h: u64| h != g ==> #[trigger] new.shuffle_of(h) == old.shuffle_of(h)
        &&& forall|h: u64| #[trigger] new.text_channel_of(h) == old.text_channel_of(h)
        &&& forall|h: u64| #[trigger] new.last_message_of(h) == old.last_message_of(h)
        &&& forall|h: u64| #[trigger] new.current_of(h) == old.current_of(h)
        &&& new.searches_of() == old.searches_of()
    }

    /// The state after `advance(g)`.
    pub open spec fn advanced(old: &Self, new: &Self, g: u64) -> bool {
        &&& Self::only_queue_changed(old, new, g)
        &&& new.queue_of(g) == if old.queue_of(g).len() == 0 {
            old.queue_of(g)
        } else {
            old.queue_of(g).drop_first()
        }
    }

    /// The state after `cycle_queue(g)`.
    pub open spec fn cycled_state(old: &Self, new: &Self, g: u64) -> bool {
        &&& Self::only_queue_changed(old, new, g)
        &&& cycled(old.queue_of(g), old.shuffle_of(g), new.queue_of(g))
    }

    /// The state after `toggle_shuffle(g)`.
    pub open spec fn toggled_state(old: &Self, new: &Self, g: u64) -> bool {
        &&& Self::only_queue_and_shuffle_changed(old, new, g)
        &&& new.shuffle_of(g) == !old.shuffle_of(g)
        &&& toggled(old.queue_of(g), new.shuffle_of(g), new.queue_of(g))
    }

    /// The state after `jump_to(g, index)`.
    pub open spec fn jumped(old: &Self, new: &Self, g: u64, index: int) -> bool {
        &&& Self::only_queue_changed(old, new, g)
        &&& new.queue_of(g) == if index < old.queue_of(g).len() {
            old.queue_of(g).skip(index)
        } else {
            old.queue_of(g)
        }
    }

    /// The state after `clear(g)`.
    pub open spec fn cleared(old: &Self, new: &Self, g: u64) -> bool {
        &&& forall|h: u64| h != g ==> #[trigger] new.queue_of(h) == old.queue_of(h)
        &&& forall|h: u64| h != g ==> #[trigger] new.loop_mode_of(h) == old.loop_mode_of(h)
        &&& forall|h: u64| h != g ==> #[trigger] new.shuffle_of(h) == old.shuffle_of(h)
        &&& forall|h: u64| #[trigger] new.text_channel_of(h) == old.text_channel_of(h)
        &&& forall|h: u64| #[trigger] new.last_message_of(h) == old.last_message_of(h)
        &&& forall|h: u64| h != g ==> #[trigger] new.current_of(h) == old.current_of(h)
        &&& new.queue_of(g) == Seq::<TrackMetadata>::empty()
        &&& new.loop_mode_of(g) == LoopMode::Off
        &&& !new.shuffle_of(g)
        &&& new.current_of(g) is None
        &&& new.searches_of() == kept_entries(old.searches_of(), None, None, Some(g))
    }

    /// An empty manager: no queues, every mode `Off`, shuffle off.
    pub fn new() -> (m: Self)
        ensures
            forall|g: u64| #[trigger] m.queue_of(g) == Seq::<TrackMetadata>::empty(),
            forall|g: u64| #[trigger] m.loop_mode_of(g) == LoopMode::Off,
            forall|g: u64| !#[trigger] m.shuffle_of(g),
            forall|g: u64| #[trigger] m.text_channel_of(g) == None::<u64>,
            forall|g: u64| #[trigger] m.last_message_of(g) == None::<u64>,
            forall|g: u64| #[trigger] m.current_of(g) == None::<TrackMetadata>,
            m.searches_of() == Seq::<SearchEntry>::empty(),
    {
        QueueManager {
            queues: HashMap::new(),
            loop_modes: HashMap::new(),
            shuffled: HashMap::new(),
            text_channels: HashMap::new(),
            last_messages: HashMap::new(),
            current: HashMap::new(),
            searches: Vec::new(),
        }
    }

    /// Takes the queue of `g` out of the map (empty when it has none).
    fn take_queue(&mut self, g: u64) -> (q: VecDeque<TrackMetadata>)
        ensures
            q@ == old(self).queue_of(g),
            !final(self).queues@.contains_key(g),
            forall|h: u64| h != g ==> #[trigger] final(self).queue_of(h) == old(self).queue_of(h),
            final(self).loop_modes == old(self).loop_modes,
            final(self).shuffled == old(self).shuffled,
            final(self).text_channels == old(self).text_channels,
            final(self).last_messages == old(self).last_messages,
            final(self).current == old(self).current,
            final(self).searches == old(self).searches,
    {
        match self.queues.remove(&g) {
            Some(q) => q,
            None => VecDeque::new(),
        }
    }

    /// Puts a queue back for `g`.
    fn put_queue(&mut self, g: u64, q: VecDeque<TrackMetadata>)
        ensures
            final(self).queue_of(g) == q@,
            forall|h: u64| h != g ==> #[trigger] final(self).queue_of(h) == old(self).queue_of(h),
            final(self).loop_modes == old(self).loop_modes,
            final(self).shuffled == old(self).shuffled,
            final(self).text_channels == old(self).text_channels,
            final(self).last_messages == old(self).last_messages,
            final(self).current == old(self).current,
            final(self).searches == old(self).searches,
    {
        self.queues.insert(g, q);
    }

    /// Appends a track at the back of the queue of `g`.
    pub fn push_track(&mut self, guild_id: u64, track: TrackMetadata)
        ensures
            Self::only_queue_changed(old(self), final(self), guild_id),
            final(self).queue_of(guild_id) == old(self).queue_of(guild_id).push(track),
    {
        let mut q = self.take_queue(guild_id);
        q.push_back(track);
        self.put_queue(guild_id, q);
    }

    /// Appends the tracks of a playlist. With shuffle on, the newly added
    /// tracks are put in some order (never the one that is playing).
    pub fn push_playlist(&mut self, guild_id: u64, tracks: Vec<TrackMetadata>)
        ensures
            Self::only_queue_changed(old(self), final(self), guild_id),
            playlist_pushed(
                old(self).queue_of(guild_id),
                tracks@,
                old(self).shuffle_of(guild_id),
                final(self).queue_of(guild_id),
            ),
    {
        if tracks.len() == 0 {
            return;
        }
        let is_shuffled = self.get_shuffle(guild_id);
        let mut q = self.take_queue(guild_id);
        let ghost q0 = q@;
        let start_len = q.len();
        let ghost ts = tracks@;
        let mut j: usize = 0;
        while j < tracks.len()
            invariant
                j <= ts.len(),
                tracks@ == ts,
                q@ == q0 + ts.take(j as int),
            decreases ts.len() - j,
        {
            q.push_back(tracks[j].duplicate());
            j += 1;
            assert(q@ =~= q0 + ts.take(j as int));
        }
        assert(ts.take(ts.len() as int) =~= ts);
        if is_shuffled && q.len() > 1 {
            let shuffle_start: usize = if start_len == 0 { 1 } else { start_len };
            if shuffle_start < q.len() {
                q = shuffle_tail(q, shuffle_start);
            } else {
                assert(q@.skip(shuffle_start as int) =~= Seq::<TrackMetadata>::empty());
                assert(q@.take(shuffle_start as int) =~= q@);
            }
        }
        self.put_queue(guild_id, q);
    }

    /// The track that is playing: the one recorded by `set_current_track`
    /// when there is one, else the front of the queue, if any.
    pub fn get_current(&self, guild_id: u64) -> (r: Option<TrackMetadata>)
        ensures
            r == (match self.current_of(guild_id) {
                Some(t) => Some(t),
                None => if self.queue_of(guild_id).len() > 0 {
                    Some(self.queue_of(guild_id)[0])
                } else {
                    None
                },
            }),
    {
        if let Some(t) = self.current.get(&guild_id) {
            return Some(t.duplicate());
        }
        match self.queues.get(&guild_id) {
            Some(q) => {
                if q.len() > 0 {
                    Some(q[0].duplicate())
                } else {
                    None
                }
            },
            None => None,
        }
    }

    /// The whole queue of `g`, the playing track first.
    pub fn get_queue(&self, guild_id: u64) -> (r: Vec<TrackMetadata>)
        ensures
            r@ == self.queue_of(guild_id),
    {
        let mut out: Vec<TrackMetadata> = Vec::new();
        match self.queues.get(&guild_id) {
            Some(q) => {
                let mut i: usize = 0;
                while i < q.len()
                    invariant
                        i <= q@.len(),
                        out@ == q@.take(i as int),
                    decreases q@.len() - i,
                {
                    out.push(q[i].duplicate());
                    i += 1;
                    assert(out@ =~= q@.take(i as int));
                }
                assert(q@.take(q@.len() as int) =~= q@);
            },
            None => {},
        }
        out
    }

    /// The repeat mode of `g` (`Off` when never set).
    pub fn get_loop_mode(&self, guild_id: u64) -> (m: LoopMode)
        ensures
            m == self.loop_mode_of(guild_id),
    {
        match self.loop_modes.get(&guild_id) {
            Some(m) => *m,
            None => LoopMode::Off,
        }
    }

    /// Sets the repeat mode of `g`.
    pub fn set_loop_mode(&mut self, guild_id: u64, mode: LoopMode)
        ensures
            forall|h: u64| #[trigger] final(self).queue_of(h) == old(self).queue_of(h),
            forall|h: u64| h != guild_id ==> #[trigger] final(self).loop_mode_of(h) == old(
                self,
            ).loop_mode_of(h),
            forall|h: u64| #[trigger] final(self).shuffle_of(h) == old(self).shuffle_of(h),
            forall|h: u64| #[trigger] final(self).text_channel_of(h) == old(self).text_channel_of(
                h,
            ),
            forall|h: u64| #[trigger] final(self).last_message_of(h) == old(self).last_message_of(
                h,
            ),
            final(self).loop_mode_of(guild_id) == mode,
            forall|h: u64| #[trigger] final(self).current_of(h) == old(self).current_of(h),
            final(self).searches_of() == old(self).searches_of(),
    {
        self.loop_modes.insert(guild_id, mode);
    }

    /// Whether shuffle is on for `g`.
    pub fn get_shuffle(&self, guild_id: u64) -> (b: bool)
        ensures
            b == self.shuffle_of(guild_id),
    {
        match self.shuffled.get(&guild_id) {
            Some(b) => *b,
            None => false,
        }
    }

    /// Switches shuffle on or off and returns the new state. Switching it on
    /// puts the upcoming tracks (all but the playing one) in some order.
    pub fn toggle_shuffle(&mut self, guild_id: u64) -> (now_on: bool)
        ensures
            Self::toggled_state(old(self), final(self), guild_id),
            now_on == final(self).shuffle_of(guild_id),
    {
        let is_shuffled = self.get_shuffle(guild_id);
        let new_state = !is_shuffled;
        self.shuffled.insert(guild_id, new_state);
        if new_state {
            let q = self.take_queue(guild_id);
            if q.len() > 2 {
                let q2 = shuffle_tail(q, 1);
                self.put_queue(guild_id, q2);
            } else {
                self.put_queue(guild_id, q);
            }
        }
        new_state
    }

    /// Drops the playing track and returns the new front, if any.
    pub fn advance(&mut self, guild_id: u64) -> (r: Option<TrackMetadata>)
        ensures
            Self::advanced(old(self), final(self), guild_id),
            r == (if final(self).queue_of(guild_id).len() > 0 {
                Some(final(self).queue_of(guild_id)[0])
            } else {
                None
            }),
    {
        let mut q = self.take_queue(guild_id);
        let _ = q.pop_front();
        let r = if q.len() > 0 {
            Some(q[0].duplicate())
        } else {
            None
        };
        self.put_queue(guild_id, q);
        r
    }

    /// Moves the playing track to the back (repeat of the whole queue) and
    /// returns the new front; with shuffle on, the tracks after the new
    /// front are put in some order.
    pub fn cycle_queue(&mut self, guild_id: u64) -> (r: Option<TrackMetadata>)
        ensures
            Self::cycled_state(old(self), final(self), guild_id),
            r == (if final(self).queue_of(guild_id).len() > 0 {
                Some(final(self).queue_of(guild_id)[0])
            } else {
                None
            }),
    {
        let is_shuffled = self.get_shuffle(guild_id);
        let mut q = self.take_queue(guild_id);
        let ghost q0 = q@;
        match q.pop_front() {
            Some(front) => {
                q.push_back(front);
                assert(q@ =~= rotate(q0));
                if is_shuffled && q.len() > 2 {
                    q = shuffle_tail(q, 1);
                }
                let r = Some(q[0].duplicate());
                self.put_queue(guild_id, q);
                r
            },
            None => {
                self.put_queue(guild_id, q);
                None
            },
        }
    }

    /// Drops the `index` tracks before position `index`, making that track
    /// the front, and returns it; `None` (and no change) when the position
    /// is past the end.
    pub fn jump_to(&mut self, guild_id: u64, index: usize) -> (r: Option<TrackMetadata>)
        ensures
            Self::jumped(old(self), final(self), guild_id, index as int),
            r == (if index < old(self).queue_of(guild_id).len() {
                Some(old(self).queue_of(guild_id)[index as int])
            } else {
                None
            }),
    {
        let mut q = self.take_queue(guild_id);
        let ghost q0 = q@;
        if index < q.len() {
            let mut k: usize = 0;
            while k < index
                invariant
                    k <= index < q0.len(),
                    q@ == q0.skip(k as int),
                decreases index - k,
            {
                let _ = q.pop_front();
                k += 1;
                assert(q@ =~= q0.skip(k as int));
            }
            let r = Some(q[0].duplicate());
            self.put_queue(guild_id, q);
            r
        } else {
            self.put_queue(guild_id, q);
            None
        }
    }

    /// Forgets the queue, repeat mode, shuffle flag and recorded playing
    /// track of `g`, and the search candidates offered on `g`.
    pub fn clear(&mut self, guild_id: u64)
        ensures
            Self::cleared(old(self), final(self), guild_id),
    {
        let _ = self.queues.remove(&guild_id);
        let _ = self.loop_modes.remove(&guild_id);
        let _ = self.shuffled.remove(&guild_id);
        let _ = self.current.remove(&guild_id);
        let mut searches: Vec<SearchEntry> = Vec::new();
        std::mem::swap(&mut searches, &mut self.searches);
        self.searches = retain_entries(searches, None, None, Some(guild_id));
    }

    /// Records `track` as the one playing on `g` (once it has started).
    pub fn set_current_track(&mut self, guild_id: u64, track: TrackMetadata)
        ensures
            forall|h: u64| #[trigger] final(self).queue_of(h) == old(self).queue_of(h),
            forall|h: u64| #[trigger] final(self).loop_mode_of(h) == old(self).loop_mode_of(h),
            forall|h: u64| #[trigger] final(self).shuffle_of(h) == old(self).shuffle_of(h),
            forall|h: u64| #[trigger] final(self).text_channel_of(h) == old(self).text_channel_of(h),
            forall|h: u64| #[trigger] final(self).last_message_of(h) == old(self).last_message_of(h),
            forall|h: u64| h != guild_id ==> #[trigger] final(self).current_of(h) == old(self).current_of(h),
            final(self).current_of(guild_id) == Some(track),
            final(self).searches_of() == old(self).searches_of(),
    {
        self.current.insert(guild_id, track);
    }

    /// Keeps the candidates of a search offered by message `message_id` on
    /// `g`, at time `now` (seconds); entries older than `SEARCH_TTL_SECS`
    /// and an earlier entry of the same message are dropped.
    pub fn set_search_results(&mut self, message_id: u64, guild_id: u64, tracks: Vec<TrackMetadata>, now: u64)
        ensures
            forall|h: u64| #[trigger] final(self).queue_of(h) == old(self).queue_of(h),
            forall|h: u64| #[trigger] final(self).loop_mode_of(h) == old(self).loop_mode_of(h),
            forall|h: u64| #[trigger] final(self).shuffle_of(h) == old(self).shuffle_of(h),
            forall|h: u64| #[trigger] final(self).text_channel_of(h) == old(self).text_channel_of(h),
            forall|h: u64| #[trigger] final(self).last_message_of(h) == old(self).last_message_of(h),
            forall|h: u64| #[trigger] final(self).current_of(h) == old(self).current_of(h),
            final(self).searches_of() == kept_entries(old(self).searches_of(), Some(now), Some(message_id), None).push(
                SearchEntry { message_id, guild_id, tracks, created_at: now },
            ),
    {
        let mut searches: Vec<SearchEntry> = Vec::new();
        std::mem::swap(&mut searches, &mut self.searches);
        let mut kept = retain_entries(searches, Some(now), Some(message_id), None);
        kept.push(SearchEntry { message_id, guild_id, tracks, created_at: now });
        self.searches = kept;
    }

    /// Takes out the candidates offered by message `message_id`, if they
    /// are still there at time `now`: expired entries are dropped first, and
    /// the entry is used once (it is gone afterwards).
    pub fn take_search_results(&mut self, message_id: u64, now: u64) -> (r: Option<Vec<TrackMetadata>>)
        ensures
            forall|h: u64| #[trigger] final(self).queue_of(h) == old(self).queue_of(h),
            forall|h: u64| #[trigger] final(self).loop_mode_of(h) == old(self).loop_mode_of(h),
            forall|h: u64| #[trigger] final(self).shuffle_of(h) == old(self).shuffle_of(h),
            forall|h: u64| #[trigger] final(self).text_channel_of(h) == old(self).text_channel_of(h),
            forall|h: u64| #[trigger] final(self).last_message_of(h) == old(self).last_message_of(h),
            forall|h: u64| #[trigger] final(self).current_of(h) == old(self).current_of(h),
            ({
                let fresh = kept_entries(old(self).searches_of(), Some(now), None, None);
                &&& final(self).searches_of() == kept_entries(fresh, None, Some(message_id), None)
                &&& match search_lookup(fresh, message_id) {
                    Some(e) => r matches Some(v) && v@ == e.tracks@,
                    None => r is None,
                }
            }),
    {
        let mut searches: Vec<SearchEntry> = Vec::new();
        std::mem::swap(&mut searches, &mut self.searches);
        let fresh = retain_entries(searches, Some(now), None, None);
        let found = match find_search(&fresh, message_id) {
            Some(j) => Some(duplicate_tracks(&fresh[j].tracks)),
            None => None,
        };
        self.searches = retain_entries(fresh, None, Some(message_id), None);
        found
    }

    /// Drops every upcoming track (all but the playing one) and returns how
    /// many were dropped.
    pub fn clear_upcoming(&mut self, guild_id: u64) -> (removed: usize)
        ensures
            Self::only_queue_changed(old(self), final(self), guild_id),
            final(self).queue_of(guild_id) == old(self).queue_of(guild_id).take(
                if old(self).queue_of(guild_id).len() == 0 { 0int } else { 1int },
            ),
            removed == if old(self).queue_of(guild_id).len() == 0 {
                0
            } else {
                old(self).queue_of(guild_id).len() - 1
            },
    {
        let mut q = self.take_queue(guild_id);
        let n = q.len();
        let removed = if n > 1 { n - 1 } else { 0 };
        if n > 1 {
            q.truncate(1);
        }
        proof {
            if n <= 1 {
                assert(q@.take(if n == 0 { 0int } else { 1int }) =~= q@);
            }
        }
        self.put_queue(guild_id, q);
        removed
    }

    /// Removes the track at `position` (0 being the playing track) and
    /// returns it; `None` (and no change) when there is no such position.
    pub fn remove_at(&mut self, guild_id: u64, position: usize) -> (r: Option<TrackMetadata>)
        ensures
            Self::only_queue_changed(old(self), final(self), guild_id),
            position < old(self).queue_of(guild_id).len() ==> r == Some(
                old(self).queue_of(guild_id)[position as int],
            ) && final(self).queue_of(guild_id) == old(self).queue_of(guild_id).remove(
                position as int,
            ),
            position >= old(self).queue_of(guild_id).len() ==> r is None && final(self).queue_of(
                guild_id,
            ) == old(self).queue_of(guild_id),
    {
        let mut q = self.take_queue(guild_id);
        let r = if position < q.len() {
            q.remove(position)
        } else {
            None
        };
        self.put_queue(guild_id, q);
        r
    }

    /// Records the text channel where `g` is being served.
    pub fn set_text_channel(&mut self, guild_id: u64, channel_id: u64)
        ensures
            forall|h: u64| #[trigger] final(self).queue_of(h) == old(self).queue_of(h),
            forall|h: u64| #[trigger] final(self).loop_mode_of(h) == old(self).loop_mode_of(h),
            forall|h: u64| #[trigger] final(self).shuffle_of(h) == old(self).shuffle_of(h),
            forall|h: u64| h != guild_id ==> #[trigger] final(self).text_channel_of(h) == old(
                self,
            ).text_channel_of(h),
            forall|h: u64| #[trigger] final(self).last_message_of(h) == old(self).last_message_of(
                h,
            ),
            final(self).text_channel_of(guild_id) == Some(channel_id),
            forall|h: u64| #[trigger] final(self).current_of(h) == old(self).current_of(h),
            final(self).searches_of() == old(self).searches_of(),
    {
        self.text_channels.insert(guild_id, channel_id);
    }

    /// The text channel recorded for `g`.
    pub fn get_text_channel(&self, guild_id: u64) -> (r: Option<u64>)
        ensures
            r == self.text_channel_of(guild_id),
    {
        match self.text_channels.get(&guild_id) {
            Some(c) => Some(*c),
            None => None,
        }
    }

    /// Records the last "now playing" message sent for `g`.
    pub fn set_last_message_id(&mut self, guild_id: u64, message_id: u64)
        ensures
            forall|h: u64| #[trigger] final(self).queue_of(h) == old(self).queue_of(h),
            forall|h: u64| #[trigger] final(self).loop_mode_of(h) == old(self).loop_mode_of(h),
            forall|h: u64| #[trigger] final(self).shuffle_of(h) == old(self).shuffle_of(h),
            forall|h: u64| #[trigger] final(self).text_channel_of(h) == old(self).text_channel_of(
                h,
            ),
            forall|h: u64| h != guild_id ==> #[trigger] final(self).last_message_of(h) == old(
                self,
            ).last_message_of(h),
            final(self).last_message_of(guild_id) == Some(message_id),
            forall|h: u64| #[trigger] final(self).current_of(h) == old(self).current_of(h),
            final(self).searches_of() == old(self).searches_of(),
    {
        self.last_messages.insert(guild_id, message_id);
    }

    /// The last "now playing" message recorded for `g`.
    pub fn get_last_message_id(&self, guild_id: u64) -> (r: Option<u64>)
        ensures
            r == self.last_message_of(guild_id),
    {
        match self.last_messages.get(&guild_id) {
            Some(m) => Some(*m),
            None => None,
        }
    }
}

/// Puts the items of `q` from position `k` on in some order, keeping the
/// first `k` in place.
fn shuffle_tail(q: VecDeque<TrackMetadata>, k: usize) -> (r: VecDeque<TrackMetadata>)
    requires
        k <= q@.len(),
    ensures
        shuffled_after(q@, r@, k as int),
{
    let ghost q0 = q@;
    let mut q = q;
    let n0 = q.len();
    assert(q0.len() == n0);
    let mut head: Vec<TrackMetadata> = Vec::new();
    let mut tail: Vec<TrackMetadata> = Vec::new();
    let mut i: usize = 0;
    while q.len() > 0
        invariant
            q0.len() == i + q@.len(),
            q@ == q0.skip(i as int),
            head@ == q0.take(if i < k { i as int } else { k as int }),
            tail@ == if i < k { Seq::<TrackMetadata>::empty() } else { q0.subrange(k as int, i as int) },
            k <= q0.len(),
            q0.len() <= usize::MAX,
        decreases q@.len(),
    {
        let t = q.pop_front();
        match t {
            Some(x) => {
                if i < k {
                    head.push(x);
                } else {
                    tail.push(x);
                }
                i += 1;
                assert(q@ =~= q0.skip(i as int));
                assert(head@ =~= q0.take(if i < k { i as int } else { k as int }));
                assert(tail@ =~= if i < k { Seq::<TrackMetadata>::empty() } else { q0.subrange(k as int, i as int) });
            },
            None => {},
        }
    }
    assert(tail@ =~= q0.skip(k as int));
    let mut rng = thread_rng();
    shuffle_vec(&mut tail, &mut rng);
    let mut out: VecDeque<TrackMetadata> = VecDeque::new();
    let mut j: usize = 0;
    while j < head.len()
        invariant
            j <= head@.len(),
            out@ == head@.take(j as int),
        decreases head@.len() - j,
    {
        out.push_back(head[j].duplicate());
        j += 1;
        assert(out@ =~= head@.take(j as int));
    }
    assert(head@.take(head@.len() as int) =~= head@);
    let mut m: usize = 0;
    while m < tail.len()
        invariant
            m <= tail@.len(),
            out@ == head@ + tail@.take(m as int),
        decreases tail@.len() - m,
    {
        out.push_back(tail[m].duplicate());
        m += 1;
        assert(out@ =~= head@ + tail@.take(m as int));
    }
    assert(tail@.take(tail@.len() as int) =~= tail@);
    assert(out@.take(k as int) =~= head@);
    assert(out@.skip(k as int) =~= tail@);
    out
}

// ---------------------------------------------------------------------------
// Laws
// ---------------------------------------------------------------------------

/// Shuffling never loses, adds or duplicates a track, and keeps the tracks
/// before the shuffled part where they were.
pub proof fn law_shuffle_keeps_tracks<A>(s: Seq<A>, new: Seq<A>, k: int)
    requires
        0 <= k <= s.len(),
        shuffled_after(s, new, k),
    ensures
        new.to_multiset() == s.to_multiset(),
        forall|i: int| 0 <= i < k ==> new[i] == s[i],
{
    assert(s =~= s.take(k) + s.skip(k));
    assert(new =~= new.take(k) + new.skip(k));
    vstd::seq_lib::lemma_multiset_commutative(s.take(k), s.skip(k));
    vstd::seq_lib::lemma_multiset_commutative(new.take(k), new.skip(k));
    assert forall|i: int| 0 <= i < k implies new[i] == s[i] by {
        assert(new.take(k)[i] == s.take(k)[i]);
    }
}

/// A cycle (repeat of the whole queue) keeps every track of the queue, each
/// as often as before, and keeps its length.
pub proof fn law_cycle_keeps_tracks<A>(q: Seq<A>, shuffled: bool, new: Seq<A>)
    requires
        cycled(q, shuffled, new),
    ensures
        new.to_multiset() == q.to_multiset(),
        new.len() == q.len(),
        q.len() > 0 && !(shuffled && q.len() > 2) ==> new.last() == q[0],
{
    let r = rotate(q);
    if q.len() > 0 {
        assert(q =~= seq![q[0]] + q.drop_first());
        vstd::seq_lib::lemma_multiset_commutative(seq![q[0]], q.drop_first());
        vstd::seq_lib::lemma_multiset_commutative(q.drop_first(), seq![q[0]]);
        assert(r =~= q.drop_first() + seq![q[0]]);
    }
    assert(r.to_multiset() == q.to_multiset());
    if shuffled && r.len() > 2 {
        law_shuffle_keeps_tracks(r, new, 1);
        vstd::seq_lib::to_multiset_len(new);
        vstd::seq_lib::to_multiset_len(q);
        assert(new.to_multiset().len() == new.len());
        assert(q.to_multiset().len() == q.len());
    }
}

/// Rotating a queue `k` times (`k` below its length) brings track `k` to
/// the front.
pub proof fn lemma_rotate_n_index<A>(s: Seq<A>, k: nat)
    requires
        k <= s.len(),
    ensures
        rotate_n(s, k) == s.skip(k as int) + s.take(k as int),
    decreases k,
{
    if k == 0 {
        assert(s.skip(0) + s.take(0) =~= s);
    } else {
        lemma_rotate_n_index(s, (k - 1) as nat);
        let prev = s.skip(k - 1) + s.take(k - 1);
        assert(prev.len() == s.len());
        assert(prev[0] == s[k - 1]);
        assert(rotate(prev) =~= s.skip(k as int) + s.take(k as int));
    }
}

/// With repeat of the whole queue and shuffle off, the queue comes back to
/// its starting order after as many cycles as it has tracks, and after `k`
/// cycles the track that started at position `k` is playing: every track
/// gets its turn, in order.
pub proof fn law_cycle_plays_every_track_in_turn<A>(s: Seq<A>, k: nat)
    requires
        k < s.len(),
    ensures
        rotate_n(s, k)[0] == s[k as int],
        rotate_n(s, s.len()) == s,
{
    lemma_rotate_n_index(s, k);
    lemma_rotate_n_index(s, s.len());
    assert(s.skip(s.len() as int) + s.take(s.len() as int) =~= s);
}

/// Switching shuffle on and then off again restores the flag and keeps
/// every track, with the playing track still in front.
pub proof fn law_toggle_twice(a: &QueueManager, b: &QueueManager, c: &QueueManager, g: u64)
    requires
        QueueManager::toggled_state(a, b, g),
        QueueManager::toggled_state(b, c, g),
    ensures
        c.shuffle_of(g) == a.shuffle_of(g),
        c.queue_of(g).to_multiset() == a.queue_of(g).to_multiset(),
        c.queue_of(g).len() == a.queue_of(g).len(),
        a.queue_of(g).len() > 0 ==> c.queue_of(g)[0] == a.queue_of(g)[0],
{
    let qa = a.queue_of(g);
    let qb = b.queue_of(g);
    let qc = c.queue_of(g);
    if b.shuffle_of(g) && qa.len() > 2 {
        law_shuffle_keeps_tracks(qa, qb, 1);
        vstd::seq_lib::to_multiset_len(qa);
        vstd::seq_lib::to_multiset_len(qb);
    }
    if c.shuffle_of(g) && qb.len() > 2 {
        law_shuffle_keeps_tracks(qb, qc, 1);
    }
}

/// Advancing drops exactly the playing track: what was second is now
/// playing, and the rest keeps its order.
pub proof fn law_advance_drops_current(a: &QueueManager, b: &QueueManager, g: u64)
    requires
        QueueManager::advanced(a, b, g),
        a.queue_of(g).len() > 0,
    ensures
        b.queue_of(g).len() == a.queue_of(g).len() - 1,
        forall|i: int| 0 <= i < b.queue_of(g).len() ==> b.queue_of(g)[i] == a.queue_of(g)[i + 1],
{
}

/// Jumping to position `i` makes the track at `i` the playing one and keeps
/// the tracks after it in order.
pub proof fn law_jump_plays_target(a: &QueueManager, b: &QueueManager, g: u64, i: int)
    requires
        QueueManager::jumped(a, b, g, i),
        0 <= i < a.queue_of(g).len(),
    ensures
        b.queue_of(g)[0] == a.queue_of(g)[i],
        b.queue_of(g).len() == a.queue_of(g).len() - i,
{
}

/// After `clear`, the server is as if it had never been used: no tracks,
/// repeat off and shuffle off.
pub proof fn law_clear_resets(a: &QueueManager, b: &QueueManager, g: u64)
    requires
        QueueManager::cleared(a, b, g),
    ensures
        b.queue_of(g).len() == 0,
        b.loop_mode_of(g) == LoopMode::Off,
        !b.shuffle_of(g),
{
}

/// A pushed playlist keeps every track already queued and adds each new
/// track once; without shuffle, the new tracks come last in their order.
pub proof fn law_playlist_adds_all(q: Seq<TrackMetadata>, tracks: Seq<TrackMetadata>, shuffled: bool, new: Seq<TrackMetadata>)
    requires
        playlist_pushed(q, tracks, shuffled, new),
    ensures
        new.to_multiset() == (q + tracks).to_multiset(),
        new.len() == q.len() + tracks.len(),
        q.len() > 0 ==> new.take(q.len() as int) == q,
        !shuffled ==> new == q + tracks,
{
    let s = q + tracks;
    if tracks.len() == 0 {
        assert(s =~= q);
    } else if shuffled && s.len() > 1 {
        let k = if q.len() == 0 { 1 } else { q.len() as int };
        law_shuffle_keeps_tracks(s, new, k);
        vstd::seq_lib::to_multiset_len(new);
        vstd::seq_lib::to_multiset_len(s);
        if q.len() > 0 {
            assert(s.take(q.len() as int) =~= q);
        }
    } else {
        if q.len() > 0 {
            assert(s.take(q.len() as int) =~= q);
        }
    }
}

/// Every entry that survives a clean-up meets its condition.
pub proof fn lemma_kept_entries_meet(s: Seq<SearchEntry>, now: Option<u64>, msg: Option<u64>, guild: Option<u64>)
    ensures
        forall|i: int| 0 <= i < kept_entries(s, now, msg, guild).len() ==> entry_kept(
            #[trigger] kept_entries(s, now, msg, guild)[i],
            now,
            msg,
            guild,
        ),
    decreases s.len(),
{
    if s.len() > 0 {
        lemma_kept_entries_meet(s.drop_last(), now, msg, guild);
        let k = kept_entries(s.drop_last(), now, msg, guild);
        if entry_kept(s.last(), now, msg, guild) {
            assert forall|i: int| 0 <= i < k.push(s.last()).len() implies entry_kept(
                #[trigger] k.push(s.last())[i],
                now,
                msg,
                guild,
            ) by {
                if i < k.len() {
                    assert(k.push(s.last())[i] == k[i]);
                }
            }
        }
    }
}

proof fn lemma_lookup_none(s: Seq<SearchEntry>, msg: u64)
    requires
        forall|i: int| 0 <= i < s.len() ==> (#[trigger] s[i]).message_id != msg,
    ensures
        search_lookup(s, msg) is None,
    decreases s.len(),
{
    if s.len() > 0 {
        assert forall|i: int| 0 <= i < s.drop_first().len() implies (#[trigger] s.drop_first()[i]).message_id != msg by {
            assert(s.drop_first()[i] == s[i + 1]);
        }
        lemma_lookup_none(s.drop_first(), msg);
    }
}

/// Search candidates are used once: after they were taken for a message,
/// none are left for it.
pub proof fn law_search_used_once(s: Seq<SearchEntry>, now: u64, msg: u64)
    ensures
        search_lookup(kept_entries(kept_entries(s, Some(now), None, None), None, Some(msg), None), msg) is None,
{
    let k = kept_entries(kept_entries(s, Some(now), None, None), None, Some(msg), None);
    lemma_kept_entries_meet(kept_entries(s, Some(now), None, None), None, Some(msg), None);
    assert forall|i: int| 0 <= i < k.len() implies (#[trigger] k[i]).message_id != msg by {
        assert(entry_kept(k[i], None, Some(msg), None));
    }
    lemma_lookup_none(k, msg);
}

/// No stored search is older than `SEARCH_TTL_SECS` right after new
/// candidates are stored at time `now`.
pub proof fn law_searches_expire(s: Seq<SearchEntry>, now: u64, msg: u64, e: SearchEntry)
    requires
        e.created_at == now,
    ensures
        forall|i: int| 0 <= i < kept_entries(s, Some(now), Some(msg), None).push(e).len() ==> now
            <= (#[trigger] kept_entries(s, Some(now), Some(msg), None).push(e)[i]).created_at + SEARCH_TTL_SECS,
{
    let k = kept_entries(s, Some(now), Some(msg), None);
    lemma_kept_entries_meet(s, Some(now), Some(msg), None);
    assert forall|i: int| 0 <= i < k.push(e).len() implies now <= (#[trigger] k.push(e)[i]).created_at + SEARCH_TTL_SECS by {
        if i < k.len() {
            assert(k.push(e)[i] == k[i]);
            assert(entry_kept(k[i], Some(now), Some(msg), None));
        }
    }
}

/// Moving through the queue (advancing, cycling, jumping, adding tracks)
/// keeps the track recorded as playing, so `get_current` keeps reporting it
/// until a new one is recorded or the server is cleared.
pub proof fn law_current_track_survives_queue_moves(a: &QueueManager, b: &QueueManager, g: u64)
    requires
        QueueManager::only_queue_changed(a, b, g),
    ensures
        b.current_of(g) == a.current_of(g),
{
}

/// With repeat of the whole queue and shuffle off, a cycle moves the
/// playing track to the back and the next one comes to the front (a lone
/// track plays again).
pub proof fn law_cycle_moves_front_to_back(a: &QueueManager, b: &QueueManager, g: u64)
    requires
        QueueManager::cycled_state(a, b, g),
        !a.shuffle_of(g),
        a.queue_of(g).len() > 0,
    ensures
        b.queue_of(g) == a.queue_of(g).drop_first().push(a.queue_of(g)[0]),
        b.queue_of(g)[0] == (if a.queue_of(g).len() > 1 { a.queue_of(g)[1] } else { a.queue_of(g)[0] }),
        b.queue_of(g).last() == a.queue_of(g)[0],
{
}

} // verus!
