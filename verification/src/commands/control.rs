//! What the playback commands answer.

use vstd::prelude::*;

use crate::commands::play::{start_of, Start};
use crate::queue::{LoopMode, QueueManager};
use crate::source::string_from;
use crate::text::{decimal, push_decimal, str_eq};
use crate::track::TrackMetadata;
use crate::utils::embed::{field, Embed, EmbedModel, FieldModel};

verus! {

/// A text answer to a command, shown to everyone or only to the caller.
pub struct Reply {
    pub text: String,
    pub ephemeral: bool,
}

/// A reply as plain values.
pub open spec fn reply_is(r: Reply, text: Seq<char>, ephemeral: bool) -> bool {
    r.text@ == text && r.ephemeral == ephemeral
}

fn reply(text: &str, ephemeral: bool) -> (r: Reply)
    ensures
        reply_is(r, text@, ephemeral),
{
    Reply { text: string_from(text), ephemeral }
}

/// The playback commands whose answer depends only on the voice
/// connection and on whether a track is playing.
#[derive(Debug, Clone, Copy, PartialEq, Eq, Structural)]
pub enum PlaybackCommand {
    Pause,
    Resume,
    Skip,
    Stop,
}

/// The answer to a playback command, given whether the bot is connected to
/// a voice channel of the server and whether a track is playing.
pub open spec fn playback_reply_of(cmd: PlaybackCommand, connected: bool, playing: bool) -> (Seq<char>, bool) {
    if !connected {
        ("⚠️ Bot is not connected to a voice channel."@, true)
    } else {
        match cmd {
            PlaybackCommand::Stop => ("⏹️ Playback stopped and queue cleared."@, false),
            PlaybackCommand::Pause => if playing {
                ("⏸️ Playback paused."@, false)
            } else {
                ("⚠️ Nothing is currently playing."@, true)
            },
            PlaybackCommand::Resume => if playing {
                ("▶️ Playback resumed."@, false)
            } else {
                ("⚠️ Nothing is currently playing."@, true)
            },
            PlaybackCommand::Skip => if playing {
                ("⏭️ Skipped current track."@, false)
            } else {
                ("⚠️ Nothing is playing to skip."@, true)
            },
        }
    }
}

/// The answer to `/pause`, `/resume`, `/skip` or `/stop`.
pub fn playback_reply(cmd: PlaybackCommand, connected: bool, playing: bool) -> (r: Reply)
    ensures
        reply_is(r, playback_reply_of(cmd, connected, playing).0, playback_reply_of(cmd, connected, playing).1),
{
    if !connected {
        return reply("⚠️ Bot is not connected to a voice channel.", true);
    }
    match cmd {
        PlaybackCommand::Stop => reply("⏹️ Playback stopped and queue cleared.", false),
        PlaybackCommand::Pause => if playing {
            reply("⏸️ Playback paused.", false)
        } else {
            reply("⚠️ Nothing is currently playing.", true)
        },
        PlaybackCommand::Resume => if playing {
            reply("▶️ Playback resumed.", false)
        } else {
            reply("⚠️ Nothing is currently playing.", true)
        },
        PlaybackCommand::Skip => if playing {
            reply("⏭️ Skipped current track.", false)
        } else {
            reply("⚠️ Nothing is playing to skip.", true)
        },
    }
}

/// The answer to `/leave` when the bot is not in a voice channel, or when
/// it left.
pub fn leave_reply(connected: bool) -> (r: Reply)
    ensures
        connected ==> reply_is(r, "👋 Disconnected from voice channel."@, false),
        !connected ==> reply_is(r, "⚠️ Bot is not in a voice channel."@, true),
{
    if connected {
        reply("👋 Disconnected from voice channel.", false)
    } else {
        reply("⚠️ Bot is not in a voice channel.", true)
    }
}

/// The repeat mode a `/repeat` choice selects: `track` or `song` repeat the
/// track, `queue` the whole queue, anything else (or nothing) turns repeat
/// off.
pub open spec fn loop_mode_of(choice: Option<Seq<char>>) -> LoopMode {
    match choice {
        Some(c) => if c == "track"@ || c == "song"@ {
            LoopMode::Track
        } else if c == "queue"@ {
            LoopMode::Queue
        } else {
            LoopMode::Off
        },
        None => LoopMode::Off,
    }
}

/// The repeat mode a `/repeat` choice selects.
pub fn parse_loop_mode(choice: Option<&str>) -> (m: LoopMode)
    ensures
        m == loop_mode_of(match choice { Some(c) => Some(c@), None => None }),
{
    match choice {
        Some(c) => if str_eq(c, "track") || str_eq(c, "song") {
            LoopMode::Track
        } else if str_eq(c, "queue") {
            LoopMode::Queue
        } else {
            LoopMode::Off
        },
        None => LoopMode::Off,
    }
}

/// The answer to `/repeat`: the mode's emoji and name.
pub fn repeat_message(mode: LoopMode) -> (r: String)
    ensures
        r@ == mode.symbol() + " Repeat mode set to **"@ + mode.name() + "**"@,
{
    let mut s = string_from(mode.emoji());
    s.append(" Repeat mode set to **");
    s.append(mode.as_str());
    s.append("**");
    s
}

/// The choices offered by `/repeat` select the modes they are named after.
pub proof fn law_repeat_choices()
    ensures
        loop_mode_of(Some("off"@)) == LoopMode::Off,
        loop_mode_of(Some("track"@)) == LoopMode::Track,
        loop_mode_of(Some("queue"@)) == LoopMode::Queue,
{
    reveal_strlit("off");
    reveal_strlit("track");
    reveal_strlit("song");
    reveal_strlit("queue");
    assert("off"@[0] != "track"@[0] && "off"@[0] != "song"@[0] && "off"@[0] != "queue"@[0]);
    assert("queue"@[0] != "track"@[0] && "queue"@[0] != "song"@[0]);
}

/// The answer to `/shuffle`, given the new shuffle state.
pub fn shuffle_message(on: bool) -> (r: &'static str)
    ensures
        on ==> r@ == "🔀 Random / Shuffle mode **enabled**! Upcoming tracks have been randomized."@,
        !on ==> r@ == "➡️ Random / Shuffle mode **disabled**."@,
{
    if on {
        "🔀 Random / Shuffle mode **enabled**! Upcoming tracks have been randomized."
    } else {
        "➡️ Random / Shuffle mode **disabled**."
    }
}

/// The answer to `/clear`, given how many upcoming tracks were dropped.
pub fn clear_reply(removed: usize) -> (r: Reply)
    ensures
        removed > 0 ==> reply_is(r, "🗑️ Cleared **"@ + decimal(removed as nat) + "** upcoming track(s) from the queue."@, false),
        removed == 0 ==> reply_is(r, "⚠️ The queue has no upcoming tracks to clear."@, true),
{
    if removed > 0 {
        let mut s = string_from("🗑️ Cleared **");
        push_decimal(&mut s, removed as u64);
        s.append("** upcoming track(s) from the queue.");
        Reply { text: s, ephemeral: false }
    } else {
        reply("⚠️ The queue has no upcoming tracks to clear.", true)
    }
}

/// The queue position an integer option gives: the integer converted with
/// `as usize` (a negative one wraps around), 0 when the option is missing or
/// not an integer.
pub fn position_of(value: Option<i64>) -> (p: usize)
    ensures
        p == match value { Some(v) => v as usize, None => 0 },
{
    match value {
        Some(v) => v as usize,
        None => 0,
    }
}

/// `[**title**](url)`.
pub open spec fn link_of(t: TrackMetadata) -> Seq<char> {
    "[**"@ + t.title@ + "**]("@ + t.url@ + ")"@
}

fn push_link(s: &mut String, t: &TrackMetadata)
    ensures
        final(s)@ == old(s)@ + link_of(*t),
{
    s.append("[**");
    s.append(t.title.as_str());
    s.append("**](");
    s.append(t.url.as_str());
    s.append(")");
}

/// The answer to `/remove` for position 0 (the playing track).
pub open spec fn remove_zero_message() -> Seq<char> {
    "⚠️ Position must be 1 or greater. Use `/skip` to skip the currently playing song (#0)."@
}

/// The answer to `/remove position`, given the track that was removed.
pub fn remove_reply(position: usize, removed: &Option<TrackMetadata>) -> (r: Reply)
    ensures
        position == 0 ==> reply_is(r, remove_zero_message(), true),
        position > 0 ==> match removed {
            Some(t) => reply_is(r, "🗑️ Removed **#"@ + decimal(position as nat) + "** "@ + link_of(*t) + " from the queue."@, false),
            None => reply_is(r, "⚠️ No track found at position **#"@ + decimal(position as nat) + "**."@, true),
        },
{
    if position == 0 {
        return reply("⚠️ Position must be 1 or greater. Use `/skip` to skip the currently playing song (#0).", true);
    }
    match removed {
        Some(t) => {
            let mut s = string_from("🗑️ Removed **#");
            push_decimal(&mut s, position as u64);
            s.append("** ");
            push_link(&mut s, t);
            s.append(" from the queue.");
            Reply { text: s, ephemeral: false }
        },
        None => {
            let mut s = string_from("⚠️ No track found at position **#");
            push_decimal(&mut s, position as u64);
            s.append("**.");
            Reply { text: s, ephemeral: true }
        },
    }
}

/// The answer to `/jump position`, given the track jumped to.
pub fn jump_reply(position: usize, target: &Option<TrackMetadata>) -> (r: Reply)
    ensures
        position == 0 ==> reply_is(r, "⚠️ Track #0 is already playing. Use `/replay` to restart it."@, true),
        position > 0 ==> match target {
            Some(t) => reply_is(r, "⏭️ Jumped to **#"@ + decimal(position as nat) + "**: "@ + link_of(*t), false),
            None => reply_is(r, "⚠️ Invalid track position **#"@ + decimal(position as nat) + "**."@, true),
        },
{
    if position == 0 {
        return reply("⚠️ Track #0 is already playing. Use `/replay` to restart it.", true);
    }
    match target {
        Some(t) => {
            let mut s = string_from("⏭️ Jumped to **#");
            push_decimal(&mut s, position as u64);
            s.append("**: ");
            push_link(&mut s, t);
            Reply { text: s, ephemeral: false }
        },
        None => {
            let mut s = string_from("⚠️ Invalid track position **#");
            push_decimal(&mut s, position as u64);
            s.append("**.");
            Reply { text: s, ephemeral: true }
        },
    }
}

/// The answer to `/replay`, given the playing track.
pub fn replay_reply(current: &Option<TrackMetadata>) -> (r: Reply)
    ensures
        match current {
            Some(t) => reply_is(r, "🔄 Replaying: "@ + link_of(*t), false),
            None => reply_is(r, "⚠️ Nothing is currently playing."@, true),
        },
{
    match current {
        Some(t) => {
            let mut s = string_from("🔄 Replaying: ");
            push_link(&mut s, t);
            Reply { text: s, ephemeral: false }
        },
        None => reply("⚠️ Nothing is currently playing.", true),
    }
}


/// Jumps to the track at `position` for `/jump` or a click in the queue
/// view. Position 0 (the playing track) or no position does nothing; a
/// position past the end does nothing either. Otherwise the tracks before
/// it are dropped and it is the track to start.
pub fn jump_request(queues: &mut QueueManager, guild_id: u64, position: Option<usize>) -> (r: Option<Start>)
    ensures
        match position {
            Some(p) if p > 0 => {
                &&& QueueManager::jumped(old(queues), final(queues), guild_id, p as int)
                &&& r == (if p < old(queues).queue_of(guild_id).len() {
                    Some(start_of(old(queues), guild_id, old(queues).queue_of(guild_id)[p as int]))
                } else {
                    None
                })
            },
            _ => r is None && *final(queues) == *old(queues),
        },
{
    match position {
        Some(p) => {
            if p == 0 {
                return None;
            }
            let enable_loop = queues.get_loop_mode(guild_id) == LoopMode::Track;
            match queues.jump_to(guild_id, p) {
                Some(track) => Some(Start { track, enable_loop }),
                None => None,
            }
        },
        None => None,
    }
}

/// The track `/replay` starts again: the playing one, repeating itself when
/// the repeat mode is `Track`.
pub fn replay_request(queues: &QueueManager, guild_id: u64) -> (r: Option<Start>)
    ensures
        r == match queues.current_of(guild_id) {
            Some(t) => Some(start_of(queues, guild_id, t)),
            None => if queues.queue_of(guild_id).len() > 0 {
                Some(start_of(queues, guild_id, queues.queue_of(guild_id)[0]))
            } else {
                None
            },
        },
{
    let enable_loop = queues.get_loop_mode(guild_id) == LoopMode::Track;
    match queues.get_current(guild_id) {
        Some(track) => Some(Start { track, enable_loop }),
        None => None,
    }
}

/// Removes the track at `position` for `/remove`. Position 0 (the playing
/// track) is refused: nothing changes and nothing is removed.
pub fn remove_request(queues: &mut QueueManager, guild_id: u64, position: usize) -> (r: Option<TrackMetadata>)
    ensures
        position == 0 ==> r is None && *final(queues) == *old(queues),
        position > 0 ==> QueueManager::only_queue_changed(old(queues), final(queues), guild_id),
        position > 0 && position < old(queues).queue_of(guild_id).len() ==> r == Some(
            old(queues).queue_of(guild_id)[position as int],
        ) && final(queues).queue_of(guild_id) == old(queues).queue_of(guild_id).remove(position as int),
        position >= old(queues).queue_of(guild_id).len() ==> r is None && final(queues).queue_of(guild_id)
            == old(queues).queue_of(guild_id),
{
    if position == 0 {
        return None;
    }
    queues.remove_at(guild_id, position)
}

/// The card of `/ping`.
pub open spec fn ping_card() -> EmbedModel {
    EmbedModel {
        author: None,
        title: Some("🏓 Pong!"@),
        url: None,
        description: None,
        fields: seq![
            FieldModel { name: "⚡ Bot Gateway Status"@, value: "🟢 Connected & Operational"@, inline: false },
            FieldModel { name: "📻 Audio Engine"@, value: "Songbird 48kHz Stereo Opus (96kbps)"@, inline: false },
        ],
        footer: None,
        color: Some((88, 101, 242)),
        thumbnail: None,
    }
}

/// The card of `/ping`: gateway and audio engine status.
pub fn handle_ping() -> (r: Embed)
    ensures
        r@ == ping_card(),
{
    let mut fields = Vec::new();
    fields.push(field("⚡ Bot Gateway Status", string_from("🟢 Connected & Operational"), false));
    fields.push(field("📻 Audio Engine", string_from("Songbird 48kHz Stereo Opus (96kbps)"), false));
    let e = Embed {
        author: None,
        title: Some(string_from("🏓 Pong!")),
        url: None,
        description: None,
        fields,
        footer: None,
        color: Some((88, 101, 242)),
        thumbnail: None,
    };
    assert(e@.fields =~= ping_card().fields);
    e
}

/// The card of `/help`.
pub open spec fn help_card() -> EmbedModel {
    EmbedModel {
        author: None,
        title: Some("📖 Discord Music Bot - Help Guide"@),
        url: None,
        description: Some("Lightweight high-performance music bot powered by Rust & Songbird."@),
        fields: seq![
            FieldModel { name: "🎵 `/play <query>`"@, value: "Play YouTube / Spotify / SoundCloud / keywords"@, inline: false },
            FieldModel { name: "⏸️ `/pause` | ▶️ `/resume`"@, value: "Pause or resume current playback"@, inline: true },
            FieldModel { name: "⏭️ `/skip` | 🔄 `/replay`"@, value: "Skip song or replay from beginning"@, inline: true },
            FieldModel { name: "🔀 `/shuffle`"@, value: "Toggle random / shuffle mode on or off"@, inline: true },
            FieldModel { name: "🔁 `/repeat <mode>`"@, value: "Repeat mode: `off`, `track`, or `queue`"@, inline: true },
            FieldModel { name: "📋 `/queue` | 📻 `/nowplaying`"@, value: "View interactive queue or current song info"@, inline: true },
            FieldModel { name: "🗑️ `/remove <pos>` | 🗑️ `/clear`"@, value: "Remove specific song or clear upcoming queue"@, inline: true },
            FieldModel { name: "⏭️ `/jump <pos>`"@, value: "Jump directly to a song in the queue"@, inline: true },
            FieldModel { name: "🔊 `/volume <1-200>`"@, value: "Set volume level"@, inline: true },
            FieldModel { name: "⏹️ `/stop` | 👋 `/leave`"@, value: "Stop music or disconnect bot from voice"@, inline: true },
            FieldModel { name: "🏓 `/ping`"@, value: "Check bot latency and audio engine status"@, inline: true },
        ],
        footer: None,
        color: Some((88, 101, 242)),
        thumbnail: None,
    }
}

/// The card of `/help`: every command with what it does.
pub fn handle_help() -> (r: Embed)
    ensures
        r@ == help_card(),
{
    let mut fields = Vec::new();
    fields.push(field("🎵 `/play <query>`", string_from("Play YouTube / Spotify / SoundCloud / keywords"), false));
    fields.push(field("⏸️ `/pause` | ▶️ `/resume`", string_from("Pause or resume current playback"), true));
    fields.push(field("⏭️ `/skip` | 🔄 `/replay`", string_from("Skip song or replay from beginning"), true));
    fields.push(field("🔀 `/shuffle`", string_from("Toggle random / shuffle mode on or off"), true));
    fields.push(field("🔁 `/repeat <mode>`", string_from("Repeat mode: `off`, `track`, or `queue`"), true));
    fields.push(field("📋 `/queue` | 📻 `/nowplaying`", string_from("View interactive queue or current song info"), true));
    fields.push(field("🗑️ `/remove <pos>` | 🗑️ `/clear`", string_from("Remove specific song or clear upcoming queue"), true));
    fields.push(field("⏭️ `/jump <pos>`", string_from("Jump directly to a song in the queue"), true));
    fields.push(field("🔊 `/volume <1-200>`", string_from("Set volume level"), true));
    fields.push(field("⏹️ `/stop` | 👋 `/leave`", string_from("Stop music or disconnect bot from voice"), true));
    fields.push(field("🏓 `/ping`", string_from("Check bot latency and audio engine status"), true));
    let e = Embed {
        author: None,
        title: Some(string_from("📖 Discord Music Bot - Help Guide")),
        url: None,
        description: Some(string_from("Lightweight high-performance music bot powered by Rust & Songbird.")),
        fields,
        footer: None,
        color: Some((88, 101, 242)),
        thumbnail: None,
    };
    assert(e@.fields =~= help_card().fields);
    e
}
} // verus!
