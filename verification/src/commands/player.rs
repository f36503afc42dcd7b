//! The "now playing" card with its player buttons, and what the buttons do.

use vstd::prelude::*;

use crate::commands::queue::{now_playing_embed, now_playing_model};
use crate::queue::LoopMode;
use crate::source::string_from;
use crate::text::{decimal, push_decimal, str_eq};
use crate::track::TrackMetadata;
use crate::utils::embed::{
    button, field, ActionRow, ActionRowModel, Button, ButtonModel, ButtonStyle, Embed, EmbedModel,
    FieldModel,
};

verus! {

/// The card sent when a track starts: the `/nowplaying` card with the
/// number of tracks waiting after it.
pub open spec fn now_playing_card_model(t: TrackMetadata, upcoming: nat, mode: LoopMode) -> EmbedModel {
    let base = now_playing_model(t, mode);
    EmbedModel {
        fields: base.fields.push(
            FieldModel { name: "📜 Up Next"@, value: decimal(upcoming) + " track(s) in queue"@, inline: true },
        ),
        ..base
    }
}

/// The player buttons under the card: pause (or resume when paused), skip,
/// loop and stop.
pub open spec fn player_buttons(paused: bool) -> ActionRowModel {
    ActionRowModel::Buttons(
        seq![
            if paused {
                ButtonModel { custom_id: "music_resume"@, label: "▶️ Resume"@, style: ButtonStyle::Success, disabled: false }
            } else {
                ButtonModel { custom_id: "music_pause"@, label: "⏸️ Pause"@, style: ButtonStyle::Secondary, disabled: false }
            },
            ButtonModel { custom_id: "music_skip"@, label: "⏭️ Skip"@, style: ButtonStyle::Primary, disabled: false },
            ButtonModel { custom_id: "music_loop"@, label: "🔁 Loop"@, style: ButtonStyle::Secondary, disabled: false },
            ButtonModel { custom_id: "music_stop"@, label: "⏹️ Stop"@, style: ButtonStyle::Danger, disabled: false },
        ],
    )
}

/// The card sent when a track starts, and its player buttons.
pub fn now_playing_card(t: &TrackMetadata, upcoming: usize, mode: LoopMode, paused: bool) -> (r: (Embed, ActionRow))
    ensures
        r.0@ == now_playing_card_model(*t, upcoming as nat, mode),
        r.1@ == player_buttons(paused),
{
    let mut e = now_playing_embed(t, mode);
    let ghost before = e.fields@;
    let mut count = String::new();
    push_decimal(&mut count, upcoming as u64);
    count.append(" track(s) in queue");
    e.fields.push(field("📜 Up Next", count, true));
    assert(e.fields@.map_values(|f: crate::utils::embed::EmbedField| f@) =~= now_playing_card_model(*t, upcoming as nat, mode).fields);
    let first = if paused {
        button(string_from("music_resume"), string_from("▶️ Resume"), ButtonStyle::Success, false)
    } else {
        button(string_from("music_pause"), string_from("⏸️ Pause"), ButtonStyle::Secondary, false)
    };
    let mut bs: Vec<Button> = Vec::new();
    bs.push(first);
    bs.push(button(string_from("music_skip"), string_from("⏭️ Skip"), ButtonStyle::Primary, false));
    bs.push(button(string_from("music_loop"), string_from("🔁 Loop"), ButtonStyle::Secondary, false));
    bs.push(button(string_from("music_stop"), string_from("⏹️ Stop"), ButtonStyle::Danger, false));
    let row = ActionRow::Buttons(bs);
    assert(row@ == player_buttons(paused)) by {
        match row {
            ActionRow::Buttons(v) => {
                assert(v@.map_values(|b: Button| b@) =~= match player_buttons(paused) {
                    ActionRowModel::Buttons(s) => s,
                    _ => Seq::empty(),
                });
            },
            _ => {},
        }
    }
    (e, row)
}

/// What a player button asks for.
#[derive(Debug, Clone, Copy, PartialEq, Eq, Structural)]
pub enum MusicAction {
    Pause,
    Resume,
    Skip,
    /// Switch to the next repeat mode.
    Loop,
    Stop,
    /// Not a player button.
    Other,
}

/// The action of a player button with id `id`.
pub open spec fn music_action_of(id: Seq<char>) -> MusicAction {
    if id == "music_pause"@ {
        MusicAction::Pause
    } else if id == "music_resume"@ {
        MusicAction::Resume
    } else if id == "music_skip"@ {
        MusicAction::Skip
    } else if id == "music_loop"@ {
        MusicAction::Loop
    } else if id == "music_stop"@ {
        MusicAction::Stop
    } else {
        MusicAction::Other
    }
}

/// The action of a player button.
pub fn music_action(custom_id: &str) -> (r: MusicAction)
    ensures
        r == music_action_of(custom_id@),
{
    if str_eq(custom_id, "music_pause") {
        MusicAction::Pause
    } else if str_eq(custom_id, "music_resume") {
        MusicAction::Resume
    } else if str_eq(custom_id, "music_skip") {
        MusicAction::Skip
    } else if str_eq(custom_id, "music_loop") {
        MusicAction::Loop
    } else if str_eq(custom_id, "music_stop") {
        MusicAction::Stop
    } else {
        MusicAction::Other
    }
}

/// The repeat mode the loop button switches to: off, then one track, then
/// the whole queue, then off again.
pub open spec fn next_loop_mode_of(m: LoopMode) -> LoopMode {
    match m {
        LoopMode::Off => LoopMode::Track,
        LoopMode::Track => LoopMode::Queue,
        LoopMode::Queue => LoopMode::Off,
    }
}

/// The repeat mode the loop button switches to.
pub fn next_loop_mode(m: LoopMode) -> (r: LoopMode)
    ensures
        r == next_loop_mode_of(m),
{
    match m {
        LoopMode::Off => LoopMode::Track,
        LoopMode::Track => LoopMode::Queue,
        LoopMode::Queue => LoopMode::Off,
    }
}

/// Pressing the loop button three times comes back to the mode it started
/// from, passing through every mode on the way.
pub proof fn law_loop_button_cycles(m: LoopMode)
    ensures
        next_loop_mode_of(next_loop_mode_of(next_loop_mode_of(m))) == m,
        next_loop_mode_of(m) != m,
        next_loop_mode_of(next_loop_mode_of(m)) != m,
{
}

/// How often (milliseconds) and how many times the skip button looks
/// whether the next track has started before answering.
pub const SKIP_POLL_MILLIS: u64 = 200;
pub const SKIP_POLL_TRIES: u32 = 50;

/// The playing track is still the one that was playing before a skip: the
/// same title, link and stream (or nothing playing both times).
pub open spec fn same_playing(a: Option<TrackMetadata>, b: Option<TrackMetadata>) -> bool {
    match (a, b) {
        (Some(x), Some(y)) => x.title@ == y.title@ && x.url@ == y.url@ && x.stream_url@ == y.stream_url@,
        (None, None) => true,
        _ => false,
    }
}

/// Whether the playing track is still the one from before a skip.
pub fn still_playing(before: &Option<TrackMetadata>, now: &Option<TrackMetadata>) -> (r: bool)
    ensures
        r == same_playing(*before, *now),
{
    match (before, now) {
        (Some(x), Some(y)) => str_eq(x.title.as_str(), y.title.as_str()) && str_eq(x.url.as_str(), y.url.as_str())
            && str_eq(x.stream_url.as_str(), y.stream_url.as_str()),
        (None, None) => true,
        _ => false,
    }
}

/// Each player button asks for the action it is labelled with, and goes to
/// the player's handler.
pub proof fn law_player_buttons_ask_for_their_action(paused: bool)
    ensures
        player_buttons(paused) matches ActionRowModel::Buttons(bs) && bs.len() == 4
            && music_action_of(bs[0].custom_id) == (if paused { MusicAction::Resume } else { MusicAction::Pause })
            && music_action_of(bs[1].custom_id) == MusicAction::Skip
            && music_action_of(bs[2].custom_id) == MusicAction::Loop
            && music_action_of(bs[3].custom_id) == MusicAction::Stop
            && (forall|i: int| 0 <= i < 4 ==> crate::commands::route_of(#[trigger] bs[i].custom_id) == crate::commands::ComponentRoute::Music),
{
    reveal_strlit("music_pause");
    reveal_strlit("music_resume");
    reveal_strlit("music_skip");
    reveal_strlit("music_loop");
    reveal_strlit("music_stop");
    reveal_strlit("music_");
    reveal_strlit("queue_");
    assert("music_pause"@.len() != "music_resume"@.len());
    assert("music_skip"@[6] != "music_pause"@[6]);
    assert("music_skip"@[6] != "music_resume"@[6]);
    assert("music_loop"@[6] != "music_pause"@[6]);
    assert("music_loop"@[6] != "music_resume"@[6]);
    assert("music_loop"@[6] != "music_skip"@[6]);
    assert("music_stop"@[6] != "music_pause"@[6]);
    assert("music_stop"@[6] != "music_resume"@[6]);
    assert("music_stop"@[7] != "music_skip"@[7]);
    assert("music_stop"@[6] != "music_loop"@[6]);
    assert("music_pause"@.take(6) =~= "music_"@);
    assert("music_resume"@.take(6) =~= "music_"@);
    assert("music_skip"@.take(6) =~= "music_"@);
    assert("music_loop"@.take(6) =~= "music_"@);
    assert("music_stop"@.take(6) =~= "music_"@);
    assert("music_"@[0] != "queue_"@[0]);
    assert("music_pause"@[0] != "queue_"@[0]);
    assert("music_resume"@[0] != "queue_"@[0]);
    assert("music_skip"@[0] != "queue_"@[0]);
    assert("music_loop"@[0] != "queue_"@[0]);
    assert("music_stop"@[0] != "queue_"@[0]);
}

} // verus!
