//! Slash commands and message components: which command or component an
//! interaction is, and what each one answers.

pub mod control;
pub mod events;
pub mod play;
pub mod player;
pub mod queue;
pub mod search;

use vstd::prelude::*;

use crate::source::string_from;
use crate::text::{str_eq, str_starts_with, starts_with};

verus! {

/// The slash commands the bot answers.
#[derive(Debug, Clone, Copy, PartialEq, Eq, Structural)]
pub enum CommandKind {
    Play,
    Pause,
    Resume,
    Skip,
    Replay,
    Stop,
    Queue,
    NowPlaying,
    Clear,
    Remove,
    Jump,
    Shuffle,
    Repeat,
    Volume,
    Leave,
    Ping,
    Help,
    Unknown,
}

/// The command a slash-command name stands for (`loop` is another name for
/// `repeat`).
pub open spec fn command_of(name: Seq<char>) -> CommandKind {
    if name == "play"@ { CommandKind::Play }
    else if name == "pause"@ { CommandKind::Pause }
    else if name == "resume"@ { CommandKind::Resume }
    else if name == "skip"@ { CommandKind::Skip }
    else if name == "replay"@ { CommandKind::Replay }
    else if name == "stop"@ { CommandKind::Stop }
    else if name == "queue"@ { CommandKind::Queue }
    else if name == "nowplaying"@ { CommandKind::NowPlaying }
    else if name == "clear"@ { CommandKind::Clear }
    else if name == "remove"@ { CommandKind::Remove }
    else if name == "jump"@ { CommandKind::Jump }
    else if name == "shuffle"@ { CommandKind::Shuffle }
    else if name == "repeat"@ || name == "loop"@ { CommandKind::Repeat }
    else if name == "volume"@ { CommandKind::Volume }
    else if name == "leave"@ { CommandKind::Leave }
    else if name == "ping"@ { CommandKind::Ping }
    else if name == "help"@ { CommandKind::Help }
    else { CommandKind::Unknown }
}

/// The command a slash-command name stands for.
pub fn handle_command(name: &str) -> (r: CommandKind)
    ensures
        r == command_of(name@),
{
    if str_eq(name, "play") { CommandKind::Play }
    else if str_eq(name, "pause") { CommandKind::Pause }
    else if str_eq(name, "resume") { CommandKind::Resume }
    else if str_eq(name, "skip") { CommandKind::Skip }
    else if str_eq(name, "replay") { CommandKind::Replay }
    else if str_eq(name, "stop") { CommandKind::Stop }
    else if str_eq(name, "queue") { CommandKind::Queue }
    else if str_eq(name, "nowplaying") { CommandKind::NowPlaying }
    else if str_eq(name, "clear") { CommandKind::Clear }
    else if str_eq(name, "remove") { CommandKind::Remove }
    else if str_eq(name, "jump") { CommandKind::Jump }
    else if str_eq(name, "shuffle") { CommandKind::Shuffle }
    else if str_eq(name, "repeat") || str_eq(name, "loop") { CommandKind::Repeat }
    else if str_eq(name, "volume") { CommandKind::Volume }
    else if str_eq(name, "leave") { CommandKind::Leave }
    else if str_eq(name, "ping") { CommandKind::Ping }
    else if str_eq(name, "help") { CommandKind::Help }
    else { CommandKind::Unknown }
}

/// Which handler a message component goes to.
#[derive(Debug, Clone, Copy, PartialEq, Eq, Structural)]
pub enum ComponentRoute {
    /// Components of the queue view (`queue_…`).
    Queue,
    /// Playback controls (`music_…`).
    Music,
    /// The menu of a keyword search (`search_…`).
    Search,
    /// Anything else is ignored.
    Ignore,
}

/// Which handler a component id goes to.
pub open spec fn route_of(id: Seq<char>) -> ComponentRoute {
    if starts_with(id, "queue_"@) {
        ComponentRoute::Queue
    } else if starts_with(id, "music_"@) {
        ComponentRoute::Music
    } else if starts_with(id, "search_"@) {
        ComponentRoute::Search
    } else {
        ComponentRoute::Ignore
    }
}

/// Which handler a component id goes to.
pub fn handle_component(custom_id: &str) -> (r: ComponentRoute)
    ensures
        r == route_of(custom_id@),
{
    if str_starts_with(custom_id, "queue_") {
        ComponentRoute::Queue
    } else if str_starts_with(custom_id, "music_") {
        ComponentRoute::Music
    } else if str_starts_with(custom_id, "search_") {
        ComponentRoute::Search
    } else {
        ComponentRoute::Ignore
    }
}

/// The type of a slash-command option.
#[derive(Debug, Clone, Copy, PartialEq, Eq, Structural)]
pub enum OptionKind {
    Text,
    Integer,
}

/// An option of a slash command.
pub struct CommandOption {
    pub kind: OptionKind,
    pub name: String,
    pub description: String,
    pub required: bool,
    pub min: Option<i64>,
    pub max: Option<i64>,
    /// Fixed choices, as (label, value).
    pub choices: Vec<(String, String)>,
}

/// A slash command as the bot registers it.
pub struct CommandSpec {
    pub name: String,
    pub description: String,
    pub options: Vec<CommandOption>,
}

/// An option as plain values.
pub struct OptionModel {
    pub kind: OptionKind,
    pub name: Seq<char>,
    pub description: Seq<char>,
    pub required: bool,
    pub min: Option<i64>,
    pub max: Option<i64>,
    pub choices: Seq<(Seq<char>, Seq<char>)>,
}

/// A command as plain values.
pub struct CommandModel {
    pub name: Seq<char>,
    pub description: Seq<char>,
    pub options: Seq<OptionModel>,
}

impl View for CommandOption {
    type V = OptionModel;

    open spec fn view(&self) -> OptionModel {
        OptionModel {
            kind: self.kind,
            name: self.name@,
            description: self.description@,
            required: self.required,
            min: self.min,
            max: self.max,
            choices: self.choices@.map_values(|c: (String, String)| (c.0@, c.1@)),
        }
    }
}

impl View for CommandSpec {
    type V = CommandModel;

    open spec fn view(&self) -> CommandModel {
        CommandModel {
            name: self.name@,
            description: self.description@,
            options: self.options@.map_values(|o: CommandOption| o@),
        }
    }
}

/// A command without options.
pub open spec fn plain(name: Seq<char>, description: Seq<char>) -> CommandModel {
    CommandModel { name, description, options: Seq::empty() }
}

/// A command with one required option.
pub open spec fn with_option(name: Seq<char>, description: Seq<char>, o: OptionModel) -> CommandModel {
    CommandModel { name, description, options: seq![o] }
}

/// The required `position` option of `/remove` and `/jump`.
pub open spec fn position_option(description: Seq<char>) -> OptionModel {
    OptionModel {
        kind: OptionKind::Integer,
        name: "position"@,
        description,
        required: true,
        min: Some(1),
        max: None,
        choices: Seq::empty(),
    }
}

/// The required `mode` option of `/repeat` and `/loop`.
pub open spec fn mode_option() -> OptionModel {
    OptionModel {
        kind: OptionKind::Text,
        name: "mode"@,
        description: "Loop mode: off, track (1 song), or queue (entire list)"@,
        required: true,
        min: None,
        max: None,
        choices: seq![
            ("off"@, "off"@),
            ("track (1 song)"@, "track"@),
            ("queue (all songs)"@, "queue"@),
        ],
    }
}

/// The slash commands the bot registers, in order.
pub open spec fn command_table() -> Seq<CommandModel> {
    seq![
        with_option(
            "play"@,
            "Play audio from YouTube, Spotify, SoundCloud, or search query"@,
            OptionModel {
                kind: OptionKind::Text,
                name: "query"@,
                description: "Song name or URL to play"@,
                required: true,
                min: None,
                max: None,
                choices: Seq::empty(),
            },
        ),
        plain("pause"@, "Pause the currently playing track"@),
        plain("resume"@, "Resume playback of the paused track"@),
        plain("skip"@, "Skip the current track and play the next in queue"@),
        plain("replay"@, "Replay the current track from the beginning"@),
        plain("stop"@, "Stop playback and clear the queue"@),
        plain("queue"@, "View the current music queue"@),
        plain("nowplaying"@, "Show details of the currently playing track"@),
        plain("clear"@, "Clear all upcoming tracks from the queue"@),
        with_option(
            "remove"@,
            "Remove a specific track from queue by position"@,
            position_option("Position number of the track to remove (e.g. 1, 2, 3)"@),
        ),
        with_option(
            "jump"@,
            "Jump directly to a song in the queue"@,
            position_option("Position number of the track to jump to"@),
        ),
        plain("shuffle"@, "Toggle random / shuffle mode for the queue"@),
        with_option("repeat"@, "Set repeat / loop mode (off, track, queue)"@, mode_option()),
        with_option("loop"@, "Set repeat / loop mode (off, track, queue)"@, mode_option()),
        with_option(
            "volume"@,
            "Adjust playback volume (1 - 200)"@,
            OptionModel {
                kind: OptionKind::Integer,
                name: "level"@,
                description: "Volume level between 1 and 200"@,
                required: true,
                min: Some(1),
                max: Some(200),
                choices: Seq::empty(),
            },
        ),
        plain("leave"@, "Disconnect the bot from the voice channel"@),
        plain("ping"@, "Check bot latency and audio pipeline status"@),
        plain("help"@, "Show available music commands"@),
    ]
}

fn plain_command(name: &str, description: &str) -> (c: CommandSpec)
    ensures
        c@ == plain(name@, description@),
{
    let c = CommandSpec { name: string_from(name), description: string_from(description), options: Vec::new() };
    assert(c@.options =~= Seq::<OptionModel>::empty());
    c
}

fn option_command(name: &str, description: &str, o: CommandOption) -> (c: CommandSpec)
    ensures
        c@ == with_option(name@, description@, o@),
{
    let mut options = Vec::new();
    options.push(o);
    let c = CommandSpec { name: string_from(name), description: string_from(description), options };
    assert(c@.options =~= seq![o@]);
    c
}

fn simple_option(kind: OptionKind, name: &str, description: &str, min: Option<i64>, max: Option<i64>) -> (o: CommandOption)
    ensures
        o@ == (OptionModel {
            kind,
            name: name@,
            description: description@,
            required: true,
            min,
            max,
            choices: Seq::empty(),
        }),
{
    let o = CommandOption {
        kind,
        name: string_from(name),
        description: string_from(description),
        required: true,
        min,
        max,
        choices: Vec::new(),
    };
    assert(o@.choices =~= Seq::<(Seq<char>, Seq<char>)>::empty());
    o
}

fn mode_option_value() -> (o: CommandOption)
    ensures
        o@ == mode_option(),
{
    let mut choices: Vec<(String, String)> = Vec::new();
    choices.push((string_from("off"), string_from("off")));
    choices.push((string_from("track (1 song)"), string_from("track")));
    choices.push((string_from("queue (all songs)"), string_from("queue")));
    let o = CommandOption {
        kind: OptionKind::Text,
        name: string_from("mode"),
        description: string_from("Loop mode: off, track (1 song), or queue (entire list)"),
        required: true,
        min: None,
        max: None,
        choices,
    };
    assert(o@.choices =~= mode_option().choices);
    o
}

/// The slash commands the bot registers: their names, descriptions and
/// options.
pub fn register_commands() -> (r: Vec<CommandSpec>)
    ensures
        r@.map_values(|c: CommandSpec| c@) == command_table(),
{
    let mut v: Vec<CommandSpec> = Vec::new();
    v.push(option_command(
        "play",
        "Play audio from YouTube, Spotify, SoundCloud, or search query",
        simple_option(OptionKind::Text, "query", "Song name or URL to play", None, None),
    ));
    v.push(plain_command("pause", "Pause the currently playing track"));
    v.push(plain_command("resume", "Resume playback of the paused track"));
    v.push(plain_command("skip", "Skip the current track and play the next in queue"));
    v.push(plain_command("replay", "Replay the current track from the beginning"));
    v.push(plain_command("stop", "Stop playback and clear the queue"));
    v.push(plain_command("queue", "View the current music queue"));
    v.push(plain_command("nowplaying", "Show details of the currently playing track"));
    v.push(plain_command("clear", "Clear all upcoming tracks from the queue"));
    v.push(option_command(
        "remove",
        "Remove a specific track from queue by position",
        simple_option(OptionKind::Integer, "position", "Position number of the track to remove (e.g. 1, 2, 3)", Some(1), None),
    ));
    v.push(option_command(
        "jump",
        "Jump directly to a song in the queue",
        simple_option(OptionKind::Integer, "position", "Position number of the track to jump to", Some(1), None),
    ));
    v.push(plain_command("shuffle", "Toggle random / shuffle mode for the queue"));
    v.push(option_command("repeat", "Set repeat / loop mode (off, track, queue)", mode_option_value()));
    v.push(option_command("loop", "Set repeat / loop mode (off, track, queue)", mode_option_value()));
    v.push(option_command(
        "volume",
        "Adjust playback volume (1 - 200)",
        simple_option(OptionKind::Integer, "level", "Volume level between 1 and 200", Some(1), Some(200)),
    ));
    v.push(plain_command("leave", "Disconnect the bot from the voice channel"));
    v.push(plain_command("ping", "Check bot latency and audio pipeline status"));
    v.push(plain_command("help", "Show available music commands"));
    assert(v@.map_values(|c: CommandSpec| c@) =~= command_table());
    v
}

/// Every registered command is one the bot answers.
pub proof fn law_registered_commands_are_handled()
    ensures
        forall|i: int| 0 <= i < command_table().len() ==> command_of(#[trigger] command_table()[i].name) != CommandKind::Unknown,
{
    reveal_strlit("play");
    reveal_strlit("pause");
    reveal_strlit("resume");
    reveal_strlit("skip");
    reveal_strlit("replay");
    reveal_strlit("stop");
    reveal_strlit("queue");
    reveal_strlit("nowplaying");
    reveal_strlit("clear");
    reveal_strlit("remove");
    reveal_strlit("jump");
    reveal_strlit("shuffle");
    reveal_strlit("repeat");
    reveal_strlit("loop");
    reveal_strlit("volume");
    reveal_strlit("leave");
    reveal_strlit("ping");
    reveal_strlit("help");
}

/// The name under which a command is registered (`Repeat` also answers to
/// `loop`).
pub open spec fn command_name(k: CommandKind) -> Seq<char> {
    match k {
        CommandKind::Play => "play"@,
        CommandKind::Pause => "pause"@,
        CommandKind::Resume => "resume"@,
        CommandKind::Skip => "skip"@,
        CommandKind::Replay => "replay"@,
        CommandKind::Stop => "stop"@,
        CommandKind::Queue => "queue"@,
        CommandKind::NowPlaying => "nowplaying"@,
        CommandKind::Clear => "clear"@,
        CommandKind::Remove => "remove"@,
        CommandKind::Jump => "jump"@,
        CommandKind::Shuffle => "shuffle"@,
        CommandKind::Repeat => "repeat"@,
        CommandKind::Volume => "volume"@,
        CommandKind::Leave => "leave"@,
        CommandKind::Ping => "ping"@,
        CommandKind::Help => "help"@,
        CommandKind::Unknown => Seq::empty(),
    }
}

/// Every command name routes to the command of that name (and `loop` to
/// `repeat`): no command is answered by another command's handler.
pub proof fn law_command_names_route_to_their_command(k: CommandKind)
    ensures
        k != CommandKind::Unknown ==> command_of(command_name(k)) == k,
        command_of("loop"@) == CommandKind::Repeat,
        command_of(Seq::empty()) == CommandKind::Unknown,
{
    reveal_strlit("play");
    reveal_strlit("pause");
    reveal_strlit("resume");
    reveal_strlit("skip");
    reveal_strlit("replay");
    reveal_strlit("stop");
    reveal_strlit("queue");
    reveal_strlit("nowplaying");
    reveal_strlit("clear");
    reveal_strlit("remove");
    reveal_strlit("jump");
    reveal_strlit("shuffle");
    reveal_strlit("repeat");
    reveal_strlit("loop");
    reveal_strlit("volume");
    reveal_strlit("leave");
    reveal_strlit("ping");
    reveal_strlit("help");
    assert(Seq::<char>::empty().len() != "play"@.len());
    assert(Seq::<char>::empty().len() != "pause"@.len());
    assert(Seq::<char>::empty().len() != "resume"@.len());
    assert(Seq::<char>::empty().len() != "skip"@.len());
    assert(Seq::<char>::empty().len() != "replay"@.len());
    assert(Seq::<char>::empty().len() != "stop"@.len());
    assert(Seq::<char>::empty().len() != "queue"@.len());
    assert(Seq::<char>::empty().len() != "nowplaying"@.len());
    assert(Seq::<char>::empty().len() != "clear"@.len());
    assert(Seq::<char>::empty().len() != "remove"@.len());
    assert(Seq::<char>::empty().len() != "jump"@.len());
    assert(Seq::<char>::empty().len() != "shuffle"@.len());
    assert(Seq::<char>::empty().len() != "repeat"@.len());
    assert(Seq::<char>::empty().len() != "loop"@.len());
    assert(Seq::<char>::empty().len() != "volume"@.len());
    assert(Seq::<char>::empty().len() != "leave"@.len());
    assert(Seq::<char>::empty().len() != "ping"@.len());
    assert(Seq::<char>::empty().len() != "help"@.len());
    match k {
        CommandKind::Play => {
        },
        CommandKind::Pause => {
            assert("pause"@.len() != "play"@.len());
        },
        CommandKind::Resume => {
            assert("resume"@.len() != "play"@.len());
            assert("resume"@.len() != "pause"@.len());
        },
        CommandKind::Skip => {
            assert("skip"@[0] != "play"@[0]);
            assert("skip"@.len() != "pause"@.len());
            assert("skip"@.len() != "resume"@.len());
        },
        CommandKind::Replay => {
            assert("replay"@.len() != "play"@.len());
            assert("replay"@.len() != "pause"@.len());
            assert("replay"@[2] != "resume"@[2]);
            assert("replay"@.len() != "skip"@.len());
        },
        CommandKind::Stop => {
            assert("stop"@[0] != "play"@[0]);
            assert("stop"@.len() != "pause"@.len());
            assert("stop"@.len() != "resume"@.len());
            assert("stop"@[1] != "skip"@[1]);
            assert("stop"@.len() != "replay"@.len());
        },
        CommandKind::Queue => {
            assert("queue"@.len() != "play"@.len());
            assert("queue"@[0] != "pause"@[0]);
            assert("queue"@.len() != "resume"@.len());
            assert("queue"@.len() != "skip"@.len());
            assert("queue"@.len() != "replay"@.len());
            assert("queue"@.len() != "stop"@.len());
        },
        CommandKind::NowPlaying => {
            assert("nowplaying"@.len() != "play"@.len());
            assert("nowplaying"@.len() != "pause"@.len());
            assert("nowplaying"@.len() != "resume"@.len());
            assert("nowplaying"@.len() != "skip"@.len());
            assert("nowplaying"@.len() != "replay"@.len());
            assert("nowplaying"@.len() != "stop"@.len());
            assert("nowplaying"@.len() != "queue"@.len());
        },
        CommandKind::Clear => {
            assert("clear"@.len() != "play"@.len());
            assert("clear"@[0] != "pause"@[0]);
            assert("clear"@.len() != "resume"@.len());
            assert("clear"@.len() != "skip"@.len());
            assert("clear"@.len() != "replay"@.len());
            assert("clear"@.len() != "stop"@.len());
            assert("clear"@[0] != "queue"@[0]);
            assert("clear"@.len() != "nowplaying"@.len());
        },
        CommandKind::Remove => {
            assert("remove"@.len() != "play"@.len());
            assert("remove"@.len() != "pause"@.len());
            assert("remove"@[2] != "resume"@[2]);
            assert("remove"@.len() != "skip"@.len());
            assert("remove"@[2] != "replay"@[2]);
            assert("remove"@.len() != "stop"@.len());
            assert("remove"@.len() != "queue"@.len());
            assert("remove"@.len() != "nowplaying"@.len());
            assert("remove"@.len() != "clear"@.len());
        },
        CommandKind::Jump => {
            assert("jump"@[0] != "play"@[0]);
            assert("jump"@.len() != "pause"@.len());
            assert("jump"@.len() != "resume"@.len());
            assert("jump"@[0] != "skip"@[0]);
            assert("jump"@.len() != "replay"@.len());
            assert("jump"@[0] != "stop"@[0]);
            assert("jump"@.len() != "queue"@.len());
            assert("jump"@.len() != "nowplaying"@.len());
            assert("jump"@.len() != "clear"@.len());
            assert("jump"@.len() != "remove"@.len());
        },
        CommandKind::Shuffle => {
            assert("shuffle"@.len() != "play"@.len());
            assert("shuffle"@.len() != "pause"@.len());
            assert("shuffle"@.len() != "resume"@.len());
            assert("shuffle"@.len() != "skip"@.len());
            assert("shuffle"@.len() != "replay"@.len());
            assert("shuffle"@.len() != "stop"@.len());
            assert("shuffle"@.len() != "queue"@.len());
            assert("shuffle"@.len() != "nowplaying"@.len());
            assert("shuffle"@.len() != "clear"@.len());
            assert("shuffle"@.len() != "remove"@.len());
            assert("shuffle"@.len() != "jump"@.len());
        },
        CommandKind::Repeat => {
            assert("repeat"@.len() != "play"@.len());
            assert("repeat"@.len() != "pause"@.len());
            assert("repeat"@[2] != "resume"@[2]);
            assert("repeat"@.len() != "skip"@.len());
            assert("repeat"@[3] != "replay"@[3]);
            assert("repeat"@.len() != "stop"@.len());
            assert("repeat"@.len() != "queue"@.len());
            assert("repeat"@.len() != "nowplaying"@.len());
            assert("repeat"@.len() != "clear"@.len());
            assert("repeat"@[2] != "remove"@[2]);
            assert("repeat"@.len() != "jump"@.len());
            assert("repeat"@.len() != "shuffle"@.len());
        },
        CommandKind::Volume => {
            assert("volume"@.len() != "play"@.len());
            assert("volume"@.len() != "pause"@.len());
            assert("volume"@[0] != "resume"@[0]);
            assert("volume"@.len() != "skip"@.len());
            assert("volume"@[0] != "replay"@[0]);
            assert("volume"@.len() != "stop"@.len());
            assert("volume"@.len() != "queue"@.len());
            assert("volume"@.len() != "nowplaying"@.len());
            assert("volume"@.len() != "clear"@.len());
            assert("volume"@[0] != "remove"@[0]);
            assert("volume"@.len() != "jump"@.len());
            assert("volume"@.len() != "shuffle"@.len());
            assert("volume"@[0] != "repeat"@[0]);
            assert("volume"@.len() != "loop"@.len());
        },
        CommandKind::Leave => {
            assert("leave"@.len() != "play"@.len());
            assert("leave"@[0] != "pause"@[0]);
            assert("leave"@.len() != "resume"@.len());
            assert("leave"@.len() != "skip"@.len());
            assert("leave"@.len() != "replay"@.len());
            assert("leave"@.len() != "stop"@.len());
            assert("leave"@[0] != "queue"@[0]);
            assert("leave"@.len() != "nowplaying"@.len());
            assert("leave"@[0] != "clear"@[0]);
            assert("leave"@.len() != "remove"@.len());
            assert("leave"@.len() != "jump"@.len());
            assert("leave"@.len() != "shuffle"@.len());
            assert("leave"@.len() != "repeat"@.len());
            assert("leave"@.len() != "volume"@.len());
            assert("leave"@.len() != "loop"@.len());
        },
        CommandKind::Ping => {
            assert("ping"@[1] != "play"@[1]);
            assert("ping"@.len() != "pause"@.len());
            assert("ping"@.len() != "resume"@.len());
            assert("ping"@[0] != "skip"@[0]);
            assert("ping"@.len() != "replay"@.len());
            assert("ping"@[0] != "stop"@[0]);
            assert("ping"@.len() != "queue"@.len());
            assert("ping"@.len() != "nowplaying"@.len());
            assert("ping"@.len() != "clear"@.len());
            assert("ping"@.len() != "remove"@.len());
            assert("ping"@[0] != "jump"@[0]);
            assert("ping"@.len() != "shuffle"@.len());
            assert("ping"@.len() != "repeat"@.len());
            assert("ping"@.len() != "volume"@.len());
            assert("ping"@.len() != "leave"@.len());
            assert("ping"@[0] != "loop"@[0]);
        },
        CommandKind::Help => {
            assert("help"@[0] != "play"@[0]);
            assert("help"@.len() != "pause"@.len());
            assert("help"@.len() != "resume"@.len());
            assert("help"@[0] != "skip"@[0]);
            assert("help"@.len() != "replay"@.len());
            assert("help"@[0] != "stop"@[0]);
            assert("help"@.len() != "queue"@.len());
            assert("help"@.len() != "nowplaying"@.len());
            assert("help"@.len() != "clear"@.len());
            assert("help"@.len() != "remove"@.len());
            assert("help"@[0] != "jump"@[0]);
            assert("help"@.len() != "shuffle"@.len());
            assert("help"@.len() != "repeat"@.len());
            assert("help"@.len() != "volume"@.len());
            assert("help"@.len() != "leave"@.len());
            assert("help"@[0] != "ping"@[0]);
            assert("help"@[0] != "loop"@[0]);
        },
        CommandKind::Unknown => {},
    }
    assert("loop"@[0] != "play"@[0]);
    assert("loop"@.len() != "pause"@.len());
    assert("loop"@.len() != "resume"@.len());
    assert("loop"@[0] != "skip"@[0]);
    assert("loop"@.len() != "replay"@.len());
    assert("loop"@[0] != "stop"@[0]);
    assert("loop"@.len() != "queue"@.len());
    assert("loop"@.len() != "nowplaying"@.len());
    assert("loop"@.len() != "clear"@.len());
    assert("loop"@.len() != "remove"@.len());
    assert("loop"@[0] != "jump"@[0]);
    assert("loop"@.len() != "shuffle"@.len());
}

/// Each registered command routes to the command it is named after: the
/// name of the command it reaches is its own name (`loop` reaches
/// `repeat`).
pub proof fn law_registered_commands_route_by_name()
    ensures
        forall|i: int| 0 <= i < command_table().len() ==> {
            let n = #[trigger] command_table()[i].name;
            command_name(command_of(n)) == n || (n == "loop"@ && command_of(n) == CommandKind::Repeat)
        },
{
    law_command_names_route_to_their_command(CommandKind::Play);
    law_command_names_route_to_their_command(CommandKind::Pause);
    law_command_names_route_to_their_command(CommandKind::Resume);
    law_command_names_route_to_their_command(CommandKind::Skip);
    law_command_names_route_to_their_command(CommandKind::Replay);
    law_command_names_route_to_their_command(CommandKind::Stop);
    law_command_names_route_to_their_command(CommandKind::Queue);
    law_command_names_route_to_their_command(CommandKind::NowPlaying);
    law_command_names_route_to_their_command(CommandKind::Clear);
    law_command_names_route_to_their_command(CommandKind::Remove);
    law_command_names_route_to_their_command(CommandKind::Jump);
    law_command_names_route_to_their_command(CommandKind::Shuffle);
    law_command_names_route_to_their_command(CommandKind::Repeat);
    law_command_names_route_to_their_command(CommandKind::Volume);
    law_command_names_route_to_their_command(CommandKind::Leave);
    law_command_names_route_to_their_command(CommandKind::Ping);
    law_command_names_route_to_their_command(CommandKind::Help);
    law_registered_commands_are_handled();
    reveal_strlit("loop");
}

} // verus!
