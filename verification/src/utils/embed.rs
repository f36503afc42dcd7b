//! Source badges, colours and duration text.

use vstd::prelude::*;

use crate::text::{chars_of, decimal, pad2, push_pad2, trim, trim_bounds, string_of, str_eq};
use crate::track::{TrackDuration, NANOS_PER_SEC};

verus! {

/// The environment variable that holds the custom emoji of a source.
pub open spec fn emoji_var_of(source: Seq<char>) -> Option<Seq<char>> {
    if source == "Spotify"@ {
        Some("EMOJI_SPOTIFY"@)
    } else if source == "YouTube"@ {
        Some("EMOJI_YOUTUBE"@)
    } else if source == "SoundCloud"@ {
        Some("EMOJI_SOUNDCLOUD"@)
    } else {
        None
    }
}

/// The environment variable that holds the custom emoji of `source`
/// (Spotify, YouTube or SoundCloud); `None` for other sources.
pub fn emoji_env_var(source: &str) -> (r: Option<&'static str>)
    ensures
        match (r, emoji_var_of(source@)) {
            (Some(a), Some(b)) => a@ == b,
            (None, None) => true,
            _ => false,
        },
{
    if str_eq(source, "Spotify") {
        Some("EMOJI_SPOTIFY")
    } else if str_eq(source, "YouTube") {
        Some("EMOJI_YOUTUBE")
    } else if str_eq(source, "SoundCloud") {
        Some("EMOJI_SOUNDCLOUD")
    } else {
        None
    }
}

/// The emoji shown for a source: the trimmed value of its environment
/// variable, when the source has one and the trimmed value is not empty.
pub open spec fn emoji_of(source: Seq<char>, var_value: Option<Seq<char>>) -> Option<Seq<char>> {
    if emoji_var_of(source) is Some {
        match var_value {
            Some(v) => if trim(v).len() > 0 {
                Some(trim(v))
            } else {
                None
            },
            None => None,
        }
    } else {
        None
    }
}

/// The custom emoji of a source, given the value of the environment
/// variable that `emoji_env_var(source)` names (`None` when it is unset).
pub fn source_emoji(source: &str, var_value: Option<&str>) -> (r: Option<String>)
    ensures
        match (r, emoji_of(source@, match var_value { Some(v) => Some(v@), None => None })) {
            (Some(a), Some(b)) => a@ == b,
            (None, None) => true,
            _ => false,
        },
{
    if emoji_env_var(source).is_none() {
        return None;
    }
    match var_value {
        Some(v) => {
            let cs = chars_of(v);
            let (a, b) = trim_bounds(&cs);
            if a < b {
                Some(string_of(&cs, a, b))
            } else {
                None
            }
        },
        None => None,
    }
}

/// The icon of a source.
pub open spec fn icon_url_of(source: Seq<char>) -> Seq<char> {
    if source == "Spotify"@ {
        "https://raw.githubusercontent.com/walkxcode/dashboard-icons/main/png/spotify.png"@
    } else if source == "YouTube"@ {
        "https://raw.githubusercontent.com/walkxcode/dashboard-icons/main/png/youtube.png"@
    } else if source == "SoundCloud"@ {
        "https://raw.githubusercontent.com/walkxcode/dashboard-icons/main/png/soundcloud.png"@
    } else {
        "https://raw.githubusercontent.com/walkxcode/dashboard-icons/main/png/audiobookshelf.png"@
    }
}

/// The icon of a source.
pub fn source_icon_url(source: &str) -> (r: &'static str)
    ensures
        r@ == icon_url_of(source@),
{
    if str_eq(source, "Spotify") {
        "https://raw.githubusercontent.com/walkxcode/dashboard-icons/main/png/spotify.png"
    } else if str_eq(source, "YouTube") {
        "https://raw.githubusercontent.com/walkxcode/dashboard-icons/main/png/youtube.png"
    } else if str_eq(source, "SoundCloud") {
        "https://raw.githubusercontent.com/walkxcode/dashboard-icons/main/png/soundcloud.png"
    } else {
        "https://raw.githubusercontent.com/walkxcode/dashboard-icons/main/png/audiobookshelf.png"
    }
}

/// The embed colour of a source, as red, green and blue.
pub open spec fn color_of(source: Seq<char>) -> (u8, u8, u8) {
    if source == "Spotify"@ {
        (30, 215, 96)
    } else if source == "YouTube"@ {
        (255, 0, 0)
    } else if source == "SoundCloud"@ {
        (255, 85, 0)
    } else {
        (88, 101, 242)
    }
}

/// The embed colour of a source, as red, green and blue: Spotify green,
/// YouTube red, SoundCloud orange, otherwise Discord blurple.
pub fn source_color(source: &str) -> (r: (u8, u8, u8))
    ensures
        r == color_of(source@),
{
    if str_eq(source, "Spotify") {
        (30, 215, 96)
    } else if str_eq(source, "YouTube") {
        (255, 0, 0)
    } else if str_eq(source, "SoundCloud") {
        (255, 85, 0)
    } else {
        (88, 101, 242)
    }
}

/// `MM:SS`, or `HH:MM:SS` from one hour on, for a length in whole seconds.
pub open spec fn clock_text(secs: nat) -> Seq<char> {
    let h = secs / 3600;
    let m = (secs % 3600) / 60;
    let s = secs % 60;
    if h > 0 {
        pad2(h) + seq![':'] + pad2(m) + seq![':'] + pad2(s)
    } else {
        pad2(m) + seq![':'] + pad2(s)
    }
}

/// What `format_duration` shows: the clock text of the whole seconds, or
/// `--:--` for an unknown length.
pub open spec fn duration_text(dur: Option<TrackDuration>) -> Seq<char> {
    match dur {
        Some(d) => clock_text(d.total_nanos() / (NANOS_PER_SEC as nat)),
        None => "--:--"@,
    }
}

/// The length of a track as a clock text.
pub fn format_duration(dur: Option<TrackDuration>) -> (r: String)
    ensures
        r@ == duration_text(dur),
{
    match dur {
        Some(d) => {
            let secs = d.as_secs();
            let hours = secs / 3600;
            let mins = (secs % 3600) / 60;
            let rem_secs = secs % 60;
            let mut out = String::new();
            if hours > 0 {
                push_pad2(&mut out, hours);
                crate::text::push_char(&mut out, ':');
            }
            push_pad2(&mut out, mins);
            crate::text::push_char(&mut out, ':');
            push_pad2(&mut out, rem_secs);
            proof {
                let h = hours as nat;
                if h > 0 {
                    assert(out@ =~= pad2(h) + seq![':'] + pad2(mins as nat) + seq![':'] + pad2(rem_secs as nat));
                } else {
                    assert(out@ =~= pad2(mins as nat) + seq![':'] + pad2(rem_secs as nat));
                }
            }
            out
        },
        None => String::from_str("--:--"),
    }
}

/// Minutes and seconds always take two digits each, and below one hour the
/// text is exactly `MM:SS`.
pub proof fn law_clock_text_shape(secs: nat)
    ensures
        secs < 3600 ==> clock_text(secs).len() == 5 && clock_text(secs)[2] == ':',
        secs >= 3600 ==> clock_text(secs).len() >= 8,
{
    let m = (secs % 3600) / 60;
    let s = secs % 60;
    assert(m < 60 && s < 60);
    lemma_pad2_two_digits(m);
    lemma_pad2_two_digits(s);
    if secs >= 3600 {
        crate::text::lemma_decimal_len(secs / 3600);
    }
}

/// Below one hundred, `pad2` gives exactly two characters.
pub proof fn lemma_pad2_two_digits(n: nat)
    requires
        n < 100,
    ensures
        pad2(n).len() == 2,
{
    if n >= 10 {
        assert(decimal(n) == decimal(n / 10).push(crate::text::digit_char(n % 10)));
        assert(n / 10 < 10);
    }
}

} // verus!

verus! {

// ---------------------------------------------------------------------------
// Message models
// ---------------------------------------------------------------------------

/// One field of an embed.
pub struct EmbedField {
    pub name: String,
    pub value: String,
    pub inline: bool,
}

/// A field as plain values.
pub struct FieldModel {
    pub name: Seq<char>,
    pub value: Seq<char>,
    pub inline: bool,
}

impl View for EmbedField {
    type V = FieldModel;

    open spec fn view(&self) -> FieldModel {
        FieldModel { name: self.name@, value: self.value@, inline: self.inline }
    }
}

/// The author line of an embed.
pub struct EmbedAuthor {
    pub name: String,
    pub icon_url: Option<String>,
    pub url: Option<String>,
}

/// The footer of an embed.
pub struct EmbedFooter {
    pub text: String,
    pub icon_url: Option<String>,
}

/// A rich message card, as the bot composes it.
pub struct Embed {
    pub author: Option<EmbedAuthor>,
    pub title: Option<String>,
    pub url: Option<String>,
    pub description: Option<String>,
    pub fields: Vec<EmbedField>,
    pub footer: Option<EmbedFooter>,
    pub color: Option<(u8, u8, u8)>,
    pub thumbnail: Option<String>,
}

/// An embed as plain values; the author and footer as (text, icon, link).
pub struct EmbedModel {
    pub author: Option<(Seq<char>, Option<Seq<char>>, Option<Seq<char>>)>,
    pub title: Option<Seq<char>>,
    pub url: Option<Seq<char>>,
    pub description: Option<Seq<char>>,
    pub fields: Seq<FieldModel>,
    pub footer: Option<(Seq<char>, Option<Seq<char>>)>,
    pub color: Option<(u8, u8, u8)>,
    pub thumbnail: Option<Seq<char>>,
}

impl View for Embed {
    type V = EmbedModel;

    open spec fn view(&self) -> EmbedModel {
        EmbedModel {
            author: match self.author {
                Some(a) => Some((a.name@, crate::source::opt_view(a.icon_url), crate::source::opt_view(a.url))),
                None => None,
            },
            title: crate::source::opt_view(self.title),
            url: crate::source::opt_view(self.url),
            description: crate::source::opt_view(self.description),
            fields: self.fields@.map_values(|f: EmbedField| f@),
            footer: match self.footer {
                Some(f) => Some((f.text@, crate::source::opt_view(f.icon_url))),
                None => None,
            },
            color: self.color,
            thumbnail: crate::source::opt_view(self.thumbnail),
        }
    }
}

/// The look of a button.
#[derive(Debug, Clone, Copy, PartialEq, Eq, Structural)]
pub enum ButtonStyle {
    Primary,
    Secondary,
    Success,
    Danger,
}

/// A button under a message.
pub struct Button {
    pub custom_id: String,
    pub label: String,
    pub style: ButtonStyle,
    pub disabled: bool,
}

/// A button as plain values.
pub struct ButtonModel {
    pub custom_id: Seq<char>,
    pub label: Seq<char>,
    pub style: ButtonStyle,
    pub disabled: bool,
}

impl View for Button {
    type V = ButtonModel;

    open spec fn view(&self) -> ButtonModel {
        ButtonModel { custom_id: self.custom_id@, label: self.label@, style: self.style, disabled: self.disabled }
    }
}

/// One choice of a select menu.
pub struct SelectOption {
    pub label: String,
    pub value: String,
    pub description: String,
}

/// A select-menu choice as plain values.
pub struct SelectOptionModel {
    pub label: Seq<char>,
    pub value: Seq<char>,
    pub description: Seq<char>,
}

impl View for SelectOption {
    type V = SelectOptionModel;

    open spec fn view(&self) -> SelectOptionModel {
        SelectOptionModel { label: self.label@, value: self.value@, description: self.description@ }
    }
}

/// A row of components under a message.
pub enum ActionRow {
    SelectMenu { custom_id: String, placeholder: String, options: Vec<SelectOption> },
    Buttons(Vec<Button>),
}

/// A component row as plain values.
pub enum ActionRowModel {
    SelectMenu { custom_id: Seq<char>, placeholder: Seq<char>, options: Seq<SelectOptionModel> },
    Buttons(Seq<ButtonModel>),
}

impl View for ActionRow {
    type V = ActionRowModel;

    open spec fn view(&self) -> ActionRowModel {
        match self {
            ActionRow::SelectMenu { custom_id, placeholder, options } => ActionRowModel::SelectMenu {
                custom_id: custom_id@,
                placeholder: placeholder@,
                options: options@.map_values(|o: SelectOption| o@),
            },
            ActionRow::Buttons(bs) => ActionRowModel::Buttons(bs@.map_values(|b: Button| b@)),
        }
    }
}

/// The views of a sequence of component rows.
pub open spec fn row_models(rows: Seq<ActionRow>) -> Seq<ActionRowModel> {
    rows.map_values(|r: ActionRow| r@)
}

/// A new field.
pub fn field(name: &str, value: String, inline: bool) -> (f: EmbedField)
    ensures
        f@ == (FieldModel { name: name@, value: value@, inline }),
{
    EmbedField { name: String::from_str(name), value, inline }
}

/// A new button.
pub fn button(custom_id: String, label: String, style: ButtonStyle, disabled: bool) -> (b: Button)
    ensures
        b@ == (ButtonModel { custom_id: custom_id@, label: label@, style, disabled }),
{
    Button { custom_id, label, style, disabled }
}

} // verus!
