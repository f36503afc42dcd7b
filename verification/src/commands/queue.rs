//! The interactive queue view and its components.

use vstd::prelude::*;

use crate::queue::LoopMode;
use crate::source::{opt_view, string_from};
use crate::text::{decimal, pad2, push_decimal, push_pad2};
use crate::track::{TrackDuration, TrackMetadata, NANOS_PER_SEC};
use crate::utils::embed::{
    button, clock_text, color_of, duration_text, emoji_of, field, format_duration, icon_url_of,
    row_models, source_color, source_emoji, source_icon_url, ActionRow, ActionRowModel, Button,
    ButtonModel, ButtonStyle, Embed, EmbedAuthor, EmbedFooter, EmbedModel, FieldModel,
    SelectOption, SelectOptionModel,
};

verus! {

/// Tracks per page of the queue view.
pub const PAGE_SIZE: usize = 10;

/// The configured custom emojis: the raw values of `EMOJI_SPOTIFY`,
/// `EMOJI_YOUTUBE` and `EMOJI_SOUNDCLOUD` (`None` when unset).
pub struct EmojiSettings {
    pub spotify: Option<String>,
    pub youtube: Option<String>,
    pub soundcloud: Option<String>,
}

impl EmojiSettings {
    /// The raw setting for a source.
    pub open spec fn value_for(self, source: Seq<char>) -> Option<Seq<char>> {
        if source == "Spotify"@ {
            opt_view(self.spotify)
        } else if source == "YouTube"@ {
            opt_view(self.youtube)
        } else if source == "SoundCloud"@ {
            opt_view(self.soundcloud)
        } else {
            None
        }
    }

    /// The emoji of a source followed by a space, or nothing.
    pub open spec fn prefix_for(self, source: Seq<char>) -> Seq<char> {
        match emoji_of(source, self.value_for(source)) {
            Some(e) => e + " "@,
            None => Seq::empty(),
        }
    }

    /// The emoji of a source followed by a space, or nothing.
    pub fn prefix(&self, source: &str) -> (r: String)
        ensures
            r@ == self.prefix_for(source@),
    {
        let raw = if crate::text::str_eq(source, "Spotify") {
            &self.spotify
        } else if crate::text::str_eq(source, "YouTube") {
            &self.youtube
        } else if crate::text::str_eq(source, "SoundCloud") {
            &self.soundcloud
        } else {
            &None
        };
        let value: Option<&str> = match raw {
            Some(s) => Some(s.as_str()),
            None => None,
        };
        match source_emoji(source, value) {
            Some(e) => {
                let mut r = e;
                r.append(" ");
                r
            },
            None => String::new(),
        }
    }
}

/// The number of pages for `n` tracks (at least one).
pub open spec fn total_pages_of(n: nat) -> nat {
    if n == 0 {
        1
    } else {
        (n + 9) / 10
    }
}

/// The page shown when page `page` is asked for: the last page at most.
pub open spec fn current_page_of(n: nat, page: nat) -> nat {
    if page < total_pages_of(n) {
        page
    } else {
        (total_pages_of(n) - 1) as nat
    }
}

/// The lengths of all tracks, in nanoseconds, added up.
pub open spec fn sum_nanos(q: Seq<TrackMetadata>) -> nat
    decreases q.len(),
{
    if q.len() == 0 {
        0
    } else {
        sum_nanos(q.drop_last()) + match q.last().duration {
            Some(d) => d.total_nanos(),
            None => 0,
        }
    }
}

/// `[**title**](url)`.
pub open spec fn track_link(t: TrackMetadata) -> Seq<char> {
    "[**"@ + t.title@ + "**]("@ + t.url@ + ")"@
}

/// `` • `source` (`length`) ``.
pub open spec fn track_tail(t: TrackMetadata) -> Seq<char> {
    " • `"@ + t.source@ + "` (`"@ + duration_text(t.duration) + "`)"@
}

/// The description line of the track at position `idx`: the playing track
/// under "Now Playing" followed by the "Up Next" heading, the others
/// numbered.
pub open spec fn queue_line(e: EmojiSettings, idx: nat, t: TrackMetadata) -> Seq<char> {
    if idx == 0 {
        "**▶️ Now Playing:**\n"@ + e.prefix_for(t.source@) + track_link(t) + track_tail(t)
            + "\n\n**Up Next:**\n"@
    } else {
        "`"@ + pad2(idx) + ".` "@ + e.prefix_for(t.source@) + track_link(t) + track_tail(t) + "\n"@
    }
}

/// The lines of positions `a..b` of the queue.
pub open spec fn queue_lines(e: EmojiSettings, q: Seq<TrackMetadata>, a: int, b: int) -> Seq<char>
    decreases b - a,
{
    if b <= a {
        Seq::empty()
    } else {
        queue_lines(e, q, a, b - 1) + queue_line(e, (b - 1) as nat, q[b - 1])
    }
}

/// The heading of a page after the first.
pub open spec fn page_heading(p: nat, total: nat) -> Seq<char> {
    if p == 0 {
        Seq::empty()
    } else {
        "**📋 Queue (Page "@ + decimal(p + 1) + "/"@ + decimal(total) + "):**\n"@
    }
}

/// The note under the first page of a long queue.
pub open spec fn more_note(p: nat, n: nat) -> Seq<char> {
    if p == 0 && n > 10 {
        "\n*...and "@ + decimal((n - 10) as nat) + " more tracks in queue*"@
    } else {
        Seq::empty()
    }
}

/// The first and past-the-last positions shown on page `p`.
pub open spec fn page_bounds(n: nat, p: nat) -> (nat, nat) {
    let start = p * 10;
    let end = if start + 10 <= n { start + 10 } else { n };
    (start, end)
}

/// The description of the queue view.
pub open spec fn queue_description(e: EmojiSettings, q: Seq<TrackMetadata>, page: nat) -> Seq<char> {
    let n = q.len();
    let p = current_page_of(n, page);
    let (start, end) = page_bounds(n, p);
    page_heading(p, total_pages_of(n)) + queue_lines(e, q, start as int, end as int) + more_note(p, n)
}

/// The select-menu label of the track at `idx`: `idx. title (length)`,
/// cut to 92 characters and `...` when longer than 95.
pub open spec fn option_label(idx: nat, t: TrackMetadata) -> Seq<char> {
    let full = decimal(idx) + ". "@ + t.title@ + " ("@ + duration_text(t.duration) + ")"@;
    if full.len() > 95 {
        full.take(92) + "..."@
    } else {
        full
    }
}

/// The select-menu choice of the track at `idx`.
pub open spec fn option_model(idx: nat, t: TrackMetadata) -> SelectOptionModel {
    SelectOptionModel {
        label: option_label(idx, t),
        value: decimal(idx),
        description: if idx == 0 {
            "▶️ Currently Playing ("@ + t.source@ + ")"@
        } else {
            "Jump to track #"@ + decimal(idx) + " ("@ + t.source@ + ")"@
        },
    }
}

/// The direct-play button of the track at `idx` (the playing one disabled).
pub open spec fn play_button_model(idx: nat) -> ButtonModel {
    ButtonModel {
        custom_id: "queue_play:"@ + decimal(idx),
        label: if idx == 0 { "▶️ #0 (Playing)"@ } else { "▶️ #"@ + pad2(idx) },
        style: if idx == 0 { ButtonStyle::Success } else { ButtonStyle::Primary },
        disabled: idx == 0,
    }
}

/// The navigation row: previous page, page indicator, next page, shuffle
/// switch and skip.
pub open spec fn nav_row_model(p: nat, total: nat, shuffled: bool) -> Seq<ButtonModel> {
    seq![
        ButtonModel {
            custom_id: "queue_page:"@ + decimal(if p > 0 { (p - 1) as nat } else { 0 }),
            label: "◀️ Prev"@,
            style: ButtonStyle::Primary,
            disabled: p == 0,
        },
        ButtonModel {
            custom_id: "queue_indicator"@,
            label: decimal(p + 1) + "/"@ + decimal(total),
            style: ButtonStyle::Secondary,
            disabled: true,
        },
        ButtonModel {
            custom_id: "queue_page:"@ + decimal(p + 1),
            label: "Next ▶️"@,
            style: ButtonStyle::Primary,
            disabled: p + 1 >= total,
        },
        ButtonModel {
            custom_id: "queue_shuffle"@,
            label: if shuffled { "🔀 Random: ON"@ } else { "🔀 Random: OFF"@ },
            style: if shuffled { ButtonStyle::Success } else { ButtonStyle::Secondary },
            disabled: false,
        },
        ButtonModel {
            custom_id: "queue_skip"@,
            label: "⏭️ Skip"@,
            style: ButtonStyle::Secondary,
            disabled: false,
        },
    ]
}

/// The component rows of the queue view: the jump menu, up to two rows of
/// direct-play buttons (five each) and the navigation row.
pub open spec fn queue_rows(q: Seq<TrackMetadata>, page: nat, shuffled: bool) -> Seq<ActionRowModel> {
    let n = q.len();
    let p = current_page_of(n, page);
    let (start, end) = page_bounds(n, p);
    let count = (end - start) as nat;
    let menu = if count > 0 {
        seq![ActionRowModel::SelectMenu {
            custom_id: "queue_jump"@,
            placeholder: "🎵 Choose a song from the list to jump & play directly..."@,
            options: Seq::new(count, |k: int| option_model((start + k) as nat, q[start + k])),
        }]
    } else {
        Seq::empty()
    };
    let first = if count < 5 { count } else { 5 };
    let row1 = if first > 0 {
        seq![ActionRowModel::Buttons(Seq::new(first, |k: int| play_button_model((start + k) as nat)))]
    } else {
        Seq::empty()
    };
    let row2 = if count > 5 {
        seq![ActionRowModel::Buttons(Seq::new((count - 5) as nat, |k: int| play_button_model((start + 5 + k) as nat)))]
    } else {
        Seq::empty()
    };
    menu + row1 + row2 + seq![ActionRowModel::Buttons(nav_row_model(p, total_pages_of(n), shuffled))]
}

/// An embed with nothing in it.
pub open spec fn empty_embed_model() -> EmbedModel {
    EmbedModel {
        author: None,
        title: None,
        url: None,
        description: None,
        fields: Seq::empty(),
        footer: None,
        color: None,
        thumbnail: None,
    }
}

/// The embed of the queue view.
pub open spec fn queue_embed(e: EmojiSettings, q: Seq<TrackMetadata>, mode: LoopMode, shuffled: bool, page: nat, thumbnail: Option<Seq<char>>) -> EmbedModel {
    let n = q.len();
    let p = current_page_of(n, page);
    let total = total_pages_of(n);
    let first = q[0];
    EmbedModel {
        author: Some(("Current Music Queue ("@ + first.source@ + ")"@, Some(icon_url_of(first.source@)), Some(first.url@))),
        title: Some("📋 Music Queue"@),
        url: None,
        description: Some(queue_description(e, q, page)),
        fields: seq![
            FieldModel { name: "📊 Total Tracks"@, value: decimal(n), inline: true },
            FieldModel { name: "⏱️ Total Duration"@, value: clock_text(sum_nanos(q) / (NANOS_PER_SEC as nat)), inline: true },
            FieldModel { name: "🔁 Repeat Mode"@, value: mode.symbol() + " "@ + mode.name(), inline: true },
            FieldModel {
                name: "🔀 Random Mode"@,
                value: if shuffled { "🔀 Shuffled (On)"@ } else { "➡️ Sequential (Off)"@ },
                inline: true,
            },
        ],
        footer: Some((
            "Page "@ + decimal(p + 1) + "/"@ + decimal(total) + " | Platform: "@ + first.source@ + " | Loop: "@
                + mode.name() + " | Random: "@ + if shuffled { "On"@ } else { "Off"@ },
            Some(icon_url_of(first.source@)),
        )),
        color: Some(color_of(first.source@)),
        thumbnail: thumbnail,
    }
}

proof fn lemma_sum_nanos_prefix(q: Seq<TrackMetadata>, i: int)
    requires
        0 <= i <= q.len(),
    ensures
        sum_nanos(q.take(i)) <= sum_nanos(q),
    decreases q.len(),
{
    if i < q.len() {
        assert(q.drop_last().take(i) =~= q.take(i));
        lemma_sum_nanos_prefix(q.drop_last(), i);
    } else {
        assert(q.take(i) =~= q);
    }
}

/// The total length of the queue, or `None` when it does not fit in a
/// duration (where adding the lengths up panics).
pub fn queue_total_length(q: &Vec<TrackMetadata>) -> (r: Option<TrackDuration>)
    ensures
        match r {
            Some(d) => sum_nanos(q@) <= TrackDuration::max_nanos() && d.total_nanos() == sum_nanos(q@),
            None => sum_nanos(q@) > TrackDuration::max_nanos(),
        },
{
    let mut total = TrackDuration::zero();
    let mut i: usize = 0;
    while i < q.len()
        invariant
            i <= q@.len(),
            total.total_nanos() == sum_nanos(q@.take(i as int)),
            total.total_nanos() <= TrackDuration::max_nanos(),
        decreases q@.len() - i,
    {
        assert(q@.take(i + 1).drop_last() =~= q@.take(i as int));
        proof {
            lemma_sum_nanos_prefix(q@, i + 1);
        }
        match q[i].duration {
            Some(d) => {
                match total.checked_add(&d) {
                    Some(t) => {
                        total = t;
                    },
                    None => {
                        proof {
                            lemma_sum_nanos_prefix(q@, i + 1);
                        }
                        return None;
                    },
                }
            },
            None => {},
        }
        i += 1;
    }
    assert(q@.take(q@.len() as int) =~= q@);
    Some(total)
}

fn queue_line_text(e: &EmojiSettings, idx: usize, t: &TrackMetadata) -> (r: String)
    ensures
        r@ == queue_line(*e, idx as nat, *t),
{
    let mut s = if idx == 0 {
        string_from("**▶️ Now Playing:**\n")
    } else {
        let mut h = string_from("`");
        push_pad2(&mut h, idx as u64);
        h.append(".` ");
        h
    };
    let prefix = e.prefix(t.source.as_str());
    s.append(prefix.as_str());
    s.append("[**");
    s.append(t.title.as_str());
    s.append("**](");
    s.append(t.url.as_str());
    s.append(")");
    s.append(" • `");
    s.append(t.source.as_str());
    s.append("` (`");
    let d = format_duration(t.duration);
    s.append(d.as_str());
    s.append("`)");
    if idx == 0 {
        s.append("\n\n**Up Next:**\n");
    } else {
        s.append("\n");
    }
    proof {
        if idx == 0 {
            assert(s@ =~= queue_line(*e, idx as nat, *t));
        } else {
            assert(s@ =~= queue_line(*e, idx as nat, *t));
        }
    }
    s
}

fn option_for(idx: usize, t: &TrackMetadata) -> (r: SelectOption)
    ensures
        r@ == option_model(idx as nat, *t),
{
    let mut full = String::new();
    push_decimal(&mut full, idx as u64);
    full.append(". ");
    full.append(t.title.as_str());
    full.append(" (");
    let d = format_duration(t.duration);
    full.append(d.as_str());
    full.append(")");
    let ghost spec_full = decimal(idx as nat) + ". "@ + t.title@ + " ("@ + duration_text(t.duration) + ")"@;
    assert(full@ =~= spec_full);
    let chars = crate::text::chars_of(full.as_str());
    let label = if chars.len() > 95 {
        let mut l = crate::text::string_of(&chars, 0, 92);
        l.append("...");
        assert(chars@.subrange(0, 92) =~= spec_full.take(92));
        l
    } else {
        full
    };
    let mut value = String::new();
    push_decimal(&mut value, idx as u64);
    assert(value@ =~= decimal(idx as nat));
    let description = if idx == 0 {
        let mut d = string_from("▶️ Currently Playing (");
        d.append(t.source.as_str());
        d.append(")");
        d
    } else {
        let mut d = string_from("Jump to track #");
        push_decimal(&mut d, idx as u64);
        d.append(" (");
        d.append(t.source.as_str());
        d.append(")");
        d
    };
    SelectOption { label, value, description }
}

fn play_button(idx: usize) -> (r: Button)
    ensures
        r@ == play_button_model(idx as nat),
{
    let mut id = string_from("queue_play:");
    push_decimal(&mut id, idx as u64);
    let label = if idx == 0 {
        string_from("▶️ #0 (Playing)")
    } else {
        let mut l = string_from("▶️ #");
        push_pad2(&mut l, idx as u64);
        l
    };
    let style = if idx == 0 { ButtonStyle::Success } else { ButtonStyle::Primary };
    button(id, label, style, idx == 0)
}

fn nav_row(p: usize, total: usize, shuffled: bool) -> (r: Vec<Button>)
    requires
        p < total,
    ensures
        r@.map_values(|b: Button| b@) == nav_row_model(p as nat, total as nat, shuffled),
{
    let mut v: Vec<Button> = Vec::new();
    let mut prev_id = string_from("queue_page:");
    push_decimal(&mut prev_id, if p > 0 { (p - 1) as u64 } else { 0 });
    v.push(button(prev_id, string_from("◀️ Prev"), ButtonStyle::Primary, p == 0));
    let mut ind = String::new();
    push_decimal(&mut ind, (p + 1) as u64);
    ind.append("/");
    push_decimal(&mut ind, total as u64);
    v.push(button(string_from("queue_indicator"), ind, ButtonStyle::Secondary, true));
    let mut next_id = string_from("queue_page:");
    push_decimal(&mut next_id, (p + 1) as u64);
    v.push(button(next_id, string_from("Next ▶️"), ButtonStyle::Primary, p + 1 >= total));
    let label = if shuffled { string_from("🔀 Random: ON") } else { string_from("🔀 Random: OFF") };
    let style = if shuffled { ButtonStyle::Success } else { ButtonStyle::Secondary };
    v.push(button(string_from("queue_shuffle"), label, style, false));
    v.push(button(string_from("queue_skip"), string_from("⏭️ Skip"), ButtonStyle::Secondary, false));
    assert(v@.map_values(|b: Button| b@) =~= nav_row_model(p as nat, total as nat, shuffled));
    v
}

/// The component rows for positions `start..end` on page `p` of `total`.
fn queue_components(queue: &Vec<TrackMetadata>, start: usize, end: usize, p: usize, total: usize, shuffled: bool) -> (rows: Vec<ActionRow>)
    requires
        start <= end <= queue@.len(),
        p < total,
        (start as nat, end as nat) == page_bounds(queue@.len(), p as nat),
        p as nat == current_page_of(queue@.len(), p as nat),
        total as nat == total_pages_of(queue@.len()),
    ensures
        row_models(rows@) == queue_rows(queue@, p as nat, shuffled),
{
    let qlen = queue.len();
    let count = end - start;
    let mut options: Vec<SelectOption> = Vec::new();
    let mut k: usize = 0;
    while k < count
        invariant
            count == end - start,
            start + count <= queue@.len(),
            k <= count,
            options@.len() == k,
            forall|j: int| 0 <= j < k ==> #[trigger] options@[j]@ == option_model((start + j) as nat, queue@[start + j]),
        decreases count - k,
    {
        options.push(option_for(start + k, &queue[start + k]));
        k += 1;
    }
    assert(options@.map_values(|o: SelectOption| o@) =~= Seq::new(count as nat, |j: int| option_model((start + j) as nat, queue@[start + j])));
    let mut rows: Vec<ActionRow> = Vec::new();
    if count > 0 {
        rows.push(ActionRow::SelectMenu {
            custom_id: string_from("queue_jump"),
            placeholder: string_from("🎵 Choose a song from the list to jump & play directly..."),
            options,
        });
    }
    let first_count: usize = if count < 5 { count } else { 5 };
    let mut row1: Vec<Button> = Vec::new();
    let mut m: usize = 0;
    while m < first_count
        invariant
            first_count <= count,
            start + count <= qlen,
            m <= first_count,
            row1@.len() == m,
            forall|j: int| 0 <= j < m ==> #[trigger] row1@[j]@ == play_button_model((start + j) as nat),
        decreases first_count - m,
    {
        row1.push(play_button(start + m));
        m += 1;
    }
    assert(row1@.map_values(|b: Button| b@) =~= Seq::new(first_count as nat, |j: int| play_button_model((start + j) as nat)));
    let second_count: usize = if count > 5 { count - 5 } else { 0 };
    let mut row2: Vec<Button> = Vec::new();
    let mut m2: usize = 0;
    while m2 < second_count
        invariant
            second_count == (if count > 5 { count - 5 } else { 0 }),
            start + count <= qlen,
            m2 <= second_count,
            row2@.len() == m2,
            forall|j: int| 0 <= j < m2 ==> #[trigger] row2@[j]@ == play_button_model((start + 5 + j) as nat),
        decreases second_count - m2,
    {
        row2.push(play_button(start + 5 + m2));
        m2 += 1;
    }
    assert(row2@.map_values(|b: Button| b@) =~= Seq::new(second_count as nat, |j: int| play_button_model((start + 5 + j) as nat)));
    if first_count > 0 {
        rows.push(ActionRow::Buttons(row1));
    }
    if second_count > 0 {
        rows.push(ActionRow::Buttons(row2));
    }
    let nav = nav_row(p, total, shuffled);
    rows.push(ActionRow::Buttons(nav));
    assert(row_models(rows@) =~= queue_rows(queue@, p as nat, shuffled));
    rows
}

/// The description of the queue view for positions `start..end` on page
/// `p` of `total`.
fn queue_description_text(queue: &Vec<TrackMetadata>, start: usize, end: usize, p: usize, total: usize, emojis: &EmojiSettings) -> (r: String)
    requires
        start <= end <= queue@.len(),
        p < total,
        (start as nat, end as nat) == page_bounds(queue@.len(), p as nat),
        total as nat == total_pages_of(queue@.len()),
    ensures
        r@ == page_heading(p as nat, total as nat) + queue_lines(*emojis, queue@, start as int, end as int) + more_note(p as nat, queue@.len()),
{
    let n = queue.len();
    let mut desc = if p == 0 {
        String::new()
    } else {
        let mut h = string_from("**📋 Queue (Page ");
        push_decimal(&mut h, (p + 1) as u64);
        h.append("/");
        push_decimal(&mut h, total as u64);
        h.append("):**\n");
        h
    };
    assert(desc@ =~= page_heading(p as nat, total as nat));
    let ghost heading = desc@;
    let mut i = start;
    while i < end
        invariant
            start <= i <= end <= queue@.len(),
            desc@ == heading + queue_lines(*emojis, queue@, start as int, i as int),
        decreases end - i,
    {
        let line = queue_line_text(emojis, i, &queue[i]);
        desc.append(line.as_str());
        i += 1;
        assert(desc@ =~= heading + queue_lines(*emojis, queue@, start as int, i as int));
    }
    let ghost before_more = desc@;
    if p == 0 && n > PAGE_SIZE {
        desc.append("\n*...and ");
        push_decimal(&mut desc, (n - PAGE_SIZE) as u64);
        desc.append(" more tracks in queue*");
    }
    assert(desc@ =~= before_more + more_note(p as nat, n as nat));
    desc
}

/// The fields of the queue view.
fn queue_fields(n: usize, total: TrackDuration, mode: LoopMode, shuffled: bool) -> (r: Vec<crate::utils::embed::EmbedField>)
    ensures
        r@.map_values(|f: crate::utils::embed::EmbedField| f@) == seq![
            FieldModel { name: "📊 Total Tracks"@, value: decimal(n as nat), inline: true },
            FieldModel { name: "⏱️ Total Duration"@, value: clock_text(total.total_nanos() / (NANOS_PER_SEC as nat)), inline: true },
            FieldModel { name: "🔁 Repeat Mode"@, value: mode.symbol() + " "@ + mode.name(), inline: true },
            FieldModel {
                name: "🔀 Random Mode"@,
                value: if shuffled { "🔀 Shuffled (On)"@ } else { "➡️ Sequential (Off)"@ },
                inline: true,
            },
        ],
{
    let mut fields = Vec::new();
    let mut count_text = String::new();
    push_decimal(&mut count_text, n as u64);
    fields.push(field("📊 Total Tracks", count_text, true));
    fields.push(field("⏱️ Total Duration", format_duration(Some(total)), true));
    let mut mode_text = string_from(mode.emoji());
    mode_text.append(" ");
    mode_text.append(mode.as_str());
    fields.push(field("🔁 Repeat Mode", mode_text, true));
    let shuffle_text = if shuffled { string_from("🔀 Shuffled (On)") } else { string_from("➡️ Sequential (Off)") };
    fields.push(field("🔀 Random Mode", shuffle_text, true));
    assert(fields@.map_values(|f: crate::utils::embed::EmbedField| f@) =~= seq![
            FieldModel { name: "📊 Total Tracks"@, value: decimal(n as nat), inline: true },
            FieldModel { name: "⏱️ Total Duration"@, value: clock_text(total.total_nanos() / (NANOS_PER_SEC as nat)), inline: true },
            FieldModel { name: "🔁 Repeat Mode"@, value: mode.symbol() + " "@ + mode.name(), inline: true },
            FieldModel {
                name: "🔀 Random Mode"@,
                value: if shuffled { "🔀 Shuffled (On)"@ } else { "➡️ Sequential (Off)"@ },
                inline: true,
            },
        ]);
    fields
}

/// The footer text of the queue view.
fn queue_footer(p: usize, total: usize, source: &str, mode: LoopMode, shuffled: bool) -> (r: String)
    requires
        p < total,
    ensures
        r@ == "Page "@ + decimal(p as nat + 1) + "/"@ + decimal(total as nat) + " | Platform: "@ + source@ + " | Loop: "@
            + mode.name() + " | Random: "@ + if shuffled { "On"@ } else { "Off"@ },
{
    let mut footer = string_from("Page ");
    push_decimal(&mut footer, (p + 1) as u64);
    footer.append("/");
    push_decimal(&mut footer, total as u64);
    footer.append(" | Platform: ");
    footer.append(source);
    footer.append(" | Loop: ");
    footer.append(mode.as_str());
    footer.append(" | Random: ");
    footer.append(if shuffled { "On" } else { "Off" });
    footer
}

/// The interactive view of a non-empty queue at page `page` (the last page
/// when `page` is past it): the embed with the page's tracks, the totals,
/// the repeat and shuffle state, and the rows of components to jump to a
/// track, play one directly, turn pages, switch shuffle and skip. The total
/// length must fit in a duration, as summing durations panics otherwise.
/// An empty queue gets an empty embed and no components.
pub fn build_queue_view(queue: &Vec<TrackMetadata>, loop_mode: LoopMode, is_shuffled: bool, page: usize, emojis: &EmojiSettings) -> (r: (Embed, Vec<ActionRow>))
    requires
        sum_nanos(queue@) <= TrackDuration::max_nanos(),
    ensures
        queue@.len() == 0 ==> r.0@ == empty_embed_model() && r.1@.len() == 0,
        queue@.len() > 0 ==> r.0@ == queue_embed(*emojis, queue@, loop_mode, is_shuffled, page as nat, opt_view(queue@[0].thumbnail)),
        queue@.len() > 0 ==> row_models(r.1@) == queue_rows(queue@, page as nat, is_shuffled),
{
    let n = queue.len();
    if n == 0 {
        let empty = Embed {
            author: None,
            title: None,
            url: None,
            description: None,
            fields: Vec::new(),
            footer: None,
            color: None,
            thumbnail: None,
        };
        assert(empty@.fields =~= Seq::<FieldModel>::empty());
        return (empty, Vec::new());
    }
    let total_pages: usize = if n == 0 { 1 } else { n / PAGE_SIZE + if n % PAGE_SIZE == 0 { 0 } else { 1 } };
    assert(total_pages as nat == total_pages_of(n as nat));
    let current_page: usize = if page < total_pages { page } else { total_pages - 1 };
    let start = current_page * PAGE_SIZE;
    let end = if n - start < PAGE_SIZE { n } else { start + PAGE_SIZE };
    assert((start as nat, end as nat) == page_bounds(n as nat, current_page as nat));
    let first = &queue[0];
    let total = match queue_total_length(queue) {
        Some(t) => t,
        None => {
            assert(false);
            TrackDuration::zero()
        },
    };
    let desc = queue_description_text(queue, start, end, current_page, total_pages, emojis);
    let fields = queue_fields(n, total, loop_mode, is_shuffled);
    let footer = queue_footer(current_page, total_pages, first.source.as_str(), loop_mode, is_shuffled);
    let mut author_name = string_from("Current Music Queue (");
    author_name.append(first.source.as_str());
    author_name.append(")");
    let embed = Embed {
        author: Some(EmbedAuthor {
            name: author_name,
            icon_url: Some(string_from(source_icon_url(first.source.as_str()))),
            url: Some(first.url.clone()),
        }),
        title: Some(string_from("📋 Music Queue")),
        url: None,
        description: Some(desc),
        fields,
        footer: Some(EmbedFooter {
            text: footer,
            icon_url: Some(string_from(source_icon_url(first.source.as_str()))),
        }),
        color: Some(source_color(first.source.as_str())),
        thumbnail: crate::track::copy_opt_string(&first.thumbnail),
    };
    let rows = queue_components(queue, start, end, current_page, total_pages, is_shuffled);
    (embed, rows)
}


/// Every position of a non-empty queue is shown on exactly one page: the
/// page `idx / 10`, which exists; and the page shown is always one that
/// exists.
pub proof fn law_every_track_on_its_page(n: nat, idx: nat, page: nat)
    requires
        idx < n,
    ensures
        idx / 10 < total_pages_of(n),
        page_bounds(n, idx / 10).0 <= idx < page_bounds(n, idx / 10).1,
        forall|p: nat| p != idx / 10 ==> !(#[trigger] page_bounds(n, p).0 <= idx < page_bounds(n, p).1),
        current_page_of(n, page) < total_pages_of(n),
{
    assert(idx / 10 * 10 <= idx < idx / 10 * 10 + 10);
    assert forall|p: nat| p != idx / 10 implies !(#[trigger] page_bounds(n, p).0 <= idx < page_bounds(n, p).1) by {
        if p < idx / 10 {
            assert(p * 10 + 10 <= idx / 10 * 10) by (nonlinear_arith)
                requires
                    p < idx / 10,
            ;
        } else {
            assert(p * 10 >= idx / 10 * 10 + 10) by (nonlinear_arith)
                requires
                    p > idx / 10,
            ;
        }
    }
}

/// What a click in the queue view asks for.
pub enum QueueAction {
    /// Show a page (0 when the number cannot be read).
    Page(usize),
    /// Switch shuffle.
    Shuffle,
    /// Jump to a track: from a play button or the jump menu; `None` when no
    /// position can be read.
    Play(Option<usize>),
    /// Skip the playing track.
    Skip,
    /// Stop and clear the queue.
    Stop,
    /// Not a queue-view component the bot knows.
    Other,
}

/// The position after the first `:` of a component id (up to the next
/// `:`), read as a number.
pub open spec fn id_number(id: Seq<char>) -> Option<usize> {
    match crate::text::second_piece(id, ':') {
        Some(p) => crate::text::parse_usize(p),
        None => None,
    }
}

/// The action of a queue-view component with id `id`; `selected` is the
/// first value chosen in a select menu, if any.
pub open spec fn queue_action_of(id: Seq<char>, selected: Option<Seq<char>>) -> QueueAction {
    if crate::text::starts_with(id, "queue_page:"@) {
        QueueAction::Page(match id_number(id) { Some(n) => n, None => 0 })
    } else if id == "queue_shuffle"@ {
        QueueAction::Shuffle
    } else if crate::text::starts_with(id, "queue_play:"@) {
        QueueAction::Play(id_number(id))
    } else if id == "queue_jump"@ {
        QueueAction::Play(match selected {
            Some(v) => crate::text::parse_usize(v),
            None => None,
        })
    } else if id == "queue_skip"@ {
        QueueAction::Skip
    } else if id == "queue_stop"@ {
        QueueAction::Stop
    } else {
        QueueAction::Other
    }
}

fn number_after_colon(id: &Vec<char>) -> (r: Option<usize>)
    ensures
        r == id_number(id@),
{
    match crate::text::find_char_in(id, ':') {
        None => None,
        Some(i) => {
            let len = id.len();
            assert(i < len);
            let rest = crate::source::sub_vec(id, i + 1, len);
            assert(rest@ =~= id@.skip(i + 1));
            let piece = match crate::text::find_char_in(&rest, ':') {
                Some(j) => {
                    let p = crate::source::sub_vec(&rest, 0, j);
                    assert(p@ =~= rest@.take(j as int));
                    p
                },
                None => {
                    let p = crate::source::sub_vec(&rest, 0, rest.len());
                    assert(p@ =~= rest@);
                    p
                },
            };
            crate::text::parse_usize_chars(&piece)
        },
    }
}

/// What a click in the queue view asks for, given the component id and the
/// first value chosen in a select menu.
pub fn queue_action(custom_id: &str, selected: Option<&str>) -> (r: QueueAction)
    ensures
        r == queue_action_of(custom_id@, match selected { Some(v) => Some(v@), None => None }),
{
    let id = crate::text::chars_of(custom_id);
    if crate::text::str_starts_with(custom_id, "queue_page:") {
        QueueAction::Page(match number_after_colon(&id) {
            Some(n) => n,
            None => 0,
        })
    } else if crate::text::str_eq(custom_id, "queue_shuffle") {
        QueueAction::Shuffle
    } else if crate::text::str_starts_with(custom_id, "queue_play:") {
        QueueAction::Play(number_after_colon(&id))
    } else if crate::text::str_eq(custom_id, "queue_jump") {
        QueueAction::Play(match selected {
            Some(v) => {
                let cs = crate::text::chars_of(v);
                crate::text::parse_usize_chars(&cs)
            },
            None => None,
        })
    } else if crate::text::str_eq(custom_id, "queue_skip") {
        QueueAction::Skip
    } else if crate::text::str_eq(custom_id, "queue_stop") {
        QueueAction::Stop
    } else {
        QueueAction::Other
    }
}

/// The card that `/nowplaying` shows for the playing track.
pub open spec fn now_playing_model(t: TrackMetadata, mode: LoopMode) -> EmbedModel {
    EmbedModel {
        author: Some(("Now Playing ("@ + t.source@ + ")"@, Some(icon_url_of(t.source@)), Some(t.url@))),
        title: Some(t.title@),
        url: Some(t.url@),
        description: None,
        fields: seq![
            FieldModel {
                name: "👤 Artist"@,
                value: match t.author { Some(a) => a@, None => "Unknown Artist"@ },
                inline: true,
            },
            FieldModel { name: "⏱️ Duration"@, value: duration_text(t.duration), inline: true },
            FieldModel { name: "🔁 Loop Mode"@, value: mode.symbol() + " "@ + mode.name(), inline: true },
        ],
        footer: Some(("Platform: "@ + t.source@, Some(icon_url_of(t.source@)))),
        color: Some(color_of(t.source@)),
        thumbnail: opt_view(t.thumbnail),
    }
}

/// The card that `/nowplaying` shows for the playing track: source, title
/// and link, artist, length and repeat mode.
pub fn now_playing_embed(t: &TrackMetadata, mode: LoopMode) -> (r: Embed)
    ensures
        r@ == now_playing_model(*t, mode),
{
    let mut author = string_from("Now Playing (");
    author.append(t.source.as_str());
    author.append(")");
    let artist = match &t.author {
        Some(a) => a.clone(),
        None => string_from("Unknown Artist"),
    };
    let mut mode_text = string_from(mode.emoji());
    mode_text.append(" ");
    mode_text.append(mode.as_str());
    let mut fields = Vec::new();
    fields.push(field("👤 Artist", artist, true));
    fields.push(field("⏱️ Duration", format_duration(t.duration), true));
    fields.push(field("🔁 Loop Mode", mode_text, true));
    let mut footer = string_from("Platform: ");
    footer.append(t.source.as_str());
    let e = Embed {
        author: Some(EmbedAuthor {
            name: author,
            icon_url: Some(string_from(source_icon_url(t.source.as_str()))),
            url: Some(t.url.clone()),
        }),
        title: Some(t.title.clone()),
        url: Some(t.url.clone()),
        description: None,
        fields,
        footer: Some(EmbedFooter { text: footer, icon_url: Some(string_from(source_icon_url(t.source.as_str()))) }),
        color: Some(source_color(t.source.as_str())),
        thumbnail: crate::track::copy_opt_string(&t.thumbnail),
    };
    assert(e@.fields =~= now_playing_model(*t, mode).fields);
    e
}
/// The direct-play buttons of the queue view (the rows between the jump
/// menu and the navigation row) jump to the tracks of the shown page, in
/// order: position `start + j` for the `j`-th button, each position of the
/// page exactly once, five per row.
pub proof fn law_play_buttons_cover_the_page(q: Seq<TrackMetadata>, page: nat, shuffled: bool)
    requires
        q.len() > 0,
    ensures
        ({
            let n = q.len();
            let p = current_page_of(n, page);
            let start = page_bounds(n, p).0;
            let end = page_bounds(n, p).1;
            let rows = queue_rows(q, page, shuffled);
            &&& start < end
            &&& rows.len() == if end - start > 5 { 4int } else { 3int }
            &&& rows[1] matches ActionRowModel::Buttons(b1) && b1.len() == (if end - start > 5 { 5 } else { end - start })
                && forall|j: int| 0 <= j < b1.len() ==> (#[trigger] b1[j]).custom_id == "queue_play:"@ + decimal((start + j) as nat)
            &&& end - start > 5 ==> (rows[2] matches ActionRowModel::Buttons(b2) && b2.len() == end - start - 5
                && forall|j: int| 0 <= j < b2.len() ==> (#[trigger] b2[j]).custom_id == "queue_play:"@ + decimal((start + 5 + j) as nat))
        }),
{
    let n = q.len();
    let p = current_page_of(n, page);
    law_every_track_on_its_page(n, 0, page);
    assert(p * 10 < n) by (nonlinear_arith)
        requires
            p < total_pages_of(n),
            total_pages_of(n) == (n + 9) / 10,
            n > 0,
    ;
}

/// The number after `prefix` (which holds one `:`, at its end) reads back.
proof fn lemma_id_number_reads_back(prefix: Seq<char>, k: usize)
    requires
        prefix.len() > 0,
        prefix.last() == ':',
        forall|i: int| 0 <= i < prefix.len() - 1 ==> prefix[i] != ':',
    ensures
        id_number(prefix + decimal(k as nat)) == Some(k),
{
    let d = decimal(k as nat);
    let s = prefix + d;
    let c = seq![':'];
    crate::text::lemma_decimal_reads_back(k as nat);
    crate::text::lemma_find_contains(s, c);
    let m = prefix.len() - 1;
    assert(s.subrange(m, m + 1) =~= c);
    assert(crate::text::match_at(s, c, m));
    assert forall|j: int| 0 <= j < m implies !crate::text::match_at(s, c, j) by {
        assert(s.subrange(j, j + 1)[0] == s[j]);
        assert(s[j] == prefix[j]);
    }
    let f = crate::text::find(s, c);
    assert(f == Some(m));
    assert(s.skip(m + 1) =~= d);
    crate::text::lemma_find_contains(d, c);
    assert(!crate::text::contains(d, c)) by {
        if crate::text::contains(d, c) {
            let j = choose|j: int| crate::text::match_at(d, c, j);
            assert(d.subrange(j, j + 1)[0] == d[j]);
            assert(crate::text::is_digit(d[j]));
        }
    }
    crate::text::lemma_parse_decimal(k);
}

/// The ids of the queue view's components ask for what they show: a
/// direct-play button for position `k` jumps to `k`, a page button for page
/// `p` turns to `p`, the shuffle and skip buttons switch shuffle and skip;
/// all of them go to the queue view's handler.
pub proof fn law_view_ids_ask_for_what_they_show(k: usize, p: usize)
    ensures
        queue_action_of(play_button_model(k as nat).custom_id, None) == QueueAction::Play(Some(k)),
        queue_action_of("queue_page:"@ + decimal(p as nat), None) == QueueAction::Page(p),
        queue_action_of("queue_shuffle"@, None) == QueueAction::Shuffle,
        queue_action_of("queue_skip"@, None) == QueueAction::Skip,
        crate::commands::route_of(play_button_model(k as nat).custom_id) == crate::commands::ComponentRoute::Queue,
        crate::commands::route_of("queue_page:"@ + decimal(p as nat)) == crate::commands::ComponentRoute::Queue,
{
    reveal_strlit("queue_play:");
    reveal_strlit("queue_page:");
    reveal_strlit("queue_shuffle");
    reveal_strlit("queue_skip");
    reveal_strlit("queue_jump");
    reveal_strlit("queue_stop");
    reveal_strlit("queue_");
    let play = "queue_play:"@ + decimal(k as nat);
    let page = "queue_page:"@ + decimal(p as nat);
    crate::text::lemma_decimal_reads_back(k as nat);
    crate::text::lemma_decimal_reads_back(p as nat);
    lemma_id_number_reads_back("queue_play:"@, k);
    lemma_id_number_reads_back("queue_page:"@, p);
    assert(play.take(11) =~= "queue_play:"@);
    assert(page.take(11) =~= "queue_page:"@);
    assert(play.take(6) =~= "queue_"@);
    assert(page.take(6) =~= "queue_"@);
    assert(play[8] != "queue_page:"@[8]);
    assert("queue_shuffle"@[6] != "queue_page:"@[6]);
    assert("queue_skip"@[6] != "queue_page:"@[6]);
    assert("queue_skip"@[7] != "queue_play:"@[7]);
    assert("queue_skip"@.len() != "queue_shuffle"@.len());
    assert(crate::text::starts_with(play, "queue_play:"@));
    assert(crate::text::starts_with(page, "queue_page:"@));
}

} // verus!
