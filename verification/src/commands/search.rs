//! Keyword searches: `/play` with words (not a link) offers up to ten
//! candidates, listed in an embed with a menu to pick one of them.

use vstd::prelude::*;

use crate::source::{opt_view, string_from};
use crate::text::{decimal, digit_char, digit_to_char, parse_usize, push_char, push_decimal};
use crate::track::TrackMetadata;
use crate::utils::embed::{
    color_of, duration_text, format_duration, row_models, source_color, ActionRow, ActionRowModel,
    Embed, EmbedFooter, EmbedModel, FieldModel, SelectOption, SelectOptionModel,
};

verus! {

/// How many candidates a keyword search offers at most.
pub const MAX_CANDIDATES: usize = 10;

/// The candidates offered for the tracks a search found: the first ten.
pub open spec fn candidates_of(found: Seq<TrackMetadata>) -> Seq<TrackMetadata> {
    if found.len() <= 10 {
        found
    } else {
        found.take(10)
    }
}

/// The candidates offered for the tracks a search found: the first ten.
pub fn search_candidates(found: Vec<TrackMetadata>) -> (r: Vec<TrackMetadata>)
    ensures
        r@ == candidates_of(found@),
{
    let mut v = found;
    if v.len() > MAX_CANDIDATES {
        v.truncate(MAX_CANDIDATES);
    }
    v
}

/// `n / unit` in tenths, rounded half up, written as `whole.tenth`.
pub open spec fn tenths_text(n: nat, unit: nat) -> Seq<char> {
    let t = (n + unit / 20) / (unit / 10);
    decimal(t / 10) + "."@ + seq![digit_char(t % 10)]
}

/// A view count for people: below a thousand as it is, else in thousands
/// (`K`), millions (`M`) or billions (`B`) with one decimal.
pub open spec fn views_text(n: nat) -> Seq<char> {
    if n >= 1_000_000_000 {
        tenths_text(n, 1_000_000_000) + "B"@
    } else if n >= 1_000_000 {
        tenths_text(n, 1_000_000) + "M"@
    } else if n >= 1_000 {
        tenths_text(n, 1_000) + "K"@
    } else {
        decimal(n)
    }
}

fn push_tenths(s: &mut String, n: u64, unit: u64)
    requires
        unit == 1_000 || unit == 1_000_000 || unit == 1_000_000_000,
    ensures
        final(s)@ == old(s)@ + tenths_text(n as nat, unit as nat),
{
    let tenth = unit / 10;
    let t128: u128 = (n as u128 + (unit / 20) as u128) / (tenth as u128);
    assert(t128 <= u64::MAX) by (nonlinear_arith)
        requires
            t128 == (n + unit / 20) / (tenth as int),
            tenth >= 100,
            n <= u64::MAX,
            unit <= 1_000_000_000,
    ;
    let t = t128 as u64;
    assert(t as nat == (n as nat + unit as nat / 20) / (unit as nat / 10));
    push_decimal(s, t / 10);
    s.append(".");
    proof {
        reveal_strlit(".");
    }
    push_char(s, digit_to_char(t % 10));
}

/// A view count for people, such as `686.6M`.
pub fn format_views(n: u64) -> (r: String)
    ensures
        r@ == views_text(n as nat),
{
    let mut s = String::new();
    if n >= 1_000_000_000 {
        push_tenths(&mut s, n, 1_000_000_000);
        s.append("B");
    } else if n >= 1_000_000 {
        push_tenths(&mut s, n, 1_000_000);
        s.append("M");
    } else if n >= 1_000 {
        push_tenths(&mut s, n, 1_000);
        s.append("K");
    } else {
        push_decimal(&mut s, n);
    }
    assert(s@ =~= views_text(n as nat));
    s
}

/// The artist shown for a track.
pub open spec fn artist_of(t: TrackMetadata) -> Seq<char> {
    match t.author {
        Some(a) => a@,
        None => "Unknown Artist"@,
    }
}

/// ` • 👁️ 686.6M views` when the view count is known.
pub open spec fn views_part(t: TrackMetadata) -> Seq<char> {
    match t.view_count {
        Some(v) => " • 👁️ "@ + views_text(v as nat) + " views"@,
        None => Seq::empty(),
    }
}

/// The line of the candidate numbered `n` (from 1): its link, artist,
/// length and, when known, view count.
pub open spec fn search_line(n: nat, t: TrackMetadata) -> Seq<char> {
    "`"@ + decimal(n) + ".` [**"@ + t.title@ + "**]("@ + t.url@ + ")\n👤 "@ + artist_of(t) + " • ⏱️ `"@
        + duration_text(t.duration) + "`"@ + views_part(t) + "\n"@
}

/// The lines of the first `k` candidates.
pub open spec fn search_lines(cs: Seq<TrackMetadata>, k: int) -> Seq<char>
    decreases k,
{
    if k <= 0 {
        Seq::empty()
    } else {
        search_lines(cs, k - 1) + search_line(k as nat, cs[k - 1])
    }
}

/// The embed that lists the candidates of a search for `query`, numbered
/// from 1 as in the menu under it.
pub open spec fn search_card(query: Seq<char>, cs: Seq<TrackMetadata>) -> EmbedModel {
    EmbedModel {
        author: None,
        title: Some("🔎 Search Results: "@ + query),
        url: None,
        description: Some(search_lines(cs, cs.len() as int)),
        fields: Seq::empty(),
        footer: Some(("Choose a track from the menu below to play it"@, None)),
        color: Some(color_of("YouTube"@)),
        thumbnail: None,
    }
}

/// The menu choice of the candidate at index `k`: its number (from 1),
/// title, artist and length (cut to 92 characters and `...` when longer
/// than 95), the index as value, and the view count and source.
pub open spec fn search_option_model(k: nat, t: TrackMetadata) -> SelectOptionModel {
    let full = decimal(k + 1) + ". "@ + t.title@ + " - "@ + artist_of(t) + " ("@ + duration_text(t.duration) + ")"@;
    SelectOptionModel {
        label: if full.len() > 95 { full.take(92) + "..."@ } else { full },
        value: decimal(k),
        description: match t.view_count {
            Some(v) => views_text(v as nat) + " views • "@ + t.source@,
            None => t.source@,
        },
    }
}

/// The menu under the search embed.
pub open spec fn search_menu(cs: Seq<TrackMetadata>) -> ActionRowModel {
    ActionRowModel::SelectMenu {
        custom_id: "search_select"@,
        placeholder: "🎵 Choose a track to play..."@,
        options: Seq::new(cs.len(), |k: int| search_option_model(k as nat, cs[k])),
    }
}

fn push_artist(s: &mut String, t: &TrackMetadata)
    ensures
        final(s)@ == old(s)@ + artist_of(*t),
{
    match &t.author {
        Some(a) => s.append(a.as_str()),
        None => s.append("Unknown Artist"),
    }
}

fn push_search_line(s: &mut String, n: u64, t: &TrackMetadata)
    ensures
        final(s)@ == old(s)@ + search_line(n as nat, *t),
{
    s.append("`");
    push_decimal(s, n);
    s.append(".` [**");
    s.append(t.title.as_str());
    s.append("**](");
    s.append(t.url.as_str());
    s.append(")\n👤 ");
    push_artist(s, t);
    s.append(" • ⏱️ `");
    let d = format_duration(t.duration);
    s.append(d.as_str());
    s.append("`");
    match t.view_count {
        Some(v) => {
            s.append(" • 👁️ ");
            let w = format_views(v);
            s.append(w.as_str());
            s.append(" views");
        },
        None => {},
    }
    s.append("\n");
    assert(s@ =~= old(s)@ + search_line(n as nat, *t));
}

/// The embed that lists the candidates of a search for `query`.
pub fn search_embed(query: &str, cs: &Vec<TrackMetadata>) -> (r: Embed)
    ensures
        r@ == search_card(query@, cs@),
{
    let mut desc = String::new();
    let mut i: usize = 0;
    while i < cs.len()
        invariant
            i <= cs@.len(),
            desc@ == search_lines(cs@, i as int),
        decreases cs@.len() - i,
    {
        push_search_line(&mut desc, (i + 1) as u64, &cs[i]);
        i += 1;
    }
    let mut title = string_from("🔎 Search Results: ");
    title.append(query);
    let e = Embed {
        author: None,
        title: Some(title),
        url: None,
        description: Some(desc),
        fields: Vec::new(),
        footer: Some(EmbedFooter { text: string_from("Choose a track from the menu below to play it"), icon_url: None }),
        color: Some(source_color("YouTube")),
        thumbnail: None,
    };
    assert(e@.fields =~= Seq::<FieldModel>::empty());
    e
}

fn search_option(k: usize, t: &TrackMetadata) -> (r: SelectOption)
    requires
        k < usize::MAX,
    ensures
        r@ == search_option_model(k as nat, *t),
{
    let mut full = String::new();
    push_decimal(&mut full, (k + 1) as u64);
    full.append(". ");
    full.append(t.title.as_str());
    full.append(" - ");
    push_artist(&mut full, t);
    full.append(" (");
    let d = format_duration(t.duration);
    full.append(d.as_str());
    full.append(")");
    let ghost spec_full = decimal((k + 1) as nat) + ". "@ + t.title@ + " - "@ + artist_of(*t) + " ("@ + duration_text(t.duration) + ")"@;
    assert(full@ =~= spec_full);
    let chars = crate::text::chars_of(full.as_str());
    let label = if chars.len() > 95 {
        let mut l = crate::text::string_of(&chars, 0, 92);
        l.append("...");
        assert(chars@.subrange(0, 92) =~= spec_full.take(92));
        l
    } else {
        full
    };
    let mut value = String::new();
    push_decimal(&mut value, k as u64);
    assert(value@ =~= decimal(k as nat));
    let description = match t.view_count {
        Some(v) => {
            let mut d = format_views(v);
            d.append(" views • ");
            d.append(t.source.as_str());
            d
        },
        None => t.source.clone(),
    };
    SelectOption { label, value, description }
}

/// The menu under the search embed.
pub fn search_menu_row(cs: &Vec<TrackMetadata>) -> (r: ActionRow)
    ensures
        r@ == search_menu(cs@),
{
    let mut options: Vec<SelectOption> = Vec::new();
    let mut i: usize = 0;
    while i < cs.len()
        invariant
            i <= cs@.len(),
            options@.len() == i,
            forall|k: int| 0 <= k < i ==> #[trigger] options@[k]@ == search_option_model(k as nat, cs@[k]),
        decreases cs@.len() - i,
    {
        options.push(search_option(i, &cs[i]));
        i += 1;
    }
    let r = ActionRow::SelectMenu {
        custom_id: string_from("search_select"),
        placeholder: string_from("🎵 Choose a track to play..."),
        options,
    };
    assert(options@.map_values(|o: SelectOption| o@) =~= Seq::new(
        cs@.len(),
        |k: int| search_option_model(k as nat, cs@[k]),
    ));
    r
}

/// The candidate index a menu choice names.
pub fn search_pick(selected: Option<&str>) -> (r: Option<usize>)
    ensures
        r == match selected {
            Some(v) => parse_usize(v@),
            None => None,
        },
{
    match selected {
        Some(v) => {
            let cs = crate::text::chars_of(v);
            crate::text::parse_usize_chars(&cs)
        },
        None => None,
    }
}

/// The menu and the list agree: choosing the option at index `k` of the
/// menu picks candidate `k`, the one shown as number `k + 1` in the list.
pub proof fn law_menu_choice_picks_its_candidate(cs: Seq<TrackMetadata>, k: int)
    requires
        0 <= k < cs.len(),
        cs.len() <= usize::MAX,
    ensures
        search_menu(cs) matches ActionRowModel::SelectMenu { options, .. } && parse_usize(options[k].value)
            == Some(k as usize),
{
    crate::text::lemma_parse_decimal(k as usize);
}

} // verus!
