//! Resolving what a user asked for into tracks.
//!
//! Running yt-dlp, fetching Spotify pages and decoding JSON are I/O done
//! around this module; here stand the rules: how a query is classified and
//! which yt-dlp invocation it needs, how yt-dlp's answer becomes tracks, how
//! a Spotify page yields its tracks, how a YouTube video id is read from a
//! link, and how an autoplay recommendation is chosen.

use vstd::prelude::*;

use crate::text::{chars_of, contains, decimal, eq_ignore_ascii_case, find, parse_usize, parse_usize_chars, push_decimal, starts_with, str_contains, str_eq, str_starts_with, trim, trim_bounds, trim_str};
use crate::track::{duplicate_tracks, TrackDuration, TrackMetadata};

verus! {

// ---------------------------------------------------------------------------
// Views of strings
// ---------------------------------------------------------------------------

/// The view of an optional string.
pub open spec fn opt_view(o: Option<String>) -> Option<Seq<char>> {
    match o {
        Some(s) => Some(s@),
        None => None,
    }
}

/// The views of a sequence of strings.
pub open spec fn views(v: Seq<String>) -> Seq<Seq<char>> {
    v.map_values(|s: String| s@)
}

/// An optional string, or the empty string.
pub open spec fn or_empty(o: Option<Seq<char>>) -> Seq<char> {
    match o {
        Some(s) => s,
        None => Seq::empty(),
    }
}

/// A new string holding a copy of `s`.
pub fn string_from(s: &str) -> (r: String)
    ensures
        r@ == s@,
{
    String::from_str(s)
}

// ---------------------------------------------------------------------------
// Query classification
// ---------------------------------------------------------------------------

/// The query is a web link.
pub open spec fn is_url_query(q: Seq<char>) -> bool {
    starts_with(q, "http://"@) || starts_with(q, "https://"@)
}

/// The query names Spotify content.
pub open spec fn is_spotify_query(q: Seq<char>) -> bool {
    contains(q, "open.spotify.com"@) || starts_with(q, "spotify:"@)
}

/// The query is a web link.
pub fn is_url(query: &str) -> (r: bool)
    ensures
        r == is_url_query(query@),
{
    str_starts_with(query, "http://") || str_starts_with(query, "https://")
}

/// The query names Spotify content (an `open.spotify.com` link or a
/// `spotify:` URI).
pub fn is_spotify(query: &str) -> (r: bool)
    ensures
        r == is_spotify_query(query@),
{
    str_contains(query, "open.spotify.com") || str_starts_with(query, "spotify:")
}

/// Whether `search` resolves the query directly (links and Spotify) rather
/// than offering YouTube candidates for a text query.
pub fn search_resolves_directly(query: &str) -> (r: bool)
    ensures
        r == (is_url_query(query@) || is_spotify_query(query@)),
{
    is_url(query) || is_spotify(query)
}

// ---------------------------------------------------------------------------
// Playlist limit
// ---------------------------------------------------------------------------

/// The playlist limit configured by `MAX_PLAYLIST_ITEMS`, else by
/// `MAX_PLAYLIST_TRACKS`: the trimmed value read as a number, 50 when unset
/// or unreadable; 0 means no limit.
pub open spec fn playlist_limit(items: Option<Seq<char>>, tracks: Option<Seq<char>>) -> usize {
    let v = match items {
        Some(s) => Some(s),
        None => tracks,
    };
    match v {
        Some(s) => match parse_usize(trim(s)) {
            Some(n) => n,
            None => 50,
        },
        None => 50,
    }
}

/// The playlist limit, given the values of the environment variables
/// `MAX_PLAYLIST_ITEMS` and `MAX_PLAYLIST_TRACKS` (`None` when unset).
pub fn get_max_playlist_limit(items: Option<&str>, tracks: Option<&str>) -> (r: usize)
    ensures
        r == playlist_limit(
            match items { Some(s) => Some(s@), None => None },
            match tracks { Some(s) => Some(s@), None => None },
        ),
{
    let v = match items {
        Some(s) => Some(s),
        None => tracks,
    };
    match v {
        Some(s) => {
            let cs = chars_of(s);
            let (a, b) = trim_bounds(&cs);
            let mut t: Vec<char> = Vec::new();
            let mut i = a;
            while i < b
                invariant
                    a <= i <= b <= cs@.len(),
                    t@ == cs@.subrange(a as int, i as int),
                decreases b - i,
            {
                t.push(cs[i]);
                i += 1;
                assert(t@ =~= cs@.subrange(a as int, i as int));
            }
            match parse_usize_chars(&t) {
                Some(n) => n,
                None => 50,
            }
        },
        None => 50,
    }
}

// ---------------------------------------------------------------------------
// yt-dlp invocation
// ---------------------------------------------------------------------------

/// Where a query's tracks are expected to come from.
pub open spec fn source_hint_of(q: Seq<char>) -> Seq<char> {
    if contains(q, "soundcloud.com"@) {
        "SoundCloud"@
    } else if contains(q, "youtube.com"@) || contains(q, "youtu.be"@) || !is_url_query(q) {
        "YouTube"@
    } else {
        "Direct Stream"@
    }
}

/// What yt-dlp is asked for: links and `ytsearch` queries as they are,
/// other text as a search for ten candidates.
pub open spec fn search_target_of(q: Seq<char>) -> Seq<char> {
    if is_url_query(q) || starts_with(q, "ytsearch"@) {
        q
    } else {
        "ytsearch10:"@ + q
    }
}

/// The arguments of the yt-dlp metadata run.
pub open spec fn ytdlp_args_of(target: Seq<char>, url: bool, playlist: bool, max_items: nat) -> Seq<Seq<char>> {
    let base = seq!["-J"@, "--default-search"@, "ytsearch"@, "--no-warnings"@];
    let mode = if playlist {
        if max_items > 0 {
            seq!["--flat-playlist"@, "--playlist-items"@, seq!['1', ':'] + decimal(max_items)]
        } else {
            seq!["--flat-playlist"@]
        }
    } else if url {
        seq!["--no-playlist"@]
    } else {
        seq!["--flat-playlist"@]
    };
    base + mode + seq![target]
}

/// How one query is to be resolved through yt-dlp.
pub struct QueryPlan {
    /// The text handed to yt-dlp, also the cache key.
    pub search_target: String,
    /// The source assumed for tracks whose extractor says nothing better.
    pub source_hint: String,
    pub is_url: bool,
    /// A link that carries a playlist (`list=`).
    pub has_playlist: bool,
    pub max_items: usize,
    /// The arguments of the yt-dlp run.
    pub ytdlp_args: Vec<String>,
}

impl QueryPlan {
    /// This is the plan for `query` under playlist limit `max_items`.
    pub open spec fn plans(self, query: Seq<char>, max_items: usize, mix_as_playlist: bool) -> bool {
        let url = is_url_query(query);
        let playlist = url && contains(query, "list="@) && (mix_as_playlist || !is_mix_on_video(query));
        &&& self.search_target@ == search_target_of(query)
        &&& self.source_hint@ == source_hint_of(query)
        &&& self.is_url == url
        &&& self.has_playlist == playlist
        &&& self.max_items == max_items
        &&& views(self.ytdlp_args@) == ytdlp_args_of(
            search_target_of(query),
            url,
            playlist,
            max_items as nat,
        )
    }
}

/// A link to one video that carries a YouTube Mix (`list=RD…`).
pub open spec fn is_mix_on_video(q: Seq<char>) -> bool {
    (contains(q, "watch?v="@) || contains(q, "youtu.be/"@)) && contains(q, "list=RD"@)
}

/// The plan for resolving what a user asked for. A link with a playlist
/// (`list=`) is read as that playlist, except a link to one video with a
/// YouTube Mix attached, which yields only that video.
pub fn plan_query(query: &str, max_items: usize) -> (p: QueryPlan)
    ensures
        p.plans(query@, max_items, false),
{
    plan_query_with(query, max_items, false)
}

/// The plan for reading a YouTube Mix for autoplay: the Mix is read as a
/// playlist (up to the limit).
pub fn plan_mix_query(mix_url: &str, max_items: usize) -> (p: QueryPlan)
    ensures
        p.plans(mix_url@, max_items, true),
{
    plan_query_with(mix_url, max_items, true)
}

fn plan_query_with(query: &str, max_items: usize, mix_as_playlist: bool) -> (p: QueryPlan)
    ensures
        p.plans(query@, max_items, mix_as_playlist),
{
    let url = is_url(query);
    let mix_on_video = (str_contains(query, "watch?v=") || str_contains(query, "youtu.be/")) && str_contains(query, "list=RD");
    let playlist = url && str_contains(query, "list=") && (mix_as_playlist || !mix_on_video);
    let hint = if str_contains(query, "soundcloud.com") {
        string_from("SoundCloud")
    } else if str_contains(query, "youtube.com") || str_contains(query, "youtu.be") || !url {
        string_from("YouTube")
    } else {
        string_from("Direct Stream")
    };
    let target = if url || str_starts_with(query, "ytsearch") {
        string_from(query)
    } else {
        let mut t = string_from("ytsearch10:");
        t.append(query);
        t
    };
    let mut args: Vec<String> = Vec::new();
    args.push(string_from("-J"));
    args.push(string_from("--default-search"));
    args.push(string_from("ytsearch"));
    args.push(string_from("--no-warnings"));
    let ghost base = seq!["-J"@, "--default-search"@, "ytsearch"@, "--no-warnings"@];
    assert(views(args@) =~= base);
    let ghost mode: Seq<Seq<char>>;
    if playlist {
        args.push(string_from("--flat-playlist"));
        if max_items > 0 {
            args.push(string_from("--playlist-items"));
            let mut range = string_from("1:");
            push_decimal(&mut range, max_items as u64);
            proof {
                reveal_strlit("1:");
                assert(range@ =~= seq!['1', ':'] + decimal(max_items as nat));
            }
            args.push(range);
            proof {
                mode = seq!["--flat-playlist"@, "--playlist-items"@, seq!['1', ':'] + decimal(max_items as nat)];
            }
        } else {
            proof {
                mode = seq!["--flat-playlist"@];
            }
        }
    } else if url {
        args.push(string_from("--no-playlist"));
        proof {
            mode = seq!["--no-playlist"@];
        }
    } else {
        args.push(string_from("--flat-playlist"));
        proof {
            mode = seq!["--flat-playlist"@];
        }
    }
    assert(views(args@) =~= base + mode);
    let ghost before_target = args@;
    args.push(target.clone());
    assert(views(args@) =~= views(before_target) + seq![target@]);
    QueryPlan {
        search_target: target,
        source_hint: hint,
        is_url: url,
        has_playlist: playlist,
        max_items,
        ytdlp_args: args,
    }
}

// ---------------------------------------------------------------------------
// yt-dlp answers
// ---------------------------------------------------------------------------

/// The parts of yt-dlp's JSON answer that the bot reads: one video, or a
/// playlist or search result whose `entries` are videos.
pub struct YtDlpOutput {
    pub title: Option<String>,
    pub webpage_url: Option<String>,
    pub url: Option<String>,
    pub duration: Option<TrackDuration>,
    pub thumbnail: Option<String>,
    pub uploader: Option<String>,
    pub extractor_key: Option<String>,
    pub view_count: Option<u64>,
    pub entries: Option<Vec<YtDlpOutput>>,
    pub kind: Option<String>,
}

/// Unicode lower-casing, as `str::to_lowercase` does it.
pub uninterp spec fn unicode_lowercase(s: Seq<char>) -> Seq<char>;

/// `str::to_lowercase`. Its result is named, not stated: it follows the
/// Unicode case tables, which the contract does not restate.
#[verifier::external_body]
fn to_lowercase(s: &str) -> (r: String)
    ensures
        r@ == unicode_lowercase(s@),
{
    s.to_lowercase()
}

/// The source a lower-cased extractor name stands for.
pub open spec fn source_of_extractor(lowered: Seq<char>, hint: Seq<char>) -> Seq<char> {
    if contains(lowered, "soundcloud"@) {
        "SoundCloud"@
    } else if contains(lowered, "youtube"@) {
        "YouTube"@
    } else {
        hint
    }
}

/// The source of a track, given its extractor name already lower-cased:
/// SoundCloud or YouTube when the name says so, otherwise the hint.
pub fn classify_extractor(lowered: &str, hint: &str) -> (r: String)
    ensures
        r@ == source_of_extractor(lowered@, hint@),
{
    if str_contains(lowered, "soundcloud") {
        string_from("SoundCloud")
    } else if str_contains(lowered, "youtube") {
        string_from("YouTube")
    } else {
        string_from(hint)
    }
}

/// The link of an entry: its page link when that is not empty, else its
/// media link, else empty.
pub open spec fn entry_url(e: YtDlpOutput) -> Seq<char> {
    let webpage = match e.webpage_url {
        Some(w) => w@,
        None => or_empty(opt_view(e.url)),
    };
    if webpage.len() > 0 {
        webpage
    } else {
        or_empty(opt_view(e.url))
    }
}

/// The entry makes a track: it has a title and a link.
pub open spec fn entry_yields(e: YtDlpOutput) -> bool {
    e.title is Some && entry_url(e).len() > 0
}

/// The source recorded for an entry.
pub open spec fn entry_source(e: YtDlpOutput, hint: Seq<char>) -> Seq<char> {
    match e.extractor_key {
        Some(k) => source_of_extractor(unicode_lowercase(k@), hint),
        None => hint,
    }
}

/// `t` is the track that entry `e` makes.
pub open spec fn is_entry_track(e: YtDlpOutput, hint: Seq<char>, t: TrackMetadata) -> bool {
    &&& Some(t.title) == e.title
    &&& t.url@ == entry_url(e)
    &&& t.stream_url@ == entry_url(e)
    &&& t.duration == e.duration
    &&& t.thumbnail == e.thumbnail
    &&& t.author == e.uploader
    &&& t.source@ == entry_source(e, hint)
    &&& t.requester is None
    &&& t.view_count == e.view_count
}

fn copy_opt(s: &Option<String>) -> (r: Option<String>)
    ensures
        r == *s,
{
    crate::track::copy_opt_string(s)
}

/// The track an entry of yt-dlp's answer makes, if it has a title and a
/// link.
pub fn parse_single_entry(entry: &YtDlpOutput, source_hint: &str) -> (r: Option<TrackMetadata>)
    ensures
        r is Some <==> entry_yields(*entry),
        r matches Some(t) ==> is_entry_track(*entry, source_hint@, t),
{
    let title = match &entry.title {
        Some(t) => t.clone(),
        None => return None,
    };
    let media = match &entry.url {
        Some(u) => u.clone(),
        None => String::new(),
    };
    let webpage = match &entry.webpage_url {
        Some(w) => w.clone(),
        None => media.clone(),
    };
    let url = if webpage.as_str().unicode_len() > 0 {
        webpage
    } else {
        media
    };
    if url.as_str().unicode_len() == 0 {
        return None;
    }
    let source = match &entry.extractor_key {
        Some(k) => {
            let lowered = to_lowercase(k.as_str());
            classify_extractor(lowered.as_str(), source_hint)
        },
        None => string_from(source_hint),
    };
    Some(TrackMetadata {
        title,
        url: url.clone(),
        stream_url: url,
        duration: entry.duration,
        thumbnail: copy_opt(&entry.thumbnail),
        author: copy_opt(&entry.uploader),
        source,
        requester: None,
        view_count: entry.view_count,
    })
}

/// `ts` are the tracks that the entries `es` make, in order, entries
/// without a title or link being skipped.
pub open spec fn entries_give(es: Seq<YtDlpOutput>, hint: Seq<char>, ts: Seq<TrackMetadata>) -> bool
    decreases es.len(),
{
    if es.len() == 0 {
        ts.len() == 0
    } else if entry_yields(es.last()) {
        &&& ts.len() > 0
        &&& is_entry_track(es.last(), hint, ts.last())
        &&& entries_give(es.drop_last(), hint, ts.drop_last())
    } else {
        entries_give(es.drop_last(), hint, ts)
    }
}

/// How many entries of an answer are read: with a positive limit, a
/// playlist link (or a link that yt-dlp answered with a playlist) is cut
/// at the limit; otherwise all entries are read.
pub open spec fn entry_limit(plan: QueryPlan, kind: Option<Seq<char>>) -> nat {
    if (plan.has_playlist || (plan.is_url && kind == Some("playlist"@))) && plan.max_items > 0 {
        plan.max_items as nat
    } else {
        usize::MAX as nat
    }
}

/// The message when a query yields no track.
pub open spec fn no_tracks_message() -> Seq<char> {
    "No tracks found for the requested query."@
}

/// The tracks of yt-dlp's answer, read according to `plan`.
pub open spec fn answer_gives(out: YtDlpOutput, plan: QueryPlan, ts: Seq<TrackMetadata>) -> bool {
    match out.entries {
        Some(es) => {
            let n = entry_limit(plan, opt_view(out.kind));
            let chosen = if es@.len() <= n { es@ } else { es@.take(n as int) };
            entries_give(chosen, plan.source_hint@, ts)
        },
        None => entries_give(seq![out], plan.source_hint@, ts),
    }
}

/// The tracks of yt-dlp's answer to the query of `plan`: the entries of a
/// playlist or search (cut at the limit where the plan says so) that have a
/// title and a link, or the single video; an error when there are none.
pub fn collect_tracks(parsed: &YtDlpOutput, plan: &QueryPlan) -> (r: Result<Vec<TrackMetadata>, String>)
    ensures
        match r {
            Ok(v) => v@.len() > 0 && answer_gives(*parsed, *plan, v@),
            Err(e) => e@ == no_tracks_message() && answer_gives(*parsed, *plan, Seq::empty()),
        },
{
    let mut tracks: Vec<TrackMetadata> = Vec::new();
    let hint = plan.source_hint.as_str();
    match &parsed.entries {
        Some(entries) => {
            let is_playlist_kind = match &parsed.kind {
                Some(k) => str_eq(k.as_str(), "playlist"),
                None => false,
            };
            let limit: usize = if (plan.has_playlist || (plan.is_url && is_playlist_kind))
                && plan.max_items > 0 {
                plan.max_items
            } else {
                usize::MAX
            };
            assert(limit as nat == entry_limit(*plan, opt_view(parsed.kind)));
            let n = if entries.len() <= limit { entries.len() } else { limit };
            let ghost chosen = if entries@.len() <= limit { entries@ } else { entries@.take(limit as int) };
            assert(chosen =~= entries@.take(n as int));
            let mut i: usize = 0;
            while i < n
                invariant
                    n <= entries@.len(),
                    i <= n,
                    hint@ == plan.source_hint@,
                    entries_give(entries@.take(i as int), hint@, tracks@),
                decreases n - i,
            {
                let e = &entries[i];
                let maybe = parse_single_entry(e, hint);
                assert(entries@.take(i + 1).drop_last() =~= entries@.take(i as int));
                assert(entries@.take(i + 1).last() == entries@[i as int]);
                match maybe {
                    Some(t) => {
                        let ghost before = tracks@;
                        tracks.push(t);
                        assert(tracks@.drop_last() =~= before);
                    },
                    None => {},
                }
                i += 1;
            }
            assert(entries@.take(n as int) =~= chosen);
            assert(answer_gives(*parsed, *plan, tracks@));
        },
        None => {
            let maybe = parse_single_entry(parsed, hint);
            assert(seq![*parsed].drop_last() =~= Seq::<YtDlpOutput>::empty());
            match maybe {
                Some(t) => {
                    tracks.push(t);
                    assert(tracks@.drop_last() =~= Seq::<TrackMetadata>::empty());
                },
                None => {},
            }
            assert(seq![*parsed].last() == *parsed);
            assert(entries_give(Seq::<YtDlpOutput>::empty(), hint@, Seq::<TrackMetadata>::empty()));
            assert(answer_gives(*parsed, *plan, tracks@));
        },
    }
    if tracks.len() == 0 {
        assert(tracks@ =~= Seq::<TrackMetadata>::empty());
        return Err(string_from("No tracks found for the requested query."));
    }
    Ok(tracks)
}

/// The message for a failed yt-dlp run, given its error output.
pub fn ytdlp_failure_message(stderr: &str) -> (r: String)
    ensures
        r@ == "Could not extract audio metadata: "@ + trim(stderr@),
{
    let mut r = string_from("Could not extract audio metadata: ");
    let t = trim_str(stderr);
    r.append(t.as_str());
    r
}

/// Entries that make tracks are never dropped below the limit, and no more
/// entries than the limit are read: a playlist yields at most as many
/// tracks as its limit allows.
pub proof fn law_entries_give_at_most(es: Seq<YtDlpOutput>, hint: Seq<char>, ts: Seq<TrackMetadata>)
    requires
        entries_give(es, hint, ts),
    ensures
        ts.len() <= es.len(),
    decreases es.len(),
{
    if es.len() > 0 {
        if entry_yields(es.last()) {
            law_entries_give_at_most(es.drop_last(), hint, ts.drop_last());
        } else {
            law_entries_give_at_most(es.drop_last(), hint, ts);
        }
    }
}

/// Playlists are capped: with a positive limit, a playlist link yields at
/// most that many tracks.
pub proof fn law_playlist_capped(out: YtDlpOutput, plan: QueryPlan, ts: Seq<TrackMetadata>)
    requires
        answer_gives(out, plan, ts),
        plan.has_playlist,
        plan.max_items > 0,
    ensures
        ts.len() <= plan.max_items,
{
    match out.entries {
        Some(es) => {
            let n = entry_limit(plan, opt_view(out.kind));
            let chosen = if es@.len() <= n { es@ } else { es@.take(n as int) };
            law_entries_give_at_most(chosen, plan.source_hint@, ts);
        },
        None => {
            law_entries_give_at_most(seq![out], plan.source_hint@, ts);
        },
    }
}


/// A link that yt-dlp answers with a playlist is capped too, whether or not
/// the link says `list=` (a SoundCloud set, an album page): with a positive
/// limit it yields at most that many tracks.
pub proof fn law_playlist_answer_capped(out: YtDlpOutput, plan: QueryPlan, ts: Seq<TrackMetadata>)
    requires
        answer_gives(out, plan, ts),
        plan.is_url,
        opt_view(out.kind) == Some("playlist"@),
        plan.max_items > 0,
    ensures
        ts.len() <= plan.max_items,
{
    match out.entries {
        Some(es) => {
            let n = entry_limit(plan, opt_view(out.kind));
            let chosen = if es@.len() <= n { es@ } else { es@.take(n as int) };
            law_entries_give_at_most(chosen, plan.source_hint@, ts);
        },
        None => {
            law_entries_give_at_most(seq![out], plan.source_hint@, ts);
        },
    }
}

/// How each kind of query is read: words become a ten-result search read
/// flat; a link without a playlist is read as that one video
/// (`--no-playlist`); a playlist link is read flat and, with a positive
/// limit, only its first `max_items` items; the text handed to yt-dlp comes
/// last.
pub proof fn law_plan_reads_each_kind_of_query(p: QueryPlan, q: Seq<char>, max_items: usize)
    requires
        p.plans(q, max_items, false),
    ensures
        !is_url_query(q) && !starts_with(q, "ytsearch"@) ==> p.search_target@ == "ytsearch10:"@ + q
            && views(p.ytdlp_args@)[4] == "--flat-playlist"@ && !p.has_playlist,
        is_url_query(q) ==> p.search_target@ == q,
        is_url_query(q) && !contains(q, "list="@) ==> !p.has_playlist && views(p.ytdlp_args@)[4] == "--no-playlist"@,
        is_url_query(q) && contains(q, "list="@) && !is_mix_on_video(q) && max_items > 0 ==> p.has_playlist
            && views(p.ytdlp_args@).subrange(4, 7) == seq!["--flat-playlist"@, "--playlist-items"@, "1:"@ + decimal(max_items as nat)],
        views(p.ytdlp_args@).last() == p.search_target@,
        views(p.ytdlp_args@).take(4) == seq!["-J"@, "--default-search"@, "ytsearch"@, "--no-warnings"@],
{
    reveal_strlit("1:");
    let args = views(p.ytdlp_args@);
    assert(args.take(4) =~= seq!["-J"@, "--default-search"@, "ytsearch"@, "--no-warnings"@]);
    if is_url_query(q) && contains(q, "list="@) && !is_mix_on_video(q) && max_items > 0 {
        assert(seq!['1', ':'] =~= "1:"@);
        assert(args.subrange(4, 7) =~= seq!["--flat-playlist"@, "--playlist-items"@, "1:"@ + decimal(max_items as nat)]);
    }
}

// ---------------------------------------------------------------------------
// Helpers on character vectors
// ---------------------------------------------------------------------------

/// The characters `v[a..b]` as a new vector.
pub fn sub_vec(v: &Vec<char>, a: usize, b: usize) -> (r: Vec<char>)
    requires
        a <= b <= v@.len(),
    ensures
        r@ == v@.subrange(a as int, b as int),
{
    let mut out: Vec<char> = Vec::new();
    let mut i = a;
    while i < b
        invariant
            a <= i <= b <= v@.len(),
            out@ == v@.subrange(a as int, i as int),
        decreases b - i,
    {
        out.push(v[i]);
        i += 1;
        assert(out@ =~= v@.subrange(a as int, i as int));
    }
    out
}

/// The part of `s` before the first occurrence of `p` (all of `s` when
/// there is none): what `s.split(p).next()` yields.
pub open spec fn before_pat(s: Seq<char>, p: Seq<char>) -> Seq<char> {
    match find(s, p) {
        Some(j) => s.take(j),
        None => s,
    }
}

/// What `s.split(p).nth(1)` yields for a non-empty pattern: the piece
/// between the first and the second occurrence of `p`.
pub open spec fn split_second(s: Seq<char>, p: Seq<char>) -> Option<Seq<char>> {
    match find(s, p) {
        Some(i) => Some(before_pat(s.skip(i + p.len()), p)),
        None => None,
    }
}

fn before_pat_vec(s: &Vec<char>, p: &Vec<char>) -> (r: Vec<char>)
    ensures
        r@ == before_pat(s@, p@),
{
    match crate::text::find_chars(s, p) {
        Some(j) => {
            let r = sub_vec(s, 0, j);
            assert(r@ =~= s@.take(j as int));
            r
        },
        None => {
            let r = sub_vec(s, 0, s.len());
            assert(r@ =~= s@);
            r
        },
    }
}

fn before_char_vec(s: &Vec<char>, c: char) -> (r: Vec<char>)
    ensures
        r@ == crate::text::before_char(s@, c),
{
    match crate::text::find_char_in(s, c) {
        Some(j) => {
            let r = sub_vec(s, 0, j);
            assert(r@ =~= s@.take(j as int));
            r
        },
        None => {
            let r = sub_vec(s, 0, s.len());
            assert(r@ =~= s@);
            r
        },
    }
}

// ---------------------------------------------------------------------------
// Spotify
// ---------------------------------------------------------------------------

/// The id that follows `/track/`, `/playlist/` or `/album/` (given as `p`)
/// in a Spotify link: up to the next such marker or `?`, without the
/// slashes around it.
pub open spec fn spotify_id_of(url: Seq<char>, p: Seq<char>) -> Seq<char> {
    let piece = match split_second(url, p) {
        Some(x) => x,
        None => Seq::empty(),
    };
    crate::text::trim_char(crate::text::before_char(piece, '?'), '/')
}

/// The Spotify embed page that describes `url`, or the refusal for links
/// that name no track, playlist or album.
pub open spec fn spotify_embed_url_of(url: Seq<char>) -> Result<Seq<char>, Seq<char>> {
    if contains(url, "/track/"@) {
        Ok("https://open.spotify.com/embed/track/"@ + spotify_id_of(url, "/track/"@))
    } else if contains(url, "/playlist/"@) {
        Ok("https://open.spotify.com/embed/playlist/"@ + spotify_id_of(url, "/playlist/"@))
    } else if contains(url, "/album/"@) {
        Ok("https://open.spotify.com/embed/album/"@ + spotify_id_of(url, "/album/"@))
    } else {
        Err("Unsupported Spotify URL format."@)
    }
}

fn spotify_id(u: &Vec<char>, p: &str) -> (r: String)
    ensures
        r@ == spotify_id_of(u@, p@),
{
    let pv = chars_of(p);
    let piece = match crate::text::find_chars(u, &pv) {
        Some(i) => {
            let plen = pv.len();
            let ulen = u.len();
            assert(i + plen <= ulen);
            let rest = sub_vec(u, i + plen, ulen);
            assert(rest@ =~= u@.skip(i + pv@.len()));
            before_pat_vec(&rest, &pv)
        },
        None => Vec::new(),
    };
    assert(piece@ =~= match split_second(u@, p@) { Some(x) => x, None => Seq::<char>::empty() });
    let piece2 = before_char_vec(&piece, '?');
    let (a, b) = crate::text::trim_char_bounds(&piece2, '/');
    crate::text::string_of(&piece2, a, b)
}

/// The Spotify embed page to fetch for a Spotify link.
pub fn spotify_embed_url(url: &str) -> (r: Result<String, String>)
    ensures
        match (r, spotify_embed_url_of(url@)) {
            (Ok(a), Ok(b)) => a@ == b,
            (Err(a), Err(b)) => a@ == b,
            _ => false,
        },
{
    let u = chars_of(url);
    if str_contains(url, "/track/") {
        let mut s = string_from("https://open.spotify.com/embed/track/");
        let id = spotify_id(&u, "/track/");
        s.append(id.as_str());
        Ok(s)
    } else if str_contains(url, "/playlist/") {
        let mut s = string_from("https://open.spotify.com/embed/playlist/");
        let id = spotify_id(&u, "/playlist/");
        s.append(id.as_str());
        Ok(s)
    } else if str_contains(url, "/album/") {
        let mut s = string_from("https://open.spotify.com/embed/album/");
        let id = spotify_id(&u, "/album/");
        s.append(id.as_str());
        Ok(s)
    } else {
        Err(string_from("Unsupported Spotify URL format."))
    }
}

/// The JSON payload of the `__NEXT_DATA__` script of a Spotify embed page:
/// the text after the `>` that closes the tag holding
/// `id="__NEXT_DATA__"`, up to the next `</script>`.
pub open spec fn next_data_json_of(html: Seq<char>) -> Option<Seq<char>> {
    match find(html, "id=\"__NEXT_DATA__\""@) {
        None => None,
        Some(start) => match crate::text::find_char(html.skip(start), '>') {
            None => None,
            Some(gt) => {
                let rest = html.skip(start + gt + 1);
                match find(rest, "</script>"@) {
                    None => None,
                    Some(end) => Some(rest.take(end)),
                }
            },
        },
    }
}

/// The JSON payload of a Spotify embed page, if it has one.
pub fn next_data_json(html: &str) -> (r: Option<String>)
    ensures
        opt_view(r) == next_data_json_of(html@),
{
    let h = chars_of(html);
    let marker = chars_of("id=\"__NEXT_DATA__\"");
    let start = match crate::text::find_chars(&h, &marker) {
        Some(s) => s,
        None => return None,
    };
    let from_start = sub_vec(&h, start, h.len());
    assert(from_start@ =~= h@.skip(start as int));
    let gt = match crate::text::find_char_in(&from_start, '>') {
        Some(g) => g,
        None => return None,
    };
    let rest = sub_vec(&h, start + gt + 1, h.len());
    assert(rest@ =~= h@.skip(start + gt + 1));
    let close = chars_of("</script>");
    match crate::text::find_chars(&rest, &close) {
        Some(end) => {
            let r = crate::text::string_of(&rest, 0, end);
            assert(rest@.subrange(0, end as int) =~= rest@.take(end as int));
            Some(r)
        },
        None => None,
    }
}

/// A JSON member read as text: absent, a string, or something else.
pub enum JsonText {
    Missing,
    Text(String),
    Other,
}

/// One entry of the `trackList` of a Spotify playlist or album: its
/// `title`, `subtitle` (the artists), `duration` in milliseconds and `id`,
/// each present when the JSON holds it with the right type.
pub struct SpotifyListItem {
    pub title: Option<String>,
    pub subtitle: Option<String>,
    pub duration_ms: Option<u64>,
    pub id: Option<String>,
}

/// The `entity` object of a Spotify embed page, as far as the bot reads it.
pub struct SpotifyEntity {
    /// `type`, when it is a string.
    pub entity_type: Option<String>,
    /// `name`.
    pub name: JsonText,
    /// `title`, when it is a string.
    pub title: Option<String>,
    /// For each element of `artists` (when that is an array), its `name`
    /// when that is a string.
    pub artists: Vec<Option<String>>,
    /// `duration` in milliseconds, when it is an unsigned integer.
    pub duration_ms: Option<u64>,
    /// `visualIdentity.image[0].url`, when it is a string.
    pub image_url: Option<String>,
    /// `id`, when it is a string.
    pub id: Option<String>,
    /// `trackList`, when it is an array.
    pub track_list: Option<Vec<SpotifyListItem>>,
}

/// What the bot knows of one Spotify track before finding it on YouTube.
pub struct SpotifyTrackInfo {
    pub title: String,
    pub artist: String,
    pub url: String,
    pub thumbnail: Option<String>,
    pub duration: Option<TrackDuration>,
}

/// A Spotify track as plain values.
pub struct SpotifyItemView {
    pub title: Seq<char>,
    pub artist: Seq<char>,
    pub url: Seq<char>,
    pub thumbnail: Option<Seq<char>>,
    pub duration: Option<TrackDuration>,
}

impl View for SpotifyTrackInfo {
    type V = SpotifyItemView;

    open spec fn view(&self) -> SpotifyItemView {
        SpotifyItemView {
            title: self.title@,
            artist: self.artist@,
            url: self.url@,
            thumbnail: opt_view(self.thumbnail),
            duration: self.duration,
        }
    }
}

/// The views of a sequence of Spotify tracks.
pub open spec fn item_views(v: Seq<SpotifyTrackInfo>) -> Seq<SpotifyItemView> {
    v.map_values(|t: SpotifyTrackInfo| t@)
}

/// A duration given in milliseconds.
pub open spec fn millis(ms: Option<u64>) -> Option<nat> {
    match ms {
        Some(m) => Some(m as nat * 1_000_000),
        None => None,
    }
}

/// The nanoseconds of an optional duration.
pub open spec fn nanos_of(d: Option<TrackDuration>) -> Option<nat> {
    match d {
        Some(x) => Some(x.total_nanos()),
        None => None,
    }
}

/// The Spotify page of a track id, or `fallback` when the id is empty.
pub open spec fn track_page_of(id: Option<Seq<char>>, fallback: Seq<char>) -> Seq<char> {
    if or_empty(id).len() > 0 {
        "https://open.spotify.com/track/"@ + or_empty(id)
    } else {
        fallback
    }
}

/// The names that are present, in order.
pub open spec fn present_names(ns: Seq<Option<String>>) -> Seq<Seq<char>>
    decreases ns.len(),
{
    if ns.len() == 0 {
        Seq::empty()
    } else {
        match ns.last() {
            Some(n) => present_names(ns.drop_last()).push(n@),
            None => present_names(ns.drop_last()),
        }
    }
}

/// The names joined with `sep` between them.
pub open spec fn join_with(names: Seq<Seq<char>>, sep: Seq<char>) -> Seq<char>
    decreases names.len(),
{
    if names.len() == 0 {
        Seq::empty()
    } else if names.len() == 1 {
        names[0]
    } else {
        join_with(names.drop_last(), sep) + sep + names.last()
    }
}

/// The artist text: the names joined by `, `, or `Spotify Artist` when
/// there is none (or they join to nothing).
pub open spec fn artist_text(names: Seq<Seq<char>>) -> Seq<char> {
    let j = join_with(names, ", "@);
    if j.len() == 0 {
        "Spotify Artist"@
    } else {
        j
    }
}

/// The title of a single-track entity: `name` when present (as text, or
/// empty when it is no string), else `title`.
pub open spec fn entity_title(e: SpotifyEntity) -> Seq<char> {
    match e.name {
        JsonText::Text(s) => s@,
        JsonText::Other => Seq::empty(),
        JsonText::Missing => or_empty(opt_view(e.title)),
    }
}

/// `v` is the track described by a single-track entity.
pub open spec fn is_entity_track(e: SpotifyEntity, url: Seq<char>, v: SpotifyItemView) -> bool {
    &&& v.title == entity_title(e)
    &&& v.artist == artist_text(present_names(e.artists@))
    &&& v.url == track_page_of(opt_view(e.id), url)
    &&& v.thumbnail == opt_view(e.image_url)
    &&& nanos_of(v.duration) == millis(e.duration_ms)
}

/// `v` is the track described by a playlist or album entry.
pub open spec fn is_list_track(it: SpotifyListItem, url: Seq<char>, v: SpotifyItemView) -> bool {
    let subtitle = or_empty(opt_view(it.subtitle));
    &&& v.title == or_empty(opt_view(it.title))
    &&& v.artist == if subtitle.len() == 0 { "Spotify Artist"@ } else { subtitle }
    &&& v.url == track_page_of(opt_view(it.id), url)
    &&& v.thumbnail is None
    &&& nanos_of(v.duration) == millis(it.duration_ms)
}

/// `vs` are the tracks of the entries `its` that have a title, in order.
pub open spec fn list_gives(its: Seq<SpotifyListItem>, url: Seq<char>, vs: Seq<SpotifyItemView>) -> bool
    decreases its.len(),
{
    if its.len() == 0 {
        vs.len() == 0
    } else if or_empty(opt_view(its.last().title)).len() > 0 {
        &&& vs.len() > 0
        &&& is_list_track(its.last(), url, vs.last())
        &&& list_gives(its.drop_last(), url, vs.drop_last())
    } else {
        list_gives(its.drop_last(), url, vs)
    }
}

/// `vs` are the tracks that a Spotify entity describes for link `url`
/// under playlist limit `max_items` (0 for none): the track itself when
/// the entity is a track with a title, else the titled entries of its
/// track list, cut at the limit.
pub open spec fn entity_gives(e: Option<SpotifyEntity>, url: Seq<char>, max_items: usize, vs: Seq<SpotifyItemView>) -> bool {
    match e {
        None => vs.len() == 0,
        Some(ent) => if or_empty(opt_view(ent.entity_type)) == "track"@ {
            if entity_title(ent).len() > 0 {
                vs.len() == 1 && is_entity_track(ent, url, vs[0])
            } else {
                vs.len() == 0
            }
        } else {
            match ent.track_list {
                None => vs.len() == 0,
                Some(list) => {
                    let limit: nat = if max_items > 0 { max_items as nat } else { usize::MAX as nat };
                    let chosen = if list@.len() <= limit { list@ } else { list@.take(limit as int) };
                    list_gives(chosen, url, vs)
                },
            }
        },
    }
}

/// The message when a Spotify link yields no track.
pub open spec fn no_spotify_tracks_message() -> Seq<char> {
    "Could not extract tracks from Spotify link."@
}

fn duration_from_millis(ms: Option<u64>) -> (r: Option<TrackDuration>)
    ensures
        nanos_of(r) == millis(ms),
{
    match ms {
        Some(m) => Some(TrackDuration::from_millis(m)),
        None => None,
    }
}

fn track_page(id: &Option<String>, fallback: &str) -> (r: String)
    ensures
        r@ == track_page_of(opt_view(*id), fallback@),
{
    match id {
        Some(s) => {
            if s.as_str().unicode_len() > 0 {
                let mut r = string_from("https://open.spotify.com/track/");
                r.append(s.as_str());
                r
            } else {
                string_from(fallback)
            }
        },
        None => string_from(fallback),
    }
}

proof fn lemma_present_names_len(ns: Seq<Option<String>>)
    ensures
        present_names(ns).len() <= ns.len(),
    decreases ns.len(),
{
    if ns.len() > 0 {
        lemma_present_names_len(ns.drop_last());
    }
}

proof fn lemma_join_with_push(names: Seq<Seq<char>>, n: Seq<char>, sep: Seq<char>)
    ensures
        join_with(names.push(n), sep) == if names.len() == 0 {
            n
        } else {
            join_with(names, sep) + sep + n
        },
{
    assert(names.push(n).drop_last() =~= names);
}

/// The artist names of an entity joined by `, `.
fn join_artists(artists: &Vec<Option<String>>) -> (r: String)
    ensures
        r@ == join_with(present_names(artists@), ", "@),
{
    let mut out = String::new();
    let mut count: usize = 0;
    let mut i: usize = 0;
    while i < artists.len()
        invariant
            i <= artists@.len(),
            out@ == join_with(present_names(artists@.take(i as int)), ", "@),
            count == present_names(artists@.take(i as int)).len(),
        decreases artists@.len() - i,
    {
        let ghost prev = artists@.take(i as int);
        assert(artists@.take(i + 1).drop_last() =~= prev);
        match &artists[i] {
            Some(name) => {
                proof {
                    lemma_join_with_push(present_names(prev), name@, ", "@);
                }
                proof {
                    lemma_present_names_len(prev);
                }
                if count > 0 {
                    out.append(", ");
                }
                out.append(name.as_str());
                assert(count < artists@.len());
                count += 1;
            },
            None => {},
        }
        i += 1;
    }
    assert(artists@.take(artists@.len() as int) =~= artists@);
    out
}

/// The Spotify tracks that an embed page's entity describes, for the
/// Spotify link `url`, with at most `max_items` tracks from a playlist or
/// album (0 meaning no limit); an error when it describes none.
pub fn spotify_items_from_entity(entity: &Option<SpotifyEntity>, url: &str, max_items: usize) -> (r: Result<Vec<SpotifyTrackInfo>, String>)
    ensures
        match r {
            Ok(v) => v@.len() > 0 && entity_gives(*entity, url@, max_items, item_views(v@)),
            Err(m) => m@ == no_spotify_tracks_message() && entity_gives(*entity, url@, max_items, Seq::empty()),
        },
{
    let mut items: Vec<SpotifyTrackInfo> = Vec::new();
    match entity {
        None => {},
        Some(ent) => {
            let is_track = match &ent.entity_type {
                Some(t) => str_eq(t.as_str(), "track"),
                None => {
                    proof { reveal_strlit("track"); }
                    false
                },
            };
            if is_track {
                let title = match &ent.name {
                    JsonText::Text(s) => s.clone(),
                    JsonText::Other => String::new(),
                    JsonText::Missing => match &ent.title {
                        Some(t) => t.clone(),
                        None => String::new(),
                    },
                };
                if title.as_str().unicode_len() > 0 {
                    let joined = join_artists(&ent.artists);
                    let artist = if joined.as_str().unicode_len() == 0 {
                        string_from("Spotify Artist")
                    } else {
                        joined
                    };
                    let info = SpotifyTrackInfo {
                        title,
                        artist,
                        url: track_page(&ent.id, url),
                        thumbnail: copy_opt(&ent.image_url),
                        duration: duration_from_millis(ent.duration_ms),
                    };
                    items.push(info);
                    assert(item_views(items@)[0] == items@[0]@);
                }
            } else {
                match &ent.track_list {
                    None => {},
                    Some(list) => {
                        let limit: usize = if max_items > 0 { max_items } else { usize::MAX };
                        let n = if list.len() <= limit { list.len() } else { limit };
                        let ghost chosen = if list@.len() <= limit { list@ } else { list@.take(limit as int) };
                        assert(chosen =~= list@.take(n as int));
                        let mut i: usize = 0;
                        while i < n
                            invariant
                                n <= list@.len(),
                                i <= n,
                                list_gives(list@.take(i as int), url@, item_views(items@)),
                            decreases n - i,
                        {
                            let it = &list[i];
                            assert(list@.take(i + 1).drop_last() =~= list@.take(i as int));
                            assert(list@.take(i + 1).last() == list@[i as int]);
                            let title = match &it.title {
                                Some(t) => t.clone(),
                                None => String::new(),
                            };
                            if title.as_str().unicode_len() > 0 {
                                let subtitle = match &it.subtitle {
                                    Some(t) => t.clone(),
                                    None => String::new(),
                                };
                                let artist = if subtitle.as_str().unicode_len() == 0 {
                                    string_from("Spotify Artist")
                                } else {
                                    subtitle
                                };
                                let info = SpotifyTrackInfo {
                                    title,
                                    artist,
                                    url: track_page(&it.id, url),
                                    thumbnail: None,
                                    duration: duration_from_millis(it.duration_ms),
                                };
                                let ghost before = items@;
                                items.push(info);
                                assert(item_views(items@).drop_last() =~= item_views(before));
                            }
                            i += 1;
                        }
                        assert(list@.take(n as int) =~= chosen);
                    },
                }
            }
        },
    }
    if items.len() == 0 {
        assert(item_views(items@) =~= Seq::<SpotifyItemView>::empty());
        return Err(string_from("Could not extract tracks from Spotify link."));
    }
    Ok(items)
}

// ---------------------------------------------------------------------------
// Spotify tracks as playable tracks
// ---------------------------------------------------------------------------

/// The YouTube search text for a Spotify track: `artist - title`.
pub open spec fn spotify_search_of(v: SpotifyItemView) -> Seq<char> {
    v.artist + " - "@ + v.title
}

/// The search that finds a Spotify track on YouTube when it is played.
pub open spec fn deferred_stream_of(v: SpotifyItemView) -> Seq<char> {
    "ytsearch1:"@ + spotify_search_of(v)
}

/// `t` is the playable track made of Spotify track `v`, with the given
/// stream, length and cover.
pub open spec fn is_spotify_track(
    v: SpotifyItemView,
    stream: Seq<char>,
    duration: Option<TrackDuration>,
    thumbnail: Option<Seq<char>>,
    t: TrackMetadata,
) -> bool {
    &&& t.title@ == v.title
    &&& t.url@ == v.url
    &&& t.stream_url@ == stream
    &&& t.duration == duration
    &&& opt_view(t.thumbnail) == thumbnail
    &&& opt_view(t.author) == Some(v.artist)
    &&& t.source@ == "Spotify"@
    &&& t.requester is None
    &&& t.view_count is None
}

/// The YouTube search text for a Spotify track: `artist - title`.
pub fn spotify_search_query(item: &SpotifyTrackInfo) -> (r: String)
    ensures
        r@ == spotify_search_of(item@),
{
    let mut r = item.artist.clone();
    r.append(" - ");
    r.append(item.title.as_str());
    r
}

fn deferred_stream(item: &SpotifyTrackInfo) -> (r: String)
    ensures
        r@ == deferred_stream_of(item@),
{
    let mut r = string_from("ytsearch1:");
    let q = spotify_search_query(item);
    r.append(q.as_str());
    r
}

/// `ts` are the playable tracks of the Spotify tracks `items`: the first
/// takes its stream (and, where Spotify gives none, its length and cover)
/// from `first_match` when there is one, else a one-result YouTube search;
/// every other track keeps such a search as its stream.
pub open spec fn spotify_tracks_give(items: Seq<SpotifyTrackInfo>, first_match: Option<TrackMetadata>, ts: Seq<TrackMetadata>) -> bool {
        &&& items.len() > 0
        &&& ts.len() == items.len()
        &&& is_spotify_track(
            items[0]@,
            match first_match {
                Some(y) => y.stream_url@,
                None => deferred_stream_of(items[0]@),
            },
            match items[0].duration {
                Some(d) => Some(d),
                None => match first_match {
                    Some(y) => y.duration,
                    None => None,
                },
            },
            match items[0].thumbnail {
                Some(t) => Some(t@),
                None => match first_match {
                    Some(y) => opt_view(y.thumbnail),
                    None => None,
                },
            },
            ts[0],
        )
        &&& forall|i: int|
            1 <= i < ts.len() ==> is_spotify_track(
                #[trigger] items[i]@,
                deferred_stream_of(items[i]@),
                items[i].duration,
                opt_view(items[i].thumbnail),
                ts[i],
            )
}

/// The playable tracks of a Spotify link. The first track takes its
/// stream (and, where Spotify gives none, its length and cover) from
/// `first_match`, the YouTube track found for it, when there is one, else
/// a one-result YouTube search; every other track keeps such a search as
/// its stream, to be run when it is played. An error when there are no
/// tracks.
pub fn spotify_tracks(items: &Vec<SpotifyTrackInfo>, first_match: &Option<TrackMetadata>) -> (r: Result<Vec<TrackMetadata>, String>)
    ensures
        match r {
            Err(m) => items@.len() == 0 && m@ == no_spotify_tracks_message(),
            Ok(ts) => spotify_tracks_give(items@, *first_match, ts@),
        },
{
    if items.len() == 0 {
        return Err(string_from("Could not extract tracks from Spotify link."));
    }
    let mut out: Vec<TrackMetadata> = Vec::new();
    let first = &items[0];
    let stream = match first_match {
        Some(y) => y.stream_url.clone(),
        None => deferred_stream(first),
    };
    let duration = match first.duration {
        Some(d) => Some(d),
        None => match first_match {
            Some(y) => y.duration,
            None => None,
        },
    };
    let thumbnail = match &first.thumbnail {
        Some(t) => Some(t.clone()),
        None => match first_match {
            Some(y) => copy_opt(&y.thumbnail),
            None => None,
        },
    };
    out.push(TrackMetadata {
        title: first.title.clone(),
        url: first.url.clone(),
        stream_url: stream,
        duration,
        thumbnail,
        author: Some(first.artist.clone()),
        source: string_from("Spotify"),
        requester: None,
        view_count: None,
    });
    let mut i: usize = 1;
    while i < items.len()
        invariant
            1 <= i <= items@.len(),
            out@.len() == i,
            is_spotify_track(
                items@[0]@,
                match first_match {
                    Some(y) => y.stream_url@,
                    None => deferred_stream_of(items@[0]@),
                },
                match items@[0].duration {
                    Some(d) => Some(d),
                    None => match first_match {
                        Some(y) => y.duration,
                        None => None,
                    },
                },
                match items@[0].thumbnail {
                    Some(t) => Some(t@),
                    None => match first_match {
                        Some(y) => opt_view(y.thumbnail),
                        None => None,
                    },
                },
                out@[0],
            ),
            forall|j: int|
                1 <= j < i ==> is_spotify_track(
                    #[trigger] items@[j]@,
                    deferred_stream_of(items@[j]@),
                    items@[j].duration,
                    opt_view(items@[j].thumbnail),
                    out@[j],
                ),
        decreases items@.len() - i,
    {
        let item = &items[i];
        out.push(TrackMetadata {
            title: item.title.clone(),
            url: item.url.clone(),
            stream_url: deferred_stream(item),
            duration: item.duration,
            thumbnail: copy_opt(&item.thumbnail),
            author: Some(item.artist.clone()),
            source: string_from("Spotify"),
            requester: None,
            view_count: None,
        });
        i += 1;
    }
    Ok(out)
}

/// Each playable Spotify track keeps its Spotify item's page as its link,
/// its title and its artist, and is marked as coming from Spotify, in the
/// items' order; only the stream (what is played) comes from YouTube.
pub proof fn law_spotify_tracks_keep_their_pages(items: Seq<SpotifyTrackInfo>, first_match: Option<TrackMetadata>, ts: Seq<TrackMetadata>)
    requires
        spotify_tracks_give(items, first_match, ts),
    ensures
        ts.len() == items.len(),
        forall|i: int| 0 <= i < ts.len() ==> {
            &&& (#[trigger] ts[i]).url@ == items[i].url@
            &&& ts[i].title@ == items[i].title@
            &&& ts[i].author matches Some(a) && a@ == items[i].artist@
            &&& ts[i].source@ == "Spotify"@
        },
{
    assert forall|i: int| 0 <= i < ts.len() implies {
        &&& (#[trigger] ts[i]).url@ == items[i].url@
        &&& ts[i].title@ == items[i].title@
        &&& ts[i].author matches Some(a) && a@ == items[i].artist@
        &&& ts[i].source@ == "Spotify"@
    } by {
        if i > 0 {
            assert(is_spotify_track(
                items[i]@,
                deferred_stream_of(items[i]@),
                items[i].duration,
                opt_view(items[i].thumbnail),
                ts[i],
            ));
        }
    }
}

// ---------------------------------------------------------------------------
// YouTube video ids
// ---------------------------------------------------------------------------

/// The number of bytes of a character in UTF-8.
pub open spec fn utf8_width(c: char) -> nat {
    let u = c as u32;
    if u < 0x80 {
        1
    } else if u < 0x800 {
        2
    } else if u < 0x10000 {
        3
    } else {
        4
    }
}

/// The number of bytes of a text in UTF-8.
pub open spec fn utf8_len(s: Seq<char>) -> nat
    decreases s.len(),
{
    if s.len() == 0 {
        0
    } else {
        utf8_width(s[0]) + utf8_len(s.drop_first())
    }
}

/// The characters that make up exactly the first `n` bytes of `s`; `None`
/// when `s` is shorter, or byte `n` falls inside a character (where
/// slicing `&s[..n]` panics).
pub open spec fn take_bytes(s: Seq<char>, n: nat) -> Option<Seq<char>>
    decreases s.len(),
{
    if n == 0 {
        Some(Seq::empty())
    } else if s.len() == 0 || utf8_width(s[0]) > n {
        None
    } else {
        match take_bytes(s.drop_first(), (n - utf8_width(s[0])) as nat) {
            Some(t) => Some(seq![s[0]] + t),
            None => None,
        }
    }
}

/// The text where a YouTube link keeps its video id: after `watch?v=`
/// (or, in links without it, after `youtu.be/`), up to `&` or `?`.
pub open spec fn youtube_id_field(url: Seq<char>) -> Option<Seq<char>> {
    match find(url, "watch?v="@) {
        Some(p) => Some(crate::text::before_char(crate::text::before_char(url.skip(p + 8), '&'), '?')),
        None => match find(url, "youtu.be/"@) {
            Some(p) => Some(crate::text::before_char(crate::text::before_char(url.skip(p + 9), '&'), '?')),
            None => None,
        },
    }
}

/// What reading a video id from a link gives.
pub enum YoutubeIdScan {
    /// No id: no id field, or one shorter than eleven bytes.
    NoId,
    /// The first eleven bytes of the id field.
    Id(String),
    /// The eleventh byte of the id field falls inside a character; taking
    /// the id there (`&id[..11]`) panics.
    CutInsideChar,
}

/// What reading a video id from `url` gives.
pub open spec fn youtube_scan_of(url: Seq<char>) -> Option<Option<Seq<char>>> {
    match youtube_id_field(url) {
        None => Some(None),
        Some(id) => if utf8_len(id) < 11 {
            Some(None)
        } else {
            match take_bytes(id, 11) {
                Some(t) => Some(Some(t)),
                None => None,
            }
        },
    }
}

/// Reading the id does not panic.
pub open spec fn youtube_id_defined(url: Seq<char>) -> bool {
    youtube_scan_of(url) is Some
}

/// The video id of a link, where reading it does not panic.
pub open spec fn youtube_id_of(url: Seq<char>) -> Option<Seq<char>> {
    match youtube_scan_of(url) {
        Some(r) => r,
        None => None,
    }
}

proof fn lemma_utf8_len_single(c: char)
    ensures
        utf8_len(seq![c]) == utf8_width(c),
{
    assert(seq![c].drop_first() =~= Seq::<char>::empty());
    assert(utf8_len(Seq::<char>::empty()) == 0);
}

proof fn lemma_utf8_len_concat(a: Seq<char>, b: Seq<char>)
    ensures
        utf8_len(a + b) == utf8_len(a) + utf8_len(b),
    decreases a.len(),
{
    if a.len() == 0 {
        assert(a + b =~= b);
    } else {
        assert((a + b).drop_first() =~= a.drop_first() + b);
        lemma_utf8_len_concat(a.drop_first(), b);
    }
}

proof fn lemma_take_bytes_at(s: Seq<char>, i: int, n: nat)
    requires
        0 <= i <= s.len(),
        utf8_len(s.take(i)) == n,
    ensures
        take_bytes(s, n) == Some(s.take(i)),
    decreases i,
{
    if i == 0 {
        assert(s.take(0) =~= Seq::<char>::empty());
    } else {
        assert(s.take(i).drop_first() =~= s.drop_first().take(i - 1));
        assert(s.take(i)[0] == s[0]);
        lemma_take_bytes_at(s.drop_first(), i - 1, (n - utf8_width(s[0])) as nat);
        assert(seq![s[0]] + s.drop_first().take(i - 1) =~= s.take(i));
    }
}

proof fn lemma_take_bytes_inside(s: Seq<char>, i: int, n: nat)
    requires
        0 <= i < s.len(),
        utf8_len(s.take(i)) < n < utf8_len(s.take(i)) + utf8_width(s[i]),
    ensures
        take_bytes(s, n) is None,
    decreases i,
{
    if i == 0 {
        assert(s.take(0) =~= Seq::<char>::empty());
    } else {
        assert(s.take(i).drop_first() =~= s.drop_first().take(i - 1));
        assert(s.take(i)[0] == s[0]);
        assert(s.drop_first()[i - 1] == s[i]);
        lemma_take_bytes_inside(s.drop_first(), i - 1, (n - utf8_width(s[0])) as nat);
    }
}

fn char_width(c: char) -> (w: usize)
    ensures
        w == utf8_width(c),
{
    let u = c as u32;
    if u < 0x80 {
        1
    } else if u < 0x800 {
        2
    } else if u < 0x10000 {
        3
    } else {
        4
    }
}

fn id_field_after(u: &Vec<char>, start: usize) -> (r: Vec<char>)
    requires
        start <= u@.len(),
    ensures
        r@ == crate::text::before_char(crate::text::before_char(u@.skip(start as int), '&'), '?'),
{
    let rest = sub_vec(u, start, u.len());
    assert(rest@ =~= u@.skip(start as int));
    let a = before_char_vec(&rest, '&');
    before_char_vec(&a, '?')
}

/// Reads the video id of a YouTube link: the first eleven bytes after
/// `watch?v=` (or, without it, after `youtu.be/`), the id ending at `&` or
/// `?`.
pub fn scan_youtube_id(url: &str) -> (r: YoutubeIdScan)
    ensures
        match r {
            YoutubeIdScan::NoId => youtube_scan_of(url@) == Some(None::<Seq<char>>),
            YoutubeIdScan::Id(s) => youtube_scan_of(url@) == Some(Some(s@)),
            YoutubeIdScan::CutInsideChar => youtube_scan_of(url@) is None,
        },
{
    let u = chars_of(url);
    let watch = chars_of("watch?v=");
    let short = chars_of("youtu.be/");
    proof {
        reveal_strlit("watch?v=");
        reveal_strlit("youtu.be/");
    }
    let ulen = u.len();
    let id = match crate::text::find_chars(&u, &watch) {
        Some(p) => {
            assert(p + 8 <= ulen);
            id_field_after(&u, p + 8)
        },
        None => match crate::text::find_chars(&u, &short) {
            Some(p) => {
                assert(p + 9 <= ulen);
                id_field_after(&u, p + 9)
            },
            None => return YoutubeIdScan::NoId,
        },
    };
    assert(youtube_id_field(url@) == Some(id@));
    let mut bytes: usize = 0;
    let mut i: usize = 0;
    while i < id.len() && bytes < 11
        invariant
            i <= id@.len(),
            bytes == utf8_len(id@.take(i as int)),
            bytes <= 14,
            i > 0 ==> utf8_len(id@.take(i - 1)) < 11,
        decreases id@.len() - i,
    {
        let w = char_width(id[i]);
        proof {
            lemma_utf8_len_concat(id@.take(i as int), seq![id@[i as int]]);
            assert(id@.take(i as int) + seq![id@[i as int]] =~= id@.take(i + 1));
            lemma_utf8_len_single(id@[i as int]);
        }
        bytes = bytes + w;
        i += 1;
    }
    proof {
        lemma_utf8_len_concat(id@.take(i as int), id@.skip(i as int));
        assert(id@.take(i as int) + id@.skip(i as int) =~= id@);
    }
    if bytes < 11 {
        assert(id@.take(i as int) =~= id@);
        return YoutubeIdScan::NoId;
    }
    if bytes == 11 {
        proof {
            lemma_take_bytes_at(id@, i as int, 11);
        }
        let r = sub_vec(&id, 0, i);
        assert(r@ =~= id@.take(i as int));
        return YoutubeIdScan::Id(crate::text::string_of(&r, 0, r.len()));
    }
    proof {
        let j = i - 1;
        assert(id@.take(j) + seq![id@[j]] =~= id@.take(i as int));
        lemma_utf8_len_concat(id@.take(j), seq![id@[j]]);
        lemma_utf8_len_single(id@[j]);
        lemma_take_bytes_inside(id@, j, 11);
    }
    YoutubeIdScan::CutInsideChar
}

/// The video id of a YouTube link, for links where reading it does not
/// panic.
pub fn extract_youtube_id(url: &str) -> (r: Option<String>)
    requires
        youtube_id_defined(url@),
    ensures
        opt_view(r) == youtube_id_of(url@),
{
    match scan_youtube_id(url) {
        YoutubeIdScan::NoId => None,
        YoutubeIdScan::Id(s) => Some(s),
        YoutubeIdScan::CutInsideChar => None,
    }
}

/// A video id always takes exactly eleven bytes.
pub proof fn law_youtube_id_eleven_bytes(url: Seq<char>)
    ensures
        youtube_id_of(url) matches Some(id) ==> utf8_len(id) == 11,
{
    match youtube_id_field(url) {
        Some(idf) => {
            if utf8_len(idf) >= 11 {
                lemma_take_bytes_len(idf, 11);
            }
        },
        None => {},
    }
}

proof fn lemma_take_bytes_len(s: Seq<char>, n: nat)
    ensures
        take_bytes(s, n) matches Some(t) ==> utf8_len(t) == n,
    decreases s.len(),
{
    if n > 0 && s.len() > 0 && utf8_width(s[0]) <= n {
        lemma_take_bytes_len(s.drop_first(), (n - utf8_width(s[0])) as nat);
        match take_bytes(s.drop_first(), (n - utf8_width(s[0])) as nat) {
            Some(t) => {
                assert((seq![s[0]] + t).drop_first() =~= t);
            },
            None => {},
        }
    }
}

// ---------------------------------------------------------------------------
// Autoplay recommendations
// ---------------------------------------------------------------------------

/// Reading a video id from some link of a track would panic (its eleventh
/// byte falls inside a character).
pub struct IdCutInsideChar;

/// Reading a track's video id (from its link, else from its stream) does
/// not panic.
pub open spec fn track_id_defined(t: TrackMetadata) -> bool {
    &&& youtube_id_defined(t.url@)
    &&& youtube_id_of(t.url@) is None ==> youtube_id_defined(t.stream_url@)
}

/// The video id of a track: from its link, else from its stream.
pub open spec fn track_video_id(t: TrackMetadata) -> Option<Seq<char>> {
    match youtube_id_of(t.url@) {
        Some(x) => Some(x),
        None => youtube_id_of(t.stream_url@),
    }
}

/// The video id of a track, or `Err` where reading it would panic.
pub fn track_video_id_of(t: &TrackMetadata) -> (r: Result<Option<String>, IdCutInsideChar>)
    ensures
        match r {
            Err(_) => !track_id_defined(*t),
            Ok(x) => track_id_defined(*t) && opt_view(x) == track_video_id(*t),
        },
{
    match scan_youtube_id(t.url.as_str()) {
        YoutubeIdScan::Id(x) => Ok(Some(x)),
        YoutubeIdScan::CutInsideChar => Err(IdCutInsideChar),
        YoutubeIdScan::NoId => match scan_youtube_id(t.stream_url.as_str()) {
            YoutubeIdScan::Id(x) => Ok(Some(x)),
            YoutubeIdScan::CutInsideChar => Err(IdCutInsideChar),
            YoutubeIdScan::NoId => Ok(None),
        },
    }
}

/// `h` in the history marks candidate `c` (whose video id is `cid`) as
/// already played: same title ignoring ASCII case, same non-empty link, or
/// same video id.
pub open spec fn marks(h: TrackMetadata, c: TrackMetadata, cid: Option<Seq<char>>) -> bool {
    ||| eq_ignore_ascii_case(h.title@, c.title@)
    ||| (h.url@.len() > 0 && h.url@ == c.url@)
    ||| (cid is Some && track_video_id(h) == cid)
}

/// Some track of the history marks the candidate.
pub open spec fn in_history(hs: Seq<TrackMetadata>, c: TrackMetadata, cid: Option<Seq<char>>) -> bool
    decreases hs.len(),
{
    if hs.len() == 0 {
        false
    } else if marks(hs[0], c, cid) {
        true
    } else {
        in_history(hs.drop_first(), c, cid)
    }
}

/// Going through the history (in order, stopping at the first mark) never
/// reads a video id that would panic.
pub open spec fn history_defined(hs: Seq<TrackMetadata>, c: TrackMetadata, cid: Option<Seq<char>>) -> bool
    decreases hs.len(),
{
    if hs.len() == 0 {
        true
    } else {
        let h = hs[0];
        if eq_ignore_ascii_case(h.title@, c.title@) || (h.url@.len() > 0 && h.url@ == c.url@) {
            true
        } else if cid is Some {
            track_id_defined(h) && (track_video_id(h) == cid || history_defined(hs.drop_first(), c, cid))
        } else {
            history_defined(hs.drop_first(), c, cid)
        }
    }
}

/// Candidate `c` repeats the seed or something already played.
pub open spec fn is_duplicate(c: TrackMetadata, seed: TrackMetadata, hs: Seq<TrackMetadata>) -> bool {
    ||| eq_ignore_ascii_case(c.title@, seed.title@)
    ||| c.url@ == seed.url@
    ||| in_history(hs, c, track_video_id(c))
}

/// Deciding whether `c` is a duplicate never reads a video id that would
/// panic.
pub open spec fn duplicate_defined(c: TrackMetadata, seed: TrackMetadata, hs: Seq<TrackMetadata>) -> bool {
    ||| eq_ignore_ascii_case(c.title@, seed.title@)
    ||| c.url@ == seed.url@
    ||| (track_id_defined(c) && history_defined(hs, c, track_video_id(c)))
}

/// The recommendation among `cs`: the first candidate that is no
/// duplicate (`Some(None)` when all are); `None` where deciding it would
/// read a video id that panics.
pub open spec fn pick_of(cs: Seq<TrackMetadata>, seed: TrackMetadata, hs: Seq<TrackMetadata>) -> Option<Option<TrackMetadata>>
    decreases cs.len(),
{
    if cs.len() == 0 {
        Some(None)
    } else if !duplicate_defined(cs[0], seed, hs) {
        None
    } else if is_duplicate(cs[0], seed, hs) {
        pick_of(cs.drop_first(), seed, hs)
    } else {
        Some(Some(cs[0]))
    }
}

fn title_eq_ic(a: &String, b: &String) -> (r: bool)
    ensures
        r == eq_ignore_ascii_case(a@, b@),
{
    let x = chars_of(a.as_str());
    let y = chars_of(b.as_str());
    crate::text::chars_eq_ignore_ascii_case(&x, &y)
}

fn opt_string_eq(a: &Option<String>, b: &Option<String>) -> (r: bool)
    ensures
        r == (opt_view(*a) == opt_view(*b)),
{
    match (a, b) {
        (Some(x), Some(y)) => str_eq(x.as_str(), y.as_str()),
        (None, None) => true,
        _ => false,
    }
}

/// Whether some track of `hs` marks `c`, or `Err` where going through the
/// history would read a video id that panics.
fn check_history(hs: &Vec<TrackMetadata>, c: &TrackMetadata, cid: &Option<String>) -> (r: Result<bool, IdCutInsideChar>)
    ensures
        match r {
            Err(_) => !history_defined(hs@, *c, opt_view(*cid)),
            Ok(b) => history_defined(hs@, *c, opt_view(*cid)) && b == in_history(hs@, *c, opt_view(*cid)),
        },
{
    let mut i: usize = 0;
    assert(hs@.skip(0) =~= hs@);
    while i < hs.len()
        invariant
            i <= hs@.len(),
            history_defined(hs@, *c, opt_view(*cid)) == history_defined(hs@.skip(i as int), *c, opt_view(*cid)),
            in_history(hs@, *c, opt_view(*cid)) == in_history(hs@.skip(i as int), *c, opt_view(*cid)),
        decreases hs@.len() - i,
    {
        let h = &hs[i];
        let ghost rest = hs@.skip(i as int);
        assert(rest[0] == hs@[i as int]);
        assert(rest.drop_first() =~= hs@.skip(i + 1));
        if title_eq_ic(&h.title, &c.title) {
            return Ok(true);
        }
        if h.url.as_str().unicode_len() > 0 && str_eq(h.url.as_str(), c.url.as_str()) {
            return Ok(true);
        }
        match cid {
            Some(_) => {
                match track_video_id_of(h) {
                    Err(e) => return Err(e),
                    Ok(hid) => {
                        if opt_string_eq(&hid, cid) {
                            return Ok(true);
                        }
                    },
                }
            },
            None => {},
        }
        i += 1;
    }
    assert(hs@.skip(i as int) =~= Seq::<TrackMetadata>::empty());
    Ok(false)
}

/// Whether `c` repeats the seed or something already played, or `Err`
/// where deciding it would read a video id that panics.
fn check_duplicate(c: &TrackMetadata, seed: &TrackMetadata, hs: &Vec<TrackMetadata>) -> (r: Result<bool, IdCutInsideChar>)
    ensures
        match r {
            Err(_) => !duplicate_defined(*c, *seed, hs@),
            Ok(b) => duplicate_defined(*c, *seed, hs@) && b == is_duplicate(*c, *seed, hs@),
        },
{
    if title_eq_ic(&c.title, &seed.title) || str_eq(c.url.as_str(), seed.url.as_str()) {
        return Ok(true);
    }
    let cid = match track_video_id_of(c) {
        Err(e) => return Err(e),
        Ok(x) => x,
    };
    check_history(hs, c, &cid)
}

/// The autoplay recommendation among `candidates`: the first one that is
/// neither the seed (same title ignoring ASCII case, or same link) nor
/// marked by the history (same title, same non-empty link, or same video
/// id); `Ok(None)` when every candidate is a duplicate. `Err` stands for
/// the inputs where deciding this reads a video id whose eleventh byte
/// falls inside a character, which panics.
pub fn pick_recommendation(candidates: &Vec<TrackMetadata>, seed: &TrackMetadata, history: &Vec<TrackMetadata>) -> (r: Result<Option<TrackMetadata>, IdCutInsideChar>)
    ensures
        match r {
            Err(_) => pick_of(candidates@, *seed, history@) is None,
            Ok(x) => pick_of(candidates@, *seed, history@) == Some(x),
        },
{
    let mut i: usize = 0;
    assert(candidates@.skip(0) =~= candidates@);
    while i < candidates.len()
        invariant
            i <= candidates@.len(),
            pick_of(candidates@, *seed, history@) == pick_of(candidates@.skip(i as int), *seed, history@),
        decreases candidates@.len() - i,
    {
        let ghost rest = candidates@.skip(i as int);
        assert(rest[0] == candidates@[i as int]);
        assert(rest.drop_first() =~= candidates@.skip(i + 1));
        match check_duplicate(&candidates[i], seed, history) {
            Err(e) => return Err(e),
            Ok(true) => {},
            Ok(false) => return Ok(Some(candidates[i].duplicate())),
        }
        i += 1;
    }
    assert(candidates@.skip(i as int) =~= Seq::<TrackMetadata>::empty());
    Ok(None)
}

/// A recommendation is never a duplicate of the seed or of the history.
pub proof fn law_recommendation_is_fresh(cs: Seq<TrackMetadata>, seed: TrackMetadata, hs: Seq<TrackMetadata>)
    ensures
        pick_of(cs, seed, hs) matches Some(Some(t)) ==> !is_duplicate(t, seed, hs) && cs.contains(t),
    decreases cs.len(),
{
    if cs.len() > 0 && duplicate_defined(cs[0], seed, hs) {
        if is_duplicate(cs[0], seed, hs) {
            law_recommendation_is_fresh(cs.drop_first(), seed, hs);
            match pick_of(cs, seed, hs) {
                Some(Some(t)) => {
                    let k = choose|k: int| 0 <= k < cs.drop_first().len() && cs.drop_first()[k] == t;
                    assert(cs[k + 1] == t);
                },
                _ => {},
            }
        } else {
            assert(cs[0] == cs[0]);
        }
    }
}

/// The YouTube Mix playlist of a video id.
pub open spec fn mix_url_of(id: Seq<char>) -> Seq<char> {
    "https://www.youtube.com/watch?v="@ + id + "&list=RD"@ + id
}

/// The YouTube Mix playlist seeded by a track's video id (`None` for a
/// track without one); `Err` where reading the id would panic.
pub fn recommendation_mix_url(seed: &TrackMetadata) -> (r: Result<Option<String>, IdCutInsideChar>)
    ensures
        match r {
            Err(_) => !track_id_defined(*seed),
            Ok(x) => track_id_defined(*seed) && opt_view(x) == match track_video_id(*seed) {
                Some(id) => Some(mix_url_of(id)),
                None => None,
            },
        },
{
    match track_video_id_of(seed) {
        Err(e) => Err(e),
        Ok(None) => Ok(None),
        Ok(Some(id)) => {
            let mut u = string_from("https://www.youtube.com/watch?v=");
            u.append(id.as_str());
            u.append("&list=RD");
            u.append(id.as_str());
            Ok(Some(u))
        },
    }
}

/// `s` with every occurrence of the (non-empty) pattern `p` removed, left
/// to right, as `s.replace(p, "")` does.
pub open spec fn remove_all(s: Seq<char>, p: Seq<char>) -> Seq<char>
    decreases s.len(),
{
    if p.len() == 0 {
        s
    } else {
        match find(s, p) {
            Some(i) => if 0 <= i && i + p.len() <= s.len() {
                s.take(i) + remove_all(s.skip(i + p.len()), p)
            } else {
                s
            },
            None => s,
        }
    }
}

/// The title without the usual video tags.
pub open spec fn clean_title_of(t: Seq<char>) -> Seq<char> {
    let t1 = remove_all(t, "(Official Video)"@);
    let t2 = remove_all(t1, "[Official Video]"@);
    let t3 = remove_all(t2, "(Official Music Video)"@);
    let t4 = remove_all(t3, "[Official Music Video]"@);
    let t5 = remove_all(t4, "(Lyric Video)"@);
    let t6 = remove_all(t5, "[Lyric Video]"@);
    let t7 = remove_all(t6, "(MV)"@);
    let t8 = remove_all(t7, "[MV]"@);
    remove_all(t8, "【MV】"@)
}

fn remove_all_vec(s: &Vec<char>, p: &Vec<char>) -> (r: Vec<char>)
    ensures
        r@ == remove_all(s@, p@),
{
    if p.len() == 0 {
        return sub_vec(s, 0, s.len());
    }
    let mut out: Vec<char> = Vec::new();
    let mut rest = sub_vec(s, 0, s.len());
    assert(rest@ =~= s@);
    loop
        invariant
            p@.len() > 0,
            out@ + remove_all(rest@, p@) == remove_all(s@, p@),
        decreases rest@.len(),
    {
        match crate::text::find_chars(&rest, p) {
            Some(i) => {
                let plen = p.len();
                let rlen = rest.len();
                assert(i + plen <= rlen);
                let head = sub_vec(&rest, 0, i);
                let tail = sub_vec(&rest, i + plen, rlen);
                assert(head@ =~= rest@.take(i as int));
                assert(tail@ =~= rest@.skip(i + p@.len()));
                let ghost old_out = out@;
                let mut k: usize = 0;
                while k < head.len()
                    invariant
                        k <= head@.len(),
                        out@ == old_out + head@.take(k as int),
                    decreases head@.len() - k,
                {
                    out.push(head[k]);
                    k += 1;
                    assert(out@ =~= old_out + head@.take(k as int));
                }
                assert(head@.take(head@.len() as int) =~= head@);
                assert(out@ + remove_all(tail@, p@) =~= old_out + (head@ + remove_all(tail@, p@)));
                rest = tail;
            },
            None => {
                let ghost old_out = out@;
                let mut k: usize = 0;
                while k < rest.len()
                    invariant
                        k <= rest@.len(),
                        out@ == old_out + rest@.take(k as int),
                    decreases rest@.len() - k,
                {
                    out.push(rest[k]);
                    k += 1;
                    assert(out@ =~= old_out + rest@.take(k as int));
                }
                assert(rest@.take(rest@.len() as int) =~= rest@);
                return out;
            },
        }
    }
}

fn remove_pattern(s: Vec<char>, p: &str) -> (r: Vec<char>)
    ensures
        r@ == remove_all(s@, p@),
{
    let pv = chars_of(p);
    remove_all_vec(&s, &pv)
}

/// The title without the usual video tags: `(Official Video)`,
/// `[Official Video]`, `(Official Music Video)`, `[Official Music Video]`,
/// `(Lyric Video)`, `[Lyric Video]`, `(MV)`, `[MV]` and `【MV】`, removed in
/// that order.
pub fn clean_title(title: &str) -> (r: String)
    ensures
        r@ == clean_title_of(title@),
{
    let t0 = chars_of(title);
    let t1 = remove_pattern(t0, "(Official Video)");
    let t2 = remove_pattern(t1, "[Official Video]");
    let t3 = remove_pattern(t2, "(Official Music Video)");
    let t4 = remove_pattern(t3, "[Official Music Video]");
    let t5 = remove_pattern(t4, "(Lyric Video)");
    let t6 = remove_pattern(t5, "[Lyric Video]");
    let t7 = remove_pattern(t6, "(MV)");
    let t8 = remove_pattern(t7, "[MV]");
    let t9 = remove_pattern(t8, "【MV】");
    crate::text::string_of(&t9, 0, t9.len())
}

/// The fallback search for a recommendation: songs of the seed's author
/// (unless it is empty or just "YouTube"), else songs like its cleaned
/// title.
pub open spec fn recommendation_query_of(seed: TrackMetadata) -> Seq<char> {
    match seed.author {
        Some(a) if a@.len() > 0 && a@ != "YouTube"@ => "ytsearch15:"@ + trim(a@) + " songs"@,
        _ => "ytsearch15:"@ + trim(clean_title_of(seed.title@)) + " songs"@,
    }
}

/// The fallback search for a recommendation.
pub fn recommendation_search_query(seed: &TrackMetadata) -> (r: String)
    ensures
        r@ == recommendation_query_of(*seed),
{
    let mut q = string_from("ytsearch15:");
    let use_author = match &seed.author {
        Some(a) => a.as_str().unicode_len() > 0 && !str_eq(a.as_str(), "YouTube"),
        None => false,
    };
    if use_author {
        match &seed.author {
            Some(a) => {
                let t = trim_str(a.as_str());
                q.append(t.as_str());
            },
            None => {},
        }
    } else {
        let c = clean_title(seed.title.as_str());
        let t = trim_str(c.as_str());
        q.append(t.as_str());
    }
    q.append(" songs");
    q
}

/// What the autoplay search has learned so far.
pub enum AutoplayEvent {
    /// The search begins.
    Start,
    /// The answer for the Mix playlist: its tracks, or `None` when it could
    /// not be read.
    MixAnswered(Option<Vec<TrackMetadata>>),
    /// The answer for the fallback search: its tracks, or `None` when it
    /// failed.
    SearchAnswered(Option<Vec<TrackMetadata>>),
}

/// What the autoplay search does next.
pub enum AutoplayAction {
    /// Read this YouTube Mix playlist.
    ResolveMix(String),
    /// Run this search.
    ResolveSearch(String),
    /// The recommendation (none found when `None`).
    Done(Option<TrackMetadata>),
}

/// An autoplay action as plain values.
pub enum AutoplayActionModel {
    ResolveMix(Seq<char>),
    ResolveSearch(Seq<char>),
    Done(Option<TrackMetadata>),
}

impl View for AutoplayAction {
    type V = AutoplayActionModel;

    open spec fn view(&self) -> AutoplayActionModel {
        match self {
            AutoplayAction::ResolveMix(u) => AutoplayActionModel::ResolveMix(u@),
            AutoplayAction::ResolveSearch(q) => AutoplayActionModel::ResolveSearch(q@),
            AutoplayAction::Done(t) => AutoplayActionModel::Done(*t),
        }
    }
}

/// The next step of the autoplay search after `seed` with `hs` already
/// played: first the YouTube Mix of the seed's video (when it has one),
/// then, when the Mix offers nothing new or cannot be read, the fallback
/// search; the first candidate that is no duplicate is the recommendation.
/// `None` where reading a video id would panic.
pub open spec fn autoplay_step_of(seed: TrackMetadata, hs: Seq<TrackMetadata>, event: AutoplayEvent) -> Option<AutoplayActionModel> {
    match event {
        AutoplayEvent::Start => if !track_id_defined(seed) {
            None
        } else {
            match track_video_id(seed) {
                Some(id) => Some(AutoplayActionModel::ResolveMix(mix_url_of(id))),
                None => Some(AutoplayActionModel::ResolveSearch(recommendation_query_of(seed))),
            }
        },
        AutoplayEvent::MixAnswered(Some(cs)) => match pick_of(cs@, seed, hs) {
            None => None,
            Some(Some(t)) => Some(AutoplayActionModel::Done(Some(t))),
            Some(None) => Some(AutoplayActionModel::ResolveSearch(recommendation_query_of(seed))),
        },
        AutoplayEvent::MixAnswered(None) => Some(AutoplayActionModel::ResolveSearch(recommendation_query_of(seed))),
        AutoplayEvent::SearchAnswered(Some(cs)) => match pick_of(cs@, seed, hs) {
            None => None,
            Some(x) => Some(AutoplayActionModel::Done(x)),
        },
        AutoplayEvent::SearchAnswered(None) => Some(AutoplayActionModel::Done(None)),
    }
}

/// The next step of the autoplay search; `Err` where deciding it would read
/// a video id whose eleventh byte falls inside a character (which panics).
pub fn autoplay_step(seed: &TrackMetadata, history: &Vec<TrackMetadata>, event: &AutoplayEvent) -> (r: Result<AutoplayAction, IdCutInsideChar>)
    ensures
        match r {
            Ok(a) => autoplay_step_of(*seed, history@, *event) == Some(a@),
            Err(_) => autoplay_step_of(*seed, history@, *event) is None,
        },
{
    match event {
        AutoplayEvent::Start => match recommendation_mix_url(seed) {
            Err(e) => Err(e),
            Ok(Some(u)) => Ok(AutoplayAction::ResolveMix(u)),
            Ok(None) => Ok(AutoplayAction::ResolveSearch(recommendation_search_query(seed))),
        },
        AutoplayEvent::MixAnswered(Some(cs)) => match pick_recommendation(cs, seed, history) {
            Err(e) => Err(e),
            Ok(Some(t)) => Ok(AutoplayAction::Done(Some(t))),
            Ok(None) => Ok(AutoplayAction::ResolveSearch(recommendation_search_query(seed))),
        },
        AutoplayEvent::MixAnswered(None) => Ok(AutoplayAction::ResolveSearch(recommendation_search_query(seed))),
        AutoplayEvent::SearchAnswered(Some(cs)) => match pick_recommendation(cs, seed, history) {
            Err(e) => Err(e),
            Ok(x) => Ok(AutoplayAction::Done(x)),
        },
        AutoplayEvent::SearchAnswered(None) => Ok(AutoplayAction::Done(None)),
    }
}


/// The autoplay search never ends on a duplicate: a recommendation it
/// gives is neither the seed nor marked by the history, and is one of the
/// candidates it was given.
pub proof fn law_autoplay_is_fresh(seed: TrackMetadata, hs: Seq<TrackMetadata>, event: AutoplayEvent)
    ensures
        autoplay_step_of(seed, hs, event) matches Some(AutoplayActionModel::Done(Some(t))) ==> !is_duplicate(t, seed, hs)
            && match event {
            AutoplayEvent::MixAnswered(Some(cs)) => cs@.contains(t),
            AutoplayEvent::SearchAnswered(Some(cs)) => cs@.contains(t),
            _ => false,
        },
{
    match event {
        AutoplayEvent::MixAnswered(Some(cs)) => law_recommendation_is_fresh(cs@, seed, hs),
        AutoplayEvent::SearchAnswered(Some(cs)) => law_recommendation_is_fresh(cs@, seed, hs),
        _ => {},
    }
}


/// The first candidate that is no duplicate is the pick, when deciding it
/// reads no video id that panics.
proof fn lemma_pick_first_fresh(cs: Seq<TrackMetadata>, seed: TrackMetadata, hs: Seq<TrackMetadata>, i: int)
    requires
        0 <= i < cs.len(),
        forall|j: int| 0 <= j <= i ==> duplicate_defined(#[trigger] cs[j], seed, hs),
        forall|j: int| 0 <= j < i ==> is_duplicate(#[trigger] cs[j], seed, hs),
        !is_duplicate(cs[i], seed, hs),
    ensures
        pick_of(cs, seed, hs) == Some(Some(cs[i])),
    decreases i,
{
    if i > 0 {
        let rest = cs.drop_first();
        assert forall|j: int| 0 <= j <= i - 1 implies duplicate_defined(#[trigger] rest[j], seed, hs) by {
            assert(rest[j] == cs[j + 1]);
        }
        assert forall|j: int| 0 <= j < i - 1 implies is_duplicate(#[trigger] rest[j], seed, hs) by {
            assert(rest[j] == cs[j + 1]);
        }
        assert(rest[i - 1] == cs[i]);
        assert(duplicate_defined(cs[0], seed, hs));
        assert(is_duplicate(cs[0], seed, hs));
        lemma_pick_first_fresh(rest, seed, hs, i - 1);
    } else {
        assert(duplicate_defined(cs[0], seed, hs));
    }
}

/// When the answer (of the Mix or of the fallback search) holds a candidate
/// that is neither the seed nor already played, the autoplay search ends
/// with the first such candidate: the Mix is not thrown away for the
/// search.
pub proof fn law_autoplay_takes_first_fresh_candidate(
    seed: TrackMetadata,
    hs: Seq<TrackMetadata>,
    cs: Vec<TrackMetadata>,
    i: int,
)
    requires
        0 <= i < cs@.len(),
        forall|j: int| 0 <= j <= i ==> duplicate_defined(#[trigger] cs@[j], seed, hs),
        forall|j: int| 0 <= j < i ==> is_duplicate(#[trigger] cs@[j], seed, hs),
        !is_duplicate(cs@[i], seed, hs),
    ensures
        autoplay_step_of(seed, hs, AutoplayEvent::MixAnswered(Some(cs))) == Some(AutoplayActionModel::Done(Some(cs@[i]))),
        autoplay_step_of(seed, hs, AutoplayEvent::SearchAnswered(Some(cs))) == Some(AutoplayActionModel::Done(Some(cs@[i]))),
{
    lemma_pick_first_fresh(cs@, seed, hs, i);
}

// ---------------------------------------------------------------------------
// Direct streams and the audio pipeline
// ---------------------------------------------------------------------------

/// The direct media link in yt-dlp's output: the trimmed output, when the
/// run succeeded and it is a non-empty `http` link.
pub open spec fn direct_stream_of(success: bool, stdout: Seq<char>) -> Result<Seq<char>, Seq<char>> {
    if success && trim(stdout).len() > 0 && starts_with(trim(stdout), "http"@) {
        Ok(trim(stdout))
    } else {
        Err("Failed to resolve direct audio URL"@)
    }
}

/// The direct media link that `yt-dlp -g` printed.
pub fn direct_stream_from_output(success: bool, stdout: &str) -> (r: Result<String, String>)
    ensures
        match (r, direct_stream_of(success, stdout@)) {
            (Ok(a), Ok(b)) => a@ == b,
            (Err(a), Err(b)) => a@ == b,
            _ => false,
        },
{
    if success {
        let direct = trim_str(stdout);
        if direct.as_str().unicode_len() > 0 && str_starts_with(direct.as_str(), "http") {
            return Ok(direct);
        }
    }
    Err(string_from("Failed to resolve direct audio URL"))
}

/// The arguments of `yt-dlp -g` that find a direct audio link, preferring
/// Opus or MP3 over AAC.
pub open spec fn direct_stream_args_of(url: Seq<char>) -> Seq<Seq<char>> {
    seq![
        "-g"@,
        "--format-sort"@,
        "acodec:opus,acodec:mp3,abr:96,proto:https"@,
        "-f"@,
        "ba[acodec=opus][abr<=128]/ba[ext=webm][abr<=128]/ba[acodec=opus]/ba[ext=webm]/http_mp3_128/ba[ext=mp3]/ba[acodec!=aac]/ba/b"@,
        "--socket-timeout"@,
        "15"@,
        "--retries"@,
        "3"@,
        "--fragment-retries"@,
        "3"@,
        "--no-warnings"@,
        url,
    ]
}

/// The arguments of `yt-dlp -g` for `url`.
pub fn direct_stream_args(url: &str) -> (r: Vec<String>)
    ensures
        views(r@) == direct_stream_args_of(url@),
{
    let mut v: Vec<String> = Vec::new();
    v.push(string_from("-g"));
    v.push(string_from("--format-sort"));
    v.push(string_from("acodec:opus,acodec:mp3,abr:96,proto:https"));
    v.push(string_from("-f"));
    v.push(string_from("ba[acodec=opus][abr<=128]/ba[ext=webm][abr<=128]/ba[acodec=opus]/ba[ext=webm]/http_mp3_128/ba[ext=mp3]/ba[acodec!=aac]/ba/b"));
    v.push(string_from("--socket-timeout"));
    v.push(string_from("15"));
    v.push(string_from("--retries"));
    v.push(string_from("3"));
    v.push(string_from("--fragment-retries"));
    v.push(string_from("3"));
    v.push(string_from("--no-warnings"));
    v.push(string_from(url));
    assert(views(v@) =~= direct_stream_args_of(url@));
    v
}

/// The arguments of the ffmpeg run that turns a stream into 48 kHz stereo
/// Opus in Ogg on standard output: an optional seek (`-ss`, in seconds, as
/// text), reconnect and fast-probe options, the input, no video, an
/// optional audio filter, then the encoder settings.
pub open spec fn ffmpeg_args_of(seek: Option<Seq<char>>, input: Seq<char>, filter: Option<Seq<char>>) -> Seq<Seq<char>> {
    let head = match seek {
        Some(s) => seq!["-ss"@, s],
        None => Seq::empty(),
    };
    let body = seq![
        "-reconnect"@,
        "1"@,
        "-reconnect_streamed"@,
        "1"@,
        "-reconnect_delay_max"@,
        "5"@,
        "-probesize"@,
        "32768"@,
        "-analyzeduration"@,
        "0"@,
        "-nostdin"@,
        "-i"@,
        input,
        "-vn"@,
    ];
    let af = match filter {
        Some(f) => seq!["-af"@, f],
        None => Seq::empty(),
    };
    let tail = seq![
        "-c:a"@,
        "libopus"@,
        "-b:a"@,
        "96k"@,
        "-ar"@,
        "48000"@,
        "-ac"@,
        "2"@,
        "-f"@,
        "ogg"@,
        "pipe:1"@,
    ];
    head + body + af + tail
}

/// The arguments of the ffmpeg run for `input`.
pub fn ffmpeg_args(seek: Option<&str>, input: &str, filter: Option<&str>) -> (r: Vec<String>)
    ensures
        views(r@) == ffmpeg_args_of(
            match seek { Some(s) => Some(s@), None => None },
            input@,
            match filter { Some(f) => Some(f@), None => None },
        ),
{
    let mut v: Vec<String> = Vec::new();
    let ghost head: Seq<Seq<char>>;
    match seek {
        Some(s) => {
            v.push(string_from("-ss"));
            v.push(string_from(s));
            proof { head = seq!["-ss"@, s@]; }
        },
        None => {
            proof { head = Seq::empty(); }
        },
    }
    assert(views(v@) =~= head);
    let ghost v0 = v@;
    v.push(string_from("-reconnect"));
    v.push(string_from("1"));
    v.push(string_from("-reconnect_streamed"));
    v.push(string_from("1"));
    v.push(string_from("-reconnect_delay_max"));
    v.push(string_from("5"));
    v.push(string_from("-probesize"));
    v.push(string_from("32768"));
    v.push(string_from("-analyzeduration"));
    v.push(string_from("0"));
    v.push(string_from("-nostdin"));
    v.push(string_from("-i"));
    v.push(string_from(input));
    v.push(string_from("-vn"));
    let ghost body = seq![
        "-reconnect"@,
        "1"@,
        "-reconnect_streamed"@,
        "1"@,
        "-reconnect_delay_max"@,
        "5"@,
        "-probesize"@,
        "32768"@,
        "-analyzeduration"@,
        "0"@,
        "-nostdin"@,
        "-i"@,
        input@,
        "-vn"@,
    ];
    assert(views(v@) =~= head + body);
    let ghost af: Seq<Seq<char>>;
    match filter {
        Some(f) => {
            v.push(string_from("-af"));
            v.push(string_from(f));
            proof { af = seq!["-af"@, f@]; }
        },
        None => {
            proof { af = Seq::empty(); }
        },
    }
    assert(views(v@) =~= head + body + af);
    v.push(string_from("-c:a"));
    v.push(string_from("libopus"));
    v.push(string_from("-b:a"));
    v.push(string_from("96k"));
    v.push(string_from("-ar"));
    v.push(string_from("48000"));
    v.push(string_from("-ac"));
    v.push(string_from("2"));
    v.push(string_from("-f"));
    v.push(string_from("ogg"));
    v.push(string_from("pipe:1"));
    let ghost tail = seq![
        "-c:a"@,
        "libopus"@,
        "-b:a"@,
        "96k"@,
        "-ar"@,
        "48000"@,
        "-ac"@,
        "2"@,
        "-f"@,
        "ogg"@,
        "pipe:1"@,
    ];
    assert(views(v@) =~= head + body + af + tail);
    v
}

/// What the user asks to play from a link to one video with a YouTube Mix
/// attached is that video alone, never the Mix.
pub proof fn law_mix_link_plays_single_video(p: QueryPlan, q: Seq<char>, max_items: usize)
    requires
        p.plans(q, max_items, false),
        is_mix_on_video(q),
    ensures
        !p.has_playlist,
        is_url_query(q) ==> views(p.ytdlp_args@)[4] == "--no-playlist"@,
{
}
} // verus!
