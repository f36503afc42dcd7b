//! What `/play` does with the tracks it resolved.

use vstd::prelude::*;

use crate::queue::{playlist_pushed, LoopMode, QueueManager};
use crate::source::{opt_view, string_from};
use crate::text::{decimal, push_decimal};
use crate::track::TrackMetadata;
use crate::utils::embed::{
    color_of, field, icon_url_of, source_color, source_icon_url, Embed, EmbedAuthor, EmbedFooter,
    EmbedModel, FieldModel,
};

verus! {

/// The mention of a user: `<@id>`.
pub fn requester_tag(user_id: u64) -> (r: String)
    ensures
        r@ == "<@"@ + decimal(user_id as nat) + ">"@,
{
    let mut s = string_from("<@");
    push_decimal(&mut s, user_id);
    s.append(">");
    s
}

/// `t` is `old` requested by `tag`.
pub open spec fn requested_by(old: TrackMetadata, tag: Seq<char>, t: TrackMetadata) -> bool {
    &&& t.title == old.title
    &&& t.url == old.url
    &&& t.stream_url == old.stream_url
    &&& t.duration == old.duration
    &&& t.thumbnail == old.thumbnail
    &&& t.author == old.author
    &&& t.source == old.source
    &&& opt_view(t.requester) == Some(tag)
    &&& t.view_count == old.view_count
}

/// Marks every track as requested by `tag`.
pub fn tag_requester(tracks: &mut Vec<TrackMetadata>, tag: &str)
    ensures
        final(tracks)@.len() == old(tracks)@.len(),
        forall|i: int| 0 <= i < old(tracks)@.len() ==> requested_by(#[trigger] old(tracks)@[i], tag@, final(tracks)@[i]),
{
    let ghost orig = tracks@;
    let mut out: Vec<TrackMetadata> = Vec::new();
    let mut i: usize = 0;
    while i < tracks.len()
        invariant
            tracks@ == orig,
            i <= orig.len(),
            out@.len() == i,
            forall|j: int| 0 <= j < i ==> requested_by(#[trigger] orig[j], tag@, out@[j]),
        decreases orig.len() - i,
    {
        let mut t = tracks[i].duplicate();
        t.requester = Some(string_from(tag));
        out.push(t);
        i += 1;
    }
    *tracks = out;
}

/// A track to start, and whether it is to repeat itself (repeat mode
/// `Track`).
pub struct Start {
    pub track: TrackMetadata,
    pub enable_loop: bool,
}

/// The start of `t` on server `g` of `q`: it repeats itself when the repeat
/// mode of `g` is `Track`.
pub open spec fn start_of(q: &QueueManager, g: u64, t: TrackMetadata) -> Start {
    Start { track: t, enable_loop: q.loop_mode_of(g) == LoopMode::Track }
}

/// What `/play` does next after queueing.
pub struct PlayOutcome {
    /// The track to start now (when nothing was playing).
    pub start: Option<Start>,
    /// The length of the queue afterwards.
    pub queue_len: usize,
}

/// Queues what `/play` resolved from a link: one track is appended, several
/// as a playlist (shuffled among themselves when shuffle is on). When
/// nothing was playing, the first resolved track is the one to start.
pub fn enqueue_resolved(queues: &mut QueueManager, guild_id: u64, tracks: Vec<TrackMetadata>, is_playing: bool) -> (r: PlayOutcome)
    requires
        tracks@.len() > 0,
    ensures
        QueueManager::only_queue_changed(old(queues), final(queues), guild_id),
        tracks@.len() == 1 ==> final(queues).queue_of(guild_id) == old(queues).queue_of(guild_id).push(tracks@[0]),
        tracks@.len() > 1 ==> playlist_pushed(
            old(queues).queue_of(guild_id),
            tracks@,
            old(queues).shuffle_of(guild_id),
            final(queues).queue_of(guild_id),
        ),
        r.start == (if is_playing { None } else { Some(start_of(old(queues), guild_id, tracks@[0])) }),
        r.queue_len == final(queues).queue_of(guild_id).len(),
{
    let first = tracks[0].duplicate();
    let enable_loop = queues.get_loop_mode(guild_id) == LoopMode::Track;
    if tracks.len() == 1 {
        queues.push_track(guild_id, first.duplicate());
    } else {
        queues.push_playlist(guild_id, tracks);
    }
    let queue_len = queues.get_queue(guild_id).len();
    PlayOutcome { start: if is_playing { None } else { Some(Start { track: first, enable_loop }) }, queue_len }
}

/// Queues the candidate a user picked from a keyword search: exactly
/// `candidates[pick]` is appended when `pick` names a candidate, and it is
/// the track to start when nothing was playing; `None`, with nothing
/// changed, when `pick` is past the candidates.
pub fn enqueue_choice(queues: &mut QueueManager, guild_id: u64, candidates: &Vec<TrackMetadata>, pick: usize, is_playing: bool) -> (r: Option<PlayOutcome>)
    ensures
        pick < candidates@.len() ==> {
            &&& QueueManager::only_queue_changed(old(queues), final(queues), guild_id)
            &&& final(queues).queue_of(guild_id) == old(queues).queue_of(guild_id).push(candidates@[pick as int])
            &&& r matches Some(out) && out.queue_len == final(queues).queue_of(guild_id).len()
                && out.start == (if is_playing { None } else { Some(start_of(old(queues), guild_id, candidates@[pick as int])) })
        },
        pick >= candidates@.len() ==> r is None && *final(queues) == *old(queues),
{
    if pick >= candidates.len() {
        return None;
    }
    let chosen = candidates[pick].duplicate();
    let enable_loop = queues.get_loop_mode(guild_id) == LoopMode::Track;
    queues.push_track(guild_id, chosen.duplicate());
    let queue_len = queues.get_queue(guild_id).len();
    Some(PlayOutcome { start: if is_playing { None } else { Some(Start { track: chosen, enable_loop }) }, queue_len })
}

/// The card `/play` shows after queueing a playlist.
pub open spec fn playlist_card(first: TrackMetadata, total: nat, queue_len: nat, requester: Seq<char>) -> EmbedModel {
    EmbedModel {
        author: Some((first.source@ + " Playlist Enqueued"@, Some(icon_url_of(first.source@)), None)),
        title: Some("Added "@ + decimal(total) + " tracks to queue"@),
        url: None,
        description: None,
        fields: seq![
            FieldModel {
                name: "📌 First Track"@,
                value: "[**"@ + first.title@ + "**]("@ + first.url@ + ")"@,
                inline: false,
            },
            FieldModel { name: "📊 Queue Total"@, value: decimal(queue_len) + " tracks"@, inline: true },
            FieldModel { name: "🙋 Requested By"@, value: requester, inline: true },
        ],
        footer: Some(("Platform: "@ + first.source@, Some(icon_url_of(first.source@)))),
        color: Some(color_of(first.source@)),
        thumbnail: opt_view(first.thumbnail),
    }
}

/// The card `/play` shows after queueing a playlist of `total` tracks whose
/// first is `first`.
pub fn playlist_embed(first: &TrackMetadata, total: usize, queue_len: usize, requester: &str) -> (r: Embed)
    ensures
        r@ == playlist_card(*first, total as nat, queue_len as nat, requester@),
{
    let mut author = first.source.clone();
    author.append(" Playlist Enqueued");
    let mut title = string_from("Added ");
    push_decimal(&mut title, total as u64);
    title.append(" tracks to queue");
    let mut link = string_from("[**");
    link.append(first.title.as_str());
    link.append("**](");
    link.append(first.url.as_str());
    link.append(")");
    let mut count = String::new();
    push_decimal(&mut count, queue_len as u64);
    count.append(" tracks");
    let mut fields = Vec::new();
    fields.push(field("📌 First Track", link, false));
    fields.push(field("📊 Queue Total", count, true));
    fields.push(field("🙋 Requested By", string_from(requester), true));
    let mut footer = string_from("Platform: ");
    footer.append(first.source.as_str());
    let e = Embed {
        author: Some(EmbedAuthor {
            name: author,
            icon_url: Some(string_from(source_icon_url(first.source.as_str()))),
            url: None,
        }),
        title: Some(title),
        url: None,
        description: None,
        fields,
        footer: Some(EmbedFooter { text: footer, icon_url: Some(string_from(source_icon_url(first.source.as_str()))) }),
        color: Some(source_color(first.source.as_str())),
        thumbnail: crate::track::copy_opt_string(&first.thumbnail),
    };
    assert(e@.fields =~= playlist_card(*first, total as nat, queue_len as nat, requester@).fields);
    e
}

} // verus!
