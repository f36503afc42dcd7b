use discord_music_bot::source::{
    clean_title, collect_tracks, direct_stream_args, direct_stream_from_output, extract_youtube_id,
    ffmpeg_args, get_max_playlist_limit, is_spotify, is_url, next_data_json, parse_single_entry,
    pick_recommendation, plan_query, recommendation_mix_url, recommendation_search_query,
    scan_youtube_id, search_resolves_directly, spotify_embed_url, spotify_items_from_entity,
    spotify_search_query, spotify_tracks, ytdlp_failure_message, JsonText, SpotifyEntity,
    SpotifyListItem, SpotifyTrackInfo, YoutubeIdScan, YtDlpOutput,
};
use discord_music_bot::track::{TrackDuration, TrackMetadata};

fn entry(title: Option<&str>, webpage: Option<&str>, url: Option<&str>, extractor: Option<&str>) -> YtDlpOutput {
    YtDlpOutput {
        title: title.map(|s| s.to_string()),
        webpage_url: webpage.map(|s| s.to_string()),
        url: url.map(|s| s.to_string()),
        duration: Some(TrackDuration::from_secs(200)),
        thumbnail: Some("thumb".to_string()),
        uploader: Some("uploader".to_string()),
        extractor_key: extractor.map(|s| s.to_string()),
        view_count: Some(12),
        entries: None,
        kind: None,
    }
}

fn track(title: &str, url: &str) -> TrackMetadata {
    TrackMetadata {
        title: title.to_string(),
        url: url.to_string(),
        stream_url: url.to_string(),
        duration: None,
        thumbnail: None,
        author: None,
        source: "YouTube".to_string(),
        requester: None,
        view_count: None,
    }
}

#[test]
fn query_classification() {
    assert!(is_url("https://youtu.be/x"));
    assert!(is_url("http://a"));
    assert!(!is_url("yoasobi idol"));
    assert!(is_spotify("https://open.spotify.com/track/abc"));
    assert!(is_spotify("spotify:track:abc"));
    assert!(!is_spotify("spotify song"));
    assert!(search_resolves_directly("https://x"));
    assert!(!search_resolves_directly("lofi beats"));
}

#[test]
fn playlist_limit_from_environment() {
    assert_eq!(get_max_playlist_limit(None, None), 50);
    assert_eq!(get_max_playlist_limit(Some(" 20 "), Some("30")), 20);
    assert_eq!(get_max_playlist_limit(None, Some("30")), 30);
    assert_eq!(get_max_playlist_limit(Some("abc"), Some("30")), 50);
    assert_eq!(get_max_playlist_limit(Some("0"), None), 0);
    assert_eq!(get_max_playlist_limit(Some("+7"), None), 7);
    assert_eq!(get_max_playlist_limit(Some("-7"), None), 50);
    assert_eq!(get_max_playlist_limit(Some("99999999999999999999999"), None), 50);
}

#[test]
fn plan_for_text_query() {
    let p = plan_query("yoasobi idol", 50);
    assert_eq!(p.search_target, "ytsearch10:yoasobi idol");
    assert_eq!(p.source_hint, "YouTube");
    assert!(!p.is_url);
    assert!(!p.has_playlist);
    assert_eq!(p.ytdlp_args, vec!["-J", "--default-search", "ytsearch", "--no-warnings", "--flat-playlist", "ytsearch10:yoasobi idol"]);
}

#[test]
fn plan_for_playlist_link() {
    let q = "https://www.youtube.com/playlist?list=PL123";
    let p = plan_query(q, 50);
    assert_eq!(p.search_target, q);
    assert!(p.has_playlist);
    assert_eq!(p.ytdlp_args, vec!["-J", "--default-search", "ytsearch", "--no-warnings", "--flat-playlist", "--playlist-items", "1:50", q]);
    let p0 = plan_query(q, 0);
    assert_eq!(p0.ytdlp_args, vec!["-J", "--default-search", "ytsearch", "--no-warnings", "--flat-playlist", q]);
}

#[test]
fn plan_for_single_links() {
    let p = plan_query("https://soundcloud.com/a/b", 50);
    assert_eq!(p.source_hint, "SoundCloud");
    assert_eq!(p.ytdlp_args[4], "--no-playlist");
    let d = plan_query("https://example.com/a.mp3", 50);
    assert_eq!(d.source_hint, "Direct Stream");
    let s = plan_query("ytsearch1:abc", 50);
    assert_eq!(s.search_target, "ytsearch1:abc");
}

#[test]
fn single_entry_parsing() {
    let e = entry(Some("T"), Some("https://www.youtube.com/watch?v=abc"), Some("media"), Some("Youtube"));
    let t = parse_single_entry(&e, "Direct Stream").unwrap();
    assert_eq!(t.title, "T");
    assert_eq!(t.url, "https://www.youtube.com/watch?v=abc");
    assert_eq!(t.stream_url, t.url);
    assert_eq!(t.source, "YouTube");
    assert_eq!(t.author.as_deref(), Some("uploader"));
    assert_eq!(t.view_count, Some(12));
    assert!(t.requester.is_none());
    let sc = entry(Some("T"), None, Some("media"), Some("SoundcloudPlaylist"));
    let t2 = parse_single_entry(&sc, "YouTube").unwrap();
    assert_eq!(t2.url, "media");
    assert_eq!(t2.source, "SoundCloud");
    let other = entry(Some("T"), Some(""), Some("m"), Some("Generic"));
    let t3 = parse_single_entry(&other, "Direct Stream").unwrap();
    assert_eq!(t3.url, "m");
    assert_eq!(t3.source, "Direct Stream");
    assert!(parse_single_entry(&entry(None, Some("x"), None, None), "YouTube").is_none());
    assert!(parse_single_entry(&entry(Some("T"), None, None, None), "YouTube").is_none());
}

#[test]
fn playlist_answer_is_capped() {
    let q = "https://www.youtube.com/playlist?list=PL1";
    let plan = plan_query(q, 2);
    let mut top = entry(None, None, None, None);
    top.entries = Some(vec![
        entry(Some("a"), Some("u1"), None, None),
        entry(None, Some("u2"), None, None),
        entry(Some("c"), Some("u3"), None, None),
    ]);
    let tracks = collect_tracks(&top, &plan).unwrap();
    let names: Vec<String> = tracks.iter().map(|t| t.title.clone()).collect();
    assert_eq!(names, vec!["a"]);
    let plan_all = plan_query(q, 0);
    let all = collect_tracks(&top, &plan_all).unwrap();
    assert_eq!(all.len(), 2);
}

#[test]
fn search_answer_is_not_capped() {
    let plan = plan_query("lofi", 1);
    let mut top = entry(None, None, None, None);
    top.entries = Some(vec![entry(Some("a"), Some("u1"), None, None), entry(Some("b"), Some("u2"), None, None)]);
    assert_eq!(collect_tracks(&top, &plan).unwrap().len(), 2);
}

#[test]
fn empty_answer_is_an_error() {
    let plan = plan_query("lofi", 50);
    let top = entry(None, None, None, None);
    assert_eq!(collect_tracks(&top, &plan).err(), Some("No tracks found for the requested query.".to_string()));
    let single = entry(Some("x"), Some("u"), None, None);
    assert_eq!(collect_tracks(&single, &plan).unwrap().len(), 1);
}

#[test]
fn failure_message_trims_stderr() {
    assert_eq!(ytdlp_failure_message("  ERROR: boom\n"), "Could not extract audio metadata: ERROR: boom");
}

#[test]
fn spotify_embed_urls() {
    assert_eq!(spotify_embed_url("https://open.spotify.com/track/abc123?si=xyz").unwrap(), "https://open.spotify.com/embed/track/abc123");
    assert_eq!(spotify_embed_url("https://open.spotify.com/playlist/PL9/").unwrap(), "https://open.spotify.com/embed/playlist/PL9");
    assert_eq!(spotify_embed_url("https://open.spotify.com/intl-de/album/AL1").unwrap(), "https://open.spotify.com/embed/album/AL1");
    assert_eq!(spotify_embed_url("spotify:track:abc").err(), Some("Unsupported Spotify URL format.".to_string()));
}

#[test]
fn next_data_payload() {
    let html = "<html><script id=\"__NEXT_DATA__\" type=\"application/json\">{\"a\":1}</script></html>";
    assert_eq!(next_data_json(html), Some("{\"a\":1}".to_string()));
    assert_eq!(next_data_json("<html></html>"), None);
    assert_eq!(next_data_json("id=\"__NEXT_DATA__\" no close"), None);
}

#[test]
fn spotify_single_track_entity() {
    let e = SpotifyEntity {
        entity_type: Some("track".to_string()),
        name: JsonText::Text("Idol".to_string()),
        title: None,
        artists: vec![Some("YOASOBI".to_string()), None, Some("Ayase".to_string())],
        duration_ms: Some(213_000),
        image_url: Some("img".to_string()),
        id: Some("T1".to_string()),
        track_list: None,
    };
    let items = spotify_items_from_entity(&Some(e), "https://open.spotify.com/track/T1", 50).unwrap();
    assert_eq!(items.len(), 1);
    assert_eq!(items[0].title, "Idol");
    assert_eq!(items[0].artist, "YOASOBI, Ayase");
    assert_eq!(items[0].url, "https://open.spotify.com/track/T1");
    assert_eq!(items[0].thumbnail.as_deref(), Some("img"));
    assert_eq!(items[0].duration.unwrap().as_secs(), 213);
}

#[test]
fn spotify_track_entity_without_artists_or_title() {
    let e = SpotifyEntity {
        entity_type: Some("track".to_string()),
        name: JsonText::Missing,
        title: Some("Fallback".to_string()),
        artists: vec![],
        duration_ms: None,
        image_url: None,
        id: None,
        track_list: None,
    };
    let items = spotify_items_from_entity(&Some(e), "https://u", 50).unwrap();
    assert_eq!(items[0].title, "Fallback");
    assert_eq!(items[0].artist, "Spotify Artist");
    assert_eq!(items[0].url, "https://u");
    let untitled = SpotifyEntity {
        entity_type: Some("track".to_string()),
        name: JsonText::Other,
        title: Some("ignored".to_string()),
        artists: vec![],
        duration_ms: None,
        image_url: None,
        id: None,
        track_list: None,
    };
    assert_eq!(spotify_items_from_entity(&Some(untitled), "https://u", 50).err(), Some("Could not extract tracks from Spotify link.".to_string()));
    assert!(spotify_items_from_entity(&None, "https://u", 50).is_err());
}

#[test]
fn spotify_playlist_entity_is_capped() {
    let item = |t: &str, s: &str, id: &str| SpotifyListItem {
        title: Some(t.to_string()),
        subtitle: Some(s.to_string()),
        duration_ms: Some(1000),
        id: Some(id.to_string()),
    };
    let e = SpotifyEntity {
        entity_type: Some("playlist".to_string()),
        name: JsonText::Missing,
        title: None,
        artists: vec![],
        duration_ms: None,
        image_url: None,
        id: None,
        track_list: Some(vec![item("a", "A", "1"), item("", "B", "2"), item("c", "", ""), item("d", "D", "4")]),
    };
    let items = spotify_items_from_entity(&Some(e), "https://pl", 3).unwrap();
    assert_eq!(items.len(), 2);
    assert_eq!(items[0].url, "https://open.spotify.com/track/1");
    assert_eq!(items[1].title, "c");
    assert_eq!(items[1].artist, "Spotify Artist");
    assert_eq!(items[1].url, "https://pl");
    assert!(items[1].thumbnail.is_none());
}

#[test]
fn spotify_tracks_defer_all_but_first() {
    let info = |t: &str, a: &str| SpotifyTrackInfo {
        title: t.to_string(),
        artist: a.to_string(),
        url: format!("https://open.spotify.com/track/{}", t),
        thumbnail: None,
        duration: None,
    };
    let items = vec![info("One", "X"), info("Two", "Y")];
    assert_eq!(spotify_search_query(&items[0]), "X - One");
    let mut found = track("yt", "https://www.youtube.com/watch?v=aaaaaaaaaaa");
    found.duration = Some(TrackDuration::from_secs(10));
    found.thumbnail = Some("th".to_string());
    let ts = spotify_tracks(&items, &Some(found)).unwrap();
    assert_eq!(ts[0].stream_url, "https://www.youtube.com/watch?v=aaaaaaaaaaa");
    assert_eq!(ts[0].title, "One");
    assert_eq!(ts[0].source, "Spotify");
    assert_eq!(ts[0].duration.unwrap().as_secs(), 10);
    assert_eq!(ts[0].thumbnail.as_deref(), Some("th"));
    assert_eq!(ts[1].stream_url, "ytsearch1:Y - Two");
    assert_eq!(ts[1].author.as_deref(), Some("Y"));
    let ts2 = spotify_tracks(&items, &None).unwrap();
    assert_eq!(ts2[0].stream_url, "ytsearch1:X - One");
    assert!(spotify_tracks(&vec![], &None).is_err());
}

#[test]
fn youtube_ids() {
    assert_eq!(extract_youtube_id("https://www.youtube.com/watch?v=dQw4w9WgXcQ&list=RD"), Some("dQw4w9WgXcQ".to_string()));
    assert_eq!(extract_youtube_id("https://youtu.be/dQw4w9WgXcQ?t=10"), Some("dQw4w9WgXcQ".to_string()));
    assert_eq!(extract_youtube_id("https://youtu.be/dQw4w9WgXcQextra"), Some("dQw4w9WgXcQ".to_string()));
    assert_eq!(extract_youtube_id("https://www.youtube.com/watch?v=short"), None);
    assert_eq!(extract_youtube_id("https://example.com"), None);
    match scan_youtube_id("https://youtu.be/aaaaaaaaaaéé") {
        YoutubeIdScan::CutInsideChar => {}
        _ => panic!("expected a cut inside a character"),
    }
    match scan_youtube_id("https://youtu.be/aaaaaaaaaé") {
        YoutubeIdScan::Id(s) => assert_eq!(s, "aaaaaaaaaé"),
        _ => panic!("expected an id"),
    }
}

#[test]
fn recommendation_skips_duplicates() {
    let seed = track("Seed Song", "https://www.youtube.com/watch?v=SEEDSEEDSEE");
    let history = vec![track("Old", "https://www.youtube.com/watch?v=OLDOLDOLDOL")];
    let candidates = vec![
        track("seed song", "https://other"),
        track("Again", "https://youtu.be/OLDOLDOLDOL"),
        track("OLD", "https://x"),
        track("Fresh", "https://www.youtube.com/watch?v=FRESHFRESHF"),
    ];
    let pick = pick_recommendation(&candidates, &seed, &history).ok().unwrap().unwrap();
    assert_eq!(pick.title, "Fresh");
    let none = pick_recommendation(&candidates[..3].to_vec(), &seed, &history).ok().unwrap();
    assert!(none.is_none());
}

#[test]
fn recommendation_sources() {
    let seed = track("Song (Official Video)", "https://www.youtube.com/watch?v=abcdefghijk");
    assert_eq!(recommendation_mix_url(&seed).ok().unwrap(), Some("https://www.youtube.com/watch?v=abcdefghijk&list=RDabcdefghijk".to_string()));
    assert_eq!(recommendation_search_query(&seed), "ytsearch15:Song songs");
    let mut with_author = seed;
    with_author.author = Some(" Band ".to_string());
    assert_eq!(recommendation_search_query(&with_author), "ytsearch15:Band songs");
    with_author.author = Some("YouTube".to_string());
    assert_eq!(recommendation_search_query(&with_author), "ytsearch15:Song songs");
    let plain = track("x", "https://example.com");
    assert_eq!(recommendation_mix_url(&plain).ok().unwrap(), None);
}

#[test]
fn title_cleaning() {
    assert_eq!(clean_title("A (Official Video) [MV] B【MV】"), "A   B");
    assert_eq!(clean_title("(MV)(MV)x"), "x");
    assert_eq!(clean_title("plain"), "plain");
}

#[test]
fn direct_stream_rules() {
    assert_eq!(direct_stream_from_output(true, " https://cdn/a \n").unwrap(), "https://cdn/a");
    assert!(direct_stream_from_output(true, "ftp://x").is_err());
    assert!(direct_stream_from_output(true, "   ").is_err());
    assert_eq!(direct_stream_from_output(false, "https://a").err(), Some("Failed to resolve direct audio URL".to_string()));
    let args = direct_stream_args("U");
    assert_eq!(args.len(), 13);
    assert_eq!(args[0], "-g");
    assert_eq!(args[12], "U");
}

#[test]
fn ffmpeg_pipeline_args() {
    let a = ffmpeg_args(Some("12.5"), "IN", Some("bass=g=5"));
    assert_eq!(&a[..2], &["-ss", "12.5"]);
    assert_eq!(a[14], "IN");
    assert_eq!(a[15], "-vn");
    assert_eq!(&a[16..18], &["-af", "bass=g=5"]);
    assert_eq!(a.last().unwrap(), "pipe:1");
    let b = ffmpeg_args(None, "IN", None);
    assert_eq!(b.len(), 25);
    assert_eq!(b[0], "-reconnect");
}

#[test]
fn mix_link_on_a_video_yields_only_that_video() {
    let q = "https://www.youtube.com/watch?v=abcdefghijk&list=RDabcdefghijk";
    let p = plan_query(q, 50);
    assert!(!p.has_playlist);
    assert_eq!(p.ytdlp_args, vec!["-J", "--default-search", "ytsearch", "--no-warnings", "--no-playlist", q]);
    let m = discord_music_bot::source::plan_mix_query(q, 50);
    assert!(m.has_playlist);
    assert_eq!(m.ytdlp_args[5], "--playlist-items");
    let official = plan_query("https://www.youtube.com/watch?v=abcdefghijk&list=PL123", 50);
    assert!(official.has_playlist);
}
