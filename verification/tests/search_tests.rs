use discord_music_bot::commands::control::{jump_request, remove_request, replay_request};
use discord_music_bot::commands::play::enqueue_choice;
use discord_music_bot::commands::player::{
    music_action, next_loop_mode, now_playing_card, still_playing, MusicAction,
};
use discord_music_bot::commands::search::{
    format_views, search_candidates, search_embed, search_menu_row, search_pick,
};
use discord_music_bot::commands::{handle_component, ComponentRoute};
use discord_music_bot::queue::{LoopMode, QueueManager};
use discord_music_bot::source::{autoplay_step, AutoplayAction, AutoplayEvent};
use discord_music_bot::track::{TrackDuration, TrackMetadata};
use discord_music_bot::utils::embed::{ActionRow, ButtonStyle};

fn track(title: &str) -> TrackMetadata {
    TrackMetadata {
        title: title.to_string(),
        url: format!("https://y/{}", title),
        stream_url: format!("https://y/{}", title),
        duration: Some(TrackDuration::from_secs(65)),
        thumbnail: None,
        author: Some("Yoasobi".to_string()),
        source: "YouTube".to_string(),
        requester: None,
        view_count: Some(686_600_000),
    }
}

fn yt(title: &str, id: &str) -> TrackMetadata {
    let mut t = track(title);
    t.url = format!("https://www.youtube.com/watch?v={}", id);
    t.stream_url = t.url.clone();
    t.author = None;
    t
}

#[test]
fn keyword_search_offers_at_most_ten_candidates() {
    let found: Vec<TrackMetadata> = (0..12).map(|i| track(&format!("t{}", i))).collect();
    let cs = search_candidates(found);
    assert_eq!(cs.len(), 10);
    assert_eq!(cs[9].title, "t9");
    assert_eq!(search_candidates(vec![track("a")]).len(), 1);
}

#[test]
fn view_counts_for_people() {
    assert_eq!(format_views(999), "999");
    assert_eq!(format_views(1_000), "1.0K");
    assert_eq!(format_views(1_250), "1.3K");
    assert_eq!(format_views(686_600_000), "686.6M");
    assert_eq!(format_views(2_000_000_000), "2.0B");
    assert_eq!(format_views(0), "0");
}

#[test]
fn search_embed_and_menu_match_numbers() {
    let cs = vec![track("Idol"), track("Yoru")];
    let e = search_embed("yoasobi idol", &cs);
    assert_eq!(e.title.unwrap(), "🔎 Search Results: yoasobi idol");
    assert_eq!(
        e.description.unwrap(),
        "`1.` [**Idol**](https://y/Idol)\n👤 Yoasobi • ⏱️ `01:05` • 👁️ 686.6M views\n`2.` [**Yoru**](https://y/Yoru)\n👤 Yoasobi • ⏱️ `01:05` • 👁️ 686.6M views\n"
    );
    match search_menu_row(&cs) {
        ActionRow::SelectMenu { custom_id, options, .. } => {
            assert_eq!(custom_id, "search_select");
            assert_eq!(options.len(), 2);
            assert_eq!(options[1].label, "2. Yoru - Yoasobi (01:05)");
            assert_eq!(options[1].value, "1");
            assert_eq!(options[0].description, "686.6M views • YouTube");
        }
        _ => panic!("expected a menu"),
    }
    assert_eq!(search_pick(Some("1")), Some(1));
    assert_eq!(search_pick(Some("x")), None);
    assert_eq!(search_pick(None), None);
    assert_eq!(handle_component("search_select"), ComponentRoute::Search);
}

#[test]
fn a_pick_queues_exactly_that_candidate() {
    let cs = vec![track("a"), track("b"), track("c")];
    let mut q = QueueManager::new();
    q.set_loop_mode(1, LoopMode::Track);
    let out = enqueue_choice(&mut q, 1, &cs, 1, false).unwrap();
    assert_eq!(q.get_queue(1).len(), 1);
    assert_eq!(q.get_queue(1)[0].title, "b");
    let start = out.start.unwrap();
    assert_eq!(start.track.title, "b");
    assert!(start.enable_loop);
    assert_eq!(out.queue_len, 1);
    let out2 = enqueue_choice(&mut q, 1, &cs, 0, true).unwrap();
    assert!(out2.start.is_none());
    assert_eq!(out2.queue_len, 2);
    assert!(enqueue_choice(&mut q, 1, &cs, 3, false).is_none());
    assert_eq!(q.get_queue(1).len(), 2);
}

#[test]
fn position_zero_is_refused_by_jump_and_remove() {
    let mut q = QueueManager::new();
    for t in ["a", "b", "c"] {
        q.push_track(1, track(t));
    }
    assert!(jump_request(&mut q, 1, Some(0)).is_none());
    assert!(jump_request(&mut q, 1, None).is_none());
    assert!(remove_request(&mut q, 1, 0).is_none());
    assert_eq!(q.get_queue(1).len(), 3);
    assert!(jump_request(&mut q, 1, Some(7)).is_none());
    let s = jump_request(&mut q, 1, Some(2)).unwrap();
    assert_eq!(s.track.title, "c");
    assert!(!s.enable_loop);
    assert_eq!(q.get_queue(1).len(), 1);
    q.set_loop_mode(1, LoopMode::Track);
    let r = replay_request(&q, 1).unwrap();
    assert_eq!(r.track.title, "c");
    assert!(r.enable_loop);
    q.push_track(1, track("d"));
    assert_eq!(remove_request(&mut q, 1, 1).unwrap().title, "d");
}

#[test]
fn now_playing_card_and_player_buttons() {
    let (e, row) = now_playing_card(&track("a"), 4, LoopMode::Off, false);
    assert_eq!(e.fields.len(), 4);
    assert_eq!(e.fields[3].name, "📜 Up Next");
    assert_eq!(e.fields[3].value, "4 track(s) in queue");
    match row {
        ActionRow::Buttons(bs) => {
            let ids: Vec<&str> = bs.iter().map(|b| b.custom_id.as_str()).collect();
            assert_eq!(ids, vec!["music_pause", "music_skip", "music_loop", "music_stop"]);
            assert_eq!(bs[3].style, ButtonStyle::Danger);
        }
        _ => panic!("expected buttons"),
    }
    let (_, paused_row) = now_playing_card(&track("a"), 0, LoopMode::Off, true);
    match paused_row {
        ActionRow::Buttons(bs) => assert_eq!(bs[0].custom_id, "music_resume"),
        _ => panic!("expected buttons"),
    }
    assert_eq!(music_action("music_skip"), MusicAction::Skip);
    assert_eq!(music_action("music_loop"), MusicAction::Loop);
    assert_eq!(music_action("music_x"), MusicAction::Other);
    assert_eq!(next_loop_mode(LoopMode::Off), LoopMode::Track);
    assert_eq!(next_loop_mode(LoopMode::Track), LoopMode::Queue);
    assert_eq!(next_loop_mode(LoopMode::Queue), LoopMode::Off);
    assert!(still_playing(&Some(track("a")), &Some(track("a"))));
    assert!(!still_playing(&Some(track("a")), &Some(track("b"))));
    assert!(!still_playing(&Some(track("a")), &None));
}

#[test]
fn autoplay_tries_the_mix_then_the_search() {
    let seed = yt("Seed", "abcdefghijk");
    let history = vec![yt("Old", "zzzzzzzzzzz")];
    match autoplay_step(&seed, &history, &AutoplayEvent::Start) {
        Ok(AutoplayAction::ResolveMix(u)) => {
            assert_eq!(u, "https://www.youtube.com/watch?v=abcdefghijk&list=RDabcdefghijk")
        }
        _ => panic!("expected the Mix first"),
    }
    let mix = vec![yt("seed", "abcdefghijk"), yt("Old again", "zzzzzzzzzzz")];
    match autoplay_step(&seed, &history, &AutoplayEvent::MixAnswered(Some(mix))) {
        Ok(AutoplayAction::ResolveSearch(q)) => assert_eq!(q, "ytsearch15:Seed songs"),
        _ => panic!("expected the fallback search"),
    }
    let found = vec![yt("Fresh", "fffffffffff")];
    match autoplay_step(&seed, &history, &AutoplayEvent::SearchAnswered(Some(found))) {
        Ok(AutoplayAction::Done(Some(t))) => assert_eq!(t.title, "Fresh"),
        _ => panic!("expected a recommendation"),
    }
    match autoplay_step(&seed, &history, &AutoplayEvent::SearchAnswered(None)) {
        Ok(AutoplayAction::Done(None)) => {}
        _ => panic!("expected no recommendation"),
    }
    let plain = track("Plain");
    match autoplay_step(&plain, &history, &AutoplayEvent::Start) {
        Ok(AutoplayAction::ResolveSearch(q)) => assert_eq!(q, "ytsearch15:Yoasobi songs"),
        _ => panic!("expected the search for a track without a video id"),
    }
}
