use discord_music_bot::queue::{LoopMode, QueueManager};
use discord_music_bot::track::{TrackDuration, TrackMetadata};

fn track(title: &str) -> TrackMetadata {
    TrackMetadata {
        title: title.to_string(),
        url: format!("https://www.youtube.com/watch?v={}", title),
        stream_url: format!("https://www.youtube.com/watch?v={}", title),
        duration: Some(TrackDuration::from_secs(60)),
        thumbnail: None,
        author: Some("Artist".to_string()),
        source: "YouTube".to_string(),
        requester: None,
        view_count: None,
    }
}

fn titles(q: &[TrackMetadata]) -> Vec<String> {
    q.iter().map(|t| t.title.clone()).collect()
}

#[test]
fn loop_mode_names_and_emojis() {
    assert_eq!(LoopMode::Off.as_str(), "Off");
    assert_eq!(LoopMode::Track.as_str(), "Track (1 Song)");
    assert_eq!(LoopMode::Queue.as_str(), "Entire Queue");
    assert_eq!(LoopMode::Off.emoji(), "➡️");
    assert_eq!(LoopMode::Track.emoji(), "🔂");
    assert_eq!(LoopMode::Queue.emoji(), "🔁");
    assert_eq!(LoopMode::default(), LoopMode::Off);
}

#[test]
fn new_manager_is_empty() {
    let q = QueueManager::new();
    assert!(q.get_queue(1).is_empty());
    assert!(q.get_current(1).is_none());
    assert_eq!(q.get_loop_mode(1), LoopMode::Off);
    assert!(!q.get_shuffle(1));
    assert_eq!(q.get_text_channel(1), None);
}

#[test]
fn push_track_appends_and_current_is_front() {
    let mut q = QueueManager::new();
    q.push_track(1, track("a"));
    q.push_track(1, track("b"));
    assert_eq!(titles(&q.get_queue(1)), vec!["a", "b"]);
    assert_eq!(q.get_current(1).unwrap().title, "a");
    assert!(q.get_queue(2).is_empty());
}

#[test]
fn advance_drops_current() {
    let mut q = QueueManager::new();
    for t in ["a", "b", "c"] {
        q.push_track(1, track(t));
    }
    assert_eq!(q.advance(1).unwrap().title, "b");
    assert_eq!(titles(&q.get_queue(1)), vec!["b", "c"]);
    assert_eq!(q.advance(1).unwrap().title, "c");
    assert!(q.advance(1).is_none());
    assert!(q.get_queue(1).is_empty());
    assert!(q.advance(1).is_none());
    assert!(q.advance(9).is_none());
}

#[test]
fn cycle_moves_front_to_back() {
    let mut q = QueueManager::new();
    for t in ["a", "b", "c"] {
        q.push_track(1, track(t));
    }
    assert_eq!(q.cycle_queue(1).unwrap().title, "b");
    assert_eq!(titles(&q.get_queue(1)), vec!["b", "c", "a"]);
    assert!(q.cycle_queue(5).is_none());
}

#[test]
fn cycle_returns_to_start_after_len_cycles() {
    let mut q = QueueManager::new();
    for t in ["a", "b", "c", "d"] {
        q.push_track(1, track(t));
    }
    let mut played = Vec::new();
    for _ in 0..4 {
        played.push(q.get_current(1).unwrap().title);
        q.cycle_queue(1);
    }
    assert_eq!(played, vec!["a", "b", "c", "d"]);
    assert_eq!(titles(&q.get_queue(1)), vec!["a", "b", "c", "d"]);
}

#[test]
fn cycle_with_shuffle_keeps_tracks() {
    let mut q = QueueManager::new();
    for t in ["a", "b", "c", "d", "e"] {
        q.push_track(1, track(t));
    }
    assert!(q.toggle_shuffle(1));
    let next = q.cycle_queue(1).unwrap();
    let mut now = titles(&q.get_queue(1));
    assert_eq!(now.len(), 5);
    assert_eq!(now[0], next.title);
    now.sort();
    assert_eq!(now, vec!["a", "b", "c", "d", "e"]);
}

#[test]
fn toggle_shuffle_keeps_front_and_tracks() {
    let mut q = QueueManager::new();
    for t in ["a", "b", "c", "d", "e", "f"] {
        q.push_track(1, track(t));
    }
    assert!(q.toggle_shuffle(1));
    assert!(q.get_shuffle(1));
    let now = titles(&q.get_queue(1));
    assert_eq!(now[0], "a");
    let mut sorted = now.clone();
    sorted.sort();
    assert_eq!(sorted, vec!["a", "b", "c", "d", "e", "f"]);
    assert!(!q.toggle_shuffle(1));
    assert!(!q.get_shuffle(1));
    assert_eq!(titles(&q.get_queue(1)), now);
}

#[test]
fn toggle_shuffle_on_short_queue_keeps_order() {
    let mut q = QueueManager::new();
    q.push_track(1, track("a"));
    q.push_track(1, track("b"));
    assert!(q.toggle_shuffle(1));
    assert_eq!(titles(&q.get_queue(1)), vec!["a", "b"]);
}

#[test]
fn push_playlist_without_shuffle_appends_in_order() {
    let mut q = QueueManager::new();
    q.push_track(1, track("a"));
    q.push_playlist(1, vec![track("b"), track("c")]);
    assert_eq!(titles(&q.get_queue(1)), vec!["a", "b", "c"]);
    q.push_playlist(1, vec![]);
    assert_eq!(titles(&q.get_queue(1)), vec!["a", "b", "c"]);
}

#[test]
fn push_playlist_with_shuffle_keeps_queued_tracks_first() {
    let mut q = QueueManager::new();
    q.push_track(1, track("a"));
    q.push_track(1, track("b"));
    q.toggle_shuffle(1);
    let before = titles(&q.get_queue(1));
    q.push_playlist(1, vec![track("c"), track("d"), track("e")]);
    let now = titles(&q.get_queue(1));
    assert_eq!(&now[..2], &before[..]);
    let mut tail = now[2..].to_vec();
    tail.sort();
    assert_eq!(tail, vec!["c", "d", "e"]);
}

#[test]
fn push_playlist_with_shuffle_into_empty_queue_keeps_first() {
    let mut q = QueueManager::new();
    q.toggle_shuffle(1);
    q.push_playlist(1, vec![track("a"), track("b"), track("c"), track("d")]);
    let now = titles(&q.get_queue(1));
    assert_eq!(now[0], "a");
    let mut sorted = now.clone();
    sorted.sort();
    assert_eq!(sorted, vec!["a", "b", "c", "d"]);
}

#[test]
fn jump_to_makes_target_current() {
    let mut q = QueueManager::new();
    for t in ["a", "b", "c", "d"] {
        q.push_track(1, track(t));
    }
    assert_eq!(q.jump_to(1, 2).unwrap().title, "c");
    assert_eq!(titles(&q.get_queue(1)), vec!["c", "d"]);
    assert!(q.jump_to(1, 2).is_none());
    assert_eq!(titles(&q.get_queue(1)), vec!["c", "d"]);
}

#[test]
fn clear_resets_everything() {
    let mut q = QueueManager::new();
    q.push_track(1, track("a"));
    q.set_loop_mode(1, LoopMode::Queue);
    q.toggle_shuffle(1);
    q.push_track(2, track("x"));
    q.clear(1);
    assert!(q.get_queue(1).is_empty());
    assert_eq!(q.get_loop_mode(1), LoopMode::Off);
    assert!(!q.get_shuffle(1));
    assert_eq!(titles(&q.get_queue(2)), vec!["x"]);
}

#[test]
fn set_loop_mode_is_read_back() {
    let mut q = QueueManager::new();
    q.set_loop_mode(3, LoopMode::Track);
    assert_eq!(q.get_loop_mode(3), LoopMode::Track);
    assert_eq!(q.get_loop_mode(4), LoopMode::Off);
}

#[test]
fn clear_upcoming_keeps_current() {
    let mut q = QueueManager::new();
    for t in ["a", "b", "c"] {
        q.push_track(1, track(t));
    }
    assert_eq!(q.clear_upcoming(1), 2);
    assert_eq!(titles(&q.get_queue(1)), vec!["a"]);
    assert_eq!(q.clear_upcoming(1), 0);
    assert_eq!(q.clear_upcoming(7), 0);
}

#[test]
fn remove_at_removes_position() {
    let mut q = QueueManager::new();
    for t in ["a", "b", "c"] {
        q.push_track(1, track(t));
    }
    assert_eq!(q.remove_at(1, 1).unwrap().title, "b");
    assert_eq!(titles(&q.get_queue(1)), vec!["a", "c"]);
    assert!(q.remove_at(1, 5).is_none());
    assert_eq!(titles(&q.get_queue(1)), vec!["a", "c"]);
}

#[test]
fn text_channel_and_last_message_are_kept() {
    let mut q = QueueManager::new();
    q.set_text_channel(1, 42);
    q.set_last_message_id(1, 99);
    assert_eq!(q.get_text_channel(1), Some(42));
    assert_eq!(q.get_last_message_id(1), Some(99));
    assert_eq!(q.get_text_channel(2), None);
}

#[test]
fn recorded_current_track_wins_over_front() {
    let mut q = QueueManager::new();
    q.push_track(1, track("a"));
    q.push_track(1, track("b"));
    q.set_current_track(1, track("a"));
    q.advance(1);
    // The next track is loading; the recorded one is still reported.
    assert_eq!(q.get_current(1).unwrap().title, "a");
    q.set_current_track(1, track("b"));
    assert_eq!(q.get_current(1).unwrap().title, "b");
    assert!(q.get_current(2).is_none());
    q.clear(1);
    assert!(q.get_current(1).is_none());
}

#[test]
fn search_results_are_used_once_and_expire() {
    let mut q = QueueManager::new();
    q.set_search_results(10, 1, vec![track("a"), track("b")], 1000);
    q.set_search_results(11, 1, vec![track("c")], 1100);
    let got = q.take_search_results(10, 1200).unwrap();
    assert_eq!(titles(&got), vec!["a", "b"]);
    assert!(q.take_search_results(10, 1200).is_none());
    // Message 11 was stored at 1100: still there at 1400, gone at 1401.
    q.set_search_results(12, 2, vec![track("d")], 1401);
    assert!(q.take_search_results(11, 1401).is_none());
    assert_eq!(titles(&q.take_search_results(12, 1500).unwrap()), vec!["d"]);
    q.set_search_results(13, 3, vec![track("e")], 1500);
    assert_eq!(titles(&q.take_search_results(13, 1800).unwrap()), vec!["e"]);
}

#[test]
fn clear_drops_the_servers_searches_only() {
    let mut q = QueueManager::new();
    q.set_search_results(10, 1, vec![track("a")], 0);
    q.set_search_results(20, 2, vec![track("b")], 0);
    q.clear(1);
    assert!(q.take_search_results(10, 0).is_none());
    assert_eq!(titles(&q.take_search_results(20, 0).unwrap()), vec!["b"]);
}
