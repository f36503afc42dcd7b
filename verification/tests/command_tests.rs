use discord_music_bot::commands::control::{
    clear_reply, handle_help, handle_ping, jump_reply, leave_reply, parse_loop_mode, playback_reply,
    position_of, remove_reply, repeat_message, replay_reply, shuffle_message, PlaybackCommand,
};
use discord_music_bot::commands::events::track_end;
use discord_music_bot::commands::play::{enqueue_resolved, playlist_embed, requester_tag, tag_requester};
use discord_music_bot::commands::queue::{
    build_queue_view, now_playing_embed, queue_action, EmojiSettings, QueueAction,
};
use discord_music_bot::commands::{
    handle_command, handle_component, register_commands, CommandKind, ComponentRoute, OptionKind,
};
use discord_music_bot::queue::{LoopMode, QueueManager};
use discord_music_bot::track::{TrackDuration, TrackMetadata};
use discord_music_bot::utils::embed::{ActionRow, ButtonStyle};

fn track(title: &str, secs: u64) -> TrackMetadata {
    TrackMetadata {
        title: title.to_string(),
        url: format!("https://y/{}", title),
        stream_url: format!("https://y/{}", title),
        duration: Some(TrackDuration::from_secs(secs)),
        thumbnail: Some("th".to_string()),
        author: None,
        source: "YouTube".to_string(),
        requester: None,
        view_count: None,
    }
}

fn no_emojis() -> EmojiSettings {
    EmojiSettings { spotify: None, youtube: None, soundcloud: None }
}

#[test]
fn command_routing() {
    assert_eq!(handle_command("play"), CommandKind::Play);
    assert_eq!(handle_command("loop"), CommandKind::Repeat);
    assert_eq!(handle_command("repeat"), CommandKind::Repeat);
    assert_eq!(handle_command("nowplaying"), CommandKind::NowPlaying);
    assert_eq!(handle_command("dance"), CommandKind::Unknown);
    assert_eq!(handle_component("queue_page:1"), ComponentRoute::Queue);
    assert_eq!(handle_component("music_pause"), ComponentRoute::Music);
    assert_eq!(handle_component("other"), ComponentRoute::Ignore);
}

#[test]
fn registered_commands() {
    let cmds = register_commands();
    let names: Vec<&str> = cmds.iter().map(|c| c.name.as_str()).collect();
    assert_eq!(names, vec!["play", "pause", "resume", "skip", "replay", "stop", "queue", "nowplaying", "clear", "remove", "jump", "shuffle", "repeat", "loop", "volume", "leave", "ping", "help"]);
    for c in &cmds {
        assert_ne!(handle_command(&c.name), CommandKind::Unknown);
    }
    let volume = &cmds[14];
    assert_eq!(volume.options[0].kind, OptionKind::Integer);
    assert_eq!(volume.options[0].min, Some(1));
    assert_eq!(volume.options[0].max, Some(200));
    let repeat = &cmds[12];
    assert_eq!(repeat.options[0].choices.len(), 3);
    assert_eq!(repeat.options[0].choices[1], ("track (1 song)".to_string(), "track".to_string()));
}

#[test]
fn queue_view_first_page() {
    let q: Vec<TrackMetadata> = (0..12).map(|i| track(&format!("t{}", i), 30)).collect();
    let (embed, rows) = build_queue_view(&q, LoopMode::Queue, false, 0, &no_emojis());
    let desc = embed.description.unwrap();
    assert!(desc.starts_with("**▶️ Now Playing:**\n[**t0**](https://y/t0) • `YouTube` (`00:30`)\n\n**Up Next:**\n`01.` [**t1**](https://y/t1) • `YouTube` (`00:30`)\n"));
    assert!(desc.ends_with("`09.` [**t9**](https://y/t9) • `YouTube` (`00:30`)\n\n*...and 2 more tracks in queue*"));
    assert_eq!(embed.fields[0].value, "12");
    assert_eq!(embed.fields[1].value, "06:00");
    assert_eq!(embed.fields[2].value, "🔁 Entire Queue");
    assert_eq!(embed.fields[3].value, "➡️ Sequential (Off)");
    assert_eq!(embed.footer.unwrap().text, "Page 1/2 | Platform: YouTube | Loop: Entire Queue | Random: Off");
    assert_eq!(embed.author.unwrap().name, "Current Music Queue (YouTube)");
    assert_eq!(rows.len(), 4);
    match &rows[0] {
        ActionRow::SelectMenu { custom_id, options, .. } => {
            assert_eq!(custom_id, "queue_jump");
            assert_eq!(options.len(), 10);
            assert_eq!(options[0].description, "▶️ Currently Playing (YouTube)");
            assert_eq!(options[3].label, "3. t3 (00:30)");
            assert_eq!(options[3].value, "3");
            assert_eq!(options[3].description, "Jump to track #3 (YouTube)");
        }
        _ => panic!("expected the jump menu"),
    }
    match &rows[1] {
        ActionRow::Buttons(b) => {
            assert_eq!(b.len(), 5);
            assert_eq!(b[0].label, "▶️ #0 (Playing)");
            assert!(b[0].disabled);
            assert_eq!(b[0].style, ButtonStyle::Success);
            assert_eq!(b[4].custom_id, "queue_play:4");
            assert_eq!(b[4].label, "▶️ #04");
        }
        _ => panic!("expected buttons"),
    }
    match &rows[3] {
        ActionRow::Buttons(b) => {
            assert_eq!(b[0].custom_id, "queue_page:0");
            assert!(b[0].disabled);
            assert_eq!(b[1].label, "1/2");
            assert_eq!(b[2].custom_id, "queue_page:1");
            assert!(!b[2].disabled);
            assert_eq!(b[3].label, "🔀 Random: OFF");
        }
        _ => panic!("expected navigation"),
    }
}

#[test]
fn queue_view_later_page_and_clamp() {
    let q: Vec<TrackMetadata> = (0..12).map(|i| track(&format!("t{}", i), 3600)).collect();
    let (embed, rows) = build_queue_view(&q, LoopMode::Off, true, 7, &no_emojis());
    let desc = embed.description.unwrap();
    assert_eq!(desc, "**📋 Queue (Page 2/2):**\n`10.` [**t10**](https://y/t10) • `YouTube` (`01:00:00`)\n`11.` [**t11**](https://y/t11) • `YouTube` (`01:00:00`)\n");
    assert_eq!(embed.fields[1].value, "12:00:00");
    assert_eq!(embed.fields[3].value, "🔀 Shuffled (On)");
    assert_eq!(rows.len(), 3);
    match &rows[2] {
        ActionRow::Buttons(b) => {
            assert_eq!(b[0].custom_id, "queue_page:0");
            assert!(!b[0].disabled);
            assert!(b[2].disabled);
            assert_eq!(b[3].label, "🔀 Random: ON");
        }
        _ => panic!("expected navigation"),
    }
}

#[test]
fn queue_view_emoji_prefix_and_long_label() {
    let mut t = track(&"x".repeat(100), 5);
    t.source = "Spotify".to_string();
    let emojis = EmojiSettings { spotify: Some(" <:sp:1> ".to_string()), youtube: None, soundcloud: None };
    let (embed, rows) = build_queue_view(&vec![t], LoopMode::Track, false, 0, &emojis);
    assert!(embed.description.unwrap().starts_with("**▶️ Now Playing:**\n<:sp:1> [**"));
    match &rows[0] {
        ActionRow::SelectMenu { options, .. } => {
            assert_eq!(options[0].label.chars().count(), 95);
            assert!(options[0].label.ends_with("..."));
        }
        _ => panic!("expected the jump menu"),
    }
}

#[test]
fn queue_component_actions() {
    assert!(matches!(queue_action("queue_page:3", None), QueueAction::Page(3)));
    assert!(matches!(queue_action("queue_page:x", None), QueueAction::Page(0)));
    assert!(matches!(queue_action("queue_shuffle", None), QueueAction::Shuffle));
    assert!(matches!(queue_action("queue_play:12", None), QueueAction::Play(Some(12))));
    assert!(matches!(queue_action("queue_play:", None), QueueAction::Play(None)));
    assert!(matches!(queue_action("queue_jump", Some("4")), QueueAction::Play(Some(4))));
    assert!(matches!(queue_action("queue_jump", None), QueueAction::Play(None)));
    assert!(matches!(queue_action("queue_skip", None), QueueAction::Skip));
    assert!(matches!(queue_action("queue_stop", None), QueueAction::Stop));
    assert!(matches!(queue_action("queue_indicator", None), QueueAction::Other));
}

#[test]
fn now_playing_card() {
    let t = track("Song", 75);
    let e = now_playing_embed(&t, LoopMode::Track);
    assert_eq!(e.author.unwrap().name, "Now Playing (YouTube)");
    assert_eq!(e.title.unwrap(), "Song");
    assert_eq!(e.fields[0].value, "Unknown Artist");
    assert_eq!(e.fields[1].value, "01:15");
    assert_eq!(e.fields[2].value, "🔂 Track (1 Song)");
    assert_eq!(e.footer.unwrap().text, "Platform: YouTube");
    assert_eq!(e.color, Some((255, 0, 0)));
}

#[test]
fn playback_replies() {
    let r = playback_reply(PlaybackCommand::Pause, true, true);
    assert_eq!((r.text.as_str(), r.ephemeral), ("⏸️ Playback paused.", false));
    let r = playback_reply(PlaybackCommand::Resume, true, false);
    assert_eq!((r.text.as_str(), r.ephemeral), ("⚠️ Nothing is currently playing.", true));
    let r = playback_reply(PlaybackCommand::Skip, true, false);
    assert_eq!(r.text, "⚠️ Nothing is playing to skip.");
    let r = playback_reply(PlaybackCommand::Stop, false, true);
    assert_eq!((r.text.as_str(), r.ephemeral), ("⚠️ Bot is not connected to a voice channel.", true));
    let r = playback_reply(PlaybackCommand::Stop, true, false);
    assert_eq!(r.text, "⏹️ Playback stopped and queue cleared.");
    assert_eq!(leave_reply(true).text, "👋 Disconnected from voice channel.");
    assert_eq!(leave_reply(false).text, "⚠️ Bot is not in a voice channel.");
}

#[test]
fn repeat_and_shuffle_messages() {
    assert_eq!(parse_loop_mode(Some("track")), LoopMode::Track);
    assert_eq!(parse_loop_mode(Some("song")), LoopMode::Track);
    assert_eq!(parse_loop_mode(Some("queue")), LoopMode::Queue);
    assert_eq!(parse_loop_mode(Some("off")), LoopMode::Off);
    assert_eq!(parse_loop_mode(None), LoopMode::Off);
    assert_eq!(repeat_message(LoopMode::Queue), "🔁 Repeat mode set to **Entire Queue**");
    assert_eq!(shuffle_message(false), "➡️ Random / Shuffle mode **disabled**.");
    assert!(shuffle_message(true).starts_with("🔀"));
}

#[test]
fn position_replies() {
    assert_eq!(position_of(Some(3)), 3);
    assert_eq!(position_of(None), 0);
    assert_eq!(position_of(Some(-1)), usize::MAX);
    let t = track("Song", 1);
    let r = remove_reply(2, &Some(t.duplicate()));
    assert_eq!(r.text, "🗑️ Removed **#2** [**Song**](https://y/Song) from the queue.");
    assert!(remove_reply(9, &None).ephemeral);
    assert_eq!(remove_reply(9, &None).text, "⚠️ No track found at position **#9**.");
    assert!(remove_reply(0, &None).text.starts_with("⚠️ Position must be 1 or greater."));
    assert_eq!(jump_reply(4, &Some(t.duplicate())).text, "⏭️ Jumped to **#4**: [**Song**](https://y/Song)");
    assert_eq!(jump_reply(4, &None).text, "⚠️ Invalid track position **#4**.");
    assert_eq!(jump_reply(0, &None).text, "⚠️ Track #0 is already playing. Use `/replay` to restart it.");
    assert_eq!(replay_reply(&Some(t)).text, "🔄 Replaying: [**Song**](https://y/Song)");
    assert_eq!(clear_reply(3).text, "🗑️ Cleared **3** upcoming track(s) from the queue.");
    assert!(clear_reply(0).ephemeral);
}

#[test]
fn help_and_ping_cards() {
    let h = handle_help();
    assert_eq!(h.title.unwrap(), "📖 Discord Music Bot - Help Guide");
    assert_eq!(h.fields.len(), 11);
    let p = handle_ping();
    assert_eq!(p.title.unwrap(), "🏓 Pong!");
    assert_eq!(p.fields[1].value, "Songbird 48kHz Stereo Opus (96kbps)");
}

#[test]
fn track_end_advances_or_cycles() {
    let mut q = QueueManager::new();
    q.push_track(1, track("a", 1));
    q.push_track(1, track("b", 1));
    let step = track_end(&mut q, 1);
    assert_eq!(step.next.unwrap().title, "b");
    assert_eq!(step.upcoming, 0);
    assert!(!step.enable_loop);
    let step = track_end(&mut q, 1);
    assert!(step.next.is_none());

    let mut r = QueueManager::new();
    r.push_track(1, track("a", 1));
    r.push_track(1, track("b", 1));
    r.set_loop_mode(1, LoopMode::Queue);
    let step = track_end(&mut r, 1);
    assert_eq!(step.next.unwrap().title, "b");
    assert_eq!(step.upcoming, 1);
    let step = track_end(&mut r, 1);
    assert_eq!(step.next.unwrap().title, "a");

    let mut s = QueueManager::new();
    s.push_track(1, track("a", 1));
    s.push_track(1, track("b", 1));
    s.set_loop_mode(1, LoopMode::Track);
    assert!(track_end(&mut s, 1).enable_loop);
}

#[test]
fn play_queues_and_tags() {
    assert_eq!(requester_tag(42), "<@42>");
    let mut ts = vec![track("a", 1), track("b", 1)];
    tag_requester(&mut ts, "<@42>");
    assert!(ts.iter().all(|t| t.requester.as_deref() == Some("<@42>")));
    let mut q = QueueManager::new();
    let out = enqueue_resolved(&mut q, 1, ts, false);
    let start = out.start.unwrap();
    assert_eq!(start.track.title, "a");
    assert!(!start.enable_loop);
    assert_eq!(out.queue_len, 2);
    let out2 = enqueue_resolved(&mut q, 1, vec![track("c", 1)], true);
    assert!(out2.start.is_none());
    assert_eq!(out2.queue_len, 3);
    let e = playlist_embed(&track("a", 1), 2, 3, "<@42>");
    assert_eq!(e.author.unwrap().name, "YouTube Playlist Enqueued");
    assert_eq!(e.title.unwrap(), "Added 2 tracks to queue");
    assert_eq!(e.fields[0].value, "[**a**](https://y/a)");
    assert_eq!(e.fields[1].value, "3 tracks");
    assert_eq!(e.fields[2].value, "<@42>");
}

#[test]
fn queue_view_of_empty_queue() {
    let (embed, rows) = build_queue_view(&Vec::new(), LoopMode::Off, false, 3, &no_emojis());
    assert!(embed.author.is_none());
    assert!(embed.title.is_none());
    assert!(embed.description.is_none());
    assert!(embed.fields.is_empty());
    assert!(embed.footer.is_none());
    assert!(rows.is_empty());
}
