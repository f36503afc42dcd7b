use discord_music_bot::track::TrackDuration;
use discord_music_bot::utils::embed::{
    emoji_env_var, format_duration, source_color, source_emoji, source_icon_url,
};
use discord_music_bot::utils::voice::check_voice_channel;

#[test]
fn format_duration_minutes_and_hours() {
    assert_eq!(format_duration(None), "--:--");
    assert_eq!(format_duration(Some(TrackDuration::from_secs(0))), "00:00");
    assert_eq!(format_duration(Some(TrackDuration::from_secs(65))), "01:05");
    assert_eq!(format_duration(Some(TrackDuration::from_secs(3599))), "59:59");
    assert_eq!(format_duration(Some(TrackDuration::from_secs(3600))), "01:00:00");
    assert_eq!(format_duration(Some(TrackDuration::from_secs(3 * 3600 + 4 * 60 + 5))), "03:04:05");
    assert_eq!(format_duration(Some(TrackDuration::from_secs(100 * 3600))), "100:00:00");
    assert_eq!(format_duration(Some(TrackDuration::from_millis(61_999))), "01:01");
}

#[test]
fn icon_urls_per_source() {
    assert_eq!(source_icon_url("Spotify"), "https://raw.githubusercontent.com/walkxcode/dashboard-icons/main/png/spotify.png");
    assert_eq!(source_icon_url("YouTube"), "https://raw.githubusercontent.com/walkxcode/dashboard-icons/main/png/youtube.png");
    assert_eq!(source_icon_url("SoundCloud"), "https://raw.githubusercontent.com/walkxcode/dashboard-icons/main/png/soundcloud.png");
    assert_eq!(source_icon_url("Direct Stream"), "https://raw.githubusercontent.com/walkxcode/dashboard-icons/main/png/audiobookshelf.png");
}

#[test]
fn colors_per_source() {
    assert_eq!(source_color("Spotify"), (30, 215, 96));
    assert_eq!(source_color("YouTube"), (255, 0, 0));
    assert_eq!(source_color("SoundCloud"), (255, 85, 0));
    assert_eq!(source_color("other"), (88, 101, 242));
}

#[test]
fn emoji_settings() {
    assert_eq!(emoji_env_var("Spotify"), Some("EMOJI_SPOTIFY"));
    assert_eq!(emoji_env_var("YouTube"), Some("EMOJI_YOUTUBE"));
    assert_eq!(emoji_env_var("SoundCloud"), Some("EMOJI_SOUNDCLOUD"));
    assert_eq!(emoji_env_var("Direct Stream"), None);
    assert_eq!(source_emoji("YouTube", Some("  <:yt:1>\n")), Some("<:yt:1>".to_string()));
    assert_eq!(source_emoji("YouTube", Some("   ")), None);
    assert_eq!(source_emoji("YouTube", None), None);
    assert_eq!(source_emoji("Other", Some("x")), None);
    assert_eq!(source_emoji("Spotify", Some("\u{3000}x\u{a0}")), Some("x".to_string()));
}

#[test]
fn voice_channel_rule() {
    assert_eq!(check_voice_channel(false, Some(1), None), Err("❌ Server cache not found."));
    assert_eq!(check_voice_channel(true, None, None), Err("⚠️ You must be in a voice channel to use this command."));
    assert_eq!(check_voice_channel(true, Some(1), Some(2)), Err("⚠️ You must be in the same voice channel as the bot to use this command."));
    assert_eq!(check_voice_channel(true, Some(1), Some(1)), Ok(1));
    assert_eq!(check_voice_channel(true, Some(5), None), Ok(5));
}

#[test]
fn duration_arithmetic() {
    let a = TrackDuration::from_parts(1, 999_999_999);
    let b = TrackDuration::from_millis(1);
    let c = a.checked_add(&b).unwrap();
    assert_eq!(c.as_secs(), 2);
    assert_eq!(c.subsec_nanos(), 999_999);
    let big = TrackDuration::from_secs(u64::MAX);
    assert!(big.checked_add(&TrackDuration::from_secs(1)).is_none());
}
