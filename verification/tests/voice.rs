use std::collections::HashMap;

use music_bot::utils::track::{caption, Length, TrackMeta};
use music_bot::utils::voice::get_voice_channel_for_user;

#[test]
fn voice_channel_lookup() {
    let mut states: HashMap<u64, Option<u64>> = HashMap::new();
    states.insert(1, Some(100));
    states.insert(2, None);
    assert_eq!(get_voice_channel_for_user(&states, 1), Some(100));
    assert_eq!(get_voice_channel_for_user(&states, 2), None);
    assert_eq!(get_voice_channel_for_user(&states, 3), None);
}

#[test]
fn caption_uses_debug_duration() {
    let meta = TrackMeta {
        title: Some("Song".to_string()),
        duration: Some(Length { secs: 1, nanos: 500_000_000 }),
    };
    assert_eq!(caption(&meta), "Song (1.5s)");
    let meta = TrackMeta { title: Some("Short".to_string()), duration: Some(Length { secs: 0, nanos: 20_000_000 }) };
    assert_eq!(caption(&meta), "Short (20ms)");
}
