use music_bot::utils::yandex_music::{
    info_url, mp3_url, second_digit_run, select_download_url, stream_plan, track_id, DownloadInfo,
    FetchAction, FetchEvent, InvocationInfo, TrackFetch, TrackInfo, TrackInfoResult,
};

fn offer(codec: &str, bitrate: i32, url: &str) -> TrackInfoResult {
    TrackInfoResult {
        bitrate_in_kbps: bitrate,
        codec: codec.to_string(),
        direct: false,
        download_info_url: url.to_string(),
        gain: false,
        preview: false,
    }
}

fn answer(offers: Vec<TrackInfoResult>) -> TrackInfo {
    TrackInfo {
        invocation_info: InvocationInfo {
            exec_duration_millis: 3,
            hostname: "host".to_string(),
            req_id: "req".to_string(),
        },
        result: offers,
    }
}

fn download_info(path: &str) -> DownloadInfo {
    DownloadInfo {
        host: "s1.storage.example".to_string(),
        path: path.to_string(),
        ts: "0005f0".to_string(),
        region: -1,
        s: "secret".to_string(),
    }
}

#[test]
fn track_id_of_a_link_is_its_second_number() {
    assert_eq!(track_id("https://music.yandex.ru/album/123/track/456"), Some("456".to_string()));
    assert_eq!(track_id("https://music.yandex.ru/album/1a22b333/track/4"), Some("22".to_string()));
}

#[test]
fn track_id_of_plain_text_is_the_text() {
    assert_eq!(track_id("98765"), Some("98765".to_string()));
    assert_eq!(track_id("some song"), Some("some song".to_string()));
}

#[test]
fn track_id_of_a_link_with_one_number_is_missing() {
    assert_eq!(track_id("https://music.yandex.ru/track/77"), None);
    assert_eq!(track_id("http"), None);
}

#[test]
fn second_digit_run_picks_the_second() {
    let runs = vec!["1".to_string(), "22".to_string(), "333".to_string()];
    assert_eq!(second_digit_run(Some(runs)), Some("22".to_string()));
    assert_eq!(second_digit_run(Some(vec!["1".to_string()])), None);
    assert_eq!(second_digit_run(None), None);
}

#[test]
fn info_url_names_the_track() {
    assert_eq!(
        info_url("456"),
        "https://api.music.yandex.net/tracks/456/download-info?can_use_streaming=false"
    );
}

#[test]
fn select_takes_first_high_bitrate_mp3() {
    let info = answer(vec![
        offer("aac", 320, "aac-url"),
        offer("mp3", 192, "low-url"),
        offer("mp3", 320, "good-url"),
        offer("mp3", 320, "later-url"),
    ]);
    assert_eq!(select_download_url(&info), Some("good-url".to_string()));
}

#[test]
fn select_without_suitable_offer_is_none() {
    let info = answer(vec![offer("aac", 320, "a"), offer("mp3", 319, "b")]);
    assert_eq!(select_download_url(&info), None);
    assert_eq!(select_download_url(&answer(vec![])), None);
}

#[test]
fn mp3_url_is_signed_with_md5() {
    let url = mp3_url(&download_info("/music/track.mp3"));
    assert_eq!(
        url,
        "https://s1.storage.example/get-mp3/b3c59db96ce9cb674610b11d3f269c56/0005f0/music/track.mp3"
    );
}

#[test]
fn mp3_url_of_one_character_path() {
    // nothing of the path goes into the signature
    let url = mp3_url(&download_info("/"));
    assert_eq!(url, "https://s1.storage.example/get-mp3/43f4453eba27b5ecd71de1d855948d01/0005f0/");
}

#[test]
fn stream_plan_lists_both_commands() {
    let plan = stream_plan("https://h/x.mp3".to_string());
    assert_eq!(plan.url, "https://h/x.mp3");
    assert_eq!(plan.download_command, vec!["curl", "https://h/x.mp3", "--output", "-"]);
    assert_eq!(
        plan.transcode_command,
        vec!["ffmpeg", "-i", "-", "-f", "s16le", "-ac", "2", "-ar", "48000", "-acodec", "pcm_f32le", "-"]
    );
}

#[test]
fn fetch_runs_to_a_stream() {
    let (state, action) = TrackFetch::begin("456");
    assert!(matches!(state, TrackFetch::AwaitingTrackInfo));
    match action {
        FetchAction::Get(u) => assert_eq!(
            u,
            "https://api.music.yandex.net/tracks/456/download-info?can_use_streaming=false"
        ),
        _ => panic!("expected a request"),
    }
    let (state, action) = state.step(FetchEvent::TrackInfoReceived(answer(vec![offer(
        "mp3", 320, "https://info/1",
    )])));
    assert!(matches!(state, TrackFetch::AwaitingDownloadInfo));
    match action {
        FetchAction::Get(u) => assert_eq!(u, "https://info/1"),
        _ => panic!("expected a request"),
    }
    let (state, action) =
        state.step(FetchEvent::DownloadInfoReceived(download_info("/music/track.mp3")));
    assert!(matches!(state, TrackFetch::Finished));
    match action {
        FetchAction::Stream(plan) => {
            assert_eq!(
                plan.url,
                "https://s1.storage.example/get-mp3/b3c59db96ce9cb674610b11d3f269c56/0005f0/music/track.mp3"
            );
            assert_eq!(plan.download_command[1], plan.url);
        },
        _ => panic!("expected a stream"),
    }
}

#[test]
fn fetch_fails_when_refused() {
    let (state, _) = TrackFetch::begin("1");
    let (state, action) = state.step(FetchEvent::TrackInfoRefused);
    assert!(matches!(state, TrackFetch::Finished));
    match action {
        FetchAction::Fail(m) => assert_eq!(m, "Failed to get track info"),
        _ => panic!("expected a failure"),
    }
}

#[test]
fn fetch_fails_without_suitable_offer() {
    let (state, _) = TrackFetch::begin("1");
    let (state, action) =
        state.step(FetchEvent::TrackInfoReceived(answer(vec![offer("aac", 320, "x")])));
    assert!(matches!(state, TrackFetch::Finished));
    match action {
        FetchAction::Fail(m) => assert_eq!(m, "Failed to get track info"),
        _ => panic!("expected a failure"),
    }
}
