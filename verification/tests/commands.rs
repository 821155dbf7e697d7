use music_bot::commands::play::{classify, PlayAction, PlayEvent, PlayState, Source};
use music_bot::commands::{
    join, parse_command, pause, queue, register, registered_commands, response_text, resume, skip,
    test_command, unknown_command, Command, OptionKind, OptionValue,
};
use music_bot::utils::track::{Length, TrackMeta};

fn track(title: &str, secs: u64) -> TrackMeta {
    TrackMeta { title: Some(title.to_string()), duration: Some(Length { secs, nanos: 0 }) }
}

#[test]
fn names_parse_to_commands() {
    assert_eq!(parse_command("test_command"), Some(Command::TestCommand));
    assert_eq!(parse_command("play"), Some(Command::Play));
    assert_eq!(parse_command("join"), Some(Command::Join));
    assert_eq!(parse_command("skip"), Some(Command::Skip));
    assert_eq!(parse_command("resume"), Some(Command::Resume));
    assert_eq!(parse_command("pause"), Some(Command::Pause));
    assert_eq!(parse_command("queue"), Some(Command::Queue));
    assert_eq!(parse_command("Play"), None);
    assert_eq!(parse_command(""), None);
}

#[test]
fn unknown_command_is_refused() {
    assert_eq!(unknown_command(), Err(Some("Такой комманды нет!".to_string())));
}

#[test]
fn replies_follow_outcomes() {
    assert_eq!(response_text(Ok(Some("hi".to_string()))), Some("hi".to_string()));
    assert_eq!(response_text(Ok(None)), None);
    assert_eq!(response_text(Err(None)), None);
    assert_eq!(
        response_text(Err(Some("boom".to_string()))),
        Some("🚀Ошибка: boom".to_string())
    );
}

#[test]
fn registered_names_dispatch_back() {
    let all = registered_commands();
    let names: Vec<&str> = all.iter().map(|c| c.name.as_str()).collect();
    assert_eq!(names, vec!["test_command", "play", "join", "skip", "resume", "pause", "queue"]);
    for c in [
        Command::TestCommand,
        Command::Play,
        Command::Join,
        Command::Skip,
        Command::Resume,
        Command::Pause,
        Command::Queue,
    ] {
        assert_eq!(parse_command(&register(c).name), Some(c));
    }
}

#[test]
fn registrations_carry_descriptions_and_options() {
    let p = music_bot::commands::play::register();
    assert_eq!(p.description, "Play music from youtube");
    assert_eq!(p.options.len(), 1);
    assert_eq!(p.options[0].name, "url_or_name");
    assert_eq!(p.options[0].description, "url to song or song name");
    assert_eq!(p.options[0].kind, OptionKind::Text);
    assert!(p.options[0].required);
    let t = test_command::register();
    assert_eq!(t.description, "just a test command");
    assert_eq!(t.options[0].name, "test_option");
    assert_eq!(t.options[0].kind, OptionKind::User);
    assert!(!t.options[0].required);
    assert_eq!(join::register().description, "Join to your voice channel");
    assert_eq!(pause::register().description, "Pause bot");
    assert_eq!(resume::register().description, "Resume bot");
    assert_eq!(queue::register().description, "Show queue");
    assert_eq!(skip::register().description, "Skip current track");
    assert!(skip::register().options.is_empty());
}

#[test]
fn test_command_pings_user() {
    let r = test_command::run(&vec![Some(OptionValue::User { name: "alice".to_string() })]);
    assert_eq!(r, Ok(Some("Вы пинганули alice".to_string())));
    let r = test_command::run(&vec![Some(OptionValue::Text("x".to_string()))]);
    assert_eq!(r, Err(Some("Вы никого не пинганули".to_string())));
    let r = test_command::run(&vec![Some(OptionValue::Other)]);
    assert_eq!(r, Err(Some("Вы никого не пинганули".to_string())));
}

#[test]
fn join_connects_or_stays_silent() {
    let plan = join::run(Some(42));
    assert_eq!(plan.connect_to, Some(42));
    assert_eq!(plan.notice, Some("Готово!".to_string()));
    assert_eq!(plan.outcome, Ok(None));
    let plan = join::run(None);
    assert_eq!(plan.connect_to, None);
    assert_eq!(plan.notice, None);
    assert_eq!(plan.outcome, Err(None));
}

#[test]
fn pause_and_resume_outcomes() {
    assert_eq!(pause::run(None), Err(Some("Ты не в голосовом канале!".to_string())));
    assert_eq!(pause::run(Some(false)), Err(Some("Нет треков в очереди".to_string())));
    assert_eq!(pause::run(Some(true)), Ok(Some("Готово".to_string())));
    assert_eq!(resume::run(None), Err(Some("Ты не в голосовом канале!".to_string())));
    assert_eq!(resume::run(Some(true)), Ok(Some("Готово".to_string())));
}

#[test]
fn queue_lists_numbered_tracks() {
    assert_eq!(queue::run(None), Err(Some("Ты не в голосовом канале!".to_string())));
    assert_eq!(queue::run(Some(vec![])), Ok(Some("🚀Очередь пуста!".to_string())));
    let r = queue::run(Some(vec![track("One", 183), track("Two", 5)]));
    assert_eq!(r, Ok(Some("🚀1) One (183s)\n2) Two (5s)".to_string())));
}

#[test]
fn queue_numbers_past_nine() {
    let tracks: Vec<TrackMeta> = (0..11).map(|i| track("t", i)).collect();
    let listing = queue::run(Some(tracks)).unwrap().unwrap();
    assert!(listing.ends_with("\n11) t (10s)"));
    assert_eq!(listing.lines().count(), 11);
}

#[test]
fn skip_names_the_next_track() {
    assert_eq!(skip::run(None), Err(Some("Ты не в голосовом канале!".to_string())));
    assert_eq!(skip::run(Some(vec![track("Old", 1)])), Ok(Some("🚀Очередь пуста!".to_string())));
    assert_eq!(skip::run(Some(vec![])), Ok(Some("🚀Очередь пуста!".to_string())));
    let r = skip::run(Some(vec![track("Old", 1), track("New", 90)]));
    assert_eq!(r, Ok(Some("🚀Теперь играет: New (90s)".to_string())));
}

#[test]
fn classify_queries() {
    assert!(matches!(classify("https://music.yandex.ru/album/1/track/2"), Source::Yandex(q) if q == "https://music.yandex.ru/album/1/track/2"));
    assert!(matches!(classify("https://youtube.com/watch?v=1"), Source::Link(_)));
    assert!(matches!(classify("yandex song"), Source::Search(q) if q == "yandex song"));
}

fn finish(action: PlayAction) -> Result<Option<String>, Option<String>> {
    match action {
        PlayAction::Finish(r) => r,
        _ => panic!("expected the command to finish"),
    }
}

#[test]
fn play_runs_to_enqueue() {
    let (s, a) = PlayState::begin(&vec![Some(OptionValue::Text("never gonna".to_string()))]);
    assert!(matches!(a, PlayAction::FindUserChannel));
    let (s, a) = s.step(PlayEvent::UserChannel(Some(7)));
    assert!(matches!(a, PlayAction::Join(7)));
    let (s, a) = s.step(PlayEvent::Joined(Ok(())));
    assert!(matches!(a, PlayAction::FindSession));
    let (s, a) = s.step(PlayEvent::Session(true));
    assert!(matches!(a, PlayAction::Fetch(Source::Search(ref q)) if q == "never gonna"));
    let (s, a) = s.step(PlayEvent::Fetched(Some(track("Song", 212))));
    assert!(matches!(a, PlayAction::Enqueue));
    let (s, a) = s.step(PlayEvent::Enqueued { queue_len: 3 });
    assert!(matches!(s, PlayState::Finished));
    assert_eq!(finish(a), Ok(Some("🚀Включил Song (212s). Она 3 в очереди".to_string())));
}

#[test]
fn play_without_title() {
    let (s, _) = PlayState::begin(&vec![Some(OptionValue::Text("q".to_string()))]);
    let (s, _) = s.step(PlayEvent::UserChannel(Some(1)));
    let (s, _) = s.step(PlayEvent::Joined(Ok(())));
    let (s, _) = s.step(PlayEvent::Session(true));
    let (s, _) = s.step(PlayEvent::Fetched(Some(TrackMeta { title: None, duration: None })));
    let (_, a) = s.step(PlayEvent::Enqueued { queue_len: 1 });
    assert_eq!(finish(a), Ok(Some("🚀Включил".to_string())));
}

#[test]
fn play_refusals() {
    let (s, a) = PlayState::begin(&vec![Some(OptionValue::Other)]);
    assert!(matches!(s, PlayState::Finished));
    assert_eq!(finish(a), Err(Some("Не могу найти url".to_string())));

    let (s, _) = PlayState::begin(&vec![Some(OptionValue::Text("q".to_string()))]);
    let (_, a) = s.step(PlayEvent::UserChannel(None));
    assert_eq!(finish(a), Err(Some("Ты не в голосовом".to_string())));

    let (s, _) = PlayState::begin(&vec![Some(OptionValue::Text("q".to_string()))]);
    let (s, _) = s.step(PlayEvent::UserChannel(Some(1)));
    let (_, a) = s.step(PlayEvent::Joined(Err("no access".to_string())));
    assert_eq!(finish(a), Err(Some("no access".to_string())));

    let (s, _) = PlayState::begin(&vec![Some(OptionValue::Text("q".to_string()))]);
    let (s, _) = s.step(PlayEvent::UserChannel(Some(1)));
    let (s, _) = s.step(PlayEvent::Joined(Ok(())));
    let (_, a) = s.step(PlayEvent::Session(false));
    assert_eq!(finish(a), Ok(Some("🚀Включаю".to_string())));

    let (s, _) = PlayState::begin(&vec![Some(OptionValue::Text("https://x.com/a".to_string()))]);
    let (s, _) = s.step(PlayEvent::UserChannel(Some(1)));
    let (s, _) = s.step(PlayEvent::Joined(Ok(())));
    let (s, a) = s.step(PlayEvent::Session(true));
    assert!(matches!(a, PlayAction::Fetch(Source::Link(_))));
    let (_, a) = s.step(PlayEvent::Fetched(None));
    assert_eq!(finish(a), Err(Some("Не могу найти https://x.com/a".to_string())));
}
