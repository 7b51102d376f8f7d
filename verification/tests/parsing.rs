use mpd_bot::command::{parse_command, parse_u32, Verb};

#[test]
fn play_with_argument() {
    let cmd = parse_command("!r play 3").unwrap();
    assert_eq!(cmd.verb, Verb::Play);
    assert_eq!(cmd.args, vec!["3".to_string()]);
}

#[test]
fn bare_prefix_defaults_to_join() {
    let cmd = parse_command("!r").unwrap();
    assert_eq!(cmd.verb, Verb::Join);
    assert!(cmd.args.is_empty());
}

#[test]
fn explicit_join() {
    let cmd = parse_command("!r join").unwrap();
    assert_eq!(cmd.verb, Verb::Join);
    assert!(cmd.args.is_empty());
}

#[test]
fn messages_without_the_exact_prefix_yield_no_command() {
    assert!(parse_command("hello there").is_none());
    assert!(parse_command("!radio play 3").is_none());
    assert!(parse_command(" !r play").is_none());
    assert!(parse_command("").is_none());
}

#[test]
fn every_verb_parses() {
    assert_eq!(parse_command("!r pause").unwrap().verb, Verb::Pause);
    assert_eq!(parse_command("!r next").unwrap().verb, Verb::Next);
    assert_eq!(parse_command("!r prev").unwrap().verb, Verb::Prev);
    assert_eq!(parse_command("!r info").unwrap().verb, Verb::Info);
    assert_eq!(parse_command("!r quit").unwrap().verb, Verb::Quit);
    assert_eq!(parse_command("!r frobnicate").unwrap().verb, Verb::Unknown);
}

#[test]
fn arguments_keep_their_order() {
    let cmd = parse_command("!r play 1 2 3").unwrap();
    assert_eq!(
        cmd.args,
        vec!["1".to_string(), "2".to_string(), "3".to_string()]
    );
}

#[test]
fn numeric_tokens() {
    assert_eq!(parse_u32("3"), Some(3));
    assert_eq!(parse_u32("+3"), Some(3));
    assert_eq!(parse_u32("007"), Some(7));
    assert_eq!(parse_u32("4294967295"), Some(u32::MAX));
    assert_eq!(parse_u32("4294967296"), None);
    assert_eq!(parse_u32("99999999999999999999"), None);
    assert_eq!(parse_u32(""), None);
    assert_eq!(parse_u32("+"), None);
    assert_eq!(parse_u32("12a"), None);
    assert_eq!(parse_u32("-1"), None);
}

#[test]
fn reply_texts_for_play() {
    assert_eq!(mpd_bot::dispatch::play_failure_reply(3), "Failed to play 3!");
    assert_eq!(mpd_bot::dispatch::play_failure_reply(1042), "Failed to play 1042!");
    assert_eq!(
        mpd_bot::dispatch::play_success_reply(&Some("Dream".to_string())),
        "Playing \"Dream\" now."
    );
    assert_eq!(
        mpd_bot::dispatch::play_success_reply(&None),
        "Playing \"???\" now."
    );
}

#[test]
fn reply_text_for_failed_voice_join() {
    assert_eq!(
        mpd_bot::dispatch::join_failure_reply("no permission"),
        "Error joining the channel: no permission"
    );
}

#[test]
fn play_reply_is_deterministic_per_switch_outcome() {
    assert_eq!(
        mpd_bot::dispatch::play_reply(3, false, &None),
        "Failed to play 3!"
    );
    assert_eq!(
        mpd_bot::dispatch::play_reply(3, true, &Some("太陽のKiss".to_string())),
        "Playing \"太陽のKiss\" now."
    );
    assert_eq!(mpd_bot::dispatch::play_reply(3, true, &None), "Playing \"???\" now.");
}

#[test]
fn info_outcome_follows_the_daemon_answer() {
    match mpd_bot::dispatch::info_outcome(None) {
        mpd_bot::dispatch::Dispatched::Reply(t) => {
            assert_eq!(t, "Currently no song is playing!")
        }
        _ => panic!("no current song must be answered with the no-song reply"),
    }
    let song = mpd_bot::song::Track {
        file: "music/a.flac".to_string(),
        title: Some("太陽のKiss".to_string()),
        artist: None,
        duration_secs: Some(125),
        place: None,
        tags: Vec::new(),
    };
    match mpd_bot::dispatch::info_outcome(Some(song)) {
        mpd_bot::dispatch::Dispatched::ShowInfo { song } => {
            assert_eq!(song.title, Some("太陽のKiss".to_string()));
            assert_eq!(song.duration_secs, Some(125));
        }
        _ => panic!("a current song must be shown"),
    }
}
