use mpd_bot::song::{QueuePlace, SongRomanizations, Track};

#[test]
fn format_duration() {
    assert_eq!("0:00", mpd_bot::duration::format_duration(0));
    assert_eq!("0:10", mpd_bot::duration::format_duration(10));
    assert_eq!("0:59", mpd_bot::duration::format_duration(59));
    assert_eq!("1:00", mpd_bot::duration::format_duration(60));
    assert_eq!("1:10", mpd_bot::duration::format_duration(70));
    assert_eq!("10:42", mpd_bot::duration::format_duration(10 * 60 + 42));
    assert_eq!("59:59", mpd_bot::duration::format_duration(59 * 60 + 59));
    assert_eq!("1:00:00", mpd_bot::duration::format_duration(3600));
    assert_eq!(
        "42:42:42",
        mpd_bot::duration::format_duration(42 * 3600 + 42 * 60 + 42)
    );
}

#[test]
fn format_duration_long_form_boundary() {
    // The hours form appears exactly from one hour on, with zero-padded
    // minutes and seconds and an unpadded leading unit.
    assert_eq!("59:59", mpd_bot::duration::format_duration(3599));
    assert_eq!("1:00:00", mpd_bot::duration::format_duration(3600));
    assert_eq!("42:41:22", mpd_bot::duration::format_duration(153682));
    assert_eq!("100:00:01", mpd_bot::duration::format_duration(360001));
}

fn plain_song() -> Track {
    Track {
        file: "music/a.flac".to_string(),
        title: Some("太陽のKiss".to_string()),
        artist: None,
        duration_secs: Some(125),
        place: None,
        tags: Vec::new(),
    }
}

#[test]
fn info_block_title_and_duration_only() {
    let song = plain_song();
    let rom = SongRomanizations {
        title: Some("Taiyou no Kiss".to_string()),
        artist: None,
        album: None,
    };
    let block = mpd_bot::song::format_song_info(&song, &rom);
    assert_eq!(
        block,
        "```\nTitle:    太陽のKiss (Taiyou no Kiss)\nDuration: 2:05\n```"
    );
}

#[test]
fn info_block_falls_back_to_file_and_skips_equal_romanization() {
    let song = Track {
        file: "music/b.flac".to_string(),
        title: None,
        artist: Some("Halozy".to_string()),
        duration_secs: None,
        place: None,
        tags: vec![("Album".to_string(), "Cosmic Armonica".to_string())],
    };
    let rom = SongRomanizations {
        title: None,
        artist: Some("Halozy".to_string()),
        album: Some("Cosmic Armonica".to_string()),
    };
    let block = mpd_bot::song::format_song_info(&song, &rom);
    assert_eq!(
        block,
        "```\nTitle:    music/b.flac\nArtist:   Halozy\nAlbum:    Cosmic Armonica\n```"
    );
}

#[test]
fn add_romanization_appends_only_when_different() {
    assert_eq!(
        mpd_bot::song::add_romanization("same".to_string(), "same"),
        "same"
    );
    assert_eq!(
        mpd_bot::song::add_romanization("太陽".to_string(), "taiyou"),
        "太陽 (taiyou)"
    );
}

#[test]
fn tag_lookup_finds_first_match() {
    let tags = vec![
        ("Genre".to_string(), "Pop".to_string()),
        ("Album".to_string(), "First".to_string()),
        ("Album".to_string(), "Second".to_string()),
    ];
    assert_eq!(mpd_bot::song::tag_value(&tags, "Album"), Some(&"First".to_string()));
    assert_eq!(mpd_bot::song::tag_value(&tags, "Artist"), None);
}

#[test]
fn queue_rendering_pairs_lines_with_songs() {
    let songs = vec![Track {
        file: "music/c.flac".to_string(),
        title: Some("太陽のKiss".to_string()),
        artist: None,
        duration_secs: Some(125),
        place: Some(QueuePlace { id: 7, pos: 3 }),
        tags: vec![("Album".to_string(), "Sunny".to_string())],
    }];
    let titles = mpd_bot::queue_view::queue_titles(&songs);
    assert_eq!(titles, vec!["太陽のKiss".to_string()]);
    let rendered = mpd_bot::queue_view::render_queue(&songs, " Taiyou no Kiss");
    assert_eq!(
        rendered,
        Some("0003: unknown - Sunny - 太陽のKiss (Taiyou no Kiss)\n".to_string())
    );
}

#[test]
fn queue_rendering_rejects_mismatched_line_count() {
    let songs = vec![
        Track {
            file: "a".to_string(),
            title: Some("one".to_string()),
            artist: None,
            duration_secs: None,
            place: Some(QueuePlace { id: 1, pos: 0 }),
            tags: Vec::new(),
        },
        Track {
            file: "b".to_string(),
            title: Some("two".to_string()),
            artist: None,
            duration_secs: None,
            place: Some(QueuePlace { id: 2, pos: 1 }),
            tags: Vec::new(),
        },
    ];
    assert_eq!(mpd_bot::queue_view::render_queue(&songs, "only one line"), None);
    let ok = mpd_bot::queue_view::render_queue(&songs, "one\ntwo");
    assert_eq!(
        ok,
        Some("0000: unknown - unknown - one (one)\n0001: unknown - unknown - two (two)\n".to_string())
    );
}

#[test]
fn join_and_split_are_inverse_on_clean_lines() {
    let pieces = vec!["one".to_string(), "two".to_string(), "three".to_string()];
    let joined = mpd_bot::text::join_char(&pieces, '\n');
    assert_eq!(joined, "one\ntwo\nthree");
    let back = mpd_bot::text::split_char(&joined, '\n');
    assert_eq!(back, pieces);
}

#[test]
fn split_keeps_empty_pieces() {
    assert_eq!(
        mpd_bot::text::split_char("a  b", ' '),
        vec!["a".to_string(), "".to_string(), "b".to_string()]
    );
    assert_eq!(mpd_bot::text::split_char("", ' '), vec!["".to_string()]);
}

#[test]
fn trim_removes_only_surrounding_whitespace() {
    assert_eq!(mpd_bot::text::trim_str("  a b \n"), "a b");
    assert_eq!(mpd_bot::text::trim_str("\n\t \r"), "");
    assert_eq!(mpd_bot::text::trim_str("ab"), "ab");
    // the full Unicode white-space set counts, the ideographic space included
    assert_eq!(mpd_bot::text::trim_str("\u{3000}太陽\u{3000}\u{a0}"), "太陽");
    assert_eq!("\u{3000}a\u{3000}".trim(), mpd_bot::text::trim_str("\u{3000}a\u{3000}"));
}
