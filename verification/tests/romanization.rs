use mpd_bot::romanize::{check_transform, RomanizeStep, RomanizeTask};

#[test]
fn latin_text_is_its_own_romanization() {
    let task = RomanizeTask::new("U&I [GAME Mix] 42".to_string(), 3);
    assert_eq!(task.result(), Some(&"U&I [GAME Mix] 42".to_string()));
}

#[test]
fn mixed_script_text_needs_the_transform() {
    let task = RomanizeTask::new("太陽のKiss".to_string(), 3);
    assert_eq!(task.result(), None);
    assert!(task.needs_transform());
    assert_eq!(task.input(), "太陽のKiss");
}

#[test]
fn sound_output_is_accepted_trimmed() {
    let mut task = RomanizeTask::new("太陽のKiss".to_string(), 3);
    let step = task.offer("Taiyou no Kiss\n");
    assert_eq!(step, RomanizeStep::Accepted);
    assert_eq!(task.result(), Some(&"Taiyou no Kiss".to_string()));
    assert!(!task.needs_transform());
}

#[test]
fn marker_is_rewritten_to_plain_tilde() {
    let mut task = RomanizeTask::new("U&I ～夕日～ U&I".to_string(), 3);
    let step = task.offer("U&I ～yuuhi～ U&I\n");
    assert_eq!(step, RomanizeStep::Accepted);
    assert_eq!(task.result(), Some(&"U&I ~yuuhi~ U&I".to_string()));
}

#[test]
fn corrupted_output_triggers_retry_then_unavailable() {
    let mut task = RomanizeTask::new("太陽".to_string(), 2);
    // no trailing newline: the line check fails and one attempt is spent
    assert_eq!(task.offer("taiyou"), RomanizeStep::RetryNeeded);
    assert_eq!(task.result(), None);
    assert!(task.needs_transform());
    // the transform stays broken: the attempts run out
    assert_eq!(task.offer(""), RomanizeStep::Unavailable);
    assert_eq!(task.result(), None);
    assert!(!task.needs_transform());
}

#[test]
fn multi_line_output_keeps_line_parity() {
    let mut task = RomanizeTask::new("太陽\n夕日".to_string(), 3);
    // one newline in, two newlines out: accepted, and the result splits back
    // into exactly as many lines as the input had
    assert_eq!(task.offer("taiyou\nyuuhi\n"), RomanizeStep::Accepted);
    let out = task.result().unwrap();
    assert_eq!(out, "taiyou\nyuuhi");
    assert_eq!(out.split('\n').count(), 2);
}

#[test]
fn misaligned_multi_line_output_is_rejected() {
    let mut task = RomanizeTask::new("太陽\n夕日".to_string(), 3);
    // right raw newline count, but both land at the edges and trimming eats
    // them: splitting would go wrong, so the output is rejected
    assert_eq!(task.offer("\ntaiyou yuuhi\n"), RomanizeStep::RetryNeeded);
    assert_eq!(task.result(), None);
}

#[test]
fn check_transform_judges_line_counts() {
    assert_eq!(check_transform("あ", "a\n"), Some("a".to_string()));
    assert_eq!(check_transform("あ", ""), None);
    assert_eq!(check_transform("あ", "a"), None);
    assert_eq!(check_transform("あ", "a\nb\n"), None);
    assert_eq!(check_transform("あ", "  ～a～  \n"), Some("~a~".to_string()));
    // padding with the ideographic space is trimmed like any other whitespace
    assert_eq!(check_transform("あ", "\u{3000}a\u{3000}\n"), Some("a".to_string()));
}

#[test]
fn romanize() {
    // the verified half of each pair: the task accepts the transform's raw
    // output and finalizes it (trailing newline trimmed, fullwidth tilde
    // rewritten) to exactly the expected romanization
    let mut task = RomanizeTask::new("太陽のKiss".to_string(), 3);
    assert_eq!(task.offer("Taiyou no Kiss\n"), RomanizeStep::Accepted);
    assert_eq!("Taiyou no Kiss", task.result().unwrap());

    let mut task = RomanizeTask::new("U&I ～夕日の綺麗なあの丘で～ U&I".to_string(), 3);
    assert_eq!(
        task.offer("U&I ～ Yuuhi no Kirei naano Oka de ～ U&I\n"),
        RomanizeStep::Accepted
    );
    assert_eq!("U&I ~ Yuuhi no Kirei naano Oka de ~ U&I", task.result().unwrap());

    let mut task = RomanizeTask::new("ふでペン ～ボールペン～ [GAME Mix]".to_string(), 3);
    assert_eq!(
        task.offer("fude pen ～ bōrupen ～ [GAME Mix]\n"),
        RomanizeStep::Accepted
    );
    assert_eq!("fude pen ~ bōrupen ~ [GAME Mix]", task.result().unwrap());
}
