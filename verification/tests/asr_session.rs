use voicedown::asr_session::{
    closing_event, feed_goes_on, result_actions, should_warn, AsrInput, AsrMode, DropWarner,
    FeedInput, DROP_WARN_INTERVAL_MS, FLUSH_TIMEOUT_MS,
};
use voicedown::dictionary::Dictionary;
use voicedown::python_bridge::AsrResult;

fn result(text: &str, is_final: bool, error: Option<&str>) -> AsrResult {
    AsrResult { text: text.into(), is_final, error: error.map(|e| e.to_string()) }
}

#[test]
fn warn_no_drops_false() {
    assert!(!should_warn(DROP_WARN_INTERVAL_MS * 10, 0));
}

#[test]
fn warn_first_or_after_interval() {
    assert!(should_warn(DROP_WARN_INTERVAL_MS, 3));
    assert!(should_warn(DROP_WARN_INTERVAL_MS + 1, 1));
}

#[test]
fn warn_throttled_within_interval() {
    assert!(!should_warn(DROP_WARN_INTERVAL_MS - 1, 100));
    assert!(!should_warn(0, 5));
}

#[test]
fn warnings_keep_their_distance() {
    let mut w = DropWarner::new();
    assert_eq!(w.check(0, 0), None);
    assert_eq!(w.check(2, 10), Some(2));
    assert_eq!(w.check(5, 20), None);
    assert_eq!(w.check(5, 10 + DROP_WARN_INTERVAL_MS), Some(5));
    assert_eq!(w.check(5, 1_000_000), None);
    assert_eq!(w.check(6, 1_000_000), Some(6));
}

#[test]
fn results_go_where_they_belong() {
    let mut d = Dictionary::new();
    d.insert("電腦".into(), "計算機".into());
    let mut transcript = "前".to_string();
    let a = result_actions(result("電腦", true, None), &d, true, true, &mut transcript);
    assert_eq!(a.to_optimizer.as_deref(), Some("计算机"));
    assert_eq!(a.to_punc.as_deref(), Some("计算机"));
    assert!(a.show.is_none());
    assert!(a.error.is_none());
    assert_eq!(transcript, "前");
    let a = result_actions(result("好", true, Some("e")), &d, false, false, &mut transcript);
    assert!(a.to_optimizer.is_none());
    assert!(a.to_punc.is_none());
    assert_eq!(a.error.as_deref(), Some("e"));
    let show = a.show.unwrap();
    assert_eq!(show.text, "好");
    assert_eq!(show.full_text, "前好");
    assert_eq!(show.language, "auto");
    assert!(show.is_final);
    assert_eq!(transcript, "前好");
    let a = result_actions(result("", false, Some("e")), &d, true, true, &mut transcript);
    assert!(a.to_optimizer.is_none() && a.to_punc.is_none() && a.show.is_none());
    assert_eq!(a.error.as_deref(), Some("e"));
}

#[test]
fn the_transcript_is_told_at_the_end() {
    assert!(closing_event(true, "x").is_none());
    assert!(closing_event(false, "").is_none());
    let e = closing_event(false, "x").unwrap();
    assert_eq!(e.full_text, "x");
    assert_eq!(e.text, "");
    assert_eq!(e.language, "");
    assert!(e.is_final);
}

#[test]
fn a_session_runs_its_course() {
    let m = AsrMode::Listening;
    assert_eq!(m.next(AsrInput::Result { is_final: true }, true, 0), AsrMode::Listening);
    assert_eq!(m.next(AsrInput::Silence, true, 0), AsrMode::Listening);
    assert_eq!(m.next(AsrInput::Closed, true, 0), AsrMode::Ending);
    let m = m.next(AsrInput::Silence, false, 5);
    assert_eq!(m, AsrMode::Ending);
    let m = m.next(AsrInput::FlushSent, false, 100);
    assert_eq!(m, AsrMode::Flushing { since_ms: 100 });
    assert_eq!(m.next(AsrInput::Result { is_final: false }, false, 200), m);
    assert_eq!(m.next(AsrInput::Result { is_final: true }, false, 200), AsrMode::Ended);
    assert_eq!(m.next(AsrInput::Silence, false, 99 + FLUSH_TIMEOUT_MS), m);
    assert_eq!(m.next(AsrInput::Silence, false, 100 + FLUSH_TIMEOUT_MS), AsrMode::Ended);
    assert_eq!(m.next(AsrInput::Closed, false, 101), AsrMode::Ended);
    assert_eq!(AsrMode::Ended.next(AsrInput::FlushSent, true, 0), AsrMode::Ended);
}

#[test]
fn feeding_goes_on_while_it_can() {
    assert!(feed_goes_on(FeedInput::Chunk { fed: true }, true));
    assert!(!feed_goes_on(FeedInput::Chunk { fed: false }, true));
    assert!(!feed_goes_on(FeedInput::Chunk { fed: true }, false));
    assert!(feed_goes_on(FeedInput::Silence, true));
    assert!(!feed_goes_on(FeedInput::Silence, false));
    assert!(!feed_goes_on(FeedInput::Closed, true));
}
