use voicedown::punc_pipeline::{
    should_punc_flush, PuncAction, PuncPipeline, PUNC_CHAR_THRESHOLD, PUNC_INTERVAL_MS,
};

#[test]
fn punc_flush_no_new_chars_false() {
    assert!(!should_punc_flush(10_000, 0));
}

#[test]
fn punc_flush_by_interval() {
    assert!(should_punc_flush(PUNC_INTERVAL_MS, 5));
    assert!(should_punc_flush(PUNC_INTERVAL_MS + 500, 5));
}

#[test]
fn punc_flush_by_char_threshold() {
    assert!(should_punc_flush(100, PUNC_CHAR_THRESHOLD));
    assert!(should_punc_flush(0, PUNC_CHAR_THRESHOLD + 10));
}

#[test]
fn punc_flush_below_both_false() {
    assert!(!should_punc_flush(PUNC_INTERVAL_MS - 100, PUNC_CHAR_THRESHOLD - 5));
    assert!(!should_punc_flush(0, 1));
}

#[test]
fn push_ready_accumulates_returns_nothing() {
    let mut p = PuncPipeline::new();
    assert_eq!(p.push("你好", true), PuncAction::Nothing);
    assert_eq!(p.push("世界", true), PuncAction::Nothing);
    match p.finalize(true) {
        PuncAction::RequestPunc { text } => assert_eq!(text, "你好世界"),
        other => panic!("{:?}", other),
    }
}

#[test]
fn push_not_ready_returns_passthrough() {
    let mut p = PuncPipeline::new();
    assert_eq!(p.push("你好", false), PuncAction::PassThrough { sentence: "你好".into() });
}

#[test]
fn push_raw_full_accumulates_across_ready_toggle() {
    let mut p = PuncPipeline::new();
    p.push("A", false);
    p.push("B", false);
    p.push("C", true);
    match p.finalize(true) {
        PuncAction::RequestPunc { text } => assert_eq!(text, "ABC"),
        other => panic!("{:?}", other),
    }
}

#[test]
fn decide_flush_at_char_threshold_request() {
    let mut p = PuncPipeline::new();
    p.push(&"x".repeat(PUNC_CHAR_THRESHOLD), true);
    let act = p.decide_flush(0, true);
    assert!(matches!(act, PuncAction::RequestPunc { .. }));
}

#[test]
fn decide_flush_at_interval_request() {
    let mut p = PuncPipeline::new();
    p.push("短", true);
    match p.decide_flush(PUNC_INTERVAL_MS + 100, true) {
        PuncAction::RequestPunc { text } => assert_eq!(text, "短"),
        other => panic!("{:?}", other),
    }
}

#[test]
fn decide_flush_below_threshold_nothing() {
    let mut p = PuncPipeline::new();
    p.push("短", true);
    assert_eq!(p.decide_flush(100, true), PuncAction::Nothing);
}

#[test]
fn decide_flush_resets_pending_chars() {
    let mut p = PuncPipeline::new();
    p.push(&"x".repeat(PUNC_CHAR_THRESHOLD), true);
    let _ = p.decide_flush(0, true);
    p.push("y", true);
    assert_eq!(p.decide_flush(0, true), PuncAction::Nothing);
}

#[test]
fn decide_flush_not_ready_nothing() {
    let mut p = PuncPipeline::new();
    p.push(&"x".repeat(PUNC_CHAR_THRESHOLD + 10), true);
    assert_eq!(p.decide_flush(PUNC_INTERVAL_MS, false), PuncAction::Nothing);
}

#[test]
fn finalize_ready_nonempty_request() {
    let mut p = PuncPipeline::new();
    p.push("你好世界", true);
    match p.finalize(true) {
        PuncAction::RequestPunc { text } => assert_eq!(text, "你好世界"),
        other => panic!("{:?}", other),
    }
}

#[test]
fn finalize_not_ready_emit_final() {
    let mut p = PuncPipeline::new();
    p.push("你好", false);
    assert_eq!(p.finalize(false), PuncAction::EmitFinal);
}

#[test]
fn finalize_empty_emit_final() {
    let mut p = PuncPipeline::new();
    assert_eq!(p.finalize(true), PuncAction::EmitFinal);
}

#[test]
fn the_request_is_always_the_whole_text() {
    let mut p = PuncPipeline::default();
    p.push(&"a".repeat(PUNC_CHAR_THRESHOLD), true);
    let first = p.decide_flush(0, true);
    assert_eq!(first, PuncAction::RequestPunc { text: "a".repeat(PUNC_CHAR_THRESHOLD) });
    assert!(!p.has_pending());
    assert_eq!(p.decide_flush(100_000, true), PuncAction::Nothing);
    p.push("b", false);
    p.push("c", true);
    assert!(p.has_pending());
    let whole = "a".repeat(PUNC_CHAR_THRESHOLD) + "bc";
    assert_eq!(p.decide_flush(PUNC_INTERVAL_MS, true), PuncAction::RequestPunc { text: whole.clone() });
    assert_eq!(p.raw_text(), whole);
}

#[test]
fn actions_differ_by_what_they_hold() {
    let a = PuncAction::PassThrough { sentence: "a".into() };
    assert_ne!(a, PuncAction::PassThrough { sentence: "b".into() });
    assert_ne!(a, PuncAction::RequestPunc { text: "a".into() });
    assert_ne!(PuncAction::Nothing, PuncAction::EmitFinal);
    assert_eq!(a.clone(), a);
}
