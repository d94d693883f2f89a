use voicedown::text_optimizer::{
    pick_finalize_input, split_paragraphs, split_sentences, split_single_paragraph,
    OptimizerBuffer, OverlapRewriter, MAX_SENTENCES_HARD, TARGET_CHARS,
};

fn strings(v: &[&str]) -> Vec<String> {
    v.iter().map(|s| s.to_string()).collect()
}

fn visible(s: &str) -> String {
    s.chars().filter(|c| !c.is_whitespace()).collect()
}

#[test]
fn split_paragraphs_single_newline() {
    assert_eq!(split_paragraphs("段一。\n段二。"), strings(&["段一。", "段二。"]));
}

#[test]
fn split_paragraphs_double_newline() {
    assert_eq!(split_paragraphs("段一。\n\n段二。"), strings(&["段一。", "段二。"]));
}

#[test]
fn split_paragraphs_blank_lines_filtered() {
    assert_eq!(split_paragraphs("\n\n段一。\n\n\n段二。\n"), strings(&["段一。", "段二。"]));
}

#[test]
fn split_paragraphs_single_paragraph() {
    assert_eq!(split_paragraphs("只有一段。多句。"), strings(&["只有一段。多句。"]));
}

#[test]
fn split_paragraphs_empty() {
    assert!(split_paragraphs("").is_empty());
    assert!(split_paragraphs("   \n  \n").is_empty());
}

#[test]
fn split_paragraphs_trims_each() {
    assert_eq!(split_paragraphs("  段一。  \n  段二。 "), strings(&["段一。", "段二。"]));
}

#[test]
fn split_sentences_by_punct() {
    assert_eq!(split_sentences("句一。句二！句三？"), strings(&["句一。", "句二！", "句三？"]));
}

#[test]
fn split_sentences_no_punct_whole() {
    assert_eq!(split_sentences("没有标点的整段"), strings(&["没有标点的整段"]));
}

#[test]
fn split_sentences_empty() {
    assert!(split_sentences("").is_empty());
    assert!(split_sentences("   ").is_empty());
}

#[test]
fn split_sentences_keeps_punct_and_tail() {
    assert_eq!(split_sentences("你好。再见"), strings(&["你好。", "再见"]));
}

#[test]
fn split_single_paragraph_half_even() {
    let (h, t) = split_single_paragraph("一。二。三。四。").unwrap();
    assert_eq!(h, "一。二。");
    assert_eq!(t, "三。四。");
}

#[test]
fn split_single_paragraph_half_odd() {
    let (h, t) = split_single_paragraph("一。二。三。四。五。").unwrap();
    assert_eq!(h, "一。二。");
    assert_eq!(t, "三。四。五。");
}

#[test]
fn split_single_paragraph_two_sentences() {
    let (h, t) = split_single_paragraph("句一。句二。").unwrap();
    assert_eq!(h, "句一。");
    assert_eq!(t, "句二。");
}

#[test]
fn split_single_paragraph_too_few_none() {
    assert!(split_single_paragraph("只有一句。").is_none());
    assert!(split_single_paragraph("").is_none());
    assert!(split_single_paragraph("无标点整段").is_none());
}

#[test]
fn pick_finalize_input_prefers_optimized() {
    assert_eq!(pick_finalize_input("优化文", "原始转录"), Some("优化文".to_string()));
}

#[test]
fn pick_finalize_input_fallback_to_transcription() {
    assert_eq!(pick_finalize_input("   ", "原始转录"), Some("原始转录".to_string()));
    assert_eq!(pick_finalize_input("", "  原始转录  "), Some("原始转录".to_string()));
}

#[test]
fn pick_finalize_input_both_empty_none() {
    assert_eq!(pick_finalize_input("", ""), None);
    assert_eq!(pick_finalize_input("   ", "  "), None);
}

#[test]
fn buf_would_exceed_empty_pending_false() {
    let b = OptimizerBuffer::new();
    assert!(!b.would_exceed(&"字".repeat(200)));
}

#[test]
fn buf_would_exceed_over_target_true() {
    let mut b = OptimizerBuffer::new();
    b.push("字".repeat(TARGET_CHARS - 10));
    assert!(b.would_exceed(&"字".repeat(20)));
}

#[test]
fn buf_would_exceed_under_target_false() {
    let mut b = OptimizerBuffer::new();
    b.push("字".repeat(TARGET_CHARS - 10));
    assert!(!b.would_exceed(&"字".repeat(5)));
}

#[test]
fn buf_should_flush_size_by_chars() {
    let mut b = OptimizerBuffer::new();
    b.push("字".repeat(TARGET_CHARS));
    assert!(b.should_flush_size());
}

#[test]
fn buf_should_flush_size_below_target_false() {
    let mut b = OptimizerBuffer::new();
    b.push("字".repeat(TARGET_CHARS - 10));
    assert!(!b.should_flush_size());
}

#[test]
fn buf_should_flush_size_by_hard_limit() {
    let mut b = OptimizerBuffer::new();
    for _ in 0..MAX_SENTENCES_HARD {
        b.push("短".into());
    }
    assert!(b.should_flush_size());
}

#[test]
fn buf_no_longer_flushes_at_12_sentences() {
    let mut b = OptimizerBuffer::new();
    for _ in 0..12 {
        b.push("短".into());
    }
    assert!(!b.should_flush_size());
}

#[test]
fn buf_should_flush_time_false_when_fresh() {
    let mut b = OptimizerBuffer::new();
    b.push("x".into());
    assert!(!b.should_flush_time());
}

#[test]
fn buffer_flushes_after_its_interval() {
    let mut b = OptimizerBuffer::default();
    assert!(!b.should_flush_after(1000));
    b.push("x".into());
    assert!(!b.should_flush_after(29));
    assert!(b.should_flush_after(30));
}

#[test]
fn buffer_is_drained_one_sentence_per_line() {
    let mut b = OptimizerBuffer::new();
    b.push("一。".into());
    b.push("二。".into());
    assert!(!b.is_empty());
    assert_eq!(b.drain_new_sentences(), "一。\n二。");
    assert!(b.is_empty());
    assert_eq!(b.drain_new_sentences(), "");
}

#[test]
fn overlap_first_batch_input_is_just_new() {
    let r = OverlapRewriter::new();
    assert_eq!(r.build_input("新句1\n新句2"), "新句1\n新句2");
}

#[test]
fn overlap_apply_output_sets_overlap_to_last_paragraph() {
    let mut r = OverlapRewriter::new();
    r.apply_output("句一。\n句二。", "fb");
    assert_eq!(r.committed(), "句一。");
    assert_eq!(r.overlap(), "句二。");
}

#[test]
fn overlap_build_input_includes_overlap_second_batch() {
    let mut r = OverlapRewriter::new();
    r.apply_output("句一。\n句二。", "fb");
    assert_eq!(r.build_input("新句。"), "句二。\n新句。");
}

#[test]
fn overlap_apply_output_grows_committed_second_batch() {
    let mut r = OverlapRewriter::new();
    r.apply_output("句一。\n句二。", "fb1");
    r.apply_output("句二。\n新句三。", "fb2");
    assert_eq!(r.committed(), "句一。\n\n句二。");
    assert_eq!(r.overlap(), "新句三。");
}

#[test]
fn overlap_full_text_excludes_overlap() {
    let mut r = OverlapRewriter::new();
    r.apply_output("段一。\n段二。", "fb");
    let full = r.full_text();
    assert_eq!(full, "段一。");
    assert!(!full.starts_with('\n'));
    assert!(!full.ends_with('\n'));
}

#[test]
fn overlap_finalize_absorbs_overlap_into_committed() {
    let mut r = OverlapRewriter::new();
    r.apply_output("句一。\n句二。", "fb");
    r.finalize();
    assert_eq!(r.committed(), "句一。\n\n句二。");
    assert!(r.overlap().is_empty());
    assert_eq!(r.full_text(), "句一。\n\n句二。");
}

#[test]
fn overlap_degrade_empty_output_uses_fallback_no_dup() {
    let mut r = OverlapRewriter::new();
    r.apply_output("句一。\n句二。", "fb1");
    r.apply_output("", "新句三。\n新句四。");
    assert_eq!(r.committed(), "句一。\n\n句二。\n\n新句三。");
    assert_eq!(r.overlap(), "新句四。");
    assert_eq!(r.full_text(), "句一。\n\n句二。\n\n新句三。");
}

#[test]
fn overlap_single_paragraph_forced_split() {
    let mut r = OverlapRewriter::new();
    r.apply_output("一。二。三。四。", "fb");
    assert_eq!(r.committed(), "一。二。");
    assert_eq!(r.overlap(), "三。四。");
}

#[test]
fn overlap_single_paragraph_too_few_shows_all() {
    let mut r = OverlapRewriter::new();
    r.apply_output("只有一句。", "fb");
    assert_eq!(r.committed(), "只有一句。");
    assert!(r.overlap().is_empty());
}

#[test]
fn overlap_failure_without_any_text_changes_nothing() {
    let mut r = OverlapRewriter::default();
    r.apply_output("  ", " \n ");
    assert_eq!(r.committed(), "");
    assert_eq!(r.overlap(), "");
    r.apply_output("句一。\n句二。", "fb");
    r.apply_output("", "");
    assert_eq!(visible(r.committed()) + &visible(r.overlap()), "句一。句二。");
}

#[test]
fn rewriter_keeps_all_text_when_the_model_fails() {
    let mut r = OverlapRewriter::new();
    let batches = ["一。二。\n三", "", "四！五？六", " \n"];
    for b in batches {
        r.apply_output("", b);
    }
    r.finalize();
    assert_eq!(visible(&r.full_text()), "一。二。三四！五？六");
}

#[test]
fn committed_text_only_grows() {
    let mut r = OverlapRewriter::new();
    let mut before = String::new();
    for out in ["一。\n二。", "三。四。", "", "五", "六。\n\n七。\n八。"] {
        r.apply_output(out, "备。用。");
        assert!(r.committed().starts_with(&before));
        before = r.committed().to_string();
    }
}

#[test]
fn cutting_loses_no_text() {
    let t = " 一。二！\n\n 三 四？\t五!六?七 \n";
    let shown = visible(t);
    assert_eq!(visible(&split_paragraphs(t).concat()), shown);
    let sentences = split_sentences(t);
    assert_eq!(visible(&sentences.concat()), shown);
    assert!(sentences.iter().all(|s| !s.is_empty() && s.trim() == s));
    assert!(sentences[..sentences.len() - 1]
        .iter()
        .all(|s| s.ends_with(['。', '！', '？', '!', '?'])));
    let (head, tail) = split_single_paragraph(t).unwrap();
    assert_eq!(visible(&(head + &tail)), shown);
}

#[test]
fn the_input_holds_what_was_kept_back() {
    let mut r = OverlapRewriter::new();
    r.apply_output("一。\n二。", "");
    assert_eq!(visible(&r.build_input(" 三 \n四 ")), "二。三四");
}

#[test]
fn what_is_put_together_is_cut_again() {
    let v = split_paragraphs(" 一。二 \n\n\t三\r\n四！");
    assert_eq!(v, strings(&["一。二", "三", "四！"]));
    assert_eq!(split_paragraphs(&v.join("\n")), v);
    assert_eq!(split_paragraphs(&v.join("\n\n")), v);
    let t = "一。 二。三！？四。五";
    let all = split_sentences(t);
    let (head, tail) = split_single_paragraph(t).unwrap();
    assert_eq!(split_sentences(&head), all[..all.len() / 2]);
    assert_eq!(split_sentences(&tail), all[all.len() / 2..]);
}

#[test]
fn the_shown_text_is_in_paragraphs() {
    let mut r = OverlapRewriter::new();
    for out in ["一。\n 二。\n\n\n三。", "四。五。六", "", " 七 \r\n八\n"] {
        r.apply_output(out, "九。\n\n十。十一。");
        let f = r.full_text();
        assert_eq!(split_paragraphs(&f).join("\n\n"), f);
    }
    r.finalize();
    let f = r.full_text();
    assert_eq!(split_paragraphs(&f).join("\n\n"), f);
}
