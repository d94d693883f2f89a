use voicedown::optimizer_session::{OptimizerSession, OptimizerStep};
use voicedown::punc_session::{PuncReply, PuncSession, PuncStep, GRACE_MS};
use voicedown::python_bridge::PuncResult;

fn visible(s: &str) -> String {
    s.chars().filter(|c| !c.is_whitespace()).collect()
}

fn asked(s: &OptimizerSession) -> Option<String> {
    match s.next() {
        OptimizerStep::Ask { input } => Some(input),
        _ => None,
    }
}

#[test]
fn sentences_are_sent_in_batches() {
    let mut s = OptimizerSession::new();
    s.sentence("短。".into());
    assert!(matches!(s.next(), OptimizerStep::Wait));
    s.sentence("字".repeat(597));
    assert!(matches!(s.next(), OptimizerStep::Wait));
    s.sentence("新。".into());
    let input = asked(&s).unwrap();
    assert_eq!(input, format!("短。\n{}", "字".repeat(597)));
    s.reply(&Ok("一。\n二。".into()));
    assert!(matches!(s.next(), OptimizerStep::Wait));
    let e = s.event();
    assert_eq!(e.full_optimized, "一。");
    assert_eq!(e.optimized, "");
    assert!(!e.is_final);
    s.end(vec!["末。".into()]);
    assert_eq!(asked(&s).unwrap(), "二。\n新。\n末。");
    s.reply(&Ok("二。\n新末。".into()));
    assert!(matches!(s.next(), OptimizerStep::Finished));
    let e = s.event();
    assert_eq!(e.full_optimized, "一。\n\n二。");
    assert!(!e.is_final);
    let e = s.finish();
    assert_eq!(e.full_optimized, "一。\n\n二。\n\n新末。");
    assert!(e.is_final);
}

#[test]
fn a_full_batch_is_sent_at_once() {
    let mut s = OptimizerSession::new();
    s.sentence("字".repeat(600));
    assert!(asked(&s).is_some());
    s.reply(&Err("down".into()));
    assert!(matches!(s.next(), OptimizerStep::Wait));
    for _ in 0..23 {
        s.sentence("x".into());
        assert!(matches!(s.next(), OptimizerStep::Wait));
    }
    s.sentence("x".into());
    assert!(asked(&s).is_some());
}

#[test]
fn a_long_sentence_follows_a_short_batch() {
    let mut s = OptimizerSession::new();
    s.sentence("短。".into());
    s.sentence("长".repeat(700));
    assert_eq!(asked(&s).unwrap(), "短。");
    s.reply(&Err("down".into()));
    assert_eq!(asked(&s).unwrap(), "长".repeat(700));
    s.reply(&Err("down".into()));
    assert!(matches!(s.next(), OptimizerStep::Wait));
}

#[test]
fn time_sends_a_batch() {
    let mut s = OptimizerSession::new();
    s.time_passed(1000);
    assert!(matches!(s.next(), OptimizerStep::Wait));
    s.sentence("x".into());
    s.silence();
    assert!(matches!(s.next(), OptimizerStep::Wait));
    s.time_passed(29);
    assert!(matches!(s.next(), OptimizerStep::Wait));
    s.time_passed(30);
    assert_eq!(asked(&s).unwrap(), "x");
}

#[test]
fn blank_batches_are_dropped() {
    let mut s = OptimizerSession::new();
    s.sentence("  ".into());
    s.time_passed(30);
    assert!(matches!(s.next(), OptimizerStep::Wait));
    s.end(vec![]);
    assert!(matches!(s.next(), OptimizerStep::Finished));
    let e = s.finish();
    assert_eq!(e.full_optimized, "");
    assert_eq!(e.optimized, "");
    assert!(e.is_final);
}

#[test]
fn a_model_that_fails_loses_nothing() {
    let mut s = OptimizerSession::new();
    let mut all = String::new();
    for i in 0..80 {
        let sentence = format!("第{}句，{}。", i, "话".repeat(i * 9));
        all.push_str(&sentence);
        s.sentence(sentence);
        while asked(&s).is_some() {
            s.reply(&Err("down".into()));
        }
    }
    s.end(vec!["最后".into()]);
    all.push_str("最后");
    while asked(&s).is_some() {
        s.reply(&Err("down".into()));
    }
    assert!(matches!(s.next(), OptimizerStep::Finished));
    assert_eq!(visible(&s.finish().full_optimized), all);
}

#[test]
fn neither_time_nor_a_late_rest_loses_anything() {
    let mut s = OptimizerSession::new();
    for (sentence, secs) in [("甲。", 5), ("乙。", 31), ("丙。", 0), ("丁。", 40)] {
        s.sentence(sentence.into());
        s.time_passed(secs);
        while asked(&s).is_some() {
            s.reply(&Err("down".into()));
        }
    }
    s.sentence("戊。".into());
    s.end(vec!["己。".into(), "庚。".into()]);
    while asked(&s).is_some() {
        s.reply(&Err("down".into()));
    }
    assert!(matches!(s.next(), OptimizerStep::Finished));
    assert_eq!(visible(&s.finish().full_optimized), "甲。乙。丙。丁。戊。己。庚。");
}

fn answer(text: &str, error: Option<&str>) -> PuncReply {
    PuncReply::Answer(PuncResult { text: text.into(), error: error.map(|e| e.to_string()) })
}

fn request(s: &PuncSession) -> Option<String> {
    match s.next() {
        PuncStep::Ask { text } => Some(text),
        _ => None,
    }
}

#[test]
fn pieces_are_shown_while_the_model_is_not_ready() {
    let mut s = PuncSession::new(0);
    let e = s.piece("你好", false, 1).unwrap();
    assert_eq!(e.text, "你好");
    assert_eq!(e.full_text, "你好");
    assert_eq!(e.language, "auto");
    assert!(!e.is_final);
    let e = s.piece("世界", false, 2).unwrap();
    assert_eq!(e.full_text, "你好世界");
    s.silence(true, false, 100_000);
    assert!(matches!(s.next(), PuncStep::Wait));
    s.close(false);
    assert!(matches!(s.next(), PuncStep::Finished));
    let e = s.final_event();
    assert_eq!(e.full_text, "你好世界");
    assert_eq!(e.language, "");
    assert!(e.is_final);
}

#[test]
fn the_whole_text_is_punctuated_from_time_to_time() {
    let mut s = PuncSession::new(0);
    s.piece("甲", false, 0);
    assert!(s.piece("乙", true, 100).is_none());
    assert!(request(&s).is_none());
    s.silence(true, true, 1499);
    assert!(request(&s).is_none());
    s.silence(true, true, 1500);
    assert_eq!(request(&s).unwrap(), "甲乙");
    let e = s.reply(answer("甲，乙。", None), 1600);
    assert_eq!(e.full_text, "甲，乙。");
    assert_eq!(e.text, "");
    assert_eq!(s.shown(), "甲，乙。");
    s.silence(true, true, 10_000);
    assert!(request(&s).is_none());
    s.piece(&"丙".repeat(30), true, 1700);
    assert_eq!(request(&s).unwrap(), format!("甲乙{}", "丙".repeat(30)));
}

#[test]
fn every_failure_shows_the_text_as_it_is() {
    for reply in [
        PuncReply::NotReady,
        PuncReply::Unsent,
        PuncReply::Late,
        answer("", None),
        answer("坏", Some("e")),
    ] {
        let mut s = PuncSession::new(0);
        s.piece("甲", true, 2000);
        assert_eq!(request(&s).unwrap(), "甲");
        let e = s.reply(reply, 3000);
        assert_eq!(e.full_text, "甲");
    }
}

#[test]
fn the_last_pieces_are_waited_for() {
    let mut s = PuncSession::new(0);
    s.silence(false, true, 1000);
    assert!(matches!(s.next(), PuncStep::Wait));
    s.piece("末", true, 1100);
    assert!(request(&s).is_none());
    s.silence(false, true, 1000 + GRACE_MS);
    assert!(matches!(s.next(), PuncStep::Wait));
    s.silence(false, true, 1001 + GRACE_MS);
    assert_eq!(request(&s).unwrap(), "末");
    s.reply(answer("末。", None), 7000);
    assert!(matches!(s.next(), PuncStep::Finished));
    assert_eq!(s.final_event().full_text, "末。");
}

#[test]
fn pieces_kept_for_the_model_are_not_lost_with_it() {
    let mut s = PuncSession::new(0);
    s.piece("甲", true, 100);
    assert_eq!(s.shown(), "");
    s.piece("乙", false, 200);
    s.close(false);
    assert!(matches!(s.next(), PuncStep::Finished));
    assert_eq!(s.final_event().full_text, "甲乙");
}

#[test]
fn pieces_after_an_answer_are_kept_as_they_are() {
    let mut s = PuncSession::new(0);
    s.piece("甲乙", true, 2000);
    assert_eq!(request(&s).unwrap(), "甲乙");
    s.reply(answer("甲，乙。", None), 2100);
    s.piece("丙", false, 2200);
    s.piece("丁", false, 2300);
    s.close(false);
    assert!(matches!(s.next(), PuncStep::Finished));
    assert_eq!(s.final_event().full_text, "甲，乙。丙丁");
}

#[test]
fn an_empty_session_ends_at_once() {
    let mut s = PuncSession::new(0);
    s.close(true);
    assert!(matches!(s.next(), PuncStep::Finished));
    assert_eq!(s.final_event().full_text, "");
}
