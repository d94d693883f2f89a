use voicedown::dictionary::{Dictionary, LoadPlan, UserDictionary};
use voicedown::t2s_data::T2S_DATA;
use voicedown::text_postprocess::{apply_dictionary, postprocess, t2s, CharTable};

fn dict(pairs: &[(&str, &str)]) -> Dictionary {
    Dictionary::from_pairs(pairs.iter().map(|(k, v)| (k.to_string(), v.to_string())).collect())
}

#[test]
fn empty_dict_returns_text_unchanged() {
    assert_eq!(apply_dictionary("hello rain voicedown", &dict(&[])), "hello rain voicedown");
}

#[test]
fn ascii_word_boundary_protects_substrings() {
    let d = dict(&[("ai", "AI")]);
    assert_eq!(apply_dictionary("ai and rain and aiops", &d), "AI and rain and aiops");
}

#[test]
fn ascii_whole_word_replacement_applies() {
    let d = dict(&[("voicedown", "VoiceDown")]);
    assert_eq!(apply_dictionary("voicedown-app and voicedown", &d), "VoiceDown-app and VoiceDown");
}

#[test]
fn longest_match_wins_for_overlapping_keys() {
    let d = dict(&[("ai", "AI"), ("aiops", "AIOPS")]);
    assert_eq!(apply_dictionary("aiops and ai", &d), "AIOPS and AI");
}

#[test]
fn cjk_key_substring_match_no_boundary() {
    let d = dict(&[("语音", "SP"), ("语音识别", "ASR")]);
    assert_eq!(apply_dictionary("语音识别技术", &d), "ASR技术");
}

#[test]
fn replacement_value_not_re_scanned() {
    let d = dict(&[("ai", "AI"), ("AI", "BUG")]);
    assert_eq!(apply_dictionary("ai", &d), "AI");
}

#[test]
fn words_with_underscores_are_whole() {
    let d = dict(&[("ai", "AI"), ("", "X"), ("语a", "Y")]);
    assert_eq!(apply_dictionary("_ai ai_ ai", &d), "_ai ai_ AI");
    assert_eq!(apply_dictionary("语ab 语a。", &d), "语ab Y。");
}

#[test]
fn a_shorter_word_counts_where_the_longer_is_torn() {
    let d = dict(&[("语a", "X"), ("语", "Y")]);
    assert_eq!(apply_dictionary("语ab", &d), "Yab");
}

#[test]
fn a_later_pair_replaces_an_earlier_one() {
    let mut d = dict(&[("a", "1"), ("b", "2"), ("a", "3")]);
    assert_eq!(apply_dictionary("a b", &d), "3 2");
    d.insert("b".into(), "4".into());
    assert_eq!(apply_dictionary("a b", &d), "3 4");
    let mut pairs = d.to_pairs();
    pairs.sort();
    assert_eq!(pairs, vec![("a".to_string(), "3".to_string()), ("b".to_string(), "4".to_string())]);
}

#[test]
fn t2s_converts_common_traditional_to_simplified() {
    assert_eq!(t2s("電腦"), "电脑");
    assert_eq!(t2s("台灣"), "台湾");
    assert_eq!(t2s("國家"), "国家");
    assert_eq!(t2s("學開關門"), "学开关门");
}

#[test]
fn t2s_passthrough_ascii_and_empty() {
    assert_eq!(t2s("hello world"), "hello world");
    assert_eq!(t2s(""), "");
}

#[test]
fn t2s_mixed_sentence() {
    assert_eq!(t2s("VoiceDown 電腦 ASR"), "VoiceDown 电脑 ASR");
}

#[test]
fn t2s_idempotent_on_simplified() {
    let once = t2s("電腦");
    assert_eq!(t2s(&once), once);
}

#[test]
fn every_simplified_character_is_left_alone() {
    let traditional: String = T2S_DATA.lines().map(|l| l.chars().next().unwrap()).collect();
    let once = t2s(&traditional);
    assert_eq!(once.chars().count(), traditional.chars().count());
    assert_ne!(once, traditional);
    assert_eq!(t2s(&once), once);
}

#[test]
fn tables_are_read_line_by_line() {
    let t = CharTable::parse("a\tb\n\n  c\td\tx\nno tab\ne\t\tf\na\tz\ng\th\r\n");
    assert_eq!(t.replace("aceng"), "zdenh");
}

#[test]
fn simplifying_may_be_done_piece_by_piece() {
    assert_eq!(t2s("電") + &t2s("腦"), t2s("電腦"));
}

#[test]
fn words_are_replaced_before_characters() {
    let d = dict(&[("電腦", "計算機")]);
    assert_eq!(postprocess("電腦", &d), "计算机");
}

#[test]
fn the_dictionary_in_use_changes_with_its_file() {
    let mut u = UserDictionary::new();
    assert_eq!(u.load_plan(false), LoadPlan::CreateAndRead);
    assert_eq!(u.load_plan(true), LoadPlan::Read);
    u.load(dict(&[("a", "1")]));
    assert_eq!(u.load_plan(false), LoadPlan::Ready);
    assert_eq!(apply_dictionary("a", u.words()), "1");
    u.load(dict(&[("a", "9")]));
    assert_eq!(apply_dictionary("a", u.words()), "1");
    assert_eq!(u.store(dict(&[("a", "2")]), Err("full".into())), Err("full".to_string()));
    assert_eq!(apply_dictionary("a", u.words()), "1");
    assert_eq!(u.store(dict(&[("a", "2")]), Ok(())), Ok(()));
    assert_eq!(apply_dictionary("a", u.words()), "2");
}
