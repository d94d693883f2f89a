use voicedown::export_config::{
    export_plan, map_io_err, program_dir_of, render_md, render_text, validate_export_dir, DirCheck,
    DirFacts, ExportConfig, ExportPathError, IoFault, TextFormat,
};

fn writable() -> DirFacts {
    DirFacts { is_file: false, present: true, create: Ok(()), probe: Ok(()) }
}

fn config(enabled: bool, text_format: TextFormat) -> ExportConfig {
    ExportConfig { enabled, text_format, export_dir: "C:\\o".into() }
}

#[test]
fn default_enabled_txt_documents_dir() {
    let c = ExportConfig::default();
    assert!(c.enabled);
    assert_eq!(c.text_format, TextFormat::Txt);
    assert!(c.export_dir.ends_with("Documents\\VoiceDown"), "{}", c.export_dir);
}

#[test]
fn validate_invalid_chars_rejected() {
    let res = validate_export_dir("C:\\foo<bar", writable());
    assert_eq!(res.unwrap_err(), ExportPathError::InvalidChars);
    let res2 = validate_export_dir("C:\\foo\nbar", writable());
    assert_eq!(res2.unwrap_err(), ExportPathError::InvalidChars);
}

#[test]
fn validate_empty_rejected() {
    assert_eq!(validate_export_dir("", writable()).unwrap_err(), ExportPathError::InvalidChars);
    assert_eq!(validate_export_dir("   ", writable()).unwrap_err(), ExportPathError::InvalidChars);
}

#[test]
fn every_forbidden_character_is_rejected() {
    for c in ['<', '>', '"', '|', '?', '*', '\u{0}', '\u{1f}', '\u{7f}', '\u{9f}'] {
        let p = format!("a{}b", c);
        assert_eq!(validate_export_dir(&p, writable()), Err(ExportPathError::InvalidChars));
    }
    for c in [':', '\\', '/', ' ', '.', '\u{a0}', '中'] {
        let p = format!("a{}b", c);
        assert_eq!(validate_export_dir(&p, writable()), Ok(p.clone()));
    }
}

#[test]
fn directories_are_checked_in_order() {
    assert_eq!(validate_export_dir("  C:\\x ", writable()), Ok("C:\\x".to_string()));
    let mut f = writable();
    f.is_file = true;
    assert_eq!(validate_export_dir("x", f), Err(ExportPathError::NotADirectory));
    let mut f = writable();
    f.present = false;
    assert!(validate_export_dir("x", f).is_ok());
    let mut f = writable();
    f.present = false;
    f.create = Err(IoFault::Other("disk full".into()));
    assert_eq!(
        validate_export_dir("x", f),
        Err(ExportPathError::CreateFailed("disk full".into()))
    );
    let mut f = writable();
    f.create = Err(IoFault::NotFound);
    assert!(validate_export_dir("x", f).is_ok());
    let mut f = writable();
    f.probe = Err(IoFault::PermissionDenied);
    assert_eq!(validate_export_dir("x", f), Err(ExportPathError::Unwritable));
}

#[test]
fn the_check_goes_step_by_step() {
    let c = DirCheck::start("x");
    assert!(matches!(c, DirCheck::Inspect(_)));
    let c = c.inspected(false, false);
    assert!(matches!(c, DirCheck::Create(_)));
    let c = c.probed(Err(IoFault::NotFound));
    assert!(matches!(c, DirCheck::Create(_)));
    let c = c.created(Ok(()));
    assert!(matches!(c, DirCheck::Probe(_)));
    let c = c.probed(Ok(()));
    assert!(matches!(c, DirCheck::Usable(_)));
}

#[test]
fn path_errors_have_messages() {
    assert_eq!(
        ExportPathError::InvalidChars.message(),
        "路径为空或含非法字符（<>:\"|?* 或控制字符）"
    );
    assert_eq!(ExportPathError::NotADirectory.message(), "路径指向的是文件，不是目录");
    assert_eq!(ExportPathError::Unwritable.message(), "目录不可写（权限不足或盘/父路径不存在）");
    assert_eq!(ExportPathError::CreateFailed("e".into()).message(), "创建目录失败: e");
    assert_eq!(map_io_err(IoFault::NotFound), ExportPathError::Unwritable);
}

#[test]
fn directories_stand_in_the_profile() {
    assert_eq!(program_dir_of(Some("C:\\Users\\me")), "C:\\Users\\me\\Documents\\VoiceDown");
    assert_eq!(program_dir_of(None), ".\\Documents\\VoiceDown");
    assert_eq!(ExportConfig::for_profile(Some("P")).export_dir, "P\\Documents\\VoiceDown");
}

#[test]
fn render_md_content_with_h1() {
    let md = render_md("正文内容", "标题");
    assert!(md.starts_with("# 标题"), "{}", md);
    assert!(md.contains("正文内容"), "{}", md);
}

#[test]
fn render_md_trims_trailing_whitespace() {
    let md = render_md("正文\n\n", "标题");
    assert!(!md.ends_with('\n'), "{}", md);
    assert!(md.contains("正文"));
}

#[test]
fn render_md_empty_content_safe() {
    let md = render_md("", "标题");
    assert!(md.starts_with("# 标题"));
}

#[test]
fn texts_are_rendered_exactly() {
    assert_eq!(render_md(" 正文 \n", "标题"), "# 标题\n\n 正文");
    assert_eq!(render_text(" 正文 \n", TextFormat::Txt, "标题"), " 正文 \n");
    assert_eq!(render_text("a", TextFormat::Md, "t"), "# t\n\na");
}

#[test]
fn export_plan_disabled_all_none() {
    let plan = export_plan(&config(false, TextFormat::Txt), "capture_x", true, Some("t"), Some("o"));
    assert!(plan.wav.is_none());
    assert!(plan.text.is_none());
    assert!(plan.optimized.is_none());
}

#[test]
fn export_plan_txt_ext_and_raw_content() {
    let cfg = config(true, TextFormat::Txt);
    let plan = export_plan(&cfg, "capture_x", true, Some("原文"), Some("优化文"));
    assert_eq!(plan.wav.as_deref(), Some("capture_x.wav"));
    let text = plan.text.unwrap();
    assert_eq!(text.filename, "capture_x.txt");
    assert_eq!(text.content, "原文");
    let opt = plan.optimized.unwrap();
    assert_eq!(opt.filename, "capture_x_optimized.txt");
    assert_eq!(opt.content, "优化文");
}

#[test]
fn export_plan_md_ext_and_h1_content() {
    let cfg = config(true, TextFormat::Md);
    let plan = export_plan(&cfg, "capture_x", true, Some("原文"), Some("优化文"));
    assert_eq!(plan.wav.as_deref(), Some("capture_x.wav"));
    let text = plan.text.unwrap();
    assert_eq!(text.filename, "capture_x.md");
    assert!(text.content.starts_with("# capture_x"), "{}", text.content);
    assert!(text.content.contains("原文"));
    assert_eq!(plan.optimized.unwrap().filename, "capture_x_optimized.md");
}

#[test]
fn export_plan_no_audio_wav_none_text_kept() {
    let plan = export_plan(&config(true, TextFormat::Txt), "b", false, Some("t"), None);
    assert!(plan.wav.is_none());
    assert!(plan.text.is_some());
}

#[test]
fn export_plan_no_transcription_text_none_wav_kept() {
    let plan = export_plan(&config(true, TextFormat::Txt), "b", true, None, None);
    assert!(plan.text.is_none());
    assert!(plan.wav.is_some());
}

#[test]
fn export_plan_no_optimized_optimized_none() {
    let plan = export_plan(&config(true, TextFormat::Txt), "b", true, Some("t"), None);
    assert!(plan.optimized.is_none());
    assert!(plan.text.is_some());
}
