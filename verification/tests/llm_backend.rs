use voicedown::llm_backend::{
    build_backend, build_ollama_body, build_openai_body, build_prompt, Availability, LlmBackend,
    LlmConfig, LlmReply, OllamaBackend, OpenAiBackend, FINALIZE_PROMPT, OPTIMIZE_PROMPT,
};

fn json(s: &str) -> serde_json::Value {
    serde_json::from_str(s).unwrap()
}

#[test]
fn config_default_disabled() {
    let c = LlmConfig::default();
    assert!(!c.enabled);
    assert_eq!(c.backend, "ollama");
}

#[test]
fn config_default_has_no_mode() {
    let c = LlmConfig::default();
    assert!(!c.enabled);
    assert_eq!(c.backend, "ollama");
}

#[test]
fn config_default_names_both_services() {
    let c = LlmConfig::default();
    assert_eq!(c.ollama.endpoint, "http://localhost:11434");
    assert_eq!(c.ollama.model, "qwen2.5:3b");
    assert_eq!(c.openai.endpoint, "https://api.deepseek.com/v1");
    assert_eq!(c.openai.model, "deepseek-chat");
    assert_eq!(c.openai.api_key, "");
}

#[test]
fn prompt_optimize_and_finalize() {
    assert_eq!(build_prompt("optimize"), OPTIMIZE_PROMPT);
    assert_eq!(build_prompt("finalize"), FINALIZE_PROMPT);
    assert_ne!(OPTIMIZE_PROMPT, FINALIZE_PROMPT);
}

#[test]
fn prompt_unknown_defaults_optimize() {
    assert_eq!(build_prompt("garbage"), OPTIMIZE_PROMPT);
}

#[test]
fn ollama_body_shape() {
    let body = build_ollama_body("qwen2.5:3b", "hi");
    assert_eq!(body["model"], "qwen2.5:3b");
    assert_eq!(body["stream"], false);
    assert_eq!(body["options"]["temperature"], 0.3);
    assert_eq!(body["prompt"], "hi");
}

#[test]
fn openai_body_shape() {
    let body = build_openai_body("deepseek-chat", "sys", "usr");
    assert_eq!(body["model"], "deepseek-chat");
    assert_eq!(body["messages"][0]["role"], "system");
    assert_eq!(body["messages"][0]["content"], "sys");
    assert_eq!(body["messages"][1]["role"], "user");
    assert_eq!(body["messages"][1]["content"], "usr");
    assert_eq!(body["temperature"], 0.3);
}

#[test]
fn bodies_hold_nothing_else() {
    assert_eq!(
        build_ollama_body("m", "p").to_string(),
        "{\"model\":\"m\",\"options\":{\"temperature\":0.3},\"prompt\":\"p\",\"stream\":false}"
    );
    assert_eq!(build_openai_body("m", "s", "u").as_object().unwrap().len(), 3);
    assert_eq!(build_openai_body("m", "s", "u")["messages"].as_array().unwrap().len(), 2);
}

#[test]
fn openai_check_available_requires_key_and_url() {
    let no_key = OpenAiBackend::new("https://api.deepseek.com/v1".into(), "m".into(), "".into());
    assert!(!no_key.check_available());
    let with_key =
        OpenAiBackend::new("https://api.deepseek.com/v1".into(), "m".into(), "sk-x".into());
    assert!(with_key.check_available());
    let bad_url = OpenAiBackend::new("not a url".into(), "m".into(), "sk-x".into());
    assert!(!bad_url.check_available());
}

#[test]
fn openai_configuration_is_complete_with_both() {
    let b = OpenAiBackend::new("e".into(), "m".into(), "k".into());
    assert!(b.is_complete(true));
    assert!(!b.is_complete(false));
    let b = OpenAiBackend::new("e".into(), "m".into(), "".into());
    assert!(!b.is_complete(true));
}

#[test]
fn build_backend_disabled_returns_none() {
    let cfg = LlmConfig::default();
    assert!(build_backend(&cfg).is_none());
}

#[test]
fn build_backend_ollama_when_enabled() {
    let mut cfg = LlmConfig::default();
    cfg.enabled = true;
    cfg.backend = "ollama".into();
    let b = build_backend(&cfg).expect("enabled");
    assert_eq!(b.name(), "ollama");
}

#[test]
fn build_backend_openai_when_enabled() {
    let mut cfg = LlmConfig::default();
    cfg.enabled = true;
    cfg.backend = "openai".into();
    let b = build_backend(&cfg).expect("enabled");
    assert_eq!(b.name(), "openai");
}

#[test]
fn build_backend_takes_unknown_names_for_ollama() {
    let mut cfg = LlmConfig::default();
    cfg.enabled = true;
    cfg.backend = "other".into();
    assert_eq!(build_backend(&cfg).unwrap().name(), "ollama");
}

#[test]
fn ollama_request_and_answer() {
    let b = OllamaBackend::new("http://localhost:11434//".into(), "m".into());
    let r = b.request("正文", "optimize");
    assert_eq!(r.url, "http://localhost:11434/api/generate");
    assert!(r.bearer.is_none());
    assert_eq!(r.body["prompt"], format!("{}\n\n正文", OPTIMIZE_PROMPT));
    let answer = LlmReply::Answer(json("{\"response\":\" 好。\\n\"}"));
    assert_eq!(b.finish(&answer), Ok("好。".to_string()));
    let empty = LlmReply::Answer(json("{\"other\":1}"));
    assert_eq!(b.finish(&empty), Err("Ollama 响应缺 response 字段".to_string()));
    let no_text = LlmReply::Answer(json("{\"response\":1}"));
    assert_eq!(b.finish(&no_text), Err("Ollama 响应缺 response 字段".to_string()));
    assert_eq!(b.finish(&LlmReply::Unanswered("x".into())), Err("Ollama 请求失败: x".to_string()));
    assert_eq!(
        b.finish(&LlmReply::Unreadable("y".into())),
        Err("Ollama 响应解析失败: y".to_string())
    );
    match b.availability() {
        Availability::Ask(url) => assert_eq!(url, "http://localhost:11434/api/tags"),
        Availability::Known(_) => panic!("unknown before it is asked"),
    }
}

#[test]
fn openai_request_and_answer() {
    let b = OpenAiBackend::new("https://x/v1/".into(), "m".into(), "k".into());
    let r = b.request("正文", "finalize");
    assert_eq!(r.url, "https://x/v1/chat/completions");
    assert_eq!(r.bearer.as_deref(), Some("k"));
    assert_eq!(r.body["messages"][0]["content"], FINALIZE_PROMPT);
    assert_eq!(r.body["messages"][1]["content"], "正文");
    let answer = LlmReply::Answer(json(
        "{\"choices\":[{\"message\":{\"content\":\"  文。 \"}}]}",
    ));
    assert_eq!(b.finish(&answer), Ok("文。".to_string()));
    for broken in ["{}", "{\"choices\":[]}", "{\"choices\":[{\"message\":{}}]}", "[]", "3"] {
        assert_eq!(
            b.finish(&LlmReply::Answer(json(broken))),
            Err("OpenAI 响应缺 choices[0].message.content".to_string())
        );
    }
    assert_eq!(b.finish(&LlmReply::Unanswered("x".into())), Err("OpenAI 请求失败: x".to_string()));
    assert_eq!(
        b.finish(&LlmReply::Unreadable("y".into())),
        Err("OpenAI 响应解析失败: y".to_string())
    );
    assert!(matches!(b.availability(), Availability::Known(true)));
}

#[test]
fn chosen_backend_speaks_like_its_own() {
    let mut cfg = LlmConfig::default();
    cfg.enabled = true;
    let b = build_backend(&cfg).unwrap();
    assert_eq!(b.request("t", "optimize").url, "http://localhost:11434/api/generate");
    assert!(matches!(b.availability(), Availability::Ask(_)));
    cfg.backend = "openai".into();
    let b = build_backend(&cfg).unwrap();
    assert_eq!(b.request("t", "optimize").url, "https://api.deepseek.com/v1/chat/completions");
    assert!(matches!(b.availability(), Availability::Known(false)));
    assert_eq!(b.finish(&LlmReply::Unanswered("z".into())), Err("OpenAI 请求失败: z".to_string()));
}

#[test]
fn build_backend_needs_a_complete_configuration() {
    let mut cfg = LlmConfig::default();
    cfg.enabled = true;
    cfg.ollama.endpoint = "".into();
    assert!(build_backend(&cfg).is_none());
    cfg.backend = "openai".into();
    assert!(build_backend(&cfg).is_some());
    cfg.openai.model = "".into();
    assert!(build_backend(&cfg).is_none());
    cfg.backend = "ollama".into();
    cfg.ollama.endpoint = "http://x".into();
    assert!(build_backend(&cfg).is_some());
    cfg.ollama.model = "".into();
    assert!(build_backend(&cfg).is_none());
}
