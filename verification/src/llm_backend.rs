//! The language models that improve the text, and what is said to them.
//!
//! A backend says what to ask of its service and reads what comes back; the exchange itself is up to
//! the caller.

use vstd::prelude::*;
use crate::json;
use crate::json::Json;
use crate::text;
use crate::text::{chars_of, same_text, string_range, trimmed};

verus! {

// ── Configuration ──────────────────────────────────────

/// Where an Ollama service is, and which model it is to use.
#[derive(Debug, Clone)]
pub struct OllamaConfig {
    pub endpoint: String,
    pub model: String,
}

/// Where an OpenAI compatible service is, which model it is to use, and the key to it.
#[derive(Debug, Clone)]
pub struct OpenAiConfig {
    pub endpoint: String,
    pub model: String,
    pub api_key: String,
}

/// Whether the text is to be improved, and by which service: `"ollama"` or `"openai"`.
#[derive(Debug, Clone)]
pub struct LlmConfig {
    pub enabled: bool,
    pub backend: String,
    pub ollama: OllamaConfig,
    pub openai: OpenAiConfig,
}

impl Default for LlmConfig {
    /// Nothing is sent anywhere before the user has said so.
    fn default() -> (r: Self)
        ensures
            !r.enabled,
            r.backend@ == "ollama"@,
            r.ollama.endpoint@ == "http://localhost:11434"@,
            r.ollama.model@ == "qwen2.5:3b"@,
            r.openai.endpoint@ == "https://api.deepseek.com/v1"@,
            r.openai.model@ == "deepseek-chat"@,
            r.openai.api_key@.len() == 0,
    {
        LlmConfig {
            enabled: false,
            backend: "ollama".to_string(),
            ollama: OllamaConfig {
                endpoint: "http://localhost:11434".to_string(),
                model: "qwen2.5:3b".to_string(),
            },
            openai: OpenAiConfig {
                endpoint: "https://api.deepseek.com/v1".to_string(),
                model: "deepseek-chat".to_string(),
                api_key: String::new(),
            },
        }
    }
}

// ── Prompts ────────────────────────────────────────────

/// Asks for a structured document.
pub const FINALIZE_PROMPT: &'static str = "你是中文文档编辑助手。对下面的语音转写全文（可能已轻度润色）做三件事：① 三级结构化：按主题转换切分「# 章节标题」，正文较长的章节仅在确有子主题时加「## 小标题」，禁止每段都升标题、禁止对单一主题强行拆章节；② 全局风格统一：全文用词、语气、书面化程度前后一致，专业、简洁、可读；③ 去冗余：删除口语语气词、重复、啰嗦，合并口水话，但不删事实、细节、专有名词、数字、人名。保持原意与信息量，不做摘要、不增删事实。只输出 markdown 文档（# / ## / 正文 / 列表），不要解释、不要加引号、不要前后缀说明。";

/// Asks for a batch of the transcript, improved.
pub const OPTIMIZE_PROMPT: &'static str = "你是中文语音转写文本的后处理助手。对文本做：纠正同音/近音错别字；补全并修正标点；删除口语语气词（嗯、啊、那个、就是、然后等）但保留必要连接词；轻度书面化润色；按语义完整性重新分段，通常每段约 3-5 句，以语义为准、不要机械按句数切；段落之间用一个空行（两个换行）分隔。保持原意与人称，不增删事实信息。只输出修改后的纯文本，不要解释、不要加引号。";

/// The prompt of a mode: that for the document in the mode `"finalize"`, that for a batch in any
/// other.
pub open spec fn prompt(mode: Seq<char>) -> Seq<char> {
    if mode == "finalize"@ {
        FINALIZE_PROMPT@
    } else {
        OPTIMIZE_PROMPT@
    }
}

/// The prompt of a mode.
pub fn build_prompt(mode: &str) -> (r: &'static str)
    ensures
        r@ == prompt(mode@),
{
    if same_text(mode, "finalize") {
        FINALIZE_PROMPT
    } else {
        OPTIMIZE_PROMPT
    }
}

// ── Request bodies ─────────────────────────────────────

/// What an Ollama service is sent.
pub open spec fn ollama_body(model: Seq<char>, prompt: Seq<char>) -> Json {
    Json::Object(
        map![
            "model"@ => Json::Text(model),
            "prompt"@ => Json::Text(prompt),
            "stream"@ => Json::Bool(false),
            "options"@ => Json::Object(map!["temperature"@ => Json::Number("0.3"@)]),
        ],
    )
}

/// A message of a conversation.
pub open spec fn message(role: Seq<char>, content: Seq<char>) -> Json {
    Json::Object(map!["role"@ => Json::Text(role), "content"@ => Json::Text(content)])
}

/// What an OpenAI compatible service is sent.
pub open spec fn openai_body(model: Seq<char>, system: Seq<char>, user: Seq<char>) -> Json {
    Json::Object(
        map![
            "model"@ => Json::Text(model),
            "messages"@ => Json::Array(
                seq![message("system"@, system), message("user"@, user)],
            ),
            "temperature"@ => Json::Number("0.3"@),
        ],
    )
}

fn temperature() -> (r: serde_json::Value)
    ensures
        json::json_of(r) == Json::Number("0.3"@),
{
    proof {
        reveal_strlit("0.3");
    }
    json::read("0.3").unwrap()
}

fn message_value(role: &str, content: &str) -> (r: serde_json::Value)
    ensures
        json::json_of(r) == message(role@, content@),
{
    let mut members: Vec<(String, serde_json::Value)> = Vec::new();
    members.push(("role".to_string(), json::text_value(role)));
    members.push(("content".to_string(), json::text_value(content)));
    proof {
        json::lemma_collected_2(members@);
    }
    json::object_value(members)
}

/// What an Ollama service is sent.
pub fn build_ollama_body(model: &str, prompt: &str) -> (r: serde_json::Value)
    ensures
        json::json_of(r) == ollama_body(model@, prompt@),
{
    let mut options: Vec<(String, serde_json::Value)> = Vec::new();
    options.push(("temperature".to_string(), temperature()));
    let mut members: Vec<(String, serde_json::Value)> = Vec::new();
    members.push(("model".to_string(), json::text_value(model)));
    members.push(("prompt".to_string(), json::text_value(prompt)));
    members.push(("stream".to_string(), json::flag_value(false)));
    proof {
        json::lemma_collected_1(options@);
    }
    members.push(("options".to_string(), json::object_value(options)));
    proof {
        json::lemma_collected_4(members@);
    }
    json::object_value(members)
}

/// What an OpenAI compatible service is sent.
pub fn build_openai_body(model: &str, system: &str, user: &str) -> (r: serde_json::Value)
    ensures
        json::json_of(r) == openai_body(model@, system@, user@),
{
    let mut messages: Vec<serde_json::Value> = Vec::new();
    messages.push(message_value("system", system));
    messages.push(message_value("user", user));
    assert(messages@.map_values(|v: serde_json::Value| json::json_of(v)) =~= seq![
        message("system"@, system@),
        message("user"@, user@),
    ]);
    let mut members: Vec<(String, serde_json::Value)> = Vec::new();
    members.push(("model".to_string(), json::text_value(model)));
    members.push(("messages".to_string(), json::array_value(messages)));
    members.push(("temperature".to_string(), temperature()));
    proof {
        json::lemma_collected_3(members@);
    }
    json::object_value(members)
}

// ── Backends ───────────────────────────────────────────

/// What a request holds.
#[verifier::ext_equal]
pub struct Asked {
    pub url: Seq<char>,
    pub bearer: Option<Seq<char>>,
    pub body: Json,
}

/// What is to be sent to a service: where, with which key, and what.
pub struct LlmRequest {
    pub url: String,
    pub bearer: Option<String>,
    pub body: serde_json::Value,
}

impl View for LlmRequest {
    type V = Asked;

    open spec fn view(&self) -> Asked {
        Asked {
            url: self.url@,
            bearer: text::opt(self.bearer),
            body: json::json_of(self.body),
        }
    }
}

/// What came of a request: no answer, an answer that is no JSON, or an answer. The first two say
/// what went wrong.
pub enum LlmReply {
    Unanswered(String),
    Unreadable(String),
    Answer(serde_json::Value),
}

/// What an [`Availability`] holds.
pub enum Probe {
    Known(bool),
    Ask(Seq<char>),
}

/// Whether a service can be used: it is known, or it shows in whether a request for an address
/// succeeds.
pub enum Availability {
    Known(bool),
    Ask(String),
}

impl View for Availability {
    type V = Probe;

    open spec fn view(&self) -> Probe {
        match *self {
            Availability::Known(b) => Probe::Known(b),
            Availability::Ask(url) => Probe::Ask(url@),
        }
    }
}

/// `s` without the slashes that it ends with.
pub open spec fn without_slashes(s: Seq<char>) -> Seq<char>
    decreases s.len(),
{
    if s.len() > 0 && s.last() == '/' {
        without_slashes(s.drop_last())
    } else {
        s
    }
}

/// The address of `path` at an endpoint.
fn address(endpoint: &str, path: &str) -> (r: String)
    ensures
        r@ == without_slashes(endpoint@) + path@,
{
    let v = chars_of(endpoint);
    let mut to: usize = v.len();
    assert(v@.take(to as int) == v@);
    while to > 0 && v[to - 1] == '/'
        invariant
            to <= v.len(),
            without_slashes(v@) == without_slashes(v@.take(to as int)),
        decreases to,
    {
        assert(v@.take(to as int).drop_last() == v@.take(to - 1));
        to = to - 1;
    }
    let mut r = string_range(&v, 0, to);
    assert(r@ == v@.take(to as int));
    r.append(path);
    r
}

/// A language model that improves text.
pub trait LlmBackend {
    /// The name of the service.
    spec fn service(&self) -> Seq<char>;

    /// What is to be sent to have `text` improved.
    spec fn asked(&self, text: Seq<char>, mode: Seq<char>) -> Asked;

    /// The improved text in an answer.
    spec fn improved(&self, answer: Json) -> Option<Seq<char>>;

    /// The message for an answer without a text, and what the messages begin with where there was
    /// no answer and where it was no JSON.
    spec fn complaints(&self) -> (Seq<char>, Seq<char>, Seq<char>);

    /// How it shows whether the service can be used.
    spec fn probe(&self) -> Probe;

    /// What is to be sent to have `text` improved.
    fn request(&self, text: &str, mode: &str) -> (r: LlmRequest)
        ensures
            r@ == self.asked(text@, mode@),
    ;

    /// The improved text, or what went wrong.
    fn finish(&self, reply: &LlmReply) -> (r: Result<String, String>)
        ensures
            match *reply {
                LlmReply::Unanswered(e) => r matches Err(m) && m@ == self.complaints().1 + e@,
                LlmReply::Unreadable(e) => r matches Err(m) && m@ == self.complaints().2 + e@,
                LlmReply::Answer(v) => match self.improved(json::json_of(v)) {
                    Some(t) => r matches Ok(s) && s@ == text::trim(t),
                    None => r matches Err(m) && m@ == self.complaints().0,
                },
            },
    ;

    /// How it shows whether the service can be used.
    fn availability(&self) -> (r: Availability)
        ensures
            r@ == self.probe(),
    ;

    /// The name of the service.
    fn name(&self) -> (r: &str)
        ensures
            r@ == self.service(),
    ;
}

/// A text behind a label.
fn labelled(label: &str, e: &str) -> (r: String)
    ensures
        r@ == label@ + e@,
{
    let mut r = label.to_string();
    r.append(e);
    r
}

/// A model behind an Ollama service.
pub struct OllamaBackend {
    pub endpoint: String,
    pub model: String,
}

impl OllamaBackend {
    /// A model behind the Ollama service at `endpoint`.
    pub fn new(endpoint: String, model: String) -> (r: Self)
        ensures
            r.endpoint@ == endpoint@,
            r.model@ == model@,
    {
        OllamaBackend { endpoint, model }
    }
}

impl LlmBackend for OllamaBackend {
    open spec fn service(&self) -> Seq<char> {
        "ollama"@
    }

    open spec fn asked(&self, text: Seq<char>, mode: Seq<char>) -> Asked {
        Asked {
            url: without_slashes(self.endpoint@) + "/api/generate"@,
            bearer: None,
            body: ollama_body(self.model@, prompt(mode) + "\n\n"@ + text),
        }
    }

    open spec fn improved(&self, answer: Json) -> Option<Seq<char>> {
        match answer.member("response"@) {
            Some(j) => j.as_text(),
            None => None,
        }
    }

    open spec fn complaints(&self) -> (Seq<char>, Seq<char>, Seq<char>) {
        ("Ollama 响应缺 response 字段"@, "Ollama 请求失败: "@, "Ollama 响应解析失败: "@)
    }

    open spec fn probe(&self) -> Probe {
        Probe::Ask(without_slashes(self.endpoint@) + "/api/tags"@)
    }

    fn request(&self, text: &str, mode: &str) -> (r: LlmRequest) {
        let mut whole = build_prompt(mode).to_string();
        whole.append("\n\n");
        whole.append(text);
        LlmRequest {
            url: address(self.endpoint.as_str(), "/api/generate"),
            bearer: None,
            body: build_ollama_body(self.model.as_str(), whole.as_str()),
        }
    }

    fn finish(&self, reply: &LlmReply) -> (r: Result<String, String>) {
        match reply {
            LlmReply::Unanswered(e) => Err(labelled("Ollama 请求失败: ", e.as_str())),
            LlmReply::Unreadable(e) => Err(labelled("Ollama 响应解析失败: ", e.as_str())),
            LlmReply::Answer(v) => match json::text_member(v, "response") {
                Some(t) => Ok(trimmed(t.as_str())),
                None => Err("Ollama 响应缺 response 字段".to_string()),
            },
        }
    }

    fn availability(&self) -> (r: Availability) {
        Availability::Ask(address(self.endpoint.as_str(), "/api/tags"))
    }

    fn name(&self) -> (r: &str) {
        "ollama"
    }
}

/// A model behind an OpenAI compatible service.
pub struct OpenAiBackend {
    pub endpoint: String,
    pub model: String,
    pub api_key: String,
}

/// Whether `reqwest::Url::parse` takes a text for an address.
pub uninterp spec fn url_parses(s: Seq<char>) -> bool;

/// `reqwest::Url::parse` gives the parts of an address, and fails where the text is none. It goes by
/// the text alone.
#[verifier::external_body]
fn is_url(s: &str) -> (r: bool)
    ensures
        r == url_parses(s@),
{
    reqwest::Url::parse(s).is_ok()
}

impl OpenAiBackend {
    /// A model behind the OpenAI compatible service at `endpoint`.
    pub fn new(endpoint: String, model: String, api_key: String) -> (r: Self)
        ensures
            r.endpoint@ == endpoint@,
            r.model@ == model@,
            r.api_key@ == api_key@,
    {
        OpenAiBackend { endpoint, model, api_key }
    }

    /// Whether the configuration is complete, where `is_address` says whether the endpoint is an
    /// address: there is a key, and an address.
    pub fn is_complete(&self, is_address: bool) -> (r: bool)
        ensures
            r <==> self.api_key@.len() > 0 && is_address,
    {
        !self.api_key.as_str().is_empty() && is_address
    }

    /// Whether the service can be used. Nothing is sent to find out: the configuration has to be
    /// complete.
    pub fn check_available(&self) -> (r: bool)
        ensures
            r <==> self.api_key@.len() > 0 && url_parses(self.endpoint@),
    {
        self.is_complete(is_url(self.endpoint.as_str()))
    }
}

impl LlmBackend for OpenAiBackend {
    open spec fn service(&self) -> Seq<char> {
        "openai"@
    }

    open spec fn asked(&self, text: Seq<char>, mode: Seq<char>) -> Asked {
        Asked {
            url: without_slashes(self.endpoint@) + "/chat/completions"@,
            bearer: Some(self.api_key@),
            body: openai_body(self.model@, prompt(mode), text),
        }
    }

    open spec fn improved(&self, answer: Json) -> Option<Seq<char>> {
        match answer.member("choices"@) {
            Some(choices) => match choices.item(0) {
                Some(first) => match first.member("message"@) {
                    Some(m) => match m.member("content"@) {
                        Some(content) => content.as_text(),
                        None => None,
                    },
                    None => None,
                },
                None => None,
            },
            None => None,
        }
    }

    open spec fn complaints(&self) -> (Seq<char>, Seq<char>, Seq<char>) {
        (
            "OpenAI 响应缺 choices[0].message.content"@,
            "OpenAI 请求失败: "@,
            "OpenAI 响应解析失败: "@,
        )
    }

    open spec fn probe(&self) -> Probe {
        Probe::Known(self.api_key@.len() > 0 && url_parses(self.endpoint@))
    }

    fn request(&self, text: &str, mode: &str) -> (r: LlmRequest) {
        LlmRequest {
            url: address(self.endpoint.as_str(), "/chat/completions"),
            bearer: Some(self.api_key.clone()),
            body: build_openai_body(self.model.as_str(), build_prompt(mode), text),
        }
    }

    fn finish(&self, reply: &LlmReply) -> (r: Result<String, String>) {
        let v = match reply {
            LlmReply::Unanswered(e) => {
                return Err(labelled("OpenAI 请求失败: ", e.as_str()));
            },
            LlmReply::Unreadable(e) => {
                return Err(labelled("OpenAI 响应解析失败: ", e.as_str()));
            },
            LlmReply::Answer(v) => v,
        };
        if let Some(choices) = json::member(v, "choices") {
            if let Some(first) = json::item(choices, 0) {
                if let Some(m) = json::member(first, "message") {
                    if let Some(t) = json::text_member(m, "content") {
                        return Ok(trimmed(t.as_str()));
                    }
                }
            }
        }
        Err("OpenAI 响应缺 choices[0].message.content".to_string())
    }

    fn availability(&self) -> (r: Availability) {
        Availability::Known(self.check_available())
    }

    fn name(&self) -> (r: &str) {
        "openai"
    }
}

/// The backend that a configuration chooses.
pub enum Backend {
    Ollama(OllamaBackend),
    OpenAi(OpenAiBackend),
}

impl LlmBackend for Backend {
    open spec fn service(&self) -> Seq<char> {
        match *self {
            Backend::Ollama(b) => b.service(),
            Backend::OpenAi(b) => b.service(),
        }
    }

    open spec fn asked(&self, text: Seq<char>, mode: Seq<char>) -> Asked {
        match *self {
            Backend::Ollama(b) => b.asked(text, mode),
            Backend::OpenAi(b) => b.asked(text, mode),
        }
    }

    open spec fn improved(&self, answer: Json) -> Option<Seq<char>> {
        match *self {
            Backend::Ollama(b) => b.improved(answer),
            Backend::OpenAi(b) => b.improved(answer),
        }
    }

    open spec fn complaints(&self) -> (Seq<char>, Seq<char>, Seq<char>) {
        match *self {
            Backend::Ollama(b) => b.complaints(),
            Backend::OpenAi(b) => b.complaints(),
        }
    }

    open spec fn probe(&self) -> Probe {
        match *self {
            Backend::Ollama(b) => b.probe(),
            Backend::OpenAi(b) => b.probe(),
        }
    }

    fn request(&self, text: &str, mode: &str) -> (r: LlmRequest) {
        match self {
            Backend::Ollama(b) => b.request(text, mode),
            Backend::OpenAi(b) => b.request(text, mode),
        }
    }

    fn finish(&self, reply: &LlmReply) -> (r: Result<String, String>) {
        match self {
            Backend::Ollama(b) => b.finish(reply),
            Backend::OpenAi(b) => b.finish(reply),
        }
    }

    fn availability(&self) -> (r: Availability) {
        match self {
            Backend::Ollama(b) => b.availability(),
            Backend::OpenAi(b) => b.availability(),
        }
    }

    fn name(&self) -> (r: &str) {
        match self {
            Backend::Ollama(b) => b.name(),
            Backend::OpenAi(b) => b.name(),
        }
    }
}

/// Whether a configuration names the address and the model of the service that it chooses. A key is
/// not asked for here: a service without one is found out when it is tried.
pub open spec fn complete(cfg: LlmConfig) -> bool {
    if cfg.backend@ == "openai"@ {
        cfg.openai.endpoint@.len() > 0 && cfg.openai.model@.len() > 0
    } else {
        cfg.ollama.endpoint@.len() > 0 && cfg.ollama.model@.len() > 0
    }
}

/// The backend of a configuration: none where improving is switched off or the configuration is not
/// complete, the OpenAI compatible one where it is named, Ollama in any other case.
pub fn build_backend(cfg: &LlmConfig) -> (r: Option<Backend>)
    ensures
        r is None <==> !(cfg.enabled && complete(*cfg)),
        match r {
            None => true,
            Some(Backend::OpenAi(b)) => cfg.enabled && cfg.backend@ == "openai"@ && b.endpoint@
                == cfg.openai.endpoint@ && b.model@ == cfg.openai.model@ && b.api_key@
                == cfg.openai.api_key@,
            Some(Backend::Ollama(b)) => cfg.enabled && cfg.backend@ != "openai"@ && b.endpoint@
                == cfg.ollama.endpoint@ && b.model@ == cfg.ollama.model@,
        },
{
    if !cfg.enabled {
        return None;
    }
    if same_text(cfg.backend.as_str(), "openai") {
        if cfg.openai.endpoint.as_str().is_empty() || cfg.openai.model.as_str().is_empty() {
            return None;
        }
        Some(
            Backend::OpenAi(
                OpenAiBackend::new(
                    cfg.openai.endpoint.clone(),
                    cfg.openai.model.clone(),
                    cfg.openai.api_key.clone(),
                ),
            ),
        )
    } else {
        if cfg.ollama.endpoint.as_str().is_empty() || cfg.ollama.model.as_str().is_empty() {
            return None;
        }
        Some(
            Backend::Ollama(
                OllamaBackend::new(cfg.ollama.endpoint.clone(), cfg.ollama.model.clone()),
            ),
        )
    }
}

// ── Laws ───────────────────────────────────────────────

/// The prompt that goes with a mode: that for the document where the document is asked for, and that
/// for a batch otherwise.
pub proof fn each_mode_has_its_prompt(mode: &str, r: &'static str)
    requires
        call_ensures(build_prompt, (mode,), r),
    ensures
        mode@ == seq!['f', 'i', 'n', 'a', 'l', 'i', 'z', 'e'] ==> r@ == FINALIZE_PROMPT@,
        mode@ != seq!['f', 'i', 'n', 'a', 'l', 'i', 'z', 'e'] ==> r@ == OPTIMIZE_PROMPT@,
{
    reveal_strlit("finalize");
    assert("finalize"@ =~= seq!['f', 'i', 'n', 'a', 'l', 'i', 'z', 'e']);
}

/// An Ollama service is sent the prompt of the mode, a blank line and the text; the model that was
/// chosen; and that it is to answer at once.
pub proof fn ollama_is_sent_prompt_and_text(
    b: &OllamaBackend,
    text: &str,
    mode: &str,
    prompt: &'static str,
    r: LlmRequest,
)
    requires
        call_ensures(build_prompt, (mode,), prompt),
        call_ensures(<OllamaBackend as LlmBackend>::request, (b, text, mode), r),
    ensures
        ({
            let body = json::json_of(r.body);
            &&& body.member("prompt"@) == Some(
                Json::Text(prompt@ + seq!['\n', '\n'] + text@),
            )
            &&& body.member("model"@) == Some(Json::Text(b.model@))
            &&& body.member("stream"@) == Some(Json::Bool(false))
            &&& body.member("options"@) matches Some(o) && o.member("temperature"@) == Some(
                Json::Number(seq!['0', '.', '3']),
            )
        }),
        r.bearer is None,
{
    reveal_strlit("prompt");
    reveal_strlit("model");
    reveal_strlit("stream");
    reveal_strlit("options");
    reveal_strlit("\n\n");
    reveal_strlit("0.3");
    assert("\n\n"@ =~= seq!['\n', '\n']);
    assert("0.3"@ =~= seq!['0', '.', '3']);
    assert("prompt"@[0] != "stream"@[0]);
    assert("model"@.len() == 5 && "prompt"@.len() == 6 && "stream"@.len() == 6 && "options"@.len()
        == 7);
}

/// An OpenAI compatible service is sent two messages, the prompt of the mode from the system and the
/// text from the user; the model that was chosen; and the key.
pub proof fn openai_is_sent_prompt_and_text(
    b: &OpenAiBackend,
    text: &str,
    mode: &str,
    prompt: &'static str,
    r: LlmRequest,
)
    requires
        call_ensures(build_prompt, (mode,), prompt),
        call_ensures(<OpenAiBackend as LlmBackend>::request, (b, text, mode), r),
    ensures
        ({
            let body = json::json_of(r.body);
            &&& body.member("messages"@) matches Some(m) && m.item(2) is None && (m.item(
                0,
            ) matches Some(first) && first.member("role"@) == Some(Json::Text("system"@))
                && first.member("content"@) == Some(Json::Text(prompt@))) && (m.item(
                1,
            ) matches Some(second) && second.member("role"@) == Some(Json::Text("user"@))
                && second.member("content"@) == Some(Json::Text(text@)))
            &&& body.member("model"@) == Some(Json::Text(b.model@))
            &&& body.member("temperature"@) == Some(Json::Number(seq!['0', '.', '3']))
        }),
        text::opt(r.bearer) == Some(b.api_key@),
{
    reveal_strlit("messages");
    reveal_strlit("model");
    reveal_strlit("temperature");
    reveal_strlit("role");
    reveal_strlit("content");
    reveal_strlit("0.3");
    assert("0.3"@ =~= seq!['0', '.', '3']);
    assert("messages"@.len() == 8 && "model"@.len() == 5 && "temperature"@.len() == 11);
    assert("role"@.len() == 4 && "content"@.len() == 7);
}

proof fn lemma_slashes(base: Seq<char>, k: nat)
    requires
        base.len() == 0 || base.last() != '/',
    ensures
        without_slashes(base + Seq::new(k, |i: int| '/')) == base,
    decreases k,
{
    let s = base + Seq::new(k, |i: int| '/');
    if k > 0 {
        lemma_slashes(base, (k - 1) as nat);
        assert(s.drop_last() =~= base + Seq::new((k - 1) as nat, |i: int| '/'));
    } else {
        assert(s =~= base);
    }
}

/// The address that is asked is the endpoint, whatever slashes it was written with at its end, and one
/// slash and the path of the service behind it.
pub proof fn addresses_have_one_slash(
    base: Seq<char>,
    k: nat,
    a: &OllamaBackend,
    b: &OpenAiBackend,
    text: &str,
    mode: &str,
    asked_a: LlmRequest,
    asked_b: LlmRequest,
    probe: Availability,
)
    requires
        base.len() == 0 || base.last() != '/',
        a.endpoint@ == base + Seq::new(k, |i: int| '/'),
        b.endpoint@ == base + Seq::new(k, |i: int| '/'),
        call_ensures(<OllamaBackend as LlmBackend>::request, (a, text, mode), asked_a),
        call_ensures(<OpenAiBackend as LlmBackend>::request, (b, text, mode), asked_b),
        call_ensures(<OllamaBackend as LlmBackend>::availability, (a,), probe),
    ensures
        asked_a.url@ == base + "/api/generate"@,
        asked_b.url@ == base + "/chat/completions"@,
        probe matches Availability::Ask(url) && url@ == base + "/api/tags"@,
{
    lemma_slashes(base, k);
}

/// An answer of an Ollama service is a success exactly where it has a text as its response, and the
/// outcome is that text without the white space round it.
pub proof fn ollama_answers_are_read(
    b: &OllamaBackend,
    v: serde_json::Value,
    s: Seq<char>,
    r: Result<String, String>,
)
    requires
        call_ensures(<OllamaBackend as LlmBackend>::finish, (b, &LlmReply::Answer(v)), r),
    ensures
        json::json_of(v).member("response"@) == Some(Json::Text(s)) ==> r is Ok && r->Ok_0@
            == text::trim(s),
        r is Ok ==> (json::json_of(v).member("response"@) matches Some(j) && j is Text),
{
}

/// An answer of an OpenAI compatible service is a success exactly where the message of its first
/// choice has a text as its content, and the outcome is that text without the white space round it.
pub proof fn openai_answers_are_read(
    b: &OpenAiBackend,
    v: serde_json::Value,
    choices: Json,
    first: Json,
    message: Json,
    s: Seq<char>,
    r: Result<String, String>,
)
    requires
        call_ensures(<OpenAiBackend as LlmBackend>::finish, (b, &LlmReply::Answer(v)), r),
    ensures
        json::json_of(v).member("choices"@) == Some(choices) && choices.item(0) == Some(first)
            && first.member("message"@) == Some(message) && message.member("content"@) == Some(
            Json::Text(s),
        ) ==> r is Ok && r->Ok_0@ == text::trim(s),
        json::json_of(v).member("choices"@) is None ==> r is Err,
        json::json_of(v).member("choices"@) == Some(choices) && choices.item(0) is None ==> r is Err,
        json::json_of(v).member("choices"@) == Some(choices) && choices.item(0) == Some(first)
            && first.member("message"@) is None ==> r is Err,
        json::json_of(v).member("choices"@) == Some(choices) && choices.item(0) == Some(first)
            && first.member("message"@) == Some(message) && !(message.member("content"@) matches
            Some(j) && j is Text) ==> r is Err,
{
}

/// Where a service does not answer, or not with JSON, the outcome is an error that ends with what went
/// wrong.
pub proof fn failures_are_explained(
    a: &OllamaBackend,
    b: &OpenAiBackend,
    e: String,
    ra: Result<String, String>,
    rb: Result<String, String>,
    ua: Result<String, String>,
    ub: Result<String, String>,
)
    requires
        call_ensures(<OllamaBackend as LlmBackend>::finish, (a, &LlmReply::Unanswered(e)), ra),
        call_ensures(<OpenAiBackend as LlmBackend>::finish, (b, &LlmReply::Unanswered(e)), rb),
        call_ensures(<OllamaBackend as LlmBackend>::finish, (a, &LlmReply::Unreadable(e)), ua),
        call_ensures(<OpenAiBackend as LlmBackend>::finish, (b, &LlmReply::Unreadable(e)), ub),
    ensures
        ra matches Err(m) && e@.is_suffix_of(m@),
        rb matches Err(m) && e@.is_suffix_of(m@),
        ua matches Err(m) && e@.is_suffix_of(m@),
        ub matches Err(m) && e@.is_suffix_of(m@),
{
    let (x, y) = (a.complaints(), b.complaints());
    assert((x.1 + e@).subrange(x.1.len() as int, (x.1 + e@).len() as int) =~= e@);
    assert((x.2 + e@).subrange(x.2.len() as int, (x.2 + e@).len() as int) =~= e@);
    assert((y.1 + e@).subrange(y.1.len() as int, (y.1 + e@).len() as int) =~= e@);
    assert((y.2 + e@).subrange(y.2.len() as int, (y.2 + e@).len() as int) =~= e@);
}

/// The backend of a configuration is asked and read as the service that it stands for.
pub proof fn the_chosen_backend_is_asked(
    a: OllamaBackend,
    b: OpenAiBackend,
    text: &str,
    mode: &str,
    reply: &LlmReply,
    asked_a: LlmRequest,
    asked_b: LlmRequest,
    ra: Result<String, String>,
    rb: Result<String, String>,
)
    requires
        call_ensures(<Backend as LlmBackend>::request, (&Backend::Ollama(a), text, mode), asked_a),
        call_ensures(<Backend as LlmBackend>::request, (&Backend::OpenAi(b), text, mode), asked_b),
        call_ensures(<Backend as LlmBackend>::finish, (&Backend::Ollama(a), reply), ra),
        call_ensures(<Backend as LlmBackend>::finish, (&Backend::OpenAi(b), reply), rb),
    ensures
        asked_a@ == a.asked(text@, mode@),
        asked_b@ == b.asked(text@, mode@),
        *reply matches LlmReply::Answer(v) ==> (ra is Ok <==> a.improved(json::json_of(v)) is Some)
            && (rb is Ok <==> b.improved(json::json_of(v)) is Some),
        *reply is Answer || ra is Err && rb is Err,
{
}

/// There is a backend exactly where improving is switched on and the service that is named has an
/// address and a model; it is the one that is named, with what the configuration has for it.
pub proof fn the_named_backend_is_chosen(cfg: &LlmConfig, r: Option<Backend>)
    requires
        call_ensures(build_backend, (cfg,), r),
    ensures
        !cfg.enabled ==> r is None,
        cfg.enabled && cfg.backend@ == seq!['o', 'p', 'e', 'n', 'a', 'i'] ==> if cfg.openai.endpoint@.len()
            == 0 || cfg.openai.model@.len() == 0 {
            r is None
        } else {
            r matches Some(Backend::OpenAi(b)) && b.endpoint@ == cfg.openai.endpoint@ && b.model@
                == cfg.openai.model@ && b.api_key@ == cfg.openai.api_key@
        },
        cfg.enabled && cfg.backend@ != seq!['o', 'p', 'e', 'n', 'a', 'i'] ==> if cfg.ollama.endpoint@.len()
            == 0 || cfg.ollama.model@.len() == 0 {
            r is None
        } else {
            r matches Some(Backend::Ollama(b)) && b.endpoint@ == cfg.ollama.endpoint@ && b.model@
                == cfg.ollama.model@
        },
{
    reveal_strlit("openai");
    assert("openai"@ =~= seq!['o', 'p', 'e', 'n', 'a', 'i']);
}

/// An OpenAI compatible service is taken for usable exactly where there is a key and an address, and
/// nothing is sent to find out.
pub proof fn a_key_and_an_address_are_enough(b: &OpenAiBackend, r: Availability)
    requires
        call_ensures(<OpenAiBackend as LlmBackend>::availability, (b,), r),
    ensures
        r matches Availability::Known(usable) && (usable <==> b.api_key@.len() > 0 && url_parses(
            b.endpoint@,
        )),
{
}

/// Nothing is sent anywhere before the user has said so.
pub proof fn improving_is_switched_off_at_first(cfg: LlmConfig, r: Option<Backend>)
    requires
        call_ensures(<LlmConfig as Default>::default, (), cfg),
        call_ensures(build_backend, (&cfg,), r),
    ensures
        r is None,
{
}

/// The document is asked for in these words: three levels of structure, one style, no redundancy, all
/// the facts, and nothing but the document. A batch is asked for in these: its mistakes corrected,
/// its punctuation mended, its paragraphs parted by an empty line, all the facts, and nothing but the
/// text.
pub proof fn the_words_of_the_prompts()
    ensures
        FINALIZE_PROMPT@ == "你是中文文档编辑助手。对下面的语音转写全文（可能已轻度润色）做三件事：① 三级结构化：按主题转换切分「# 章节标题」，正文较长的章节仅在确有子主题时加「## 小标题」，禁止每段都升标题、禁止对单一主题强行拆章节；② 全局风格统一：全文用词、语气、书面化程度前后一致，专业、简洁、可读；③ 去冗余：删除口语语气词、重复、啰嗦，合并口水话，但不删事实、细节、专有名词、数字、人名。保持原意与信息量，不做摘要、不增删事实。只输出 markdown 文档（# / ## / 正文 / 列表），不要解释、不要加引号、不要前后缀说明。"@,
        OPTIMIZE_PROMPT@ == "你是中文语音转写文本的后处理助手。对文本做：纠正同音/近音错别字；补全并修正标点；删除口语语气词（嗯、啊、那个、就是、然后等）但保留必要连接词；轻度书面化润色；按语义完整性重新分段，通常每段约 3-5 句，以语义为准、不要机械按句数切；段落之间用一个空行（两个换行）分隔。保持原意与人称，不增删事实信息。只输出修改后的纯文本，不要解释、不要加引号。"@,
{
}

/// The configuration before the user has changed it: a service on the same machine, and one behind the
/// network for which there is no key yet.
pub proof fn the_services_at_first(cfg: LlmConfig)
    requires
        call_ensures(<LlmConfig as Default>::default, (), cfg),
    ensures
        cfg.backend@ == seq!['o', 'l', 'l', 'a', 'm', 'a'],
        cfg.ollama.endpoint@ == "http://localhost:11434"@,
        cfg.ollama.model@ == "qwen2.5:3b"@,
        cfg.openai.endpoint@ == "https://api.deepseek.com/v1"@,
        cfg.openai.model@ == "deepseek-chat"@,
        cfg.openai.api_key@ == Seq::<char>::empty(),
{
    reveal_strlit("ollama");
    assert("ollama"@ =~= seq!['o', 'l', 'l', 'a', 'm', 'a']);
    assert(cfg.openai.api_key@ =~= Seq::<char>::empty());
}

/// A backend holds what it was made with, and goes by the name of its service.
pub proof fn backends_hold_what_they_are_made_with(
    endpoint: String,
    model: String,
    api_key: String,
    a: OllamaBackend,
    b: OpenAiBackend,
    name_a: &str,
    name_b: &str,
)
    requires
        call_ensures(OllamaBackend::new, (endpoint, model), a),
        call_ensures(OpenAiBackend::new, (endpoint, model, api_key), b),
        call_ensures(<OllamaBackend as LlmBackend>::name, (&a,), name_a),
        call_ensures(<OpenAiBackend as LlmBackend>::name, (&b,), name_b),
    ensures
        a.endpoint@ == endpoint@ && a.model@ == model@,
        b.endpoint@ == endpoint@ && b.model@ == model@ && b.api_key@ == api_key@,
        name_a@ == seq!['o', 'l', 'l', 'a', 'm', 'a'],
        name_b@ == seq!['o', 'p', 'e', 'n', 'a', 'i'],
{
    reveal_strlit("ollama");
    reveal_strlit("openai");
    assert("ollama"@ =~= seq!['o', 'l', 'l', 'a', 'm', 'a']);
    assert("openai"@ =~= seq!['o', 'p', 'e', 'n', 'a', 'i']);
}

/// The bodies that services are sent say what they are given, by themselves too.
pub proof fn bodies_say_what_they_are_given(
    model: &str,
    prompt: &str,
    user: &str,
    a: serde_json::Value,
    b: serde_json::Value,
)
    requires
        call_ensures(build_ollama_body, (model, prompt), a),
        call_ensures(build_openai_body, (model, prompt, user), b),
    ensures
        json::json_of(a).member("prompt"@) == Some(Json::Text(prompt@)),
        json::json_of(a).member("model"@) == Some(Json::Text(model@)),
        json::json_of(b).member("model"@) == Some(Json::Text(model@)),
        json::json_of(b).member("messages"@) matches Some(m) && (m.item(0) matches Some(first)
            && first.member("content"@) == Some(Json::Text(prompt@))) && (m.item(
            1,
        ) matches Some(second) && second.member("content"@) == Some(Json::Text(user@))),
{
    reveal_strlit("prompt");
    reveal_strlit("model");
    reveal_strlit("stream");
    reveal_strlit("options");
    reveal_strlit("messages");
    reveal_strlit("temperature");
    reveal_strlit("role");
    reveal_strlit("content");
    assert("prompt"@[0] != "stream"@[0]);
    assert("model"@.len() == 5 && "prompt"@.len() == 6 && "stream"@.len() == 6 && "options"@.len()
        == 7 && "messages"@.len() == 8 && "temperature"@.len() == 11);
    assert("role"@.len() == 4 && "content"@.len() == 7);
}

/// A configuration of an OpenAI compatible service is complete with a key and an address.
pub proof fn what_a_service_needs(b: &OpenAiBackend, is_address: bool, complete: bool, usable: bool)
    requires
        call_ensures(OpenAiBackend::is_complete, (b, is_address), complete),
        call_ensures(OpenAiBackend::check_available, (b,), usable),
    ensures
        complete <==> b.api_key@.len() != 0 && is_address,
        usable <==> b.api_key@.len() != 0 && url_parses(b.endpoint@),
{
}

} // verus!
