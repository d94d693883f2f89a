//! What is written to disk after a recording, and where.

use vstd::prelude::*;
use crate::text;
use crate::text::{chars_of, end_trimmed, trimmed};

verus! {

// ── Configuration ──────────────────────────────────────

/// The format of the texts.
#[derive(Debug, Clone, Copy, PartialEq, Eq, Structural)]
pub enum TextFormat {
    Txt,
    Md,
}

impl Default for TextFormat {
    fn default() -> (r: Self)
        ensures
            r == TextFormat::Txt,
    {
        TextFormat::Txt
    }
}

/// Whether anything is written, in which format, and to which directory.
#[derive(Debug, Clone)]
pub struct ExportConfig {
    pub enabled: bool,
    pub text_format: TextFormat,
    pub export_dir: String,
}

/// The directory of the program in a user's profile.
pub open spec fn program_dir(profile: Seq<char>) -> Seq<char> {
    profile + "\\Documents\\VoiceDown"@
}

/// The directory of the program in a user's profile; in the current directory where there is none.
pub fn program_dir_of(profile: Option<&str>) -> (r: String)
    ensures
        r@ == program_dir(
            match profile {
                Some(p) => p@,
                None => "."@,
            },
        ),
{
    let mut r = match profile {
        Some(p) => p.to_string(),
        None => ".".to_string(),
    };
    r.append("\\Documents\\VoiceDown");
    r
}

impl ExportConfig {
    /// The configuration before the user has changed it: texts are written, plain, to the directory
    /// of the program.
    pub fn for_profile(profile: Option<&str>) -> (r: Self)
        ensures
            r.enabled,
            r.text_format == TextFormat::Txt,
            r.export_dir@ == program_dir(
                match profile {
                    Some(p) => p@,
                    None => "."@,
                },
            ),
    {
        ExportConfig {
            enabled: true,
            text_format: TextFormat::default(),
            export_dir: program_dir_of(profile),
        }
    }
}

impl Default for ExportConfig {
    /// What is written where no profile is known.
    fn default() -> (r: Self)
        ensures
            r.enabled,
            r.text_format == TextFormat::Txt,
            r.export_dir@ == program_dir("."@),
    {
        ExportConfig::for_profile(None)
    }
}

// ── The directory ──────────────────────────────────────

/// Why nothing can be written to a directory.
#[derive(Debug, Clone, PartialEq, Eq)]
pub enum ExportPathError {
    /// The path is blank, or has a character that no path has.
    InvalidChars,
    /// There is a file under the path.
    NotADirectory,
    /// Nothing can be written there, or the place is not there.
    Unwritable,
    /// The system failed for another reason.
    CreateFailed(String),
}

impl ExportPathError {
    /// What the message says.
    pub open spec fn says(self) -> Seq<char> {
        match self {
            ExportPathError::InvalidChars => "路径为空或含非法字符（<>:\"|?* 或控制字符）"@,
            ExportPathError::NotADirectory => "路径指向的是文件，不是目录"@,
            ExportPathError::Unwritable => "目录不可写（权限不足或盘/父路径不存在）"@,
            ExportPathError::CreateFailed(e) => "创建目录失败: "@ + e@,
        }
    }

    /// The message for the user.
    pub fn message(&self) -> (r: String)
        ensures
            r@ == self.says(),
    {
        match self {
            ExportPathError::InvalidChars =>
                "路径为空或含非法字符（<>:\"|?* 或控制字符）".to_string(),
            ExportPathError::NotADirectory => "路径指向的是文件，不是目录".to_string(),
            ExportPathError::Unwritable => "目录不可写（权限不足或盘/父路径不存在）".to_string(),
            ExportPathError::CreateFailed(e) => {
                let mut r = "创建目录失败: ".to_string();
                r.append(e.as_str());
                r
            },
        }
    }
}

/// The control characters of Unicode.
pub open spec fn control(c: char) -> bool {
    c as int <= 0x1f || 0x7f <= c as int <= 0x9f
}

/// The characters that no path has. The colon is not among them: it stands behind a drive.
pub open spec fn forbidden(c: char) -> bool {
    c == '<' || c == '>' || c == '"' || c == '|' || c == '?' || c == '*' || control(c)
}

fn is_forbidden(c: char) -> (r: bool)
    ensures
        r == forbidden(c),
{
    let n: u32 = c as u32;
    c == '<' || c == '>' || c == '"' || c == '|' || c == '?' || c == '*' || n <= 0x1f || (0x7f <= n
        && n <= 0x9f)
}

/// Whether a text can be a path: it is not blank, and has no character that no path has, but for
/// white space at its ends.
pub open spec fn can_be_path(s: Seq<char>) -> bool {
    let t = text::trim(s);
    t.len() > 0 && forall|i: int| 0 <= i < t.len() ==> !forbidden(#[trigger] t[i])
}

/// Why the system refused something.
#[derive(Debug, Clone)]
pub enum IoFault {
    PermissionDenied,
    NotFound,
    /// With what the system said.
    Other(String),
}

/// What is left to do to find out whether a directory can be written to.
pub enum DirCheck {
    /// See whether a file or a directory is there.
    Inspect(String),
    /// Make the directory.
    Create(String),
    /// Write a file in it.
    Probe(String),
    /// Nothing: it can be written to.
    Usable(String),
    /// Nothing: it cannot.
    Refused(ExportPathError),
}

/// The error for a fault.
pub open spec fn refusal(f: IoFault) -> ExportPathError {
    match f {
        IoFault::PermissionDenied => ExportPathError::Unwritable,
        IoFault::NotFound => ExportPathError::Unwritable,
        IoFault::Other(e) => ExportPathError::CreateFailed(e),
    }
}

/// The error for a fault.
pub fn map_io_err(f: IoFault) -> (r: ExportPathError)
    ensures
        r == refusal(f),
{
    match f {
        IoFault::PermissionDenied => ExportPathError::Unwritable,
        IoFault::NotFound => ExportPathError::Unwritable,
        IoFault::Other(e) => ExportPathError::CreateFailed(e),
    }
}

impl DirCheck {
    /// Starts with a path as the user wrote it.
    pub fn start(path: &str) -> (r: Self)
        ensures
            can_be_path(path@) ==> (r matches DirCheck::Inspect(p) && p@ == text::trim(path@)),
            !can_be_path(path@) ==> r == DirCheck::Refused(ExportPathError::InvalidChars),
    {
        let p = trimmed(path);
        if p.as_str().is_empty() {
            return DirCheck::Refused(ExportPathError::InvalidChars);
        }
        let v = chars_of(p.as_str());
        let mut i: usize = 0;
        while i < v.len()
            invariant
                i <= v.len(),
                v@ == text::trim(path@),
                forall|j: int| 0 <= j < i ==> !forbidden(#[trigger] v@[j]),
            decreases v.len() - i,
        {
            if is_forbidden(v[i]) {
                return DirCheck::Refused(ExportPathError::InvalidChars);
            }
            i = i + 1;
        }
        DirCheck::Inspect(p)
    }

    /// Goes on when it is known whether a file and whether anything at all is there.
    pub fn inspected(self, is_file: bool, present: bool) -> (r: Self)
        ensures
            match self {
                DirCheck::Inspect(p) => r == (if is_file {
                    DirCheck::Refused(ExportPathError::NotADirectory)
                } else if present {
                    DirCheck::Probe(p)
                } else {
                    DirCheck::Create(p)
                }),
                _ => r == self,
            },
    {
        match self {
            DirCheck::Inspect(p) => if is_file {
                DirCheck::Refused(ExportPathError::NotADirectory)
            } else if present {
                DirCheck::Probe(p)
            } else {
                DirCheck::Create(p)
            },
            other => other,
        }
    }

    /// Goes on when making the directory has been tried.
    pub fn created(self, outcome: Result<(), IoFault>) -> (r: Self)
        ensures
            match self {
                DirCheck::Create(p) => r == (match outcome {
                    Ok(_) => DirCheck::Probe(p),
                    Err(f) => DirCheck::Refused(refusal(f)),
                }),
                _ => r == self,
            },
    {
        match self {
            DirCheck::Create(p) => match outcome {
                Ok(_) => DirCheck::Probe(p),
                Err(f) => DirCheck::Refused(map_io_err(f)),
            },
            other => other,
        }
    }

    /// Goes on when writing a file has been tried.
    pub fn probed(self, outcome: Result<(), IoFault>) -> (r: Self)
        ensures
            match self {
                DirCheck::Probe(p) => r == (match outcome {
                    Ok(_) => DirCheck::Usable(p),
                    Err(f) => DirCheck::Refused(refusal(f)),
                }),
                _ => r == self,
            },
    {
        match self {
            DirCheck::Probe(p) => match outcome {
                Ok(_) => DirCheck::Usable(p),
                Err(f) => DirCheck::Refused(map_io_err(f)),
            },
            other => other,
        }
    }
}

/// How the system answers while a directory is checked.
pub struct DirFacts {
    /// Whether a file is under the path.
    pub is_file: bool,
    /// Whether anything is.
    pub present: bool,
    /// What comes of making the directory, where nothing is.
    pub create: Result<(), IoFault>,
    /// What comes of writing a file in it.
    pub probe: Result<(), IoFault>,
}

/// Checks a directory from beginning to end, with the answers of the system: the path that can be
/// written to, or why it cannot.
pub fn validate_export_dir(path: &str, facts: DirFacts) -> (r: Result<String, ExportPathError>)
    ensures
        ({
            let usable = facts.present || facts.create is Ok;
            &&& r is Ok <==> can_be_path(path@) && !facts.is_file && usable && facts.probe is Ok
            &&& r is Ok ==> r->Ok_0@ == text::trim(path@)
            &&& r is Err ==> r->Err_0 == if !can_be_path(path@) {
                ExportPathError::InvalidChars
            } else if facts.is_file {
                ExportPathError::NotADirectory
            } else if !usable {
                refusal(facts.create->Err_0)
            } else {
                refusal(facts.probe->Err_0)
            }
        }),
{
    let check = DirCheck::start(path).inspected(facts.is_file, facts.present).created(
        facts.create,
    ).probed(facts.probe);
    match check {
        DirCheck::Usable(p) => Ok(p),
        DirCheck::Refused(e) => Err(e),
        _ => Err(ExportPathError::Unwritable),
    }
}

// ── What is written ────────────────────────────────────

/// A text to be written: the name of its file, and what stands in it.
#[derive(Debug, Clone, PartialEq, Eq)]
pub struct Artifact {
    pub filename: String,
    pub content: String,
}

/// All that is to be written; what is missing is not.
#[derive(Debug, Clone, PartialEq, Eq)]
pub struct ArtifactsPlan {
    pub wav: Option<String>,
    pub text: Option<Artifact>,
    pub optimized: Option<Artifact>,
}

/// What an [`ArtifactsPlan`] holds; a text is given by the name of its file and what stands in it.
#[verifier::ext_equal]
pub struct Plan {
    pub wav: Option<Seq<char>>,
    pub text: Option<(Seq<char>, Seq<char>)>,
    pub optimized: Option<(Seq<char>, Seq<char>)>,
}

impl View for ArtifactsPlan {
    type V = Plan;

    open spec fn view(&self) -> Plan {
        Plan {
            wav: text::opt(self.wav),
            text: match self.text {
                Some(a) => Some((a.filename@, a.content@)),
                None => None,
            },
            optimized: match self.optimized {
                Some(a) => Some((a.filename@, a.content@)),
                None => None,
            },
        }
    }
}

/// A text under a title, without white space at its end.
pub open spec fn titled(s: Seq<char>, title: Seq<char>) -> Seq<char> {
    "# "@ + title + "\n\n"@ + text::trim_end(s)
}

/// A text in a format.
pub open spec fn rendered(s: Seq<char>, format: TextFormat, title: Seq<char>) -> Seq<char> {
    match format {
        TextFormat::Txt => s,
        TextFormat::Md => titled(s, title),
    }
}

/// What the names of texts end with.
pub open spec fn extension(format: TextFormat) -> Seq<char> {
    match format {
        TextFormat::Txt => ".txt"@,
        TextFormat::Md => ".md"@,
    }
}

/// What is to be written: nothing where that is switched off, else what there is.
pub open spec fn planned(
    enabled: bool,
    format: TextFormat,
    base: Seq<char>,
    has_audio: bool,
    transcription: Option<Seq<char>>,
    optimized: Option<Seq<char>>,
) -> Plan {
    if !enabled {
        Plan { wav: None, text: None, optimized: None }
    } else {
        Plan {
            wav: if has_audio {
                Some(base + ".wav"@)
            } else {
                None
            },
            text: match transcription {
                Some(t) => Some((base + extension(format), rendered(t, format, base))),
                None => None,
            },
            optimized: match optimized {
                Some(o) => Some(
                    (base + "_optimized"@ + extension(format), rendered(o, format, base)),
                ),
                None => None,
            },
        }
    }
}

/// A text under a title.
pub fn render_md(text: &str, title: &str) -> (r: String)
    ensures
        r@ == titled(text@, title@),
{
    let mut r = "# ".to_string();
    r.append(title);
    r.append("\n\n");
    r.append(end_trimmed(text).as_str());
    r
}

/// A text in a format.
pub fn render_text(text: &str, format: TextFormat, title: &str) -> (r: String)
    ensures
        r@ == rendered(text@, format, title@),
{
    match format {
        TextFormat::Txt => text.to_string(),
        TextFormat::Md => render_md(text, title),
    }
}

fn artifact(text: &str, format: TextFormat, base: &str, mark: &str) -> (r: Artifact)
    ensures
        r.filename@ == base@ + mark@ + extension(format),
        r.content@ == rendered(text@, format, base@),
{
    let mut filename = base.to_string();
    filename.append(mark);
    match format {
        TextFormat::Txt => filename.append(".txt"),
        TextFormat::Md => filename.append(".md"),
    }
    Artifact { filename, content: render_text(text, format, base) }
}

/// The characters of a text, where there is one.
pub open spec fn chars(s: Option<&str>) -> Option<Seq<char>> {
    match s {
        Some(s) => Some(s@),
        None => None,
    }
}

/// Decides what is to be written. Sound and texts do not depend on each other: what there is, is
/// written. The names of the files begin with `base`, which is also the title of the texts.
pub fn export_plan(
    cfg: &ExportConfig,
    base: &str,
    has_audio: bool,
    transcription: Option<&str>,
    optimized: Option<&str>,
) -> (r: ArtifactsPlan)
    ensures
        r@ == planned(
            cfg.enabled,
            cfg.text_format,
            base@,
            has_audio,
            chars(transcription),
            chars(optimized),
        ),
{
    if !cfg.enabled {
        return ArtifactsPlan { wav: None, text: None, optimized: None };
    }
    let wav = if has_audio {
        let mut w = base.to_string();
        w.append(".wav");
        Some(w)
    } else {
        None
    };
    let text = match transcription {
        Some(t) => {
            assert(base@ + ""@ + extension(cfg.text_format) =~= base@ + extension(cfg.text_format))
                by {
                reveal_strlit("");
            }
            Some(artifact(t, cfg.text_format, base, ""))
        },
        None => None,
    };
    let optimized = match optimized {
        Some(o) => Some(artifact(o, cfg.text_format, base, "_optimized")),
        None => None,
    };
    ArtifactsPlan { wav, text, optimized }
}

// ── Laws ───────────────────────────────────────────────

/// Nothing is written where that is switched off.
pub proof fn switched_off_writes_nothing(
    format: TextFormat,
    base: Seq<char>,
    has_audio: bool,
    transcription: Option<Seq<char>>,
    optimized: Option<Seq<char>>,
)
    ensures
        ({
            let p = planned(false, format, base, has_audio, transcription, optimized);
            p.wav is None && p.text is None && p.optimized is None
        }),
{
}

/// No two files of a recording have the same name, so that none overwrites another.
pub proof fn files_have_their_own_names(
    format: TextFormat,
    base: Seq<char>,
    t: Seq<char>,
    o: Seq<char>,
)
    ensures
        ({
            let p = planned(true, format, base, true, Some(t), Some(o));
            let (wav, text, optimized) = (p.wav->Some_0, p.text->Some_0.0, p.optimized->Some_0.0);
            wav != text && wav != optimized && text != optimized
        }),
{
    reveal_strlit(".wav");
    reveal_strlit(".txt");
    reveal_strlit(".md");
    reveal_strlit("_optimized");
    let n = base.len();
    let wav = base + ".wav"@;
    let text = base + extension(format);
    let optimized = base + "_optimized"@ + extension(format);
    assert(wav[n as int + 1] == 'w');
    assert(text[n as int + 1] != 'w');
    assert(optimized[n as int] == '_');
    assert(wav[n as int] == '.');
    assert(text[n as int] == '.');
}

/// A text is written as it is, but for a title and white space at its end: nothing of it is lost.
pub proof fn texts_are_written_whole(s: Seq<char>, format: TextFormat, title: Seq<char>)
    ensures
        format == TextFormat::Txt ==> rendered(s, format, title) == s,
        format == TextFormat::Md ==> text::visible(rendered(s, format, title)) == seq!['#']
            + text::visible(title) + text::visible(s),
{
    if format == TextFormat::Md {
        reveal_strlit("# ");
        reveal_strlit("\n\n");
        reveal_with_fuel(text::visible, 3);
        let head = "# "@ + title;
        text::lemma_visible_add("# "@, title);
        text::lemma_visible_add(head, "\n\n"@);
        text::lemma_visible_add(head + "\n\n"@, text::trim_end(s));
        text::lemma_visible_trim_end(s);
        assert("# "@.drop_last() =~= seq!['#']);
        assert(seq!['#'].drop_last() =~= Seq::<char>::empty());
        assert(text::visible("# "@) =~= seq!['#']);
        assert("\n\n"@.drop_last() =~= seq!['\n']);
        assert(seq!['\n'].drop_last() =~= Seq::<char>::empty());
        assert(text::visible("\n\n"@) =~= Seq::<char>::empty());
        assert(text::visible(rendered(s, format, title)) =~= seq!['#'] + text::visible(title)
            + text::visible(s));
    }
}

/// The characters that no path has are six marks and the control characters; a colon, a slash and a
/// backslash are none of them.
pub proof fn forbidden_characters_are_known(c: char)
    ensures
        forbidden(c) <==> c as int == 0x22 || c as int == 0x2a || c as int == 0x3c || c as int
            == 0x3e || c as int == 0x3f || c as int == 0x7c || c as int <= 0x1f || 0x7f <= c as int
            <= 0x9f,
{
}

/// The directory of the program in a profile stands below the documents of the profile; without a
/// profile it stands below the current directory.
pub proof fn the_directory_of_the_program(profile: &str, r: String, none: String)
    requires
        call_ensures(program_dir_of, (Some(profile),), r),
        call_ensures(program_dir_of, (None,), none),
    ensures
        r@ == profile@ + "\\Documents\\VoiceDown"@,
        none@ == seq!['.'] + "\\Documents\\VoiceDown"@,
{
    reveal_strlit(".");
    assert("."@ =~= seq!['.']);
}

/// A directory can be used exactly where its path can be one, no file stands there, it is there or can
/// be made, and a file can be written in it; the path is used without the white space round it.
pub proof fn which_directories_can_be_used(
    path: &str,
    facts: DirFacts,
    r: Result<String, ExportPathError>,
)
    requires
        call_ensures(validate_export_dir, (path, facts), r),
    ensures
        ({
            let t = text::trim(path@);
            let sound = t.len() > 0 && forall|i: int|
                0 <= i < t.len() ==> !forbidden(#[trigger] t[i]);
            &&& r matches Ok(p) ==> p@ == t && sound && !facts.is_file && facts.probe is Ok && (
            facts.present || facts.create is Ok)
            &&& sound && !facts.is_file && facts.present && facts.probe is Ok ==> r is Ok
            &&& sound && !facts.is_file && facts.create is Ok && facts.probe is Ok ==> r is Ok
            &&& !sound <==> r == Err::<String, _>(ExportPathError::InvalidChars)
            &&& sound && facts.is_file <==> r == Err::<String, _>(ExportPathError::NotADirectory)
        }),
{
}

/// A directory that may not be written to or whose place is not there is reported as such; any other
/// fault of the system is reported with what the system said.
pub proof fn faults_are_reported(f: IoFault, r: ExportPathError)
    requires
        call_ensures(map_io_err, (f,), r),
    ensures
        f is PermissionDenied || f is NotFound ==> r is Unwritable,
        f matches IoFault::Other(e) ==> r == ExportPathError::CreateFailed(e) && e@.is_suffix_of(
            r.says(),
        ),
{
    if let IoFault::Other(e) = f {
        let label = "创建目录失败: "@;
        assert((label + e@).subrange(label.len() as int, (label + e@).len() as int) =~= e@);
    }
}

/// What is written after a recording, where that is switched on: the sound where there is some, each
/// of the texts where there is one, under names that begin with the same words and end with what they
/// are.
pub proof fn what_there_is_is_written(
    cfg: &ExportConfig,
    base: &str,
    has_audio: bool,
    transcription: Option<&str>,
    optimized: Option<&str>,
    r: ArtifactsPlan,
)
    requires
        cfg.enabled,
        call_ensures(export_plan, (cfg, base, has_audio, transcription, optimized), r),
    ensures
        r.wav is Some <==> has_audio,
        r.wav matches Some(w) ==> w@ == base@ + seq!['.', 'w', 'a', 'v'],
        r.text is Some <==> transcription is Some,
        r.optimized is Some <==> optimized is Some,
        cfg.text_format is Txt && r.text is Some ==> r.text->Some_0.filename@ == base@ + seq![
            '.',
            't',
            'x',
            't',
        ] && r.text->Some_0.content@ == transcription->Some_0@,
        cfg.text_format is Md && r.text is Some ==> r.text->Some_0.filename@ == base@ + seq![
            '.',
            'm',
            'd',
        ],
        cfg.text_format is Txt && r.optimized is Some ==> r.optimized->Some_0.filename@ == base@
            + "_optimized"@ + seq!['.', 't', 'x', 't'] && r.optimized->Some_0.content@
            == optimized->Some_0@,
        cfg.text_format is Md && r.optimized is Some ==> r.optimized->Some_0.filename@ == base@
            + "_optimized"@ + seq!['.', 'm', 'd'],
        cfg.text_format is Md && r.text is Some ==> r.text->Some_0.content@ == seq!['#', ' '] + base@
            + seq!['\n', '\n'] + text::trim_end(transcription->Some_0@),
        cfg.text_format is Md && r.optimized is Some ==> r.optimized->Some_0.content@ == seq![
            '#',
            ' ',
        ] + base@ + seq!['\n', '\n'] + text::trim_end(optimized->Some_0@),
{
    reveal_strlit("# ");
    reveal_strlit("\n\n");
    assert("# "@ =~= seq!['#', ' ']);
    assert("\n\n"@ =~= seq!['\n', '\n']);
    reveal_strlit(".wav");
    reveal_strlit(".txt");
    reveal_strlit(".md");
    assert(".wav"@ =~= seq!['.', 'w', 'a', 'v']);
    assert(".txt"@ =~= seq!['.', 't', 'x', 't']);
    assert(".md"@ =~= seq!['.', 'm', 'd']);
}

/// Where writing is switched off, nothing is written, whatever there is.
pub proof fn nothing_is_written_where_it_is_switched_off(
    cfg: &ExportConfig,
    base: &str,
    has_audio: bool,
    transcription: Option<&str>,
    optimized: Option<&str>,
    r: ArtifactsPlan,
)
    requires
        !cfg.enabled,
        call_ensures(export_plan, (cfg, base, has_audio, transcription, optimized), r),
    ensures
        r.wav is None && r.text is None && r.optimized is None,
{
}

/// A text in the format with titles has its title on the first line, behind a mark, an empty line, and
/// then the text without the white space at its end.
pub proof fn titles_stand_above_texts(s: &str, title: &str, r: String)
    requires
        call_ensures(render_text, (s, TextFormat::Md, title), r),
    ensures
        r@ == seq!['#', ' '] + title@ + seq!['\n', '\n'] + text::trim_end(s@),
{
    reveal_strlit("# ");
    reveal_strlit("\n\n");
    assert("# "@ =~= seq!['#', ' ']);
    assert("\n\n"@ =~= seq!['\n', '\n']);
}

/// Before the user has changed anything, texts are written, plain, to the directory of the program.
pub proof fn texts_are_written_at_first(
    profile: Option<&str>,
    r: ExportConfig,
    dir: String,
)
    requires
        call_ensures(ExportConfig::for_profile, (profile,), r),
        call_ensures(program_dir_of, (profile,), dir),
    ensures
        r.enabled,
        r.text_format is Txt,
        r.export_dir@ == dir@,
{
}

/// A directory is checked step by step: its path, what is there, making it where nothing is, and
/// writing a file in it; a step that goes wrong is the last one, and the path stays the same.
pub proof fn directories_are_checked_step_by_step(
    path: &str,
    first: DirCheck,
    p: String,
    is_file: bool,
    present: bool,
    seen: DirCheck,
    create: Result<(), IoFault>,
    made: DirCheck,
    probe: Result<(), IoFault>,
    last: DirCheck,
)
    requires
        call_ensures(DirCheck::start, (path,), first),
        call_ensures(DirCheck::inspected, (DirCheck::Inspect(p), is_file, present), seen),
        call_ensures(DirCheck::created, (DirCheck::Create(p), create), made),
        call_ensures(DirCheck::probed, (DirCheck::Probe(p), probe), last),
    ensures
        first is Inspect <==> can_be_path(path@),
        first matches DirCheck::Inspect(q) ==> q@ == text::trim(path@),
        first is Refused <==> !can_be_path(path@),
        is_file ==> seen == DirCheck::Refused(ExportPathError::NotADirectory),
        !is_file && present ==> seen == DirCheck::Probe(p),
        !is_file && !present ==> seen == DirCheck::Create(p),
        create is Ok ==> made == DirCheck::Probe(p),
        create is Err ==> made is Refused,
        probe is Ok ==> last == DirCheck::Usable(p),
        probe is Err ==> last is Refused,
{
}

/// A check that has come to its end stays there, and a step that is not due changes nothing.
pub proof fn finished_checks_stay(
    check: DirCheck,
    is_file: bool,
    present: bool,
    seen: DirCheck,
    create: Result<(), IoFault>,
    made: DirCheck,
    probe: Result<(), IoFault>,
    last: DirCheck,
)
    requires
        call_ensures(DirCheck::inspected, (check, is_file, present), seen),
        call_ensures(DirCheck::created, (check, create), made),
        call_ensures(DirCheck::probed, (check, probe), last),
    ensures
        !(check is Inspect) ==> seen == check,
        !(check is Create) ==> made == check,
        !(check is Probe) ==> last == check,
{
}

/// What is said where a directory cannot be used tells the reasons apart.
pub proof fn errors_name_their_reason(e: &ExportPathError, r: String)
    requires
        call_ensures(ExportPathError::message, (e,), r),
    ensures
        *e is InvalidChars ==> r@ == "路径为空或含非法字符（<>:\"|?* 或控制字符）"@,
        *e is NotADirectory ==> r@ == "路径指向的是文件，不是目录"@,
        *e is Unwritable ==> r@ == "目录不可写（权限不足或盘/父路径不存在）"@,
        *e matches ExportPathError::CreateFailed(d) ==> r@ == "创建目录失败: "@ + d@,
{
}

/// A text under a title is what the format with titles makes of it.
pub proof fn titles_are_one_format(s: &str, title: &str, a: String, b: String)
    requires
        call_ensures(render_md, (s, title), a),
        call_ensures(render_text, (s, TextFormat::Md, title), b),
    ensures
        a@ == b@,
{
}

} // verus!
