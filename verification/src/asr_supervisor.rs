//! Keeping the recognition process alive.
//!
//! The process is started when the program starts. Where it dies, it is started again, a limited
//! number of times; after that the user has to ask for it.

use vstd::prelude::*;
use crate::text;
use crate::text::append_decimal;

verus! {

/// How many times in a row starting the process again may fail.
pub const MAX_RESPAWN_ATTEMPTS: u32 = 2;

// ── Phases ─────────────────────────────────────────────

/// How it stands with the process.
#[derive(Debug, Clone)]
pub enum Phase {
    /// It is being started for the first time.
    Loading,
    /// It runs.
    Ready,
    /// It is being started again, after so many failures.
    Respawning { attempts: u32 },
    /// It does not run, and is not being started.
    Error(String),
}

/// What a [`Phase`] holds.
pub enum Standing {
    Loading,
    Ready,
    Respawning(int),
    Error(Seq<char>),
}

impl View for Phase {
    type V = Standing;

    open spec fn view(&self) -> Standing {
        match *self {
            Phase::Loading => Standing::Loading,
            Phase::Ready => Standing::Ready,
            Phase::Respawning { attempts } => Standing::Respawning(attempts as int),
            Phase::Error(e) => Standing::Error(e@),
        }
    }
}

impl PartialEq for Phase {
    fn eq(&self, other: &Self) -> (r: bool) {
        match (self, other) {
            (Phase::Loading, Phase::Loading) => true,
            (Phase::Ready, Phase::Ready) => true,
            (Phase::Respawning { attempts: a }, Phase::Respawning { attempts: b }) => *a == *b,
            (Phase::Error(a), Phase::Error(b)) => *a == *b,
            _ => false,
        }
    }
}

impl vstd::std_specs::cmp::PartialEqSpecImpl for Phase {
    open spec fn obeys_eq_spec() -> bool {
        true
    }

    open spec fn eq_spec(&self, other: &Self) -> bool {
        self@ == other@
    }
}

impl Eq for Phase {

}

/// What happens to the process.
#[derive(Debug, Clone, Copy, PartialEq, Eq, Structural)]
pub enum Event {
    /// It was started.
    Spawned,
    /// It has ended.
    Exited,
    /// Starting it again has failed.
    RespawnFail,
    /// The user asks for it.
    Restart,
}

/// After one more failure: another attempt, or an error where there have been enough.
pub open spec fn after_failure(attempts: int) -> Standing {
    if attempts + 1 >= MAX_RESPAWN_ATTEMPTS {
        Standing::Error(Seq::empty())
    } else {
        Standing::Respawning(attempts + 1)
    }
}

impl Standing {
    /// After an event. One that means nothing in a phase changes nothing.
    pub open spec fn after(self, event: Event) -> Standing {
        match (self, event) {
            (_, Event::Spawned) => Standing::Ready,
            (Standing::Loading, Event::Exited) => Standing::Respawning(0),
            (Standing::Ready, Event::Exited) => Standing::Respawning(0),
            (Standing::Respawning(n), Event::Exited) => after_failure(n),
            (Standing::Respawning(n), Event::RespawnFail) => after_failure(n),
            (Standing::Error(_), Event::Restart) => Standing::Respawning(0),
            _ => self,
        }
    }
}

fn copy_phase(p: &Phase) -> (r: Phase)
    ensures
        r@ == p@,
{
    match p {
        Phase::Loading => Phase::Loading,
        Phase::Ready => Phase::Ready,
        Phase::Respawning { attempts } => Phase::Respawning { attempts: *attempts },
        Phase::Error(e) => Phase::Error(e.clone()),
    }
}

/// The phase after an event. The text of an error is left to the caller.
pub fn next_phase(phase: &Phase, event: &Event) -> (r: Phase)
    ensures
        r@ == phase@.after(*event),
{
    match (phase, event) {
        (_, Event::Spawned) => Phase::Ready,
        (Phase::Loading, Event::Exited) => Phase::Respawning { attempts: 0 },
        (Phase::Ready, Event::Exited) => Phase::Respawning { attempts: 0 },
        (Phase::Respawning { attempts }, Event::Exited) => bump_or_error(*attempts),
        (Phase::Respawning { attempts }, Event::RespawnFail) => bump_or_error(*attempts),
        (Phase::Error(_), Event::Restart) => Phase::Respawning { attempts: 0 },
        _ => copy_phase(phase),
    }
}

fn bump_or_error(attempts: u32) -> (r: Phase)
    ensures
        r@ == after_failure(attempts as int),
{
    if attempts >= MAX_RESPAWN_ATTEMPTS - 1 {
        Phase::Error(String::new())
    } else {
        Phase::Respawning { attempts: attempts + 1 }
    }
}

// ── The supervisor ─────────────────────────────────────

/// What the user interface is told.
#[derive(Debug, Clone)]
pub enum Notice {
    /// The process runs.
    Ready,
    /// It does not, and why.
    Error(String),
}

/// What a [`Notice`] holds.
pub enum Told {
    Ready,
    Error(Seq<char>),
}

impl View for Notice {
    type V = Told;

    open spec fn view(&self) -> Told {
        match *self {
            Notice::Ready => Told::Ready,
            Notice::Error(e) => Told::Error(e@),
        }
    }
}

/// What to do next about starting the process.
pub enum SpawnStep {
    /// Start it: run the script, and keep its log in the directory.
    Spawn { script: String, save_dir: String },
    /// Tell the user interface.
    Tell(Notice),
    /// Nothing: there is no process to start.
    Leave,
}

/// What to do next when starting the process again has been tried.
pub enum RespawnStep {
    /// Try once more.
    Again,
    /// Tell the user interface, and be done.
    Tell(Notice),
}

/// What a supervisor holds.
#[verifier::ext_equal]
#[verifier::reject_recursive_types(B)]
pub struct Supervision<B> {
    pub phase: Standing,
    pub bridge: Option<B>,
    pub script: Option<Seq<char>>,
    pub save_dir: Seq<char>,
}

impl<B> Supervision<B> {
    /// There is a process exactly where one runs, and attempts are counted below their limit.
    pub open spec fn wf(self) -> bool {
        &&& self.phase is Ready <==> self.bridge is Some
        &&& self.phase matches Standing::Respawning(n) ==> 0 <= n < MAX_RESPAWN_ATTEMPTS
    }

    /// With another phase, and without a process.
    pub open spec fn without_bridge(self, phase: Standing) -> Supervision<B> {
        Supervision { phase, bridge: None, script: self.script, save_dir: self.save_dir }
    }

    /// With a process that runs.
    pub open spec fn with_bridge(self, bridge: B) -> Supervision<B> {
        Supervision {
            phase: Standing::Ready,
            bridge: Some(bridge),
            script: self.script,
            save_dir: self.save_dir,
        }
    }

    /// After the process was started for the first time.
    pub open spec fn started(self, spawned: Result<B, String>) -> Supervision<B> {
        match spawned {
            Ok(b) => self.with_bridge(b),
            Err(e) => self.without_bridge(Standing::Error(load_failed(e@))),
        }
    }
}

/// Looks after a process of type `B`.
#[verifier::reject_recursive_types(B)]
pub struct AsrSupervisor<B> {
    phase: Phase,
    bridge: Option<B>,
    script: Option<String>,
    save_dir: String,
}

impl<B> View for AsrSupervisor<B> {
    type V = Supervision<B>;

    closed spec fn view(&self) -> Supervision<B> {
        Supervision {
            phase: self.phase@,
            bridge: self.bridge,
            script: text::opt(self.script),
            save_dir: self.save_dir@,
        }
    }
}

/// The error where there is no script to run.
pub open spec fn no_script() -> Seq<char> {
    "asr_server.py 未找到"@
}

/// The error where starting the process for the first time has failed.
pub open spec fn load_failed(e: Seq<char>) -> Seq<char> {
    "ASR 加载失败: "@ + e
}

/// The error where starting the process again has failed too often.
pub open spec fn respawn_failed() -> Seq<char> {
    "ASR 重启失败: ASR 多次重启失败（已达上限 "@ + text::decimal(MAX_RESPAWN_ATTEMPTS as nat)
        + " 次）"@
}

impl<B> AsrSupervisor<B> {
    /// A supervisor before the process is started.
    pub fn new(script: Option<String>, save_dir: String) -> (r: Self)
        ensures
            r@ == (Supervision::<B> {
                phase: Standing::Loading,
                bridge: None,
                script: text::opt(script),
                save_dir: save_dir@,
            }),
            r@.wf(),
    {
        AsrSupervisor { phase: Phase::Loading, bridge: None, script, save_dir }
    }

    /// How it stands with the process.
    pub fn phase(&self) -> (r: Phase)
        ensures
            r@ == self@.phase,
    {
        copy_phase(&self.phase)
    }

    /// The process, where it runs.
    pub fn ready_bridge(&self) -> (r: Option<&B>)
        requires
            self@.wf(),
        ensures
            match r {
                Some(b) => self@.phase is Ready && self@.bridge == Some(*b),
                None => !(self@.phase is Ready),
            },
    {
        match &self.phase {
            Phase::Ready => self.bridge.as_ref(),
            _ => None,
        }
    }

    fn set_error(&mut self, msg: String) -> (r: Notice)
        ensures
            final(self)@ == old(self)@.without_bridge(Standing::Error(msg@)),
            r@ == Told::Error(msg@),
    {
        self.phase = Phase::Error(msg.clone());
        self.bridge = None;
        Notice::Error(msg)
    }

    /// What to do to start the process for the first time. Where there is no script, that is an
    /// error.
    pub fn begin_initial(&mut self) -> (r: SpawnStep)
        ensures
            match old(self)@.script {
                Some(s) => final(self)@ == old(self)@ && (r matches SpawnStep::Spawn {
                    script,
                    save_dir,
                } && script@ == s && save_dir@ == old(self)@.save_dir),
                None => final(self)@ == old(self)@.without_bridge(Standing::Error(no_script())) && (
                r matches SpawnStep::Tell(n) && n@ == Told::Error(no_script())),
            },
    {
        match &self.script {
            Some(s) => SpawnStep::Spawn { script: s.clone(), save_dir: self.save_dir.clone() },
            None => SpawnStep::Tell(self.set_error("asr_server.py 未找到".to_string())),
        }
    }

    /// Notes what came of starting the process for the first time.
    pub fn end_initial(&mut self, spawned: Result<B, String>) -> (r: Notice)
        ensures
            final(self)@ == old(self)@.started(spawned),
            r@ == (match spawned {
                Ok(_) => Told::Ready,
                Err(e) => Told::Error(load_failed(e@)),
            }),
    {
        match spawned {
            Ok(b) => {
                self.phase = Phase::Ready;
                self.bridge = Some(b);
                Notice::Ready
            },
            Err(e) => {
                let mut m = "ASR 加载失败: ".to_string();
                m.append(e.as_str());
                self.set_error(m)
            },
        }
    }

    /// Takes out a process that was found dead, and goes on to start it again. `alive` says whether
    /// the process that runs is alive.
    pub fn take_dead_bridge(&mut self, alive: bool) -> (r: Option<B>)
        requires
            old(self)@.wf(),
        ensures
            final(self)@.wf(),
            old(self)@.phase is Ready && !alive ==> r == old(self)@.bridge && r is Some && final(
                self)@ == old(self)@.without_bridge(old(self)@.phase.after(Event::Exited)),
            !(old(self)@.phase is Ready && !alive) ==> r is None && final(self)@ == old(self)@,
    {
        match &self.phase {
            Phase::Ready => {
                if alive {
                    None
                } else {
                    self.phase = Phase::Respawning { attempts: 0 };
                    self.bridge.take()
                }
            },
            _ => None,
        }
    }

    /// Goes on to start the process again where the user asks for it, and says whether there is
    /// anything to start: only where it does not run and is not being started.
    pub fn try_restart_cas(&mut self) -> (r: bool)
        requires
            old(self)@.wf(),
        ensures
            final(self)@.wf(),
            r <==> old(self)@.phase is Error,
            r ==> final(self)@ == old(self)@.without_bridge(old(self)@.phase.after(Event::Restart)),
            !r ==> final(self)@ == old(self)@,
    {
        match &self.phase {
            Phase::Error(_) => {
                self.phase = Phase::Respawning { attempts: 0 };
                true
            },
            _ => false,
        }
    }

    /// What to do to start the process again.
    pub fn begin_respawn(&mut self) -> (r: SpawnStep)
        ensures
            match old(self)@.script {
                Some(s) => final(self)@ == old(self)@ && (if old(self)@.phase is Respawning {
                    r matches SpawnStep::Spawn { script, save_dir } && script@ == s && save_dir@
                        == old(self)@.save_dir
                } else {
                    r is Leave
                }),
                None => final(self)@ == old(self)@.without_bridge(Standing::Error(no_script())) && (
                r matches SpawnStep::Tell(n) && n@ == Told::Error(no_script())),
            },
    {
        match (&self.script, &self.phase) {
            (Some(s), Phase::Respawning { .. }) => SpawnStep::Spawn {
                script: s.clone(),
                save_dir: self.save_dir.clone(),
            },
            (Some(_), _) => SpawnStep::Leave,
            (None, _) => SpawnStep::Tell(self.set_error("asr_server.py 未找到".to_string())),
        }
    }

    /// Notes what came of starting the process again, where `attempts` had failed before.
    pub fn end_respawn(&mut self, attempts: u32, spawned: Result<B, String>) -> (r: RespawnStep)
        requires
            old(self)@.wf(),
        ensures
            final(self)@.wf(),
            match spawned {
                Ok(b) => final(self)@ == old(self)@.with_bridge(b) && (r matches RespawnStep::Tell(n)
                    && n@ == Told::Ready),
                Err(_) => if after_failure(attempts as int) is Error {
                    final(self)@ == old(self)@.without_bridge(Standing::Error(respawn_failed())) && (
                    r matches RespawnStep::Tell(n) && n@ == Told::Error(respawn_failed()))
                } else {
                    r is Again && final(self)@ == (if old(self)@.phase is Respawning {
                        old(self)@.without_bridge(after_failure(attempts as int))
                    } else {
                        old(self)@
                    })
                },
            },
    {
        match spawned {
            Ok(b) => {
                self.phase = Phase::Ready;
                self.bridge = Some(b);
                RespawnStep::Tell(Notice::Ready)
            },
            Err(_) => {
                let next = next_phase(&Phase::Respawning { attempts }, &Event::RespawnFail);
                match next {
                    Phase::Respawning { attempts: n } => {
                        if let Phase::Respawning { .. } = &self.phase {
                            self.phase = Phase::Respawning { attempts: n };
                        }
                        RespawnStep::Again
                    },
                    _ => {
                        let mut m = "ASR 重启失败: ASR 多次重启失败（已达上限 ".to_string();
                        append_decimal(&mut m, MAX_RESPAWN_ATTEMPTS as u64);
                        m.append(" 次）");
                        RespawnStep::Tell(self.set_error(m))
                    },
                }
            },
        }
    }
}

// ── Starting the process, from beginning to end ────────

/// A start of the process: the script, the directory of its log, and what came of it.
#[verifier::reject_recursive_types(B)]
pub struct Start<B> {
    pub script: Seq<char>,
    pub save_dir: Seq<char>,
    pub outcome: Result<B, String>,
}

/// Starts processes.
pub trait Spawner<B> {
    /// The starts there have been, in order. An implementation says what they are. One that leaves
    /// this as it is has one and the same history at all times; it cannot meet the contract of
    /// `spawn`, and the contracts that speak of starts say nothing of it.
    open spec fn starts(&self) -> Seq<Start<B>> {
        arbitrary()
    }

    /// Runs the script, with its log in the directory, and waits until the process is ready.
    fn spawn(&mut self, script: &str, save_dir: &str) -> (r: Result<B, String>)
        ensures
            final(self).starts() == old(self).starts().push(
                Start { script: script@, save_dir: save_dir@, outcome: r },
            ),
    ;
}

/// Tells the user interface.
pub trait Emitter {
    /// What it has been told.
    spec fn told(&self) -> Seq<Told>;

    /// Tells it that the process runs.
    fn emit_ready(&mut self)
        ensures
            final(self).told() == old(self).told().push(Told::Ready),
    ;

    /// Tells it what went wrong.
    fn emit_error(&mut self, msg: &str)
        ensures
            final(self).told() == old(self).told().push(Told::Error(msg@)),
    ;
}

/// Keeps what it is told.
pub struct NoticeLog {
    pub notices: Vec<Notice>,
}

impl NoticeLog {
    /// A log of nothing.
    pub fn new() -> (r: Self)
        ensures
            r.told() == Seq::<Told>::empty(),
    {
        let r = NoticeLog { notices: Vec::new() };
        assert(r.told() =~= Seq::empty());
        r
    }
}

impl Emitter for NoticeLog {
    open spec fn told(&self) -> Seq<Told> {
        Seq::new(self.notices@.len(), |i: int| self.notices@[i]@)
    }

    fn emit_ready(&mut self) {
        self.notices.push(Notice::Ready);
        assert(self.told() =~= old(self).told().push(Told::Ready));
    }

    fn emit_error(&mut self, msg: &str) {
        self.notices.push(Notice::Error(msg.to_string()));
        assert(self.told() =~= old(self).told().push(Told::Error(msg@)));
    }
}

/// What the user interface is told about a phase that starting the process has come to.
pub open spec fn told_of(phase: Standing) -> Told {
    match phase {
        Standing::Error(e) => Told::Error(e),
        _ => Told::Ready,
    }
}

/// Whether the starts all run the script of a supervisor with its log in its directory, and all but
/// the last of them went wrong.
pub open spec fn are_tries<B>(s: Supervision<B>, tries: Seq<Start<B>>) -> bool {
    &&& forall|i: int|
        0 <= i < tries.len() ==> Some((#[trigger] tries[i]).script) == s.script && tries[i].save_dir
            == s.save_dir
    &&& forall|i: int| 0 <= i < tries.len() - 1 ==> (#[trigger] tries[i]).outcome is Err
}

/// Whether starting the process again, with the starts `tries`, comes from `before` to `after`. It is
/// started until a start goes well, and no more often than is left of the attempts; the process runs
/// where the last start went well, and there is an error where it did not and none was left. Where it
/// was not under way, nothing is started and nothing changes.
pub open spec fn respawned<B>(
    before: Supervision<B>,
    tries: Seq<Start<B>>,
    after: Supervision<B>,
) -> bool {
    match before.script {
        Some(_) => match before.phase {
            Standing::Respawning(n) => {
                &&& are_tries(before, tries)
                &&& 0 < tries.len() <= MAX_RESPAWN_ATTEMPTS - n
                &&& match tries.last().outcome {
                    Ok(b) => after == before.with_bridge(b),
                    Err(_) => tries.len() == MAX_RESPAWN_ATTEMPTS - n && after
                        == before.without_bridge(Standing::Error(respawn_failed())),
                }
            },
            _ => tries.len() == 0 && after == before,
        },
        None => tries.len() == 0 && after == before.without_bridge(Standing::Error(no_script())),
    }
}

fn tell<E: Emitter>(notice: &Notice, emitter: &mut E)
    ensures
        final(emitter).told() == old(emitter).told().push(notice@),
{
    match notice {
        Notice::Ready => emitter.emit_ready(),
        Notice::Error(e) => emitter.emit_error(e.as_str()),
    }
}

impl<B> AsrSupervisor<B> {
    /// Starts the process for the first time: it runs afterwards, or there is an error, and the user
    /// interface is told which.
    pub fn spawn_initial<S: Spawner<B>, E: Emitter>(&mut self, spawner: &mut S, emitter: &mut E)
        requires
            old(self)@.wf(),
        ensures
            final(self)@.wf(),
            match old(self)@.script {
                Some(script) => exists|r: Result<B, String>|
                    final(self)@ == #[trigger] old(self)@.started(r) && final(spawner).starts()
                        == old(spawner).starts().push(
                        Start { script, save_dir: old(self)@.save_dir, outcome: r },
                    ),
                None => final(self)@ == old(self)@.without_bridge(Standing::Error(no_script()))
                    && final(spawner).starts() == old(spawner).starts(),
            },
            final(emitter).told() == old(emitter).told().push(told_of(final(self)@.phase)),
    {
        match self.begin_initial() {
            SpawnStep::Spawn { script, save_dir } => {
                let spawned = spawner.spawn(script.as_str(), save_dir.as_str());
                let notice = self.end_initial(spawned);
                tell(&notice, emitter);
            },
            SpawnStep::Tell(notice) => tell(&notice, emitter),
            SpawnStep::Leave => {},
        }
    }

    /// Starts the process again, where that is under way: it runs afterwards, or there is an error
    /// once starting it has failed too often, and the user interface is told which.
    pub fn respawn_loop<S: Spawner<B>, E: Emitter>(&mut self, spawner: &mut S, emitter: &mut E)
        requires
            old(self)@.wf(),
        ensures
            final(self)@.wf(),
            exists|tries: Seq<Start<B>>|
                final(spawner).starts() == old(spawner).starts() + tries && #[trigger] respawned(
                    old(self)@,
                    tries,
                    final(self)@,
                ),
            final(emitter).told() == (if old(self)@.script is None
                || old(self)@.phase is Respawning {
                old(emitter).told().push(told_of(final(self)@.phase))
            } else {
                old(emitter).told()
            }),
    {
        let ghost start = self@;
        let ghost mut tries: Seq<Start<B>> = Seq::empty();
        assert(old(spawner).starts() + tries =~= spawner.starts());
        assert(start.without_bridge(start.phase) == start || start.phase is Ready);
        loop
            invariant_except_break
                self@.wf(),
                spawner.starts() == old(spawner).starts() + tries,
                are_tries(start, tries),
                forall|i: int| 0 <= i < tries.len() ==> (#[trigger] tries[i]).outcome is Err,
                start == self@ && tries.len() == 0 || (start.script is Some && (start.phase matches
                    Standing::Respawning(n) && self@ == start.without_bridge(
                    Standing::Respawning(n + tries.len()),
                ))),
                emitter.told() == old(emitter).told(),
            invariant
                start == old(self)@,
                start.wf(),
            ensures
                self@.wf(),
                spawner.starts() == old(spawner).starts() + tries,
                respawned(start, tries, self@),
                emitter.told() == (if start.script is None || start.phase is Respawning {
                    old(emitter).told().push(told_of(self@.phase))
                } else {
                    old(emitter).told()
                }),
            decreases
                    match self@.phase {
                        Standing::Respawning(n) => MAX_RESPAWN_ATTEMPTS - n,
                        _ => 0,
                    },
        {
            let attempts: u32 = match &self.phase {
                Phase::Respawning { attempts } => *attempts,
                _ => 0,
            };
            match self.begin_respawn() {
                SpawnStep::Spawn { script, save_dir } => {
                    let ghost before = tries;
                    let spawned = spawner.spawn(script.as_str(), save_dir.as_str());
                    proof {
                        let last = Start { script: script@, save_dir: save_dir@, outcome: spawned };
                        tries = before.push(last);
                        assert(spawner.starts() =~= old(spawner).starts() + tries);
                        assert forall|i: int| 0 <= i < tries.len() implies Some(
                            (#[trigger] tries[i]).script,
                        ) == start.script && tries[i].save_dir == start.save_dir by {
                            if i < before.len() {
                                assert(tries[i] == before[i]);
                            }
                        }
                        assert forall|i: int| 0 <= i < tries.len() - 1 implies (
                        #[trigger] tries[i]).outcome is Err by {
                            assert(tries[i] == before[i]);
                        }
                    }
                    match self.end_respawn(attempts, spawned) {
                        RespawnStep::Again => {},
                        RespawnStep::Tell(notice) => {
                            tell(&notice, emitter);
                            break;
                        },
                    }
                },
                SpawnStep::Tell(notice) => {
                    tell(&notice, emitter);
                    break;
                },
                SpawnStep::Leave => {
                    break;
                },
            }
        }
    }

    /// A supervisor for the same script that stands where this one does, while no process runs: it
    /// can be worked with at leisure, and taken over with [`AsrSupervisor::adopt`].
    pub fn apart(&self) -> (r: Option<Self>)
        requires
            self@.wf(),
        ensures
            r is Some <==> !(self@.phase is Ready),
            r is Some ==> r->Some_0@ == self@,
    {
        match &self.phase {
            Phase::Ready => None,
            _ => {
                let script = match &self.script {
                    Some(s) => Some(s.clone()),
                    None => None,
                };
                Some(
                    AsrSupervisor {
                        phase: copy_phase(&self.phase),
                        bridge: None,
                        script,
                        save_dir: self.save_dir.clone(),
                    },
                )
            },
        }
    }

    /// Takes over how it stands with another supervisor, and its process.
    pub fn adopt(&mut self, other: Self)
        requires
            other@.wf(),
        ensures
            final(self)@.wf(),
            final(self)@ == (Supervision {
                phase: other@.phase,
                bridge: other@.bridge,
                ..old(self)@
            }),
    {
        self.phase = other.phase;
        self.bridge = other.bridge;
    }
}

// ── Laws ───────────────────────────────────────────────

/// The phase after all the events.
pub open spec fn after_all(phase: Standing, events: Seq<Event>) -> Standing
    decreases events.len(),
{
    if events.len() == 0 {
        phase
    } else {
        after_all(phase, events.drop_last()).after(events.last())
    }
}

/// Attempts are always counted below their limit, whatever happens.
pub proof fn attempts_stay_below_the_limit(events: Seq<Event>)
    ensures
        after_all(Standing::Loading, events) matches Standing::Respawning(n) ==> 0 <= n
            < MAX_RESPAWN_ATTEMPTS,
    decreases events.len(),
{
    if events.len() > 0 {
        attempts_stay_below_the_limit(events.drop_last());
    }
}

/// A process that dies is started again at most twice in a row without success.
pub proof fn two_failures_are_an_error(phase: Standing)
    requires
        phase is Loading || phase is Ready,
    ensures
        ({
            let dead = phase.after(Event::Exited);
            let once = dead.after(Event::RespawnFail);
            dead == Standing::Respawning(0) && once == Standing::Respawning(1) && once.after(
                Event::RespawnFail,
            ) is Error
        }),
{
}

/// A process that was started runs, whatever was before.
pub proof fn success_ends_every_phase(phase: Standing)
    ensures
        phase.after(Event::Spawned) is Ready,
{
}

/// An error lasts until the process is started or the user asks for it, and the user can always ask.
pub proof fn errors_last_until_a_restart(e: Seq<char>, event: Event)
    ensures
        event == Event::Exited || event == Event::RespawnFail ==> Standing::Error(e).after(event)
            == Standing::Error(e),
        Standing::Error(e).after(Event::Restart) == Standing::Respawning(0),
{
}

/// Asking for a process that runs, or is being started, changes nothing.
pub proof fn restart_is_for_errors_only(phase: Standing)
    requires
        !(phase is Error),
    ensures
        phase.after(Event::Restart) == phase,
{
}

/// Which phase comes after an event: a start makes it ready, whatever was before; the end of a process
/// that runs or is being started for the first time has it started again; a failure while it is being
/// started again counts, and the second one is an error; and an error lasts until the user asks. In
/// any other case nothing changes.
pub proof fn which_phase_follows(phase: &Phase, event: &Event, r: Phase)
    requires
        call_ensures(next_phase, (phase, event), r),
    ensures
        *event is Spawned ==> r is Ready,
        *event is Exited && (*phase is Loading || *phase is Ready) ==> r@ == Standing::Respawning(0),
        *event is RespawnFail && (*phase is Loading || *phase is Ready) ==> r@ == phase@,
        *event is Restart && !(*phase is Error) ==> r@ == phase@,
        *event is Restart && *phase is Error ==> r@ == Standing::Respawning(0),
        *phase is Error && (*event is Exited || *event is RespawnFail) ==> r@ == phase@,
        phase@ == Standing::Respawning(0) && (*event is Exited || *event is RespawnFail) ==> r@
            == Standing::Respawning(1),
        phase@ == Standing::Respawning(1) && (*event is Exited || *event is RespawnFail) ==> r
            is Error,
{
}

/// Starting the process for the first time runs the script with its log in the directory; where there
/// is none, nothing is started, there is an error, and the user interface is told.
pub proof fn the_first_start<B>(s: &mut AsrSupervisor<B>, r: SpawnStep)
    requires
        call_ensures(AsrSupervisor::<B>::begin_initial, (s,), r),
    ensures
        match old(s)@.script {
            Some(script) => (r matches SpawnStep::Spawn { script: a, save_dir: b } && a@ == script
                && b@ == old(s)@.save_dir) && final(s)@ == old(s)@,
            None => (r matches SpawnStep::Tell(Notice::Error(m)) && final(s)@.phase
                == Standing::Error(m@)) && final(s)@.bridge is None,
        },
        final(s)@.script == old(s)@.script && final(s)@.save_dir == old(s)@.save_dir,
{
}

/// What came of the first start is how it stands with the process from then on: it runs where the
/// start went well, and there is an error that ends with what went wrong where it did not. The user
/// interface is told the same.
pub proof fn the_first_start_is_noted<B>(
    s: &mut AsrSupervisor<B>,
    spawned: Result<B, String>,
    r: Notice,
)
    requires
        call_ensures(AsrSupervisor::<B>::end_initial, (s, spawned), r),
    ensures
        match spawned {
            Ok(b) => final(s)@.phase is Ready && final(s)@.bridge == Some(b) && r is Ready,
            Err(e) => final(s)@.bridge is None && (r matches Notice::Error(m) && final(s)@.phase
                == Standing::Error(m@) && e@.is_suffix_of(m@)),
        },
        final(s)@.script == old(s)@.script && final(s)@.save_dir == old(s)@.save_dir,
{
    if let Err(e) = spawned {
        let label = "ASR 加载失败: "@;
        assert((label + e@).subrange(label.len() as int, (label + e@).len() as int) =~= e@);
    }
}

/// A process that runs is taken out exactly where it is dead, and is then started again.
pub proof fn dead_processes_are_taken_out<B>(s: &mut AsrSupervisor<B>, alive: bool, r: Option<B>)
    requires
        old(s)@.wf(),
        call_ensures(AsrSupervisor::<B>::take_dead_bridge, (s, alive), r),
    ensures
        r is Some <==> old(s)@.phase is Ready && !alive,
        r is Some ==> r == old(s)@.bridge && final(s)@.phase == Standing::Respawning(0) && final(
            s)@.bridge is None,
        r is None ==> final(s)@ == old(s)@,
        final(s)@.script == old(s)@.script && final(s)@.save_dir == old(s)@.save_dir,
{
}

/// The user can have the process started again exactly where there is an error.
pub proof fn errors_can_be_restarted<B>(s: &mut AsrSupervisor<B>, r: bool)
    requires
        old(s)@.wf(),
        call_ensures(AsrSupervisor::<B>::try_restart_cas, (s,), r),
    ensures
        r <==> old(s)@.phase is Error,
        r ==> final(s)@.phase == Standing::Respawning(0) && final(s)@.bridge is None,
        !r ==> final(s)@ == old(s)@,
        final(s)@.script == old(s)@.script && final(s)@.save_dir == old(s)@.save_dir,
{
}

/// What came of starting the process again: it runs where that went well; after the first failure it
/// is tried once more, and after the second one there is an error. The user interface is told but for
/// another try.
pub proof fn a_second_failure_is_the_last<B>(
    s: &mut AsrSupervisor<B>,
    attempts: u32,
    spawned: Result<B, String>,
    r: RespawnStep,
)
    requires
        old(s)@.wf(),
        old(s)@.phase == Standing::Respawning(attempts as int),
        call_ensures(AsrSupervisor::<B>::end_respawn, (s, attempts, spawned), r),
    ensures
        match spawned {
            Ok(b) => final(s)@.phase is Ready && final(s)@.bridge == Some(b) && r == (
            RespawnStep::Tell(Notice::Ready)),
            Err(_) => if attempts == 0 {
                final(s)@.phase == Standing::Respawning(1) && r is Again
            } else {
                r matches RespawnStep::Tell(Notice::Error(m)) && final(s)@.phase
                    == Standing::Error(m@)
            },
        },
        spawned is Err ==> final(s)@.bridge is None,
        final(s)@.script == old(s)@.script && final(s)@.save_dir == old(s)@.save_dir,
{
}

/// A process is handed out exactly where one runs.
pub proof fn only_a_running_process_is_handed_out<B>(s: &AsrSupervisor<B>, r: Option<&B>)
    requires
        s@.wf(),
        call_ensures(AsrSupervisor::<B>::ready_bridge, (s,), r),
    ensures
        r is Some <==> s@.phase is Ready,
        r matches Some(b) ==> s@.bridge == Some(*b),
{
}

/// Starting the process again has it run or in error, never anything between; and it is tried at most
/// twice.
pub proof fn respawning_comes_to_an_end<B>(
    before: Supervision<B>,
    tries: Seq<Start<B>>,
    after: Supervision<B>,
)
    requires
        before.wf(),
        respawned(before, tries, after),
    ensures
        tries.len() <= 2,
        before.phase is Respawning ==> after.phase is Ready || after.phase is Error,
        before.phase is Respawning && before.script is Some ==> tries.len() > 0 && (
        after.phase is Ready <==> tries.last().outcome is Ok),
        before.phase is Respawning && before.script is Some && after.phase is Error ==> forall|i: int|
            0 <= i < tries.len() ==> (#[trigger] tries[i]).outcome is Err,
        !(before.phase is Respawning) ==> tries.len() == 0,
        after.phase is Ready && before.phase is Respawning ==> after.bridge is Some,
{
    if before.phase is Respawning && before.script is Some && after.phase is Error {
        assert forall|i: int| 0 <= i < tries.len() implies (#[trigger] tries[i]).outcome is Err by {
            if i == tries.len() - 1 {
                assert(tries[i] == tries.last());
            }
        }
    }
}

/// Every start runs the script of the supervisor with its log in the directory of the supervisor.
pub proof fn every_start_runs_the_script<B>(
    before: Supervision<B>,
    tries: Seq<Start<B>>,
    after: Supervision<B>,
    i: int,
)
    requires
        respawned(before, tries, after),
        0 <= i < tries.len(),
    ensures
        before.script == Some(tries[i].script),
        tries[i].save_dir == before.save_dir,
        after.script == before.script && after.save_dir == before.save_dir,
{
}

/// What a try to start the process again does: where that is under way it runs the script, where it is
/// not it does nothing, and where there is no script it is an error.
pub proof fn what_a_respawn_begins_with<B>(s: &mut AsrSupervisor<B>, r: SpawnStep)
    requires
        call_ensures(AsrSupervisor::<B>::begin_respawn, (s,), r),
    ensures
        old(s)@.script is None ==> r is Tell && final(s)@.phase is Error && final(s)@.bridge is None,
        old(s)@.script is Some ==> final(s)@ == old(s)@ && (r is Spawn <==> old(s)@.phase
            is Respawning) && (r is Leave <==> !(old(s)@.phase is Respawning)),
        r matches SpawnStep::Spawn { script, save_dir } ==> old(s)@.script == Some(script@)
            && save_dir@ == old(s)@.save_dir,
{
}

/// Starting the process for the first time starts it once where there is a script, and never where
/// there is none; it runs afterwards exactly where that went well, and the user interface is told once
/// how it stands.
pub proof fn the_process_is_started_once<B, S: Spawner<B>, E: Emitter>(
    s: &mut AsrSupervisor<B>,
    spawner: &mut S,
    emitter: &mut E,
)
    requires
        old(s)@.wf(),
        call_ensures(AsrSupervisor::<B>::spawn_initial::<S, E>, (s, spawner, emitter), ()),
    ensures
        old(s)@.script is None ==> final(spawner).starts() == old(spawner).starts() && final(
            s)@.phase is Error,
        old(s)@.script matches Some(script) ==> exists|last: Start<B>| #[trigger]
            old(spawner).starts().push(last) == final(spawner).starts() && last.script == script
                && last.save_dir == old(s)@.save_dir && (final(s)@.phase is Ready <==> last.outcome
                is Ok) && (final(s)@.phase is Error <==> last.outcome is Err),
        final(emitter).told().len() == old(emitter).told().len() + 1,
        final(emitter).told().last() is Ready <==> final(s)@.phase is Ready,
        final(s)@.phase matches Standing::Error(e) ==> final(emitter).told().last()
            == Told::Error(e),
{
    if let Some(script) = old(s)@.script {
        let r = choose|r: Result<B, String>|
            final(s)@ == #[trigger] old(s)@.started(r) && final(spawner).starts()
                == old(spawner).starts().push(
                Start { script, save_dir: old(s)@.save_dir, outcome: r },
            );
        let last = Start { script, save_dir: old(s)@.save_dir, outcome: r };
        assert(old(spawner).starts().push(last) == final(spawner).starts());
    }
}

/// Starting the process again comes to its end with the starts that it takes, and the user interface
/// is told once how it stands where anything was to be done, and nothing else.
pub proof fn the_process_is_started_again<B, S: Spawner<B>, E: Emitter>(
    s: &mut AsrSupervisor<B>,
    spawner: &mut S,
    emitter: &mut E,
)
    requires
        old(s)@.wf(),
        old(s)@.script is Some,
        call_ensures(AsrSupervisor::<B>::respawn_loop::<S, E>, (s, spawner, emitter), ()),
    ensures
        !(old(s)@.phase is Respawning) ==> final(s)@ == old(s)@ && final(emitter).told() == old(
            emitter).told() && final(spawner).starts() == old(spawner).starts(),
        old(s)@.phase is Respawning ==> (final(s)@.phase is Ready || final(s)@.phase is Error)
            && final(emitter).told().len() == old(emitter).told().len() + 1 && (final(
            emitter).told().last() is Ready <==> final(s)@.phase is Ready),
        old(s)@.phase is Respawning ==> old(spawner).starts().len() < final(
            spawner).starts().len() <= old(spawner).starts().len() + 2,
{
    let tries = choose|tries: Seq<Start<B>>|
        final(spawner).starts() == old(spawner).starts() + tries && #[trigger] respawned(
            old(s)@,
            tries,
            final(s)@,
        );
    respawning_comes_to_an_end(old(s)@, tries, final(s)@);
    if tries.len() == 0 {
        assert(old(spawner).starts() + tries =~= old(spawner).starts());
    }
}

/// A supervisor that was worked with apart is taken over with its phase and its process, and the script
/// stays; only one without a process can be worked with apart, and it stands as this one does.
pub proof fn working_apart<B>(
    s: &AsrSupervisor<B>,
    r: Option<AsrSupervisor<B>>,
    t: &mut AsrSupervisor<B>,
    other: AsrSupervisor<B>,
)
    requires
        s@.wf(),
        other@.wf(),
        call_ensures(AsrSupervisor::<B>::apart, (s,), r),
        call_ensures(AsrSupervisor::<B>::adopt, (t, other), ()),
    ensures
        r is None <==> s@.phase is Ready,
        r matches Some(a) ==> a@ == s@,
        final(t)@.phase == other@.phase && final(t)@.bridge == other@.bridge,
        final(t)@.script == old(t)@.script && final(t)@.save_dir == old(t)@.save_dir,
{
}

/// Two phases are the same where they are of one kind, with as many attempts and the same error.
pub proof fn which_phases_are_the_same(a: &Phase, b: &Phase, r: bool)
    requires
        call_ensures(<Phase as PartialEq>::eq, (a, b), r),
    ensures
        r <==> match (*a, *b) {
            (Phase::Loading, Phase::Loading) => true,
            (Phase::Ready, Phase::Ready) => true,
            (Phase::Respawning { attempts: x }, Phase::Respawning { attempts: y }) => x == y,
            (Phase::Error(x), Phase::Error(y)) => x@ == y@,
            _ => false,
        },
{
}

/// A supervisor begins with the process being started for the first time, with what it was made with.
pub proof fn supervisors_begin_with_loading<B>(
    script: Option<String>,
    save_dir: String,
    s: AsrSupervisor<B>,
    phase: Phase,
)
    requires
        call_ensures(AsrSupervisor::<B>::new, (script, save_dir), s),
        call_ensures(AsrSupervisor::<B>::phase, (&s,), phase),
    ensures
        phase is Loading,
        s@.bridge is None,
        s@.script == text::opt(script),
        s@.save_dir == save_dir@,
{
}

/// What is said where there is no script and where starting the process again has failed too often.
pub proof fn what_is_said_of_failures()
    ensures
        no_script() == "asr_server.py 未找到"@,
        respawn_failed() == "ASR 重启失败: ASR 多次重启失败（已达上限 "@ + seq!['2'] + " 次）"@,
        forall|e: Seq<char>| #[trigger] load_failed(e) == "ASR 加载失败: "@ + e,
{
    assert(text::decimal(2) =~= seq!['2']);
}

} // verus!
