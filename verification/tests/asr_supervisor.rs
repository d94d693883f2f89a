use voicedown::asr_supervisor::{
    next_phase, AsrSupervisor, Event, Notice, NoticeLog, Phase, RespawnStep, SpawnStep, Spawner,
    MAX_RESPAWN_ATTEMPTS,
};

#[derive(Debug, PartialEq)]
struct Bridge(u32);

#[derive(Default)]
struct FakeSpawner {
    starts: Vec<(String, String)>,
}

impl Spawner<Bridge> for FakeSpawner {
    fn spawn(&mut self, script: &str, save_dir: &str) -> Result<Bridge, String> {
        self.starts.push((script.to_string(), save_dir.to_string()));
        Err("fake spawn fail".into())
    }
}

struct WorkingSpawner;

impl Spawner<Bridge> for WorkingSpawner {
    fn spawn(&mut self, script: &str, save_dir: &str) -> Result<Bridge, String> {
        assert_eq!(script, "script");
        assert_eq!(save_dir, "dir");
        Ok(Bridge(7))
    }
}

fn fake() -> FakeSpawner {
    FakeSpawner::default()
}

fn make_sup() -> (AsrSupervisor<Bridge>, NoticeLog) {
    (AsrSupervisor::new(Some("script".into()), "dir".into()), NoticeLog::new())
}

fn errors(log: &NoticeLog) -> Vec<String> {
    let mut v = Vec::new();
    for n in &log.notices {
        if let Notice::Error(e) = n {
            v.push(e.clone());
        }
    }
    v
}

#[test]
fn loading_spawned_to_ready() {
    assert_eq!(next_phase(&Phase::Loading, &Event::Spawned), Phase::Ready);
}

#[test]
fn ready_spawned_stays_ready() {
    assert_eq!(next_phase(&Phase::Ready, &Event::Spawned), Phase::Ready);
}

#[test]
fn ready_exited_enters_respawn() {
    assert_eq!(next_phase(&Phase::Ready, &Event::Exited), Phase::Respawning { attempts: 0 });
}

#[test]
fn loading_exited_enters_respawn() {
    assert_eq!(next_phase(&Phase::Loading, &Event::Exited), Phase::Respawning { attempts: 0 });
}

#[test]
fn respawning_spawned_to_ready() {
    assert_eq!(next_phase(&Phase::Respawning { attempts: 1 }, &Event::Spawned), Phase::Ready);
}

#[test]
fn respawning_first_fail_retries() {
    assert_eq!(
        next_phase(&Phase::Respawning { attempts: 0 }, &Event::RespawnFail),
        Phase::Respawning { attempts: 1 }
    );
}

#[test]
fn respawning_second_fail_gives_up() {
    let r = next_phase(&Phase::Respawning { attempts: 1 }, &Event::RespawnFail);
    assert!(matches!(r, Phase::Error(_)), "{:?}", r);
}

#[test]
fn respawning_exit_counts_as_fail() {
    assert_eq!(
        next_phase(&Phase::Respawning { attempts: 0 }, &Event::Exited),
        Phase::Respawning { attempts: 1 }
    );
}

#[test]
fn error_restart_reenters_respawn() {
    assert_eq!(
        next_phase(&Phase::Error("e".into()), &Event::Restart),
        Phase::Respawning { attempts: 0 }
    );
}

#[test]
fn error_exited_stays_error() {
    let r = next_phase(&Phase::Error("e".into()), &Event::Exited);
    assert!(matches!(r, Phase::Error(_)), "{:?}", r);
}

#[test]
fn ready_restart_no_op() {
    assert_eq!(next_phase(&Phase::Ready, &Event::Restart), Phase::Ready);
}

#[test]
fn max_attempts_is_two_total_tries() {
    let s0 = Phase::Ready;
    let s1 = next_phase(&s0, &Event::Exited);
    assert_eq!(s1, Phase::Respawning { attempts: 0 });
    let s2 = next_phase(&s1, &Event::RespawnFail);
    assert_eq!(s2, Phase::Respawning { attempts: 1 });
    let s3 = next_phase(&s2, &Event::RespawnFail);
    assert!(matches!(s3, Phase::Error(_)), "{:?}", s3);
}

#[test]
fn spawn_initial_fail_sets_error_and_emits() {
    let (mut sup, mut log) = make_sup();
    sup.spawn_initial(&mut fake(), &mut log);
    match sup.phase() {
        Phase::Error(msg) => assert!(msg.contains("ASR 加载失败"), "msg={}", msg),
        other => panic!("{:?}", other),
    }
    let errs = errors(&log);
    assert_eq!(errs.len(), 1, "{:?}", errs);
    assert!(errs[0].contains("ASR 加载失败"), "{}", errs[0]);
}

#[test]
fn spawn_initial_no_script_sets_error() {
    let mut sup: AsrSupervisor<Bridge> = AsrSupervisor::new(None, "dir".into());
    let mut log = NoticeLog::new();
    sup.spawn_initial(&mut fake(), &mut log);
    match sup.phase() {
        Phase::Error(msg) => assert!(msg.contains("asr_server.py"), "msg={}", msg),
        other => panic!("{:?}", other),
    }
    assert_eq!(errors(&log).len(), 1);
}

#[test]
fn respawn_loop_gives_up_after_max() {
    let (mut sup, mut log) = make_sup();
    sup.spawn_initial(&mut fake(), &mut log);
    assert!(sup.try_restart_cas());
    assert_eq!(sup.phase(), Phase::Respawning { attempts: 0 });
    let mut spawner = fake();
    sup.respawn_loop(&mut spawner, &mut log);
    match sup.phase() {
        Phase::Error(msg) => assert!(msg.contains("已达上限"), "msg={}", msg),
        other => panic!("{:?}", other),
    }
    let errs = errors(&log);
    assert!(errs.iter().any(|e| e.contains("已达上限")), "{:?}", errs);
    let start = ("script".to_string(), "dir".to_string());
    assert_eq!(spawner.starts, vec![start.clone(), start]);
}

#[test]
fn a_supervisor_can_be_worked_with_apart() {
    let (mut sup, mut log) = make_sup();
    let mut other = sup.apart().unwrap();
    assert_eq!(other.phase(), Phase::Loading);
    other.spawn_initial(&mut WorkingSpawner, &mut log);
    assert_eq!(sup.phase(), Phase::Loading);
    sup.adopt(other);
    assert_eq!(sup.phase(), Phase::Ready);
    assert_eq!(sup.ready_bridge(), Some(&Bridge(7)));
    assert!(sup.apart().is_none());
    assert_eq!(sup.take_dead_bridge(false), Some(Bridge(7)));
    let mut other = sup.apart().unwrap();
    other.respawn_loop(&mut fake(), &mut log);
    sup.adopt(other);
    assert!(matches!(sup.phase(), Phase::Error(_)));
    assert!(sup.ready_bridge().is_none());
}

#[test]
fn restart_cas_only_from_error() {
    let (mut sup, mut log) = make_sup();
    assert!(!sup.try_restart_cas());
    assert_eq!(sup.phase(), Phase::Loading);
    sup.spawn_initial(&mut fake(), &mut log);
    assert!(sup.try_restart_cas());
    assert_eq!(sup.phase(), Phase::Respawning { attempts: 0 });
}

#[test]
fn ready_bridge_none_when_not_ready() {
    let (mut sup, mut log) = make_sup();
    assert!(sup.ready_bridge().is_none());
    sup.spawn_initial(&mut fake(), &mut log);
    assert!(sup.ready_bridge().is_none());
}

#[test]
fn initial_phase_is_loading() {
    let (sup, _) = make_sup();
    assert_eq!(sup.phase(), Phase::Loading);
}

#[test]
fn a_dead_process_is_started_again() {
    let (mut sup, mut log) = make_sup();
    sup.spawn_initial(&mut WorkingSpawner, &mut log);
    assert_eq!(sup.phase(), Phase::Ready);
    assert_eq!(sup.ready_bridge(), Some(&Bridge(7)));
    assert!(sup.take_dead_bridge(true).is_none());
    assert_eq!(sup.take_dead_bridge(false), Some(Bridge(7)));
    assert_eq!(sup.phase(), Phase::Respawning { attempts: 0 });
    assert!(sup.ready_bridge().is_none());
    assert!(sup.take_dead_bridge(false).is_none());
    sup.respawn_loop(&mut WorkingSpawner, &mut log);
    assert_eq!(sup.phase(), Phase::Ready);
    assert_eq!(log.notices.len(), 2);
    assert!(matches!(log.notices[1], Notice::Ready));
}

#[test]
fn the_last_error_names_the_limit() {
    let (mut sup, mut log) = make_sup();
    sup.spawn_initial(&mut fake(), &mut log);
    sup.try_restart_cas();
    sup.respawn_loop(&mut fake(), &mut log);
    assert_eq!(
        errors(&log),
        vec![
            "ASR 加载失败: fake spawn fail".to_string(),
            format!("ASR 重启失败: ASR 多次重启失败（已达上限 {} 次）", MAX_RESPAWN_ATTEMPTS),
        ]
    );
}

#[test]
fn the_steps_can_be_taken_one_by_one() {
    let (mut sup, _) = make_sup();
    match sup.begin_initial() {
        SpawnStep::Spawn { script, save_dir } => {
            assert_eq!(script, "script");
            assert_eq!(save_dir, "dir");
        }
        _ => panic!("there is a script"),
    }
    assert!(matches!(sup.end_initial(Err("e".into())), Notice::Error(_)));
    assert!(matches!(sup.begin_respawn(), SpawnStep::Leave));
    assert!(sup.try_restart_cas());
    assert!(matches!(sup.begin_respawn(), SpawnStep::Spawn { .. }));
    assert!(matches!(sup.end_respawn(0, Err("e".into())), RespawnStep::Again));
    assert_eq!(sup.phase(), Phase::Respawning { attempts: 1 });
    match sup.end_respawn(1, Err("e".into())) {
        RespawnStep::Tell(Notice::Error(m)) => assert!(m.contains("已达上限 2 次")),
        _ => panic!("too many attempts"),
    }
}

#[test]
fn without_a_script_nothing_is_started_again() {
    let mut sup: AsrSupervisor<Bridge> = AsrSupervisor::new(None, "dir".into());
    let mut log = NoticeLog::new();
    sup.respawn_loop(&mut WorkingSpawner, &mut log);
    assert_eq!(sup.phase(), Phase::Error("asr_server.py 未找到".into()));
    assert_eq!(errors(&log), vec!["asr_server.py 未找到".to_string()]);
}
