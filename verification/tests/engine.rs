use microsandbox::portal::call::{HostEvent, Instruction};
use microsandbox::portal::engine::{
    start_engines, Engine, EngineHandle, ProbeReport, SessionKey, SpawnPolicy, Ticket,
    STARTUP_TIMEOUT_MS,
};
use microsandbox::portal::error::{EngineStartupError, ExecutionError};
use microsandbox::portal::execution::{deadline, Execution, ProcessEvent, RunStatus};
use microsandbox::portal::language::Language;
use microsandbox::portal::output::{OutputLine, Stream};
use microsandbox::portal::payload::{respond, EvalResponse, ExecutionRequest};
use microsandbox::portal::registry::SessionRegistry;
use microsandbox::portal::sentinel::{cut_marker, epilogue, hex, payload, probe, Sentinel};
use microsandbox::portal::session::{retry_cleanup, Admission, Session, SessionState};

fn out(text: &str) -> OutputLine {
    OutputLine::new(Stream::Stdout, text.to_string())
}

fn err(text: &str) -> OutputLine {
    OutputLine::new(Stream::Stderr, text.to_string())
}

fn ready() -> Option<ProbeReport> {
    Some(ProbeReport { required: true, failure: None })
}

fn python_only() -> EngineHandle {
    start_engines(ready(), None).unwrap()
}

fn both() -> EngineHandle {
    start_engines(ready(), ready()).unwrap()
}

/// Runs one call as a host would, with the interpreter played by `script`:
/// the events that follow the payload, without the marker. Returns the result
/// and the generations that the call was told to spawn.
fn call(
    handle: &mut EngineHandle,
    code: &str,
    language: &str,
    session_id: &str,
    timeout: Option<u64>,
    script: Vec<ProcessEvent>,
) -> (Result<Vec<OutputLine>, ExecutionError>, Vec<u64>) {
    let request = ExecutionRequest {
        code: code.to_string(),
        language: language.to_string(),
        session_id: session_id.to_string(),
        timeout_seconds: timeout,
    };
    let mut spawned = Vec::new();
    let mut call = match handle.begin(&request, 0xfeed) {
        Ok(call) => call,
        Err(e) => return (Err(e), spawned),
    };
    let mut script = script.into_iter();
    let mut event = HostEvent::Ask;
    let mut token = String::new();
    loop {
        match handle.advance(&mut call, event, 0) {
            Instruction::Wait => panic!("the call is alone in its session"),
            Instruction::Spawn { generation } => {
                spawned.push(generation);
                event = HostEvent::Spawned(true);
            }
            Instruction::Write { payload } => {
                assert!(payload.starts_with(code));
                let at = payload.find("__MSB_END_").expect("the payload prints a token");
                token = payload[at..at + 45].to_string();
                let first = script.next().unwrap_or(ProcessEvent::Line(out(&token)));
                event = HostEvent::Process(first);
            }
            Instruction::Listen => {
                let next = script.next().unwrap_or(ProcessEvent::Line(out(&token)));
                event = HostEvent::Process(next);
            }
            Instruction::Return { result, kill } => {
                assert!(call.is_over());
                assert_eq!(kill, matches!(result, Err(ExecutionError::TimedOut(_))
                    | Err(ExecutionError::ExecutionFault(_))));
                return (result, spawned);
            }
        }
    }
}

#[test]
fn languages_are_named_by_tags() {
    assert_eq!(Language::from_tag("python"), Some(Language::Python));
    assert_eq!(Language::from_tag("nodejs"), Some(Language::Node));
    assert_eq!(Language::from_tag("node"), Some(Language::Node));
    assert_eq!(Language::from_tag("ruby"), None);
    assert_eq!(Language::from_tag("Python"), None);
    assert_eq!(Language::from_tag(""), None);
    assert_eq!(Language::Python.name(), "python");
    assert_eq!(Language::Node.name(), "nodejs");
    assert_eq!(Language::from_tag(Language::Python.name()), Some(Language::Python));
    assert_eq!(Language::from_tag(Language::Node.name()), Some(Language::Node));
    assert_eq!(Stream::Stdout.name(), "stdout");
    assert_eq!(Stream::Stderr.name(), "stderr");
}

#[test]
fn hexadecimal_rendering() {
    assert_eq!(hex(0, 16), "0000000000000000");
    assert_eq!(hex(255, 16), "00000000000000ff");
    assert_eq!(hex(u64::MAX, 16), "ffffffffffffffff");
    assert_eq!(hex(0x0123_4567_89ab_cdef, 16), "0123456789abcdef");
    assert_eq!(hex(0xabc, 2), "bc");
    assert_eq!(hex(7, 0), "");
    assert_eq!(hex(10, 1), "a");
}

#[test]
fn sentinel_token_has_its_shape() {
    assert_eq!(Sentinel::new(1, 255).token(), "__MSB_END_0000000000000001-00000000000000ff__");
    assert_eq!(
        Sentinel::new(u64::MAX, 0).token(),
        "__MSB_END_ffffffffffffffff-0000000000000000__"
    );
}

#[test]
fn tokens_of_different_sentinels_differ() {
    let pairs = vec![(0u64, 0u64), (0, 1), (1, 0), (1, 1), (16, 1), (1, 16), (u64::MAX, 1)];
    for (i, a) in pairs.iter().enumerate() {
        for (j, b) in pairs.iter().enumerate() {
            let same = Sentinel::new(a.0, a.1).token() == Sentinel::new(b.0, b.1).token();
            assert_eq!(same, i == j);
        }
    }
}

#[test]
fn marker_ends_a_line_of_standard_output() {
    let token = Sentinel::new(3, 9).token();
    assert_eq!(cut_marker(&out(&token), &token), Some("".to_string()));
    assert_eq!(cut_marker(&err(&token), &token), None);
    assert_eq!(cut_marker(&out(&format!("{} ", token)), &token), None);
    assert_eq!(cut_marker(&out(&format!("no break{}", token)), &token), Some("no break".to_string()));
    assert_eq!(
        cut_marker(&out(&format!("gr\u{fc}n \u{2713}{}", token)), &token),
        Some("gr\u{fc}n \u{2713}".to_string())
    );
    assert_eq!(cut_marker(&out(""), &token), None);
    assert_eq!(cut_marker(&out(&token[1..]), &token), None);
    let stale = Sentinel::new(2, 9).token();
    assert_eq!(cut_marker(&out(&stale), &token), None);
}

#[test]
fn payload_ends_with_the_statement_that_prints_the_token() {
    assert_eq!(epilogue(Language::Python, "T"), "print(\"T\", flush=True)");
    assert_eq!(epilogue(Language::Node, "T"), "console.log(\"T\")");
    assert_eq!(payload("x = 1", Language::Python, "T"), "x = 1\n\nprint(\"T\", flush=True)\n");
    assert_eq!(payload("let x = 1", Language::Node, "T"), "let x = 1\n\nconsole.log(\"T\")\n");
    assert_eq!(payload("", Language::Node, "T"), "\n\nconsole.log(\"T\")\n");
    assert_eq!(probe(Language::Python, "T"), "print(\"T\", flush=True)\n");
    assert_eq!(probe(Language::Node, "T"), "console.log(\"T\")\n");
}

#[test]
fn deadline_is_start_plus_timeout() {
    assert_eq!(deadline(1000, Some(2)), Some(3000));
    assert_eq!(deadline(0, Some(0)), Some(0));
    assert_eq!(deadline(5, None), None);
    assert_eq!(deadline(u64::MAX - 5, Some(1)), Some(u64::MAX));
    assert_eq!(deadline(u64::MAX - 1000, Some(1)), Some(u64::MAX));
    assert_eq!(deadline(u64::MAX - 1001, Some(1)), Some(u64::MAX - 1));
    assert_eq!(deadline(0, Some(u64::MAX)), Some(u64::MAX));
    assert_eq!(deadline(0, Some(u64::MAX / 1000)), Some(u64::MAX / 1000 * 1000));
}

#[test]
fn execution_completes_on_the_marker() {
    let mut e = Execution::begin("TOKEN".to_string(), 0, None);
    assert_eq!(e.observe(ProcessEvent::Line(out("a"))), None);
    assert_eq!(e.observe(ProcessEvent::Line(err("warning"))), None);
    assert_eq!(e.observe(ProcessEvent::Clock(u64::MAX)), None);
    assert_eq!(e.observe(ProcessEvent::Line(err("TOKEN"))), None);
    assert_eq!(e.observe(ProcessEvent::Line(out("TOKEN"))), Some(RunStatus::Completed));
    assert_eq!(e.status(), Some(RunStatus::Completed));
    assert_eq!(e.into_result(), Ok(vec![out("a"), err("warning"), err("TOKEN")]));
}

#[test]
fn text_without_line_break_is_kept_before_the_marker() {
    let mut e = Execution::begin("TOKEN".to_string(), 0, None);
    assert_eq!(e.observe(ProcessEvent::Line(out("a"))), None);
    assert_eq!(e.observe(ProcessEvent::Line(err("x TOKEN"))), None);
    assert_eq!(e.observe(ProcessEvent::Line(out("TOKEN and more"))), None);
    assert_eq!(e.observe(ProcessEvent::Line(out("no breakTOKEN"))), Some(RunStatus::Completed));
    assert_eq!(
        e.into_result(),
        Ok(vec![out("a"), err("x TOKEN"), out("TOKEN and more"), out("no break")])
    );
}

#[test]
fn ended_execution_ignores_events() {
    let mut e = Execution::begin("TOKEN".to_string(), 0, Some(1));
    assert_eq!(e.observe(ProcessEvent::Line(out("TOKEN"))), Some(RunStatus::Completed));
    assert_eq!(e.observe(ProcessEvent::Line(out("late"))), Some(RunStatus::Completed));
    assert_eq!(e.observe(ProcessEvent::Exited), Some(RunStatus::Completed));
    assert_eq!(e.observe(ProcessEvent::Clock(5000)), Some(RunStatus::Completed));
    e.cancel();
    assert_eq!(e.into_result(), Ok(vec![]));
}

#[test]
fn execution_faults_when_the_process_ends() {
    let mut e = Execution::begin("TOKEN".to_string(), 0, None);
    assert_eq!(e.observe(ProcessEvent::Line(err("Traceback"))), None);
    assert_eq!(e.observe(ProcessEvent::Exited), Some(RunStatus::Faulted));
    assert_eq!(e.into_result(), Err(ExecutionError::ExecutionFault(vec![err("Traceback")])));
}

#[test]
fn execution_times_out_at_the_deadline() {
    let mut e = Execution::begin("TOKEN".to_string(), 500, Some(2));
    assert_eq!(e.deadline(), Some(2500));
    assert_eq!(e.observe(ProcessEvent::Line(out("Iteration 1..."))), None);
    assert_eq!(e.observe(ProcessEvent::Clock(2499)), None);
    assert_eq!(e.observe(ProcessEvent::Clock(2500)), Some(RunStatus::TimedOut));
    assert_eq!(e.into_result(), Err(ExecutionError::TimedOut(vec![out("Iteration 1...")])));
}

#[test]
fn cancelled_execution_counts_as_timed_out() {
    let mut e = Execution::begin("TOKEN".to_string(), 0, None);
    assert_eq!(e.observe(ProcessEvent::Line(out("partial"))), None);
    e.cancel();
    assert_eq!(e.status(), Some(RunStatus::TimedOut));
    assert_eq!(e.into_result(), Err(ExecutionError::TimedOut(vec![out("partial")])));
}

#[test]
fn running_execution_has_no_result() {
    let e = Execution::begin("TOKEN".to_string(), 0, None);
    assert_eq!(
        e.into_result(),
        Err(ExecutionError::InternalError("execution has not ended".to_string()))
    );
}

#[test]
fn lines_keep_their_order() {
    let mut e = Execution::begin("TOKEN".to_string(), 0, None);
    let script = vec![out("a"), err("x"), out("b"), err("y"), out("c")];
    for l in script.iter() {
        assert_eq!(e.observe(ProcessEvent::Line(l.clone())), None);
    }
    e.observe(ProcessEvent::Line(out("TOKEN")));
    let lines = e.into_result().unwrap();
    assert_eq!(lines, script);
    let stdout: Vec<&str> =
        lines.iter().filter(|l| l.stream == Stream::Stdout).map(|l| l.text.as_str()).collect();
    let stderr: Vec<&str> =
        lines.iter().filter(|l| l.stream == Stream::Stderr).map(|l| l.text.as_str()).collect();
    assert_eq!(stdout, vec!["a", "b", "c"]);
    assert_eq!(stderr, vec!["x", "y"]);
}

#[test]
fn session_goes_through_its_states() {
    let mut s = Session::new("s1".to_string());
    assert_eq!(s.id(), "s1");
    assert_eq!(s.state(), SessionState::Starting);
    assert_eq!((s.executions(), s.generation(), s.serving(), s.pending()), (0, 1, 0, 0));
    assert_eq!(s.acquire(0), Admission::Closed);
    assert_eq!(s.enqueue(), Some(0));
    assert_eq!(s.acquire(0), Admission::Spawn { generation: 1 });
    assert_eq!(s.acquire(0), Admission::Spawn { generation: 1 });
    s.spawn_finished(true);
    assert_eq!(s.state(), SessionState::Idle);
    assert_eq!(s.acquire(0), Admission::Run { execution: 1, generation: 1 });
    assert_eq!(s.state(), SessionState::Executing);
    assert_eq!(s.acquire(0), Admission::Busy);
    assert_eq!(s.finish(RunStatus::Completed), false);
    assert_eq!(s.state(), SessionState::Idle);
    assert_eq!(s.serving(), 1);
    assert_eq!(s.acquire(0), Admission::Closed);
    assert_eq!(s.enqueue(), Some(1));
    assert_eq!(s.acquire(1), Admission::Run { execution: 2, generation: 1 });
    assert_eq!(s.finish(RunStatus::Faulted), true);
    assert_eq!(s.state(), SessionState::Faulted);
    assert_eq!(s.enqueue(), Some(2));
    assert_eq!(s.acquire(2), Admission::Spawn { generation: 2 });
    assert_eq!(s.state(), SessionState::Starting);
    s.spawn_finished(false);
    assert_eq!(s.state(), SessionState::Faulted);
    assert_eq!(s.acquire(2), Admission::Spawn { generation: 3 });
    s.spawn_finished(true);
    assert_eq!(s.acquire(2), Admission::Run { execution: 3, generation: 3 });
    assert_eq!(s.terminate(), true);
    assert_eq!(s.state(), SessionState::Terminated);
    assert_eq!(s.acquire(2), Admission::Closed);
    assert_eq!(s.enqueue(), None);
    assert_eq!(s.terminate(), false);
    assert_eq!((s.executions(), s.generation()), (3, 3));
}

#[test]
fn calls_of_one_session_are_served_in_their_order() {
    let mut s = Session::new("s".to_string());
    s.spawn_finished(true);
    assert_eq!(s.enqueue(), Some(0));
    assert_eq!(s.enqueue(), Some(1));
    assert_eq!(s.enqueue(), Some(2));
    assert_eq!(s.pending(), 3);
    // The idle interpreter goes to the first call, whoever asks first.
    assert_eq!(s.acquire(2), Admission::Busy);
    assert_eq!(s.acquire(1), Admission::Busy);
    assert_eq!(s.state(), SessionState::Idle);
    assert_eq!(s.acquire(0), Admission::Run { execution: 1, generation: 1 });
    assert_eq!(s.acquire(1), Admission::Busy);
    assert_eq!(s.finish(RunStatus::Completed), false);
    assert_eq!(s.acquire(2), Admission::Busy);
    assert_eq!(s.acquire(0), Admission::Closed);
    assert_eq!(s.acquire(1), Admission::Run { execution: 2, generation: 1 });
    assert_eq!(s.finish(RunStatus::TimedOut), true);
    assert_eq!(s.acquire(2), Admission::Spawn { generation: 2 });
    s.spawn_finished(true);
    assert_eq!(s.acquire(2), Admission::Run { execution: 3, generation: 2 });
    assert_eq!(s.finish(RunStatus::Completed), false);
    assert_eq!(s.pending(), 0);
    assert_eq!(s.acquire(3), Admission::Closed);
}

#[test]
fn turn_can_be_given_up() {
    let mut s = Session::new("s".to_string());
    assert_eq!(s.enqueue(), Some(0));
    assert_eq!(s.enqueue(), Some(1));
    assert_eq!(s.abandon(1), false);
    assert_eq!(s.acquire(0), Admission::Spawn { generation: 1 });
    s.spawn_finished(false);
    assert_eq!(s.abandon(0), true);
    assert_eq!(s.serving(), 1);
    assert_eq!(s.abandon(0), false);
    assert_eq!(s.acquire(1), Admission::Spawn { generation: 2 });
    s.spawn_finished(true);
    assert_eq!(s.acquire(1), Admission::Run { execution: 1, generation: 2 });
    // The call that runs cannot give up its turn; it ends by finishing.
    assert_eq!(s.abandon(1), false);
    assert_eq!(s.finish(RunStatus::Completed), false);
    assert_eq!(s.abandon(2), false);
}

#[test]
fn stray_reports_change_nothing() {
    let mut s = Session::new("s".to_string());
    assert_eq!(s.finish(RunStatus::TimedOut), false);
    assert_eq!(s.state(), SessionState::Starting);
    s.spawn_finished(true);
    s.spawn_finished(false);
    assert_eq!(s.state(), SessionState::Idle);
    assert_eq!(s.restart(), false);
    assert_eq!(s.state(), SessionState::Idle);
    assert_eq!(s.enqueue(), Some(0));
    s.terminate();
    assert_eq!(s.restart(), true);
    assert_eq!(s.state(), SessionState::Starting);
    assert_eq!(s.generation(), 2);
    // The ticket drawn before the shutdown takes no part any more.
    assert_eq!(s.acquire(0), Admission::Closed);
    assert_eq!(s.enqueue(), Some(1));
    assert_eq!(s.acquire(1), Admission::Spawn { generation: 2 });
}

#[test]
fn cleanup_is_retried_once() {
    assert_eq!(retry_cleanup(0), false);
    assert_eq!(retry_cleanup(1), true);
    assert_eq!(retry_cleanup(2), false);
    assert_eq!(retry_cleanup(u64::MAX), false);
}

#[test]
fn registry_makes_one_session_for_each_id() {
    let mut r = SessionRegistry::new();
    assert_eq!(r.len(), 0);
    assert_eq!(r.find("a"), None);
    assert_eq!(r.acquire("a", 0), Admission::Closed);
    assert_eq!(r.enqueue("a"), Some(0));
    assert_eq!(r.enqueue("a"), Some(1));
    assert_eq!(r.len(), 1);
    assert_eq!(r.acquire("a", 0), Admission::Spawn { generation: 1 });
    assert_eq!(r.acquire("a", 1), Admission::Busy);
    assert_eq!(r.enqueue("b"), Some(0));
    assert_eq!(r.len(), 2);
    assert_eq!(r.find("a"), Some(0));
    assert_eq!(r.find("b"), Some(1));
    assert_eq!(r.find("c"), None);
    assert_eq!(r.get(1).id(), "b");
    r.spawn_finished("a", true);
    assert_eq!(r.get(0).state(), SessionState::Idle);
    assert_eq!(r.get(1).state(), SessionState::Starting);
    r.spawn_finished("missing", true);
    assert_eq!(r.finish("missing", RunStatus::TimedOut), false);
    assert_eq!(r.abandon("missing", 0), false);
    assert_eq!(r.len(), 2);
    assert_eq!(r.abandon("a", 0), true);
    assert_eq!(r.acquire("a", 1), Admission::Run { execution: 1, generation: 1 });
}

#[test]
fn sessions_are_isolated() {
    let mut r = SessionRegistry::new();
    assert_eq!(r.enqueue("a"), Some(0));
    assert_eq!(r.enqueue("b"), Some(0));
    r.acquire("a", 0);
    r.acquire("b", 0);
    r.spawn_finished("a", true);
    r.spawn_finished("b", true);
    assert_eq!(r.acquire("a", 0), Admission::Run { execution: 1, generation: 1 });
    let b_before = r.get(1).clone();
    assert_eq!(r.finish("a", RunStatus::TimedOut), true);
    assert_eq!(r.enqueue("a"), Some(1));
    assert_eq!(r.acquire("a", 1), Admission::Spawn { generation: 2 });
    assert_eq!(*r.get(1), b_before);
    assert_eq!(r.acquire("b", 0), Admission::Run { execution: 1, generation: 1 });
    assert_eq!(r.get(0).state(), SessionState::Starting);
}

#[test]
fn terminated_session_starts_over() {
    let mut r = SessionRegistry::new();
    r.enqueue("a");
    r.acquire("a", 0);
    r.spawn_finished("a", true);
    r.enqueue("b");
    r.acquire("b", 0);
    r.spawn_finished("b", false);
    r.enqueue("c");
    assert_eq!(r.terminate_all(), vec!["a".to_string(), "c".to_string()]);
    assert_eq!(r.get(0).state(), SessionState::Terminated);
    assert_eq!(r.get(1).state(), SessionState::Terminated);
    assert_eq!(r.terminate_all(), Vec::<String>::new());
    assert_eq!(r.acquire("a", 0), Admission::Closed);
    assert_eq!(r.enqueue("a"), Some(1));
    assert_eq!(r.get(0).state(), SessionState::Starting);
    assert_eq!(r.acquire("a", 1), Admission::Spawn { generation: 2 });
    assert_eq!(r.len(), 3);
}

#[test]
fn spawn_policies() {
    let python = SpawnPolicy::for_language(Language::Python);
    assert_eq!(python.program, "python3");
    assert_eq!(python.args, vec!["-u", "-q", "-i", "-c", "import sys; sys.ps1 = ''; sys.ps2 = ''"]);
    assert_eq!(python.startup_timeout_ms, STARTUP_TIMEOUT_MS);
    let node = SpawnPolicy::for_language(Language::Node);
    assert_eq!(node.program, "node");
    assert_eq!(
        node.args,
        vec!["-e", "require('repl').start({ prompt: '', ignoreUndefined: true })"]
    );
    assert_eq!(STARTUP_TIMEOUT_MS, 10000);
}

#[test]
fn engine_holds_the_sessions_of_one_language() {
    let mut e = Engine::new(Language::Node);
    assert_eq!(e.language(), Language::Node);
    assert_eq!(*e.policy(), SpawnPolicy::for_language(Language::Node));
    assert_eq!(e.session_count(), 0);
    assert_eq!(e.enqueue("s"), Some(0));
    assert_eq!(e.enqueue("s"), Some(1));
    assert_eq!(e.acquire("s", 0), Admission::Spawn { generation: 1 });
    e.spawn_finished("s", true);
    assert_eq!(e.acquire("s", 0), Admission::Run { execution: 1, generation: 1 });
    assert_eq!(e.abandon("s", 0), false);
    assert_eq!(e.finish("s", RunStatus::Completed), false);
    assert_eq!(e.abandon("s", 1), true);
    assert_eq!(e.session_count(), 1);
    assert_eq!(e.shutdown(), vec!["s".to_string()]);
    assert_eq!(e.shutdown(), Vec::<String>::new());
}

#[test]
fn startup_fails_only_for_a_required_engine() {
    let failed = |required| Some(ProbeReport { required, failure: Some("no such file".into()) });
    assert_eq!(
        start_engines(failed(true), ready()),
        Err(EngineStartupError { language: Language::Python, reason: "no such file".to_string() })
    );
    assert_eq!(
        start_engines(ready(), failed(true)),
        Err(EngineStartupError { language: Language::Node, reason: "no such file".to_string() })
    );
    let both_fail = start_engines(
        Some(ProbeReport { required: true, failure: Some("first".to_string()) }),
        Some(ProbeReport { required: true, failure: Some("second".to_string()) }),
    );
    assert_eq!(
        both_fail,
        Err(EngineStartupError { language: Language::Python, reason: "first".to_string() })
    );
    let h = start_engines(failed(false), ready()).unwrap();
    assert_eq!(h.language_of("python"), None);
    assert_eq!(h.language_of("nodejs"), Some(Language::Node));
    assert!(h.policy(Language::Python).is_none());
    assert_eq!(h.policy(Language::Node), Some(&SpawnPolicy::for_language(Language::Node)));
    let none = start_engines(None, None).unwrap();
    assert_eq!(none.language_of("python"), None);
    assert_eq!(none.language_of("node"), None);
    assert!(!none.is_closed());
}

#[test]
fn state_persists_between_completed_calls() {
    let mut h = python_only();
    let (first, g1) = call(&mut h, "x = 10", "python", "s1", None, vec![]);
    assert_eq!(first, Ok(vec![]));
    let script = vec![ProcessEvent::Line(out("10"))];
    let (second, g2) = call(&mut h, "print(x)", "python", "s1", None, script);
    assert_eq!(second, Ok(vec![out("10")]));
    // The first call spawned the interpreter; the second ran on the same one.
    assert_eq!(g1, vec![1]);
    assert_eq!(g2, Vec::<u64>::new());
}

#[test]
fn timeout_resets_the_session() {
    let mut h = python_only();
    let (first, _) = call(&mut h, "x = 10", "python", "s2", None, vec![]);
    assert_eq!(first, Ok(vec![]));
    let script = vec![
        ProcessEvent::Clock(1000),
        ProcessEvent::Clock(1999),
        ProcessEvent::Clock(2000),
        ProcessEvent::Line(out("too late")),
    ];
    let (second, g2) = call(&mut h, "while True: pass", "python", "s2", Some(2), script);
    assert_eq!(second, Err(ExecutionError::TimedOut(vec![])));
    assert_eq!(g2, Vec::<u64>::new());
    // The next call is told to spawn, and runs on a fresh interpreter.
    let script = vec![ProcessEvent::Line(err("NameError: name 'x' is not defined"))];
    let (third, g3) = call(&mut h, "print(x)", "python", "s2", None, script);
    assert_eq!(third, Ok(vec![err("NameError: name 'x' is not defined")]));
    assert_eq!(g3, vec![2]);
}

#[test]
fn fault_keeps_partial_output_and_resets_the_session() {
    let mut h = python_only();
    let script = vec![ProcessEvent::Line(out("before")), ProcessEvent::Exited];
    let (first, _) = call(&mut h, "import os; os._exit(1)", "python", "s", None, script);
    assert_eq!(first, Err(ExecutionError::ExecutionFault(vec![out("before")])));
    let (second, g) = call(&mut h, "1", "python", "s", None, vec![]);
    assert_eq!(second, Ok(vec![]));
    assert_eq!(g, vec![2]);
}

#[test]
fn unsupported_language_touches_nothing() {
    let mut h = python_only();
    let script = vec![ProcessEvent::Line(out("hi"))];
    let (r, _) = call(&mut h, "print('hi')", "python", "s3", None, script);
    assert_eq!(r, Ok(vec![out("hi")]));
    let before = h.clone();
    let (r, _) = call(&mut h, "print('hi')", "ruby", "s3", None, vec![]);
    assert_eq!(r, Err(ExecutionError::UnsupportedLanguage("ruby".to_string())));
    assert_eq!(h, before);
    // A language of the closed set whose engine did not start is unsupported too.
    assert_eq!(
        h.enqueue("nodejs", "s3"),
        Err(ExecutionError::UnsupportedLanguage("nodejs".to_string()))
    );
    assert_eq!(h.acquire(Language::Node, "s3", 0), Admission::Closed);
    assert_eq!(h.abandon(Language::Node, "s3", 0), false);
    assert_eq!(h, before);
}

#[test]
fn sessions_of_two_languages_do_not_meet() {
    let mut h = both();
    let (a, ga) = call(&mut h, "x = 1", "python", "same", None, vec![]);
    let script = vec![ProcessEvent::Line(err("x is not defined"))];
    let (b, gb) = call(&mut h, "x", "node", "same", None, script);
    assert_eq!(a, Ok(vec![]));
    assert_eq!(b, Ok(vec![err("x is not defined")]));
    assert_eq!(ga, vec![1]);
    assert_eq!(gb, vec![1]);
}

fn request(code: &str, session_id: &str, timeout: Option<u64>) -> ExecutionRequest {
    ExecutionRequest {
        code: code.to_string(),
        language: "python".to_string(),
        session_id: session_id.to_string(),
        timeout_seconds: timeout,
    }
}

#[test]
fn call_is_told_what_to_do_step_by_step() {
    let mut h = python_only();
    let mut c = h.begin(&request("print(1)", "s", Some(3)), 7).unwrap();
    assert_eq!((c.language(), c.session_id(), c.ticket()), (Language::Python, "s", 0));
    assert_eq!(c.deadline(), None);
    assert_eq!(h.advance(&mut c, HostEvent::Ask, 10), Instruction::Spawn { generation: 1 });
    // Until the host reports on the spawn, the instruction stays.
    assert_eq!(h.advance(&mut c, HostEvent::Ask, 11), Instruction::Spawn { generation: 1 });
    let token = Sentinel::new(1, 7).token();
    assert_eq!(
        h.advance(&mut c, HostEvent::Spawned(true), 1000),
        Instruction::Write { payload: payload("print(1)", Language::Python, &token) }
    );
    // The deadline runs from the start of the execution.
    assert_eq!(c.deadline(), Some(4000));
    assert_eq!(h.advance(&mut c, HostEvent::Ask, 1001), Instruction::Listen);
    assert_eq!(
        h.advance(&mut c, HostEvent::Process(ProcessEvent::Line(out("1"))), 1002),
        Instruction::Listen
    );
    assert!(!c.is_over());
    assert_eq!(
        h.advance(&mut c, HostEvent::Process(ProcessEvent::Line(out(&token))), 1003),
        Instruction::Return { result: Ok(vec![out("1")]), kill: false }
    );
    assert!(c.is_over());
    assert_eq!(
        h.advance(&mut c, HostEvent::Ask, 1004),
        Instruction::Return {
            result: Err(ExecutionError::InternalError("call is over".to_string())),
            kill: false
        }
    );
}

#[test]
fn calls_wait_for_their_turn() {
    let mut h = python_only();
    let mut first = h.begin(&request("a = 1", "s", None), 1).unwrap();
    let mut second = h.begin(&request("a", "s", None), 2).unwrap();
    let mut other = h.begin(&request("b", "t", None), 3).unwrap();
    assert_eq!((first.ticket(), second.ticket(), other.ticket()), (0, 1, 0));
    assert_eq!(h.advance(&mut second, HostEvent::Ask, 0), Instruction::Wait);
    assert_eq!(h.advance(&mut first, HostEvent::Ask, 0), Instruction::Spawn { generation: 1 });
    assert_eq!(h.advance(&mut second, HostEvent::Ask, 0), Instruction::Wait);
    // Another session does not wait for this one.
    assert_eq!(h.advance(&mut other, HostEvent::Ask, 0), Instruction::Spawn { generation: 1 });
    assert!(matches!(
        h.advance(&mut first, HostEvent::Spawned(true), 0),
        Instruction::Write { .. }
    ));
    assert_eq!(h.advance(&mut second, HostEvent::Ask, 0), Instruction::Wait);
    let done = HostEvent::Process(ProcessEvent::Line(out(&Sentinel::new(1, 1).token())));
    assert_eq!(
        h.advance(&mut first, done, 0),
        Instruction::Return { result: Ok(vec![]), kill: false }
    );
    let token = Sentinel::new(2, 2).token();
    assert_eq!(
        h.advance(&mut second, HostEvent::Ask, 0),
        Instruction::Write { payload: payload("a", Language::Python, &token) }
    );
}

#[test]
fn failed_spawn_ends_the_call_and_passes_the_turn_on() {
    let mut h = python_only();
    let mut first = h.begin(&request("1", "s", None), 1).unwrap();
    let mut second = h.begin(&request("2", "s", None), 2).unwrap();
    assert_eq!(h.advance(&mut first, HostEvent::Ask, 0), Instruction::Spawn { generation: 1 });
    assert_eq!(
        h.advance(&mut first, HostEvent::Spawned(false), 0),
        Instruction::Return { result: Err(ExecutionError::ExecutionFault(vec![])), kill: false }
    );
    assert_eq!(h.advance(&mut second, HostEvent::Ask, 0), Instruction::Spawn { generation: 2 });
}

#[test]
fn code_that_never_stops_writing_times_out() {
    let mut h = python_only();
    let mut c = h.begin(&request("while True: print('x')", "s", Some(2)), 1).unwrap();
    h.advance(&mut c, HostEvent::Ask, 0);
    assert!(matches!(h.advance(&mut c, HostEvent::Spawned(true), 500), Instruction::Write { .. }));
    assert_eq!(c.deadline(), Some(2500));
    let line = || HostEvent::Process(ProcessEvent::Line(out("x")));
    assert_eq!(h.advance(&mut c, line(), 1000), Instruction::Listen);
    assert_eq!(h.advance(&mut c, line(), 2499), Instruction::Listen);
    // No clock event is needed: the line that is reported after the
    // deadline is not captured, and the call is over.
    assert_eq!(
        h.advance(&mut c, line(), 2500),
        Instruction::Return {
            result: Err(ExecutionError::TimedOut(vec![out("x"), out("x")])),
            kill: true
        }
    );
}

#[test]
fn failed_write_is_a_fault() {
    let mut h = python_only();
    let mut c = h.begin(&request("1", "s", None), 1).unwrap();
    h.advance(&mut c, HostEvent::Ask, 0);
    h.advance(&mut c, HostEvent::Spawned(true), 0);
    assert_eq!(
        h.advance(&mut c, HostEvent::WriteFailed, 0),
        Instruction::Return { result: Err(ExecutionError::ExecutionFault(vec![])), kill: true }
    );
}

#[test]
fn shutdown_ends_calls() {
    let mut h = python_only();
    let mut running = h.begin(&request("while True: pass", "s", None), 1).unwrap();
    let mut waiting = h.begin(&request("1", "s", None), 2).unwrap();
    h.advance(&mut running, HostEvent::Ask, 0);
    h.advance(&mut running, HostEvent::Spawned(true), 0);
    h.advance(&mut running, HostEvent::Process(ProcessEvent::Line(out("partial"))), 0);
    assert_eq!(h.advance(&mut waiting, HostEvent::Ask, 0), Instruction::Wait);
    assert_eq!(
        h.shutdown(),
        vec![SessionKey { language: Language::Python, session_id: "s".to_string() }]
    );
    // The running call counts as timed out and keeps its output; the host
    // has terminated the interpreter already.
    assert_eq!(
        h.advance(&mut running, HostEvent::Process(ProcessEvent::Exited), 0),
        Instruction::Return {
            result: Err(ExecutionError::TimedOut(vec![out("partial")])),
            kill: false
        }
    );
    assert_eq!(
        h.advance(&mut waiting, HostEvent::Ask, 0),
        Instruction::Return {
            result: Err(ExecutionError::InternalError("session is shut down".to_string())),
            kill: false
        }
    );
    assert_eq!(
        h.begin(&request("1", "s", None), 3),
        Err(ExecutionError::InternalError("engine handle is shut down".to_string()))
    );
}

#[test]
fn concurrent_calls_of_one_session_wait() {
    let mut h = python_only();
    let python = Language::Python;
    let first = h.enqueue("python", "s").unwrap();
    let second = h.enqueue("python", "s").unwrap();
    assert_eq!(first, Ticket { language: python, number: 0 });
    assert_eq!(second, Ticket { language: python, number: 1 });
    assert_eq!(h.acquire(python, "s", 1), Admission::Busy);
    assert_eq!(h.acquire(python, "s", 0), Admission::Spawn { generation: 1 });
    h.spawn_finished(python, "s", true);
    assert_eq!(h.acquire(python, "s", 1), Admission::Busy);
    assert_eq!(h.acquire(python, "s", 0), Admission::Run { execution: 1, generation: 1 });
    assert_eq!(h.acquire(python, "s", 1), Admission::Busy);
    // Another session does not wait for this one.
    let other = h.enqueue("python", "other").unwrap();
    assert_eq!(other.number, 0);
    assert_eq!(h.acquire(python, "other", 0), Admission::Spawn { generation: 1 });
    assert_eq!(h.finish(python, "s", RunStatus::Completed), false);
    assert_eq!(h.acquire(python, "s", 1), Admission::Run { execution: 2, generation: 1 });
    assert_eq!(h.finish(Language::Node, "s", RunStatus::TimedOut), false);
    assert_eq!(h.finish(python, "s", RunStatus::Completed), false);
    assert_eq!(h.acquire(python, "s", 1), Admission::Closed);
}

#[test]
fn failed_spawn_passes_the_turn_on() {
    let mut h = python_only();
    let python = Language::Python;
    let first = h.enqueue("python", "s").unwrap().number;
    let second = h.enqueue("python", "s").unwrap().number;
    assert_eq!(h.acquire(python, "s", first), Admission::Spawn { generation: 1 });
    h.spawn_finished(python, "s", false);
    assert_eq!(h.abandon(python, "s", second), false);
    assert_eq!(h.abandon(python, "s", first), true);
    assert_eq!(h.acquire(python, "s", second), Admission::Spawn { generation: 2 });
}

#[test]
fn shutdown_is_idempotent() {
    let mut h = both();
    let a = h.enqueue("python", "a").unwrap().number;
    h.acquire(Language::Python, "a", a);
    h.spawn_finished(Language::Python, "a", true);
    let b = h.enqueue("python", "b").unwrap().number;
    h.acquire(Language::Python, "b", b);
    h.spawn_finished(Language::Python, "b", false);
    h.enqueue("node", "c").unwrap();
    let keys = h.shutdown();
    assert_eq!(
        keys,
        vec![
            SessionKey { language: Language::Python, session_id: "a".to_string() },
            SessionKey { language: Language::Node, session_id: "c".to_string() },
        ]
    );
    assert!(h.is_closed());
    let after_first = h.clone();
    assert_eq!(h.shutdown(), vec![]);
    assert_eq!(h, after_first);
    assert_eq!(
        h.enqueue("python", "a"),
        Err(ExecutionError::InternalError("engine handle is shut down".to_string()))
    );
    assert_eq!(
        h.enqueue("ruby", "a"),
        Err(ExecutionError::UnsupportedLanguage("ruby".to_string()))
    );
    assert_eq!(h.acquire(Language::Python, "a", a), Admission::Closed);
    assert_eq!(h, after_first);
}

#[test]
fn outcomes_become_responses() {
    assert_eq!(
        respond(Ok(vec![out("10")])),
        EvalResponse { status: "success".to_string(), output: vec![out("10")] }
    );
    assert_eq!(
        respond(Err(ExecutionError::TimedOut(vec![out("partial")]))),
        EvalResponse { status: "timeout".to_string(), output: vec![out("partial")] }
    );
    assert_eq!(
        respond(Err(ExecutionError::ExecutionFault(vec![err("boom")]))),
        EvalResponse { status: "error".to_string(), output: vec![err("boom")] }
    );
    assert_eq!(
        respond(Err(ExecutionError::UnsupportedLanguage("ruby".to_string()))),
        EvalResponse { status: "error".to_string(), output: vec![] }
    );
    assert_eq!(
        respond(Err(ExecutionError::InternalError("bug".to_string()))),
        EvalResponse { status: "error".to_string(), output: vec![] }
    );
    let request = ExecutionRequest {
        code: "1".to_string(),
        language: "python".to_string(),
        session_id: "s".to_string(),
        timeout_seconds: Some(2),
    };
    assert_eq!(request.clone(), request);
}
