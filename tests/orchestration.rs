use lxd_bench::orchestrator::{Action, Orchestrator, Phase};
use lxd_bench::plan::{decimal_string, make_environment_id, PlanError, TestOutline, TestSpecification};

fn spec(name: &str, cmd: &str, runs: u8, base: &str, timeout: Option<&str>) -> TestSpecification {
    TestSpecification {
        name: name.to_string(),
        test_cmd: cmd.to_string(),
        nr_of_test_runs: runs,
        test_length: timeout.map(|t| t.to_string()),
        path_config: base.to_string(),
    }
}

fn outline(source: &str, profiles: &[&str], tests: Vec<TestSpecification>) -> TestOutline {
    TestOutline {
        source_container: source.to_string(),
        container_profiles: profiles.iter().map(|p| p.to_string()).collect(),
        test_spec: tests,
    }
}

/// Drives a plan to its end, recording each action as a line of text; `fails`
/// picks the actions (by their line) whose outcome is a failure.
fn drive(o: TestOutline, fails: &dyn Fn(&str) -> bool) -> Vec<String> {
    let mut orch = match Orchestrator::new(o) {
        Ok(orch) => orch,
        Err(_) => panic!("plan refused"),
    };
    let mut log = Vec::new();
    for _ in 0..1000 {
        let line = match orch.next_action() {
            Action::WriteConfig { base_path, timeout, artifact } => {
                format!("config {} {:?} {}", base_path, timeout, artifact)
            }
            Action::Tool { args } => args.join(" "),
            Action::Settle { seconds } => format!("settle {}", seconds),
            Action::Dispatch { args } => format!("dispatch {}", args.join(" ")),
            Action::Finished => {
                log.push("finished".to_string());
                return log;
            }
            Action::Aborted => {
                log.push("aborted".to_string());
                return log;
            }
        };
        let ok = !fails(&line);
        log.push(line);
        orch.advance(ok);
    }
    panic!("drive did not end");
}

fn verbs(log: &[String]) -> Vec<String> {
    log.iter()
        .map(|l| {
            let w = l.split(' ').next().unwrap().to_string();
            if w == "dispatch" { "exec".to_string() } else { w }
        })
        .collect()
}

#[test]
fn decimal_notation() {
    assert_eq!(decimal_string(0), "0");
    assert_eq!(decimal_string(7), "7");
    assert_eq!(decimal_string(42), "42");
    assert_eq!(decimal_string(100), "100");
    assert_eq!(decimal_string(255), "255");
}

#[test]
fn environment_id_joins_name_and_index() {
    assert_eq!(make_environment_id(&"bench".to_string(), 0), "bench-0");
    assert_eq!(make_environment_id(&"a-b".to_string(), 12), "a-b-12");
}

#[test]
fn environment_ids_follow_plan_order() {
    let o = outline(
        "img",
        &[],
        vec![spec("a", "x", 2, "a.toml", None), spec("z", "x", 0, "z.toml", None), spec("b", "y", 3, "b.toml", None)],
    );
    assert_eq!(o.environment_ids(), vec!["a-0", "a-1", "b-0", "b-1", "b-2"]);
    assert_eq!(o.total_test_runs(), 5);
    assert!(o.validate().is_ok());
}

#[test]
fn empty_plan_has_no_runs() {
    let o = outline("img", &["p"], vec![]);
    assert!(o.environment_ids().is_empty());
    assert_eq!(o.total_test_runs(), 0);
    assert_eq!(drive(o, &|_| false), vec!["finished"]);
}

#[test]
fn plan_of_zero_run_tests_finishes_at_once() {
    let o = outline("img", &[], vec![spec("a", "x", 0, "a.toml", None), spec("b", "x", 0, "b.toml", None)]);
    assert_eq!(drive(o, &|_| false), vec!["finished"]);
}

#[test]
fn largest_run_count() {
    let o = outline("img", &[], vec![spec("a", "x", 255, "a.toml", None), spec("b", "x", 255, "b.toml", None)]);
    let ids = o.environment_ids();
    assert_eq!(ids.len(), 510);
    assert_eq!(ids[254], "a-254");
    assert_eq!(ids[509], "b-254");
    assert_eq!(o.total_test_runs(), 510);
}

#[test]
fn duplicate_environment_is_detected() {
    let o = outline("img", &[], vec![spec("x", "a", 2, "a.toml", None), spec("x", "b", 1, "b.toml", None)]);
    match o.validate() {
        Err(PlanError::DuplicateEnvironment(id)) => assert_eq!(id, "x-0"),
        Ok(()) => panic!("duplicate not found"),
    }
    assert!(Orchestrator::new(o).is_err());
}

#[test]
fn describe_lists_profiles_and_tests() {
    let o = outline(
        "golden",
        &["net-isolated", "big"],
        vec![spec("bench", "true", 2, "base.cfg", None), spec("other", "run it", 12, "o.cfg", Some("1h"))],
    );
    assert_eq!(
        o.describe(),
        "Source container: golden\nContainer profiles to apply: \nnet-isolated\nbig\nTests: \n\
         Test cmd: true, Amount of test runs: 2\nTest cmd: run it, Amount of test runs: 12\n"
    );
}

#[test]
fn bench_scenario_drives_both_runs() {
    let o = outline("golden", &["net-isolated"], vec![spec("bench", "true", 2, "base.cfg", None)]);
    let log = drive(o, &|_| false);
    let mut expected = Vec::new();
    for id in ["bench-0", "bench-1"] {
        expected.push(format!("config base.cfg None ./{}.toml", id));
        expected.push(format!("copy golden {} -p net-isolated", id));
        expected.push(format!("start {}", id));
        expected.push("settle 5".to_string());
        expected.push(format!("file push ./{}.toml {}/config.toml", id, id));
        expected.push(format!("dispatch exec {} -- echo true >> thing", id));
        expected.push(format!("stop {}", id));
    }
    expected.push("finished".to_string());
    assert_eq!(log, expected);
}

#[test]
fn lifecycle_order_two_tests_two_runs() {
    let o = outline(
        "img",
        &["a", "b"],
        vec![spec("s", "c1", 2, "s.toml", Some("10")), spec("t", "c2", 2, "t.toml", None)],
    );
    let log = drive(o, &|_| false);
    assert_eq!(log.len(), 4 * 7 + 1);
    let v = verbs(&log);
    for run in 0..4 {
        assert_eq!(
            &v[run * 7..run * 7 + 7],
            &["config", "copy", "start", "settle", "file", "exec", "stop"]
        );
    }
    let ids = ["s-0", "s-1", "t-0", "t-1"];
    for (run, id) in ids.iter().enumerate() {
        assert_eq!(log[run * 7 + 1], format!("copy img {} -p a -p b", id));
        assert_eq!(log[run * 7 + 6], format!("stop {}", id));
    }
    assert_eq!(log[0], "config s.toml Some(\"10\") ./s-0.toml");
    assert_eq!(log[14], "config t.toml None ./t-0.toml");
    assert_eq!(log[28], "finished");
}

#[test]
fn exec_failure_still_stops_and_continues() {
    let o = outline("img", &[], vec![spec("s", "c", 2, "s.toml", None), spec("t", "c", 1, "t.toml", None)]);
    let log = drive(o, &|l| l.starts_with("dispatch"));
    let v = verbs(&log);
    assert_eq!(v.iter().filter(|w| *w == "stop").count(), 3);
    assert_eq!(log[6], "stop s-0");
    assert_eq!(log.last().unwrap(), "finished");
}

#[test]
fn start_failure_aborts_the_plan() {
    let o = outline("img", &[], vec![spec("s", "c", 2, "s.toml", None), spec("t", "c", 2, "t.toml", None)]);
    let log = drive(o, &|l| l == "start s-1");
    assert_eq!(
        log[7..].to_vec(),
        vec!["config s.toml None ./s-1.toml", "copy img s-1", "start s-1", "aborted"]
    );
    assert!(!log[7..].iter().any(|l| l.starts_with("file") || l.starts_with("dispatch")));
    assert!(!log.iter().any(|l| l.contains("t-0")));
}

#[test]
fn other_fatal_failures_abort() {
    for bad in ["config s.toml None ./s-0.toml", "copy img s-0", "file push ./s-0.toml s-0/config.toml", "stop s-0"] {
        let o = outline("img", &[], vec![spec("s", "c", 2, "s.toml", None)]);
        let log = drive(o, &|l| l == bad);
        assert_eq!(log.last().unwrap(), "aborted");
        let at = log.iter().position(|l| l == bad).unwrap();
        assert_eq!(at + 2, log.len());
    }
}

#[test]
fn phase_is_reported() {
    let o = outline("img", &[], vec![spec("s", "c", 1, "s.toml", None)]);
    let mut orch = match Orchestrator::new(o) {
        Ok(orch) => orch,
        Err(_) => panic!("plan refused"),
    };
    assert_eq!(orch.phase(), Phase::Configure);
    orch.advance(true);
    assert_eq!(orch.phase(), Phase::Copy);
    orch.advance(false);
    assert_eq!(orch.phase(), Phase::Aborted);
    assert_eq!(orch.outline().test_spec.len(), 1);
}
