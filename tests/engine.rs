use diskmon::check_method::{CheckMethod, ConfigError, Verdict};
use diskmon::configs::{ApplicationConfig, FromEnv, Interval, LoggerConfig, LoggerEnv, SelfValidation, TargetConfig};
use diskmon::file_config::{ApplicationToml, LoggerToml, TargetToml};
use diskmon::manager::{build_managers, sweep, CheckError, CheckManager, ProbeOutcome};
use diskmon::ratio::Ratio;
use diskmon::scheduler::{LoopAction, LoopEvent, LoopState};
use diskmon::stats::{ProbeError, Stats};
use diskmon::text::{contains_text, parse_decimal, same_text, Decimal};

fn stats(bsize: u64, blocks: u64, bavail: u64) -> Stats {
    Stats { bsize, blocks, bfree: bavail, bavail, files: 100, ffree: 40, favail: 30 }
}

fn env() -> LoggerEnv {
    LoggerEnv {
        airbrake_host: Some("host".to_string()),
        airbrake_project_id: None,
        airbrake_project_key: None,
        airbrake_environment: None,
    }
}

fn target(mp: &str, m: &str, t: &str) -> TargetConfig {
    TargetConfig { mount_point: mp.to_string(), check_method: m.to_string(), threshold: t.to_string() }
}

fn config(targets: Vec<TargetConfig>) -> ApplicationConfig {
    let mut c = ApplicationConfig::from_env(env());
    for t in targets {
        c.add_target(t);
    }
    c
}

fn threshold_of(m: &CheckMethod) -> Decimal {
    match m {
        CheckMethod::DiskCapacityRate { threshold } => *threshold,
    }
}

#[test]
fn zero_size_gives_zero_share() {
    let s = Stats { bsize: 0, blocks: 10, bfree: 5, bavail: 5, files: 0, ffree: 0, favail: 0 };
    assert_eq!(s.size(), 0);
    assert_eq!(s.use_share().num, 0);
    let s = stats(4096, 0, 0);
    assert_eq!(s.use_share().num, 0);
}

#[test]
fn zero_files_gives_zero_inode_share() {
    let s = Stats { bsize: 4096, blocks: 10, bfree: 5, bavail: 5, files: 0, ffree: 0, favail: 0 };
    let r = s.inodes_use_share();
    assert_eq!(r.num, 0);
    assert!(r.den > 0);
}

#[test]
fn derived_sizes() {
    let s = stats(4096, 100, 25);
    assert_eq!(s.size(), 409600);
    assert_eq!(s.available(), 102400);
    assert_eq!(s.used(), 307200);
    assert_eq!(s.inodes_used(), 70);
    assert_eq!(s.use_share(), Ratio { num: 75, den: 100 });
    assert_eq!(s.inodes_use_share(), Ratio { num: 70, den: 100 });
}

#[test]
fn inconsistent_counts_saturate() {
    let s = Stats { bsize: 512, blocks: 10, bfree: 20, bavail: 20, files: 5, ffree: 9, favail: 9 };
    assert_eq!(s.used(), 0);
    assert_eq!(s.inodes_used(), 0);
    assert_eq!(s.use_share().num, 0);
}

#[test]
fn verdict_is_strictly_below() {
    let m = CheckMethod::from("", "0.5").unwrap();
    // exactly half used: equal, not a violation
    assert!(matches!(m.evaluate(&stats(1, 100, 50)), Verdict::Pass { .. }));
    assert!(matches!(m.evaluate(&stats(1, 100, 49)), Verdict::Violation { .. }));
    assert!(matches!(m.evaluate(&stats(1, 100, 51)), Verdict::Pass { .. }));
    let neg = CheckMethod::from("", "-0.1").unwrap();
    assert!(matches!(neg.evaluate(&stats(1, 100, 100)), Verdict::Violation { .. }));
    let big = CheckMethod::from("", "1.5").unwrap();
    assert!(matches!(big.evaluate(&stats(1, 100, 0)), Verdict::Pass { .. }));
}

#[test]
fn method_name_is_case_insensitive() {
    for name in ["", "capacity_rate", "CAPACITY_RATE", "Disk_Capacity_Rate", "xcapacity_ratey"] {
        let m = CheckMethod::from(name, "0.8").unwrap();
        assert_eq!(threshold_of(&m), Decimal { negative: false, num: 8, den: 10 });
    }
    match CheckMethod::from("Bogus", "0.8") {
        Err(ConfigError::UnexpectedMethod(m)) => assert_eq!(m, "bogus"),
        other => panic!("unexpected {:?}", other),
    }
    assert!(CheckMethod::from("capacity", "0.8").is_err());
}

#[test]
fn unparsable_threshold_is_reported() {
    match CheckMethod::from("capacity_rate", "abc") {
        Err(ConfigError::IllegalThreshold(t)) => assert_eq!(t, "abc"),
        other => panic!("unexpected {:?}", other),
    }
}

#[test]
fn decimal_texts() {
    assert_eq!(parse_decimal("0.50"), Some(Decimal { negative: false, num: 50, den: 100 }));
    assert_eq!(parse_decimal("+1"), Some(Decimal { negative: false, num: 1, den: 1 }));
    assert_eq!(parse_decimal("-.25"), Some(Decimal { negative: true, num: 25, den: 100 }));
    assert_eq!(parse_decimal("3."), Some(Decimal { negative: false, num: 3, den: 1 }));
    assert_eq!(parse_decimal(""), None);
    assert_eq!(parse_decimal("."), None);
    assert_eq!(parse_decimal("-"), None);
    assert_eq!(parse_decimal("1.2.3"), None);
    assert_eq!(parse_decimal("0.5x"), None);
    assert_eq!(parse_decimal("99999999999999999999"), None);
    assert_eq!(parse_decimal("0.00000000000000000001"), None);
    assert_eq!(parse_decimal("18446744073709551615"), Some(Decimal { negative: false, num: u64::MAX, den: 1 }));
}

#[test]
fn text_helpers() {
    assert!(contains_text("disk_capacity_rate", "capacity_rate"));
    assert!(!contains_text("capacity_rat", "capacity_rate"));
    assert!(contains_text("abc", ""));
    assert!(same_text("INFO", "INFO"));
    assert!(!same_text("INFO", "INF"));
}

#[test]
fn probe_codes() {
    let raw = Stats { bsize: 4096, blocks: 1, bfree: 2, bavail: 3, files: 4, ffree: 5, favail: 6 };
    assert_eq!(Stats::from("/", 0, raw), Ok(Some(raw)));
    assert_eq!(Stats::from("/nowhere", -1, raw), Ok(None));
    assert_eq!(Stats::from("/mnt", 5, raw), Err(ProbeError { mount_point: "/mnt".to_string(), code: 5 }));
}

#[test]
fn end_to_end_half_used() {
    let c = config(vec![target("/", "", "0.50")]);
    assert!(c.validate().is_ok());
    let ms = build_managers(&c).unwrap();
    let half: ProbeOutcome = Ok(Some(stats(4096, 1000, 500)));
    let r = ms[0].check(&half).unwrap();
    assert_eq!(r.mount_point, "/");
    assert_eq!(r.current, Ratio { num: 500, den: 1000 });
    let more: ProbeOutcome = Ok(Some(stats(4096, 100, 49)));
    match ms[0].check(&more) {
        Err(CheckError::ThresholdExceeded { mount_point, current, threshold }) => {
            assert_eq!(mount_point, "/");
            assert_eq!(current, Ratio { num: 51, den: 100 });
            assert_eq!(threshold, Decimal { negative: false, num: 50, den: 100 });
        }
        other => panic!("unexpected {:?}", other),
    }
}

#[test]
fn bogus_method_fails_validation() {
    let c = config(vec![target("/", "", "0.5"), target("/data", "bogus", "0.5")]);
    assert_eq!(c.validate(), Err(ConfigError::UnexpectedMethod("bogus".to_string())));
    assert_eq!(build_managers(&c).err(), Some(ConfigError::UnexpectedMethod("bogus".to_string())));
}

#[test]
fn config_validation_errors() {
    let mut c = config(vec![target("/", "", "0.5")]);
    c.interval = "".to_string();
    assert_eq!(c.validate(), Err(ConfigError::IllegalInterval("".to_string())));
    c.interval = "10s".to_string();
    c.logger.level = Some("LOUD".to_string());
    assert_eq!(c.validate(), Err(ConfigError::IllegalLoggerLevel("LOUD".to_string())));
    c.logger.level = Some("WARN".to_string());
    assert_eq!(c.validate(), Ok(()));
    assert_eq!(target("/", "", "x").validate(), Err(ConfigError::IllegalThreshold("x".to_string())));
}

#[test]
fn interval_parsing() {
    let c = config(vec![]);
    assert_eq!(c.interval, "10s");
    assert_eq!(c.get_interval(), Ok(Interval { secs: 10, nanos: 0 }));
    let mut c = c;
    c.interval = "1m".to_string();
    assert_eq!(c.get_interval(), Ok(Interval { secs: 60, nanos: 0 }));
    c.interval = "soon".to_string();
    assert_eq!(c.get_interval(), Err(ConfigError::IllegalInterval("soon".to_string())));
}

#[test]
fn file_configuration_overlays_defaults() {
    let toml = ApplicationToml {
        interval: None,
        targets: vec![TargetToml { mount_point: Some("/var".to_string()), check_method: None, threshold: Some("0.9".to_string()) }],
        logger: Some(LoggerToml {
            chan_size: Some(16),
            is_async: None,
            level: Some("INFO".to_string()),
            airbrake_host: None,
            airbrake_project_id: Some("7".to_string()),
            airbrake_project_key: None,
            airbrake_environment: None,
        }),
    };
    let c = ApplicationConfig::load_from_file(toml, env());
    assert_eq!(c.interval, "10s");
    assert_eq!(c.targets, vec![target("/var", "", "0.9")]);
    assert_eq!(c.logger.chan_size, Some(16));
    assert!(c.logger.is_async);
    assert_eq!(c.logger.level, Some("INFO".to_string()));
    assert_eq!(c.logger.airbrake_host, Some("host".to_string()));
    assert_eq!(c.logger.airbrake_project_id, Some("7".to_string()));
    let plain = ApplicationConfig::load_from_file(
        ApplicationToml { interval: Some("5s".to_string()), targets: vec![], logger: None },
        env(),
    );
    assert_eq!(plain.interval, "5s");
    assert_eq!(plain.logger, LoggerConfig::from_env(env()));
    assert_eq!(TargetConfig::from_env(env()), target("", "", ""));
}

#[test]
fn probe_errors_and_missing_stats() {
    let m = CheckManager::new("/mnt".to_string(), CheckMethod::from("", "0.5").unwrap());
    let missing: ProbeOutcome = Ok(None);
    assert_eq!(m.check(&missing), Err(CheckError::StatsNotFound("/mnt".to_string())));
    let failed: ProbeOutcome = Err(ProbeError { mount_point: "/mnt".to_string(), code: 3 });
    assert_eq!(m.check(&failed), Err(CheckError::Probe(ProbeError { mount_point: "/mnt".to_string(), code: 3 })));
}

#[test]
fn sweep_keeps_configured_order() {
    let c = config(vec![target("/a", "", "0.5"), target("/b", "", "0.5"), target("/c", "", "0.5")]);
    let ms = build_managers(&c).unwrap();
    let probes: Vec<ProbeOutcome> = vec![
        Ok(Some(stats(1, 10, 1))),
        Ok(None),
        Ok(Some(stats(1, 10, 9))),
    ];
    for _tick in 0..3 {
        let r = sweep(&ms, &probes);
        assert_eq!(r.len(), 3);
        assert!(matches!(&r[0], Err(CheckError::ThresholdExceeded { mount_point, .. }) if mount_point == "/a"));
        assert_eq!(r[1], Err(CheckError::StatsNotFound("/b".to_string())));
        assert!(matches!(&r[2], Ok(p) if p.mount_point == "/c"));
    }
}

#[test]
fn shutdown_while_sleeping_exits() {
    let s = LoopState::initial();
    assert!(!s.sleeps_before_tick());
    let (s, a) = s.step(LoopEvent::TimerElapsed);
    assert_eq!((s, a), (LoopState::Ticking, LoopAction::Sweep));
    assert!(s.sleeps_before_tick());
    let (s, a) = s.step(LoopEvent::Interrupt);
    assert_eq!((s, a), (LoopState::Terminating, LoopAction::Exit));
    assert!(!s.is_active());
    assert_eq!(s.step(LoopEvent::TimerElapsed), (LoopState::Terminating, LoopAction::Exit));
    assert_eq!(LoopState::Ticking.step(LoopEvent::Terminate), (LoopState::Terminating, LoopAction::Exit));
    assert_eq!(LoopState::initial().step(LoopEvent::Terminate).1, LoopAction::Exit);
}

#[test]
fn lowered_method_names() {
    let m = CheckMethod::from_lowercase("disk_capacity_rate".to_string(), "0.25").unwrap();
    assert_eq!(threshold_of(&m), Decimal { negative: false, num: 25, den: 100 });
    assert!(CheckMethod::from_lowercase(String::new(), "1").is_ok());
    // this entry point takes the name as already lowercased
    assert_eq!(
        CheckMethod::from_lowercase("CAPACITY_RATE".to_string(), "1"),
        Err(ConfigError::UnexpectedMethod("CAPACITY_RATE".to_string()))
    );
    assert_eq!(
        CheckMethod::from_lowercase("capacity_rate".to_string(), "1/2"),
        Err(ConfigError::IllegalThreshold("1/2".to_string()))
    );
}

#[test]
fn decimal_exponents() {
    assert_eq!(parse_decimal("5e-1"), Some(Decimal { negative: false, num: 5, den: 10 }));
    assert_eq!(parse_decimal("1E3"), Some(Decimal { negative: false, num: 1000, den: 1 }));
    assert_eq!(parse_decimal("1e+2"), Some(Decimal { negative: false, num: 100, den: 1 }));
    assert_eq!(parse_decimal(".5e1"), Some(Decimal { negative: false, num: 50, den: 10 }));
    assert_eq!(parse_decimal("-2.5e-0"), Some(Decimal { negative: true, num: 25, den: 10 }));
    assert_eq!(parse_decimal("0e99999999999999999999999"), Some(Decimal { negative: false, num: 0, den: 1 }));
    assert_eq!(parse_decimal("1e"), None);
    assert_eq!(parse_decimal("1e-"), None);
    assert_eq!(parse_decimal("e5"), None);
    assert_eq!(parse_decimal("2E-20"), None);
    assert_eq!(parse_decimal("1e20"), None);
    let m = CheckMethod::from("", "5e-1").unwrap();
    assert!(matches!(m.evaluate(&stats(1, 100, 49)), Verdict::Violation { .. }));
}
