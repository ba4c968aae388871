use pingstat::coordinator::{assemble_report, start_probers, RunConfig};
use pingstat::prober::{FinishedProber, Prober, Tick};
use pingstat::sample::{Latency, Sample};
use pingstat::schedule::Schedule;
use pingstat::stamp::LocalStamp;
use pingstat::target::{Address, IpFamily, Target};

fn named(text: &str, name: &str) -> Target {
    Target {
        address: Address { family: IpFamily::V4, text: String::from(text) },
        display_name: Some(String::from(name)),
    }
}

fn finish(prober: Prober, replies: &[Option<u32>]) -> FinishedProber {
    let mut prober = prober;
    let mut now = 0u64;
    for reply in replies {
        let probe = match prober.begin_tick(now) {
            Tick::Probe(probe) => probe,
            Tick::Finished(_) => panic!("the run ended early"),
        };
        let recorded = probe.record(*reply, now + 1);
        now = now + 1 + recorded.sleep_ns;
        prober = recorded.prober;
    }
    match prober.begin_tick(u64::MAX) {
        Tick::Finished(done) => done,
        Tick::Probe(_) => panic!("the run did not end"),
    }
}

#[test]
fn default_settings() {
    let config = RunConfig::default();
    assert_eq!(
        config,
        RunConfig {
            interval_ms: 500,
            duration_s: 30,
            timeout_ms: 1000,
            display_intro: true,
            display_summary: true,
            display_pings: false,
        }
    );
    assert_eq!(config.schedule(), Schedule { interval_ms: 500, duration_s: 30 });
}

#[test]
fn one_prober_per_target_in_order() {
    let config = RunConfig { interval_ms: 100, duration_s: 1, ..RunConfig::default() };
    let targets = vec![named("192.0.2.1", "a"), named("192.0.2.2", "b"), named("192.0.2.3", "c")];
    let probers = start_probers(&config, &targets);
    assert_eq!(probers.len(), 3);
    for (prober, target) in probers.into_iter().zip(targets.iter()) {
        assert_eq!(prober.not_before_ns(), 0);
        match prober.begin_tick(999_999_999) {
            Tick::Probe(probe) => assert_eq!(probe.target(), target),
            Tick::Finished(_) => panic!("the run lasts one second"),
        }
    }
    assert!(start_probers(&config, &vec![]).is_empty());
}

#[test]
fn probers_share_the_end_of_the_run() {
    let config = RunConfig { interval_ms: 100, duration_s: 1, ..RunConfig::default() };
    let targets = vec![named("192.0.2.1", "a"), named("192.0.2.2", "b")];
    for prober in start_probers(&config, &targets) {
        assert!(matches!(prober.begin_tick(1_000_000_000), Tick::Finished(_)));
    }
}

#[test]
fn report_keeps_target_order_and_settings() {
    let config = RunConfig { interval_ms: 250, duration_s: 7, ..RunConfig::default() };
    let targets = vec![named("192.0.2.2", "b"), named("192.0.2.1", "a")];
    let mut probers = start_probers(&config, &targets);
    let second = finish(probers.pop().unwrap(), &[None]);
    let first = finish(probers.pop().unwrap(), &[Some(4), Some(6)]);
    let start = LocalStamp::new(2022, 8, 1, 9, 5, 3, 0, 7200).unwrap();
    let report = assemble_report(&config, &start, vec![first, second]);
    assert_eq!(report.start_time, "2022-08-01T09:05:03+02:00");
    assert_eq!(report.duration, 7);
    assert_eq!(report.interval, 250);
    assert_eq!(report.targets.len(), 2);
    assert_eq!(report.targets[0].target, targets[0]);
    assert_eq!(
        report.targets[0].samples,
        vec![
            Sample { offset_ms: 0, latency: Latency::Answered(4) },
            Sample { offset_ms: 250, latency: Latency::Answered(6) },
        ]
    );
    assert_eq!(report.targets[1].target, targets[1]);
    assert_eq!(
        report.targets[1].samples,
        vec![Sample { offset_ms: 0, latency: Latency::TimedOut }]
    );
}

#[test]
fn report_without_targets() {
    let config = RunConfig::default();
    let start = LocalStamp::new(2022, 8, 1, 9, 5, 3, 0, 0).unwrap();
    let report = assemble_report(&config, &start, vec![]);
    assert!(report.targets.is_empty());
    assert_eq!(report.duration, 30);
    assert_eq!(report.interval, 500);
    assert_eq!(report.start_time, "2022-08-01T09:05:03+00:00");
}
