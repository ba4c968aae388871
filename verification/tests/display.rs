use pingstat::display::{
    header_cells, intro_lines, loss_cell_text, millis_cell_text, reply_line, summary_row,
    summary_rows, summary_table,
};
use pingstat::report::{Report, TargetRun};
use pingstat::sample::{Latency, Sample};
use pingstat::stats::compute_stats;
use pingstat::target::{Address, IpFamily, Target};

fn host(text: &str, name: Option<&str>) -> Target {
    Target {
        address: Address { family: IpFamily::V4, text: String::from(text) },
        display_name: name.map(String::from),
    }
}

fn run_with(target: Target, latencies: &[Option<u32>]) -> TargetRun {
    let mut samples = Vec::new();
    for (i, latency) in latencies.iter().enumerate() {
        samples.push(Sample {
            offset_ms: 100 * i as u64,
            latency: match latency {
                Some(ms) => Latency::Answered(*ms),
                None => Latency::TimedOut,
            },
        });
    }
    TargetRun { target, samples }
}

fn report_of(targets: Vec<TargetRun>) -> Report {
    Report { start_time: String::from("2022-08-01T09:05:03+02:00"), duration: 1, interval: 100, targets }
}

#[test]
fn header_titles() {
    assert_eq!(
        header_cells(),
        vec!["IP", "Host", "Pings", "Packet Loss", "Min", "Median", "95% Percentile", "Max"]
    );
}

#[test]
fn latency_cells() {
    assert_eq!(millis_cell_text(Some(10)), "  10 ms");
    assert_eq!(millis_cell_text(Some(0)), "   0 ms");
    assert_eq!(millis_cell_text(Some(9999)), "9999 ms");
    assert_eq!(millis_cell_text(Some(12345)), "12345 ms");
    assert_eq!(millis_cell_text(None), "-");
}

#[test]
fn loss_cells() {
    let cell = |latencies: &[Option<u32>]| {
        loss_cell_text(&compute_stats(&run_with(host("192.0.2.1", None), latencies)))
    };
    assert_eq!(cell(&[Some(1), Some(1)]), "  0.00 %");
    assert_eq!(cell(&[Some(1), None]), " 50.00 %");
    assert_eq!(cell(&[None, None]), "100.00 %");
    assert_eq!(cell(&[None, Some(1), Some(1)]), " 33.33 %");
    assert_eq!(cell(&[None, None, Some(1)]), " 66.67 %");
    assert_eq!(cell(&[]), "-");
    let mut hundred = vec![Some(1); 99];
    hundred.push(None);
    assert_eq!(cell(&hundred), "  1.00 %");
    let mut twenty = vec![Some(1); 380];
    twenty.extend(vec![None; 20]);
    assert_eq!(cell(&twenty), "  5.00 %");
}

#[test]
fn steady_target_row() {
    let run = run_with(host("192.0.2.1", Some("example.org")), &[Some(10); 10]);
    assert_eq!(
        summary_row(&run),
        vec![
            "192.0.2.1",
            "example.org",
            "10",
            "  0.00 %",
            "  10 ms",
            "  10 ms",
            "  10 ms",
            "  10 ms"
        ]
    );
}

#[test]
fn silent_target_row() {
    let run = run_with(host("192.0.2.9", None), &[None; 10]);
    assert_eq!(
        summary_row(&run),
        vec!["192.0.2.9", "", "10", "100.00 %", "-", "-", "-", "-"]
    );
}

#[test]
fn empty_target_row() {
    let run = run_with(host("192.0.2.9", None), &[]);
    assert_eq!(summary_row(&run), vec!["192.0.2.9", "", "0", "-", "-", "-", "-", "-"]);
}

#[test]
fn rows_follow_target_order() {
    let report = report_of(vec![
        run_with(host("192.0.2.2", Some("b")), &[Some(3), Some(1), None, Some(2)]),
        run_with(host("192.0.2.1", Some("a")), &[None]),
    ]);
    assert_eq!(
        summary_rows(&report),
        vec![
            vec!["192.0.2.2", "b", "4", " 25.00 %", "   1 ms", "   2 ms", "   3 ms", "   3 ms"],
            vec!["192.0.2.1", "a", "1", "100.00 %", "-", "-", "-", "-"],
        ]
    );
    assert_eq!(summary_rows(&report_of(vec![])), Vec::<Vec<String>>::new());
}

#[test]
fn summary_is_an_aligned_table() {
    let report = report_of(vec![
        run_with(host("192.0.2.1", Some("example.org")), &[Some(10), None, Some(5)]),
        TargetRun {
            target: Target {
                address: Address { family: IpFamily::V6, text: String::from("2001:db8::1") },
                display_name: None,
            },
            samples: vec![Sample { offset_ms: 0, latency: Latency::TimedOut }],
        },
    ]);
    let expected = [
        "┌─────────────┬─────────────┬───────┬─────────────┬─────────┬─────────┬────────────────┬─────────┐",
        "│ IP          │ Host        │ Pings │ Packet Loss │ Min     │ Median  │ 95% Percentile │ Max     │",
        "├─────────────┼─────────────┼───────┼─────────────┼─────────┼─────────┼────────────────┼─────────┤",
        "│ 192.0.2.1   │ example.org │ 3     │  33.33 %    │    5 ms │   10 ms │   10 ms        │   10 ms │",
        "├─────────────┼─────────────┼───────┼─────────────┼─────────┼─────────┼────────────────┼─────────┤",
        "│ 2001:db8::1 │             │ 1     │ 100.00 %    │ -       │ -       │ -              │ -       │",
        "└─────────────┴─────────────┴───────┴─────────────┴─────────┴─────────┴────────────────┴─────────┘",
    ]
    .join("\n");
    assert_eq!(summary_table(&report), expected);
}

#[test]
fn summary_without_targets_is_the_header() {
    let expected = [
        "┌────┬──────┬───────┬─────────────┬─────┬────────┬────────────────┬─────┐",
        "│ IP │ Host │ Pings │ Packet Loss │ Min │ Median │ 95% Percentile │ Max │",
        "└────┴──────┴───────┴─────────────┴─────┴────────┴────────────────┴─────┘",
    ]
    .join("\n");
    assert_eq!(summary_table(&report_of(vec![])), expected);
}

#[test]
fn probe_line_for_an_answer() {
    assert_eq!(
        reply_line(true, &host("127.0.0.1", None), Some(10)),
        Some(String::from("Reply from       127.0.0.1:   10 ms"))
    );
    assert_eq!(
        reply_line(true, &host("203.0.113.255", Some("far")), Some(12345)),
        Some(String::from("Reply from   203.0.113.255: 12345 ms"))
    );
}

#[test]
fn probe_line_for_a_timeout_shows_the_sentinel() {
    assert_eq!(
        reply_line(true, &host("127.0.0.1", None), None),
        Some(String::from("Reply from       127.0.0.1: 4294967295 ms"))
    );
}

#[test]
fn probe_line_is_off_by_default() {
    assert_eq!(reply_line(false, &host("127.0.0.1", None), Some(10)), None);
    assert_eq!(reply_line(false, &host("127.0.0.1", None), None), None);
}

#[test]
fn introduction_lists_the_targets() {
    let targets = vec![host("93.184.216.34", Some("example.org")), host("10.0.0.1", None)];
    assert_eq!(
        intro_lines(&targets, 500, 30),
        vec![
            "Pinging 2 target(s) every 500ms for the next 30s:",
            "    example.org (93.184.216.34)",
            "    10.0.0.1",
        ]
    );
}

#[test]
fn introduction_without_targets() {
    assert_eq!(
        intro_lines(&vec![], 0, 4_294_967_295),
        vec!["Pinging 0 target(s) every 0ms for the next 4294967295s:"]
    );
}
