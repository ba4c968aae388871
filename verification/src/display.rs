//! What a run shows on the console: the introduction, one line per probe,
//! and the summary table with one row per target.

use crate::report::{Report, TargetRun, TargetRunView};
use crate::sample::Latency;
use crate::stats::{compute_stats, loss_hundredths_of, stats_of, Stats, StatsView};
use crate::target::{Target, TargetView};
use crate::text::{decimal, decimal_text, pad_left, right_aligned, zero_padded, zero_padded_text};
use vstd::prelude::*;

verus! {

/// The texts of a list of strings, in order.
pub open spec fn cell_texts(cells: Seq<String>) -> Seq<Seq<char>> {
    cells.map_values(|cell: String| cell@)
}

/// The texts of a list of rows, in order.
pub open spec fn row_texts(rows: Seq<Vec<String>>) -> Seq<Seq<Seq<char>>> {
    rows.map_values(|row: Vec<String>| cell_texts(row@))
}

/// Number of columns of the summary table.
pub const SUMMARY_COLUMNS: usize = 8;

/// The column titles of the summary table.
pub open spec fn summary_header() -> Seq<Seq<char>> {
    seq![
        "IP"@,
        "Host"@,
        "Pings"@,
        "Packet Loss"@,
        "Min"@,
        "Median"@,
        "95% Percentile"@,
        "Max"@,
    ]
}

/// A latency cell: the milliseconds right-aligned in four characters and
/// the unit, or a dash where there is no data.
pub open spec fn millis_cell(ms: Option<u32>) -> Seq<char> {
    match ms {
        Some(v) => pad_left(decimal(v as nat), 4, ' ') + " ms"@,
        None => "-"@,
    }
}

/// Hundredths written as a number with two decimal places.
pub open spec fn two_decimals(hundredths: nat) -> Seq<char> {
    decimal(hundredths / 100) + "."@ + zero_padded(hundredths % 100, 2)
}

/// The packet-loss cell: the lost share of the probes as a percentage with
/// two decimal places, right-aligned in six characters, or a dash where no
/// probe was sent.
pub open spec fn loss_cell(stats: StatsView) -> Seq<char> {
    if stats.sample_count == 0 {
        "-"@
    } else {
        pad_left(two_decimals(loss_hundredths_of(stats.lost(), stats.sample_count)), 6, ' ')
            + " %"@
    }
}

/// The summary row of one target: address, host name, number of probes,
/// packet loss, and least, median, 95th-percentile and greatest latency.
pub open spec fn summary_row_of(run: TargetRunView) -> Seq<Seq<char>> {
    let stats = stats_of(run.samples);
    let least = match stats.latency {
        Some(l) => Some(l.min),
        None => None,
    };
    let median = match stats.latency {
        Some(l) => Some(l.median),
        None => None,
    };
    let p95 = match stats.latency {
        Some(l) => Some(l.p95),
        None => None,
    };
    let greatest = match stats.latency {
        Some(l) => Some(l.max),
        None => None,
    };
    seq![
        run.target.address.text,
        run.target.host_name(),
        decimal(stats.sample_count),
        loss_cell(stats),
        millis_cell(least),
        millis_cell(median),
        millis_cell(p95),
        millis_cell(greatest),
    ]
}

/// The summary rows of a report: one per target, in target order.
pub open spec fn summary_rows_of(targets: Seq<TargetRunView>) -> Seq<Seq<Seq<char>>> {
    targets.map_values(|run: TargetRunView| summary_row_of(run))
}

/// The line shown for one probe: the address right-aligned in fifteen
/// characters and the latency right-aligned in four. A probe without an
/// answer shows the sentinel value.
pub open spec fn reply_line_of(address: Seq<char>, latency: Latency) -> Seq<char> {
    "Reply from "@ + pad_left(address, 15, ' ') + ": "@ + pad_left(
        decimal(latency.wire() as nat),
        4,
        ' ',
    ) + " ms"@
}

/// The first line of the introduction.
pub open spec fn intro_heading(targets: nat, interval_ms: u32, duration_s: u32) -> Seq<char> {
    "Pinging "@ + decimal(targets) + " target(s) every "@ + decimal(interval_ms as nat)
        + "ms for the next "@ + decimal(duration_s as nat) + "s:"@
}

/// The introduction: the heading, then every target, indented.
pub open spec fn intro_lines_of(targets: Seq<TargetView>, interval_ms: u32, duration_s: u32) -> Seq<
    Seq<char>,
> {
    seq![intro_heading(targets.len(), interval_ms, duration_s)] + targets.map_values(
        |target: TargetView| "    "@ + target.text(),
    )
}

/// Writes the column titles of the summary table.
pub fn header_cells() -> (cells: Vec<String>)
    ensures
        cell_texts(cells@) == summary_header(),
{
    let mut cells: Vec<String> = Vec::new();
    cells.push(String::from_str("IP"));
    cells.push(String::from_str("Host"));
    cells.push(String::from_str("Pings"));
    cells.push(String::from_str("Packet Loss"));
    cells.push(String::from_str("Min"));
    cells.push(String::from_str("Median"));
    cells.push(String::from_str("95% Percentile"));
    cells.push(String::from_str("Max"));
    assert(cell_texts(cells@) =~= summary_header());
    cells
}

/// Writes a latency cell.
pub fn millis_cell_text(ms: Option<u32>) -> (cell: String)
    ensures
        cell@ == millis_cell(ms),
{
    match ms {
        Some(v) => {
            let digits = decimal_text(v as u64);
            let mut cell = right_aligned(digits.as_str(), 4, false);
            cell.append(" ms");
            cell
        },
        None => String::from_str("-"),
    }
}

/// Writes the packet-loss cell.
pub fn loss_cell_text(stats: &Stats) -> (cell: String)
    ensures
        cell@ == loss_cell(stats@),
{
    match stats.loss_hundredths() {
        Some(h) => {
            let mut number = decimal_text((h / 100) as u64);
            number.append(".");
            let cents = zero_padded_text((h % 100) as u64, 2);
            number.append(cents.as_str());
            let mut cell = right_aligned(number.as_str(), 6, false);
            cell.append(" %");
            cell
        },
        None => String::from_str("-"),
    }
}

/// Writes the summary row of one target.
pub fn summary_row(run: &TargetRun) -> (cells: Vec<String>)
    ensures
        cell_texts(cells@) == summary_row_of(run@),
        cells.len() == SUMMARY_COLUMNS,
{
    let stats = compute_stats(run);
    let mut cells: Vec<String> = Vec::new();
    cells.push(run.target.address.text.clone());
    cells.push(run.target.host_name());
    cells.push(decimal_text(stats.sample_count() as u64));
    cells.push(loss_cell_text(&stats));
    match stats.latency() {
        Some(l) => {
            cells.push(millis_cell_text(Some(l.min)));
            cells.push(millis_cell_text(Some(l.median)));
            cells.push(millis_cell_text(Some(l.p95)));
            cells.push(millis_cell_text(Some(l.max)));
        },
        None => {
            cells.push(millis_cell_text(None));
            cells.push(millis_cell_text(None));
            cells.push(millis_cell_text(None));
            cells.push(millis_cell_text(None));
        },
    }
    assert(cell_texts(cells@) =~= summary_row_of(run@));
    cells
}

/// Writes the summary rows of a report, one per target, in target order.
pub fn summary_rows(report: &Report) -> (rows: Vec<Vec<String>>)
    ensures
        row_texts(rows@) == summary_rows_of(report@.targets),
        forall|i: int| 0 <= i < rows.len() ==> (#[trigger] rows[i]).len() == SUMMARY_COLUMNS,
{
    let mut rows: Vec<Vec<String>> = Vec::new();
    let mut i: usize = 0;
    while i < report.targets.len()
        invariant
            i <= report.targets.len(),
            rows.len() == i,
            forall|k: int| 0 <= k < i ==> cell_texts(#[trigger] rows[k]@) == summary_row_of(
                report.targets[k]@,
            ),
            forall|k: int| 0 <= k < rows.len() ==> (#[trigger] rows[k]).len() == SUMMARY_COLUMNS,
        decreases report.targets.len() - i,
    {
        rows.push(summary_row(&report.targets[i]));
        i = i + 1;
    }
    assert(row_texts(rows@) =~= summary_rows_of(report@.targets));
    rows
}

/// Writes the line shown for one probe, where probes are to be shown.
pub fn reply_line(display_pings: bool, target: &Target, reply: Option<u32>) -> (line: Option<
    String,
>)
    ensures
        line is Some <==> display_pings,
        line matches Some(text) ==> text@ == reply_line_of(
            target@.address.text,
            Latency::of_reply(reply),
        ),
{
    if !display_pings {
        return None;
    }
    let latency = Latency::from_reply(reply);
    let mut line = String::from_str("Reply from ");
    let name = right_aligned(target.address.text.as_str(), 15, false);
    line.append(name.as_str());
    line.append(": ");
    let digits = decimal_text(latency.to_wire() as u64);
    let millis = right_aligned(digits.as_str(), 4, false);
    line.append(millis.as_str());
    line.append(" ms");
    Some(line)
}

/// Writes the introduction: how many targets are probed, how often and for
/// how long, then one line per target.
pub fn intro_lines(targets: &Vec<Target>, interval_ms: u32, duration_s: u32) -> (lines: Vec<
    String,
>)
    ensures
        cell_texts(lines@) == intro_lines_of(
            targets@.map_values(|target: Target| target@),
            interval_ms,
            duration_s,
        ),
{
    let mut heading = String::from_str("Pinging ");
    heading.append(decimal_text(targets.len() as u64).as_str());
    heading.append(" target(s) every ");
    heading.append(decimal_text(interval_ms as u64).as_str());
    heading.append("ms for the next ");
    heading.append(decimal_text(duration_s as u64).as_str());
    heading.append("s:");
    let mut lines: Vec<String> = Vec::new();
    lines.push(heading);
    let mut i: usize = 0;
    while i < targets.len()
        invariant
            i <= targets.len(),
            lines.len() == i + 1,
            lines[0]@ == intro_heading(targets@.len(), interval_ms, duration_s),
            forall|k: int| 0 <= k < i ==> (#[trigger] lines[k + 1])@ == "    "@ + targets[k]@.text(),
        decreases targets.len() - i,
    {
        let mut line = String::from_str("    ");
        line.append(targets[i].to_string().as_str());
        lines.push(line);
        i = i + 1;
    }
    proof {
        let views = targets@.map_values(|target: Target| target@);
        let expected = intro_lines_of(views, interval_ms, duration_s);
        assert(expected.len() == lines.len());
        assert forall|k: int| 0 <= k < lines.len() implies cell_texts(lines@)[k] == expected[k] by {
            if k > 0 {
                assert(lines[(k - 1) + 1]@ == "    "@ + targets[k - 1]@.text());
            }
        }
        assert(cell_texts(lines@) =~= expected);
    }
    lines
}

/// The text that the `tabled` crate lays out in its `modern` style for a
/// table with the column titles `header` and the rows `rows`.
pub uninterp spec fn table_text(header: Seq<Seq<char>>, rows: Seq<Seq<Seq<char>>>) -> Seq<char>;

/// Lays out a table with `tabled`: a `Builder` is filled with the rows,
/// given the column titles, built, styled with `Style::modern` and written
/// to a string. The layout depends on the cell texts alone; what it looks
/// like is not stated here, only that it is `table_text` of them.
#[verifier::external_body]
fn render_table(header: &Vec<String>, rows: &Vec<Vec<String>>) -> (text: String)
    requires
        header.len() == SUMMARY_COLUMNS,
        forall|i: int| 0 <= i < rows.len() ==> (#[trigger] rows[i]).len() == SUMMARY_COLUMNS,
    ensures
        text@ == table_text(cell_texts(header@), row_texts(rows@)),
{
    let mut builder = tabled::builder::Builder::from(rows.clone());
    builder.set_columns(header);
    builder.build().with(tabled::Style::modern()).to_string()
}

/// Writes the summary table of a report: the column titles and one row per
/// target, laid out as an aligned table.
pub fn summary_table(report: &Report) -> (text: String)
    ensures
        text@ == table_text(summary_header(), summary_rows_of(report@.targets)),
{
    let header = header_cells();
    let rows = summary_rows(report);
    assert(header@.len() == cell_texts(header@).len());
    render_table(&header, &rows)
}

} // verus!
