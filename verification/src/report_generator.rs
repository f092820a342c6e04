//! The layout of a run's reports: which files are written under `reports/`, where they
//! are archived, and the texts of the markdown reports and chart captions.

use vstd::prelude::*;
use crate::metrics_collector::AppMetrics;
use crate::text::{decimal, decimal_text, is_ascii_digit};

verus! {

/// The directory that holds the reports of the latest run.
pub open spec fn reports_dir_spec() -> Seq<char> {
    "reports"@
}

/// The `chrono` format of a run's id: local date and time, `YYYYmmdd_HHMMSS`.
pub open spec fn run_id_format_spec() -> Seq<char> {
    "%Y%m%d_%H%M%S"@
}

/// The value of the two ASCII digits of `s` at `i` and `i + 1`.
pub open spec fn two_digit_value(s: Seq<char>, i: int) -> int {
    ((s[i] as u32) - 48) * 10 + ((s[i + 1] as u32) - 48)
}

/// How `chrono` writes a year for `%Y`: four digits for the years 0 to 9999, else a
/// sign followed by at least four digits.
pub open spec fn is_year_text(y: Seq<char>) -> bool {
    ||| y.len() == 4 && (forall|i: int| 0 <= i < 4 ==> is_ascii_digit(#[trigger] y[i]))
    ||| y.len() >= 5 && (y[0] == '+' || y[0] == '-') && (forall|i: int|
        1 <= i < y.len() ==> is_ascii_digit(#[trigger] y[i]))
}

/// A local date and time written in the run-id format `%Y%m%d_%H%M%S`: the year, then
/// two digits each for month (01 to 12) and day (01 to 31), an underscore, and two
/// digits each for hour (00 to 23), minute (00 to 59) and second (00 to 60, for a leap
/// second).
pub open spec fn is_run_id_text(s: Seq<char>) -> bool {
    let n = s.len() as int;
    &&& n >= 15
    &&& is_year_text(s.take(n - 11))
    &&& forall|i: int| n - 11 <= i < n && i != n - 7 ==> is_ascii_digit(#[trigger] s[i])
    &&& s[n - 7] == '_'
    &&& 1 <= two_digit_value(s, n - 11) <= 12
    &&& 1 <= two_digit_value(s, n - 9) <= 31
    &&& two_digit_value(s, n - 6) <= 23
    &&& two_digit_value(s, n - 4) <= 59
    &&& two_digit_value(s, n - 2) <= 60
}

/// `text` is the local date and time of some reading of the system clock, written in
/// the run-id format. Which reading, and the machine's time zone, are not fixed by
/// this relation.
pub uninterp spec fn local_time_reading(text: Seq<char>) -> bool;

/// `chrono::Local::now` formatted with `format`, which is the run-id format (a format
/// `chrono` cannot render panics in `to_string`). Every outcome is the local date and
/// time of the clock's reading, in that format; which date and time rests on the clock
/// and the machine's time zone and is not stated.
#[verifier::external_body]
fn local_time_text(format: &str) -> (r: String)
    requires
        format@ == run_id_format_spec(),
    ensures
        local_time_reading(r@),
        is_run_id_text(r@),
{
    chrono::Local::now().format(format).to_string()
}

/// Lays out the reports of one run, identified by its id.
pub struct ReportGenerator {
    run_id: String,
}

impl View for ReportGenerator {
    type V = Seq<char>;

    /// The run's id.
    closed spec fn view(&self) -> Seq<char> {
        self.run_id@
    }
}

impl ReportGenerator {
    /// A generator for a run identified by the local date and time, written
    /// `YYYYmmdd_HHMMSS`.
    pub fn new() -> (g: Self)
        ensures
            local_time_reading(g@),
            is_run_id_text(g@),
    {
        let format = "%Y%m%d_%H%M%S";
        proof {
            reveal_strlit("%Y%m%d_%H%M%S");
        }
        Self::from_run_id(local_time_text(format))
    }

    /// A generator for the run identified by `run_id`.
    pub fn from_run_id(run_id: String) -> (g: Self)
        ensures
            g@ == run_id@,
    {
        ReportGenerator { run_id }
    }

    /// The run's id.
    pub fn run_id(&self) -> (id: &str)
        ensures
            id@ == self@,
    {
        self.run_id.as_str()
    }

    /// The directory that archives this run's reports: `report_history/<run id>`.
    pub fn history_dir(&self) -> (d: String)
        ensures
            d@ == "report_history/"@ + self@,
    {
        let mut d = String::from_str("report_history/");
        d.append(self.run_id.as_str());
        d
    }
}

/// The directory that holds the reports of the latest run.
pub fn reports_dir() -> (d: String)
    ensures
        d@ == reports_dir_spec(),
{
    String::from_str("reports")
}

/// The path of a report file in the reports directory.
pub fn report_path(file_name: &str) -> (p: String)
    ensures
        p@ == reports_dir_spec() + "/"@ + file_name@,
{
    let mut p = reports_dir();
    p.append("/");
    p.append(file_name);
    p
}

/// The quantity a comparison chart shows.
#[derive(Clone, Copy, Debug, PartialEq, Eq, Structural)]
pub enum ChartMetric {
    Cpu,
    Ram,
    DiskRead,
    DiskWrite,
    Gpu,
    Network,
}

/// A file that the report step writes into the reports directory.
#[derive(Clone, Copy, Debug, PartialEq, Eq, Structural)]
pub enum Artifact {
    /// The markdown report of the first application.
    App1Report,
    /// The markdown report of the second application.
    App2Report,
    /// The markdown comparison of both applications.
    Comparison,
    /// Every record of both applications, as JSON.
    FullReport,
    /// A bar chart of one quantity.
    Chart(ChartMetric),
}

/// The caption of a chart before its verdict.
pub open spec fn chart_title_spec(m: ChartMetric) -> Seq<char> {
    match m {
        ChartMetric::Cpu => "CPU Usage (%)"@,
        ChartMetric::Ram => "RAM Usage (MB)"@,
        ChartMetric::DiskRead => "Disk Read (B/s)"@,
        ChartMetric::DiskWrite => "Disk Write (B/s)"@,
        ChartMetric::Gpu => "GPU Usage (%)"@,
        ChartMetric::Network => "Network Usage (B/s)"@,
    }
}

/// Whether a chart's value axis is fixed to 0..100, as for a percentage.
pub open spec fn percent_scale_spec(m: ChartMetric) -> bool {
    m == ChartMetric::Cpu || m == ChartMetric::Gpu
}

/// Only the CPU and GPU charts have their value axis fixed to 0..100; the RAM, disk and
/// network charts scale it to their data.
pub proof fn lemma_percent_scale_only_for_percentages(m: ChartMetric)
    ensures
        percent_scale_spec(m) <==> (m is Cpu || m is Gpu),
        !percent_scale_spec(ChartMetric::Ram),
        !percent_scale_spec(ChartMetric::DiskRead),
        !percent_scale_spec(ChartMetric::DiskWrite),
        !percent_scale_spec(ChartMetric::Network),
{
}

/// The file name of an artifact in the reports directory.
pub open spec fn artifact_file_spec(a: Artifact) -> Seq<char> {
    match a {
        Artifact::App1Report => "app1_report.md"@,
        Artifact::App2Report => "app2_report.md"@,
        Artifact::Comparison => "comparison.md"@,
        Artifact::FullReport => "full_report.json"@,
        Artifact::Chart(ChartMetric::Cpu) => "cpu_comparison.png"@,
        Artifact::Chart(ChartMetric::Ram) => "ram_comparison.png"@,
        Artifact::Chart(ChartMetric::DiskRead) => "disk_read_comparison.png"@,
        Artifact::Chart(ChartMetric::DiskWrite) => "disk_write_comparison.png"@,
        Artifact::Chart(ChartMetric::Gpu) => "gpu_comparison.png"@,
        Artifact::Chart(ChartMetric::Network) => "network_comparison.png"@,
    }
}

/// The charts of a run, in the order they are drawn.
pub open spec fn chart_metrics_spec() -> Seq<ChartMetric> {
    seq![
        ChartMetric::Cpu,
        ChartMetric::Ram,
        ChartMetric::DiskRead,
        ChartMetric::DiskWrite,
        ChartMetric::Gpu,
        ChartMetric::Network,
    ]
}

/// The artifacts copied into a run's history directory, in the order they are copied.
pub open spec fn archived_artifacts_spec() -> Seq<Artifact> {
    seq![
        Artifact::App1Report,
        Artifact::App2Report,
        Artifact::Comparison,
        Artifact::FullReport,
        Artifact::Chart(ChartMetric::Cpu),
        Artifact::Chart(ChartMetric::Ram),
        Artifact::Chart(ChartMetric::DiskRead),
        Artifact::Chart(ChartMetric::DiskWrite),
        Artifact::Chart(ChartMetric::Gpu),
        Artifact::Chart(ChartMetric::Network),
    ]
}

/// Where an archived artifact is copied from and to, for the run `run_id`.
pub open spec fn copy_step_spec(run_id: Seq<char>, a: Artifact) -> (Seq<char>, Seq<char>) {
    (
        reports_dir_spec() + "/"@ + artifact_file_spec(a),
        "report_history/"@ + run_id + "/"@ + artifact_file_spec(a),
    )
}

impl ChartMetric {
    /// The caption of the chart before its verdict.
    pub fn title(&self) -> (t: String)
        ensures
            t@ == chart_title_spec(*self),
    {
        match self {
            ChartMetric::Cpu => String::from_str("CPU Usage (%)"),
            ChartMetric::Ram => String::from_str("RAM Usage (MB)"),
            ChartMetric::DiskRead => String::from_str("Disk Read (B/s)"),
            ChartMetric::DiskWrite => String::from_str("Disk Write (B/s)"),
            ChartMetric::Gpu => String::from_str("GPU Usage (%)"),
            ChartMetric::Network => String::from_str("Network Usage (B/s)"),
        }
    }

    /// Whether the chart's value axis is fixed to 0..100.
    pub fn percent_scale(&self) -> (b: bool)
        ensures
            b == percent_scale_spec(*self),
            b <==> (*self is Cpu || *self is Gpu),
    {
        match self {
            ChartMetric::Cpu | ChartMetric::Gpu => true,
            _ => false,
        }
    }
}

impl Artifact {
    /// The artifact's file name in the reports directory.
    pub fn file_name(&self) -> (f: String)
        ensures
            f@ == artifact_file_spec(*self),
    {
        match self {
            Artifact::App1Report => String::from_str("app1_report.md"),
            Artifact::App2Report => String::from_str("app2_report.md"),
            Artifact::Comparison => String::from_str("comparison.md"),
            Artifact::FullReport => String::from_str("full_report.json"),
            Artifact::Chart(ChartMetric::Cpu) => String::from_str("cpu_comparison.png"),
            Artifact::Chart(ChartMetric::Ram) => String::from_str("ram_comparison.png"),
            Artifact::Chart(ChartMetric::DiskRead) => String::from_str("disk_read_comparison.png"),
            Artifact::Chart(ChartMetric::DiskWrite) => String::from_str("disk_write_comparison.png"),
            Artifact::Chart(ChartMetric::Gpu) => String::from_str("gpu_comparison.png"),
            Artifact::Chart(ChartMetric::Network) => String::from_str("network_comparison.png"),
        }
    }

    /// The artifact's path: `reports/<file name>`.
    pub fn path(&self) -> (p: String)
        ensures
            p@ == reports_dir_spec() + "/"@ + artifact_file_spec(*self),
    {
        let name = self.file_name();
        report_path(name.as_str())
    }
}

/// The six charts of a run, in the order they are drawn.
pub fn chart_metrics() -> (v: Vec<ChartMetric>)
    ensures
        v@ == chart_metrics_spec(),
{
    let v = vec![
        ChartMetric::Cpu,
        ChartMetric::Ram,
        ChartMetric::DiskRead,
        ChartMetric::DiskWrite,
        ChartMetric::Gpu,
        ChartMetric::Network,
    ];
    assert(v@ =~= chart_metrics_spec());
    v
}

/// The artifacts archived after a run, in the order they are copied.
pub fn archived_artifacts() -> (v: Vec<Artifact>)
    ensures
        v@ == archived_artifacts_spec(),
{
    let v = vec![
        Artifact::App1Report,
        Artifact::App2Report,
        Artifact::Comparison,
        Artifact::FullReport,
        Artifact::Chart(ChartMetric::Cpu),
        Artifact::Chart(ChartMetric::Ram),
        Artifact::Chart(ChartMetric::DiskRead),
        Artifact::Chart(ChartMetric::DiskWrite),
        Artifact::Chart(ChartMetric::Gpu),
        Artifact::Chart(ChartMetric::Network),
    ];
    assert(v@ =~= archived_artifacts_spec());
    v
}

impl ReportGenerator {
    /// The copies that archive a run: for each archived artifact, in order, its path in
    /// the reports directory and its path in the run's history directory.
    pub fn copy_plan(&self) -> (plan: Vec<(String, String)>)
        ensures
            plan@.len() == archived_artifacts_spec().len(),
            forall|i: int|
                0 <= i < plan@.len() ==> (#[trigger] plan@[i].0@, plan@[i].1@) == copy_step_spec(
                    self@,
                    archived_artifacts_spec()[i],
                ),
    {
        let artifacts = archived_artifacts();
        let history = self.history_dir();
        let mut plan: Vec<(String, String)> = Vec::new();
        let mut i: usize = 0;
        while i < artifacts.len()
            invariant
                artifacts@ == archived_artifacts_spec(),
                history@ == "report_history/"@ + self@,
                i <= artifacts@.len(),
                plan@.len() == i,
                forall|j: int|
                    0 <= j < i ==> (#[trigger] plan@[j].0@, plan@[j].1@) == copy_step_spec(
                        self@,
                        archived_artifacts_spec()[j],
                    ),
            decreases artifacts@.len() - i,
        {
            let a = artifacts[i];
            let name = a.file_name();
            let from = a.path();
            let mut to = history.clone();
            to.append("/");
            to.append(name.as_str());
            assert(to@ == "report_history/"@ + self@ + "/"@ + artifact_file_spec(a));
            plan.push((from, to));
            i = i + 1;
        }
        plan
    }
}

/// Every file the report step can write is archived: each artifact, and each chart
/// the run draws, is among the archived artifacts.
pub proof fn lemma_every_artifact_archived(a: Artifact)
    ensures
        archived_artifacts_spec().contains(a),
        forall|i: int| 0 <= i < chart_metrics_spec().len() ==>
            archived_artifacts_spec().contains(Artifact::Chart(#[trigger] chart_metrics_spec()[i])),
{
    let s = archived_artifacts_spec();
    match a {
        Artifact::App1Report => assert(s[0] == a),
        Artifact::App2Report => assert(s[1] == a),
        Artifact::Comparison => assert(s[2] == a),
        Artifact::FullReport => assert(s[3] == a),
        Artifact::Chart(ChartMetric::Cpu) => assert(s[4] == a),
        Artifact::Chart(ChartMetric::Ram) => assert(s[5] == a),
        Artifact::Chart(ChartMetric::DiskRead) => assert(s[6] == a),
        Artifact::Chart(ChartMetric::DiskWrite) => assert(s[7] == a),
        Artifact::Chart(ChartMetric::Gpu) => assert(s[8] == a),
        Artifact::Chart(ChartMetric::Network) => assert(s[9] == a),
    }
    assert forall|i: int| 0 <= i < chart_metrics_spec().len() implies
        s.contains(Artifact::Chart(#[trigger] chart_metrics_spec()[i])) by {
        assert(s[i + 4] == Artifact::Chart(chart_metrics_spec()[i]));
    }
}

/// The RAM figures of the records added up, in MiB.
pub open spec fn ram_total(data: Seq<AppMetrics>) -> nat
    decreases data.len(),
{
    if data.len() == 0 {
        0
    } else {
        ram_total(data.drop_last()) + data.last().ram_usage as nat
    }
}

/// The mean RAM figure of the records, rounded down; none for no records.
pub open spec fn average_ram_spec(data: Seq<AppMetrics>) -> Option<u64> {
    if data.len() == 0 {
        None
    } else {
        Some((ram_total(data) / data.len()) as u64)
    }
}

/// The total of a prefix is at most the total of the whole.
proof fn lemma_ram_total_prefix(data: Seq<AppMetrics>, i: int)
    requires
        0 <= i <= data.len(),
    ensures
        ram_total(data.take(i)) <= ram_total(data),
    decreases data.len() - i,
{
    if i < data.len() {
        lemma_ram_total_prefix(data, i + 1);
        assert(data.take(i + 1).drop_last() =~= data.take(i));
    } else {
        assert(data.take(i) =~= data);
    }
}

/// Where every record's RAM figure is at most `hi` and at least `lo`, the total lies
/// between `lo` and `hi` times the number of records.
proof fn lemma_ram_total_bounds(data: Seq<AppMetrics>, lo: int, hi: int)
    requires
        forall|i: int| 0 <= i < data.len() ==> lo <= #[trigger] data[i].ram_usage <= hi,
    ensures
        lo * data.len() <= ram_total(data) <= hi * data.len(),
    decreases data.len(),
{
    if data.len() > 0 {
        let rest = data.drop_last();
        assert forall|i: int| 0 <= i < rest.len() implies lo <= #[trigger] rest[i].ram_usage <= hi by {
            assert(rest[i] == data[i]);
        }
        lemma_ram_total_bounds(rest, lo, hi);
        assert(lo <= data[data.len() - 1].ram_usage <= hi);
        assert(lo * data.len() == lo * rest.len() + lo) by (nonlinear_arith)
            requires data.len() == rest.len() + 1;
        assert(hi * data.len() == hi * rest.len() + hi) by (nonlinear_arith)
            requires data.len() == rest.len() + 1;
    }
}

/// The RAM average of a report lies between the smallest and the largest RAM figure
/// of its records: where all figures are at least `lo` and at most `hi`, so is the
/// average.
pub proof fn lemma_average_ram_within_range(data: Seq<AppMetrics>, lo: int, hi: int)
    requires
        data.len() > 0,
        forall|i: int| 0 <= i < data.len() ==> lo <= #[trigger] data[i].ram_usage <= hi,
    ensures
        average_ram_spec(data) matches Some(avg) && lo <= avg <= hi,
{
    lemma_ram_total_bounds(data, lo, hi);
    lemma_ram_total_bounds(data, 0, u64::MAX as int);
    let n = data.len() as int;
    let t = ram_total(data) as int;
    lemma_mean_between(t, n, lo, hi);
    lemma_mean_between(t, n, 0, u64::MAX as int);
}

/// A total between `lo * n` and `hi * n` has its rounded-down mean between `lo` and `hi`.
proof fn lemma_mean_between(t: int, n: int, lo: int, hi: int)
    requires
        n > 0,
        lo * n <= t <= hi * n,
    ensures
        lo <= t / n <= hi,
{
    let q = t / n;
    assert(q * n <= t < (q + 1) * n) by (nonlinear_arith)
        requires
            n > 0,
            q == t / n,
    ;
    if q > hi {
        assert(q * n >= (hi + 1) * n) by (nonlinear_arith)
            requires
                q >= hi + 1,
                n > 0,
        ;
        assert((hi + 1) * n == hi * n + n) by (nonlinear_arith);
    }
    if q < lo {
        assert((q + 1) * n <= lo * n) by (nonlinear_arith)
            requires
                q + 1 <= lo,
                n > 0,
        ;
    }
}

/// The RAM average of a non-empty history is the mean of all its records rounded down:
/// times the number of records it is at most their total, and one more times the number
/// of records exceeds it.
pub proof fn lemma_average_ram_is_mean(data: Seq<AppMetrics>)
    requires
        data.len() > 0,
    ensures
        average_ram_spec(data) matches Some(avg) && avg * data.len() <= ram_total(data) < (avg + 1)
            * data.len(),
{
    lemma_ram_total_bounds(data, 0, u64::MAX as int);
    let n = data.len() as int;
    let t = ram_total(data) as int;
    lemma_mean_between(t, n, 0, u64::MAX as int);
    let q = t / n;
    assert(q * n <= t < (q + 1) * n) by (nonlinear_arith)
        requires
            n > 0,
            q == t / n,
    ;
}

/// The mean RAM figure of the records, in whole MiB rounded down; none for no records.
/// The total must fit in a `u64`: adding it up overflows otherwise.
pub fn average_ram(data: &[AppMetrics]) -> (avg: Option<u64>)
    requires
        ram_total(data@) <= u64::MAX,
    ensures
        avg == average_ram_spec(data@),
        avg is Some <==> data@.len() > 0,
        avg matches Some(a) ==> a * data@.len() <= ram_total(data@) < (a + 1) * data@.len(),
{
    proof {
        if data@.len() > 0 {
            lemma_average_ram_is_mean(data@);
        }
    }
    if data.len() == 0 {
        return None;
    }
    let mut total: u64 = 0;
    let mut i: usize = 0;
    while i < data.len()
        invariant
            i <= data@.len(),
            total == ram_total(data@.take(i as int)),
            ram_total(data@) <= u64::MAX,
        decreases data@.len() - i,
    {
        proof {
            lemma_ram_total_prefix(data@, i + 1);
            assert(data@.take(i + 1).drop_last() =~= data@.take(i as int));
        }
        total = total + data[i].ram_usage;
        i = i + 1;
    }
    assert(data@.take(data@.len() as int) =~= data@);
    Some(total / (data.len() as u64))
}

/// The markdown report of one application.
pub open spec fn markdown_report_spec(app_name: Seq<char>, cpu_avg_text: Seq<char>, avg_ram: u64) -> Seq<char> {
    "# Report: "@ + app_name + "\n- CPU: "@ + cpu_avg_text + "%\n- RAM: "@ + decimal_text(avg_ram as nat) + " MB"@
}

/// The markdown report of one application: its name, its mean CPU usage (as text) and
/// its mean RAM usage in MB.
pub fn markdown_report(app_name: &str, cpu_avg_text: &str, avg_ram: u64) -> (r: String)
    ensures
        r@ == markdown_report_spec(app_name@, cpu_avg_text@, avg_ram),
{
    let ram = decimal(avg_ram);
    let mut r = String::from_str("# Report: ");
    r.append(app_name);
    r.append("\n- CPU: ");
    r.append(cpu_avg_text);
    r.append("%\n- RAM: ");
    r.append(ram.as_str());
    r.append(" MB");
    r
}

/// Whether two histories can be compared: both hold at least one record.
pub fn can_compare(data1: &[AppMetrics], data2: &[AppMetrics]) -> (b: bool)
    ensures
        b <==> (data1@.len() > 0 && data2@.len() > 0),
{
    data1.len() > 0 && data2.len() > 0
}

/// The comparison report written when a history is empty.
pub fn insufficient_data_report() -> (r: String)
    ensures
        r@ == "# Comparison Report\nNo sufficient data to compare."@,
{
    String::from_str("# Comparison Report\nNo sufficient data to compare.")
}

/// The application named the winner where lower is better: the first one only if it
/// is strictly lower.
pub open spec fn winner_label_spec(first_lower: bool) -> Seq<char> {
    if first_lower {
        "App 1"@
    } else {
        "App 2"@
    }
}

/// The application named the winner where lower is better.
pub fn winner_label(first_lower: bool) -> (w: String)
    ensures
        w@ == winner_label_spec(first_lower),
{
    if first_lower {
        String::from_str("App 1")
    } else {
        String::from_str("App 2")
    }
}

/// The comparison report text, with the mean CPU and RAM usage (as text) of both
/// applications and the winner named for each.
pub open spec fn comparison_text(
    cpu1: Seq<char>,
    cpu2: Seq<char>,
    cpu_winner: Seq<char>,
    ram1: Seq<char>,
    ram2: Seq<char>,
    ram_winner: Seq<char>,
) -> Seq<char> {
    "# Detailed Textual Comparison Report\n\nThis report contains the raw text descriptions comparing the metrics of both applications.\n\n## CPU Usage\n- **App 1 Avg**: "@
        + cpu1 + "%\n- **App 2 Avg**: "@ + cpu2 + "%\n- **Winner (Lower is better)**: "@
        + cpu_winner + "\n\n## RAM Usage\n- **App 1 Avg**: "@ + ram1
        + " MB\n- **App 2 Avg**: "@ + ram2 + " MB\n- **Winner (Lower is better)**: "@
        + ram_winner
        + "\n\n*Note: Read generated PNG charts for disk, network, and GPU comparison visualizations.*"@
}

/// The comparison report of both applications.
pub open spec fn comparison_report_spec(
    cpu1: Seq<char>,
    cpu2: Seq<char>,
    cpu_first_lower: bool,
    ram1: Seq<char>,
    ram2: Seq<char>,
    ram_first_lower: bool,
) -> Seq<char> {
    comparison_text(
        cpu1,
        cpu2,
        winner_label_spec(cpu_first_lower),
        ram1,
        ram2,
        winner_label_spec(ram_first_lower),
    )
}

/// The other application's label.
pub open spec fn other_app(label: Seq<char>) -> Seq<char> {
    if label == "App 1"@ {
        "App 2"@
    } else {
        "App 1"@
    }
}

/// Comparing the applications the other way round swaps the report. With the pair
/// swapped, the averages swap lines and, where the two means differ, each "first is
/// lower" flag is negated; the report of the swapped pair then carries each average on
/// the other application's line and names the other application the winner, for CPU
/// and for RAM.
pub proof fn lemma_swapped_comparison(
    cpu1: Seq<char>,
    cpu2: Seq<char>,
    cpu_first_lower: bool,
    ram1: Seq<char>,
    ram2: Seq<char>,
    ram_first_lower: bool,
)
    ensures
        comparison_report_spec(cpu2, cpu1, !cpu_first_lower, ram2, ram1, !ram_first_lower)
            == comparison_text(
            cpu2,
            cpu1,
            other_app(winner_label_spec(cpu_first_lower)),
            ram2,
            ram1,
            other_app(winner_label_spec(ram_first_lower)),
        ),
        winner_label_spec(!cpu_first_lower) != winner_label_spec(cpu_first_lower),
        winner_label_spec(!ram_first_lower) != winner_label_spec(ram_first_lower),
{
    lemma_labels_differ();
}

/// The two labels are different texts.
proof fn lemma_labels_differ()
    ensures
        "App 1"@ != "App 2"@,
{
    reveal_strlit("App 1");
    reveal_strlit("App 2");
    assert("App 1"@[4] != "App 2"@[4]);
}

/// The comparison report names each winner by its own flag: the CPU section ends with
/// `App 1` as the winner exactly when the first CPU mean is lower, and the report ends
/// with the RAM section naming `App 1` exactly when the first RAM mean is lower, `App 2`
/// otherwise.
pub proof fn lemma_comparison_names_each_winner(
    cpu1: Seq<char>,
    cpu2: Seq<char>,
    cpu_first_lower: bool,
    ram1: Seq<char>,
    ram2: Seq<char>,
    ram_first_lower: bool,
)
    ensures
        ({
            let r = comparison_report_spec(cpu1, cpu2, cpu_first_lower, ram1, ram2, ram_first_lower);
            &&& ("# Detailed Textual Comparison Report\n\nThis report contains the raw text descriptions comparing the metrics of both applications.\n\n## CPU Usage\n- **App 1 Avg**: "@ + cpu1 + "%\n- **App 2 Avg**: "@ + cpu2 + "%\n- **Winner (Lower is better)**: "@
                + (if cpu_first_lower { "App 1"@ } else { "App 2"@ }) + "\n\n## RAM Usage\n"@).is_prefix_of(r)
            &&& (ram2 + " MB\n- **Winner (Lower is better)**: "@ + (if ram_first_lower { "App 1"@ } else { "App 2"@ })
                + "\n\n*Note: Read generated PNG charts for disk, network, and GPU comparison visualizations.*"@).is_suffix_of(r)
        }),
{
    let r = comparison_report_spec(cpu1, cpu2, cpu_first_lower, ram1, ram2, ram_first_lower);
    let cl = if cpu_first_lower { "App 1"@ } else { "App 2"@ };
    let rl = if ram_first_lower { "App 1"@ } else { "App 2"@ };
    let p = "# Detailed Textual Comparison Report\n\nThis report contains the raw text descriptions comparing the metrics of both applications.\n\n## CPU Usage\n- **App 1 Avg**: "@ + cpu1 + "%\n- **App 2 Avg**: "@ + cpu2 + "%\n- **Winner (Lower is better)**: "@ + cl
        + "\n\n## RAM Usage\n"@;
    let mid = "- **App 1 Avg**: "@ + ram1 + " MB\n- **App 2 Avg**: "@;
    let x = ram2 + " MB\n- **Winner (Lower is better)**: "@ + rl + "\n\n*Note: Read generated PNG charts for disk, network, and GPU comparison visualizations.*"@;
    assert(winner_label_spec(cpu_first_lower) == cl);
    assert(winner_label_spec(ram_first_lower) == rl);
    assert("\n\n## RAM Usage\n- **App 1 Avg**: "@ =~= "\n\n## RAM Usage\n"@ + "- **App 1 Avg**: "@) by {
        reveal_strlit("\n\n## RAM Usage\n- **App 1 Avg**: ");
        reveal_strlit("\n\n## RAM Usage\n");
        reveal_strlit("- **App 1 Avg**: ");
    }
    assert(r =~= p + mid + x);
    assert(r.subrange(0, p.len() as int) =~= p);
    assert(r.subrange(r.len() - x.len(), r.len() as int) =~= x);
}

/// The comparison report of both applications, from their mean CPU and RAM usage (as
/// text) and from which of them is lower for each.
pub fn comparison_report(
    cpu1: &str,
    cpu2: &str,
    cpu_first_lower: bool,
    ram1: &str,
    ram2: &str,
    ram_first_lower: bool,
) -> (r: String)
    ensures
        r@ == comparison_report_spec(cpu1@, cpu2@, cpu_first_lower, ram1@, ram2@, ram_first_lower),
        (ram2@ + " MB\n- **Winner (Lower is better)**: "@ + (if ram_first_lower { "App 1"@ } else { "App 2"@ })
            + "\n\n*Note: Read generated PNG charts for disk, network, and GPU comparison visualizations.*"@).is_suffix_of(r@),
{
    proof {
        lemma_comparison_names_each_winner(cpu1@, cpu2@, cpu_first_lower, ram1@, ram2@, ram_first_lower);
    }
    let cpu_winner = winner_label(cpu_first_lower);
    let ram_winner = winner_label(ram_first_lower);
    let mut r = String::from_str(
        "# Detailed Textual Comparison Report\n\nThis report contains the raw text descriptions comparing the metrics of both applications.\n\n## CPU Usage\n- **App 1 Avg**: ",
    );
    r.append(cpu1);
    r.append("%\n- **App 2 Avg**: ");
    r.append(cpu2);
    r.append("%\n- **Winner (Lower is better)**: ");
    r.append(cpu_winner.as_str());
    r.append("\n\n## RAM Usage\n- **App 1 Avg**: ");
    r.append(ram1);
    r.append(" MB\n- **App 2 Avg**: ");
    r.append(ram2);
    r.append(" MB\n- **Winner (Lower is better)**: ");
    r.append(ram_winner.as_str());
    r.append("\n\n*Note: Read generated PNG charts for disk, network, and GPU comparison visualizations.*");
    r
}

/// What a chart says of the two averages it shows.
#[derive(Clone, Copy, Debug, PartialEq, Eq, Structural)]
pub enum ChartVerdict {
    /// Both averages are zero.
    NoData,
    /// The first application's average is lower.
    FirstWins,
    /// The second application's average is lower.
    SecondWins,
    /// Neither average is lower than the other.
    Draw,
}

/// The verdict of a chart, from how its two averages compare: no data where both are
/// zero, else the strictly lower one wins, else a draw.
pub open spec fn chart_verdict_spec(both_zero: bool, first_lower: bool, second_lower: bool) -> ChartVerdict {
    if both_zero {
        ChartVerdict::NoData
    } else if first_lower {
        ChartVerdict::FirstWins
    } else if second_lower {
        ChartVerdict::SecondWins
    } else {
        ChartVerdict::Draw
    }
}

/// The verdict of a chart, from how its two averages compare.
pub fn chart_verdict(both_zero: bool, first_lower: bool, second_lower: bool) -> (v: ChartVerdict)
    ensures
        v == chart_verdict_spec(both_zero, first_lower, second_lower),
{
    if both_zero {
        ChartVerdict::NoData
    } else if first_lower {
        ChartVerdict::FirstWins
    } else if second_lower {
        ChartVerdict::SecondWins
    } else {
        ChartVerdict::Draw
    }
}

/// The verdict part of a chart's caption; the winner's average comes first.
pub open spec fn verdict_text_spec(v: ChartVerdict, avg1: Seq<char>, avg2: Seq<char>) -> Seq<char> {
    match v {
        ChartVerdict::NoData => "No Data"@,
        ChartVerdict::FirstWins => "Winner: App 1 (Avg "@ + avg1 + " vs "@ + avg2 + ")"@,
        ChartVerdict::SecondWins => "Winner: App 2 (Avg "@ + avg2 + " vs "@ + avg1 + ")"@,
        ChartVerdict::Draw => "Draw (Equal resource usage)"@,
    }
}

/// The caption of a chart: its title, then its verdict, with the two averages (as text)
/// where there is a winner.
pub fn chart_caption(title: &str, verdict: ChartVerdict, avg1: &str, avg2: &str) -> (c: String)
    ensures
        c@ == title@ + " | "@ + verdict_text_spec(verdict, avg1@, avg2@),
{
    let mut c = String::from_str(title);
    c.append(" | ");
    match verdict {
        ChartVerdict::NoData => c.append("No Data"),
        ChartVerdict::FirstWins => {
            c.append("Winner: App 1 (Avg ");
            c.append(avg1);
            c.append(" vs ");
            c.append(avg2);
            c.append(")");
        },
        ChartVerdict::SecondWins => {
            c.append("Winner: App 2 (Avg ");
            c.append(avg2);
            c.append(" vs ");
            c.append(avg1);
            c.append(")");
        },
        ChartVerdict::Draw => c.append("Draw (Equal resource usage)"),
    }
    c
}

} // verus!
