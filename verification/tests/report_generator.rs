use perf_tester::metrics_collector::AppMetrics;
use perf_tester::report_generator::{
    archived_artifacts, average_ram, can_compare, chart_caption, chart_metrics, chart_verdict,
    comparison_report, insufficient_data_report, markdown_report, report_path, reports_dir,
    winner_label, Artifact, ChartMetric, ChartVerdict, ReportGenerator,
};

fn with_ram(ram_usage: u64) -> AppMetrics {
    AppMetrics {
        time_sec: 0,
        cpu_usage_bits: 0,
        ram_usage,
        disk_read: 0,
        disk_write: 0,
        gpu_usage_bits: 0,
        network_usage: 0,
    }
}

#[test]
fn run_directories() {
    let g = ReportGenerator::from_run_id("20240131_235959".to_string());
    assert_eq!(g.run_id(), "20240131_235959");
    assert_eq!(g.history_dir(), "report_history/20240131_235959");
    assert_eq!(reports_dir(), "reports");
    assert_eq!(report_path("comparison.md"), "reports/comparison.md");
}

#[test]
fn a_new_run_id_is_a_local_timestamp() {
    let g = ReportGenerator::new();
    let id = g.run_id();
    assert_eq!(id.len(), 15);
    assert_eq!(id.as_bytes()[8], b'_');
    assert!(id.chars().enumerate().all(|(i, c)| i == 8 || c.is_ascii_digit()));
    let month: u32 = id[4..6].parse().unwrap();
    let hour: u32 = id[9..11].parse().unwrap();
    assert!((1..=12).contains(&month));
    assert!(hour <= 23);
}

#[test]
fn copy_plan_archives_every_report_file() {
    let g = ReportGenerator::from_run_id("r1".to_string());
    let plan = g.copy_plan();
    let names = [
        "app1_report.md",
        "app2_report.md",
        "comparison.md",
        "full_report.json",
        "cpu_comparison.png",
        "ram_comparison.png",
        "disk_read_comparison.png",
        "disk_write_comparison.png",
        "gpu_comparison.png",
        "network_comparison.png",
    ];
    assert_eq!(plan.len(), names.len());
    for (step, name) in plan.iter().zip(names.iter()) {
        assert_eq!(step.0, format!("reports/{}", name));
        assert_eq!(step.1, format!("report_history/r1/{}", name));
    }
}

#[test]
fn every_chart_file_is_archived() {
    let archived: Vec<String> = archived_artifacts().iter().map(|a| a.path()).collect();
    let charts = chart_metrics();
    assert_eq!(charts.len(), 6);
    for m in charts {
        assert!(archived.contains(&Artifact::Chart(m).path()));
    }
    for a in [Artifact::App1Report, Artifact::App2Report, Artifact::Comparison, Artifact::FullReport] {
        assert!(archived.contains(&a.path()));
    }
}

#[test]
fn chart_titles_and_scales() {
    let titles: Vec<String> = chart_metrics().iter().map(|m| m.title()).collect();
    assert_eq!(
        titles,
        vec![
            "CPU Usage (%)",
            "RAM Usage (MB)",
            "Disk Read (B/s)",
            "Disk Write (B/s)",
            "GPU Usage (%)",
            "Network Usage (B/s)"
        ]
    );
    assert!(ChartMetric::Cpu.percent_scale());
    assert!(ChartMetric::Gpu.percent_scale());
    assert!(!ChartMetric::Ram.percent_scale());
    assert!(!ChartMetric::Network.percent_scale());
    assert_eq!(Artifact::Chart(ChartMetric::DiskWrite).path(), "reports/disk_write_comparison.png");
}

#[test]
fn average_ram_is_the_rounded_down_mean() {
    assert_eq!(average_ram(&[with_ram(10), with_ram(20), with_ram(31)]), Some(20));
    assert_eq!(average_ram(&[with_ram(7)]), Some(7));
    assert_eq!(average_ram(&[]), None);
}

#[test]
fn average_ram_lies_between_the_extremes() {
    let data = [with_ram(5), with_ram(9), with_ram(6)];
    let avg = average_ram(&data).unwrap();
    assert!(5 <= avg && avg <= 9);
}

#[test]
fn markdown_report_text() {
    assert_eq!(markdown_report("App 1", "12.50", 300), "# Report: App 1\n- CPU: 12.50%\n- RAM: 300 MB");
}

#[test]
fn comparison_needs_both_histories() {
    assert!(can_compare(&[with_ram(1)], &[with_ram(2)]));
    assert!(!can_compare(&[], &[with_ram(2)]));
    assert!(!can_compare(&[with_ram(1)], &[]));
    assert_eq!(insufficient_data_report(), "# Comparison Report\nNo sufficient data to compare.");
}

#[test]
fn comparison_report_text() {
    let r = comparison_report("10.00", "20.00", true, "300.00", "250.00", false);
    assert_eq!(
        r,
        "# Detailed Textual Comparison Report\n\n\
This report contains the raw text descriptions comparing the metrics of both applications.\n\n\
## CPU Usage\n\
- **App 1 Avg**: 10.00%\n\
- **App 2 Avg**: 20.00%\n\
- **Winner (Lower is better)**: App 1\n\n\
## RAM Usage\n\
- **App 1 Avg**: 300.00 MB\n\
- **App 2 Avg**: 250.00 MB\n\
- **Winner (Lower is better)**: App 2\n\n\
*Note: Read generated PNG charts for disk, network, and GPU comparison visualizations.*"
    );
    assert_eq!(winner_label(true), "App 1");
    assert_eq!(winner_label(false), "App 2");
}

#[test]
fn chart_verdicts() {
    assert_eq!(chart_verdict(true, false, false), ChartVerdict::NoData);
    assert_eq!(chart_verdict(false, true, false), ChartVerdict::FirstWins);
    assert_eq!(chart_verdict(false, false, true), ChartVerdict::SecondWins);
    assert_eq!(chart_verdict(false, false, false), ChartVerdict::Draw);
}

#[test]
fn chart_captions() {
    assert_eq!(chart_caption("CPU Usage (%)", ChartVerdict::NoData, "0.00", "0.00"), "CPU Usage (%) | No Data");
    assert_eq!(
        chart_caption("RAM Usage (MB)", ChartVerdict::FirstWins, "1.00", "2.00"),
        "RAM Usage (MB) | Winner: App 1 (Avg 1.00 vs 2.00)"
    );
    assert_eq!(
        chart_caption("RAM Usage (MB)", ChartVerdict::SecondWins, "3.00", "2.00"),
        "RAM Usage (MB) | Winner: App 2 (Avg 2.00 vs 3.00)"
    );
    assert_eq!(
        chart_caption("GPU Usage (%)", ChartVerdict::Draw, "5.00", "5.00"),
        "GPU Usage (%) | Draw (Equal resource usage)"
    );
}

#[test]
fn swapping_the_pair_swaps_the_comparison() {
    let f = comparison_report("10.00", "20.00", true, "300.00", "250.00", false);
    let g = comparison_report("20.00", "10.00", false, "250.00", "300.00", true);
    let winners = |r: &str| -> Vec<String> {
        r.lines()
            .filter(|l| l.starts_with("- **Winner"))
            .map(|l| l.rsplit(": ").next().unwrap().to_string())
            .collect()
    };
    assert_eq!(winners(&f), vec!["App 1", "App 2"]);
    assert_eq!(winners(&g), vec!["App 2", "App 1"]);
    assert!(g.contains("- **App 1 Avg**: 20.00%\n- **App 2 Avg**: 10.00%"));
    assert!(g.contains("- **App 1 Avg**: 250.00 MB\n- **App 2 Avg**: 300.00 MB"));
}
