use perf_tester::metrics_collector::{
    get_network_usage, gpu_reading_from_counter, gpu_reading_from_nvidia_smi, gpu_usage_query,
    network_usage_script, AppMetrics, MetricsCollector, OsReadings, ProcessSample,
};

#[test]
fn network_usage_reads_the_trimmed_number() {
    assert_eq!(get_network_usage(Some(b" 1234\r\n".to_vec())), 1234);
    assert_eq!(get_network_usage(Some(b"+77".to_vec())), 77);
}

#[test]
fn network_usage_is_zero_without_a_number() {
    assert_eq!(get_network_usage(None), 0);
    assert_eq!(get_network_usage(Some(b"".to_vec())), 0);
    assert_eq!(get_network_usage(Some(b"12 34".to_vec())), 0);
    assert_eq!(get_network_usage(Some(b"-5".to_vec())), 0);
    assert_eq!(get_network_usage(Some(b"18446744073709551616".to_vec())), 0);
    assert_eq!(get_network_usage(Some(vec![0x31, 0xff])), 0);
}

#[test]
fn network_script_names_the_pid_twice() {
    assert_eq!(
        network_usage_script(4321),
        "(Get-Process -Id 4321).IOReadBytes + (Get-Process -Id 4321).IOWriteBytes"
    );
}

#[test]
fn gpu_query_names_the_pid() {
    assert_eq!(
        gpu_usage_query(17),
        "((Get-Counter '\\GPU Engine(pid_17_*)\\Utilization Percentage').CounterSamples | Measure-Object -Property CookedValue -Sum).Sum"
    );
}

#[test]
fn gpu_counter_text_is_trimmed_with_decimal_points() {
    assert_eq!(gpu_reading_from_counter(b"  12,5 \r\n".to_vec()), Some("12.5".to_string()));
    assert_eq!(gpu_reading_from_counter(vec![0xc3, 0x28]), None);
}

#[test]
fn nvidia_smi_text_is_its_first_line() {
    assert_eq!(gpu_reading_from_nvidia_smi(b"37\r\n45\n".to_vec()), Some("37".to_string()));
    assert_eq!(gpu_reading_from_nvidia_smi(b"\n".to_vec()), Some("".to_string()));
    assert_eq!(gpu_reading_from_nvidia_smi(b"".to_vec()), None);
}

fn sample(memory_bytes: u64) -> ProcessSample {
    ProcessSample { cpu_usage_bits: 42, memory_bytes, disk_read: 100, disk_write: 200 }
}

#[test]
fn a_new_collector_has_empty_histories() {
    let c = MetricsCollector::new(1, 2);
    assert!(c.history_app1().is_empty());
    assert!(c.history_app2().is_empty());
}

#[test]
fn record_appends_one_record_per_found_process() {
    let mut c = MetricsCollector::new(1, 2);
    let extra1 = OsReadings { gpu_usage_bits: 7, network_usage: 9 };
    let extra2 = OsReadings { gpu_usage_bits: 8, network_usage: 10 };
    c.record(3, Some(sample(5 * 1024 * 1024 + 7)), None, extra1, extra2);
    c.record(4, Some(sample(1024 * 1024 - 1)), Some(sample(2 * 1024 * 1024)), extra1, extra2);
    assert_eq!(
        c.history_app1().clone(),
        vec![
            AppMetrics {
                time_sec: 3,
                cpu_usage_bits: 42,
                ram_usage: 5,
                disk_read: 100,
                disk_write: 200,
                gpu_usage_bits: 7,
                network_usage: 9
            },
            AppMetrics {
                time_sec: 4,
                cpu_usage_bits: 42,
                ram_usage: 0,
                disk_read: 100,
                disk_write: 200,
                gpu_usage_bits: 7,
                network_usage: 9
            },
        ]
    );
    assert_eq!(
        c.history_app2().clone(),
        vec![AppMetrics {
            time_sec: 4,
            cpu_usage_bits: 42,
            ram_usage: 2,
            disk_read: 100,
            disk_write: 200,
            gpu_usage_bits: 8,
            network_usage: 10
        }]
    );
}

#[test]
fn collect_adds_nothing_for_processes_that_do_not_exist() {
    let mut c = MetricsCollector::new(4_000_000_001, 4_000_000_002);
    let extra = OsReadings { gpu_usage_bits: 0, network_usage: 0 };
    c.collect(extra, extra);
    c.collect(extra, extra);
    assert!(c.history_app1().is_empty());
    assert!(c.history_app2().is_empty());
}

#[test]
fn collect_records_a_running_process() {
    let mut c = MetricsCollector::new(1, 4_000_000_003);
    let extra1 = OsReadings { gpu_usage_bits: 5, network_usage: 6 };
    let extra2 = OsReadings { gpu_usage_bits: 0, network_usage: 0 };
    c.collect(extra1, extra2);
    assert_eq!(c.history_app1().len(), 1);
    assert!(c.history_app2().is_empty());
    let r = c.history_app1()[0];
    assert_eq!(r.gpu_usage_bits, 5);
    assert_eq!(r.network_usage, 6);
    assert!(r.time_sec < 5);
}

#[test]
fn network_usage_reads_back_any_printed_count() {
    for v in [0u64, 7, 10, 4096, u64::MAX] {
        assert_eq!(get_network_usage(Some(format!("{}\r\n", v).into_bytes())), v);
    }
}

#[test]
fn rounds_add_at_most_one_record_each() {
    let mut c = MetricsCollector::new(1, 4_000_000_004);
    let extra = OsReadings { gpu_usage_bits: 0, network_usage: 0 };
    for _ in 0..3 {
        c.collect(extra, extra);
    }
    assert_eq!(c.history_app1().len(), 3);
    assert_eq!(c.history_app2().len(), 0);
}
