//! Sampling of the two monitored processes: one record per process and sampling
//! round, kept in two append-only histories.

use vstd::prelude::*;
use sysinfo::{Pid, ProcessesToUpdate, System};
use std::time::Instant;
use vstd::utf8::{decode_utf8, valid_utf8};
use crate::text::{decimal, decimal_text, is_ascii_digit, lemma_decimal_text_reads_back, lemma_parse_reads_decimal, lemma_trim_keeps_unpadded, first_line, first_line_spec, parse_u64, parsed_u64, replace_char, replaced, trim, trim_spec, utf8_to_string};

verus! {

/// The system table of processes that `sysinfo` keeps.
#[verifier::external_type_specification]
#[verifier::external_body]
pub struct ExSystem(System);

/// A point in time of the monotonic clock.
#[verifier::external_type_specification]
#[verifier::external_body]
pub struct ExInstant(Instant);

/// What `sysinfo` reports of one process, as plain values: the CPU usage as the bit
/// pattern of its `f32` percentage, the resident memory in bytes, and the bytes read
/// from and written to disk since the previous refresh.
#[derive(Clone, Copy, Debug, PartialEq, Eq, Structural)]
pub struct ProcessSample {
    pub cpu_usage_bits: u32,
    pub memory_bytes: u64,
    pub disk_read: u64,
    pub disk_write: u64,
}

/// What is read of a process outside `sysinfo`: its GPU usage, as the bit pattern of
/// an `f32` percentage, and its network traffic in bytes.
#[derive(Clone, Copy, Debug, PartialEq, Eq, Structural)]
pub struct OsReadings {
    pub gpu_usage_bits: u32,
    pub network_usage: u64,
}

/// One sampled record of one application; the two usages that are `f32` percentages
/// are kept as their bit patterns.
#[derive(Clone, Copy, Debug, PartialEq, Eq, Structural)]
pub struct AppMetrics {
    pub time_sec: u64,
    pub cpu_usage_bits: u32,
    pub ram_usage: u64,
    pub disk_read: u64,
    pub disk_write: u64,
    pub gpu_usage_bits: u32,
    pub network_usage: u64,
}

/// The contents of a `sysinfo` system table: each known process, by its pid as a `u32`,
/// with what its getters report.
pub uninterp spec fn process_table(sys: System) -> Map<u32, ProcessSample>;

/// A table that holds no process.
pub open spec fn no_processes() -> Map<u32, ProcessSample> {
    Map::empty()
}

/// Whole mebibytes in `bytes`, rounded down.
pub open spec fn mebibytes(bytes: u64) -> u64 {
    bytes / 1024 / 1024
}

/// The record made of a process sample taken `t` seconds into the run.
pub open spec fn record_of(sample: ProcessSample, t: u64, extra: OsReadings) -> AppMetrics {
    AppMetrics {
        time_sec: t,
        cpu_usage_bits: sample.cpu_usage_bits,
        ram_usage: mebibytes(sample.memory_bytes),
        disk_read: sample.disk_read,
        disk_write: sample.disk_write,
        gpu_usage_bits: extra.gpu_usage_bits,
        network_usage: extra.network_usage,
    }
}

/// What one sampling round adds to a history: one record where the process was found,
/// nothing where it was not.
pub open spec fn added_records(sample: Option<ProcessSample>, t: u64, extra: OsReadings) -> Seq<AppMetrics> {
    match sample {
        Some(s) => seq![record_of(s, t, extra)],
        None => Seq::empty(),
    }
}

/// The entry of `pid` in a process table, where there is one.
pub open spec fn lookup(table: Map<u32, ProcessSample>, pid: u32) -> Option<ProcessSample> {
    if table.contains_key(pid) {
        Some(table[pid])
    } else {
        None
    }
}

/// `System::new`: a system table with nothing loaded.
#[verifier::external_body]
fn new_system() -> (r: System)
    ensures
        process_table(r) == no_processes(),
{
    System::new()
}

/// `after` is what a system table `before` becomes when `System::refresh_processes` is
/// asked to refresh the processes `pid1` and `pid2` and to remove those of them that
/// died. What the refreshed table holds depends on the machine, so this relates the two
/// tables without saying more of `after`.
pub uninterp spec fn refreshed_for(before: System, pid1: u32, pid2: u32, after: System) -> bool;

/// `System::refresh_processes` for the two given pids, removing those that died. The
/// refresh is of these two pids; what the table then holds depends on the machine and
/// is not stated.
#[verifier::external_body]
fn refresh_two(sys: &mut System, pid1: u32, pid2: u32)
    ensures
        refreshed_for(*old(sys), pid1, pid2, *final(sys)),
{
    sys.refresh_processes(ProcessesToUpdate::Some(&[Pid::from_u32(pid1), Pid::from_u32(pid2)]), true);
}

/// `System::process` with the getters `cpu_usage`, `memory` and `disk_usage` of the
/// process found: the table's entry for `pid`.
#[verifier::external_body]
fn process_sample(sys: &System, pid: u32) -> (r: Option<ProcessSample>)
    ensures
        r == lookup(process_table(*sys), pid),
{
    match sys.process(Pid::from_u32(pid)) {
        Some(p) => {
            let d = p.disk_usage();
            Some(ProcessSample {
                cpu_usage_bits: p.cpu_usage().to_bits(),
                memory_bytes: p.memory(),
                disk_read: d.read_bytes,
                disk_write: d.written_bytes,
            })
        },
        None => None,
    }
}

/// `Instant::now`. The clock's reading is not stated.
#[verifier::external_body]
fn clock_now() -> Instant {
    Instant::now()
}

/// `secs` is the whole seconds from `start` to some later reading of the monotonic
/// clock. Which reading is not fixed by this relation.
pub uninterp spec fn elapsed_reading(start: Instant, secs: u64) -> bool;

/// `Instant::elapsed` in whole seconds: the whole seconds from `start` to the clock's
/// reading now. The reading itself is not stated.
#[verifier::external_body]
fn seconds_since(start: &Instant) -> (r: u64)
    ensures
        elapsed_reading(*start, r),
{
    start.elapsed().as_secs()
}

/// Samples two processes and keeps a history of records for each.
pub struct MetricsCollector {
    sys: System,
    start_time: Instant,
    pid1: u32,
    pid2: u32,
    history_app1: Vec<AppMetrics>,
    history_app2: Vec<AppMetrics>,
}

impl MetricsCollector {
    /// The pid of the first application.
    pub closed spec fn first_pid(&self) -> u32 {
        self.pid1
    }

    /// The pid of the second application.
    pub closed spec fn second_pid(&self) -> u32 {
        self.pid2
    }

    /// The records of the first application, oldest first.
    pub closed spec fn history1(&self) -> Seq<AppMetrics> {
        self.history_app1@
    }

    /// The records of the second application, oldest first.
    pub closed spec fn history2(&self) -> Seq<AppMetrics> {
        self.history_app2@
    }

    /// The processes that the collector's system table holds.
    pub closed spec fn processes(&self) -> Map<u32, ProcessSample> {
        process_table(self.sys)
    }

    /// The collector's system table.
    pub closed spec fn system(&self) -> System {
        self.sys
    }

    /// The instant the run started, which every record's time counts from.
    pub closed spec fn start_instant(&self) -> Instant {
        self.start_time
    }

    /// `after` is `before` after one sampling round with the readings `extra1` and
    /// `extra2`: the pids and the start instant stay; the table was refreshed for the two
    /// pids; and each history gained the record of its process as the refreshed table
    /// holds it (none where it is missing), both records stamped with the same time `t`,
    /// the whole seconds from the start instant to a reading of the clock.
    pub open spec fn collected(before: Self, after: Self, extra1: OsReadings, extra2: OsReadings) -> bool {
        &&& after.first_pid() == before.first_pid()
        &&& after.second_pid() == before.second_pid()
        &&& after.start_instant() == before.start_instant()
        &&& refreshed_for(before.system(), before.first_pid(), before.second_pid(), after.system())
        &&& exists|t: u64|
            #![trigger added_records(lookup(after.processes(), before.first_pid()), t, extra1)]
            {
                &&& elapsed_reading(before.start_instant(), t)
                &&& after.history1() == before.history1() + added_records(
                    lookup(after.processes(), before.first_pid()),
                    t,
                    extra1,
                )
                &&& after.history2() == before.history2() + added_records(
                    lookup(after.processes(), before.second_pid()),
                    t,
                    extra2,
                )
            }
    }

    /// A collector for the two pids, with empty histories and no process loaded yet.
    pub fn new(pid1: u32, pid2: u32) -> (c: Self)
        ensures
            c.first_pid() == pid1,
            c.second_pid() == pid2,
            c.history1() == Seq::<AppMetrics>::empty(),
            c.history2() == Seq::<AppMetrics>::empty(),
            c.processes() == no_processes(),
    {
        MetricsCollector {
            sys: new_system(),
            start_time: clock_now(),
            pid1,
            pid2,
            history_app1: Vec::new(),
            history_app2: Vec::new(),
        }
    }

    /// Records one sampling round taken `elapsed` seconds into the run: each process that
    /// was found gets one record at the end of its history, the other history stays.
    pub fn record(
        &mut self,
        elapsed: u64,
        sample1: Option<ProcessSample>,
        sample2: Option<ProcessSample>,
        extra1: OsReadings,
        extra2: OsReadings,
    )
        ensures
            final(self).history1() == old(self).history1() + added_records(sample1, elapsed, extra1),
            final(self).history2() == old(self).history2() + added_records(sample2, elapsed, extra2),
            final(self).first_pid() == old(self).first_pid(),
            final(self).second_pid() == old(self).second_pid(),
            final(self).processes() == old(self).processes(),
            final(self).system() == old(self).system(),
            final(self).start_instant() == old(self).start_instant(),
            sample1 matches Some(s) ==> record_matches_sample(final(self).history1().last(), s, elapsed, extra1),
            sample2 matches Some(s) ==> record_matches_sample(final(self).history2().last(), s, elapsed, extra2),
    {
        proof {
            if let Some(s) = sample1 {
                lemma_record_keeps_sample(s, elapsed, extra1);
            }
            if let Some(s) = sample2 {
                lemma_record_keeps_sample(s, elapsed, extra2);
            }
        }
        if let Some(s) = sample1 {
            let m = Self::to_record(s, elapsed, extra1);
            self.history_app1.push(m);
        }
        if let Some(s) = sample2 {
            let m = Self::to_record(s, elapsed, extra2);
            self.history_app2.push(m);
        }
    }

    /// The records of the first application, oldest first.
    pub fn history_app1(&self) -> (h: &Vec<AppMetrics>)
        ensures
            h@ == self.history1(),
    {
        &self.history_app1
    }

    /// The records of the second application, oldest first.
    pub fn history_app2(&self) -> (h: &Vec<AppMetrics>)
        ensures
            h@ == self.history2(),
    {
        &self.history_app2
    }

    fn to_record(sample: ProcessSample, elapsed: u64, extra: OsReadings) -> (m: AppMetrics)
        ensures
            m == record_of(sample, elapsed, extra),
    {
        AppMetrics {
            time_sec: elapsed,
            cpu_usage_bits: sample.cpu_usage_bits,
            ram_usage: sample.memory_bytes / 1024 / 1024,
            disk_read: sample.disk_read,
            disk_write: sample.disk_write,
            gpu_usage_bits: extra.gpu_usage_bits,
            network_usage: extra.network_usage,
        }
    }

    /// One sampling round: refreshes the table for the two pids, then appends to each history a
    /// record of the process as the refreshed table holds it, both records stamped with
    /// the same number of seconds since the collector was made. A process missing from
    /// the table gets no record.
    pub fn collect(&mut self, extra1: OsReadings, extra2: OsReadings)
        ensures
            Self::collected(*old(self), *final(self), extra1, extra2),
    {
        refresh_two(&mut self.sys, self.pid1, self.pid2);
        let elapsed = seconds_since(&self.start_time);
        let s1 = process_sample(&self.sys, self.pid1);
        let s2 = process_sample(&self.sys, self.pid2);
        self.record(elapsed, s1, s2, extra1, extra2);
        assert(added_records(lookup(self.processes(), self.pid1), elapsed, extra1) == added_records(s1, elapsed, extra1));
    }
}

/// The PowerShell expression that sums the utilisation of every GPU engine of process `pid`.
pub open spec fn gpu_usage_query_spec(pid: u32) -> Seq<char> {
    "((Get-Counter '\\GPU Engine(pid_"@ + decimal_text(pid as nat)
        + "_*)\\Utilization Percentage').CounterSamples | Measure-Object -Property CookedValue -Sum).Sum"@
}

/// The PowerShell expression that adds up the I/O bytes read and written by process `pid`.
pub open spec fn network_usage_script_spec(pid: u32) -> Seq<char> {
    "(Get-Process -Id "@ + decimal_text(pid as nat) + ").IOReadBytes + (Get-Process -Id "@
        + decimal_text(pid as nat) + ").IOWriteBytes"@
}

/// The network usage read from the text a counter query printed: its trimmed number,
/// or 0 where it is not one.
pub open spec fn network_usage_of_text(text: Seq<char>) -> u64 {
    match parsed_u64(trim_spec(text)) {
        Some(v) => v,
        None => 0,
    }
}

/// The network usage read from what a counter query printed: 0 where it printed
/// nothing readable.
pub open spec fn network_usage_of_output(stdout: Seq<u8>) -> u64 {
    if valid_utf8(stdout) {
        network_usage_of_text(decode_utf8(stdout))
    } else {
        0
    }
}

/// The PowerShell expression that sums the GPU utilisation of process `pid`.
pub fn gpu_usage_query(pid: u32) -> (q: String)
    ensures
        q@ == gpu_usage_query_spec(pid),
{
    let mut q = String::from_str("((Get-Counter '\\GPU Engine(pid_");
    let digits = decimal(pid as u64);
    q.append(digits.as_str());
    q.append("_*)\\Utilization Percentage').CounterSamples | Measure-Object -Property CookedValue -Sum).Sum");
    q
}

/// The number text in what the GPU counter query printed: trimmed, with decimal commas
/// turned into points; none where the output is not UTF-8.
pub fn gpu_reading_from_counter(stdout: Vec<u8>) -> (r: Option<String>)
    ensures
        r is Some <==> valid_utf8(stdout@),
        r matches Some(t) ==> t@ == replaced(trim_spec(decode_utf8(stdout@)), ',', "."@),
{
    match utf8_to_string(stdout) {
        Some(text) => Some(replace_char(trim(text.as_str()), ',', ".")),
        None => None,
    }
}

/// The number text in what `nvidia-smi` printed: its first line; none where the output
/// is not UTF-8 or is empty.
pub fn gpu_reading_from_nvidia_smi(stdout: Vec<u8>) -> (r: Option<String>)
    ensures
        r is Some <==> (valid_utf8(stdout@) && first_line_spec(decode_utf8(stdout@)) is Some),
        r matches Some(t) ==> first_line_spec(decode_utf8(stdout@)) == Some(t@),
{
    match utf8_to_string(stdout) {
        Some(text) => match first_line(text.as_str()) {
            Some(line) => Some(line.to_string()),
            None => None,
        },
        None => None,
    }
}

/// The PowerShell expression that adds up the I/O bytes of process `pid`.
pub fn network_usage_script(pid: u32) -> (q: String)
    ensures
        q@ == network_usage_script_spec(pid),
{
    let digits = decimal(pid as u64);
    let mut q = String::from_str("(Get-Process -Id ");
    q.append(digits.as_str());
    q.append(").IOReadBytes + (Get-Process -Id ");
    q.append(digits.as_str());
    q.append(").IOWriteBytes");
    q
}

/// The network usage of a process, from what its counter query printed: the printed
/// number, or 0 where no query ran, it printed no UTF-8, or no number.
pub fn get_network_usage(stdout: Option<Vec<u8>>) -> (usage: u64)
    ensures
        match stdout {
            Some(bytes) => usage == network_usage_of_output(bytes@),
            None => usage == 0,
        },
{
    match stdout {
        Some(bytes) => match utf8_to_string(bytes) {
            Some(text) => match parse_u64(trim(text.as_str())) {
                Some(v) => v,
                None => 0,
            },
            None => 0,
        },
        None => 0,
    }
}

/// The network usage read from a counter's output is the count it printed: for every
/// count, reading its decimal text gives the count back.
pub proof fn lemma_network_usage_reads_printed_count(v: u64)
    ensures
        network_usage_of_text(decimal_text(v as nat)) == v,
{
    let s = decimal_text(v as nat);
    lemma_decimal_text_reads_back(v as nat);
    assert(is_ascii_digit(s[0]));
    assert(is_ascii_digit(s[s.len() - 1]));
    lemma_trim_keeps_unpadded(s);
    lemma_parse_reads_decimal(v);
}

/// What one round adds to a history is one record where the process was in the
/// refreshed table, none where it was not.
proof fn lemma_round_adds_at_most_one(before: MetricsCollector, after: MetricsCollector, extra1: OsReadings, extra2: OsReadings)
    requires
        MetricsCollector::collected(before, after, extra1, extra2),
    ensures
        after.history1().len() == before.history1().len() + (if after.processes().contains_key(before.first_pid()) { 1int } else { 0int }),
        after.history2().len() == before.history2().len() + (if after.processes().contains_key(before.second_pid()) { 1int } else { 0int }),
{
    let t = choose|t: u64|
        #![trigger added_records(lookup(after.processes(), before.first_pid()), t, extra1)]
        {
            &&& after.history1() == before.history1() + added_records(
                lookup(after.processes(), before.first_pid()),
                t,
                extra1,
            )
            &&& after.history2() == before.history2() + added_records(
                lookup(after.processes(), before.second_pid()),
                t,
                extra2,
            )
        };
    assert(after.history1() == before.history1() + added_records(lookup(after.processes(), before.first_pid()), t, extra1));
}

/// History lengths over sampling rounds: after `n` rounds from a collector with empty
/// histories, each history holds at most `n` records (one per round at most), and
/// exactly `n` where its process was in the table after every refresh; the pids and the
/// start instant stay the same throughout.
pub proof fn lemma_rounds_bound_history_lengths(
    states: Seq<MetricsCollector>,
    extras1: Seq<OsReadings>,
    extras2: Seq<OsReadings>,
)
    requires
        states.len() == extras1.len() + 1,
        extras2.len() == extras1.len(),
        states[0].history1().len() == 0,
        states[0].history2().len() == 0,
        forall|i: int|
            0 <= i < extras1.len() ==> MetricsCollector::collected(
                #[trigger] states[i],
                states[i + 1],
                extras1[i],
                extras2[i],
            ),
    ensures
        states.last().first_pid() == states[0].first_pid(),
        states.last().second_pid() == states[0].second_pid(),
        states.last().start_instant() == states[0].start_instant(),
        states.last().history1().len() <= extras1.len(),
        states.last().history2().len() <= extras1.len(),
        (forall|i: int| 1 <= i < states.len() ==> (#[trigger] states[i]).processes().contains_key(states[0].first_pid()))
            ==> states.last().history1().len() == extras1.len(),
        (forall|i: int| 1 <= i < states.len() ==> (#[trigger] states[i]).processes().contains_key(states[0].second_pid()))
            ==> states.last().history2().len() == extras1.len(),
    decreases extras1.len(),
{
    let n = extras1.len() as int;
    if n > 0 {
        let prev = states.drop_last();
        assert forall|i: int| 0 <= i < n - 1 implies MetricsCollector::collected(
            #[trigger] prev[i],
            prev[i + 1],
            extras1.drop_last()[i],
            extras2.drop_last()[i],
        ) by {
            assert(MetricsCollector::collected(states[i], states[i + 1], extras1[i], extras2[i]));
        }
        lemma_rounds_bound_history_lengths(prev, extras1.drop_last(), extras2.drop_last());
        assert(MetricsCollector::collected(states[n - 1], states[n], extras1[n - 1], extras2[n - 1]));
        lemma_round_adds_at_most_one(states[n - 1], states[n], extras1[n - 1], extras2[n - 1]);
        assert(prev.last() == states[n - 1]);
        if forall|i: int| 1 <= i < states.len() ==> (#[trigger] states[i]).processes().contains_key(states[0].first_pid()) {
            assert forall|i: int| 1 <= i < prev.len() implies (#[trigger] prev[i]).processes().contains_key(prev[0].first_pid()) by {
                assert(prev[i] == states[i]);
            }
            assert(states[n].processes().contains_key(states[0].first_pid()));
        }
        if forall|i: int| 1 <= i < states.len() ==> (#[trigger] states[i]).processes().contains_key(states[0].second_pid()) {
            assert forall|i: int| 1 <= i < prev.len() implies (#[trigger] prev[i]).processes().contains_key(prev[0].second_pid()) by {
                assert(prev[i] == states[i]);
            }
            assert(states[n].processes().contains_key(states[0].second_pid()));
        }
    }
}

/// A record is the sample it was made of, taken `t` seconds into the run: it is stamped
/// with exactly `t`, keeps the CPU bits, disk figures, GPU bits and network figure
/// unchanged, and holds the memory as whole mebibytes (`ram * 2^20 <= memory <
/// (ram + 1) * 2^20`).
pub open spec fn record_matches_sample(m: AppMetrics, s: ProcessSample, t: u64, extra: OsReadings) -> bool {
    &&& m.time_sec == t
    &&& m.cpu_usage_bits == s.cpu_usage_bits
    &&& m.ram_usage * 1048576 <= s.memory_bytes < (m.ram_usage + 1) * 1048576
    &&& m.disk_read == s.disk_read
    &&& m.disk_write == s.disk_write
    &&& m.gpu_usage_bits == extra.gpu_usage_bits
    &&& m.network_usage == extra.network_usage
}

/// The record made of a sample taken `t` seconds into the run is stamped with `t`
/// itself, for every `t`, and carries the sample's figures, memory in whole MiB.
pub proof fn lemma_record_keeps_sample(s: ProcessSample, t: u64, extra: OsReadings)
    ensures
        record_matches_sample(record_of(s, t, extra), s, t, extra),
        added_records(Some(s), t, extra) == seq![record_of(s, t, extra)],
{
    let b = s.memory_bytes as int;
    let q = (s.memory_bytes / 1024 / 1024) as int;
    assert(q * 1048576 <= b < (q + 1) * 1048576) by (nonlinear_arith)
        requires
            b >= 0,
            q == (b / 1024) / 1024,
    {
        assert((b / 1024) * 1024 <= b < (b / 1024 + 1) * 1024);
        assert(q * 1024 <= b / 1024 < (q + 1) * 1024);
    }
}

} // verus!
