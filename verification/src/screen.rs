//! What the screen says: the text of each part of it, and the closing summary.
//!
//! Seconds and percentages are shown with a fixed number of decimals; their
//! digits come from the caller as text, and everything round them is put
//! together here.

use std::collections::HashMap;
use vstd::prelude::*;
use vstd::string::StringExecFns;

use crate::process::{ProcState, ProcStatus, Ratio};
use crate::roster::sorted_ids;
use crate::text::format_right;

verus! {

broadcast use vstd::std_specs::hash::group_hash_axioms;

/// A process as the list shows it.
#[derive(Debug)]
pub struct Row {
    /// The key of the process in the table.
    pub key: usize,
    /// The first line of the row.
    pub line: String,
    /// The part of the work done, from zero to one.
    pub ratio: Ratio,
}

/// The name of a status.
pub open spec fn label(status: ProcStatus) -> Seq<char> {
    match status {
        ProcStatus::Running => "Running"@,
        ProcStatus::Finished => "Finished"@,
        ProcStatus::Paused => "Paused"@,
        ProcStatus::Stopped => "Stopped"@,
    }
}

/// `n` in decimal, right-aligned in `width` columns.
pub open spec fn number(n: nat, width: nat) -> Seq<char> {
    crate::text::right_aligned(crate::text::decimal(n), width)
}

/// The first line of a process in the list.
pub open spec fn process_line_text(p: ProcState) -> Seq<char> {
    "PID "@ + number(p.id as nat, 2) + " | "@ + number(p.elapsed_ms as nat, 4) + " ms / "@ + number(
        p.total_ms as nat,
        4,
    ) + " ms | "@ + label(p.status)
}

/// The second line of a process in the list, for a percentage with the digits
/// `percent`.
pub open spec fn progress_line_text(percent: Seq<char>) -> Seq<char> {
    "Progress: "@ + percent + "%"@
}

/// The details of a process, for a percentage with the digits `percent`.
pub open spec fn detail_text(p: Option<ProcState>, percent: Seq<char>) -> Seq<char> {
    match p {
        Some(p) => "PID: "@ + number(p.id as nat, 0) + "\nStatus: "@ + label(p.status)
            + "\nElapsed: "@ + number(p.elapsed_ms as nat, 0) + " ms\nTotal: "@ + number(
            p.total_ms as nat,
            0,
        ) + " ms\nProgress: "@ + percent + "%"@,
        None => "No process selected"@,
    }
}

/// The headline, for an elapsed time in seconds with the digits `elapsed`.
pub open spec fn header_text(show_summary: bool, elapsed: Seq<char>, secs: u64) -> Seq<char> {
    if show_summary {
        "Simulation summary (press 'q' to exit). Total duration: "@ + number(secs as nat, 0) + "s"@
    } else {
        "Press 's' to start, 'p' to pause/resume, 'q' to quit | Elapsed: "@ + elapsed + "s / "@
            + number(secs as nat, 0) + "s"@
    }
}

/// The line of a process in the closing summary.
pub open spec fn summary_line_text(id: usize, p: ProcState) -> Seq<char> {
    "Process "@ + number(id as nat, 2) + " | expected: "@ + number(p.total_ms as nat, 4)
        + " ms | done: "@ + number(p.elapsed_ms as nat, 4) + " ms | status: "@ + label(p.status)
}

/// The line that counts the finished processes.
pub open spec fn tally_text(finished: nat, num_procs: usize) -> Seq<char> {
    number(finished, 0) + " of "@ + number(num_procs as nat, 0) + " processes finished."@
}

/// The numbers below `n` whose process has finished.
pub open spec fn finished_below(procs: Map<usize, ProcState>, n: int) -> Set<usize> {
    Set::new(|k: usize| k < n && procs.contains_key(k) && procs[k].status is Finished)
}

/// The summary's lines of the processes under the numbers below `n`.
pub open spec fn summary_body(procs: Map<usize, ProcState>, n: nat) -> Seq<Seq<char>>
    decreases n,
{
    if n == 0 {
        seq![]
    } else {
        let id = (n - 1) as usize;
        if procs.contains_key(id) {
            summary_body(procs, (n - 1) as nat).push(summary_line_text(id, procs[id]))
        } else {
            summary_body(procs, (n - 1) as nat)
        }
    }
}

/// The closing summary: a heading, a line for each process, the tally, and a
/// last line.
pub open spec fn summary_text(procs: Map<usize, ProcState>, num_procs: usize) -> Seq<Seq<char>> {
    seq!["\nFinal Summary:"@] + summary_body(procs, num_procs as nat) + seq![
        tally_text(finished_below(procs, num_procs as int).len(), num_procs),
        "Simulation complete."@,
    ]
}

/// The texts of `lines`.
pub open spec fn texts(lines: Seq<String>) -> Seq<Seq<char>> {
    lines.map_values(|s: String| s@)
}

/// The keys of `rows`.
pub open spec fn row_keys(rows: Seq<Row>) -> Seq<usize> {
    rows.map_values(|r: Row| r.key)
}

/// `rows` shows the processes of the table, each once, by ascending key.
pub open spec fn shows(rows: Seq<Row>, procs: Map<usize, ProcState>) -> bool {
    &&& crate::roster::lists_keys(row_keys(rows), procs)
    &&& forall|i: int|
        0 <= i < rows.len() ==> {
            &&& (#[trigger] rows[i]).line@ == process_line_text(procs[rows[i].key])
            &&& rows[i].ratio == procs[rows[i].key].ratio()
        }
}

/// The name of a status.
pub fn status_label(status: ProcStatus) -> (s: &'static str)
    ensures
        s@ == label(status),
{
    match status {
        ProcStatus::Running => "Running",
        ProcStatus::Finished => "Finished",
        ProcStatus::Paused => "Paused",
        ProcStatus::Stopped => "Stopped",
    }
}

/// The first line of a process in the list.
pub fn process_line(p: &ProcState) -> (s: String)
    ensures
        s@ == process_line_text(*p),
{
    let mut s: String = String::from_str("PID ");
    s.append(format_right(p.id as u64, 2).as_str());
    s.append(" | ");
    s.append(format_right(p.elapsed_ms, 4).as_str());
    s.append(" ms / ");
    s.append(format_right(p.total_ms, 4).as_str());
    s.append(" ms | ");
    s.append(status_label(p.status));
    s
}

/// The second line of a process in the list.
pub fn progress_line(percent: &str) -> (s: String)
    ensures
        s@ == progress_line_text(percent@),
{
    let mut s: String = String::from_str("Progress: ");
    s.append(percent);
    s.append("%");
    s
}

/// The details of the selected process, `None` where there is none.
pub fn details(p: Option<ProcState>, percent: &str) -> (s: String)
    ensures
        s@ == detail_text(p, percent@),
{
    match p {
        Some(p) => {
            let mut s: String = String::from_str("PID: ");
            s.append(format_right(p.id as u64, 0).as_str());
            s.append("\nStatus: ");
            s.append(status_label(p.status));
            s.append("\nElapsed: ");
            s.append(format_right(p.elapsed_ms, 0).as_str());
            s.append(" ms\nTotal: ");
            s.append(format_right(p.total_ms, 0).as_str());
            s.append(" ms\nProgress: ");
            s.append(percent);
            s.append("%");
            s
        },
        None => String::from_str("No process selected"),
    }
}

/// The headline: the summary's, or the keys and the time gone by.
pub fn header(show_summary: bool, elapsed: &str, sim_duration_secs: u64) -> (s: String)
    ensures
        s@ == header_text(show_summary, elapsed@, sim_duration_secs),
{
    if show_summary {
        let mut s: String = String::from_str(
            "Simulation summary (press 'q' to exit). Total duration: ",
        );
        s.append(format_right(sim_duration_secs, 0).as_str());
        s.append("s");
        s
    } else {
        let mut s: String = String::from_str(
            "Press 's' to start, 'p' to pause/resume, 'q' to quit | Elapsed: ",
        );
        s.append(elapsed);
        s.append("s / ");
        s.append(format_right(sim_duration_secs, 0).as_str());
        s.append("s");
        s
    }
}

/// The list of the processes in the table, by ascending key.
pub fn process_rows(procs: &HashMap<usize, ProcState>) -> (rows: Vec<Row>)
    ensures
        shows(rows@, procs@),
{
    let ids: Vec<usize> = sorted_ids(procs);
    let mut rows: Vec<Row> = Vec::new();
    for i in 0..ids.len()
        invariant
            crate::roster::lists_keys(ids@, procs@),
            rows@.len() == i,
            forall|j: int|
                0 <= j < i ==> {
                    &&& (#[trigger] rows@[j]).key == ids@[j]
                    &&& rows@[j].line@ == process_line_text(procs@[ids@[j]])
                    &&& rows@[j].ratio == procs@[ids@[j]].ratio()
                },
    {
        let id: usize = ids[i];
        assert(ids@.contains(id));
        if let Some(p) = procs.get(&id) {
            rows.push(
                Row {
                    key: id,
                    line: process_line(p),
                    ratio: p.progress_ratio(),
                },
            );
        }
    }
    assert(row_keys(rows@) =~= ids@);
    rows
}

/// The line of a process in the closing summary.
pub fn summary_line(id: usize, p: &ProcState) -> (s: String)
    ensures
        s@ == summary_line_text(id, *p),
{
    let mut s: String = String::from_str("Process ");
    s.append(format_right(id as u64, 2).as_str());
    s.append(" | expected: ");
    s.append(format_right(p.total_ms, 4).as_str());
    s.append(" ms | done: ");
    s.append(format_right(p.elapsed_ms, 4).as_str());
    s.append(" ms | status: ");
    s.append(status_label(p.status));
    s
}

/// The line that counts the finished processes.
pub fn tally(finished: usize, num_procs: usize) -> (s: String)
    ensures
        s@ == tally_text(finished as nat, num_procs),
{
    let mut s: String = format_right(finished as u64, 0);
    s.append(" of ");
    s.append(format_right(num_procs as u64, 0).as_str());
    s.append(" processes finished.");
    s
}

/// The closing summary, line by line, on the processes under the numbers below
/// `num_procs`.
pub fn summary(procs: &HashMap<usize, ProcState>, num_procs: usize) -> (lines: Vec<String>)
    ensures
        texts(lines@) == summary_text(procs@, num_procs),
{
    let mut lines: Vec<String> = Vec::new();
    lines.push(String::from_str("\nFinal Summary:"));
    let mut finished: usize = 0;
    proof {
        assert(finished_below(procs@, 0) =~= Set::<usize>::empty());
        assert(texts(lines@) =~= seq!["\nFinal Summary:"@] + summary_body(procs@, 0));
    }
    for id in 0..num_procs
        invariant
            texts(lines@) == seq!["\nFinal Summary:"@] + summary_body(procs@, id as nat),
            finished_below(procs@, id as int).finite(),
            finished == finished_below(procs@, id as int).len(),
            finished <= id,
    {
        let ghost before = finished_below(procs@, id as int);
        let ghost said = texts(lines@);
        if let Some(p) = procs.get(&id) {
            lines.push(summary_line(id, p));
            assert(texts(lines@) =~= said.push(summary_line_text(id, *p)));
            if matches!(p.status, ProcStatus::Finished) {
                finished = finished + 1;
                assert(finished_below(procs@, id + 1) =~= before.insert(id));
            } else {
                assert(finished_below(procs@, id + 1) =~= before);
            }
        } else {
            assert(finished_below(procs@, id + 1) =~= before);
        }
        let ghost body = summary_body(procs@, (id + 1) as nat);
        assert(texts(lines@) =~= seq!["\nFinal Summary:"@] + body);
    }
    lines.push(tally(finished, num_procs));
    lines.push(String::from_str("Simulation complete."));
    assert(texts(lines@) =~= summary_text(procs@, num_procs));
    lines
}

} // verus!
