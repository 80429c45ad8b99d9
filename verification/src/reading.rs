//! What the texts and the places on the screen tell, read back from them.

use vstd::prelude::*;

use crate::drawing::Drawing;
use crate::layout::{Area, ScreenAreas, Size};
use crate::process::{ProcState, ProcStatus};
use crate::screen::Row;
use crate::simulation::SimState;

verus! {

/// The number that a row of decimal digits stands for: each digit counts ten
/// times as much as the one after it.
pub open spec fn value_of(s: Seq<char>) -> int
    decreases s.len(),
{
    if s.len() == 0 {
        0
    } else {
        10 * value_of(s.drop_last()) + (s.last() as int - '0' as int)
    }
}

/// `s` writes `n` after `pad` blanks: digits of the value `n`, with no zero in
/// front that could be left out, and no more blanks than the width asks for.
pub open spec fn writes_after(s: Seq<char>, n: int, width: int, pad: int) -> bool {
    &&& 0 <= pad < s.len()
    &&& width <= s.len()
    &&& forall|i: int| 0 <= i < pad ==> #[trigger] s[i] == ' '
    &&& forall|i: int| pad <= i < s.len() ==> '0' <= #[trigger] s[i] <= '9'
    &&& value_of(s.skip(pad)) == n
    &&& s[pad] == '0' ==> s.len() == pad + 1
    &&& pad > 0 ==> s.len() == width
}

/// `s` writes `n` in at least `width` columns.
pub open spec fn writes(s: Seq<char>, n: int, width: int) -> bool {
    exists|pad: int| writes_after(s, n, width, pad)
}

/// The name of a status.
pub open spec fn name_of(status: ProcStatus) -> Seq<char> {
    match status {
        ProcStatus::Running => "Running"@,
        ProcStatus::Paused => "Paused"@,
        ProcStatus::Stopped => "Stopped"@,
        ProcStatus::Finished => "Finished"@,
    }
}

/// `line` tells of `p` in a list: its id, what is done, what there is to do, and
/// its status, the numbers in the columns `a`, `b` and `c`.
pub open spec fn lists_process(
    line: Seq<char>,
    p: ProcState,
    a: Seq<char>,
    b: Seq<char>,
    c: Seq<char>,
) -> bool {
    &&& line == "PID "@ + a + " | "@ + b + " ms / "@ + c + " ms | "@ + name_of(p.status)
    &&& writes(a, p.id as int, 2)
    &&& writes(b, p.elapsed_ms as int, 4)
    &&& writes(c, p.total_ms as int, 4)
}

/// `line` tells of `p` in a list.
pub open spec fn is_list_line(line: Seq<char>, p: ProcState) -> bool {
    exists|a: Seq<char>, b: Seq<char>, c: Seq<char>| lists_process(line, p, a, b, c)
}

/// `line` tells of `p` in the closing summary: its number, what there is to do,
/// what is done, and its status, the numbers in the columns `a`, `b` and `c`.
pub open spec fn sums_up_process(
    line: Seq<char>,
    id: usize,
    p: ProcState,
    a: Seq<char>,
    b: Seq<char>,
    c: Seq<char>,
) -> bool {
    &&& line == "Process "@ + a + " | expected: "@ + b + " ms | done: "@ + c + " ms | status: "@
        + name_of(p.status)
    &&& writes(a, id as int, 2)
    &&& writes(b, p.total_ms as int, 4)
    &&& writes(c, p.elapsed_ms as int, 4)
}

/// `line` tells of `p` in the closing summary, under the number `id`.
pub open spec fn is_summary_line(line: Seq<char>, id: usize, p: ProcState) -> bool {
    exists|a: Seq<char>, b: Seq<char>, c: Seq<char>| sums_up_process(line, id, p, a, b, c)
}

/// `text` tells the details of `p`, the numbers in `a`, `b` and `c`, and the
/// percentage with the digits `percent`.
pub open spec fn details_process(
    text: Seq<char>,
    p: ProcState,
    percent: Seq<char>,
    a: Seq<char>,
    b: Seq<char>,
    c: Seq<char>,
) -> bool {
    &&& text == "PID: "@ + a + "\nStatus: "@ + name_of(p.status) + "\nElapsed: "@ + b
        + " ms\nTotal: "@ + c + " ms\nProgress: "@ + percent + "%"@
    &&& writes(a, p.id as int, 0)
    &&& writes(b, p.elapsed_ms as int, 0)
    &&& writes(c, p.total_ms as int, 0)
}

/// `text` tells the details of `p`.
pub open spec fn is_details(text: Seq<char>, p: ProcState, percent: Seq<char>) -> bool {
    exists|a: Seq<char>, b: Seq<char>, c: Seq<char>| details_process(text, p, percent, a, b, c)
}

/// `text` is the headline while the simulation goes on, with the digits `elapsed`
/// for the seconds gone by and `a` for those that it lasts.
pub open spec fn heads_simulation(text: Seq<char>, elapsed: Seq<char>, secs: u64, a: Seq<char>) -> bool {
    &&& text == "Press 's' to start, 'p' to pause/resume, 'q' to quit | Elapsed: "@ + elapsed
        + "s / "@ + a + "s"@
    &&& writes(a, secs as int, 0)
}

/// `text` is the headline while the simulation goes on.
pub open spec fn is_headline(text: Seq<char>, elapsed: Seq<char>, secs: u64) -> bool {
    exists|a: Seq<char>| heads_simulation(text, elapsed, secs, a)
}

/// `text` is the headline of the summary, with the digits `a` for the seconds.
pub open spec fn heads_summary(text: Seq<char>, secs: u64, a: Seq<char>) -> bool {
    &&& text == "Simulation summary (press 'q' to exit). Total duration: "@ + a + "s"@
    &&& writes(a, secs as int, 0)
}

/// `text` is the headline of the summary.
pub open spec fn is_summary_headline(text: Seq<char>, secs: u64) -> bool {
    exists|a: Seq<char>| heads_summary(text, secs, a)
}

/// `text` counts `finished` of `all` processes, in the digits `a` and `b`.
pub open spec fn counts_finished(
    text: Seq<char>,
    finished: int,
    all: int,
    a: Seq<char>,
    b: Seq<char>,
) -> bool {
    &&& text == a + " of "@ + b + " processes finished."@
    &&& writes(a, finished, 0)
    &&& writes(b, all, 0)
}

/// `text` counts `finished` of `all` processes.
pub open spec fn is_tally(text: Seq<char>, finished: int, all: int) -> bool {
    exists|a: Seq<char>, b: Seq<char>| counts_finished(text, finished, all, a, b)
}

/// How many of the processes under the numbers below `n` have finished.
pub open spec fn finished_count(procs: Map<usize, ProcState>, n: nat) -> nat
    decreases n,
{
    if n == 0 {
        0
    } else {
        let k = (n - 1) as usize;
        finished_count(procs, (n - 1) as nat) + if procs.contains_key(k)
            && procs[k].status is Finished {
            1nat
        } else {
            0nat
        }
    }
}

/// What is written in decimal is the number: digits of its value, with no zero in
/// front that could be left out.
proof fn lemma_decimal_reads_back(n: nat)
    ensures
        crate::text::decimal(n).len() > 0,
        forall|i: int|
            0 <= i < crate::text::decimal(n).len() ==> '0' <= #[trigger] crate::text::decimal(n)[i]
                <= '9',
        value_of(crate::text::decimal(n)) == n,
        crate::text::decimal(n)[0] == '0' ==> n == 0,
        n < 10 ==> crate::text::decimal(n).len() == 1,
    decreases n,
{
    reveal_with_fuel(value_of, 2);
    let d = crate::text::decimal(n);
    if n >= 10 {
        lemma_decimal_reads_back(n / 10);
        assert(d.drop_last() =~= crate::text::decimal(n / 10));
        assert(d[0] == crate::text::decimal(n / 10)[0]);
    } else {
        assert(d.drop_last() =~= seq![]);
    }
}

/// A number on the screen reads back as the number, in as many columns as it was
/// given or as it needs.
pub proof fn law_number(n: nat, width: nat)
    ensures
        writes(crate::screen::number(n, width), n as int, width as int),
        writes(
            crate::text::right_aligned(crate::text::decimal(n), width),
            n as int,
            width as int,
        ),
{
    lemma_decimal_reads_back(n);
    let d = crate::text::decimal(n);
    let s = crate::screen::number(n, width);
    let pad = s.len() - d.len();
    assert(s.skip(pad) =~= d);
    assert forall|i: int| pad <= i < s.len() implies '0' <= #[trigger] s[i] <= '9' by {
        assert(s[i] == d[i - pad]);
    }
    assert(writes_after(s, n as int, width as int, pad));
}

/// No two numbers are written alike.
pub proof fn law_numbers_differ(s: Seq<char>, m: int, n: int, width: int)
    requires
        writes(s, m, width),
        writes(s, n, width),
    ensures
        m == n,
{
    let a = choose|pad: int| writes_after(s, m, width, pad);
    let b = choose|pad: int| writes_after(s, n, width, pad);
    if a < b {
        assert(s[a] == ' ');
    } else if b < a {
        assert(s[b] == ' ');
    }
}

/// A status is shown by its name, and no two by the same.
pub proof fn law_names(a: ProcStatus, b: ProcStatus)
    ensures
        crate::screen::label(a) == name_of(a),
        crate::screen::label(a) == crate::screen::label(b) ==> a == b,
{
    reveal_strlit("Running");
    reveal_strlit("Paused");
    reveal_strlit("Stopped");
    reveal_strlit("Finished");
    let x = crate::screen::label(a);
    let y = crate::screen::label(b);
    if x == y {
        assert(x[0] == y[0]);
    }
}

/// The line of a process in the list tells its id, what is done, what there is to
/// do, and its status, whatever they are.
pub proof fn law_list_line(p: ProcState)
    ensures
        is_list_line(crate::screen::process_line_text(p), p),
{
    let a = crate::screen::number(p.id as nat, 2);
    let b = crate::screen::number(p.elapsed_ms as nat, 4);
    let c = crate::screen::number(p.total_ms as nat, 4);
    law_number(p.id as nat, 2);
    law_number(p.elapsed_ms as nat, 4);
    law_number(p.total_ms as nat, 4);
    law_names(p.status, p.status);
    assert(lists_process(crate::screen::process_line_text(p), p, a, b, c));
}

/// The line of a process in the closing summary tells its number, what there is
/// to do, what is done, and its status, whatever they are.
pub proof fn law_summary_line(id: usize, p: ProcState)
    ensures
        is_summary_line(crate::screen::summary_line_text(id, p), id, p),
{
    let a = crate::screen::number(id as nat, 2);
    let b = crate::screen::number(p.total_ms as nat, 4);
    let c = crate::screen::number(p.elapsed_ms as nat, 4);
    law_number(id as nat, 2);
    law_number(p.total_ms as nat, 4);
    law_number(p.elapsed_ms as nat, 4);
    law_names(p.status, p.status);
    assert(sums_up_process(crate::screen::summary_line_text(id, p), id, p, a, b, c));
}

/// Two processes that differ in their status and their times alone have lines
/// that differ in the name of the status at the end alone, in the list and in the
/// closing summary.
pub proof fn law_status_ends_the_line(id: usize, p: ProcState, q: ProcState)
    requires
        p.id == q.id,
        p.total_ms == q.total_ms,
        p.elapsed_ms == q.elapsed_ms,
    ensures
        exists|stem: Seq<char>| #[trigger]
            (stem + name_of(p.status)) == crate::screen::summary_line_text(id, p) && stem + name_of(
                q.status,
            ) == crate::screen::summary_line_text(id, q),
        exists|stem: Seq<char>| #[trigger]
            (stem + name_of(p.status)) == crate::screen::process_line_text(p) && stem + name_of(
                q.status,
            ) == crate::screen::process_line_text(q),
{
    law_names(p.status, q.status);
    law_names(q.status, p.status);
    let line = crate::screen::summary_line_text(id, p);
    let other = crate::screen::summary_line_text(id, q);
    let stem = line.take(line.len() - name_of(p.status).len());
    assert(stem + name_of(p.status) =~= line);
    assert(stem + name_of(q.status) =~= other);
    let row = crate::screen::process_line_text(p);
    let other_row = crate::screen::process_line_text(q);
    let row_stem = row.take(row.len() - name_of(p.status).len());
    assert(row_stem + name_of(p.status) =~= row);
    assert(row_stem + name_of(q.status) =~= other_row);
}

/// The details of a process tell its id, its status, what is done, what there is
/// to do, and the percentage that was given, whatever they are; without a
/// process they say so, whatever the percentage.
pub proof fn law_details(p: ProcState, percent: Seq<char>)
    ensures
        is_details(crate::screen::detail_text(Some(p), percent), p, percent),
        crate::screen::detail_text(None, percent) == "No process selected"@,
{
    let a = crate::screen::number(p.id as nat, 0);
    let b = crate::screen::number(p.elapsed_ms as nat, 0);
    let c = crate::screen::number(p.total_ms as nat, 0);
    law_number(p.id as nat, 0);
    law_number(p.elapsed_ms as nat, 0);
    law_number(p.total_ms as nat, 0);
    law_names(p.status, p.status);
    assert(details_process(crate::screen::detail_text(Some(p), percent), p, percent, a, b, c));
}

/// The second line of a row tells the percentage that was given.
pub proof fn law_progress_line(percent: Seq<char>)
    ensures
        crate::screen::progress_line_text(percent).len() == "Progress: "@.len() + percent.len() + 1,
        crate::screen::progress_line_text(percent).take("Progress: "@.len() as int)
            == "Progress: "@,
        crate::screen::progress_line_text(percent).skip("Progress: "@.len() as int).drop_last()
            == percent,
        crate::screen::progress_line_text(percent).last() == '%',
{
    reveal_strlit("%");
    let text = crate::screen::progress_line_text(percent);
    assert(text.take("Progress: "@.len() as int) =~= "Progress: "@);
    assert(text.skip("Progress: "@.len() as int).drop_last() =~= percent);
}

/// The headline tells the keys, the time gone by and the time that the simulation
/// lasts, or, for the summary, the latter alone.
pub proof fn law_headline(elapsed: Seq<char>, secs: u64)
    ensures
        is_headline(crate::screen::header_text(false, elapsed, secs), elapsed, secs),
        is_summary_headline(crate::screen::header_text(true, elapsed, secs), secs),
{
    let a = crate::screen::number(secs as nat, 0);
    law_number(secs as nat, 0);
    assert(heads_simulation(crate::screen::header_text(false, elapsed, secs), elapsed, secs, a));
    assert(heads_summary(crate::screen::header_text(true, elapsed, secs), secs, a));
}

/// The tally tells how many have finished, and of how many.
pub proof fn law_tally(finished: nat, all: usize)
    ensures
        is_tally(crate::screen::tally_text(finished, all), finished as int, all as int),
{
    let a = crate::screen::number(finished, 0);
    let b = crate::screen::number(all as nat, 0);
    law_number(finished, 0);
    law_number(all as nat, 0);
    assert(counts_finished(
        crate::screen::tally_text(finished, all),
        finished as int,
        all as int,
        a,
        b,
    ));
}

/// The set of the finished has as many members as a count finds.
pub proof fn law_finished_are_counted(procs: Map<usize, ProcState>, n: nat)
    requires
        n <= usize::MAX,
    ensures
        crate::screen::finished_below(procs, n as int).finite(),
        crate::screen::finished_below(procs, n as int).len() == finished_count(procs, n),
    decreases n,
{
    let all = crate::screen::finished_below(procs, n as int);
    if n == 0 {
        assert(all =~= Set::<usize>::empty());
    } else {
        let k = (n - 1) as usize;
        law_finished_are_counted(procs, (n - 1) as nat);
        let most = crate::screen::finished_below(procs, n - 1);
        if procs.contains_key(k) && procs[k].status is Finished {
            assert(all =~= most.insert(k));
        } else {
            assert(all =~= most);
        }
    }
}

/// How many numbers below `n` have a process.
pub open spec fn present_count(procs: Map<usize, ProcState>, n: nat) -> nat
    decreases n,
{
    if n == 0 {
        0
    } else {
        present_count(procs, (n - 1) as nat) + if procs.contains_key((n - 1) as usize) {
            1nat
        } else {
            0nat
        }
    }
}

/// The summary's lines on processes, each in the place that the processes before
/// it leave to it.
proof fn lemma_summary_body(procs: Map<usize, ProcState>, n: nat, id: usize)
    requires
        n <= usize::MAX,
    ensures
        crate::screen::summary_body(procs, n).len() == present_count(procs, n),
        id < n && procs.contains_key(id) ==> {
            &&& present_count(procs, id as nat) < present_count(procs, n)
            &&& is_summary_line(
                crate::screen::summary_body(procs, n)[present_count(procs, id as nat) as int],
                id,
                procs[id],
            )
        },
    decreases n,
{
    if n > 0 {
        lemma_summary_body(procs, (n - 1) as nat, id);
        if procs.contains_key(id) {
            law_summary_line(id, procs[id]);
        }
    }
}

/// The closing summary on any table: a heading; a line for each process under a
/// number below `all`, by ascending number, that tells what there is to do, what
/// is done and the status; how many of them have finished, out of `all`; and a
/// last line. Numbers without a process get no line.
pub proof fn law_closing_summary(procs: Map<usize, ProcState>, all: usize, id: usize)
    ensures
        ({
            let t = crate::screen::summary_text(procs, all);
            let lines = present_count(procs, all as nat) as int;
            &&& t.len() == lines + 3
            &&& t[0] == "\nFinal Summary:"@
            &&& id < all && procs.contains_key(id) ==> is_summary_line(
                t[1 + present_count(procs, id as nat) as int],
                id,
                procs[id],
            )
            &&& is_tally(t[lines + 1], finished_count(procs, all as nat) as int, all as int)
            &&& t[lines + 2] == "Simulation complete."@
        }),
{
    lemma_summary_body(procs, all as nat, id);
    law_finished_are_counted(procs, all as nat);
    law_tally(finished_count(procs, all as nat), all);
}

/// In a simulation no number is left out: the line on the process `id` is the one
/// that follows the heading and `id` others.
pub proof fn law_closing_summary_of_a_simulation(s: SimState, id: usize)
    requires
        s.inv(),
        id < s.num_procs,
    ensures
        ({
            let t = crate::screen::summary_text(s.procs, s.num_procs);
            &&& t.len() == s.num_procs + 3
            &&& is_summary_line(t[id + 1], id, s.procs[id])
            &&& is_tally(
                t[s.num_procs + 1],
                finished_count(s.procs, s.num_procs as nat) as int,
                s.num_procs as int,
            )
        }),
{
    lemma_none_left_out(s.procs, s.num_procs as nat);
    lemma_none_left_out(s.procs, id as nat);
    law_closing_summary(s.procs, s.num_procs, id);
}

/// Where every number below `n` has a process, there are `n` of them.
proof fn lemma_none_left_out(procs: Map<usize, ProcState>, n: nat)
    requires
        n <= usize::MAX,
        forall|k: usize| k < n ==> #[trigger] procs.contains_key(k),
    ensures
        present_count(procs, n) == n,
    decreases n,
{
    if n > 0 {
        lemma_none_left_out(procs, (n - 1) as nat);
    }
}

/// A process that comes to be finished raises the count by one, one that ceases
/// to be lowers it by one, and any other change of a process leaves it alone.
pub proof fn law_tally_counts_each_once(
    procs: Map<usize, ProcState>,
    n: nat,
    id: usize,
    p: ProcState,
)
    requires
        n <= usize::MAX,
        procs.contains_key(id),
    ensures
        finished_count(procs.insert(id, p), n) == finished_count(procs, n) + if id < n {
            (if p.status is Finished { 1int } else { 0 }) - (if procs[id].status is Finished {
                1int
            } else {
                0
            })
        } else {
            0
        },
    decreases n,
{
    if n > 0 {
        law_tally_counts_each_once(procs, (n - 1) as nat, id, p);
    }
}

/// The lines are told one by one.
pub proof fn law_texts(lines: Seq<String>)
    ensures
        crate::screen::texts(lines).len() == lines.len(),
        forall|i: int|
            0 <= i < lines.len() ==> #[trigger] crate::screen::texts(lines)[i] == lines[i]@,
{
}

/// A list of any table has a row for each of its keys and no other, by ascending
/// key; each tells of the process under its key, and shows the part of it that is
/// done.
pub proof fn law_list(rows: Seq<Row>, procs: Map<usize, ProcState>)
    requires
        crate::screen::shows(rows, procs),
    ensures
        forall|i: int, j: int|
            0 <= i < j < rows.len() ==> (#[trigger] rows[i]).key < (#[trigger] rows[j]).key,
        forall|k: usize| #[trigger]
            procs.contains_key(k) ==> exists|i: int| 0 <= i < rows.len() && rows[i].key == k,
        forall|i: int|
            0 <= i < rows.len() ==> {
                let p = procs[(#[trigger] rows[i]).key];
                &&& procs.contains_key(rows[i].key)
                &&& is_list_line(rows[i].line@, p)
                &&& p.total_ms > 0 ==> {
                    &&& rows[i].ratio.den == p.total_ms
                    &&& crate::behaviour::is_least(
                        rows[i].ratio.num as int,
                        p.elapsed_ms as int,
                        p.total_ms as int,
                    )
                }
                &&& p.total_ms == 0 ==> rows[i].ratio.num == 1 && rows[i].ratio.den == 1
            },
{
    let keys = crate::screen::row_keys(rows);
    assert forall|i: int, j: int| 0 <= i < j < rows.len() implies (#[trigger] rows[i]).key < (
    #[trigger] rows[j]).key by {
        assert(keys[i] < keys[j]);
    }
    assert forall|k: usize| #[trigger] procs.contains_key(k) implies exists|i: int|
        0 <= i < rows.len() && rows[i].key == k by {
        assert(keys.contains(k));
        let i = choose|i: int| 0 <= i < keys.len() && keys[i] == k;
        assert(rows[i].key == k);
    }
    assert forall|i: int| 0 <= i < rows.len() implies procs.contains_key((#[trigger] rows[i]).key)
        && is_list_line(rows[i].line@, procs[rows[i].key]) by {
        assert(keys[i] == rows[i].key);
        assert(keys.contains(rows[i].key));
        law_list_line(procs[rows[i].key]);
    }
}

/// A list of the keys of a table has each of them once, in ascending order, and
/// nothing else.
pub proof fn law_sorted_keys(ids: Seq<usize>, procs: Map<usize, ProcState>)
    requires
        crate::roster::lists_keys(ids, procs),
    ensures
        forall|i: int, j: int| 0 <= i < j < ids.len() ==> #[trigger] ids[i] < #[trigger] ids[j],
        forall|i: int| 0 <= i < ids.len() ==> procs.contains_key(#[trigger] ids[i]),
        forall|k: usize| #[trigger]
            procs.contains_key(k) ==> exists|i: int| 0 <= i < ids.len() && ids[i] == k,
{
    assert forall|i: int| 0 <= i < ids.len() implies procs.contains_key(#[trigger] ids[i]) by {
        assert(ids.contains(ids[i]));
    }
    assert forall|k: usize| #[trigger] procs.contains_key(k) implies exists|i: int|
        0 <= i < ids.len() && ids[i] == k by {
        assert(ids.contains(k));
    }
}

/// A drawing is under the headline that was asked for, lists the processes, marks
/// the selected one, and details it.
pub proof fn law_drawing(
    d: Drawing,
    s: SimState,
    area: Area,
    show_summary: bool,
    elapsed: Seq<char>,
    percent: Seq<char>,
)
    requires
        crate::drawing::draws(d, s, area, show_summary, elapsed, percent),
    ensures
        show_summary ==> is_summary_headline(d.header, s.sim_duration_secs),
        !show_summary ==> is_headline(d.header, elapsed, s.sim_duration_secs),
        crate::screen::shows(d.rows, s.procs),
        d.selected == s.selected,
        s.procs.contains_key(s.selected) ==> is_details(
            d.details,
            s.procs[s.selected],
            percent,
        ),
        !s.procs.contains_key(s.selected) ==> d.details == "No process selected"@,
        d.gauge == s.gauge(),
        crate::layout::lays_out(d.areas, area),
{
    law_headline(elapsed, s.sim_duration_secs);
    law_details(s.procs[s.selected], percent);
}

/// What the parts of the screen ask for: three lines for the headline, eight or
/// more for the list, seven for the strip; in the strip, six tenths for the
/// details and four for the gauge.
pub proof fn law_sizes()
    ensures
        crate::layout::screen_sizes() == seq![Size::Length(3), Size::Min(8), Size::Length(7)],
        crate::layout::strip_sizes() == seq![Size::Percentage(60), Size::Percentage(40)],
{
}

/// On a screen with room for a margin of one cell, headline, list and strip lie
/// under one another inside it, as wide as it leaves, and fill it; details and
/// gauge share the strip side by side, six tenths to the nearest cell and the
/// rest. With twenty lines or more the headline has three, the strip has seven,
/// and the list has the others; with fewer the list has eight, or all there are.
pub proof fn law_places(areas: ScreenAreas, area: Area)
    requires
        crate::layout::lays_out(areas, area),
        2 <= area.width,
        2 <= area.height,
        area.x < u16::MAX,
        area.y < u16::MAX,
    ensures
        areas.header.x == area.x + 1 && areas.header.width == area.width - 2,
        areas.list.x == area.x + 1 && areas.list.width == area.width - 2,
        areas.gauge.y == areas.details.y && areas.gauge.height == areas.details.height,
        area.x + area.width - 1 <= u16::MAX ==> {
            &&& areas.details.x == area.x + 1
            &&& areas.gauge.x == areas.details.x + areas.details.width
            &&& areas.gauge.x + areas.gauge.width == area.x + area.width - 1
            &&& -5 < 10 * areas.details.width - 6 * (area.width - 2) < 5
        },
        area.y + area.height - 1 <= u16::MAX ==> {
            &&& areas.header.y == area.y + 1
            &&& areas.list.y == areas.header.y + areas.header.height
            &&& areas.details.y == areas.list.y + areas.list.height
            &&& areas.details.y + areas.details.height == area.y + area.height - 1
            &&& area.height >= 20 ==> areas.header.height == 3 && areas.details.height == 7
            &&& area.height < 20 ==> {
                &&& crate::behaviour::is_least(areas.list.height as int, 8, area.height - 2)
                &&& areas.header.height <= 3 && areas.details.height <= 7
            }
        },
{
    let parts = seq![areas.header, areas.list, areas.details];
    assert(parts[0] == areas.header && parts[1] == areas.list && parts[2] == areas.details);
}

/// A screen without room for the margin has no room for anything.
pub proof fn law_no_places(areas: ScreenAreas, area: Area)
    requires
        crate::layout::lays_out(areas, area),
        area.width < 2 || area.height < 2,
    ensures
        areas.header.width == 0 && areas.header.height == 0,
        areas.list.width == 0 && areas.list.height == 0,
        areas.details.width == 0 && areas.details.height == 0,
        areas.gauge.width == 0 && areas.gauge.height == 0,
{
    let parts = seq![areas.header, areas.list, areas.details];
    assert(parts[0] == areas.header && parts[1] == areas.list && parts[2] == areas.details);
}

/// The corner inside a margin of one cell can be named on every screen but one
/// whose own corner is in the last column or line; a screen without room for the
/// margin needs none.
pub proof fn law_margin(area: Area)
    ensures
        crate::layout::can_inset(area, 1) <==> area.width < 2 || area.height < 2 || (area.x
            < u16::MAX && area.y < u16::MAX),
{
}

/// Five processes and ten seconds, where nothing else is asked for; a worker
/// begins within a fifth of a second, works by tenths of a second and looks again
/// after half as much more; ticks come by quarters of a second.
pub proof fn law_defaults()
    ensures
        crate::args::DEFAULT_NUM_PROCS == 5,
        crate::args::DEFAULT_DURATION_SECS == 10,
        crate::random::MAX_START_DELAY_MS == 200,
        crate::worker::STEP_MS == 100,
        crate::worker::IDLE_MS == 150,
        4 * crate::clock::TICK_NANOS == crate::clock::NANOS_PER_SEC,
        crate::clock::NANOS_PER_SEC == 1_000_000_000,
{
}

/// An argument that writes a number stands for it, and one that is missing or
/// writes none for the default.
pub proof fn law_argument(args: Seq<String>, i: int, max: nat, default: nat)
    requires
        0 <= i,
    ensures
        args.len() <= i ==> crate::args::number_at(args, i, max, default) == default,
        i < args.len() && crate::args::parsed(args[i]@, max) is None ==> crate::args::number_at(
            args,
            i,
            max,
            default,
        ) == default,
        i < args.len() && crate::args::parsed(args[i]@, max) is Some
            ==> crate::args::parsed(args[i]@, max) == Some(
            crate::args::number_at(args, i, max, default),
        ),
{
}

/// `s` is one decimal digit or more, and nothing else.
pub open spec fn is_numeral(s: Seq<char>) -> bool {
    &&& s.len() > 0
    &&& forall|i: int| 0 <= i < s.len() ==> '0' <= #[trigger] s[i] <= '9'
}

/// Digits are read as the number of their value, where it is not too large, and
/// nothing else is read, but for digits after one plus sign, which counts for
/// nothing.
pub proof fn law_numerals(s: Seq<char>, max: nat)
    ensures
        s.len() == 0 || s[0] != '+' ==> {
            &&& crate::args::parsed(s, max) is Some <==> is_numeral(s) && value_of(s) <= max
            &&& crate::args::parsed(s, max) matches Some(n) ==> n == value_of(s)
            &&& crate::args::parsed(seq!['+'] + s, max) == crate::args::parsed(s, max)
        },
        s.len() > 0 && s[0] == '+' ==> crate::args::parsed(seq!['+'] + s, max) is None,
{
    let signed = seq!['+'] + s;
    assert(crate::args::unsigned_digits(signed) =~= s);
    if s.len() == 0 || s[0] != '+' {
        if is_numeral(s) {
            lemma_values_agree(s);
            assert forall|i: int| 0 <= i < s.len() implies crate::args::is_digit(
                #[trigger] s[i],
            ) by {}
        }
        if crate::args::parsed(s, max) is Some {
            assert forall|i: int| 0 <= i < s.len() implies '0' <= #[trigger] s[i] <= '9' by {
                assert(crate::args::is_digit(s[i]));
            }
        }
    } else {
        assert(!crate::args::is_digit(s[0]));
    }
}

/// The two ways of telling the value of digits agree.
proof fn lemma_values_agree(s: Seq<char>)
    requires
        is_numeral(s),
    ensures
        crate::args::digits_value(s) == value_of(s),
    decreases s.len(),
{
    reveal_with_fuel(value_of, 2);
    reveal_with_fuel(crate::args::digits_value, 2);
    if s.len() > 1 {
        lemma_values_agree(s.drop_last());
    }
}

} // verus!
