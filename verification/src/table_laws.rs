//! What holds of the process table: which processes it shows, in which order, and what each row
//! says.

use vstd::prelude::*;
use crate::app;
use crate::app::{AppState, CurrentScreen};
use crate::keys::{KeyCode, KeyPress};
use crate::laws;
use crate::process;
use crate::process::{ProcessEntry, ProcessStatus};
use crate::scene;
use crate::scene::{ColumnWidth, ProcessTable, RowColor, TableRow};
use crate::search;
use crate::text;
use crate::text_laws;

verus! {

// The order of CPU usages

/// CPU usages compare as the numbers do whose bits are given. Of two that are not negative the one
/// with more bits is higher, of two that are negative the one with fewer; one that is not negative
/// is higher than one that is, but for the two zeros; and what is not a number is neither higher
/// nor lower than anything.
pub proof fn law_usages_compare_by_their_bits(p: ProcessEntry, q: ProcessEntry)
    ensures
        p.usage_bits <= 0x7f80_0000 && q.usage_bits <= 0x7f80_0000 ==> process::above(p, q) == (
        p.usage_bits > q.usage_bits),
        0x8000_0000 <= p.usage_bits <= 0xff80_0000 && 0x8000_0000 <= q.usage_bits <= 0xff80_0000
            ==> process::above(p, q) == (p.usage_bits < q.usage_bits),
        p.usage_bits <= 0x7f80_0000 && 0x8000_0000 <= q.usage_bits <= 0xff80_0000 ==> {
            &&& process::above(p, q) == (p.usage_bits != 0 || q.usage_bits != 0x8000_0000)
            &&& !process::above(q, p)
        },
        0x7f80_0000 < p.usage_bits < 0x8000_0000 || p.usage_bits > 0xff80_0000 ==> !process::above(
            p,
            q,
        ) && !process::above(q, p),
        process::level(p, q) <==> !process::above(p, q) && !process::above(q, p),
{
}

/// The rank of a usage is its bits where it is not negative, and the negative of the bits below
/// the sign where it is.
pub proof fn law_ranks_are_signed_bits(bits: u32)
    ensures
        bits < 0x8000_0000 ==> process::usage_rank_spec(bits) == bits,
        bits >= 0x8000_0000 ==> process::usage_rank_spec(bits) + bits == 0x8000_0000,
        process::is_nan(bits) <==> 0x7f80_0000 < bits < 0x8000_0000 || bits > 0xff80_0000,
{
}

/// A list of processes is one to sort exactly if every usage in it is a number, or none in it is
/// higher than another.
pub proof fn law_lists_that_have_an_order(processes: Seq<ProcessEntry>)
    ensures
        process::sortable(processes) <==> (forall|i: int|
            #![trigger processes[i]]
            0 <= i < processes.len() ==> processes[i].usage_bits <= 0x7f80_0000 || 0x8000_0000
                <= processes[i].usage_bits <= 0xff80_0000) || (forall|i: int, j: int|
            #![trigger processes[i], processes[j]]
            0 <= i < processes.len() && 0 <= j < processes.len() ==> !process::above(
                processes[i],
                processes[j],
            )),
{
    if process::all_numbers(processes) {
        assert forall|i: int| #![trigger processes[i]] 0 <= i < processes.len() implies (
        processes[i].usage_bits <= 0x7f80_0000 || 0x8000_0000 <= processes[i].usage_bits
            <= 0xff80_0000) by {
            assert(!process::is_nan(processes[i].usage_bits));
        }
    }
}

/// Process ids differ exactly if no two places hold the same.
pub proof fn law_ids_that_differ(processes: Seq<ProcessEntry>)
    ensures
        process::pids_differ(processes) <==> forall|i: int, j: int|
            #![trigger processes[i], processes[j]]
            0 <= i < processes.len() && 0 <= j < processes.len() && processes[i].pid
                == processes[j].pid ==> i == j,
{
    if process::pids_differ(processes) {
        assert forall|i: int, j: int|
            #![trigger processes[i], processes[j]]
            0 <= i < processes.len() && 0 <= j < processes.len() && processes[i].pid
                == processes[j].pid implies i == j by {
            if i < j {
                assert(processes[i].pid != processes[j].pid);
            } else if j < i {
                assert(processes[j].pid != processes[i].pid);
            }
        }
    }
}

// The search

/// A process matches a search text exactly if the text is empty, or in lower case it stands in the
/// name in lower case, with anything before it and behind, or so in the id.
pub proof fn law_matching_is_containing(p: ProcessEntry, query: Seq<char>)
    ensures
        process::matches_query(p, query) <==> query.len() == 0 || (exists|
            before: Seq<char>,
            behind: Seq<char>,
        |
            text::lowercase(p.name@) == #[trigger] (before + text::lowercase(query) + behind)) || (
        exists|before: Seq<char>, behind: Seq<char>|
            process::pid_text_spec(p.pid) == #[trigger] (before + text::lowercase(query)
                + behind)),
{
    let wanted = text::lowercase(query);
    let name = text::lowercase(p.name@);
    let pid = process::pid_text_spec(p.pid);
    if text::contains_text(name, wanted) {
        text_laws::law_what_is_found_is_there(name, wanted);
    }
    if text::contains_text(pid, wanted) {
        text_laws::law_what_is_found_is_there(pid, wanted);
    }
    assert forall|before: Seq<char>, behind: Seq<char>|
        name == #[trigger] (before + wanted + behind) implies process::matches_query(
        p,
        query,
    ) by {
        text_laws::law_a_part_is_found_anywhere(before, wanted, behind);
    }
    assert forall|before: Seq<char>, behind: Seq<char>|
        pid == #[trigger] (before + wanted + behind) implies process::matches_query(p, query) by {
        text_laws::law_a_part_is_found_anywhere(before, wanted, behind);
    }
}

proof fn lemma_shown_counts(processes: Seq<ProcessEntry>, query: Seq<char>, p: ProcessEntry)
    ensures
        process::shown(processes, query).contains(p) <==> processes.contains(p)
            && process::matches_query(p, query),
{
    broadcast use vstd::seq_lib::group_to_multiset_ensures;

    laws::law_shown_are_the_matching(processes, query);
    let rows = process::shown(processes, query);
    assert(rows.contains(p) <==> rows.to_multiset().count(p) > 0);
    assert(processes.contains(p) <==> processes.to_multiset().count(p) > 0);
}

/// A process is shown whose name, in lower case, holds the search text in lower case, however much
/// stands before it and behind.
pub proof fn law_part_of_a_name_finds(
    processes: Seq<ProcessEntry>,
    query: Seq<char>,
    p: ProcessEntry,
    before: Seq<char>,
    behind: Seq<char>,
)
    requires
        processes.contains(p),
        text::lowercase(p.name@) == before + text::lowercase(query) + behind,
    ensures
        process::shown(processes, query).contains(p),
{
    text_laws::law_a_part_is_found_anywhere(before, text::lowercase(query), behind);
    lemma_shown_counts(processes, query, p);
}

/// A process is shown whose id holds the search text, however much stands before it and behind.
pub proof fn law_part_of_an_id_finds(
    processes: Seq<ProcessEntry>,
    query: Seq<char>,
    p: ProcessEntry,
    before: Seq<char>,
    behind: Seq<char>,
)
    requires
        processes.contains(p),
        process::pid_text_spec(p.pid) == before + text::lowercase(query) + behind,
    ensures
        process::shown(processes, query).contains(p),
{
    text_laws::law_a_part_is_found_anywhere(before, text::lowercase(query), behind);
    lemma_shown_counts(processes, query, p);
}

/// What is shown was read, and holds the search text in its name or in its id.
pub proof fn law_nothing_else_is_found(
    processes: Seq<ProcessEntry>,
    query: Seq<char>,
    p: ProcessEntry,
)
    requires
        process::shown(processes, query).contains(p),
    ensures
        processes.contains(p),
        query.len() > 0 ==> (exists|before: Seq<char>, behind: Seq<char>|
            text::lowercase(p.name@) == #[trigger] (before + text::lowercase(query) + behind)) || (
        exists|before: Seq<char>, behind: Seq<char>|
            process::pid_text_spec(p.pid) == #[trigger] (before + text::lowercase(query)
                + behind)),
{
    lemma_shown_counts(processes, query, p);
    law_matching_is_containing(p, query);
}

/// A search text that is empty shows every process that was read, as often as it was read, and
/// any search text shows a process as often as it was read, or not at all.
pub proof fn law_each_is_shown_as_often_as_read(
    processes: Seq<ProcessEntry>,
    query: Seq<char>,
    p: ProcessEntry,
)
    ensures
        query.len() == 0 ==> process::shown(processes, query).to_multiset()
            == processes.to_multiset(),
        process::shown(processes, query).contains(p) ==> process::shown(
            processes,
            query,
        ).to_multiset().count(p) == processes.to_multiset().count(p),
{
    broadcast use vstd::seq_lib::group_to_multiset_ensures;

    let rows = process::shown(processes, query);
    laws::law_shown_are_the_matching(processes, query);
    assert(rows.contains(p) <==> rows.to_multiset().count(p) > 0);
    if query.len() == 0 {
        assert(rows.to_multiset() =~= processes.to_multiset());
    }
}

proof fn lemma_filters_commute<A>(s: Seq<A>, a: spec_fn(A) -> bool, b: spec_fn(A) -> bool)
    ensures
        s.filter(a).filter(b) == s.filter(b).filter(a),
    decreases s.len(),
{
    reveal(Seq::filter);
    if s.len() > 0 {
        let front = s.drop_last();
        let last = s.last();
        lemma_filters_commute(front, a, b);
        assert(front.filter(a).push(last).drop_last() =~= front.filter(a));
        assert(front.filter(b).push(last).drop_last() =~= front.filter(b));
    }
}

/// Among the processes that are shown, those with the same CPU usage as `q` stand in the order in
/// which they were read.
pub proof fn law_shown_are_stable(
    processes: Seq<ProcessEntry>,
    query: Seq<char>,
    q: ProcessEntry,
)
    requires
        process::sortable(processes),
        processes.contains(q),
    ensures
        process::shown(processes, query).filter(
            |p: ProcessEntry| !process::above(p, q) && !process::above(q, p),
        ) == processes.filter(
            |p: ProcessEntry| !process::above(p, q) && !process::above(q, p),
        ).filter(|p: ProcessEntry| process::matches_query(p, query)),
{
    let near = |p: ProcessEntry| !process::above(p, q) && !process::above(q, p);
    let level = |p: ProcessEntry| process::level(p, q);
    let found = |p: ProcessEntry| process::matches_query(p, query);
    assert(near =~= level);
    lemma_filters_commute(process::by_usage(processes), found, near);
    laws::law_usage_stable(processes, q);
}

// The rows

/// A row of the table says of its process: the id, the name, the owner or nothing, the usage with
/// a percent sign, and the memory; green where it runs, yellow where it sleeps, red where it is a
/// zombie.
pub proof fn law_row_says_what_was_read(row: TableRow, p: ProcessEntry)
    requires
        row.shows(p),
    ensures
        row.pid@ == process::pid_text_spec(p.pid),
        row.name@ == p.name@,
        p.user matches Some(user) ==> row.user@ == user@,
        p.user is None ==> row.user@.len() == 0,
        row.cpu@.len() == p.usage_1@.len() + 1,
        row.cpu@[p.usage_1@.len() as int] == '%',
        row.cpu@.subrange(0, p.usage_1@.len() as int) == p.usage_1@,
        row.memory@ == p.memory_1@,
        row.color == RowColor::Green <==> p.status == ProcessStatus::Run,
        row.color == RowColor::Yellow <==> p.status == ProcessStatus::Sleep,
        row.color == RowColor::Red <==> p.status == ProcessStatus::Zombie,
{
    reveal_strlit("%");
    assert(row.cpu@.subrange(0, p.usage_1@.len() as int) =~= p.usage_1@);
}

/// The heads of the columns, from left to right, how wide the columns are, and the mark in front
/// of the selected row.
pub proof fn law_heads_of_the_table(table: ProcessTable, processes: Seq<ProcessEntry>)
    requires
        table.shows(processes),
    ensures
        table.columns@.len() == 5,
        table.columns@[0].label@ == "PID"@ && table.columns@[0].width == ColumnWidth::Max(10),
        table.columns@[1].label@ == "Name"@ && table.columns@[1].width == ColumnWidth::Fill(1),
        table.columns@[2].label@ == "User"@ && table.columns@[2].width == ColumnWidth::Max(10),
        table.columns@[3].label@ == "CPU%"@ && table.columns@[3].width == ColumnWidth::Max(8),
        table.columns@[4].label@ == "MemMB"@ && table.columns@[4].width == ColumnWidth::Max(10),
        table.marker@ == ">>"@,
{
}

/// The same of the columns alone.
pub proof fn law_heads_of_the_columns(columns: Seq<scene::Column>)
    requires
        scene::columns_named(columns),
    ensures
        columns.len() == 5,
        columns[0].label@ == "PID"@ && columns[0].width == ColumnWidth::Max(10),
        columns[1].label@ == "Name"@ && columns[1].width == ColumnWidth::Fill(1),
        columns[2].label@ == "User"@ && columns[2].width == ColumnWidth::Max(10),
        columns[3].label@ == "CPU%"@ && columns[3].width == ColumnWidth::Max(8),
        columns[4].label@ == "MemMB"@ && columns[4].width == ColumnWidth::Max(10),
{
}

/// The row at each place of the table carries the process at that place: its id, its name, its
/// owner, its usage, its memory and the colour of its status; and there are as many rows as
/// processes.
pub proof fn law_row_for_row(table: ProcessTable, processes: Seq<ProcessEntry>, i: int)
    requires
        table.shows(processes),
    ensures
        table.rows@.len() == processes.len(),
        0 <= i < processes.len() ==> {
            let row = table.rows@[i];
            let p = processes[i];
            &&& row.pid@ == process::pid_text_spec(p.pid)
            &&& row.name@ == p.name@
            &&& p.user matches Some(user) ==> row.user@ == user@
            &&& p.user is None ==> row.user@.len() == 0
            &&& row.cpu@ == p.usage_1@ + "%"@
            &&& row.memory@ == p.memory_1@
            &&& row.color == RowColor::Green <==> p.status == ProcessStatus::Run
            &&& row.color == RowColor::Yellow <==> p.status == ProcessStatus::Sleep
            &&& row.color == RowColor::Red <==> p.status == ProcessStatus::Zombie
        },
{
    if 0 <= i < processes.len() {
        assert(table.rows@[i].shows(processes[i]));
    }
}

/// The same of the rows alone.
pub proof fn law_rows_for_processes(rows: Seq<TableRow>, processes: Seq<ProcessEntry>, i: int)
    requires
        scene::rows_show(rows, processes),
    ensures
        rows.len() == processes.len(),
        0 <= i < processes.len() ==> {
            &&& rows[i].pid@ == process::pid_text_spec(processes[i].pid)
            &&& rows[i].name@ == processes[i].name@
            &&& processes[i].user matches Some(user) ==> rows[i].user@ == user@
            &&& processes[i].user is None ==> rows[i].user@.len() == 0
            &&& rows[i].cpu@ == processes[i].usage_1@ + "%"@
            &&& rows[i].memory@ == processes[i].memory_1@
        },
{
    if 0 <= i < processes.len() {
        assert(rows[i].shows(processes[i]));
    }
}

/// The highest CPU usage stands first: of two processes that were read, the row with the id of the
/// one with the higher usage stands above the row with the id of the other.
pub proof fn law_higher_usage_stands_higher(
    table: ProcessTable,
    processes: Seq<ProcessEntry>,
    query: Seq<char>,
    p: ProcessEntry,
    q: ProcessEntry,
    i: int,
    j: int,
)
    requires
        process::pids_differ(processes),
        process::sortable(processes),
        table.shows(process::shown(processes, query)),
        processes.contains(p),
        processes.contains(q),
        process::above(p, q),
        0 <= i < table.rows@.len(),
        0 <= j < table.rows@.len(),
        table.rows@[i].pid@ == process::pid_text_spec(p.pid),
        table.rows@[j].pid@ == process::pid_text_spec(q.pid),
    ensures
        i < j,
{
    let rows = process::shown(processes, query);
    laws::law_no_pid_twice(processes, query);
    law_row_for_row(table, rows, i);
    law_row_for_row(table, rows, j);
    lemma_row_is_its_process(processes, query, p, i);
    lemma_row_is_its_process(processes, query, q, j);
    laws::law_shown_descends(processes, query);
    if j < i {
        assert(!process::above(rows[i], rows[j]));
    }
}

proof fn lemma_row_is_its_process(
    processes: Seq<ProcessEntry>,
    query: Seq<char>,
    p: ProcessEntry,
    i: int,
)
    requires
        process::pids_differ(processes),
        processes.contains(p),
        0 <= i < process::shown(processes, query).len(),
        process::pid_text_spec(process::shown(processes, query)[i].pid)
            == process::pid_text_spec(p.pid),
    ensures
        process::shown(processes, query)[i] == p,
{
    let rows = process::shown(processes, query);
    assert(rows.contains(rows[i]));
    lemma_shown_counts(processes, query, rows[i]);
    if rows[i].pid != p.pid {
        text_laws::law_pid_texts_differ(rows[i].pid, p.pid);
    }
    let a = choose|a: int| 0 <= a < processes.len() && processes[a] == rows[i];
    let b = choose|b: int| 0 <= b < processes.len() && processes[b] == p;
    law_ids_that_differ(processes);
    assert(processes[a].pid == processes[b].pid);
}

/// The same over the bits: with the highest usage first, a usage of more bits stands above one of
/// fewer, where neither is negative.
pub proof fn law_more_usage_bits_stand_higher(
    table: ProcessTable,
    processes: Seq<ProcessEntry>,
    query: Seq<char>,
    a: int,
    b: int,
    i: int,
    j: int,
)
    requires
        forall|m: int, n: int|
            #![trigger processes[m], processes[n]]
            0 <= m < n < processes.len() ==> processes[m].pid != processes[n].pid,
        forall|m: int|
            0 <= m < processes.len() ==> (#[trigger] processes[m]).usage_bits <= 0x7f80_0000,
        table.shows(process::shown(processes, query)),
        0 <= a < processes.len(),
        0 <= b < processes.len(),
        processes[a].usage_bits > processes[b].usage_bits,
        0 <= i < table.rows@.len(),
        0 <= j < table.rows@.len(),
        table.rows@[i].pid@ == process::pid_text_spec(processes[a].pid),
        table.rows@[j].pid@ == process::pid_text_spec(processes[b].pid),
    ensures
        i < j,
{
    law_ids_that_differ(processes);
    assert(process::all_numbers(processes));
    law_usages_compare_by_their_bits(processes[a], processes[b]);
    law_higher_usage_stands_higher(
        table,
        processes,
        query,
        processes[a],
        processes[b],
        i,
        j,
    );
}

/// Every process that was read and holds the search text has a row, and only one.
pub proof fn law_each_process_has_its_row(
    table: ProcessTable,
    processes: Seq<ProcessEntry>,
    query: Seq<char>,
    p: ProcessEntry,
)
    requires
        process::pids_differ(processes),
        table.shows(process::shown(processes, query)),
        processes.contains(p),
        process::matches_query(p, query),
    ensures
        exists|i: int|
            0 <= i < table.rows@.len() && (#[trigger] table.rows@[i]).pid@
                == process::pid_text_spec(p.pid),
        forall|i: int, j: int|
            0 <= i < table.rows@.len() && 0 <= j < table.rows@.len() && (#[trigger]
            table.rows@[i]).pid@ == (#[trigger] table.rows@[j]).pid@ ==> i == j,
{
    let rows = process::shown(processes, query);
    lemma_shown_counts(processes, query, p);
    let m = choose|m: int| 0 <= m < rows.len() && rows[m] == p;
    law_row_for_row(table, rows, m);
    assert(table.rows@[m].pid@ == process::pid_text_spec(p.pid));
    laws::law_no_pid_twice(processes, query);
    assert forall|i: int, j: int|
        0 <= i < table.rows@.len() && 0 <= j < table.rows@.len() && (#[trigger]
        table.rows@[i]).pid@ == (#[trigger] table.rows@[j]).pid@ implies i == j by {
        law_row_for_row(table, rows, i);
        law_row_for_row(table, rows, j);
        if rows[i].pid != rows[j].pid {
            text_laws::law_pid_texts_differ(rows[i].pid, rows[j].pid);
        }
        law_ids_that_differ(rows);
    }
}

// The selected row

/// The search text is the first line of the search box.
pub proof fn law_first_line_is_searched_for(s: AppState)
    requires
        search::area_lines(s.search).len() > 0,
    ensures
        s.query() == search::area_lines(s.search)[0],
        s.rows() == process::shown(s.processes, search::area_lines(s.search)[0]),
{
}

/// The selected process is the one at the selected place among the rows; there is none where
/// there is no such place.
pub proof fn law_selected_is_the_row_at_its_place(s: AppState)
    ensures
        s.selected matches Some(i) && i < s.rows().len() ==> s.chosen() == Some(
            s.rows()[s.selected->0 as int],
        ),
        s.selected matches Some(i) && i >= s.rows().len() ==> s.chosen() is None,
        s.selected is None ==> s.chosen() is None,
{
}

/// The same of any rows and any place.
pub proof fn law_row_at_its_place(rows: Seq<ProcessEntry>, index: Option<usize>)
    ensures
        index matches Some(i) && i < rows.len() ==> app::row_at(rows, index) == Some(
            rows[index->0 as int],
        ),
        index matches Some(i) && i >= rows.len() ==> app::row_at(rows, index) is None,
        index is None ==> app::row_at(rows, index) is None,
{
}

/// The key d takes up for a signal the process whose id the marked row of the table says.
pub proof fn law_marked_row_is_taken_up(
    s: AppState,
    after: AppState,
    table: ProcessTable,
    key: KeyPress,
    i: usize,
)
    requires
        s.screen == CurrentScreen::Main,
        key.code == KeyCode::Char('d'),
        table.shows(s.rows()),
        s.selected == Some(i),
        i < table.rows@.len(),
        app::key_handled(s, after, key),
    ensures
        after.screen == CurrentScreen::KillModal,
        after.kill_pid == Some(s.rows()[i as int].pid),
        after.kill_pid matches Some(pid) && table.rows@[i as int].pid@ == process::pid_text_spec(
            pid,
        ),
{
    law_row_for_row(table, s.rows(), i as int);
}

} // verus!
