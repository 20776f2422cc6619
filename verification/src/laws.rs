//! What holds of the monitor as a whole.

use vstd::prelude::*;
use vstd::multiset::Multiset;
use crate::app;
use crate::app::{AppState, CpuSample, CurrentScreen, KillRequest, RunAction, RunEvent, Signal};
use crate::area;
use crate::area::Area;
use crate::keys::{KeyCode, KeyMotion, KeyPress, MouseInput, MouseKind, TerminalEvent};
use crate::process;
use crate::process::ProcessEntry;
use crate::scene;
use crate::search;
use crate::search::SearchBox;
use crate::text;

verus! {

// The order of the process table

proof fn lemma_placed(rows: Seq<ProcessEntry>, p: ProcessEntry)
    ensures
        ({
            let r = process::placed(rows, p);
            &&& forall|k: int|
                0 <= k < r.len() ==> (#[trigger] r[k] == p || rows.contains(r[k]))
            &&& r.to_multiset() == rows.to_multiset().insert(p)
        }),
    decreases rows.len(),
{
    broadcast use vstd::seq_lib::group_to_multiset_ensures;

    let r = process::placed(rows, p);
    if rows.len() == 0 {
        assert(r =~= rows.push(p));
    } else if process::above(p, rows[0]) {
        assert(r =~= rows.insert(0, p));
        assert forall|k: int| 0 <= k < r.len() implies (#[trigger] r[k] == p || rows.contains(
            r[k],
        )) by {
            if k > 0 {
                assert(r[k] == rows[k - 1]);
            }
        }
    } else {
        let rest = rows.drop_first();
        let tail = process::placed(rest, p);
        lemma_placed(rest, p);
        assert(r =~= seq![rows[0]] + tail);
        assert(r =~= tail.insert(0, rows[0]));
        assert(rows =~= rest.insert(0, rows[0]));
        assert forall|k: int| 0 <= k < r.len() implies (#[trigger] r[k] == p || rows.contains(
            r[k],
        )) by {
            if k > 0 {
                assert(r[k] == tail[k - 1]);
                if tail[k - 1] != p {
                    let m = choose|m: int| 0 <= m < rest.len() && rest[m] == tail[k - 1];
                    assert(rows[m + 1] == r[k]);
                }
            } else {
                assert(rows[0] == r[0]);
            }
        }
        assert(r.to_multiset() =~= tail.to_multiset().insert(rows[0]));
        assert(rows.to_multiset() =~= rest.to_multiset().insert(rows[0]));
        assert(r.to_multiset() =~= rows.to_multiset().insert(p));
    }
}

/// The ranks go down, or stay.
spec fn descending(rows: Seq<ProcessEntry>) -> bool {
    forall|i: int, j: int|
        0 <= i < j < rows.len() ==> process::rank(#[trigger] rows[i]) >= process::rank(
            #[trigger] rows[j],
        )
}

proof fn lemma_rest_of_numbers(rows: Seq<ProcessEntry>)
    requires
        process::all_numbers(rows),
        descending(rows),
        rows.len() > 0,
    ensures
        process::all_numbers(rows.drop_first()),
        descending(rows.drop_first()),
        !process::is_nan(rows[0].usage_bits),
{
    assert forall|i: int| 0 <= i < rows.drop_first().len() implies !process::is_nan(
        (#[trigger] rows.drop_first()[i]).usage_bits,
    ) by {
        assert(!process::is_nan(rows[i + 1].usage_bits));
    }
    assert(!process::is_nan(rows[0].usage_bits));
}

proof fn lemma_placed_descends(rows: Seq<ProcessEntry>, p: ProcessEntry)
    requires
        process::all_numbers(rows),
        !process::is_nan(p.usage_bits),
        descending(rows),
    ensures
        descending(process::placed(rows, p)),
    decreases rows.len(),
{
    let r = process::placed(rows, p);
    if rows.len() > 0 {
        lemma_rest_of_numbers(rows);
        let rest = rows.drop_first();
        let tail = process::placed(rest, p);
        if process::above(p, rows[0]) {
            assert forall|i: int, j: int| 0 <= i < j < r.len() implies process::rank(
                #[trigger] r[i],
            ) >= process::rank(#[trigger] r[j]) by {
                assert(r[j] == rows[j - 1]);
                if i > 0 {
                    assert(r[i] == rows[i - 1]);
                } else if j > 1 {
                    assert(process::rank(rows[0]) >= process::rank(rows[j - 1]));
                }
            }
        } else {
            lemma_placed_descends(rest, p);
            lemma_placed(rest, p);
            assert forall|i: int, j: int| 0 <= i < j < r.len() implies process::rank(
                #[trigger] r[i],
            ) >= process::rank(#[trigger] r[j]) by {
                assert(r[j] == tail[j - 1]);
                if i > 0 {
                    assert(r[i] == tail[i - 1]);
                } else if tail[j - 1] != p {
                    let m = choose|m: int| 0 <= m < rest.len() && rest[m] == tail[j - 1];
                    assert(rows[m + 1] == r[j]);
                }
            }
        }
    }
}

proof fn lemma_numbers_descend(processes: Seq<ProcessEntry>)
    requires
        process::all_numbers(processes),
    ensures
        descending(process::by_usage(processes)),
    decreases processes.len(),
{
    if processes.len() > 0 {
        lemma_front_of_numbers(processes);
        let rest = processes.drop_last();
        lemma_numbers_descend(rest);
        process::lemma_numbers_stay(rest);
        lemma_placed_descends(process::by_usage(rest), processes.last());
    }
}

proof fn lemma_front_of_numbers(processes: Seq<ProcessEntry>)
    requires
        process::all_numbers(processes),
        processes.len() > 0,
    ensures
        process::all_numbers(processes.drop_last()),
        !process::is_nan(processes.last().usage_bits),
{
    assert forall|i: int| 0 <= i < processes.drop_last().len() implies !process::is_nan(
        (#[trigger] processes.drop_last()[i]).usage_bits,
    ) by {
        assert(!process::is_nan(processes[i].usage_bits));
    }
    assert(!process::is_nan(processes[processes.len() - 1].usage_bits));
}

/// The table never shows a process above one with a higher CPU usage.
pub proof fn law_usage_descends(processes: Seq<ProcessEntry>)
    requires
        process::sortable(processes),
    ensures
        forall|i: int, j: int|
            0 <= i < j < process::by_usage(processes).len() ==> !process::above(
                #[trigger] process::by_usage(processes)[j],
                #[trigger] process::by_usage(processes)[i],
            ),
{
    if process::all_numbers(processes) {
        lemma_numbers_descend(processes);
    } else {
        process::lemma_level_keeps_order(processes);
    }
}

/// Ordering the processes loses none, adds none and doubles none.
pub proof fn law_usage_keeps_processes(processes: Seq<ProcessEntry>)
    ensures
        process::by_usage(processes).to_multiset() == processes.to_multiset(),
    decreases processes.len(),
{
    broadcast use vstd::seq_lib::group_to_multiset_ensures;

    if processes.len() == 0 {
        assert(process::by_usage(processes) =~= processes);
    } else {
        let rest = processes.drop_last();
        law_usage_keeps_processes(rest);
        lemma_placed(process::by_usage(rest), processes.last());
        assert(processes =~= rest.push(processes.last()));
    }
}

proof fn lemma_filter_of_front<A>(first: A, rest: Seq<A>, keep: spec_fn(A) -> bool)
    ensures
        (seq![first] + rest).filter(keep) == (if keep(first) {
            seq![first] + rest.filter(keep)
        } else {
            rest.filter(keep)
        }),
{
    Seq::filter_distributes_over_add(seq![first], rest, keep);
    reveal_with_fuel(Seq::filter, 2);
    assert(seq![first].drop_last() =~= Seq::<A>::empty());
    assert(seq![first].filter(keep) =~= if keep(first) {
        seq![first]
    } else {
        Seq::<A>::empty()
    });
    assert((seq![first] + rest).filter(keep) =~= if keep(first) {
        seq![first] + rest.filter(keep)
    } else {
        rest.filter(keep)
    });
}

proof fn lemma_placed_behind_equals(rows: Seq<ProcessEntry>, p: ProcessEntry, r: int)
    requires
        process::all_numbers(rows),
        !process::is_nan(p.usage_bits),
        descending(rows),
    ensures
        process::placed(rows, p).filter(|q: ProcessEntry| process::rank(q) == r) == (
        if process::rank(p) == r {
            rows.filter(|q: ProcessEntry| process::rank(q) == r).push(p)
        } else {
            rows.filter(|q: ProcessEntry| process::rank(q) == r)
        }),
    decreases rows.len(),
{
    let keep = |q: ProcessEntry| process::rank(q) == r;
    let empty = Seq::<ProcessEntry>::empty();
    reveal_with_fuel(Seq::filter, 2);
    if rows.len() == 0 {
        assert(seq![p] =~= seq![p] + empty);
        lemma_filter_of_front(p, empty, keep);
        assert(rows =~= empty);
        assert(seq![p] + empty.filter(keep) =~= empty.filter(keep).push(p));
    } else {
        lemma_rest_of_numbers(rows);
        let rest = rows.drop_first();
        assert(rows =~= seq![rows[0]] + rest);
        if process::rank(p) > process::rank(rows[0]) {
            lemma_filter_of_front(p, rows, keep);
            if process::rank(p) == r {
                assert forall|i: int| 0 <= i < rows.len() implies !keep(#[trigger] rows[i]) by {
                    if i > 0 {
                        assert(process::rank(rows[0]) >= process::rank(rows[i]));
                    }
                }
                lemma_nothing_kept(rows, keep);
                assert(seq![p] + empty =~= empty.push(p));
            }
        } else {
            lemma_placed_behind_equals(rest, p, r);
            lemma_filter_of_front(rows[0], process::placed(rest, p), keep);
            lemma_filter_of_front(rows[0], rest, keep);
            if process::rank(p) == r && keep(rows[0]) {
                assert(seq![rows[0]] + rest.filter(keep).push(p) =~= (seq![rows[0]]
                    + rest.filter(keep)).push(p));
            }
        }
    }
}

proof fn lemma_nothing_kept<A>(s: Seq<A>, keep: spec_fn(A) -> bool)
    requires
        forall|i: int| 0 <= i < s.len() ==> !keep(#[trigger] s[i]),
    ensures
        s.filter(keep) == Seq::<A>::empty(),
    decreases s.len(),
{
    reveal(Seq::filter);
    if s.len() > 0 {
        assert(!keep(s[s.len() - 1]));
        lemma_nothing_kept(s.drop_last(), keep);
    } else {
        assert(s =~= Seq::<A>::empty());
    }
}

proof fn lemma_numbers_stable(processes: Seq<ProcessEntry>, r: int)
    requires
        process::all_numbers(processes),
    ensures
        process::by_usage(processes).filter(|p: ProcessEntry| process::rank(p) == r)
            == processes.filter(|p: ProcessEntry| process::rank(p) == r),
    decreases processes.len(),
{
    reveal(Seq::filter);
    if processes.len() == 0 {
        assert(process::by_usage(processes) =~= processes);
    } else {
        lemma_front_of_numbers(processes);
        let rest = processes.drop_last();
        lemma_numbers_stable(rest, r);
        lemma_numbers_descend(rest);
        process::lemma_numbers_stay(rest);
        lemma_placed_behind_equals(process::by_usage(rest), processes.last(), r);
    }
}

proof fn lemma_filter_same<A>(s: Seq<A>, keep: spec_fn(A) -> bool, other: spec_fn(A) -> bool)
    requires
        forall|i: int| 0 <= i < s.len() ==> keep(#[trigger] s[i]) == other(s[i]),
    ensures
        s.filter(keep) == s.filter(other),
    decreases s.len(),
{
    reveal(Seq::filter);
    if s.len() > 0 {
        assert(keep(s[s.len() - 1]) == other(s[s.len() - 1]));
        lemma_filter_same(s.drop_last(), keep, other);
    }
}

/// Processes with the same CPU usage as `q` stay in the order in which they were read.
pub proof fn law_usage_stable(processes: Seq<ProcessEntry>, q: ProcessEntry)
    requires
        process::sortable(processes),
        processes.contains(q),
    ensures
        process::by_usage(processes).filter(|p: ProcessEntry| process::level(p, q))
            == processes.filter(|p: ProcessEntry| process::level(p, q)),
{
    if process::all_numbers(processes) {
        let near = |p: ProcessEntry| process::level(p, q);
        let same = |p: ProcessEntry| process::rank(p) == process::rank(q);
        let order = process::by_usage(processes);
        let m = choose|m: int| 0 <= m < processes.len() && processes[m] == q;
        assert(!process::is_nan(processes[m].usage_bits));
        process::lemma_numbers_stay(processes);
        assert forall|i: int| 0 <= i < order.len() implies near(#[trigger] order[i]) == same(
            order[i],
        ) by {
            assert(!process::is_nan(order[i].usage_bits));
        }
        assert forall|i: int| 0 <= i < processes.len() implies near(#[trigger] processes[i])
            == same(processes[i]) by {
            assert(!process::is_nan(processes[i].usage_bits));
        }
        lemma_filter_same(order, near, same);
        lemma_filter_same(processes, near, same);
        lemma_numbers_stable(processes, process::rank(q));
    } else {
        process::lemma_level_keeps_order(processes);
    }
}

// The search filter

proof fn lemma_filter_multiset<A>(s: Seq<A>, keep: spec_fn(A) -> bool)
    ensures
        s.filter(keep).to_multiset() == s.to_multiset().filter(keep),
    decreases s.len(),
{
    broadcast use vstd::seq_lib::group_to_multiset_ensures;

    reveal(Seq::filter);
    if s.len() == 0 {
        assert(s.to_multiset() =~= Multiset::empty());
        assert(s.to_multiset().filter(keep) =~= Multiset::empty());
    } else {
        lemma_filter_multiset(s.drop_last(), keep);
        assert(s =~= s.drop_last().push(s.last()));
        assert(s.filter(keep).to_multiset() =~= s.to_multiset().filter(keep));
    }
}

/// The table shows the processes that match the search text, all of them and no other.
pub proof fn law_shown_are_the_matching(processes: Seq<ProcessEntry>, query: Seq<char>)
    ensures
        process::shown(processes, query).to_multiset() == processes.to_multiset().filter(
            |p: ProcessEntry| process::matches_query(p, query),
        ),
{
    law_usage_keeps_processes(processes);
    lemma_filter_multiset(
        process::by_usage(processes),
        |p: ProcessEntry| process::matches_query(p, query),
    );
}

proof fn lemma_filter_keeps_order(s: Seq<ProcessEntry>, keep: spec_fn(ProcessEntry) -> bool)
    requires
        forall|i: int, j: int|
            0 <= i < j < s.len() ==> !process::above(#[trigger] s[j], #[trigger] s[i]),
    ensures
        forall|i: int, j: int|
            0 <= i < j < s.filter(keep).len() ==> !process::above(
                #[trigger] s.filter(keep)[j],
                #[trigger] s.filter(keep)[i],
            ),
    decreases s.len(),
{
    reveal(Seq::filter);
    if s.len() > 0 {
        let front = s.drop_last();
        lemma_filter_keeps_order(front, keep);
        lemma_kept_are_there(front, keep);
        assert forall|i: int, j: int| 0 <= i < j < s.filter(keep).len() implies !process::above(
            #[trigger] s.filter(keep)[j],
            #[trigger] s.filter(keep)[i],
        ) by {
            if j == front.filter(keep).len() {
                assert(front.contains(front.filter(keep)[i]));
                let m = choose|m: int| 0 <= m < front.len() && front[m] == front.filter(keep)[i];
                assert(!process::above(s[s.len() - 1], s[m]));
            }
        }
    }
}

proof fn lemma_kept_are_there(s: Seq<ProcessEntry>, keep: spec_fn(ProcessEntry) -> bool)
    ensures
        forall|i: int| 0 <= i < s.filter(keep).len() ==> s.contains(#[trigger] s.filter(keep)[i]),
    decreases s.len(),
{
    reveal(Seq::filter);
    if s.len() > 0 {
        let front = s.drop_last();
        lemma_kept_are_there(front, keep);
        assert forall|i: int| 0 <= i < s.filter(keep).len() implies s.contains(
            #[trigger] s.filter(keep)[i],
        ) by {
            if i < front.filter(keep).len() {
                assert(front.contains(front.filter(keep)[i]));
                let m = choose|m: int| 0 <= m < front.len() && front[m] == front.filter(keep)[i];
                assert(s[m] == s.filter(keep)[i]);
            } else {
                assert(s[s.len() - 1] == s.last());
            }
        }
    }
}

/// What the search leaves in the table is still ordered by CPU usage.
pub proof fn law_shown_descends(processes: Seq<ProcessEntry>, query: Seq<char>)
    requires
        process::sortable(processes),
    ensures
        forall|i: int, j: int|
            0 <= i < j < process::shown(processes, query).len() ==> !process::above(
                #[trigger] process::shown(processes, query)[j],
                #[trigger] process::shown(processes, query)[i],
            ),
{
    law_usage_descends(processes);
    lemma_filter_keeps_order(
        process::by_usage(processes),
        |p: ProcessEntry| process::matches_query(p, query),
    );
}

proof fn lemma_placed_differ(rows: Seq<ProcessEntry>, p: ProcessEntry)
    requires
        process::pids_differ(rows),
        forall|i: int| 0 <= i < rows.len() ==> (#[trigger] rows[i]).pid != p.pid,
    ensures
        process::pids_differ(process::placed(rows, p)),
    decreases rows.len(),
{
    let r = process::placed(rows, p);
    if rows.len() > 0 {
        let rest = rows.drop_first();
        let tail = process::placed(rest, p);
        if !process::above(p, rows[0]) {
            lemma_placed_differ(rest, p);
            lemma_placed(rest, p);
        }
        assert forall|i: int, j: int| 0 <= i < j < r.len() implies (#[trigger] r[i]).pid != (
        #[trigger] r[j]).pid by {
            if process::above(p, rows[0]) {
                assert(r[j] == rows[j - 1]);
                if i > 0 {
                    assert(r[i] == rows[i - 1]);
                }
            } else {
                assert(r[j] == tail[j - 1]);
                if i > 0 {
                    assert(r[i] == tail[i - 1]);
                } else if tail[j - 1] != p {
                    let m = choose|m: int| 0 <= m < rest.len() && rest[m] == tail[j - 1];
                    assert(rows[m + 1] == r[j]);
                }
            }
        }
    }
}

proof fn lemma_order_differs(processes: Seq<ProcessEntry>)
    requires
        process::pids_differ(processes),
    ensures
        process::pids_differ(process::by_usage(processes)),
    decreases processes.len(),
{
    broadcast use vstd::seq_lib::group_to_multiset_ensures;

    if processes.len() > 0 {
        let rest = processes.drop_last();
        let order = process::by_usage(rest);
        lemma_order_differs(rest);
        law_usage_keeps_processes(rest);
        assert forall|i: int| 0 <= i < order.len() implies (#[trigger] order[i]).pid
            != processes.last().pid by {
            assert(order.to_multiset().count(order[i]) > 0);
            assert(rest.contains(order[i]));
            let m = choose|m: int| 0 <= m < rest.len() && rest[m] == order[i];
            assert(processes[m].pid != processes[processes.len() - 1].pid);
        }
        lemma_placed_differ(order, processes.last());
    }
}

proof fn lemma_filter_differs(s: Seq<ProcessEntry>, keep: spec_fn(ProcessEntry) -> bool)
    requires
        process::pids_differ(s),
    ensures
        process::pids_differ(s.filter(keep)),
    decreases s.len(),
{
    reveal(Seq::filter);
    if s.len() > 0 {
        let front = s.drop_last();
        lemma_filter_differs(front, keep);
        lemma_kept_are_there(front, keep);
        let kept = s.filter(keep);
        assert forall|i: int, j: int| 0 <= i < j < kept.len() implies (#[trigger] kept[i]).pid
            != (#[trigger] kept[j]).pid by {
            if j == front.filter(keep).len() {
                assert(front.contains(front.filter(keep)[i]));
                let m = choose|m: int| 0 <= m < front.len() && front[m] == front.filter(keep)[i];
                assert(s[m].pid != s[s.len() - 1].pid);
            }
        }
    }
}

/// The table shows no process id twice.
pub proof fn law_no_pid_twice(processes: Seq<ProcessEntry>, query: Seq<char>)
    requires
        process::pids_differ(processes),
    ensures
        process::pids_differ(process::shown(processes, query)),
{
    lemma_order_differs(processes);
    lemma_filter_differs(
        process::by_usage(processes),
        |p: ProcessEntry| process::matches_query(p, query),
    );
}

proof fn lemma_all_kept<A>(s: Seq<A>, keep: spec_fn(A) -> bool)
    requires
        forall|i: int| 0 <= i < s.len() ==> keep(#[trigger] s[i]),
    ensures
        s.filter(keep) == s,
    decreases s.len(),
{
    reveal(Seq::filter);
    if s.len() > 0 {
        assert(keep(s[s.len() - 1]));
        lemma_all_kept(s.drop_last(), keep);
        assert(s.drop_last().push(s.last()) =~= s);
    }
}

/// Without a search text the table shows every process.
pub proof fn law_no_search_shows_all(processes: Seq<ProcessEntry>)
    ensures
        process::shown(processes, seq![]) == process::by_usage(processes),
{
    lemma_all_kept(
        process::by_usage(processes),
        |p: ProcessEntry| process::matches_query(p, seq![]),
    );
}

/// Letter case makes no difference to a search: two search texts that are the same in lower case
/// show the same rows.
pub proof fn law_search_ignores_case(
    processes: Seq<ProcessEntry>,
    first: Seq<char>,
    second: Seq<char>,
)
    requires
        first.len() == 0 <==> second.len() == 0,
        text::lowercase(first) == text::lowercase(second),
    ensures
        process::shown(processes, first) == process::shown(processes, second),
{
    let by_first = |p: ProcessEntry| process::matches_query(p, first);
    let by_second = |p: ProcessEntry| process::matches_query(p, second);
    assert(by_first =~= by_second);
}

/// Characters typed into the empty search box, one after the other, are the search text.
pub proof fn law_typed_text_is_searched(boxes: Seq<SearchBox>, typed: Seq<char>)
    requires
        boxes.len() == typed.len() + 1,
        search::fresh(boxes[0]),
        forall|i: int|
            0 <= i < typed.len() ==> #[trigger] search::char_typed(
                boxes[i],
                boxes[i + 1],
                typed[i],
            ),
    ensures
        search::area_lines(boxes.last()) == seq![typed],
        search::area_cursor(boxes.last()) == (0nat, typed.len()),
        search::area_selection(boxes.last()) is None,
    decreases typed.len(),
{
    if typed.len() == 0 {
        assert(typed =~= Seq::<char>::empty());
    } else {
        let n = typed.len() - 1;
        let shorter = typed.drop_last();
        let earlier = boxes.drop_last();
        assert forall|i: int| 0 <= i < shorter.len() implies #[trigger] search::char_typed(
            earlier[i],
            earlier[i + 1],
            shorter[i],
        ) by {
            assert(search::char_typed(boxes[i], boxes[i + 1], typed[i]));
        }
        law_typed_text_is_searched(earlier, shorter);
        assert(search::char_typed(boxes[n], boxes[n + 1], typed[n]));
        assert(earlier.last() == boxes[n]);
        assert(shorter.insert(n, typed[n]) =~= typed);
        assert(seq![shorter].update(0, typed) =~= seq![typed]);
    }
}

/// Backspace takes back the character that was typed last: the text and the cursor are as before.
pub proof fn law_backspace_undoes_typing(
    before: SearchBox,
    typed: SearchBox,
    after: SearchBox,
    character: KeyPress,
    backspace: KeyPress,
)
    requires
        search::cursor_on_text(before),
        search::area_selection(before) is None,
        search::types_char(character),
        search::plain_backspace(backspace),
        search::key_taken(before, typed, character),
        search::key_taken(typed, after, backspace),
    ensures
        search::area_lines(after) == search::area_lines(before),
        search::area_cursor(after) == search::area_cursor(before),
{
    let (row, col) = search::area_cursor(before);
    let line = search::area_lines(before)[row as int];
    let c = character.code->Char_0;
    assert(line.insert(col as int, c).remove(col as int) =~= line);
    assert(search::area_lines(after) =~= search::area_lines(before));
}

// Events

/// Something that happens to the monitor.
pub enum Step {
    Key(KeyPress),
    Mouse(MouseInput),
    Run(RunEvent),
    Read(Seq<ProcessEntry>),
    Draw(Area),
    Overlay(Option<usize>, Area),
}

/// From `before` to `after`, `step` happened. The program starts once, before the first sample,
/// and ends before its ticks do not fit any more.
pub open spec fn happened(before: AppState, after: AppState, step: Step) -> bool {
    match step {
        Step::Key(key) => app::key_handled(before, after, key),
        Step::Mouse(mouse) => app::mouse_handled(before, after, mouse),
        Step::Run(event) => {
            &&& event is Started ==> before.cpu.len() == 0
            &&& event is Measured ==> before.ticks < u64::MAX
            &&& after == before.after_run(event)
        },
        Step::Read(processes) => {
            &&& process::pids_differ(processes)
            &&& process::sortable(processes)
            &&& after == AppState { processes, ..before }
        },
        Step::Draw(screen) => after == AppState {
            cpu: scene::charted(before.cpu, screen.width),
            ..before
        },
        Step::Overlay(selected, list_area) => after == AppState { selected, list_area, ..before },
    }
}

/// Whatever happens, and in whatever order: a process is up for a signal exactly while the kill
/// dialog is open, the typed process id is made of digits and gone once its dialog is, the search
/// box keeps its title, no process id occurs twice, the processes have an order, and the chart
/// shows consecutive ticks up to the latest.
pub proof fn law_always_well_formed(states: Seq<AppState>, steps: Seq<Step>)
    requires
        states.len() == steps.len() + 1,
        app::initial(states[0]),
        forall|i: int|
            0 <= i < steps.len() ==> #[trigger] happened(states[i], states[i + 1], steps[i]),
    ensures
        forall|i: int| 0 <= i < states.len() ==> (#[trigger] states[i]).wf(),
    decreases steps.len(),
{
    if steps.len() > 0 {
        let n = steps.len() - 1;
        let earlier = states.drop_last();
        let fewer = steps.drop_last();
        assert forall|i: int| 0 <= i < fewer.len() implies #[trigger] happened(
            earlier[i],
            earlier[i + 1],
            fewer[i],
        ) by {
            assert(happened(states[i], states[i + 1], steps[i]));
        }
        law_always_well_formed(earlier, fewer);
        assert(happened(states[n], states[n + 1], steps[n]));
        assert(earlier[n].wf());
        lemma_step_keeps_wf(states[n], states[n + 1], steps[n]);
        assert forall|i: int| 0 <= i < states.len() implies (#[trigger] states[i]).wf() by {
            if i <= n {
                assert(earlier[i].wf());
            }
        }
    }
}

proof fn lemma_step_keeps_wf(before: AppState, after: AppState, step: Step)
    requires
        before.wf(),
        happened(before, after, step),
    ensures
        after.wf(),
{
}

/// Two states are alike but for the cursor of the search box: it has the same title, the same
/// lines and the same selection in both, and all else is the same.
pub open spec fn alike_but_cursor(a: AppState, b: AppState) -> bool {
    &&& a == AppState { search: a.search, ..b }
    &&& search::area_title(a.search) == search::area_title(b.search)
    &&& search::area_lines(a.search) == search::area_lines(b.search)
    &&& search::area_selection(a.search) == search::area_selection(b.search)
}

/// A key does the same whenever it is handled in the same state: all but the search box is the
/// same, and so is that, where the key does not go into it. Where it does, the title, the lines
/// and the selection are the same, and the cursor is where the key does not page.
pub proof fn law_same_key_does_the_same(
    before: AppState,
    first: AppState,
    second: AppState,
    key: KeyPress,
)
    requires
        app::key_handled(before, first, key),
        app::key_handled(before, second, key),
    ensures
        alike_but_cursor(first, second),
        !search::pages(key) ==> search::area_cursor(first.search) == search::area_cursor(
            second.search,
        ),
        !before.edits_search(key) ==> first == second,
{
}

/// A key that went down leaves the monitor as handling that key does, and asks for the same
/// signal.
pub proof fn law_key_event_is_its_key(
    before: AppState,
    by_event: AppState,
    by_key: AppState,
    outcome: app::Outcome,
    key: KeyPress,
)
    requires
        app::event_handled(
            before,
            by_event,
            outcome,
            Some(TerminalEvent::Key(KeyMotion::Press, key)),
        ),
        app::key_handled(before, by_key, key),
    ensures
        outcome == (app::Outcome { handled: true, kill: before.key_request(key) }),
        app::key_handled(before, by_event, key),
        app::event_handled(
            before,
            by_key,
            outcome,
            Some(TerminalEvent::Key(KeyMotion::Press, key)),
        ),
        alike_but_cursor(by_event, by_key),
        !search::pages(key) ==> search::area_cursor(by_event.search) == search::area_cursor(
            by_key.search,
        ),
        !before.edits_search(key) ==> by_event == by_key,
{
    law_same_key_does_the_same(before, by_event, by_key, key);
}

/// An event of the mouse leaves the monitor as handling the mouse does, and asks for no signal.
pub proof fn law_mouse_event_is_its_mouse(
    before: AppState,
    by_event: AppState,
    by_mouse: AppState,
    outcome: app::Outcome,
    mouse: MouseInput,
)
    requires
        app::event_handled(before, by_event, outcome, Some(TerminalEvent::Mouse(mouse))),
        app::mouse_handled(before, by_mouse, mouse),
    ensures
        by_event == by_mouse,
        outcome == (app::Outcome { handled: app::mouse_handleable(before, mouse), kill: None }),
{
}

/// Any other event, a key held down or let go of among them, and no event at all change nothing.
pub proof fn law_other_events_change_nothing(
    before: AppState,
    after: AppState,
    outcome: app::Outcome,
    event: Option<TerminalEvent>,
)
    requires
        app::event_handled(before, after, outcome, event),
        !(event matches Some(TerminalEvent::Key(KeyMotion::Press, _))),
        !(event matches Some(TerminalEvent::Mouse(_))),
    ensures
        after == before,
        outcome == (app::Outcome { handled: true, kill: None }),
{
}

/// The program stops running by a key that says so in the main screen, and by nothing else; once
/// it is not running, only starting it makes it run.
pub proof fn law_runs_until_quit(before: AppState, after: AppState, step: Step)
    requires
        happened(before, after, step),
    ensures
        before.running && !after.running <==> before.running && before.screen
            == CurrentScreen::Main && (step matches Step::Key(key) && app::quits(key)),
        !before.running && after.running ==> step == Step::Run(RunEvent::Started),
{
}

/// Escape leads from every other screen to the main screen, ends nothing and signals nothing.
pub proof fn law_escape_leads_home(s: AppState, key: KeyPress)
    requires
        s.screen != CurrentScreen::Main,
        key.code == KeyCode::Esc,
    ensures
        s.after_key(key).screen == CurrentScreen::Main,
        s.after_key(key).running == s.running,
        s.key_request(key) is None,
        !s.edits_search(key),
{
}

/// Opening a dialog, the search box or the details and leaving with Escape changes nothing.
pub proof fn law_cancel_undoes_opening(
    before: AppState,
    opened: AppState,
    after: AppState,
    open: KeyPress,
    escape: KeyPress,
)
    requires
        before.wf(),
        before.screen == CurrentScreen::Main,
        open.code == KeyCode::Char('d') || open.code == KeyCode::Char('p') || open.code
            == KeyCode::Char('s') || open.code == KeyCode::Enter,
        escape.code == KeyCode::Esc,
        app::key_handled(before, opened, open),
        opened.screen != CurrentScreen::Main,
        app::key_handled(opened, after, escape),
    ensures
        after == before,
{
    assert(after =~= before);
}

// Signals

pub(crate) proof fn lemma_rows_are_listed(s: AppState)
    ensures
        forall|i: int|
            0 <= i < s.rows().len() ==> app::listed(s.processes, (#[trigger] s.rows()[i]).pid),
{
    broadcast use vstd::seq_lib::group_to_multiset_ensures;

    let order = process::by_usage(s.processes);
    law_usage_keeps_processes(s.processes);
    lemma_kept_are_there(order, |p: ProcessEntry| process::matches_query(p, s.query()));
    assert forall|i: int| 0 <= i < s.rows().len() implies app::listed(
        s.processes,
        (#[trigger] s.rows()[i]).pid,
    ) by {
        let p = s.rows()[i];
        assert(order.contains(p));
        assert(order.to_multiset().count(p) > 0);
        assert(s.processes.to_multiset().count(p) > 0);
        assert(s.processes.contains(p));
        let m = choose|m: int| 0 <= m < s.processes.len() && s.processes[m] == p;
        assert(s.processes[m].pid == p.pid);
    }
}

/// A signal goes only to a process that was read, only from one of the two kill dialogs, and
/// closes the dialog.
pub proof fn law_signals_come_from_dialogs(s: AppState, key: KeyPress)
    requires
        s.key_request(key) is Some,
    ensures
        app::listed(s.processes, s.key_request(key)->0.pid),
        s.screen == CurrentScreen::KillModal || s.screen == CurrentScreen::KillByPidModal,
        s.after_key(key).screen == CurrentScreen::Main,
        s.after_key(key).processes == s.processes,
{
}

/// The kill dialog signals the process of the row that was selected when it was opened: 1 asks it
/// to terminate, 2 kills it.
pub proof fn law_kill_dialog_signals_the_selected(s: AppState, open: KeyPress, choice: KeyPress)
    requires
        s.screen == CurrentScreen::Main,
        open.code == KeyCode::Char('d'),
        s.chosen() is Some,
    ensures
        ({
            let p = s.chosen()->0;
            let t = s.after_key(open);
            &&& t.screen == CurrentScreen::KillModal
            &&& choice.code == KeyCode::Char('1') ==> t.key_request(choice) == Some(
                KillRequest { pid: p.pid, signal: Signal::Term },
            )
            &&& choice.code == KeyCode::Char('2') ==> t.key_request(choice) == Some(
                KillRequest { pid: p.pid, signal: Signal::Kill },
            )
        }),
{
    lemma_rows_are_listed(s);
    let i = s.selected->0 as int;
    assert(app::listed(s.processes, s.rows()[i].pid));
}

/// The plain key for a character.
pub open spec fn char_key(c: char) -> KeyPress {
    KeyPress { code: KeyCode::Char(c), ctrl: false, alt: false, shift: false, extra: false }
}

/// The state when the characters of `typed` have been typed.
pub open spec fn after_typing(s: AppState, typed: Seq<char>) -> AppState
    decreases typed.len(),
{
    if typed.len() == 0 {
        s
    } else {
        after_typing(s, typed.drop_last()).after_key(char_key(typed.last()))
    }
}

proof fn lemma_digits_typed(s: AppState, typed: Seq<char>)
    requires
        s.screen == CurrentScreen::KillByPidModal,
        text::all_digits(typed),
    ensures
        after_typing(s, typed) == (AppState { pid_input: s.pid_input + typed, ..s }),
    decreases typed.len(),
{
    if typed.len() == 0 {
        assert(s.pid_input + typed =~= s.pid_input);
    } else {
        assert forall|i: int| 0 <= i < typed.drop_last().len() implies text::is_digit(
            #[trigger] typed.drop_last()[i],
        ) by {
            assert(text::is_digit(typed[i]));
        }
        lemma_digits_typed(s, typed.drop_last());
        assert(text::is_digit(typed[typed.len() - 1]));
        assert((s.pid_input + typed.drop_last()).push(typed.last()) =~= s.pid_input + typed);
    }
}

pub(crate) proof fn lemma_decimal_is_read_back(n: nat)
    ensures
        text::decimal_text(n).len() > 0,
        text::all_digits(text::decimal_text(n)),
        text::digits_value(text::decimal_text(n)) == n,
    decreases n,
{
    let t = text::decimal_text(n);
    reveal_with_fuel(text::digits_value, 2);
    if n < 10 {
        assert(t.drop_last() =~= Seq::<char>::empty());
        assert(t.last() as int == 48 + n);
    } else {
        lemma_decimal_is_read_back(n / 10);
        let front = text::decimal_text(n / 10);
        assert(t.drop_last() =~= front);
        assert(t.last() as int == 48 + n % 10);
        assert forall|i: int| 0 <= i < t.len() implies text::is_digit(#[trigger] t[i]) by {
            if i < front.len() {
                assert(text::is_digit(front[i]));
            }
        }
    }
}

/// A number that fits in 32 bits, written in decimal, reads back as itself.
pub proof fn law_decimal_reads_back(n: u32)
    ensures
        text::parsed_u32(text::decimal_text(n as nat)) == Some(n),
{
    lemma_decimal_is_read_back(n as nat);
    let t = text::decimal_text(n as nat);
    assert(text::is_digit(t[0]));
}

/// Typing the id of a process that was read, as the table shows it, and pressing Enter kills that
/// process.
pub proof fn law_typed_pid_is_killed(s: AppState, open: KeyPress, enter: KeyPress, pid: u32)
    requires
        s.screen == CurrentScreen::Main,
        open.code == KeyCode::Char('p'),
        enter.code == KeyCode::Enter,
        pid <= i32::MAX,
    ensures
        after_typing(s.after_key(open), process::pid_text_spec(pid)).key_request(enter) == (
        if app::listed(s.processes, pid) {
            Some(KillRequest { pid, signal: Signal::Kill })
        } else {
            None
        }),
{
    let t = s.after_key(open);
    let typed = text::decimal_text(pid as nat);
    lemma_decimal_is_read_back(pid as nat);
    lemma_digits_typed(t, typed);
    assert(t.pid_input + typed =~= typed);
    law_decimal_reads_back(pid);
}

/// In the dialog for a process id, Backspace takes back a typed digit.
pub proof fn law_backspace_takes_back_a_digit(s: AppState, digit: KeyPress, back: KeyPress)
    requires
        s.screen == CurrentScreen::KillByPidModal,
        digit.code matches KeyCode::Char(c) && text::is_digit(c),
        back.code == KeyCode::Backspace,
    ensures
        s.after_key(digit).after_key(back) == s,
{
    let c = digit.code->Char_0;
    assert(s.pid_input.push(c).drop_last() =~= s.pid_input);
    assert(s.after_key(digit).after_key(back) =~= s);
}

// The selected row

/// Moving down and up again comes back to the same row.
pub proof fn law_up_undoes_down(s: AppState, down: KeyPress, up: KeyPress)
    requires
        s.screen == CurrentScreen::Main,
        down.code == KeyCode::Char('j'),
        up.code == KeyCode::Char('k'),
        s.selected matches Some(i) && i < usize::MAX,
    ensures
        s.after_key(down).after_key(up) == s,
{
}

/// The mouse changes the selected row and nothing else, and it selects only rows that there are,
/// or the row above the selected one.
pub proof fn law_mouse_only_selects(s: AppState, mouse: MouseInput, count: int)
    ensures
        s.after_mouse(mouse, count) == (AppState {
            selected: s.after_mouse(mouse, count).selected,
            ..s
        }),
        s.after_mouse(mouse, count).selected != s.selected ==> s.screen == CurrentScreen::Main && (
        s.after_mouse(mouse, count).selected matches Some(i) && (i < count || s.selected == Some(
            (i + 1) as usize,
        ))),
{
}

/// Scrolling up takes back scrolling down, where that moved the selection.
pub proof fn law_scroll_up_undoes_down(s: AppState, down: MouseInput, up: MouseInput, count: int)
    requires
        down.kind == MouseKind::ScrollDown,
        up.kind == MouseKind::ScrollUp,
        count <= usize::MAX,
        s.after_mouse(down, count) != s,
    ensures
        s.after_mouse(down, count).after_mouse(up, count) == s,
{
}

// Updates and the chart

/// Every update adds one sample with the next tick; of three updates in a row exactly one reads
/// the processes.
pub proof fn law_every_third_update_reads(s: AppState, first: u32, second: u32, third: u32)
    requires
        s.ticks + 3 <= u64::MAX,
    ensures
        ({
            let a = RunEvent::Measured { usage_bits: first };
            let b = RunEvent::Measured { usage_bits: second };
            let c = RunEvent::Measured { usage_bits: third };
            let s1 = s.after_run(a);
            let s2 = s1.after_run(b);
            let s3 = s2.after_run(c);
            let reads = |step: app::RunStep| step.action == RunAction::RefreshProcesses;
            let n = (if reads(s.run_step(a)) {
                1int
            } else {
                0
            }) + (if reads(s1.run_step(b)) {
                1int
            } else {
                0
            }) + (if reads(s2.run_step(c)) {
                1int
            } else {
                0
            });
            &&& n == 1
            &&& s3.ticks == s.ticks + 3
            &&& s3.cpu.len() == s.cpu.len() + 3
            &&& s3.cpu.last() == CpuSample { tick: s3.ticks, usage_bits: third }
        }),
{
}

/// The chart never holds more samples than cells, nor more than 120; it holds the latest ones;
/// and drawing again in the same width changes nothing.
pub proof fn law_chart_holds_the_latest(cpu: Seq<CpuSample>, width: u16)
    ensures
        scene::charted(cpu, width).len() <= width,
        scene::charted(cpu, width).len() <= 120,
        scene::charted(cpu, width) == cpu.skip(cpu.len() - scene::charted(cpu, width).len()),
        scene::charted(scene::charted(cpu, width), width) == scene::charted(cpu, width),
{
    assert(cpu.skip(0) =~= cpu);
}

// Places and texts

/// `inner` lies within `outer`.
pub open spec fn within(inner: Area, outer: Area) -> bool {
    &&& outer.x <= inner.x && inner.x + inner.width <= outer.x + outer.width
    &&& outer.y <= inner.y && inner.y + inner.height <= outer.y + outer.height
}

/// The panes lie on the screen, and every cell of the screen is in exactly one of them.
pub proof fn law_panes_tile_the_screen(panes: scene::Panes, screen: Area, x: int, y: int)
    requires
        screen.wf(),
        scene::panes_of(panes, screen),
    ensures
        within(panes.cpu, screen),
        within(panes.details, screen),
        within(panes.info, screen),
        within(panes.list, screen),
        within(panes.footer, screen),
        ({
            let covers = |a: Area|
                if a.x <= x < a.x + a.width && a.y <= y < a.y + a.height {
                    1int
                } else {
                    0
                };
            covers(panes.cpu) + covers(panes.details) + covers(panes.info) + covers(panes.list)
                + covers(panes.footer) == covers(screen)
        }),
{
}

/// The details panel lies on the screen, with as much room on one side as on the other, but for
/// one cell.
pub proof fn law_panel_is_centred(screen: Area)
    requires
        screen.x == 0,
        screen.y == 0,
    ensures
        ({
            let panel = area::panel_area_spec(screen);
            let right = screen.width - panel.x - panel.width;
            let below = screen.height - panel.y - panel.height;
            &&& within(panel, screen)
            &&& panel.x <= right <= panel.x + 1
            &&& panel.y <= below <= panel.y + 1
        }),
{
}

/// The days, hours, minutes and seconds of an uptime are within their bounds and add up to it.
#[verifier::spinoff_prover]
pub proof fn law_uptime_adds_up(seconds: u64)
    ensures
        seconds / 86400 * 86400 + seconds % 86400 / 3600 * 3600 + seconds % 3600 / 60 * 60 + seconds
            % 60 == seconds,
        seconds % 86400 / 3600 < 24,
        seconds % 3600 / 60 < 60,
        seconds % 60 < 60,
{
    let days = seconds / 86400;
    let hours = seconds % 86400 / 3600;
    let rest = seconds % 86400 % 3600;
    assert(seconds == 3600 * (24 * days + hours) + rest);
    assert(seconds % 3600 == rest);
    assert(rest == 60 * (rest / 60) + rest % 60);
    assert(seconds == 60 * (60 * (24 * days + hours) + rest / 60) + rest % 60);
    assert(seconds % 60 == rest % 60);
}

} // verus!
