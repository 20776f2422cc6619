//! Processes, their order in the table, and the search filter.

use std::collections::HashSet;
use sysinfo::Pid;
use vstd::prelude::*;
use crate::text;

verus! {

/// What a process is doing, as far as the table tells it apart.
#[derive(Debug, Clone, Copy, PartialEq, Eq, Structural)]
pub enum ProcessStatus {
    Run,
    Sleep,
    Zombie,
    Other,
}

/// What was read of a process.
///
/// Fractions come written out, with the number of decimals that the field's name tells: usages
/// in percent, sizes in megabytes.
#[derive(Debug)]
pub struct ProcessEntry {
    pub pid: u32,
    pub name: String,
    /// The name in quotes, with escapes where it needs them.
    pub quoted_name: String,
    /// The name of the owner.
    pub user: Option<String>,
    /// The bits of the CPU usage as an `f32`.
    pub usage_bits: u32,
    pub usage_1: String,
    pub usage_2: String,
    pub memory_1: String,
    pub memory_2: String,
    pub virtual_memory_2: String,
    pub disk_read_2: String,
    pub disk_written_2: String,
    pub status: ProcessStatus,
    pub status_name: String,
    /// The path of the executable in quotes.
    pub exe: Option<String>,
    pub cmd: Vec<String>,
    /// The working directory in quotes.
    pub cwd: Option<String>,
    pub start_time: u64,
    pub run_time: u64,
}

/// How a process id is written: as the signed number of 32 bits that it is on Linux, Android,
/// macOS, iOS and FreeBSD.
pub open spec fn pid_text_spec(pid: u32) -> Seq<char> {
    if pid < 0x8000_0000 {
        text::decimal_text(pid as nat)
    } else {
        seq!['-'] + text::decimal_text((0x1_0000_0000 - pid) as nat)
    }
}

/// `sysinfo::Pid::from_u32` and the `Display` of `sysinfo::Pid`, which writes the `pid_t` that a
/// process id is on Linux, Android, macOS, iOS and FreeBSD.
#[verifier::external_body]
pub(crate) fn pid_text(pid: u32) -> (r: String)
    ensures
        r@ == pid_text_spec(pid),
{
    Pid::from_u32(pid).to_string()
}

/// The bits are those of an `f32` that is not a number.
pub open spec fn is_nan(bits: u32) -> bool {
    0x7f80_0000 < bits < 0x8000_0000 || bits > 0xff80_0000
}

/// The place of a CPU usage among all usages that are numbers, from the bits of its `f32`: two
/// usages rank as their values compare, and both zeros rank 0.
pub open spec fn usage_rank_spec(bits: u32) -> int {
    if bits < 0x8000_0000 {
        bits as int
    } else {
        0x8000_0000 - bits
    }
}

/// The rank of the CPU usage of `p`.
pub open spec fn rank(p: ProcessEntry) -> int {
    usage_rank_spec(p.usage_bits)
}

/// The CPU usage of `p` is higher than that of `q`; a usage that is not a number is neither
/// higher nor lower than any.
pub open spec fn above(p: ProcessEntry, q: ProcessEntry) -> bool {
    !is_nan(p.usage_bits) && !is_nan(q.usage_bits) && rank(p) > rank(q)
}

/// Neither of the two CPU usages is higher than the other.
pub open spec fn level(p: ProcessEntry, q: ProcessEntry) -> bool {
    !above(p, q) && !above(q, p)
}

/// Every CPU usage is a number.
pub open spec fn all_numbers(processes: Seq<ProcessEntry>) -> bool {
    forall|i: int| 0 <= i < processes.len() ==> !is_nan((#[trigger] processes[i]).usage_bits)
}

/// No CPU usage is higher than another.
pub open spec fn all_level(processes: Seq<ProcessEntry>) -> bool {
    forall|i: int, j: int|
        0 <= i < processes.len() && 0 <= j < processes.len() ==> !above(
            #[trigger] processes[i],
            #[trigger] processes[j],
        )
}

/// The CPU usages put the processes into an order: they are numbers, or none is higher than
/// another. Otherwise something that is not a number would be level with two usages of which one
/// is higher, and sorting by usage would have no defined result.
pub open spec fn sortable(processes: Seq<ProcessEntry>) -> bool {
    all_numbers(processes) || all_level(processes)
}

/// No process id occurs twice.
pub open spec fn pids_differ(processes: Seq<ProcessEntry>) -> bool {
    forall|i: int, j: int|
        0 <= i < j < processes.len() ==> (#[trigger] processes[i]).pid != (#[trigger]
        processes[j]).pid
}

/// Ranks a CPU usage given by the bits of its `f32`.
pub fn usage_rank(bits: u32) -> (r: i64)
    ensures
        r == usage_rank_spec(bits),
{
    if bits < 0x8000_0000 {
        bits as i64
    } else {
        0x8000_0000i64 - bits as i64
    }
}

/// Whether the bits are those of an `f32` that is not a number.
pub fn usage_is_nan(bits: u32) -> (r: bool)
    ensures
        r == is_nan(bits),
{
    (0x7f80_0000 < bits && bits < 0x8000_0000) || bits > 0xff80_0000
}

/// Whether some CPU usage is not a number.
fn some_nan(processes: &Vec<ProcessEntry>) -> (r: bool)
    ensures
        r == !all_numbers(processes@),
{
    let mut i: usize = 0;
    while i < processes.len()
        invariant
            i <= processes.len(),
            forall|k: int| 0 <= k < i ==> !is_nan((#[trigger] processes@[k]).usage_bits),
        decreases processes.len() - i,
    {
        if usage_is_nan(processes[i].usage_bits) {
            assert(is_nan(processes@[i as int].usage_bits));
            return true;
        }
        i += 1;
    }
    false
}

/// Whether no CPU usage is higher than another.
fn none_higher(processes: &Vec<ProcessEntry>) -> (r: bool)
    ensures
        r == all_level(processes@),
{
    let mut first: Option<usize> = None;
    let mut i: usize = 0;
    while i < processes.len()
        invariant
            i <= processes.len(),
            match first {
                Some(f) => f < i && !is_nan(processes@[f as int].usage_bits) && forall|k: int|
                    0 <= k < i && !is_nan((#[trigger] processes@[k]).usage_bits) ==> rank(
                        processes@[k],
                    ) == rank(processes@[f as int]),
                None => forall|k: int|
                    0 <= k < i ==> is_nan((#[trigger] processes@[k]).usage_bits),
            },
        decreases processes.len() - i,
    {
        let bits: u32 = processes[i].usage_bits;
        if !usage_is_nan(bits) {
            match first {
                Some(f) => {
                    if usage_rank(bits) != usage_rank(processes[f].usage_bits) {
                        assert(above(processes@[i as int], processes@[f as int]) || above(
                            processes@[f as int],
                            processes@[i as int],
                        ));
                        return false;
                    }
                },
                None => {
                    first = Some(i);
                },
            }
        }
        i += 1;
    }
    true
}

/// Whether no process id occurs twice.
fn all_differ(processes: &Vec<ProcessEntry>) -> (r: bool)
    ensures
        r == pids_differ(processes@),
{
    broadcast use vstd::std_specs::hash::group_hash_axioms;

    let mut seen: HashSet<u32> = HashSet::new();
    let mut i: usize = 0;
    while i < processes.len()
        invariant
            i <= processes.len(),
            forall|k: int| 0 <= k < i ==> seen@.contains((#[trigger] processes@[k]).pid),
            forall|pid: u32| #[trigger]
                seen@.contains(pid) ==> exists|k: int|
                    0 <= k < i && (#[trigger] processes@[k]).pid == pid,
            pids_differ(processes@.take(i as int)),
        decreases processes.len() - i,
    {
        broadcast use vstd::std_specs::hash::group_hash_axioms;

        let ghost front = processes@.take(i as int);
        let pid: u32 = processes[i].pid;
        if !seen.insert(pid) {
            proof {
                let k = choose|k: int| 0 <= k < i && (#[trigger] processes@[k]).pid == pid;
                assert(processes@[k].pid == processes@[i as int].pid);
            }
            return false;
        }
        i += 1;
        proof {
            let longer = processes@.take(i as int);
            assert forall|a: int, b: int| 0 <= a < b < longer.len() implies (#[trigger]
            longer[a]).pid != (#[trigger] longer[b]).pid by {
                assert(longer[a] == front[a]);
                assert(longer[a] == processes@[a]);
                if b < front.len() {
                    assert(longer[b] == front[b]);
                }
            }
        }
    }
    assert(processes@.take(i as int) =~= processes@);
    true
}

/// Processes as they were read: each id occurs once, and the CPU usages put them into an order.
#[derive(Debug)]
pub struct ProcessList {
    entries: Vec<ProcessEntry>,
}

impl View for ProcessList {
    type V = Seq<ProcessEntry>;

    closed spec fn view(&self) -> Seq<ProcessEntry> {
        self.entries@
    }
}

impl Default for ProcessList {
    fn default() -> (r: ProcessList)
        ensures
            r@ == Seq::<ProcessEntry>::empty(),
    {
        ProcessList { entries: Vec::new() }
    }
}

impl ProcessList {
    /// No process id occurs twice, and the CPU usages put the processes into an order.
    #[verifier::type_invariant]
    pub open spec fn wf(self) -> bool {
        pids_differ(self@) && sortable(self@)
    }

    /// The processes, if no id occurs twice and their CPU usages put them into an order.
    pub fn new(entries: Vec<ProcessEntry>) -> (r: Option<ProcessList>)
        ensures
            r is Some <==> pids_differ(entries@) && sortable(entries@),
            r matches Some(list) ==> list@ == entries@,
    {
        if all_differ(&entries) && (!some_nan(&entries) || none_higher(&entries)) {
            Some(ProcessList { entries })
        } else {
            None
        }
    }

    /// The processes, in the order in which they were read.
    pub fn entries(&self) -> (r: &Vec<ProcessEntry>)
        ensures
            r@ == self@,
            pids_differ(r@),
            sortable(r@),
    {
        proof {
            use_type_invariant(self);
        }
        &self.entries
    }
}

/// `rows` with `p` put in front of the first row with a lower CPU usage, or behind all.
pub open spec fn placed(rows: Seq<ProcessEntry>, p: ProcessEntry) -> Seq<ProcessEntry>
    decreases rows.len(),
{
    if rows.len() == 0 {
        seq![p]
    } else if above(p, rows[0]) {
        seq![p] + rows
    } else {
        seq![rows[0]] + placed(rows.drop_first(), p)
    }
}

/// The processes with the highest CPU usage first; where none is higher they keep their order.
pub open spec fn by_usage(processes: Seq<ProcessEntry>) -> Seq<ProcessEntry>
    decreases processes.len(),
{
    if processes.len() == 0 {
        seq![]
    } else {
        placed(by_usage(processes.drop_last()), processes.last())
    }
}

/// `placed`, by rank alone.
spec fn placed_by_rank(rows: Seq<ProcessEntry>, p: ProcessEntry) -> Seq<ProcessEntry>
    decreases rows.len(),
{
    if rows.len() == 0 {
        seq![p]
    } else if rank(p) > rank(rows[0]) {
        seq![p] + rows
    } else {
        seq![rows[0]] + placed_by_rank(rows.drop_first(), p)
    }
}

/// `by_usage`, by rank alone.
spec fn by_rank(processes: Seq<ProcessEntry>) -> Seq<ProcessEntry>
    decreases processes.len(),
{
    if processes.len() == 0 {
        seq![]
    } else {
        placed_by_rank(by_rank(processes.drop_last()), processes.last())
    }
}

proof fn lemma_placed_numbers(rows: Seq<ProcessEntry>, p: ProcessEntry)
    requires
        all_numbers(rows),
        !is_nan(p.usage_bits),
    ensures
        placed(rows, p) == placed_by_rank(rows, p),
        all_numbers(placed(rows, p)),
    decreases rows.len(),
{
    if rows.len() > 0 {
        let rest = rows.drop_first();
        assert(!is_nan(rows[0].usage_bits));
        assert forall|i: int| 0 <= i < rest.len() implies !is_nan(
            (#[trigger] rest[i]).usage_bits,
        ) by {
            assert(!is_nan(rows[i + 1].usage_bits));
        }
        lemma_placed_numbers(rest, p);
        let r = placed(rows, p);
        assert forall|i: int| 0 <= i < r.len() implies !is_nan((#[trigger] r[i]).usage_bits) by {
            if above(p, rows[0]) {
                assert(i == 0 || r[i] == rows[i - 1]);
            } else {
                assert(i == 0 || r[i] == placed(rest, p)[i - 1]);
            }
        }
    }
}

/// Among usages that are numbers, rank alone decides.
proof fn lemma_numbers_by_rank(processes: Seq<ProcessEntry>)
    requires
        all_numbers(processes),
    ensures
        by_usage(processes) == by_rank(processes),
        all_numbers(by_usage(processes)),
    decreases processes.len(),
{
    if processes.len() > 0 {
        let rest = processes.drop_last();
        assert forall|i: int| 0 <= i < rest.len() implies !is_nan(
            (#[trigger] rest[i]).usage_bits,
        ) by {
            assert(!is_nan(processes[i].usage_bits));
        }
        lemma_numbers_by_rank(rest);
        assert(!is_nan(processes[processes.len() - 1].usage_bits));
        lemma_placed_numbers(by_usage(rest), processes.last());
    }
}

/// Ordering leaves every usage a number.
pub(crate) proof fn lemma_numbers_stay(processes: Seq<ProcessEntry>)
    requires
        all_numbers(processes),
    ensures
        all_numbers(by_usage(processes)),
{
    lemma_numbers_by_rank(processes);
}

proof fn lemma_placed_behind_all(rows: Seq<ProcessEntry>, p: ProcessEntry)
    requires
        forall|i: int| 0 <= i < rows.len() ==> !above(p, #[trigger] rows[i]),
    ensures
        placed(rows, p) == rows.push(p),
    decreases rows.len(),
{
    if rows.len() > 0 {
        assert(!above(p, rows[0]));
        lemma_placed_behind_all(rows.drop_first(), p);
    }
    assert(placed(rows, p) =~= rows.push(p));
}

/// Where no usage is higher than another, the processes keep their order.
pub(crate) proof fn lemma_level_keeps_order(processes: Seq<ProcessEntry>)
    requires
        all_level(processes),
    ensures
        by_usage(processes) == processes,
    decreases processes.len(),
{
    if processes.len() == 0 {
        assert(by_usage(processes) =~= processes);
    } else {
        let rest = processes.drop_last();
        lemma_level_keeps_order(rest);
        assert forall|i: int| 0 <= i < rest.len() implies !above(
            processes.last(),
            #[trigger] rest[i],
        ) by {
            assert(!above(processes[processes.len() - 1], processes[i]));
        }
        lemma_placed_behind_all(rest, processes.last());
        assert(rest.push(processes.last()) =~= processes);
    }
}

/// Two orders merged into one, `a` first among equals.
spec fn merged(a: Seq<ProcessEntry>, b: Seq<ProcessEntry>) -> Seq<ProcessEntry>
    decreases a.len() + b.len(),
{
    if a.len() == 0 {
        b
    } else if b.len() == 0 {
        a
    } else if rank(b[0]) > rank(a[0]) {
        seq![b[0]] + merged(a, b.drop_first())
    } else {
        seq![a[0]] + merged(a.drop_first(), b)
    }
}

/// It makes no difference whether `p` is placed in the merged order or in the second one before.
proof fn lemma_placed_in_merged(a: Seq<ProcessEntry>, b: Seq<ProcessEntry>, p: ProcessEntry)
    ensures
        placed_by_rank(merged(a, b), p) == merged(a, placed_by_rank(b, p)),
    decreases a.len() + b.len(),
{
    let m = merged(a, b);
    let q = placed_by_rank(b, p);
    reveal_with_fuel(merged, 2);
    reveal_with_fuel(placed_by_rank, 2);
    if a.len() == 0 {
    } else if b.len() == 0 {
        lemma_placed_in_merged(a.drop_first(), b, p);
        assert(q.drop_first() =~= seq![]);
    } else if rank(b[0]) > rank(a[0]) {
        let rest = merged(a, b.drop_first());
        assert(m.drop_first() =~= rest);
        if rank(p) > rank(b[0]) {
            assert(q.drop_first() =~= b);
        } else {
            assert(q.drop_first() =~= placed_by_rank(b.drop_first(), p));
            lemma_placed_in_merged(a, b.drop_first(), p);
        }
    } else {
        let rest = merged(a.drop_first(), b);
        assert(m.drop_first() =~= rest);
        if rank(p) > rank(a[0]) {
            assert(q.drop_first() =~= b);
        } else {
            lemma_placed_in_merged(a.drop_first(), b, p);
        }
    }
}

/// Two parts can be ordered on their own and merged.
proof fn lemma_by_rank_of_halves(x: Seq<ProcessEntry>, y: Seq<ProcessEntry>)
    ensures
        by_rank(x + y) == merged(by_rank(x), by_rank(y)),
    decreases y.len(),
{
    if y.len() == 0 {
        assert(x + y =~= x);
        assert(merged(by_rank(x), seq![]) == by_rank(x));
    } else {
        assert((x + y).drop_last() =~= x + y.drop_last());
        lemma_by_rank_of_halves(x, y.drop_last());
        lemma_placed_in_merged(by_rank(x), by_rank(y.drop_last()), y.last());
    }
}

/// Merges two orders into one, `a` first among equals.
fn merge<'a>(a: &Vec<&'a ProcessEntry>, b: &Vec<&'a ProcessEntry>) -> (r: Vec<&'a ProcessEntry>)
    ensures
        r@.unref() == merged(a@.unref(), b@.unref()),
{
    let mut out: Vec<&'a ProcessEntry> = Vec::new();
    let mut i: usize = 0;
    let mut j: usize = 0;
    assert(a@.unref().skip(0) =~= a@.unref());
    assert(b@.unref().skip(0) =~= b@.unref());
    while i < a.len() || j < b.len()
        invariant
            i <= a.len(),
            j <= b.len(),
            merged(a@.unref(), b@.unref()) =~= out@.unref() + merged(
                a@.unref().skip(i as int),
                b@.unref().skip(j as int),
            ),
        decreases a.len() - i + b.len() - j,
    {
        let ghost s = a@.unref().skip(i as int);
        let ghost t = b@.unref().skip(j as int);
        if i == a.len() || (j < b.len() && usage_rank(b[j].usage_bits) > usage_rank(
            a[i].usage_bits,
        )) {
            out.push(b[j]);
            proof {
                assert(t.drop_first() =~= b@.unref().skip(j + 1));
                assert(t =~= seq![t[0]] + t.drop_first());
            }
            j += 1;
        } else {
            out.push(a[i]);
            proof {
                assert(s.drop_first() =~= a@.unref().skip(i + 1));
                assert(s =~= seq![s[0]] + s.drop_first());
            }
            i += 1;
        }
    }
    out
}

/// Sorts the rows from `lo` up to `hi`, the highest usage first, without swapping equals.
fn sort_range<'a>(rows: &Vec<&'a ProcessEntry>, lo: usize, hi: usize) -> (r: Vec<
    &'a ProcessEntry,
>)
    requires
        lo <= hi <= rows.len(),
    ensures
        r@.unref() == by_rank(rows@.unref().subrange(lo as int, hi as int)),
    decreases hi - lo,
{
    let ghost all = rows@.unref();
    let mut out: Vec<&'a ProcessEntry> = Vec::new();
    if hi - lo <= 1 {
        if lo < hi {
            out.push(rows[lo]);
            proof {
                reveal_with_fuel(by_rank, 2);
                assert(all.subrange(lo as int, hi as int).drop_last() =~= seq![]);
            }
        }
        assert(out@.unref() =~= by_rank(all.subrange(lo as int, hi as int)));
        return out;
    }
    let mid: usize = lo + (hi - lo) / 2;
    let left = sort_range(rows, lo, mid);
    let right = sort_range(rows, mid, hi);
    proof {
        lemma_by_rank_of_halves(
            all.subrange(lo as int, mid as int),
            all.subrange(mid as int, hi as int),
        );
        assert(all.subrange(lo as int, mid as int) + all.subrange(mid as int, hi as int)
            =~= all.subrange(lo as int, hi as int));
    }
    merge(&left, &right)
}

/// `p` is shown for the search text `query`: the text is empty, or in lower case it stands in
/// the name in lower case, or it stands in the process id.
pub open spec fn matches_query(p: ProcessEntry, query: Seq<char>) -> bool {
    ||| query.len() == 0
    ||| text::contains_text(text::lowercase(p.name@), text::lowercase(query))
    ||| text::contains_text(pid_text_spec(p.pid), text::lowercase(query))
}

/// The rows of the table for the search text `query`: the processes that match, the highest CPU
/// usage first.
pub open spec fn shown(processes: Seq<ProcessEntry>, query: Seq<char>) -> Seq<ProcessEntry> {
    by_usage(processes).filter(|p: ProcessEntry| matches_query(p, query))
}

/// Whether a process is shown, given its name in lower case, its id, and the search text in lower
/// case.
pub fn text_matches(name: &str, pid: &str, query: &str) -> (r: bool)
    ensures
        r == (text::contains_text(name@, query@) || text::contains_text(pid@, query@)),
{
    text::has_part(name, query) || text::has_part(pid, query)
}

/// Sorts the processes by CPU usage and keeps those that match `query`.
pub fn filter_processes<'a>(list: &'a ProcessList, query: &str) -> (r: Vec<&'a ProcessEntry>)
    ensures
        r@.unref() == shown(list@, query@),
{
    let processes: &'a Vec<ProcessEntry> = list.entries();
    let mut rows: Vec<&'a ProcessEntry> = Vec::new();
    let mut i: usize = 0;
    while i < processes.len()
        invariant
            i <= processes.len(),
            rows@.unref() =~= processes@.take(i as int),
        decreases processes.len() - i,
    {
        let p: &'a ProcessEntry = &processes[i];
        let ghost before = rows@.unref();
        rows.push(p);
        assert(rows@.unref() =~= before.push(*p));
        i += 1;
    }
    assert(processes@.take(i as int) =~= processes@);
    let sorted: Vec<&'a ProcessEntry> = if some_nan(processes) {
        proof {
            lemma_level_keeps_order(processes@);
        }
        rows
    } else {
        proof {
            lemma_numbers_by_rank(processes@);
            assert(rows@.unref().subrange(0, rows.len() as int) =~= processes@);
        }
        let count: usize = rows.len();
        sort_range(&rows, 0, count)
    };
    let ghost order = by_usage(processes@);
    let ghost keep = |p: ProcessEntry| matches_query(p, query@);
    let everything = query.is_empty();
    let lowered = text::to_lowercase(query);
    let mut kept: Vec<&'a ProcessEntry> = Vec::new();
    let mut k: usize = 0;
    proof {
        reveal(Seq::filter);
        assert(kept@.unref() =~= order.take(0).filter(keep));
    }
    while k < sorted.len()
        invariant
            k <= sorted.len(),
            sorted@.unref() == order,
            keep == (|p: ProcessEntry| matches_query(p, query@)),
            everything == (query@.len() == 0),
            lowered@ == text::lowercase(query@),
            kept@.unref() == order.take(k as int).filter(keep),
        decreases sorted.len() - k,
    {
        let p: &'a ProcessEntry = sorted[k];
        let ghost before = kept@.unref();
        if everything || text_matches(
            text::to_lowercase(p.name.as_str()).as_str(),
            pid_text(p.pid).as_str(),
            lowered.as_str(),
        ) {
            kept.push(p);
            assert(kept@.unref() =~= before.push(*p));
        }
        proof {
            reveal(Seq::filter);
            assert(sorted@.unref()[k as int] == *p);
            assert(order.take(k + 1).drop_last() =~= order.take(k as int));
            assert(keep(*p) == matches_query(*p, query@));
        }
        k += 1;
    }
    assert(order.take(k as int) =~= order);
    kept
}

} // verus!
