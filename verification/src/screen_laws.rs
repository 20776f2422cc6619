//! What holds of what is on the screen: where it stands, and what it says.

use vstd::prelude::*;
use crate::app;
use crate::app::{AppState, CpuSample, CurrentScreen};
use crate::area;
use crate::area::Area;
use crate::process;
use crate::process::ProcessEntry;
use crate::scene;
use crate::scene::{Dialog, Overlay, PaneTitles, Panes, Scene, SystemFigures};
use crate::text;

verus! {

// Places

/// A share is the nearest number of cells: it is off by half a cell at most.
pub proof fn law_share_is_the_nearest(size: u16, percent: u16)
    ensures
        size * percent - 50 < 100 * area::share(size, percent) <= size * percent + 50,
{
    let product = size * percent;
    assert(100 * ((product + 50) / 100) <= product + 50 < 100 * ((product + 50) / 100) + 100);
}

/// The panes on a screen of eleven rows or more: the chart 8 rows at the top, the footer 3 at the
/// bottom, and below the chart a pane of a quarter of the screen, to the nearest row, or of what
/// is left if that is less; the table has the rest.
pub proof fn law_heights_of_the_panes(panes: Panes, screen: Area)
    requires
        scene::panes_of(panes, screen),
        screen.height >= 11,
    ensures
        panes.cpu.y == screen.y && panes.cpu.height == 8,
        panes.footer.height == 3 && panes.footer.y + 3 == screen.y + screen.height,
        panes.details.y == screen.y + 8,
        panes.info.y == panes.details.y && panes.info.height == panes.details.height,
        panes.list.y == panes.details.y + panes.details.height,
        panes.list.y + panes.list.height == panes.footer.y,
        panes.list.height > 0 ==> screen.height - 2 < 4 * panes.details.height <= screen.height + 2,
        4 * panes.details.height <= screen.height + 2,
{
}

/// The panes on a screen of fewer rows: the chart and the footer have all of them, neither more
/// than on a higher screen, and the others have none.
pub proof fn law_heights_on_a_low_screen(panes: Panes, screen: Area)
    requires
        scene::panes_of(panes, screen),
        screen.height < 11,
    ensures
        panes.cpu.y == screen.y,
        panes.cpu.height + panes.footer.height == screen.height,
        panes.footer.y == screen.y + panes.cpu.height,
        panes.cpu.height <= 8 && panes.footer.height <= 3,
        panes.details.height == 0 && panes.info.height == 0 && panes.list.height == 0,
{
}

/// The panes are as wide as the screen; the details have its left half, the larger one by a cell
/// where its width is odd, and the system has the right half.
pub proof fn law_widths_of_the_panes(panes: Panes, screen: Area)
    requires
        scene::panes_of(panes, screen),
    ensures
        panes.cpu.x == screen.x && panes.cpu.width == screen.width,
        panes.list.x == screen.x && panes.list.width == screen.width,
        panes.footer.x == screen.x && panes.footer.width == screen.width,
        panes.details.x == screen.x,
        panes.info.x == panes.details.x + panes.details.width,
        panes.details.width + panes.info.width == screen.width,
        panes.info.width <= panes.details.width <= panes.info.width + 1,
{
}

/// The search box leaves one cell free on either side and one above, and is three rows high.
pub proof fn law_place_of_the_search_box(list: Area)
    requires
        area::search_fits(list),
    ensures
        ({
            let r = area::search_area_spec(list);
            &&& r.x - list.x == 1
            &&& r.y - list.y == 1
            &&& r.x + r.width + 1 == list.x + list.width
            &&& r.height == 3
        }),
        list.width >= 2 && list.x < u16::MAX && list.y < u16::MAX,
{
}

/// There is room for the search box and for a dialog where their corners have coordinates.
pub proof fn law_room_for_what_goes_on_top(list: Area)
    ensures
        area::search_fits(list) <==> list.width >= 2 && list.x + 1 <= u16::MAX && list.y + 1
            <= u16::MAX,
        list.wf() ==> area::dialog_fits(list),
        area::dialog_fits(list) <==> list.x + list.width / 4 <= u16::MAX && list.y + list.height
            / 4 <= u16::MAX,
        list.wf() <==> list.x + list.width <= u16::MAX && list.y + list.height <= u16::MAX,
{
}

/// A dialog begins a quarter into the table from the left and from the top, is half as wide as
/// the table, and as high as it is to be.
pub proof fn law_place_of_a_dialog(list: Area, height: u16)
    requires
        area::dialog_fits(list),
    ensures
        ({
            let r = area::dialog_area_spec(list, height);
            &&& 4 * (r.x - list.x) <= list.width < 4 * (r.x - list.x) + 4
            &&& 4 * (r.y - list.y) <= list.height < 4 * (r.y - list.y) + 4
            &&& 2 * r.width <= list.width < 2 * r.width + 2
            &&& r.height == height
        }),
{
}

/// The details panel is four fifths as wide and as high as the screen, in whole cells, and leaves
/// as much on one side as on the other, but for one cell.
pub proof fn law_size_of_the_panel(screen: Area)
    ensures
        ({
            let r = area::panel_area_spec(screen);
            &&& 5 * r.width <= 4 * screen.width < 5 * r.width + 5
            &&& 5 * r.height <= 4 * screen.height < 5 * r.height + 5
            &&& r.x <= screen.width - r.width - r.x <= r.x + 1
            &&& r.y <= screen.height - r.height - r.y <= r.y + 1
        }),
{
}

// The chart

/// The chart holds the latest samples, all of them, or one for each cell, or 120, whichever is
/// least.
pub proof fn law_chart_holds_all_it_can(cpu: Seq<CpuSample>, width: u16)
    ensures
        ({
            let r = scene::charted(cpu, width);
            &&& r.len() <= cpu.len() && r.len() <= width && r.len() <= 120
            &&& r.len() == cpu.len() || r.len() == width || r.len() == 120
            &&& forall|i: int|
                0 <= i < r.len() ==> #[trigger] r[i] == cpu[cpu.len() - r.len() + i]
        }),
{
}

/// The chart reaches from the tick of its first sample to that of its last.
pub proof fn law_chart_reaches_from_first_to_last(cpu: Seq<CpuSample>)
    ensures
        cpu.len() > 0 ==> scene::chart_ends(cpu).0 == cpu[0].tick && scene::chart_ends(cpu).1
            == cpu[cpu.len() - 1].tick,
        cpu.len() == 0 ==> scene::chart_ends(cpu).0 == 0 && scene::chart_ends(cpu).1 == 1,
{
}

// What the panes say

/// The titles of the panes.
pub proof fn law_titles_of_the_panes(titles: PaneTitles)
    requires
        titles.set(),
    ensures
        titles.cpu@ == "CPU Usage (%)"@,
        titles.cpu_line@ == "CPU Usage"@,
        titles.details@ == "Process Details"@,
        titles.info@ == "System Info"@,
        titles.list@ == "Processes"@,
        titles.footer@ == "Help"@,
{
}

/// A scene shows the titles, the chart from end to end in percent, the summary of the selected
/// process, the figures of the system, the rows of the table, and the keys.
pub proof fn law_scene_shows_the_state(shown: Scene, s: AppState, figures: SystemFigures)
    requires
        scene::scene_of(shown, s, figures),
    ensures
        shown.titles.cpu@ == "CPU Usage (%)"@ && shown.titles.cpu_line@ == "CPU Usage"@,
        shown.titles.details@ == "Process Details"@ && shown.titles.info@ == "System Info"@,
        shown.titles.list@ == "Processes"@ && shown.titles.footer@ == "Help"@,
        shown.chart_usages == (0u64, 100u64),
        s.cpu.len() > 0 ==> shown.chart_ticks == (s.cpu[0].tick, s.cpu[s.cpu.len() - 1].tick),
        s.cpu.len() == 0 ==> shown.chart_ticks == (0u64, 1u64),
        shown.details@ == scene::summary_text(s.chosen()),
        shown.info@ == scene::info_text(figures),
        shown.table.shows(s.rows()),
        shown.footer@
            == "[q/Esc] Quit  [s] Toggle Search  [j/k] Move  [d] Kill  [p] Kill by PID  [Enter] Details  [In Search: Esc] Exit Search  [In Details: Esc] Close"@,
{
}

/// The texts that never change: the keys in the footer, and the choices of the kill dialog.
pub proof fn law_fixed_texts()
    ensures
        scene::footer_text()
            == "[q/Esc] Quit  [s] Toggle Search  [j/k] Move  [d] Kill  [p] Kill by PID  [Enter] Details  [In Search: Esc] Exit Search  [In Details: Esc] Close"@,
        scene::kill_text()
            == "Select signal to send:\n[1] SIGTERM (graceful)\n[2] SIGKILL (force)\n[Esc] Cancel"@,
{
}

/// What is known is said as it is, and what is not is said to be unknown.
pub proof fn law_known_is_said(t: Option<String>)
    ensures
        t matches Some(s) ==> scene::known_text(t) == s@,
        t is None ==> scene::known_text(t) == "Unknown"@,
{
}

/// `whole` is what stands before `label`, then `label`, `value` and `next`, and what stands behind.
pub open spec fn says(
    whole: Seq<char>,
    label: Seq<char>,
    value: Seq<char>,
    next: Seq<char>,
) -> bool {
    exists|before: Seq<char>, behind: Seq<char>|
        whole == #[trigger] (before + label + value + next + behind)
}

proof fn lemma_says(
    whole: Seq<char>,
    before: Seq<char>,
    label: Seq<char>,
    value: Seq<char>,
    next: Seq<char>,
    behind: Seq<char>,
)
    requires
        whole =~= before + label + value + next + behind,
    ensures
        says(whole, label, value, next),
{
}

proof fn lemma_shifted(
    before: Seq<char>,
    label: Seq<char>,
    value: Seq<char>,
    next: Seq<char>,
    behind: Seq<char>,
)
    ensures
        (before + label + value) + next + behind == before + label + (value + next + behind),
{
    assert((before + label + value) + next + behind =~= before + label + (value + next + behind));
}

/// The summary of a process says its id, its name in quotes, its usage, its memory and its status,
/// each behind its label and before the next, and nothing more; without a process it says so.
pub proof fn law_summary_says_each_figure(p: ProcessEntry)
    ensures
        ({
            let t = scene::summary_text(Some(p));
            let pid = process::pid_text_spec(p.pid);
            &&& says(t, "PID: "@, pid, "\nName: "@)
            &&& says(t, "\nName: "@, p.quoted_name@, "\nCPU: "@)
            &&& says(t, "\nCPU: "@, p.usage_2@, "%\nMemory: "@)
            &&& says(t, "%\nMemory: "@, p.memory_2@, " MB\nStatus: "@)
            &&& says(t, " MB\nStatus: "@, p.status_name@, seq![])
            &&& t.len() == "PID: "@.len() + pid.len() + "\nName: "@.len() + p.quoted_name@.len()
                + "\nCPU: "@.len() + p.usage_2@.len() + "%\nMemory: "@.len() + p.memory_2@.len()
                + " MB\nStatus: "@.len() + p.status_name@.len()
        }),
        scene::summary_text(None) == "No process selected"@,
{
    let t = scene::summary_text(Some(p));
    let pid = process::pid_text_spec(p.pid);
    let none = Seq::<char>::empty();
    let a0 = "PID: "@ + pid;
    let a1 = a0 + "\nName: "@ + p.quoted_name@;
    let a2 = a1 + "\nCPU: "@ + p.usage_2@;
    let a3 = a2 + "%\nMemory: "@ + p.memory_2@;
    let a4 = a3 + " MB\nStatus: "@ + p.status_name@;
    let z4 = p.status_name@;
    let z3 = p.memory_2@ + " MB\nStatus: "@ + z4;
    let z2 = p.usage_2@ + "%\nMemory: "@ + z3;
    let z1 = p.quoted_name@ + "\nCPU: "@ + z2;
    assert(t == a4);
    assert(t == a3 + " MB\nStatus: "@ + z4);
    lemma_shifted(a2, "%\nMemory: "@, p.memory_2@, " MB\nStatus: "@, z4);
    lemma_shifted(a1, "\nCPU: "@, p.usage_2@, "%\nMemory: "@, z3);
    lemma_shifted(a0, "\nName: "@, p.quoted_name@, "\nCPU: "@, z2);
    lemma_says(t, none, "PID: "@, pid, "\nName: "@, z1);
    lemma_says(t, a0, "\nName: "@, p.quoted_name@, "\nCPU: "@, z2);
    lemma_says(t, a1, "\nCPU: "@, p.usage_2@, "%\nMemory: "@, z3);
    lemma_says(t, a2, "%\nMemory: "@, p.memory_2@, " MB\nStatus: "@, z4);
    lemma_says(t, a3, " MB\nStatus: "@, p.status_name@, none, none);
}

/// The pane on the system says the usage, the memory, the swap and the uptime, each behind its
/// label and before the next, and nothing more.
pub proof fn law_info_says_each_figure(f: SystemFigures)
    ensures
        ({
            let t = scene::info_text(f);
            let usage = text::padded(f.cpu_usage@, 6);
            let memory = text::padded(f.total_memory@, 8);
            let used = text::padded(f.used_memory@, 8);
            let swap = text::padded(f.total_swap@, 8);
            let swapped = text::padded(f.used_swap@, 8);
            let up = text::uptime_text(f.uptime);
            &&& says(
                t,
                "System Information\n───────────────────────────────\nCPU Usage    : "@,
                usage,
                " %\nTotal Memory : "@,
            )
            &&& says(t, " %\nTotal Memory : "@, memory, " GB\nUsed Memory  : "@)
            &&& says(t, " GB\nUsed Memory  : "@, used, " GB\nTotal Swap   : "@)
            &&& says(t, " GB\nTotal Swap   : "@, swap, " GB\nUsed Swap    : "@)
            &&& says(t, " GB\nUsed Swap    : "@, swapped, " GB\nUptime       : "@)
            &&& says(t, " GB\nUptime       : "@, up, seq![])
            &&& t.len() == "System Information\n───────────────────────────────\nCPU Usage    : "@.len()
                + usage.len() + " %\nTotal Memory : "@.len() + memory.len()
                + " GB\nUsed Memory  : "@.len() + used.len() + " GB\nTotal Swap   : "@.len()
                + swap.len() + " GB\nUsed Swap    : "@.len() + swapped.len()
                + " GB\nUptime       : "@.len() + up.len()
        }),
{
    let t = scene::info_text(f);
    let usage = text::padded(f.cpu_usage@, 6);
    let memory = text::padded(f.total_memory@, 8);
    let used = text::padded(f.used_memory@, 8);
    let swap = text::padded(f.total_swap@, 8);
    let swapped = text::padded(f.used_swap@, 8);
    let up = text::uptime_text(f.uptime);
    let none = Seq::<char>::empty();
    let a0 = "System Information\n───────────────────────────────\nCPU Usage    : "@ + usage;
    let a1 = a0 + " %\nTotal Memory : "@ + memory;
    let a2 = a1 + " GB\nUsed Memory  : "@ + used;
    let a3 = a2 + " GB\nTotal Swap   : "@ + swap;
    let a4 = a3 + " GB\nUsed Swap    : "@ + swapped;
    let a5 = a4 + " GB\nUptime       : "@ + up;
    let z5 = up;
    let z4 = swapped + " GB\nUptime       : "@ + z5;
    let z3 = swap + " GB\nUsed Swap    : "@ + z4;
    let z2 = used + " GB\nTotal Swap   : "@ + z3;
    let z1 = memory + " GB\nUsed Memory  : "@ + z2;
    assert(t == a5);
    assert(t == a4 + " GB\nUptime       : "@ + z5);
    lemma_shifted(a3, " GB\nUsed Swap    : "@, swapped, " GB\nUptime       : "@, z5);
    lemma_shifted(a2, " GB\nTotal Swap   : "@, swap, " GB\nUsed Swap    : "@, z4);
    lemma_shifted(a1, " GB\nUsed Memory  : "@, used, " GB\nTotal Swap   : "@, z3);
    lemma_shifted(a0, " %\nTotal Memory : "@, memory, " GB\nUsed Memory  : "@, z2);
    lemma_says(
        t,
        none,
        "System Information\n───────────────────────────────\nCPU Usage    : "@,
        usage,
        " %\nTotal Memory : "@,
        z1,
    );
    lemma_says(t, a0, " %\nTotal Memory : "@, memory, " GB\nUsed Memory  : "@, z2);
    lemma_says(t, a1, " GB\nUsed Memory  : "@, used, " GB\nTotal Swap   : "@, z3);
    lemma_says(t, a2, " GB\nTotal Swap   : "@, swap, " GB\nUsed Swap    : "@, z4);
    lemma_says(t, a3, " GB\nUsed Swap    : "@, swapped, " GB\nUptime       : "@, z5);
    lemma_says(t, a4, " GB\nUptime       : "@, up, none, none);
}

/// The details panel on a process says its id, its executable, its command with its words apart,
/// its working directory, its status, its times, its memory and what it read and wrote, each
/// behind its label and before the next, and nothing more.
pub proof fn law_panel_says_each_figure(p: ProcessEntry)
    ensures
        ({
            let t = scene::panel_text(p);
            let pid = process::pid_text_spec(p.pid);
            let exe = scene::known_text(p.exe);
            let cmd = text::joined(p.cmd@, " "@);
            let cwd = scene::known_text(p.cwd);
            let start = text::decimal_text(p.start_time as nat);
            let run = text::decimal_text(p.run_time as nat);
            &&& says(t, "Process Details for PID "@, pid, "\n\nExecutable: "@)
            &&& says(t, "\n\nExecutable: "@, exe, "\nCommand: "@)
            &&& says(t, "\nCommand: "@, cmd, "\nWorking Directory: "@)
            &&& says(t, "\nWorking Directory: "@, cwd, "\nStatus: "@)
            &&& says(t, "\nStatus: "@, p.status_name@, "\nStart Time: "@)
            &&& says(t, "\nStart Time: "@, start, "\nRun Time: "@)
            &&& says(t, "\nRun Time: "@, run, "s\n\nMemory Usage:\n- Physical: "@)
            &&& says(t, "s\n\nMemory Usage:\n- Physical: "@, p.memory_2@, " MB\n- Virtual: "@)
            &&& says(t, " MB\n- Virtual: "@, p.virtual_memory_2@, " MB\n- Read: "@)
            &&& says(t, " MB\n- Read: "@, p.disk_read_2@, " MB\n- Written: "@)
            &&& says(t, " MB\n- Written: "@, p.disk_written_2@, " MB"@)
            &&& t.len() == "Process Details for PID "@.len() + pid.len()
                + "\n\nExecutable: "@.len() + exe.len() + "\nCommand: "@.len() + cmd.len()
                + "\nWorking Directory: "@.len() + cwd.len() + "\nStatus: "@.len()
                + p.status_name@.len() + "\nStart Time: "@.len() + start.len()
                + "\nRun Time: "@.len() + run.len() + "s\n\nMemory Usage:\n- Physical: "@.len()
                + p.memory_2@.len() + " MB\n- Virtual: "@.len() + p.virtual_memory_2@.len()
                + " MB\n- Read: "@.len() + p.disk_read_2@.len() + " MB\n- Written: "@.len()
                + p.disk_written_2@.len() + " MB"@.len()
        }),
{
    let t = scene::panel_text(p);
    let pid = process::pid_text_spec(p.pid);
    let exe = scene::known_text(p.exe);
    let cmd = text::joined(p.cmd@, " "@);
    let cwd = scene::known_text(p.cwd);
    let start = text::decimal_text(p.start_time as nat);
    let run = text::decimal_text(p.run_time as nat);
    let none = Seq::<char>::empty();
    let a0 = "Process Details for PID "@ + pid;
    let a1 = a0 + "\n\nExecutable: "@ + exe;
    let a2 = a1 + "\nCommand: "@ + cmd;
    let a3 = a2 + "\nWorking Directory: "@ + cwd;
    let a4 = a3 + "\nStatus: "@ + p.status_name@;
    let a5 = a4 + "\nStart Time: "@ + start;
    let a6 = a5 + "\nRun Time: "@ + run;
    let a7 = a6 + "s\n\nMemory Usage:\n- Physical: "@ + p.memory_2@;
    let a8 = a7 + " MB\n- Virtual: "@ + p.virtual_memory_2@;
    let a9 = a8 + " MB\n- Read: "@ + p.disk_read_2@;
    let a10 = a9 + " MB\n- Written: "@ + p.disk_written_2@;
    let z10 = p.disk_written_2@ + " MB"@;
    let z9 = p.disk_read_2@ + " MB\n- Written: "@ + z10;
    let z8 = p.virtual_memory_2@ + " MB\n- Read: "@ + z9;
    let z7 = p.memory_2@ + " MB\n- Virtual: "@ + z8;
    let z6 = run + "s\n\nMemory Usage:\n- Physical: "@ + z7;
    let z5 = start + "\nRun Time: "@ + z6;
    let z4 = p.status_name@ + "\nStart Time: "@ + z5;
    let z3 = cwd + "\nStatus: "@ + z4;
    let z2 = cmd + "\nWorking Directory: "@ + z3;
    let z1 = exe + "\nCommand: "@ + z2;
    assert(t == a10 + " MB"@);
    assert(t =~= a9 + " MB\n- Written: "@ + z10);
    lemma_shifted(a8, " MB\n- Read: "@, p.disk_read_2@, " MB\n- Written: "@, z10);
    lemma_shifted(a7, " MB\n- Virtual: "@, p.virtual_memory_2@, " MB\n- Read: "@, z9);
    lemma_shifted(a6, "s\n\nMemory Usage:\n- Physical: "@, p.memory_2@, " MB\n- Virtual: "@, z8);
    lemma_shifted(a5, "\nRun Time: "@, run, "s\n\nMemory Usage:\n- Physical: "@, z7);
    lemma_shifted(a4, "\nStart Time: "@, start, "\nRun Time: "@, z6);
    lemma_shifted(a3, "\nStatus: "@, p.status_name@, "\nStart Time: "@, z5);
    lemma_shifted(a2, "\nWorking Directory: "@, cwd, "\nStatus: "@, z4);
    lemma_shifted(a1, "\nCommand: "@, cmd, "\nWorking Directory: "@, z3);
    lemma_shifted(a0, "\n\nExecutable: "@, exe, "\nCommand: "@, z2);
    lemma_says(t, none, "Process Details for PID "@, pid, "\n\nExecutable: "@, z1);
    lemma_says(t, a0, "\n\nExecutable: "@, exe, "\nCommand: "@, z2);
    lemma_says(t, a1, "\nCommand: "@, cmd, "\nWorking Directory: "@, z3);
    lemma_says(t, a2, "\nWorking Directory: "@, cwd, "\nStatus: "@, z4);
    lemma_says(t, a3, "\nStatus: "@, p.status_name@, "\nStart Time: "@, z5);
    lemma_says(t, a4, "\nStart Time: "@, start, "\nRun Time: "@, z6);
    lemma_says(t, a5, "\nRun Time: "@, run, "s\n\nMemory Usage:\n- Physical: "@, z7);
    lemma_says(t, a6, "s\n\nMemory Usage:\n- Physical: "@, p.memory_2@, " MB\n- Virtual: "@, z8);
    lemma_says(t, a7, " MB\n- Virtual: "@, p.virtual_memory_2@, " MB\n- Read: "@, z9);
    lemma_says(t, a8, " MB\n- Read: "@, p.disk_read_2@, " MB\n- Written: "@, z10);
    lemma_says(t, a9, " MB\n- Written: "@, p.disk_written_2@, " MB"@, none);
}

/// The panel on a process with a known working directory, or a known executable, says it as it
/// is; one that is not known is said to be unknown.
pub proof fn law_panel_says_what_is_known(p: ProcessEntry)
    ensures
        p.cwd matches Some(d) ==> says(
            scene::panel_text(p),
            "\nWorking Directory: "@,
            d@,
            "\nStatus: "@,
        ),
        p.cwd is None ==> says(
            scene::panel_text(p),
            "\nWorking Directory: "@,
            "Unknown"@,
            "\nStatus: "@,
        ),
        p.exe matches Some(e) ==> says(
            scene::panel_text(p),
            "\n\nExecutable: "@,
            e@,
            "\nCommand: "@,
        ),
        p.exe is None ==> says(
            scene::panel_text(p),
            "\n\nExecutable: "@,
            "Unknown"@,
            "\nCommand: "@,
        ),
{
    law_panel_says_each_figure(p);
}

/// What the panel says before the working directory.
spec fn panel_front(p: ProcessEntry) -> Seq<char> {
    "Process Details for PID "@ + process::pid_text_spec(p.pid) + "\n\nExecutable: "@
        + scene::known_text(p.exe) + "\nCommand: "@ + text::joined(p.cmd@, " "@)
        + "\nWorking Directory: "@
}

/// What the panel says behind the working directory.
spec fn panel_back(p: ProcessEntry) -> Seq<char> {
    let start = text::decimal_text(p.start_time as nat);
    let run = text::decimal_text(p.run_time as nat);
    "\nStatus: "@ + (p.status_name@ + "\nStart Time: "@ + (start + "\nRun Time: "@ + (run
        + "s\n\nMemory Usage:\n- Physical: "@ + (p.memory_2@ + " MB\n- Virtual: "@ + (
    p.virtual_memory_2@ + " MB\n- Read: "@ + (p.disk_read_2@ + " MB\n- Written: "@ + (
    p.disk_written_2@ + " MB"@)))))))
}

proof fn lemma_panel_in_three(p: ProcessEntry)
    ensures
        scene::panel_text(p) == panel_front(p) + scene::known_text(p.cwd) + panel_back(p),
{
    let t = scene::panel_text(p);
    let start = text::decimal_text(p.start_time as nat);
    let run = text::decimal_text(p.run_time as nat);
    let a3 = panel_front(p) + scene::known_text(p.cwd);
    let a4 = a3 + "\nStatus: "@ + p.status_name@;
    let a5 = a4 + "\nStart Time: "@ + start;
    let a6 = a5 + "\nRun Time: "@ + run;
    let a7 = a6 + "s\n\nMemory Usage:\n- Physical: "@ + p.memory_2@;
    let a8 = a7 + " MB\n- Virtual: "@ + p.virtual_memory_2@;
    let a9 = a8 + " MB\n- Read: "@ + p.disk_read_2@;
    let a10 = a9 + " MB\n- Written: "@ + p.disk_written_2@;
    let z10 = p.disk_written_2@ + " MB"@;
    let z9 = p.disk_read_2@ + " MB\n- Written: "@ + z10;
    let z8 = p.virtual_memory_2@ + " MB\n- Read: "@ + z9;
    let z7 = p.memory_2@ + " MB\n- Virtual: "@ + z8;
    let z6 = run + "s\n\nMemory Usage:\n- Physical: "@ + z7;
    let z5 = start + "\nRun Time: "@ + z6;
    let z4 = p.status_name@ + "\nStart Time: "@ + z5;
    assert(t == a10 + " MB"@);
    assert(t =~= a9 + " MB\n- Written: "@ + z10);
    lemma_shifted(a8, " MB\n- Read: "@, p.disk_read_2@, " MB\n- Written: "@, z10);
    lemma_shifted(a7, " MB\n- Virtual: "@, p.virtual_memory_2@, " MB\n- Read: "@, z9);
    lemma_shifted(a6, "s\n\nMemory Usage:\n- Physical: "@, p.memory_2@, " MB\n- Virtual: "@, z8);
    lemma_shifted(a5, "\nRun Time: "@, run, "s\n\nMemory Usage:\n- Physical: "@, z7);
    lemma_shifted(a4, "\nStart Time: "@, start, "\nRun Time: "@, z6);
    lemma_shifted(a3, "\nStatus: "@, p.status_name@, "\nStart Time: "@, z5);
    assert(t == a3 + "\nStatus: "@ + z4);
    assert(a3 + "\nStatus: "@ + z4 =~= a3 + ("\nStatus: "@ + z4));
}

proof fn lemma_middles_agree(front: Seq<char>, a: Seq<char>, b: Seq<char>, back: Seq<char>)
    requires
        front + a + back == front + b + back,
    ensures
        a == b,
{
    let n = front.len() as int;
    assert((front + a + back).len() == n + a.len() + back.len());
    assert((front + b + back).len() == n + b.len() + back.len());
    assert forall|i: int| 0 <= i < a.len() implies a[i] == b[i] by {
        assert((front + a + back)[n + i] == a[i]);
        assert((front + b + back)[n + i] == b[i]);
    }
    assert(a =~= b);
}

/// Two processes that differ only in a known working directory have different panels.
pub proof fn law_working_directories_tell_apart(p: ProcessEntry, q: ProcessEntry)
    requires
        p == (ProcessEntry { cwd: p.cwd, ..q }),
        p.cwd is Some,
        q.cwd is Some,
        p.cwd->0@ != q.cwd->0@,
    ensures
        scene::panel_text(p) != scene::panel_text(q),
{
    lemma_panel_in_three(p);
    lemma_panel_in_three(q);
    assert(panel_front(p) == panel_front(q));
    assert(panel_back(p) == panel_back(q));
    if scene::panel_text(p) == scene::panel_text(q) {
        lemma_middles_agree(panel_front(p), p.cwd->0@, q.cwd->0@, panel_back(p));
    }
}

/// The dialog for a process id shows what has been typed, in brackets, between its two lines.
pub proof fn law_pid_dialog_shows_what_was_typed(input: Seq<char>)
    ensures
        ({
            let t = scene::pid_dialog_text(input);
            let first = "Enter PID to kill with SIGKILL:\n["@;
            let last = "]\n[Enter] Kill   [Esc] Cancel"@;
            &&& t.len() == first.len() + input.len() + last.len()
            &&& t.subrange(0, first.len() as int) == first
            &&& t.subrange(first.len() as int, (first.len() + input.len()) as int) == input
            &&& t.subrange((first.len() + input.len()) as int, t.len() as int) == last
        }),
{
    let t = scene::pid_dialog_text(input);
    let first = "Enter PID to kill with SIGKILL:\n["@;
    let last = "]\n[Enter] Kill   [Esc] Cancel"@;
    assert(t.subrange(0, first.len() as int) =~= first);
    assert(t.subrange(first.len() as int, (first.len() + input.len()) as int) =~= input);
    assert(t.subrange((first.len() + input.len()) as int, t.len() as int) =~= last);
}

// What goes on top

/// In the main screen nothing goes on top; in the search the search box does, inside the frame of
/// the table.
pub proof fn law_search_box_goes_on_top(overlay: Overlay, s: AppState, screen: Area, list: Area)
    requires
        scene::overlay_for(overlay, s, screen, list),
        area::search_fits(list),
    ensures
        s.screen == CurrentScreen::Main ==> overlay is Nothing,
        s.screen == CurrentScreen::Search ==> (overlay matches Overlay::Search(r) && r.x == list.x
            + 1 && r.y == list.y + 1 && r.width == list.width - 2 && r.height == 3),
{
}

/// The kill dialogs go on top in their screens, a quarter into the table, with their titles and
/// texts.
pub proof fn law_kill_dialogs_go_on_top(overlay: Overlay, s: AppState, screen: Area, list: Area)
    requires
        scene::overlay_for(overlay, s, screen, list),
        area::dialog_fits(list),
    ensures
        s.screen == CurrentScreen::KillModal ==> (overlay matches Overlay::Dialog(d) && d.title@
            == "Kill process"@ && d.text@
            == "Select signal to send:\n[1] SIGTERM (graceful)\n[2] SIGKILL (force)\n[Esc] Cancel"@
            && d.area.height == 7 && d.area.x == list.x + list.width / 4 && d.area.y == list.y
            + list.height / 4 && d.area.width == list.width / 2),
        s.screen == CurrentScreen::KillByPidModal ==> (overlay matches Overlay::Dialog(d)
            && d.title@ == "Kill by PID"@ && d.text@ == "Enter PID to kill with SIGKILL:\n["@
            + s.pid_input + "]\n[Enter] Kill   [Esc] Cancel"@ && d.area.height == 6 && d.area.x
            == list.x + list.width / 4 && d.area.y == list.y + list.height / 4 && d.area.width
            == list.width / 2),
{
}

/// In the details the panel on the process of the selected row, told by its place among the rows,
/// goes on top, and nothing where there is no such row.
pub proof fn law_panel_goes_on_top(overlay: Overlay, s: AppState, screen: Area, list: Area)
    requires
        scene::overlay_for(overlay, s, screen, list),
        s.screen == CurrentScreen::Details,
    ensures
        s.selected matches Some(i) && i < s.rows().len() ==> (overlay matches Overlay::Dialog(d)
            && d.title@ == "Process Details (Press Esc to close)"@ && d.text@ == scene::panel_text(
            s.rows()[s.selected->0 as int],
        ) && d.area == area::panel_area_spec(screen)),
        s.selected is None ==> overlay is Nothing,
        s.selected matches Some(i) && i >= s.rows().len() ==> overlay is Nothing,
{
}

/// A dialog is what it is said to be: its place, its title and its text.
pub proof fn law_dialog_is_its_parts(d: Dialog, place: Area, title: Seq<char>, body: Seq<char>)
    requires
        d.is(place, title, body),
    ensures
        d.area == place,
        d.title@ == title,
        d.text@ == body,
{
}

/// The pane on the selected process is about the process of the selected row, told by its place
/// among the rows, and says that there is none where there is no such row.
pub proof fn law_summary_is_of_the_selected(s: AppState)
    ensures
        s.selected matches Some(i) && i < s.rows().len() ==> scene::summary_text(s.chosen())
            == scene::summary_text(Some(s.rows()[s.selected->0 as int])),
        s.selected is None ==> scene::summary_text(s.chosen()) == "No process selected"@,
        s.selected matches Some(i) && i >= s.rows().len() ==> scene::summary_text(s.chosen())
            == "No process selected"@,
{
}

} // verus!
