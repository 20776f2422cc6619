//! What every key, the mouse and the clock do, said of the state before and after.

use vstd::prelude::*;
use crate::app;
use crate::app::{
    App, AppState, CpuSample, CurrentScreen, KillRequest, Outcome, RunAction, RunEvent, RunStep,
    Signal,
};
use crate::area::Area;
use crate::keys::{KeyCode, KeyMotion, KeyPress, MouseInput, MouseKind, TerminalEvent};
use crate::laws;
use crate::process;
use crate::process::ProcessEntry;
use crate::search;
use crate::search::SearchBox;
use crate::text;

verus! {

// The state

/// The state of a monitor is what its fields hold.
pub proof fn law_state_is_the_fields(monitor: App)
    ensures
        monitor@.running == monitor.running,
        monitor@.screen == monitor.current_screen,
        monitor@.processes == monitor.processes@,
        monitor@.cpu == monitor.cpu@,
        monitor@.ticks == monitor.ticks,
        monitor@.selected == monitor.selected,
        monitor@.search == monitor.textarea,
        monitor@.kill_pid == monitor.kill_pid,
        monitor@.pid_input == monitor.kill_by_pid_input@,
        monitor@.list_area == monitor.process_list_area,
{
}

/// At the beginning the monitor runs, shows the main screen, and everything else is empty.
pub proof fn law_beginning_is_empty(s: AppState)
    requires
        app::initial(s),
    ensures
        s.running,
        s.screen == CurrentScreen::Main,
        s.processes.len() == 0,
        s.cpu.len() == 0,
        s.ticks == 0,
        s.selected is None,
        s.kill_pid is None,
        s.pid_input.len() == 0,
        s.list_area.x == 0 && s.list_area.y == 0,
        s.list_area.width == 0 && s.list_area.height == 0,
        search::area_title(s.search) == "Search (active)"@,
        search::area_lines(s.search).len() == 1,
        search::area_lines(s.search)[0].len() == 0,
        search::area_cursor(s.search).0 == 0,
        search::area_cursor(s.search).1 == 0,
        search::area_selection(s.search) is None,
{
}

/// What holds between any two events, each by itself.
pub proof fn law_well_formed_in_parts(s: AppState)
    requires
        s.wf(),
    ensures
        s.kill_pid is Some <==> s.screen == CurrentScreen::KillModal,
        s.screen != CurrentScreen::KillByPidModal ==> s.pid_input.len() == 0,
        forall|i: int|
            0 <= i < s.pid_input.len() ==> '0' <= (#[trigger] s.pid_input[i]) && s.pid_input[i]
                <= '9',
        forall|i: int|
            0 <= i < s.cpu.len() ==> (#[trigger] s.cpu[i]).tick + (s.cpu.len() - 1 - i) == s.ticks,
        process::pids_differ(s.processes),
        process::sortable(s.processes),
        search::area_title(s.search) == "Search (active)"@,
        ({
            let (row, col) = search::area_cursor(s.search);
            row < search::area_lines(s.search).len() && col <= search::area_lines(
                s.search,
            )[row as int].len()
        }),
{
    assert forall|i: int| 0 <= i < s.pid_input.len() implies '0' <= (#[trigger] s.pid_input[i])
        && s.pid_input[i] <= '9' by {
        assert(text::is_digit(s.pid_input[i]));
    }
}

// Keys in the main screen

/// Escape, q, and Control alone with c or C end the program, and do nothing else.
pub proof fn law_keys_that_end(before: AppState, after: AppState, key: KeyPress)
    requires
        before.screen == CurrentScreen::Main,
        app::key_handled(before, after, key),
        key.code == KeyCode::Esc || key.code == KeyCode::Char('q') || (key.ctrl && !key.alt
            && !key.shift && !key.extra && (key.code == KeyCode::Char('c') || key.code
            == KeyCode::Char('C'))),
    ensures
        after == (AppState { running: false, ..before }),
        before.key_request(key) is None,
{
}

/// j selects the row below, whether there is one or not: the next place, the first where none was
/// selected.
pub proof fn law_j_goes_down(before: AppState, after: AppState, key: KeyPress)
    requires
        before.screen == CurrentScreen::Main,
        app::key_handled(before, after, key),
        key.code == KeyCode::Char('j'),
    ensures
        after == (AppState { selected: after.selected, ..before }),
        before.selected is None ==> after.selected == Some(0usize),
        before.selected matches Some(i) && i < usize::MAX ==> (after.selected matches Some(j) && j
            - before.selected->0 == 1),
        before.selected == Some(usize::MAX) ==> after.selected == before.selected,
        before.key_request(key) is None,
{
}

/// k selects the row above, the first one stays selected, and where none was selected it is the
/// last place that can be counted.
pub proof fn law_k_goes_up(before: AppState, after: AppState, key: KeyPress)
    requires
        before.screen == CurrentScreen::Main,
        app::key_handled(before, after, key),
        key.code == KeyCode::Char('k'),
    ensures
        after == (AppState { selected: after.selected, ..before }),
        before.selected is None ==> after.selected == Some(usize::MAX),
        before.selected matches Some(i) && i > 0 ==> (after.selected matches Some(j)
            && before.selected->0 - j == 1),
        before.selected == Some(0usize) ==> after.selected == before.selected,
        before.key_request(key) is None,
{
}

/// s opens the search box, Enter the details, and p the empty dialog for a process id; nothing
/// else changes.
pub proof fn law_keys_that_open(before: AppState, after: AppState, key: KeyPress)
    requires
        before.screen == CurrentScreen::Main,
        app::key_handled(before, after, key),
    ensures
        key.code == KeyCode::Char('s') ==> after == (AppState {
            screen: CurrentScreen::Search,
            ..before
        }),
        key.code == KeyCode::Enter ==> after == (AppState {
            screen: CurrentScreen::Details,
            ..before
        }),
        key.code == KeyCode::Char('p') ==> after.pid_input.len() == 0 && after == (AppState {
            screen: CurrentScreen::KillByPidModal,
            pid_input: after.pid_input,
            ..before
        }),
        before.key_request(key) is None,
{
}

/// d opens the kill dialog for the process of the selected row, told by its place among the rows,
/// and does nothing where there is no such row.
pub proof fn law_d_takes_up_the_selected(before: AppState, after: AppState, key: KeyPress)
    requires
        before.screen == CurrentScreen::Main,
        app::key_handled(before, after, key),
        key.code == KeyCode::Char('d'),
    ensures
        before.selected matches Some(i) && i < before.rows().len() ==> after == (AppState {
            screen: CurrentScreen::KillModal,
            kill_pid: Some(before.rows()[before.selected->0 as int].pid),
            ..before
        }),
        before.selected is None ==> after == before,
        before.selected matches Some(i) && i >= before.rows().len() ==> after == before,
        before.key_request(key) is None,
{
}

/// Every other key does nothing in the main screen; among them c and C, unless with Control alone.
pub proof fn law_other_keys_do_nothing(before: AppState, after: AppState, key: KeyPress)
    requires
        before.screen == CurrentScreen::Main,
        app::key_handled(before, after, key),
        match key.code {
            KeyCode::Esc | KeyCode::Enter => false,
            KeyCode::Char(c) => {
                &&& c != 'q' && c != 'j' && c != 'k' && c != 's' && c != 'd' && c != 'p'
                &&& c == 'c' || c == 'C' ==> !key.ctrl || key.alt || key.shift || key.extra
            },
            _ => true,
        },
    ensures
        after == before,
        before.key_request(key) is None,
{
}

// Keys in the other screens

/// In the details Escape leads back, and no other key does anything.
pub proof fn law_keys_in_the_details(before: AppState, after: AppState, key: KeyPress)
    requires
        before.screen == CurrentScreen::Details,
        app::key_handled(before, after, key),
    ensures
        key.code == KeyCode::Esc ==> after == (AppState { screen: CurrentScreen::Main, ..before }),
        key.code != KeyCode::Esc ==> after == before,
        before.key_request(key) is None,
{
}

/// In the search box Escape and Enter lead back and leave the text; every other key goes into the
/// box, which keeps its title, and changes nothing else.
pub proof fn law_keys_in_the_search(before: AppState, after: AppState, key: KeyPress)
    requires
        before.screen == CurrentScreen::Search,
        app::key_handled(before, after, key),
    ensures
        key.code == KeyCode::Esc || key.code == KeyCode::Enter ==> after == (AppState {
            screen: CurrentScreen::Main,
            ..before
        }),
        key.code != KeyCode::Esc && key.code != KeyCode::Enter ==> {
            &&& after == (AppState { search: after.search, ..before })
            &&& search::area_lines(after.search) == search::lines_after_input(before.search, key)
            &&& search::area_selection(after.search) == search::selection_after_input(
                before.search,
                key,
            )
            &&& search::area_title(after.search) == search::area_title(before.search)
            &&& key.code != KeyCode::PageUp && key.code != KeyCode::PageDown && !(key.code
                == KeyCode::Char('v') && key.ctrl != key.alt) ==> search::area_cursor(after.search)
                == search::cursor_after_input(before.search, key)
        },
        before.key_request(key) is None,
{
}

/// A character typed into the search box while nothing is selected goes in between what stands
/// before the cursor and what stands behind it, and the cursor moves behind it.
pub proof fn law_typing_goes_in_at_the_cursor(
    before: AppState,
    after: AppState,
    key: KeyPress,
    c: char,
    left: Seq<char>,
    right: Seq<char>,
)
    requires
        before.screen == CurrentScreen::Search,
        app::key_handled(before, after, key),
        key.code == KeyCode::Char(c),
        c != '\n' && c != '\r' && !key.ctrl && !key.alt,
        search::area_selection(before.search) is None,
        search::area_cursor(before.search).0 < search::area_lines(before.search).len(),
        search::area_lines(before.search)[search::area_cursor(before.search).0 as int] == left
            + right,
        search::area_cursor(before.search).1 == left.len(),
    ensures
        search::area_lines(after.search).len() == search::area_lines(before.search).len(),
        search::area_lines(after.search)[search::area_cursor(before.search).0 as int] == left.push(
            c,
        ) + right,
        search::area_cursor(after.search) == (
            search::area_cursor(before.search).0,
            left.len() + 1,
        ),
        forall|i: int|
            0 <= i < search::area_lines(before.search).len() && i != search::area_cursor(
                before.search,
            ).0 ==> #[trigger] search::area_lines(after.search)[i] == search::area_lines(
                before.search,
            )[i],
{
    assert((left + right).insert(left.len() as int, c) =~= left.push(c) + right);
}

/// Backspace in the search box while nothing is selected takes away the character before the
/// cursor.
pub proof fn law_backspace_takes_one_away(
    before: AppState,
    after: AppState,
    key: KeyPress,
    c: char,
    left: Seq<char>,
    right: Seq<char>,
)
    requires
        before.screen == CurrentScreen::Search,
        app::key_handled(before, after, key),
        key.code == KeyCode::Backspace,
        !key.ctrl && !key.alt,
        search::area_selection(before.search) is None,
        search::area_cursor(before.search).0 < search::area_lines(before.search).len(),
        search::area_lines(before.search)[search::area_cursor(before.search).0 as int]
            == left.push(c) + right,
        search::area_cursor(before.search).1 == left.len() + 1,
    ensures
        search::area_lines(after.search)[search::area_cursor(before.search).0 as int] == left
            + right,
        search::area_cursor(after.search) == (search::area_cursor(before.search).0, left.len()),
{
    assert((left.push(c) + right).remove(left.len() as int) =~= left + right);
}

/// Keys that move the cursor leave the text of the search box.
pub proof fn law_moving_leaves_the_text(before: AppState, after: AppState, key: KeyPress)
    requires
        before.screen == CurrentScreen::Search,
        app::key_handled(before, after, key),
        match key.code {
            KeyCode::Left | KeyCode::Right | KeyCode::Up | KeyCode::Down => true,
            KeyCode::Home | KeyCode::End | KeyCode::PageUp | KeyCode::PageDown => true,
            KeyCode::F(_) | KeyCode::Other => true,
            KeyCode::Char('v') => key.ctrl != key.alt,
            _ => false,
        },
    ensures
        search::area_lines(after.search) == search::area_lines(before.search),
        after.query() == before.query(),
        after.rows() == before.rows(),
{
}

/// In the kill dialog 1, 2 and Escape close it and put the process down, and no other key does
/// anything.
pub proof fn law_keys_in_the_kill_dialog(before: AppState, after: AppState, key: KeyPress)
    requires
        before.screen == CurrentScreen::KillModal,
        app::key_handled(before, after, key),
    ensures
        ({
            let closes = key.code == KeyCode::Char('1') || key.code == KeyCode::Char('2')
                || key.code == KeyCode::Esc;
            &&& closes ==> after == (AppState {
                screen: CurrentScreen::Main,
                kill_pid: None,
                ..before
            })
            &&& !closes ==> after == before
        }),
{
}

/// In the kill dialog 1 asks for the terminating signal and 2 for the killing one, to the process
/// that the dialog is about, if one with its id was read; any other key asks for none.
pub proof fn law_signals_of_the_kill_dialog(s: AppState, key: KeyPress, pid: u32)
    requires
        s.screen == CurrentScreen::KillModal,
        s.kill_pid == Some(pid),
    ensures
        ({
            let there = exists|i: int|
                0 <= i < s.processes.len() && (#[trigger] s.processes[i]).pid == pid;
            &&& there && key.code == KeyCode::Char('1') ==> s.key_request(key) == Some(
                KillRequest { pid, signal: Signal::Term },
            )
            &&& there && key.code == KeyCode::Char('2') ==> s.key_request(key) == Some(
                KillRequest { pid, signal: Signal::Kill },
            )
            &&& !there || (key.code != KeyCode::Char('1') && key.code != KeyCode::Char('2'))
                ==> s.key_request(key) is None
        }),
{
}

/// From the main screen d and then 1 or 2 ask for the signal to the process of the selected row,
/// told by its place among the rows.
pub proof fn law_d_and_a_number_signal_the_selected(
    before: AppState,
    opened: AppState,
    open: KeyPress,
    choice: KeyPress,
    i: usize,
)
    requires
        before.screen == CurrentScreen::Main,
        open.code == KeyCode::Char('d'),
        before.selected == Some(i),
        i < before.rows().len(),
        app::key_handled(before, opened, open),
    ensures
        choice.code == KeyCode::Char('1') ==> opened.key_request(choice) == Some(
            KillRequest { pid: before.rows()[i as int].pid, signal: Signal::Term },
        ),
        choice.code == KeyCode::Char('2') ==> opened.key_request(choice) == Some(
            KillRequest { pid: before.rows()[i as int].pid, signal: Signal::Kill },
        ),
{
    laws::lemma_rows_are_listed(before);
    assert(app::listed(before.processes, before.rows()[i as int].pid));
}

/// In the dialog for a process id Escape and Enter close it and forget what was typed; a digit
/// goes behind what was typed, Backspace takes the last digit away, and no other key does
/// anything.
pub proof fn law_keys_in_the_pid_dialog(before: AppState, after: AppState, key: KeyPress)
    requires
        before.screen == CurrentScreen::KillByPidModal,
        app::key_handled(before, after, key),
    ensures
        key.code == KeyCode::Esc || key.code == KeyCode::Enter ==> after.pid_input.len() == 0
            && after == (AppState {
            screen: CurrentScreen::Main,
            pid_input: after.pid_input,
            ..before
        }),
        key.code matches KeyCode::Char(c) && '0' <= c && c <= '9' ==> after == (AppState {
            pid_input: before.pid_input + seq![key.code->Char_0],
            ..before
        }),
        key.code matches KeyCode::Char(c) && (c < '0' || c > '9') ==> after == before,
        key.code == KeyCode::Backspace && before.pid_input.len() > 0 ==> after == (AppState {
            pid_input: before.pid_input.subrange(0, before.pid_input.len() - 1),
            ..before
        }),
        key.code == KeyCode::Backspace && before.pid_input.len() == 0 ==> after == before,
        key.code != KeyCode::Esc && key.code != KeyCode::Enter && key.code != KeyCode::Backspace
            && !(key.code is Char) ==> after == before,
{
    if key.code is Char {
        assert(before.pid_input.push(key.code->Char_0) =~= before.pid_input + seq![
            key.code->Char_0,
        ]);
    }
    assert(before.pid_input.drop_last() =~= before.pid_input.subrange(
        0,
        before.pid_input.len() - 1,
    ));
}

/// In the dialog for a process id Enter asks to kill the process with the id that was typed, if
/// one was read; any other key asks for nothing.
pub proof fn law_signals_of_the_pid_dialog(s: AppState, key: KeyPress)
    requires
        s.screen == CurrentScreen::KillByPidModal,
    ensures
        key.code != KeyCode::Enter ==> s.key_request(key) is None,
        key.code == KeyCode::Enter && text::parsed_u32(s.pid_input) is None ==> s.key_request(
            key,
        ) is None,
        key.code == KeyCode::Enter && text::parsed_u32(s.pid_input) is Some ==> {
            let pid = text::parsed_u32(s.pid_input)->0;
            let there = exists|i: int|
                0 <= i < s.processes.len() && (#[trigger] s.processes[i]).pid == pid;
            &&& there ==> s.key_request(key) == Some(KillRequest { pid, signal: Signal::Kill })
            &&& !there ==> s.key_request(key) is None
        },
{
}

/// A signal is asked for of a process exactly if one with that id was read.
pub proof fn law_signals_reach_what_was_read(
    processes: Seq<ProcessEntry>,
    pid: u32,
    signal: Signal,
)
    ensures
        ({
            let there = exists|i: int|
                0 <= i < processes.len() && (#[trigger] processes[i]).pid == pid;
            &&& there ==> app::request_for(processes, Some(pid), signal) == Some(
                KillRequest { pid, signal },
            )
            &&& !there ==> app::request_for(processes, Some(pid), signal) is None
            &&& app::request_for(processes, None, signal) is None
            &&& app::listed(processes, pid) == there
        }),
{
}

// The mouse

/// A click with the left button on a row of the table selects that row: it is as far below the
/// frame and the head of the table as the click was.
pub proof fn law_click_selects_the_row_under_it(
    before: AppState,
    after: AppState,
    mouse: MouseInput,
)
    requires
        before.screen == CurrentScreen::Main,
        mouse.kind == MouseKind::LeftDown,
        before.list_area.y + before.list_area.height <= u16::MAX,
        before.list_area.y + 2 <= mouse.row,
        mouse.row < before.list_area.y + before.list_area.height,
        mouse.row - before.list_area.y - 2 < before.rows().len(),
        app::mouse_handled(before, after, mouse),
    ensures
        after == (AppState { selected: after.selected, ..before }),
        after.selected matches Some(i) && i + before.list_area.y + 2 == mouse.row,
{
}

/// The same with any number of rows.
pub proof fn law_click_with_so_many_rows(s: AppState, mouse: MouseInput, count: int)
    requires
        s.screen == CurrentScreen::Main,
        mouse.kind == MouseKind::LeftDown,
    ensures
        ({
            let after = s.after_mouse(mouse, count);
            let hit = s.list_area.y + 2 <= mouse.row && mouse.row < s.list_area.y
                + s.list_area.height && mouse.row - s.list_area.y - 2 < count;
            &&& after == (AppState { selected: after.selected, ..s })
            &&& hit ==> (after.selected matches Some(i) && i + s.list_area.y + 2 == mouse.row)
            &&& !hit ==> after.selected == s.selected
        }),
{
}

/// A click anywhere else does nothing: above the rows, below the table, or below the last row.
pub proof fn law_click_elsewhere_does_nothing(
    before: AppState,
    after: AppState,
    mouse: MouseInput,
)
    requires
        mouse.kind == MouseKind::LeftDown,
        app::mouse_handled(before, after, mouse),
        mouse.row < before.list_area.y + 2 || mouse.row >= before.list_area.y
            + before.list_area.height || mouse.row - before.list_area.y - 2 >= before.rows().len(),
    ensures
        after == before,
{
}

/// The wheel moves the selection by one row, up or down, and stays within the rows; without a
/// selection it does nothing.
pub proof fn law_wheel_moves_by_one(s: AppState, mouse: MouseInput, count: int)
    requires
        s.screen == CurrentScreen::Main,
        mouse.kind == MouseKind::ScrollUp || mouse.kind == MouseKind::ScrollDown,
        count <= usize::MAX,
    ensures
        ({
            let after = s.after_mouse(mouse, count);
            &&& after == (AppState { selected: after.selected, ..s })
            &&& s.selected is None ==> after.selected is None
            &&& s.selected matches Some(i) ==> after.selected is Some && {
                let i = s.selected->0;
                let j = after.selected->0;
                &&& mouse.kind == MouseKind::ScrollUp && i > 0 ==> i - j == 1
                &&& mouse.kind == MouseKind::ScrollUp && i == 0 ==> j == 0
                &&& mouse.kind == MouseKind::ScrollDown && i + 1 < count ==> j - i == 1
                &&& mouse.kind == MouseKind::ScrollDown && i + 1 >= count ==> j == i
            }
        }),
{
}

/// The mouse acts on the rows that there are: what it does is what it does with so many rows.
pub proof fn law_mouse_counts_the_rows(before: AppState, after: AppState, mouse: MouseInput)
    requires
        app::mouse_handled(before, after, mouse),
        app::mouse_handleable(before, mouse),
    ensures
        after == before.after_mouse(mouse, before.rows().len() as int),
{
}

/// Outside the main screen the mouse does nothing, and neither does anything else it can do.
pub proof fn law_mouse_does_nothing_elsewhere(
    before: AppState,
    after: AppState,
    mouse: MouseInput,
)
    requires
        before.screen != CurrentScreen::Main || mouse.kind == MouseKind::Other,
        app::mouse_handled(before, after, mouse),
    ensures
        after == before,
        app::mouse_handleable(before, mouse),
{
}

/// What the mouse did cannot be told in two cases only: the wheel goes down in a table without
/// rows that has a selection, and a click looks for an edge of the table that has no coordinate.
pub proof fn law_mouse_that_cannot_be_told(s: AppState, mouse: MouseInput)
    requires
        s.screen == CurrentScreen::Main,
    ensures
        !app::mouse_handleable(s, mouse) <==> {
            ||| mouse.kind == MouseKind::ScrollDown && s.selected is Some && s.rows().len() == 0
            ||| mouse.kind == MouseKind::LeftDown && s.list_area.y + 2 > u16::MAX
            ||| mouse.kind == MouseKind::LeftDown && mouse.row >= s.list_area.y + 2
                && s.list_area.y + s.list_area.height > u16::MAX
        },
{
}

/// The same with any number of rows.
pub proof fn law_mouse_that_fits(s: AppState, mouse: MouseInput, count: int)
    requires
        count >= 0,
    ensures
        !app::mouse_fits(s, mouse, count) <==> {
            ||| mouse.kind == MouseKind::ScrollDown && s.selected is Some && count == 0
            ||| mouse.kind == MouseKind::LeftDown && s.list_area.y + 2 > u16::MAX
            ||| mouse.kind == MouseKind::LeftDown && mouse.row >= s.list_area.y + 2
                && s.list_area.y + s.list_area.height > u16::MAX
        },
{
}

// The main loop

/// The start makes the program run, selects the first row, begins to count and starts the clock;
/// then the screen is drawn.
pub proof fn law_start_of_the_loop(s: AppState)
    ensures
        s.after_run(RunEvent::Started) == (AppState {
            running: true,
            selected: Some(0usize),
            ticks: 0,
            ..s
        }),
        s.run_step(RunEvent::Started).action == RunAction::Draw,
        s.run_step(RunEvent::Started).restart_clock,
{
}

/// A round draws the screen, then handles events. Where the last update was a second ago or more
/// an update follows; otherwise, and after an update, comes the next round, or the end where the
/// program does not run any more. The clock starts anew with an update, once it has read what it
/// reads.
pub proof fn law_order_of_a_round(s: AppState, elapsed_secs: u64)
    ensures
        s.after_run(RunEvent::Drawn) == s,
        s.run_step(RunEvent::Drawn).action == RunAction::HandleEvents,
        !s.run_step(RunEvent::Drawn).restart_clock,
        s.after_run(RunEvent::Handled { elapsed_secs }) == s,
        !s.run_step(RunEvent::Handled { elapsed_secs }).restart_clock,
        s.run_step(RunEvent::Handled { elapsed_secs }).action == RunAction::MeasureCpu
            <==> elapsed_secs > 0,
        elapsed_secs == 0 && s.running ==> s.run_step(RunEvent::Handled { elapsed_secs }).action
            == RunAction::Draw,
        elapsed_secs == 0 && !s.running ==> s.run_step(RunEvent::Handled { elapsed_secs }).action
            == RunAction::Stop,
        s.after_run(RunEvent::Refreshed) == s,
        s.run_step(RunEvent::Refreshed).restart_clock,
        s.running ==> s.run_step(RunEvent::Refreshed).action == RunAction::Draw,
        !s.running ==> s.run_step(RunEvent::Refreshed).action == RunAction::Stop,
{
}

/// An update counts one tick more and puts the usage with that tick behind the samples. It reads
/// the processes exactly if the ticks are then a multiple of three, and ends there otherwise.
pub proof fn law_update_counts_and_reads(s: AppState, usage_bits: u32)
    requires
        s.ticks < u64::MAX,
    ensures
        ({
            let event = RunEvent::Measured { usage_bits };
            let after = s.after_run(event);
            let step = s.run_step(event);
            let third = exists|k: int| after.ticks == #[trigger] (3 * k);
            &&& after == (AppState { ticks: after.ticks, cpu: after.cpu, ..s })
            &&& after.ticks - s.ticks == 1
            &&& after.cpu.len() == s.cpu.len() + 1
            &&& forall|i: int| 0 <= i < s.cpu.len() ==> #[trigger] after.cpu[i] == s.cpu[i]
            &&& after.cpu[s.cpu.len() as int].tick == after.ticks
            &&& after.cpu[s.cpu.len() as int].usage_bits == usage_bits
            &&& step.action == RunAction::RefreshProcesses <==> third
            &&& step.restart_clock <==> !third
            &&& !third && s.running ==> step.action == RunAction::Draw
            &&& !third && !s.running ==> step.action == RunAction::Stop
        }),
{
    let ticks = s.ticks + 1;
    if ticks % 3 == 0 {
        assert(ticks == 3 * (ticks / 3));
    }
}

// Events of the terminal

/// A key that goes down is handled as a key, whether it asks for a signal or not; one that is held
/// down or let go of, anything else, and nothing at all leave the state as it is.
pub proof fn law_only_pressed_keys_count(
    before: AppState,
    after: AppState,
    outcome: Outcome,
    motion: KeyMotion,
    key: KeyPress,
)
    requires
        app::event_handled(before, after, outcome, Some(TerminalEvent::Key(motion, key))),
    ensures
        outcome.handled,
        motion == KeyMotion::Press ==> app::key_handled(before, after, key) && outcome.kill
            == before.key_request(key),
        motion != KeyMotion::Press ==> after == before && outcome.kill is None,
{
}

} // verus!
