//! The state of the monitor, and how events change it.

use vstd::prelude::*;
use crate::area::Area;
use crate::keys::{KeyCode, KeyMotion, KeyPress, MouseInput, MouseKind, TerminalEvent};
use crate::process;
use crate::process::{ProcessEntry, ProcessList};
use crate::search;
use crate::search::SearchBox;
use crate::table;
use crate::text;

verus! {

/// What the keyboard acts on.
#[derive(Default, Debug, Clone, Copy, PartialEq, Eq, Structural)]
pub enum CurrentScreen {
    #[default]
    Main,
    Search,
    KillModal,
    KillByPidModal,
    Details,
}

/// A signal that the monitor sends to processes.
#[derive(Debug, Clone, Copy, PartialEq, Eq, Structural)]
pub enum Signal {
    Term,
    Kill,
}

/// A signal that is to be sent to a process.
#[derive(Debug, Clone, Copy, PartialEq, Eq, Structural)]
pub struct KillRequest {
    pub pid: u32,
    pub signal: Signal,
}

/// The CPU usage of the whole system at a tick, as the bits of an `f32`.
#[derive(Debug, Clone, Copy, PartialEq, Eq, Structural)]
pub struct CpuSample {
    pub tick: u64,
    pub usage_bits: u32,
}

/// The monitor.
#[derive(Debug, Default)]
pub struct App {
    pub running: bool,
    pub current_screen: CurrentScreen,
    /// The processes as they were last read.
    pub processes: ProcessList,
    /// The CPU usages to draw, the oldest first.
    pub cpu: Vec<CpuSample>,
    /// The updates since the start.
    pub ticks: u64,
    /// The selected row of the process table.
    pub selected: Option<usize>,
    pub textarea: SearchBox,
    /// The process that the kill dialog is about.
    pub kill_pid: Option<u32>,
    pub kill_by_pid_input: String,
    /// Where the process table was last drawn.
    pub process_list_area: Area,
}

/// The state of the monitor as a value.
#[verifier::ext_equal]
pub struct AppState {
    pub running: bool,
    pub screen: CurrentScreen,
    pub processes: Seq<ProcessEntry>,
    pub cpu: Seq<CpuSample>,
    pub ticks: u64,
    pub selected: Option<usize>,
    pub search: SearchBox,
    pub kill_pid: Option<u32>,
    pub pid_input: Seq<char>,
    pub list_area: Area,
}

impl View for App {
    type V = AppState;

    open spec fn view(&self) -> AppState {
        AppState {
            running: self.running,
            screen: self.current_screen,
            processes: self.processes@,
            cpu: self.cpu@,
            ticks: self.ticks,
            selected: self.selected,
            search: self.textarea,
            kill_pid: self.kill_pid,
            pid_input: self.kill_by_pid_input@,
            list_area: self.process_list_area,
        }
    }
}

/// The samples `cpu` are of consecutive ticks, the last of them `ticks`.
pub open spec fn consecutive(cpu: Seq<CpuSample>, ticks: u64) -> bool {
    forall|i: int|
        0 <= i < cpu.len() ==> (#[trigger] cpu[i]).tick == ticks - (cpu.len() - 1 - i)
}

/// The row at `index`, where there is one.
pub open spec fn row_at(rows: Seq<ProcessEntry>, index: Option<usize>) -> Option<ProcessEntry> {
    match index {
        Some(i) if i < rows.len() => Some(rows[i as int]),
        _ => None,
    }
}

/// Some process has the id `pid`.
pub open spec fn listed(processes: Seq<ProcessEntry>, pid: u32) -> bool {
    exists|i: int| 0 <= i < processes.len() && (#[trigger] processes[i]).pid == pid
}

/// `pid` with `signal`, where a process has that id.
pub open spec fn request_for(
    processes: Seq<ProcessEntry>,
    pid: Option<u32>,
    signal: Signal,
) -> Option<KillRequest> {
    match pid {
        Some(p) if listed(processes, p) => Some(KillRequest { pid: p, signal }),
        _ => None,
    }
}

/// The row of a table drawn in `area` that `row` of the screen shows, counted from the top of
/// what is drawn. The frame and the header take the first two rows of `area`.
pub open spec fn row_under(area: Area, row: u16) -> Option<usize> {
    if area.y + 2 <= row && row < area.y + area.height {
        Some((row - (area.y + 2)) as usize)
    } else {
        None
    }
}

/// What the mouse did with `count` rows in the table can be told in `u16` and `usize`: a look
/// below the last row needs a row, and a click needs edges of the table that have coordinates.
pub open spec fn mouse_fits(s: AppState, mouse: MouseInput, count: int) -> bool {
    match mouse.kind {
        MouseKind::ScrollDown => s.selected is Some ==> count > 0,
        MouseKind::LeftDown => {
            &&& s.list_area.y + 2 <= u16::MAX
            &&& mouse.row >= s.list_area.y + 2 ==> s.list_area.y + s.list_area.height <= u16::MAX
        },
        _ => true,
    }
}

impl AppState {
    /// What holds between any two events: a process is up for a signal exactly while the kill
    /// dialog is open; the typed process id is digits, and none outside its dialog; the cursor
    /// of the search box is on its text, and its title is in place; no process id occurs twice,
    /// and the processes have an order; and the samples are of the latest ticks.
    pub open spec fn wf(self) -> bool {
        &&& self.kill_pid is Some <==> self.screen == CurrentScreen::KillModal
        &&& self.screen != CurrentScreen::KillByPidModal ==> self.pid_input.len() == 0
        &&& text::all_digits(self.pid_input)
        &&& search::cursor_on_text(self.search)
        &&& search::area_title(self.search) == "Search (active)"@
        &&& process::pids_differ(self.processes)
        &&& process::sortable(self.processes)
        &&& consecutive(self.cpu, self.ticks)
    }

    /// The search text: the first line of the search box.
    pub open spec fn query(self) -> Seq<char> {
        let lines = search::area_lines(self.search);
        if lines.len() > 0 {
            lines[0]
        } else {
            seq![]
        }
    }

    /// The rows of the process table.
    pub open spec fn rows(self) -> Seq<ProcessEntry> {
        process::shown(self.processes, self.query())
    }

    /// The process of the selected row.
    pub open spec fn chosen(self) -> Option<ProcessEntry> {
        row_at(self.rows(), self.selected)
    }

    /// The state when a key has been handled, but for the search box.
    pub open spec fn after_key(self, key: KeyPress) -> AppState {
        match self.screen {
            CurrentScreen::Details => self.after_key_in_details(key),
            CurrentScreen::KillByPidModal => self.after_key_in_pid_dialog(key),
            CurrentScreen::KillModal => self.after_key_in_kill_dialog(key),
            CurrentScreen::Search => self.after_key_in_search(key),
            CurrentScreen::Main => self.after_key_in_main(key),
        }
    }

    pub open spec fn after_key_in_details(self, key: KeyPress) -> AppState {
        match key.code {
            KeyCode::Esc => AppState { screen: CurrentScreen::Main, ..self },
            _ => self,
        }
    }

    pub open spec fn after_key_in_pid_dialog(self, key: KeyPress) -> AppState {
        match key.code {
            KeyCode::Esc | KeyCode::Enter => AppState {
                screen: CurrentScreen::Main,
                pid_input: seq![],
                ..self
            },
            KeyCode::Char(c) if text::is_digit(c) => AppState {
                pid_input: self.pid_input.push(c),
                ..self
            },
            KeyCode::Backspace if self.pid_input.len() > 0 => AppState {
                pid_input: self.pid_input.drop_last(),
                ..self
            },
            _ => self,
        }
    }

    pub open spec fn after_key_in_kill_dialog(self, key: KeyPress) -> AppState {
        match key.code {
            KeyCode::Esc | KeyCode::Char('1') | KeyCode::Char('2') => AppState {
                screen: CurrentScreen::Main,
                kill_pid: None,
                ..self
            },
            _ => self,
        }
    }

    pub open spec fn after_key_in_search(self, key: KeyPress) -> AppState {
        match key.code {
            KeyCode::Esc | KeyCode::Enter => AppState { screen: CurrentScreen::Main, ..self },
            _ => self,
        }
    }

    pub open spec fn after_key_in_main(self, key: KeyPress) -> AppState {
        if quits(key) {
            AppState { running: false, ..self }
        } else {
            match key.code {
                KeyCode::Char('j') => AppState {
                    selected: table::next_row_spec(self.selected),
                    ..self
                },
                KeyCode::Char('k') => AppState {
                    selected: table::previous_row_spec(self.selected),
                    ..self
                },
                KeyCode::Char('s') => AppState { screen: CurrentScreen::Search, ..self },
                KeyCode::Char('d') => match self.chosen() {
                    Some(p) => AppState {
                        screen: CurrentScreen::KillModal,
                        kill_pid: Some(p.pid),
                        ..self
                    },
                    None => self,
                },
                KeyCode::Char('p') => AppState {
                    screen: CurrentScreen::KillByPidModal,
                    pid_input: seq![],
                    ..self
                },
                KeyCode::Enter => AppState { screen: CurrentScreen::Details, ..self },
                _ => self,
            }
        }
    }

    /// The key goes into the search box.
    pub open spec fn edits_search(self, key: KeyPress) -> bool {
        self.screen == CurrentScreen::Search && key.code != KeyCode::Esc && key.code
            != KeyCode::Enter
    }

    /// The signal that a key asks for.
    pub open spec fn key_request(self, key: KeyPress) -> Option<KillRequest> {
        match (self.screen, key.code) {
            (CurrentScreen::KillByPidModal, KeyCode::Enter) => request_for(
                self.processes,
                text::parsed_u32(self.pid_input),
                Signal::Kill,
            ),
            (CurrentScreen::KillModal, KeyCode::Char('1')) => request_for(
                self.processes,
                self.kill_pid,
                Signal::Term,
            ),
            (CurrentScreen::KillModal, KeyCode::Char('2')) => request_for(
                self.processes,
                self.kill_pid,
                Signal::Kill,
            ),
            _ => None,
        }
    }

    /// The state when the mouse has been handled, with `count` rows in the table.
    pub open spec fn after_mouse(self, mouse: MouseInput, count: int) -> AppState {
        if self.screen != CurrentScreen::Main {
            self
        } else {
            match mouse.kind {
                MouseKind::ScrollUp => match self.selected {
                    Some(i) if i > 0 => AppState { selected: Some((i - 1) as usize), ..self },
                    _ => self,
                },
                MouseKind::ScrollDown => match self.selected {
                    Some(i) if i < count - 1 => AppState {
                        selected: Some((i + 1) as usize),
                        ..self
                    },
                    _ => self,
                },
                MouseKind::LeftDown => match row_under(self.list_area, mouse.row) {
                    Some(i) if i < count => AppState { selected: Some(i), ..self },
                    _ => self,
                },
                MouseKind::Other => self,
            }
        }
    }
}

/// In the main screen, `key` ends the program: Escape, q, or Control (alone) with c or C.
pub open spec fn quits(key: KeyPress) -> bool {
    ||| key.code == KeyCode::Esc
    ||| key.code == KeyCode::Char('q')
    ||| {
        &&& key.ctrl && !key.alt && !key.shift && !key.extra
        &&& key.code == KeyCode::Char('c') || key.code == KeyCode::Char('C')
    }
}

/// The state at the beginning: the main screen, no process read, nothing typed, nothing drawn.
pub open spec fn initial(s: AppState) -> bool {
    &&& s.running
    &&& s.screen == CurrentScreen::Main
    &&& s.processes.len() == 0
    &&& s.cpu.len() == 0
    &&& s.ticks == 0
    &&& s.selected is None
    &&& search::fresh(s.search)
    &&& search::area_title(s.search) == "Search (active)"@
    &&& s.kill_pid is None
    &&& s.pid_input.len() == 0
    &&& s.list_area == Area { x: 0, y: 0, width: 0, height: 0 }
}

/// From `before` to `after`, `key` was handled.
pub open spec fn key_handled(before: AppState, after: AppState, key: KeyPress) -> bool {
    &&& after == (AppState { search: after.search, ..before.after_key(key) })
    &&& if before.edits_search(key) {
        search::key_taken(before.search, after.search, key)
    } else {
        after.search == before.search
    }
}

/// What the mouse did can be told in `u16` and `usize`, or need not be told.
pub open spec fn mouse_handleable(s: AppState, mouse: MouseInput) -> bool {
    s.screen != CurrentScreen::Main || mouse_fits(s, mouse, s.rows().len() as int)
}

/// From `before` to `after`, `mouse` was handled; or nothing was done where it could not be.
pub open spec fn mouse_handled(before: AppState, after: AppState, mouse: MouseInput) -> bool {
    if mouse_handleable(before, mouse) {
        after == before.after_mouse(mouse, before.rows().len() as int)
    } else {
        after == before
    }
}

/// What came of an event of the terminal.
#[derive(Debug, Clone, Copy, PartialEq, Eq, Structural)]
pub struct Outcome {
    /// What happened could be told in `u16` and `usize`.
    pub handled: bool,
    /// A signal to send.
    pub kill: Option<KillRequest>,
}

/// From `before` to `after`, an event of the terminal was handled, with `outcome`: a key that went
/// down as a key is, the mouse as the mouse is, and anything else, or nothing, by doing nothing.
pub open spec fn event_handled(
    before: AppState,
    after: AppState,
    outcome: Outcome,
    event: Option<TerminalEvent>,
) -> bool {
    match event {
        Some(TerminalEvent::Key(KeyMotion::Press, key)) => {
            &&& outcome == Outcome { handled: true, kill: before.key_request(key) }
            &&& key_handled(before, after, key)
        },
        Some(TerminalEvent::Mouse(mouse)) => {
            &&& outcome == Outcome { handled: mouse_handleable(before, mouse), kill: None }
            &&& mouse_handled(before, after, mouse)
        },
        _ => outcome == Outcome { handled: true, kill: None } && after == before,
    }
}

/// What the program has just done.
#[derive(Debug, Clone, Copy, PartialEq, Eq, Structural)]
pub enum RunEvent {
    /// It has started.
    Started,
    /// It has drawn the screen.
    Drawn,
    /// It has handled the event of the terminal, if there was one. The last update was so many
    /// whole seconds ago.
    Handled { elapsed_secs: u64 },
    /// It has measured the CPU usage of the whole system.
    Measured { usage_bits: u32 },
    /// It has read the processes anew.
    Refreshed,
}

/// What the program is to do next.
#[derive(Debug, Clone, Copy, PartialEq, Eq, Structural)]
pub enum RunAction {
    Draw,
    HandleEvents,
    MeasureCpu,
    RefreshProcesses,
    Stop,
}

/// What the program is to do next, and whether an update ends here, which starts the clock anew.
#[derive(Debug, Clone, Copy, PartialEq, Eq, Structural)]
pub struct RunStep {
    pub restart_clock: bool,
    pub action: RunAction,
}

/// How a round begins: with drawing, or not at all once the program is to end.
pub open spec fn next_round(running: bool) -> RunAction {
    if running {
        RunAction::Draw
    } else {
        RunAction::Stop
    }
}

impl AppState {
    /// The state when the program has done `event`.
    pub open spec fn after_run(self, event: RunEvent) -> AppState {
        match event {
            RunEvent::Started => AppState { running: true, selected: Some(0), ticks: 0, ..self },
            RunEvent::Measured { usage_bits } => AppState {
                ticks: (self.ticks + 1) as u64,
                cpu: self.cpu.push(CpuSample { tick: (self.ticks + 1) as u64, usage_bits }),
                ..self
            },
            _ => self,
        }
    }

    /// What the program does next when it has done `event`: an update comes a second after the
    /// last one, and every third update reads the processes.
    pub open spec fn run_step(self, event: RunEvent) -> RunStep {
        match event {
            RunEvent::Started => RunStep { restart_clock: true, action: RunAction::Draw },
            RunEvent::Drawn => RunStep { restart_clock: false, action: RunAction::HandleEvents },
            RunEvent::Handled { elapsed_secs } => RunStep {
                restart_clock: false,
                action: if elapsed_secs >= 1 {
                    RunAction::MeasureCpu
                } else {
                    next_round(self.running)
                },
            },
            RunEvent::Measured { .. } => if (self.ticks + 1) % 3 == 0 {
                RunStep { restart_clock: false, action: RunAction::RefreshProcesses }
            } else {
                RunStep { restart_clock: true, action: next_round(self.running) }
            },
            RunEvent::Refreshed => RunStep {
                restart_clock: true,
                action: next_round(self.running),
            },
        }
    }
}

impl App {
    /// A monitor that has not read any process yet.
    pub fn new() -> (r: App)
        ensures
            initial(r@),
            r@.wf(),
    {
        App {
            running: true,
            current_screen: CurrentScreen::Main,
            processes: ProcessList::default(),
            cpu: Vec::new(),
            ticks: 0,
            selected: None,
            textarea: search::new_text_area("Search (active)"),
            kill_pid: None,
            kill_by_pid_input: String::new(),
            process_list_area: Area { x: 0, y: 0, width: 0, height: 0 },
        }
    }

    /// Takes over the processes that have just been read.
    pub fn set_processes(&mut self, processes: ProcessList)
        ensures
            final(self)@ == (AppState { processes: processes@, ..old(self)@ }),
            process::pids_differ(final(self)@.processes),
            process::sortable(final(self)@.processes),
            old(self)@.wf() ==> final(self)@.wf(),
    {
        proof {
            use_type_invariant(&processes);
        }
        self.processes = processes;
    }

    /// The rows of the process table: the processes that match the search text, the highest CPU
    /// usage first.
    pub fn get_filtered_processes<'a>(&'a self) -> (r: Vec<&'a ProcessEntry>)
        ensures
            r@.unref() == self@.rows(),
    {
        let lines = search::text_of(&self.textarea);
        let ghost all = search::area_lines(self.textarea);
        assert(all.len() == lines@.len());
        assert(all[0] == lines@[0]@);
        process::filter_processes(&self.processes, lines[0].as_str())
    }

    /// The process of the selected row, among `rows`.
    pub fn row_selected<'a>(&self, rows: &Vec<&'a ProcessEntry>) -> (r: Option<&'a ProcessEntry>)
        ensures
            match r {
                Some(p) => row_at(rows@.unref(), self.selected) == Some(*p),
                None => row_at(rows@.unref(), self.selected) is None,
            },
    {
        match self.selected {
            Some(i) => if i < rows.len() {
                assert(rows@.unref()[i as int] == *rows@[i as int]);
                Some(rows[i])
            } else {
                None
            },
            None => None,
        }
    }

    /// Whether some process has the id `pid`.
    fn has_process(&self, pid: u32) -> (r: bool)
        ensures
            r == listed(self.processes@, pid),
    {
        let entries = self.processes.entries();
        let mut i: usize = 0;
        while i < entries.len()
            invariant
                i <= entries.len(),
                entries@ == self.processes@,
                forall|k: int| 0 <= k < i ==> (#[trigger] entries@[k]).pid != pid,
            decreases entries.len() - i,
        {
            if entries[i].pid == pid {
                assert(self.processes@[i as int].pid == pid);
                return true;
            }
            i += 1;
        }
        false
    }

    /// Opens the kill dialog for the process of the selected row, if there is one.
    pub fn prepare_kill_modal(&mut self)
        ensures
            final(self)@ == match old(self)@.chosen() {
                Some(p) => AppState {
                    screen: CurrentScreen::KillModal,
                    kill_pid: Some(p.pid),
                    ..old(self)@
                },
                None => old(self)@,
            },
    {
        let filtered = self.get_filtered_processes();
        let pid: Option<u32> = match self.row_selected(&filtered) {
            Some(p) => Some(p.pid),
            None => None,
        };
        if pid.is_some() {
            self.current_screen = CurrentScreen::KillModal;
            self.kill_pid = pid;
        }
    }

    /// Closes the kill dialog. The process that it was about is to get `signal`, if it is still
    /// there.
    pub fn send_signal(&mut self, signal: Signal) -> (r: Option<KillRequest>)
        ensures
            final(self)@ == (AppState {
                screen: CurrentScreen::Main,
                kill_pid: None,
                ..old(self)@
            }),
            r == request_for(old(self)@.processes, old(self)@.kill_pid, signal),
    {
        let request: Option<KillRequest> = match self.kill_pid {
            Some(pid) => if self.has_process(pid) {
                Some(KillRequest { pid, signal })
            } else {
                None
            },
            None => None,
        };
        self.current_screen = CurrentScreen::Main;
        self.kill_pid = None;
        request
    }

    /// The process whose id has been typed is to be killed, if there is one.
    pub fn try_kill_by_pid(&self) -> (r: Option<KillRequest>)
        ensures
            r == request_for(
                self@.processes,
                text::parsed_u32(self@.pid_input),
                Signal::Kill,
            ),
    {
        match text::parse_u32(self.kill_by_pid_input.as_str()) {
            Some(pid) => if self.has_process(pid) {
                Some(KillRequest { pid, signal: Signal::Kill })
            } else {
                None
            },
            None => None,
        }
    }

    /// Ends the program after this round.
    pub fn quit(&mut self)
        ensures
            final(self)@ == (AppState { running: false, ..old(self)@ }),
    {
        self.running = false;
    }

    /// The main loop, one step at a time: takes note of what the program has just done, and
    /// tells what it is to do next.
    pub fn run(&mut self, event: RunEvent) -> (r: RunStep)
        requires
            event is Measured ==> old(self)@.ticks < u64::MAX,
        ensures
            final(self)@ == old(self)@.after_run(event),
            r == old(self)@.run_step(event),
            old(self)@.wf() && (event is Started ==> old(self)@.cpu.len() == 0)
                ==> final(self)@.wf(),
    {
        match event {
            RunEvent::Started => {
                self.running = true;
                self.selected = Some(0);
                self.ticks = 0;
                RunStep { restart_clock: true, action: RunAction::Draw }
            },
            RunEvent::Drawn => RunStep {
                restart_clock: false,
                action: RunAction::HandleEvents,
            },
            RunEvent::Handled { elapsed_secs } => {
                let action = if elapsed_secs >= 1 {
                    RunAction::MeasureCpu
                } else {
                    self.start_round()
                };
                RunStep { restart_clock: false, action }
            },
            RunEvent::Measured { usage_bits } => {
                self.ticks = self.ticks + 1;
                self.cpu.push(CpuSample { tick: self.ticks, usage_bits });
                if self.ticks.is_multiple_of(3) {
                    RunStep { restart_clock: false, action: RunAction::RefreshProcesses }
                } else {
                    RunStep { restart_clock: true, action: self.start_round() }
                }
            },
            RunEvent::Refreshed => RunStep { restart_clock: true, action: self.start_round() },
        }
    }

    fn start_round(&self) -> (r: RunAction)
        ensures
            r == next_round(self.running),
    {
        if self.running {
            RunAction::Draw
        } else {
            RunAction::Stop
        }
    }

    /// Handles an event of the terminal, if there is one: a key that went down, or the mouse.
    pub fn handle_crossterm_events(&mut self, event: Option<TerminalEvent>) -> (r: Outcome)
        ensures
            event_handled(old(self)@, final(self)@, r, event),
            old(self)@.wf() ==> final(self)@.wf(),
    {
        match event {
            Some(TerminalEvent::Key(KeyMotion::Press, key)) => {
                let kill = self.on_key_event(key);
                Outcome { handled: true, kill }
            },
            Some(TerminalEvent::Mouse(mouse)) => {
                let handled = self.on_mouse_event(mouse);
                Outcome { handled, kill: None }
            },
            _ => Outcome { handled: true, kill: None },
        }
    }

    /// Handles a key.
    pub fn on_key_event(&mut self, key: KeyPress) -> (r: Option<KillRequest>)
        ensures
            r == old(self)@.key_request(key),
            key_handled(old(self)@, final(self)@, key),
            old(self)@.wf() ==> final(self)@.wf(),
    {
        match self.current_screen {
            CurrentScreen::Details => {
                if key.code == KeyCode::Esc {
                    self.current_screen = CurrentScreen::Main;
                }
                None
            },
            CurrentScreen::KillByPidModal => self.key_in_pid_dialog(key),
            CurrentScreen::KillModal => match key.code {
                KeyCode::Char('1') => self.send_signal(Signal::Term),
                KeyCode::Char('2') => self.send_signal(Signal::Kill),
                KeyCode::Esc => {
                    self.current_screen = CurrentScreen::Main;
                    self.kill_pid = None;
                    None
                },
                _ => None,
            },
            CurrentScreen::Search => {
                match key.code {
                    KeyCode::Esc | KeyCode::Enter => {
                        self.current_screen = CurrentScreen::Main;
                    },
                    _ => {
                        search::input_key(&mut self.textarea, key);
                    },
                }
                None
            },
            CurrentScreen::Main => {
                self.key_in_main(key);
                None
            },
        }
    }

    fn key_in_pid_dialog(&mut self, key: KeyPress) -> (r: Option<KillRequest>)
        requires
            old(self)@.screen == CurrentScreen::KillByPidModal,
        ensures
            final(self)@ == old(self)@.after_key_in_pid_dialog(key),
            r == old(self)@.key_request(key),
    {
        match key.code {
            KeyCode::Esc => {
                self.current_screen = CurrentScreen::Main;
                self.kill_by_pid_input = String::new();
                None
            },
            KeyCode::Enter => {
                let request = self.try_kill_by_pid();
                self.current_screen = CurrentScreen::Main;
                self.kill_by_pid_input = String::new();
                request
            },
            KeyCode::Char(c) => {
                if '0' <= c && c <= '9' {
                    self.kill_by_pid_input.push(c);
                }
                None
            },
            KeyCode::Backspace => {
                let _ = self.kill_by_pid_input.pop();
                None
            },
            _ => None,
        }
    }

    fn key_in_main(&mut self, key: KeyPress)
        ensures
            final(self)@ == old(self)@.after_key_in_main(key),
    {
        let control = key.ctrl && !key.alt && !key.shift && !key.extra;
        match key.code {
            KeyCode::Esc | KeyCode::Char('q') => self.quit(),
            KeyCode::Char('c') | KeyCode::Char('C') => {
                if control {
                    self.quit();
                }
            },
            KeyCode::Char('j') => {
                self.selected = table::next_row(self.selected);
            },
            KeyCode::Char('k') => {
                self.selected = table::previous_row(self.selected);
            },
            KeyCode::Char('s') => {
                self.current_screen = CurrentScreen::Search;
            },
            KeyCode::Char('d') => self.prepare_kill_modal(),
            KeyCode::Char('p') => {
                self.current_screen = CurrentScreen::KillByPidModal;
                self.kill_by_pid_input = String::new();
            },
            KeyCode::Enter => {
                self.current_screen = CurrentScreen::Details;
            },
            _ => {},
        }
    }

    /// Handles the mouse. Returns whether what it did could be told in `u16` and `usize`;
    /// where it could not, nothing changes.
    pub fn on_mouse_event(&mut self, mouse: MouseInput) -> (r: bool)
        ensures
            r == mouse_handleable(old(self)@, mouse),
            mouse_handled(old(self)@, final(self)@, mouse),
            old(self)@.wf() ==> final(self)@.wf(),
    {
        if self.current_screen != CurrentScreen::Main {
            return true;
        }
        let count: usize = self.get_filtered_processes().len();
        let fits = match mouse.kind {
            MouseKind::ScrollDown => self.selected.is_none() || count > 0,
            MouseKind::LeftDown => {
                let area = self.process_list_area;
                area.y <= u16::MAX - 2 && (mouse.row < area.y + 2 || area.height <= u16::MAX
                    - area.y)
            },
            _ => true,
        };
        if fits {
            self.mouse_on_rows(mouse, count);
        }
        fits
    }

    /// Handles the mouse, with `count` rows in the process table.
    pub fn mouse_on_rows(&mut self, mouse: MouseInput, count: usize)
        requires
            old(self)@.screen == CurrentScreen::Main ==> mouse_fits(
                old(self)@,
                mouse,
                count as int,
            ),
        ensures
            final(self)@ == old(self)@.after_mouse(mouse, count as int),
    {
        if self.current_screen != CurrentScreen::Main {
            return;
        }
        match mouse.kind {
            MouseKind::ScrollUp => {
                if let Some(i) = self.selected {
                    if i > 0 {
                        self.selected = Some(i - 1);
                    }
                }
            },
            MouseKind::ScrollDown => {
                if let Some(i) = self.selected {
                    if i < count - 1 {
                        self.selected = Some(i + 1);
                    }
                }
            },
            MouseKind::LeftDown => {
                let top: u16 = self.process_list_area.y + 2;
                if mouse.row >= top && mouse.row < self.process_list_area.y
                    + self.process_list_area.height {
                    let clicked: usize = (mouse.row - top) as usize;
                    if clicked < count {
                        self.selected = Some(clicked);
                    }
                }
            },
            MouseKind::Other => {},
        }
    }
}

} // verus!
