//! What the screen shows: the panes, their texts, and the dialog on top of them.

use vstd::prelude::*;
use crate::app::{App, AppState, CpuSample, CurrentScreen};
use crate::area;
use crate::area::Area;
use crate::process;
use crate::process::{ProcessEntry, ProcessStatus};
use crate::text;

verus! {

/// Figures of the whole system, fractions written out with two decimals: the CPU usage in
/// percent, the sizes in gigabytes.
#[derive(Debug)]
pub struct SystemFigures {
    pub cpu_usage: String,
    pub total_memory: String,
    pub used_memory: String,
    pub total_swap: String,
    pub used_swap: String,
    /// Seconds since the system started.
    pub uptime: u64,
}

/// Where the panes go.
#[derive(Debug, Clone, Copy, PartialEq, Eq, Structural)]
pub struct Panes {
    pub cpu: Area,
    pub details: Area,
    pub info: Area,
    pub list: Area,
    pub footer: Area,
}

/// The colour of a row of the process table.
#[derive(Debug, Clone, Copy, PartialEq, Eq, Structural)]
pub enum RowColor {
    Green,
    Yellow,
    Red,
    Plain,
}

/// A row of the process table: process id, name, owner, CPU usage and memory.
#[derive(Debug)]
pub struct TableRow {
    pub pid: String,
    pub name: String,
    pub user: String,
    pub cpu: String,
    pub memory: String,
    pub color: RowColor,
}

/// How wide a column of the process table is.
#[derive(Debug, Clone, Copy, PartialEq, Eq, Structural)]
pub enum ColumnWidth {
    /// At most this many cells.
    Max(u16),
    /// This share of what is left.
    Fill(u16),
}

/// The head of a column of the process table.
#[derive(Debug)]
pub struct Column {
    pub label: String,
    pub width: ColumnWidth,
}

/// The process table: its columns, its rows below their heads, and the mark in front of the
/// selected row.
#[derive(Debug)]
pub struct ProcessTable {
    pub columns: Vec<Column>,
    pub rows: Vec<TableRow>,
    pub marker: String,
}

/// The titles on the frames of the panes, and the name of the line in the chart.
#[derive(Debug)]
pub struct PaneTitles {
    pub cpu: String,
    pub cpu_line: String,
    pub details: String,
    pub info: String,
    pub list: String,
    pub footer: String,
}

/// A text in a frame with a title, on top of the panes.
#[derive(Debug)]
pub struct Dialog {
    pub area: Area,
    pub title: String,
    pub text: String,
}

/// What goes on top of the panes.
#[derive(Debug)]
pub enum Overlay {
    Nothing,
    /// The search box, in this area.
    Search(Area),
    Dialog(Dialog),
}

/// The panes and what they show.
#[derive(Debug)]
pub struct Scene {
    pub panes: Panes,
    pub titles: PaneTitles,
    /// The ticks at the left and at the right end of the CPU chart.
    pub chart_ticks: (u64, u64),
    /// The CPU usages at the lower and at the upper end of the CPU chart, in percent.
    pub chart_usages: (u64, u64),
    pub details: String,
    pub info: String,
    pub table: ProcessTable,
    pub footer: String,
}

/// The samples that a chart `width` cells wide shows: the latest ones, one for each cell but no
/// more than 120.
pub open spec fn charted(cpu: Seq<CpuSample>, width: u16) -> Seq<CpuSample> {
    let points: int = if width < 120 {
        width as int
    } else {
        120
    };
    if cpu.len() > points {
        cpu.skip(cpu.len() - points)
    } else {
        cpu
    }
}

/// The ticks of the first and of the last sample; 0 and 1 where there is no sample.
pub open spec fn chart_ends(cpu: Seq<CpuSample>) -> (u64, u64) {
    if cpu.len() > 0 {
        (cpu[0].tick, cpu.last().tick)
    } else {
        (0, 1)
    }
}

/// The text of the pane on the selected process.
pub open spec fn summary_text(chosen: Option<ProcessEntry>) -> Seq<char> {
    match chosen {
        Some(p) => "PID: "@ + process::pid_text_spec(p.pid) + "\nName: "@ + p.quoted_name@
            + "\nCPU: "@ + p.usage_2@ + "%\nMemory: "@ + p.memory_2@ + " MB\nStatus: "@
            + p.status_name@,
        None => "No process selected"@,
    }
}

/// The text of the pane on the system.
pub open spec fn info_text(figures: SystemFigures) -> Seq<char> {
    "System Information\n───────────────────────────────\nCPU Usage    : "@ + text::padded(
        figures.cpu_usage@,
        6,
    ) + " %\nTotal Memory : "@ + text::padded(figures.total_memory@, 8) + " GB\nUsed Memory  : "@
        + text::padded(figures.used_memory@, 8) + " GB\nTotal Swap   : "@ + text::padded(
        figures.total_swap@,
        8,
    ) + " GB\nUsed Swap    : "@ + text::padded(figures.used_swap@, 8) + " GB\nUptime       : "@
        + text::uptime_text(figures.uptime)
}

/// The text of the details panel on `p`.
pub open spec fn panel_text(p: ProcessEntry) -> Seq<char> {
    "Process Details for PID "@ + process::pid_text_spec(p.pid) + "\n\nExecutable: "@
        + known_text(p.exe) + "\nCommand: "@ + text::joined(p.cmd@, " "@)
        + "\nWorking Directory: "@ + known_text(p.cwd) + "\nStatus: "@ + p.status_name@
        + "\nStart Time: "@ + text::decimal_text(p.start_time as nat) + "\nRun Time: "@
        + text::decimal_text(p.run_time as nat) + "s\n\nMemory Usage:\n- Physical: "@
        + p.memory_2@ + " MB\n- Virtual: "@ + p.virtual_memory_2@ + " MB\n- Read: "@
        + p.disk_read_2@ + " MB\n- Written: "@ + p.disk_written_2@ + " MB"@
}

/// A text that may not be known.
pub open spec fn known_text(t: Option<String>) -> Seq<char> {
    match t {
        Some(s) => s@,
        None => "Unknown"@,
    }
}

/// The name of an owner; nothing where it is not known.
pub open spec fn owner_text(t: Option<String>) -> Seq<char> {
    match t {
        Some(s) => s@,
        None => seq![],
    }
}

/// The colour for a status: green for running, yellow for sleeping, red for a zombie.
pub open spec fn color_for(status: ProcessStatus) -> RowColor {
    match status {
        ProcessStatus::Run => RowColor::Green,
        ProcessStatus::Sleep => RowColor::Yellow,
        ProcessStatus::Zombie => RowColor::Red,
        ProcessStatus::Other => RowColor::Plain,
    }
}

impl TableRow {
    /// The row shows `p`.
    pub open spec fn shows(self, p: ProcessEntry) -> bool {
        &&& self.pid@ == process::pid_text_spec(p.pid)
        &&& self.name@ == p.name@
        &&& self.user@ == owner_text(p.user)
        &&& self.cpu@ == p.usage_1@ + "%"@
        &&& self.memory@ == p.memory_1@
        &&& self.color == color_for(p.status)
    }
}

/// The rows show the processes, one each, in their order.
pub open spec fn rows_show(rows: Seq<TableRow>, processes: Seq<ProcessEntry>) -> bool {
    &&& rows.len() == processes.len()
    &&& forall|i: int| 0 <= i < rows.len() ==> (#[trigger] rows[i]).shows(processes[i])
}

impl Column {
    /// The column has this head and this width.
    pub open spec fn is(self, label: Seq<char>, width: ColumnWidth) -> bool {
        self.label@ == label && self.width == width
    }
}

/// The columns of the process table, from left to right.
pub open spec fn columns_named(columns: Seq<Column>) -> bool {
    &&& columns.len() == 5
    &&& columns[0].is("PID"@, ColumnWidth::Max(10))
    &&& columns[1].is("Name"@, ColumnWidth::Fill(1))
    &&& columns[2].is("User"@, ColumnWidth::Max(10))
    &&& columns[3].is("CPU%"@, ColumnWidth::Max(8))
    &&& columns[4].is("MemMB"@, ColumnWidth::Max(10))
}

impl ProcessTable {
    /// The table shows the processes, one in each row, in their order, below the heads of the
    /// columns.
    pub open spec fn shows(self, processes: Seq<ProcessEntry>) -> bool {
        &&& columns_named(self.columns@)
        &&& rows_show(self.rows@, processes)
        &&& self.marker@ == ">>"@
    }
}

impl PaneTitles {
    /// The titles are in place.
    pub open spec fn set(self) -> bool {
        &&& self.cpu@ == "CPU Usage (%)"@
        &&& self.cpu_line@ == "CPU Usage"@
        &&& self.details@ == "Process Details"@
        &&& self.info@ == "System Info"@
        &&& self.list@ == "Processes"@
        &&& self.footer@ == "Help"@
    }
}

/// The text of the footer.
pub open spec fn footer_text() -> Seq<char> {
    "[q/Esc] Quit  [s] Toggle Search  [j/k] Move  [d] Kill  [p] Kill by PID  [Enter] Details  [In Search: Esc] Exit Search  [In Details: Esc] Close"@
}

/// The text of the kill dialog.
pub open spec fn kill_text() -> Seq<char> {
    "Select signal to send:\n[1] SIGTERM (graceful)\n[2] SIGKILL (force)\n[Esc] Cancel"@
}

/// The text of the dialog for a process id, with what has been typed.
pub open spec fn pid_dialog_text(input: Seq<char>) -> Seq<char> {
    "Enter PID to kill with SIGKILL:\n["@ + input + "]\n[Enter] Kill   [Esc] Cancel"@
}

impl Dialog {
    /// The dialog has this place, this title and this text.
    pub open spec fn is(self, place: Area, title: Seq<char>, body: Seq<char>) -> bool {
        self.area == place && self.title@ == title && self.text@ == body
    }
}

/// `overlay` is what goes on top of the panes in state `s`, with the process table in `list`.
pub open spec fn overlay_for(overlay: Overlay, s: AppState, screen: Area, list: Area) -> bool {
    match s.screen {
        CurrentScreen::Main => overlay is Nothing,
        CurrentScreen::Search => overlay == Overlay::Search(area::search_area_spec(list)),
        CurrentScreen::KillModal => overlay matches Overlay::Dialog(d) && d.is(
            area::dialog_area_spec(list, 7),
            "Kill process"@,
            kill_text(),
        ),
        CurrentScreen::KillByPidModal => overlay matches Overlay::Dialog(d) && d.is(
            area::dialog_area_spec(list, 6),
            "Kill by PID"@,
            pid_dialog_text(s.pid_input),
        ),
        CurrentScreen::Details => match s.chosen() {
            Some(p) => overlay matches Overlay::Dialog(d) && d.is(
                area::panel_area_spec(screen),
                "Process Details (Press Esc to close)"@,
                panel_text(p),
            ),
            None => overlay is Nothing,
        },
    }
}

/// The panes are where the layout of `screen` puts them: as wide as the screen, one below the
/// other from its top to its bottom, with the details and the system side by side. On a screen of
/// eleven rows or more the chart is 8 rows high, the footer 3, and the second pane takes a quarter
/// of the screen, or what is left of it, rounded to the nearest row. On a lower one the chart and
/// the footer share the rows, and the panes between them are empty.
pub open spec fn panes_of(panes: Panes, screen: Area) -> bool {
    let half = area::share(screen.width, 50);
    let quarter = area::share(screen.height, 25);
    let room = screen.height - 11;
    let second = if quarter <= room {
        quarter
    } else {
        room
    };
    &&& panes.cpu.x == screen.x && panes.cpu.width == screen.width
    &&& panes.list.x == screen.x && panes.list.width == screen.width
    &&& panes.footer.x == screen.x && panes.footer.width == screen.width
    &&& panes.details.x == screen.x && panes.details.width == half
    &&& panes.info.x == screen.x + half && panes.info.width == screen.width - half
    &&& panes.info.y == panes.details.y && panes.info.height == panes.details.height
    &&& panes.cpu.y == screen.y
    &&& panes.details.y == panes.cpu.y + panes.cpu.height
    &&& panes.list.y == panes.details.y + panes.details.height
    &&& panes.footer.y == panes.list.y + panes.list.height
    &&& panes.footer.y + panes.footer.height == screen.y + screen.height
    &&& panes.cpu.height <= 8 && panes.footer.height <= 3
    &&& room >= 0 ==> panes.cpu.height == 8 && panes.details.height == second
        && panes.footer.height == 3
    &&& room < 0 ==> panes.details.height == 0 && panes.list.height == 0
}

/// `scene` is what the panes show in state `s`.
pub open spec fn scene_of(scene: Scene, s: AppState, figures: SystemFigures) -> bool {
    &&& scene.titles.set()
    &&& scene.chart_ticks == chart_ends(s.cpu)
    &&& scene.chart_usages == (0u64, 100u64)
    &&& scene.details@ == summary_text(s.chosen())
    &&& scene.info@ == info_text(figures)
    &&& scene.table.shows(s.rows())
    &&& scene.footer@ == footer_text()
}

/// Divides the screen into panes. On a screen lower than eleven rows it is left unsaid how the
/// chart and the footer share the rows.
pub fn lay_out(screen: Area) -> (r: Panes)
    requires
        screen.wf(),
    ensures
        panes_of(r, screen),
{
    let (cpu, second, list, footer) = area::split_rows(screen, 8, 25, 1, 3);
    let (details, info) = area::split_columns(second, 50, 50);
    Panes { cpu, details, info, list, footer }
}

/// The text of the pane on the system.
pub fn system_info(figures: &SystemFigures) -> (r: String)
    ensures
        r@ == info_text(*figures),
{
    let mut t = "System Information\n───────────────────────────────\nCPU Usage    : ".to_string();
    t.append(text::pad_left(figures.cpu_usage.as_str(), 6).as_str());
    t.append(" %\nTotal Memory : ");
    t.append(text::pad_left(figures.total_memory.as_str(), 8).as_str());
    t.append(" GB\nUsed Memory  : ");
    t.append(text::pad_left(figures.used_memory.as_str(), 8).as_str());
    t.append(" GB\nTotal Swap   : ");
    t.append(text::pad_left(figures.total_swap.as_str(), 8).as_str());
    t.append(" GB\nUsed Swap    : ");
    t.append(text::pad_left(figures.used_swap.as_str(), 8).as_str());
    t.append(" GB\nUptime       : ");
    t.append(text::uptime(figures.uptime).as_str());
    t
}

/// The text of the pane on the selected process.
pub fn summary(chosen: Option<&ProcessEntry>) -> (r: String)
    ensures
        r@ == summary_text(match chosen {
            Some(p) => Some(*p),
            None => None,
        }),
{
    match chosen {
        Some(p) => {
            let mut t = "PID: ".to_string();
            t.append(process::pid_text(p.pid).as_str());
            t.append("\nName: ");
            t.append(p.quoted_name.as_str());
            t.append("\nCPU: ");
            t.append(p.usage_2.as_str());
            t.append("%\nMemory: ");
            t.append(p.memory_2.as_str());
            t.append(" MB\nStatus: ");
            t.append(p.status_name.as_str());
            t
        },
        None => "No process selected".to_string(),
    }
}

fn known(t: &Option<String>) -> (r: &str)
    ensures
        r@ == known_text(*t),
{
    match t {
        Some(s) => s.as_str(),
        None => "Unknown",
    }
}

/// The text of the details panel.
pub fn panel(p: &ProcessEntry) -> (r: String)
    ensures
        r@ == panel_text(*p),
{
    let mut t = "Process Details for PID ".to_string();
    t.append(process::pid_text(p.pid).as_str());
    t.append("\n\nExecutable: ");
    t.append(known(&p.exe));
    t.append("\nCommand: ");
    t.append(text::join(&p.cmd, " ").as_str());
    t.append("\nWorking Directory: ");
    t.append(known(&p.cwd));
    t.append("\nStatus: ");
    t.append(p.status_name.as_str());
    t.append("\nStart Time: ");
    t.append(text::decimal(p.start_time).as_str());
    t.append("\nRun Time: ");
    t.append(text::decimal(p.run_time).as_str());
    t.append("s\n\nMemory Usage:\n- Physical: ");
    t.append(p.memory_2.as_str());
    t.append(" MB\n- Virtual: ");
    t.append(p.virtual_memory_2.as_str());
    t.append(" MB\n- Read: ");
    t.append(p.disk_read_2.as_str());
    t.append(" MB\n- Written: ");
    t.append(p.disk_written_2.as_str());
    t.append(" MB");
    t
}

/// The row of the process table for `p`.
pub fn table_row(p: &ProcessEntry) -> (r: TableRow)
    ensures
        r.shows(*p),
{
    let mut cpu = p.usage_1.clone();
    cpu.append("%");
    let color = match p.status {
        ProcessStatus::Run => RowColor::Green,
        ProcessStatus::Sleep => RowColor::Yellow,
        ProcessStatus::Zombie => RowColor::Red,
        ProcessStatus::Other => RowColor::Plain,
    };
    let user = match &p.user {
        Some(name) => name.clone(),
        None => String::new(),
    };
    TableRow {
        pid: process::pid_text(p.pid),
        name: p.name.clone(),
        user,
        cpu,
        memory: p.memory_1.clone(),
        color,
    }
}

/// The rows of the process table for `processes`.
pub fn table_rows(processes: &Vec<&ProcessEntry>) -> (r: Vec<TableRow>)
    ensures
        rows_show(r@, processes@.unref()),
{
    let mut rows: Vec<TableRow> = Vec::new();
    let mut i: usize = 0;
    while i < processes.len()
        invariant
            i <= processes.len(),
            rows.len() == i,
            forall|k: int|
                0 <= k < i ==> (#[trigger] rows@[k]).shows(processes@.unref()[k]),
        decreases processes.len() - i,
    {
        rows.push(table_row(processes[i]));
        i += 1;
    }
    rows
}

/// The columns of the process table.
pub fn table_columns() -> (r: Vec<Column>)
    ensures
        columns_named(r@),
{
    let mut columns: Vec<Column> = Vec::new();
    columns.push(Column { label: "PID".to_string(), width: ColumnWidth::Max(10) });
    columns.push(Column { label: "Name".to_string(), width: ColumnWidth::Fill(1) });
    columns.push(Column { label: "User".to_string(), width: ColumnWidth::Max(10) });
    columns.push(Column { label: "CPU%".to_string(), width: ColumnWidth::Max(8) });
    columns.push(Column { label: "MemMB".to_string(), width: ColumnWidth::Max(10) });
    columns
}

/// The titles of the panes.
pub fn pane_titles() -> (r: PaneTitles)
    ensures
        r.set(),
{
    PaneTitles {
        cpu: "CPU Usage (%)".to_string(),
        cpu_line: "CPU Usage".to_string(),
        details: "Process Details".to_string(),
        info: "System Info".to_string(),
        list: "Processes".to_string(),
        footer: "Help".to_string(),
    }
}

impl App {
    /// Draws the panes: keeps as many samples as the chart has room for, and tells what each pane
    /// shows and where.
    pub fn draw(&mut self, screen: Area, figures: &SystemFigures) -> (r: Scene)
        requires
            screen.wf(),
        ensures
            panes_of(r.panes, screen),
            final(self)@ == (AppState {
                cpu: charted(old(self)@.cpu, screen.width),
                ..old(self)@
            }),
            scene_of(r, final(self)@, *figures),
            old(self)@.wf() ==> final(self)@.wf(),
    {
        self.draw_in(lay_out(screen), figures)
    }

    /// Draws the panes where `panes` says.
    pub fn draw_in(&mut self, panes: Panes, figures: &SystemFigures) -> (r: Scene)
        ensures
            r.panes == panes,
            final(self)@ == (AppState {
                cpu: charted(old(self)@.cpu, panes.cpu.width),
                ..old(self)@
            }),
            scene_of(r, final(self)@, *figures),
            old(self)@.wf() ==> final(self)@.wf(),
    {
        let points: usize = if panes.cpu.width < 120 {
            panes.cpu.width as usize
        } else {
            120
        };
        let len: usize = self.cpu.len();
        if len > points {
            let recent = self.cpu.split_off(len - points);
            self.cpu = recent;
        }
        assert(self.cpu@ =~= charted(old(self).cpu@, panes.cpu.width));
        let chart_ticks: (u64, u64) = if self.cpu.len() > 0 {
            (self.cpu[0].tick, self.cpu[self.cpu.len() - 1].tick)
        } else {
            (0, 1)
        };
        Scene {
            panes,
            titles: pane_titles(),
            chart_ticks,
            chart_usages: (0, 100),
            details: self.render_process_details(),
            info: system_info(figures),
            table: self.render_processes(),
            footer: App::render_footer(),
        }
    }

    /// The text of the pane on the selected process.
    pub fn render_process_details(&self) -> (r: String)
        ensures
            r@ == summary_text(self@.chosen()),
    {
        let filtered = self.get_filtered_processes();
        summary(self.row_selected(&filtered))
    }

    /// The text of the footer.
    pub fn render_footer() -> (r: String)
        ensures
            r@ == footer_text(),
    {
        "[q/Esc] Quit  [s] Toggle Search  [j/k] Move  [d] Kill  [p] Kill by PID  [Enter] Details  [In Search: Esc] Exit Search  [In Details: Esc] Close".to_string()
    }

    /// The process table.
    pub fn render_processes(&self) -> (r: ProcessTable)
        ensures
            r.shows(self@.rows()),
    {
        let filtered = self.get_filtered_processes();
        ProcessTable {
            columns: table_columns(),
            rows: table_rows(&filtered),
            marker: ">>".to_string(),
        }
    }

    /// Where the search box goes, with the process table in `list`.
    pub fn render_search(list: Area) -> (r: Area)
        requires
            area::search_fits(list),
        ensures
            r == area::search_area_spec(list),
    {
        area::search_area(list)
    }

    /// The kill dialog, with the process table in `list`.
    pub fn render_kill_modal(list: Area) -> (r: Dialog)
        requires
            area::dialog_fits(list),
        ensures
            r.is(area::dialog_area_spec(list, 7), "Kill process"@, kill_text()),
    {
        Dialog {
            area: area::dialog_area(list, 7),
            title: "Kill process".to_string(),
            text: "Select signal to send:\n[1] SIGTERM (graceful)\n[2] SIGKILL (force)\n[Esc] Cancel".to_string(),
        }
    }

    /// The dialog for a process id, with the process table in `list`.
    pub fn render_kill_by_pid_modal(&self, list: Area) -> (r: Dialog)
        requires
            area::dialog_fits(list),
        ensures
            r.is(
                area::dialog_area_spec(list, 6),
                "Kill by PID"@,
                pid_dialog_text(self@.pid_input),
            ),
    {
        let mut t = "Enter PID to kill with SIGKILL:\n[".to_string();
        t.append(self.kill_by_pid_input.as_str());
        t.append("]\n[Enter] Kill   [Esc] Cancel");
        Dialog { area: area::dialog_area(list, 6), title: "Kill by PID".to_string(), text: t }
    }

    /// The details panel on the selected process, if there is one.
    pub fn render_details_panel(&self, screen: Area) -> (r: Option<Dialog>)
        ensures
            match self@.chosen() {
                Some(p) => r matches Some(d) && d.is(
                    area::panel_area_spec(screen),
                    "Process Details (Press Esc to close)"@,
                    panel_text(p),
                ),
                None => r is None,
            },
    {
        let filtered = self.get_filtered_processes();
        match self.row_selected(&filtered) {
            Some(p) => Some(
                Dialog {
                    area: area::panel_area(screen),
                    title: "Process Details (Press Esc to close)".to_string(),
                    text: panel(p),
                },
            ),
            None => None,
        }
    }

    /// Finishes drawing: takes over the row that the table, once drawn in `list`, has selected,
    /// and tells what goes on top.
    pub fn draw_overlay(&mut self, screen: Area, list: Area, selected: Option<usize>) -> (r:
        Overlay)
        requires
            old(self)@.screen == CurrentScreen::Search ==> area::search_fits(list),
            old(self)@.screen == CurrentScreen::KillModal || old(self)@.screen
                == CurrentScreen::KillByPidModal ==> area::dialog_fits(list),
        ensures
            final(self)@ == (AppState { selected, list_area: list, ..old(self)@ }),
            overlay_for(r, final(self)@, screen, list),
            old(self)@.wf() ==> final(self)@.wf(),
    {
        self.selected = selected;
        self.process_list_area = list;
        match self.current_screen {
            CurrentScreen::Main => Overlay::Nothing,
            CurrentScreen::Search => Overlay::Search(App::render_search(list)),
            CurrentScreen::KillModal => Overlay::Dialog(App::render_kill_modal(list)),
            CurrentScreen::KillByPidModal => Overlay::Dialog(self.render_kill_by_pid_modal(list)),
            CurrentScreen::Details => match self.render_details_panel(screen) {
                Some(d) => Overlay::Dialog(d),
                None => Overlay::Nothing,
            },
        }
    }
}

} // verus!
