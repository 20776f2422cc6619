use proctop::app::{App, CpuSample, RunEvent};
use proctop::area::{dialog_area, panel_area, search_area, Area};
use proctop::keys::{KeyCode, KeyPress};
use proctop::process::{ProcessEntry, ProcessList, ProcessStatus};
use proctop::scene::{
    lay_out, pane_titles, panel, summary, system_info, table_columns, table_row, ColumnWidth,
    Dialog, Overlay, RowColor, SystemFigures,
};

fn bash() -> ProcessEntry {
    ProcessEntry {
        pid: 4242,
        name: "bash".to_string(),
        quoted_name: "\"bash\"".to_string(),
        user: Some("alice".to_string()),
        usage_bits: 12.34f32.to_bits(),
        usage_1: "12.3".to_string(),
        usage_2: "12.34".to_string(),
        memory_1: "5.5".to_string(),
        memory_2: "5.50".to_string(),
        virtual_memory_2: "20.25".to_string(),
        disk_read_2: "0.01".to_string(),
        disk_written_2: "0.02".to_string(),
        status: ProcessStatus::Sleep,
        status_name: "Sleeping".to_string(),
        exe: Some("\"/bin/bash\"".to_string()),
        cmd: vec!["bash".to_string(), "-c".to_string(), "ls".to_string()],
        cwd: None,
        start_time: 1700000000,
        run_time: 61,
    }
}

fn figures() -> SystemFigures {
    SystemFigures {
        cpu_usage: format!("{:.2}", 7.126),
        total_memory: format!("{:.2}", 15.5),
        used_memory: format!("{:.2}", 3.25),
        total_swap: format!("{:.2}", 2.0),
        used_swap: format!("{:.2}", 0.0),
        uptime: 90061,
    }
}

fn hit(app: &mut App, code: KeyCode) {
    app.on_key_event(KeyPress { code, ctrl: false, alt: false, shift: false, extra: false });
}

fn bash_app() -> App {
    let mut app = App::new();
    app.set_processes(ProcessList::new(vec![bash()]).unwrap());
    app.run(RunEvent::Started);
    app
}

fn dialog(overlay: Overlay) -> Dialog {
    match overlay {
        Overlay::Dialog(d) => d,
        other => panic!("{:?}", other),
    }
}

const SCREEN: Area = Area { x: 0, y: 0, width: 100, height: 40 };

#[test]
fn panes_of_a_usual_screen() {
    let panes = lay_out(SCREEN);
    assert_eq!(panes.cpu, Area { x: 0, y: 0, width: 100, height: 8 });
    assert_eq!(panes.details, Area { x: 0, y: 8, width: 50, height: 10 });
    assert_eq!(panes.info, Area { x: 50, y: 8, width: 50, height: 10 });
    assert_eq!(panes.list, Area { x: 0, y: 18, width: 100, height: 19 });
    assert_eq!(panes.footer, Area { x: 0, y: 37, width: 100, height: 3 });
}

fn check_panes(screen: Area) {
    let p = lay_out(screen);
    let h = screen.height as u32;
    let second = ((h * 25 + 50) / 100).min(h - 11) as u16;
    let half = ((screen.width as u32 * 50 + 50) / 100) as u16;
    let y = screen.y;
    assert_eq!(p.cpu, Area { height: 8, ..screen }, "{:?}", screen);
    assert_eq!(p.details, Area { y: y + 8, height: second, width: half, ..screen });
    assert_eq!(
        p.info,
        Area { x: screen.x + half, y: y + 8, height: second, width: screen.width - half }
    );
    assert_eq!(p.list, Area { y: y + 8 + second, height: screen.height - 11 - second, ..screen });
    assert_eq!(p.footer, Area { y: y + screen.height - 3, height: 3, ..screen });
}

#[test]
fn panes_of_every_height() {
    for height in 11..=400 {
        check_panes(Area { x: 0, y: 0, width: height / 2 + 1, height });
        check_panes(Area { x: 3, y: 7, width: 81, height });
    }
}

#[test]
fn panes_of_large_screens() {
    for height in [1000, 4099, 32767, 32768, 65000, 65534, 65535] {
        for width in [0, 1, 2, 3, 255, 40001, 65535] {
            check_panes(Area { x: 0, y: 0, width, height });
        }
    }
    check_panes(Area { x: 65530, y: 65500, width: 5, height: 35 });
}

#[test]
fn panes_of_small_screens() {
    for height in 0..11 {
        for width in 0..60 {
            let screen = Area { x: 2, y: 1, width, height };
            let half = (width + 1) / 2;
            let p = lay_out(screen);
            assert_eq!(p.cpu, Area { height: p.cpu.height, ..screen });
            let below = 1 + p.cpu.height;
            assert_eq!(p.details, Area { x: 2, y: below, width: half, height: 0 });
            assert_eq!(p.info, Area { x: 2 + half, y: below, width: width - half, height: 0 });
            assert_eq!(p.list, Area { x: 2, y: below, width, height: 0 });
            assert_eq!(p.footer, Area { x: 2, y: below, width, height: height - p.cpu.height });
            assert!(p.cpu.height <= 8 && p.footer.height <= 3, "{:?}", p);
        }
    }
}

#[test]
fn the_panel_takes_four_fifths() {
    for size in 0..=u16::MAX {
        let panel = panel_area(Area { x: 0, y: 0, width: size, height: size });
        let expected = (size as f32 * 0.8) as u16;
        assert_eq!(panel.width, expected, "{}", size);
        assert_eq!(panel.height, expected);
        assert_eq!(panel.x, (size - expected) / 2);
        assert_eq!(panel.y, (size - expected) / 2);
    }
}

#[test]
fn places_of_dialogs() {
    let list = Area { x: 1, y: 18, width: 99, height: 19 };
    assert_eq!(search_area(list), Area { x: 2, y: 19, width: 97, height: 3 });
    assert_eq!(dialog_area(list, 7), Area { x: 25, y: 22, width: 49, height: 7 });
}

#[test]
fn the_pane_on_the_system() {
    assert_eq!(
        system_info(&figures()),
        "System Information\n\
         ───────────────────────────────\n\
         CPU Usage    :   7.13 %\n\
         Total Memory :    15.50 GB\n\
         Used Memory  :     3.25 GB\n\
         Total Swap   :     2.00 GB\n\
         Used Swap    :     0.00 GB\n\
         Uptime       : 01d 01h 01m 01s"
    );
}

#[test]
fn the_pane_on_a_process() {
    assert_eq!(summary(None), "No process selected");
    assert_eq!(
        summary(Some(&bash())),
        "PID: 4242\nName: \"bash\"\nCPU: 12.34%\nMemory: 5.50 MB\nStatus: Sleeping"
    );
}

#[test]
fn the_panel_on_a_process() {
    assert_eq!(
        panel(&bash()),
        "Process Details for PID 4242\n\n\
         Executable: \"/bin/bash\"\n\
         Command: bash -c ls\n\
         Working Directory: Unknown\n\
         Status: Sleeping\n\
         Start Time: 1700000000\n\
         Run Time: 61s\n\n\
         Memory Usage:\n\
         - Physical: 5.50 MB\n\
         - Virtual: 20.25 MB\n\
         - Read: 0.01 MB\n\
         - Written: 0.02 MB"
    );
}

#[test]
fn process_ids_are_signed() {
    let mut p = bash();
    p.pid = i32::MAX as u32;
    assert_eq!(table_row(&p).pid, "2147483647");
    p.pid = i32::MAX as u32 + 1;
    assert_eq!(table_row(&p).pid, "-2147483648");
    p.pid = u32::MAX;
    assert_eq!(table_row(&p).pid, "-1");
}

#[test]
fn rows_of_the_table() {
    let row = table_row(&bash());
    assert_eq!(
        [row.pid, row.name, row.user, row.cpu, row.memory],
        ["4242", "bash", "alice", "12.3%", "5.5"]
    );
    assert_eq!(table_row(&ProcessEntry { user: None, ..bash() }).user, "");
    for (status, color) in [
        (ProcessStatus::Run, RowColor::Green),
        (ProcessStatus::Sleep, RowColor::Yellow),
        (ProcessStatus::Zombie, RowColor::Red),
        (ProcessStatus::Other, RowColor::Plain),
    ] {
        assert_eq!(table_row(&ProcessEntry { status, ..bash() }).color, color);
    }
}

#[test]
fn heads_of_the_columns() {
    let columns = table_columns();
    let labels: Vec<&str> = columns.iter().map(|c| c.label.as_str()).collect();
    assert_eq!(labels, ["PID", "Name", "User", "CPU%", "MemMB"]);
    let widths: Vec<ColumnWidth> = columns.iter().map(|c| c.width).collect();
    assert_eq!(
        widths,
        [
            ColumnWidth::Max(10),
            ColumnWidth::Fill(1),
            ColumnWidth::Max(10),
            ColumnWidth::Max(8),
            ColumnWidth::Max(10),
        ]
    );
}

#[test]
fn titles_of_the_panes() {
    let titles = pane_titles();
    assert_eq!(titles.cpu, "CPU Usage (%)");
    assert_eq!(titles.cpu_line, "CPU Usage");
    assert_eq!(titles.details, "Process Details");
    assert_eq!(titles.info, "System Info");
    assert_eq!(titles.list, "Processes");
    assert_eq!(titles.footer, "Help");
}

#[test]
fn a_drawn_screen() {
    let mut app = bash_app();
    let scene = app.draw(SCREEN, &figures());
    assert_eq!(scene.panes, lay_out(SCREEN));
    assert_eq!(scene.chart_ticks, (0, 1));
    assert_eq!(scene.details, summary(Some(&bash())));
    assert_eq!(scene.info, system_info(&figures()));
    assert_eq!(scene.chart_usages, (0, 100));
    assert_eq!(scene.table.rows.len(), 1);
    assert_eq!(scene.table.rows[0].pid, "4242");
    assert_eq!(scene.table.columns.len(), 5);
    assert_eq!(scene.table.columns[4].label, "MemMB");
    assert_eq!(scene.table.marker, ">>");
    assert_eq!(scene.titles.list, "Processes");
    assert_eq!(
        scene.footer,
        "[q/Esc] Quit  [s] Toggle Search  [j/k] Move  [d] Kill  [p] Kill by PID  [Enter] Details  [In Search: Esc] Exit Search  [In Details: Esc] Close"
    );
    let overlay = app.draw_overlay(SCREEN, scene.panes.list, Some(0));
    assert!(matches!(overlay, Overlay::Nothing));
    assert_eq!(app.process_list_area, scene.panes.list);
}

#[test]
fn the_chart_keeps_the_latest_samples() {
    let mut app = bash_app();
    for i in 0..130u32 {
        app.run(RunEvent::Measured { usage_bits: i });
    }
    let wide = Area { x: 0, y: 0, width: 200, height: 40 };
    let scene = app.draw(wide, &figures());
    assert_eq!(app.cpu.len(), 120);
    assert_eq!(app.cpu[0], CpuSample { tick: 11, usage_bits: 10 });
    assert_eq!(scene.chart_ticks, (11, 130));
    let scene = app.draw(Area { width: 50, ..wide }, &figures());
    assert_eq!(app.cpu.len(), 50);
    assert_eq!(scene.chart_ticks, (81, 130));
    let scene = app.draw(Area { width: 0, ..wide }, &figures());
    assert_eq!(app.cpu.len(), 0);
    assert_eq!(scene.chart_ticks, (0, 1));
}

#[test]
fn the_search_box_on_top() {
    let mut app = bash_app();
    hit(&mut app, KeyCode::Char('s'));
    let list = lay_out(SCREEN).list;
    match app.draw_overlay(SCREEN, list, Some(0)) {
        Overlay::Search(area) => {
            assert_eq!(area, Area { x: 1, y: 19, width: 98, height: 3 });
        }
        other => panic!("{:?}", other),
    }
}

#[test]
fn the_kill_dialog_on_top() {
    let mut app = bash_app();
    hit(&mut app, KeyCode::Char('d'));
    let d = dialog(app.draw_overlay(SCREEN, lay_out(SCREEN).list, Some(0)));
    assert_eq!(d.area, Area { x: 25, y: 22, width: 50, height: 7 });
    assert_eq!(d.title, "Kill process");
    assert_eq!(
        d.text,
        "Select signal to send:\n[1] SIGTERM (graceful)\n[2] SIGKILL (force)\n[Esc] Cancel"
    );
}

#[test]
fn the_pid_dialog_on_top() {
    let mut app = bash_app();
    hit(&mut app, KeyCode::Char('p'));
    hit(&mut app, KeyCode::Char('4'));
    hit(&mut app, KeyCode::Char('2'));
    let d = dialog(app.draw_overlay(SCREEN, lay_out(SCREEN).list, Some(0)));
    assert_eq!(d.area, Area { x: 25, y: 22, width: 50, height: 6 });
    assert_eq!(d.title, "Kill by PID");
    assert_eq!(d.text, "Enter PID to kill with SIGKILL:\n[42]\n[Enter] Kill   [Esc] Cancel");
}

#[test]
fn the_details_on_top() {
    let mut app = bash_app();
    hit(&mut app, KeyCode::Enter);
    let list = lay_out(SCREEN).list;
    let d = dialog(app.draw_overlay(SCREEN, list, Some(0)));
    assert_eq!(d.area, Area { x: 10, y: 4, width: 80, height: 32 });
    assert_eq!(d.title, "Process Details (Press Esc to close)");
    assert_eq!(d.text, panel(&bash()));
    assert!(matches!(app.draw_overlay(SCREEN, list, None), Overlay::Nothing));
    assert_eq!(app.selected, None);
    assert!(matches!(app.draw_overlay(SCREEN, list, Some(1)), Overlay::Nothing));
}

#[test]
fn a_selection_that_the_table_corrects() {
    let mut app = bash_app();
    app.selected = Some(usize::MAX);
    assert_eq!(app.render_process_details(), "No process selected");
    app.draw_overlay(SCREEN, lay_out(SCREEN).list, Some(0));
    assert_eq!(app.render_process_details(), summary(Some(&bash())));
}
