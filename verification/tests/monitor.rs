use proctop::app::{
    App, CpuSample, CurrentScreen, KillRequest, Outcome, RunAction, RunEvent, RunStep, Signal,
};
use proctop::area::Area;
use proctop::keys::{KeyCode, KeyMotion, KeyPress, MouseInput, MouseKind, TerminalEvent};
use proctop::process::{
    filter_processes, text_matches, usage_is_nan, usage_rank, ProcessEntry, ProcessList,
    ProcessStatus,
};
use ratatui::buffer::Buffer;
use ratatui::layout::Rect;
use ratatui::widgets::Widget;

fn entry(pid: u32, name: &str, usage: f32) -> ProcessEntry {
    ProcessEntry {
        pid,
        name: name.to_string(),
        quoted_name: format!("{:?}", name),
        user: Some("root".to_string()),
        usage_bits: usage.to_bits(),
        usage_1: format!("{:.1}", usage),
        usage_2: format!("{:.2}", usage),
        memory_1: "1.0".to_string(),
        memory_2: "1.00".to_string(),
        virtual_memory_2: "2.00".to_string(),
        disk_read_2: "3.00".to_string(),
        disk_written_2: "4.00".to_string(),
        status: ProcessStatus::Run,
        status_name: "Runnable".to_string(),
        exe: None,
        cmd: vec![],
        cwd: None,
        start_time: 5,
        run_time: 6,
    }
}

fn list_of(entries: Vec<ProcessEntry>) -> ProcessList {
    ProcessList::new(entries).unwrap()
}

fn shown(list: &ProcessList, query: &str) -> Vec<u32> {
    filter_processes(list, query).iter().map(|p| p.pid).collect()
}

fn key(code: KeyCode) -> KeyPress {
    KeyPress { code, ctrl: false, alt: false, shift: false, extra: false }
}

fn ch(c: char) -> KeyPress {
    key(KeyCode::Char(c))
}

fn press(app: &mut App, code: KeyCode) -> Option<KillRequest> {
    app.on_key_event(key(code))
}

fn type_text(app: &mut App, text: &str) {
    for c in text.chars() {
        assert_eq!(app.on_key_event(ch(c)), None);
    }
}

fn pids(app: &App) -> Vec<u32> {
    app.get_filtered_processes().iter().map(|p| p.pid).collect()
}

fn sample_app() -> App {
    let mut app = App::new();
    app.set_processes(list_of(vec![
        entry(11, "Alpha", 1.0),
        entry(22, "beta", 50.5),
        entry(33, "gamma", 1.0),
        entry(44, "BETAmax", 0.0),
        entry(411, "delta", 99.0),
    ]));
    app.run(RunEvent::Started);
    app
}

fn scroll(kind: MouseKind) -> MouseInput {
    MouseInput { kind, row: 0 }
}

#[test]
fn test_app_initialization() {
    let app = App::new();
    assert!(app.running);
    assert_eq!(app.cpu.len(), 0);
    assert_eq!(app.current_screen, CurrentScreen::Main);
}

#[test]
fn a_new_monitor_is_empty() {
    let app = App::new();
    assert_eq!(app.selected, None);
    assert_eq!(app.kill_pid, None);
    assert_eq!(app.kill_by_pid_input, "");
    assert_eq!(app.ticks, 0);
    assert!(app.processes.entries().is_empty());
    assert_eq!(app.textarea.area.lines(), [""]);
    assert_eq!(app.process_list_area, Area { x: 0, y: 0, width: 0, height: 0 });
    assert!(app.get_filtered_processes().is_empty());
}

#[test]
fn the_main_screen_is_the_default() {
    assert_eq!(CurrentScreen::default(), CurrentScreen::Main);
    assert!(!App::default().running);
}

#[test]
fn rows_are_ordered_by_usage() {
    let app = sample_app();
    assert_eq!(pids(&app), vec![411, 22, 11, 33, 44]);
}

#[test]
fn equal_usages_keep_their_order() {
    let list: Vec<ProcessEntry> = (0..200).map(|i| entry(i, "p", (i % 7) as f32)).collect();
    let mut expected: Vec<u32> = (0..200).collect();
    expected.sort_by(|a, b| (b % 7).cmp(&(a % 7)));
    assert_eq!(shown(&list_of(list), ""), expected);
}

#[test]
fn ordering_agrees_with_the_standard_sort() {
    let mut seed: u32 = 12345;
    let mut list = vec![];
    for pid in 0..500 {
        seed = seed.wrapping_mul(1664525).wrapping_add(1013904223);
        list.push(entry(pid, "p", ((seed >> 20) as f32 - 100.0) / 8.0));
    }
    let mut expected: Vec<(u32, f32)> =
        list.iter().map(|p| (p.pid, f32::from_bits(p.usage_bits))).collect();
    expected.sort_by(|a, b| b.1.partial_cmp(&a.1).unwrap_or(std::cmp::Ordering::Equal));
    let expected: Vec<u32> = expected.iter().map(|p| p.0).collect();
    assert_eq!(shown(&list_of(list), ""), expected);
}

#[test]
fn usages_that_are_not_numbers_keep_the_order() {
    let nan = f32::NAN;
    for usages in [vec![1.0, nan], vec![nan, 1.0], vec![2.0, nan, 2.0, -nan], vec![nan, nan, nan]] {
        let mut expected: Vec<(u32, f32)> =
            usages.iter().enumerate().map(|(i, u)| (i as u32, *u)).collect();
        expected.sort_by(|a, b| b.1.partial_cmp(&a.1).unwrap_or(std::cmp::Ordering::Equal));
        let expected: Vec<u32> = expected.iter().map(|p| p.0).collect();
        let entries = usages.iter().enumerate().map(|(i, u)| entry(i as u32, "p", *u)).collect();
        let rows = shown(&list_of(entries), "");
        assert_eq!(rows, expected);
        assert_eq!(rows, (0..usages.len() as u32).collect::<Vec<u32>>());
    }
}

#[test]
fn usages_without_an_order_make_no_list() {
    let nan = f32::NAN;
    let list = |usages: [f32; 3]| {
        ProcessList::new((0..3).map(|i| entry(i, "p", usages[i as usize])).collect())
    };
    assert!(list([1.0, nan, 5.0]).is_none());
    assert!(list([5.0, 1.0, -nan]).is_none());
    assert!(list([nan, -0.0, 0.0]).is_some());
    assert!(list([1.0, f32::INFINITY, 5.0]).is_some());
    assert_eq!(list([1.0, 2.0, 5.0]).unwrap().entries().len(), 3);
}

#[test]
fn a_process_id_that_occurs_twice_makes_no_list() {
    let list = |pids: &[u32]| {
        ProcessList::new(pids.iter().map(|pid| entry(*pid, "p", 1.0)).collect())
    };
    assert!(list(&[]).is_some());
    assert!(list(&[7]).is_some());
    assert!(list(&[7, 8, 9]).is_some());
    assert!(list(&[7, 7]).is_none());
    assert!(list(&[7, 8, 9, 8]).is_none());
}

#[test]
fn no_process_id_is_shown_twice() {
    let list = list_of((0..300).map(|i| entry(i * 7, "p", (i % 11) as f32)).collect());
    for query in ["", "p", "1", "42", "nobody"] {
        let mut rows = shown(&list, query);
        let count = rows.len();
        rows.sort();
        rows.dedup();
        assert_eq!(rows.len(), count, "{}", query);
    }
}

#[test]
fn not_a_number_by_its_bits() {
    for bits in [
        0, 1, 0x7f7f_ffff, 0x7f80_0000, 0x7f80_0001, 0x7fc0_0000, 0x7fff_ffff, 0x8000_0000,
        0xff7f_ffff, 0xff80_0000, 0xff80_0001, 0xffff_ffff,
    ] {
        assert_eq!(usage_is_nan(bits), f32::from_bits(bits).is_nan(), "{:x}", bits);
    }
}

#[test]
fn ranks_compare_as_floats_do() {
    let values = [
        f32::NEG_INFINITY, f32::MIN, -1.5, -1.0, -f32::MIN_POSITIVE, -0.0, 0.0, 1.0e-45,
        f32::MIN_POSITIVE, 0.1, 1.0, 1.0000001, 2.5, 99.9, 100.0, 1600.0, f32::MAX, f32::INFINITY,
    ];
    for a in values {
        for b in values {
            let ranks = usage_rank(a.to_bits()).partial_cmp(&usage_rank(b.to_bits()));
            assert_eq!(ranks, a.partial_cmp(&b), "{} {}", a, b);
        }
    }
    assert_eq!(usage_rank(1.0f32.to_bits()), 0x3f80_0000);
    assert_eq!(usage_rank((-1.0f32).to_bits()), -0x3f80_0000);
}

#[test]
fn the_search_looks_at_names_in_any_case() {
    let app = sample_app();
    assert_eq!(shown(&app.processes, "BeTa"), vec![22, 44]);
    let list = list_of(vec![entry(1, "ÄRGER", 1.0), entry(2, "arger", 2.0)]);
    assert_eq!(shown(&list, "ärg"), vec![1]);
}

#[test]
fn the_search_looks_at_process_ids() {
    let app = sample_app();
    assert_eq!(shown(&app.processes, "11"), vec![411, 11]);
    assert_eq!(shown(&app.processes, "nobody"), vec![]);
    let list = list_of(vec![entry(u32::MAX, "wrapped", 1.0)]);
    assert_eq!(shown(&list, "-1"), vec![u32::MAX]);
    assert_eq!(shown(&list, "4294967295"), vec![]);
}

#[test]
fn text_matches_in_either_place() {
    assert!(text_matches("firefox", "812", "fox"));
    assert!(text_matches("firefox", "812", "81"));
    assert!(text_matches("firefox", "812", ""));
    assert!(!text_matches("firefox", "812", "Fox"));
    assert!(!text_matches("", "", "x"));
}

#[test]
fn typing_in_the_search_box_filters() {
    let mut app = sample_app();
    press(&mut app, KeyCode::Char('s'));
    assert_eq!(app.current_screen, CurrentScreen::Search);
    type_text(&mut app, "gamQ");
    assert_eq!(app.textarea.area.lines(), ["gamQ"]);
    assert!(pids(&app).is_empty());
    press(&mut app, KeyCode::Backspace);
    assert_eq!(app.textarea.area.lines(), ["gam"]);
    assert_eq!(pids(&app), vec![33]);
    press(&mut app, KeyCode::Enter);
    assert_eq!(app.current_screen, CurrentScreen::Main);
    assert_eq!(app.textarea.area.lines(), ["gam"]);
}

#[test]
fn every_key_reaches_the_search_box() {
    let mut app = sample_app();
    press(&mut app, KeyCode::Char('s'));
    type_text(&mut app, "ab");
    press(&mut app, KeyCode::Left);
    type_text(&mut app, "x");
    assert_eq!(app.textarea.area.lines(), ["axb"]);
    press(&mut app, KeyCode::Delete);
    assert_eq!(app.textarea.area.lines(), ["ax"]);
    press(&mut app, KeyCode::Home);
    type_text(&mut app, "y");
    press(&mut app, KeyCode::End);
    type_text(&mut app, "z");
    assert_eq!(app.textarea.area.lines(), ["yaxz"]);
    press(&mut app, KeyCode::Right);
    press(&mut app, KeyCode::Up);
    press(&mut app, KeyCode::Down);
    press(&mut app, KeyCode::PageUp);
    press(&mut app, KeyCode::PageDown);
    press(&mut app, KeyCode::F(5));
    press(&mut app, KeyCode::Other);
    assert_eq!(app.textarea.area.lines(), ["yaxz"]);
    app.on_key_event(KeyPress { code: KeyCode::Char('u'), ctrl: true, ..ch('u') });
    assert_eq!(app.textarea.area.lines(), ["yax"]);
    app.on_key_event(KeyPress { alt: true, ..key(KeyCode::Backspace) });
    assert_eq!(app.textarea.area.lines(), [""]);
    press(&mut app, KeyCode::Tab);
    assert_eq!(app.textarea.area.lines(), ["    "]);
    assert_eq!(app.current_screen, CurrentScreen::Search);
}

#[test]
fn keys_that_only_move_leave_the_text() {
    let moves = [
        KeyCode::Left, KeyCode::Right, KeyCode::Up, KeyCode::Down, KeyCode::Home, KeyCode::End,
        KeyCode::PageUp, KeyCode::PageDown, KeyCode::F(1), KeyCode::Other,
    ];
    let mut app = sample_app();
    press(&mut app, KeyCode::Char('s'));
    type_text(&mut app, "one two");
    app.on_key_event(KeyPress { ctrl: true, ..ch('m') });
    type_text(&mut app, "three");
    for code in moves {
        for bits in 0..8 {
            app.on_key_event(KeyPress {
                ctrl: bits & 1 != 0,
                alt: bits & 2 != 0,
                shift: bits & 4 != 0,
                ..key(code)
            });
            assert_eq!(app.textarea.area.lines(), ["one two", "three"], "{:?}", code);
        }
    }
}

#[test]
fn backspace_takes_back_what_was_typed() {
    let mut app = sample_app();
    press(&mut app, KeyCode::Char('s'));
    type_text(&mut app, "beta");
    press(&mut app, KeyCode::Left);
    press(&mut app, KeyCode::Left);
    type_text(&mut app, "x");
    assert_eq!(app.textarea.area.lines(), ["bexta"]);
    assert_eq!(app.textarea.area.cursor(), (0, 3));
    press(&mut app, KeyCode::Backspace);
    assert_eq!(app.textarea.area.lines(), ["beta"]);
    assert_eq!(app.textarea.area.cursor(), (0, 2));
}

#[test]
fn keys_move_the_cursor_once() {
    let mut app = sample_app();
    press(&mut app, KeyCode::Char('s'));
    type_text(&mut app, "one two");
    for (code, column) in [
        (KeyCode::Left, 6), (KeyCode::Left, 5), (KeyCode::Right, 6), (KeyCode::Home, 0),
        (KeyCode::Up, 0), (KeyCode::Right, 1), (KeyCode::End, 7), (KeyCode::Down, 7),
    ] {
        press(&mut app, code);
        assert_eq!(app.textarea.area.cursor(), (0, column), "{:?}", code);
    }
    app.on_key_event(KeyPress { ctrl: true, ..key(KeyCode::Left) });
    assert_eq!(app.textarea.area.cursor(), (0, 4));
}

#[test]
fn shift_selects() {
    let mut app = sample_app();
    press(&mut app, KeyCode::Char('s'));
    type_text(&mut app, "beta");
    app.on_key_event(KeyPress { shift: true, ..key(KeyCode::Left) });
    app.on_key_event(KeyPress { shift: true, ..key(KeyCode::Left) });
    assert_eq!(app.textarea.area.selection_range(), Some(((0, 2), (0, 4))));
    type_text(&mut app, "x");
    assert_eq!(app.textarea.area.lines(), ["bex"]);
    assert_eq!(app.textarea.area.selection_range(), None);
    app.on_key_event(KeyPress { shift: true, ..key(KeyCode::PageUp) });
    assert!(app.textarea.area.is_selecting());
    press(&mut app, KeyCode::PageDown);
    assert!(!app.textarea.area.is_selecting());
}

#[test]
fn key_events_do_what_keys_do() {
    let keys = [
        ch('j'), ch('k'), ch('s'), ch('d'), ch('p'), ch('1'), ch('2'), ch('b'), ch('e'),
        key(KeyCode::Enter), key(KeyCode::Esc), key(KeyCode::Backspace), key(KeyCode::Left),
        key(KeyCode::Home), KeyPress { shift: true, ..key(KeyCode::Left) },
        KeyPress { ctrl: true, ..ch('u') }, KeyPress { ctrl: true, ..ch('x') },
        KeyPress { ctrl: true, ..ch('y') }, KeyPress { ctrl: true, ..ch('m') },
    ];
    let mut by_key = sample_app();
    let mut by_event = sample_app();
    let mut seed: u32 = 99;
    for _ in 0..3000 {
        seed = seed.wrapping_mul(1664525).wrapping_add(1013904223);
        let k = keys[(seed >> 16) as usize % keys.len()];
        let kill = by_key.on_key_event(k);
        let outcome = by_event
            .handle_crossterm_events(Some(TerminalEvent::Key(KeyMotion::Press, k)));
        assert_eq!(outcome, Outcome { handled: true, kill });
        assert_eq!(by_event.running, by_key.running);
        assert_eq!(by_event.current_screen, by_key.current_screen);
        assert_eq!(by_event.selected, by_key.selected);
        assert_eq!(by_event.kill_pid, by_key.kill_pid);
        assert_eq!(by_event.kill_by_pid_input, by_key.kill_by_pid_input);
        let (a, b) = (&by_event.textarea.area, &by_key.textarea.area);
        assert_eq!(a.lines(), b.lines());
        assert_eq!(a.cursor(), b.cursor());
        assert_eq!(a.selection_range(), b.selection_range());
    }
}

fn drawn_title(app: &App) -> String {
    let place = Rect { x: 0, y: 0, width: 17, height: 3 };
    let mut buffer = Buffer::empty(place);
    (&app.textarea.area).render(place, &mut buffer);
    (1..16).map(|x| buffer[(x, 0)].symbol().to_string()).collect()
}

#[test]
fn the_search_box_bears_its_title() {
    let mut app = sample_app();
    assert_eq!(drawn_title(&app), "Search (active)");
    press(&mut app, KeyCode::Char('s'));
    type_text(&mut app, "beta");
    press(&mut app, KeyCode::Backspace);
    press(&mut app, KeyCode::Enter);
    assert_eq!(drawn_title(&app), "Search (active)");
}

#[test]
fn only_the_first_line_is_searched_for() {
    let mut app = sample_app();
    press(&mut app, KeyCode::Char('s'));
    type_text(&mut app, "beta");
    app.on_key_event(KeyPress { ctrl: true, ..ch('m') });
    type_text(&mut app, "nothing");
    assert_eq!(app.textarea.area.lines(), ["beta", "nothing"]);
    assert_eq!(pids(&app), vec![22, 44]);
}

#[test]
fn starting_selects_the_first_row() {
    let mut app = App::new();
    app.running = false;
    let step = app.run(RunEvent::Started);
    assert_eq!(step, RunStep { restart_clock: true, action: RunAction::Draw });
    assert!(app.running);
    assert_eq!(app.selected, Some(0));
}

#[test]
fn j_and_k_move_the_selection() {
    let mut app = sample_app();
    press(&mut app, KeyCode::Char('j'));
    press(&mut app, KeyCode::Char('j'));
    assert_eq!(app.selected, Some(2));
    press(&mut app, KeyCode::Char('k'));
    assert_eq!(app.selected, Some(1));
    press(&mut app, KeyCode::Char('k'));
    press(&mut app, KeyCode::Char('k'));
    assert_eq!(app.selected, Some(0));
}

#[test]
fn moving_without_a_selection() {
    let mut app = App::new();
    press(&mut app, KeyCode::Char('j'));
    assert_eq!(app.selected, Some(0));
    app.selected = None;
    press(&mut app, KeyCode::Char('k'));
    assert_eq!(app.selected, Some(usize::MAX));
    press(&mut app, KeyCode::Char('j'));
    assert_eq!(app.selected, Some(usize::MAX));
    press(&mut app, KeyCode::Char('k'));
    assert_eq!(app.selected, Some(usize::MAX - 1));
}

#[test]
fn keys_that_quit() {
    for code in [KeyCode::Esc, KeyCode::Char('q')] {
        let mut app = sample_app();
        press(&mut app, code);
        assert!(!app.running);
    }
    for c in ['c', 'C'] {
        let mut app = sample_app();
        app.on_key_event(KeyPress { ctrl: true, ..ch(c) });
        assert!(!app.running);
        let mut app = sample_app();
        app.on_key_event(ch(c));
        app.on_key_event(KeyPress { ctrl: true, shift: true, ..ch(c) });
        app.on_key_event(KeyPress { ctrl: true, alt: true, ..ch(c) });
        app.on_key_event(KeyPress { ctrl: true, extra: true, ..ch(c) });
        assert!(app.running);
    }
    let mut app = sample_app();
    app.on_key_event(KeyPress { alt: true, ..ch('q') });
    assert!(!app.running);
}

#[test]
fn other_keys_do_nothing_in_the_main_screen() {
    let mut app = sample_app();
    press(&mut app, KeyCode::Char('x'));
    press(&mut app, KeyCode::Tab);
    press(&mut app, KeyCode::Backspace);
    assert!(app.running);
    assert_eq!(app.current_screen, CurrentScreen::Main);
    assert_eq!(app.selected, Some(0));
}

#[test]
fn the_kill_dialog_terminates() {
    let mut app = sample_app();
    press(&mut app, KeyCode::Char('j'));
    assert_eq!(press(&mut app, KeyCode::Char('d')), None);
    assert_eq!(app.current_screen, CurrentScreen::KillModal);
    assert_eq!(app.kill_pid, Some(22));
    let request = press(&mut app, KeyCode::Char('1'));
    assert_eq!(request, Some(KillRequest { pid: 22, signal: Signal::Term }));
    assert_eq!(app.current_screen, CurrentScreen::Main);
    assert_eq!(app.kill_pid, None);
}

#[test]
fn the_kill_dialog_kills() {
    let mut app = sample_app();
    press(&mut app, KeyCode::Char('d'));
    assert_eq!(press(&mut app, KeyCode::Char('3')), None);
    assert_eq!(app.current_screen, CurrentScreen::KillModal);
    let request = press(&mut app, KeyCode::Char('2'));
    assert_eq!(request, Some(KillRequest { pid: 411, signal: Signal::Kill }));
}

#[test]
fn the_kill_dialog_is_cancelled() {
    let mut app = sample_app();
    press(&mut app, KeyCode::Char('d'));
    assert_eq!(press(&mut app, KeyCode::Esc), None);
    assert_eq!(app.current_screen, CurrentScreen::Main);
    assert_eq!(app.kill_pid, None);
    assert!(app.running);
}

#[test]
fn a_process_that_is_gone_gets_no_signal() {
    let mut app = sample_app();
    press(&mut app, KeyCode::Char('d'));
    app.set_processes(list_of(vec![entry(11, "Alpha", 1.0)]));
    assert_eq!(press(&mut app, KeyCode::Char('2')), None);
    assert_eq!(app.current_screen, CurrentScreen::Main);
}

#[test]
fn no_kill_dialog_without_a_row() {
    let mut app = sample_app();
    app.selected = Some(5);
    press(&mut app, KeyCode::Char('d'));
    assert_eq!(app.current_screen, CurrentScreen::Main);
    app.selected = None;
    press(&mut app, KeyCode::Char('d'));
    assert_eq!(app.current_screen, CurrentScreen::Main);
    assert_eq!(app.kill_pid, None);
}

#[test]
fn killing_by_pid() {
    let mut app = sample_app();
    press(&mut app, KeyCode::Char('p'));
    assert_eq!(app.current_screen, CurrentScreen::KillByPidModal);
    type_text(&mut app, "4a1-2");
    assert_eq!(app.kill_by_pid_input, "412");
    press(&mut app, KeyCode::Backspace);
    type_text(&mut app, "1");
    let request = press(&mut app, KeyCode::Enter);
    assert_eq!(request, Some(KillRequest { pid: 411, signal: Signal::Kill }));
    assert_eq!(app.current_screen, CurrentScreen::Main);
    assert_eq!(app.kill_by_pid_input, "");
}

#[test]
fn killing_by_a_pid_that_is_not_there() {
    for typed in ["", "7", "4294967296", "99999999999999999999999999"] {
        let mut app = sample_app();
        press(&mut app, KeyCode::Char('p'));
        type_text(&mut app, typed);
        assert_eq!(press(&mut app, KeyCode::Enter), None);
        assert_eq!(app.current_screen, CurrentScreen::Main);
    }
    let mut app = sample_app();
    press(&mut app, KeyCode::Char('p'));
    type_text(&mut app, "00000000000022");
    let request = press(&mut app, KeyCode::Enter);
    assert_eq!(request, Some(KillRequest { pid: 22, signal: Signal::Kill }));
}

#[test]
fn killing_by_pid_is_cancelled() {
    let mut app = sample_app();
    press(&mut app, KeyCode::Char('p'));
    press(&mut app, KeyCode::Backspace);
    type_text(&mut app, "22");
    assert_eq!(press(&mut app, KeyCode::Esc), None);
    assert_eq!(app.current_screen, CurrentScreen::Main);
    assert_eq!(app.kill_by_pid_input, "");
    assert!(app.running);
}

#[test]
fn details_open_and_close() {
    let mut app = sample_app();
    press(&mut app, KeyCode::Enter);
    assert_eq!(app.current_screen, CurrentScreen::Details);
    press(&mut app, KeyCode::Char('q'));
    press(&mut app, KeyCode::Enter);
    assert_eq!(app.current_screen, CurrentScreen::Details);
    press(&mut app, KeyCode::Esc);
    assert_eq!(app.current_screen, CurrentScreen::Main);
    assert!(app.running);
}

#[test]
fn the_wheel_moves_within_the_rows() {
    let mut app = sample_app();
    for _ in 0..10 {
        assert!(app.on_mouse_event(scroll(MouseKind::ScrollDown)));
    }
    assert_eq!(app.selected, Some(4));
    assert!(app.on_mouse_event(scroll(MouseKind::ScrollUp)));
    assert_eq!(app.selected, Some(3));
    for _ in 0..10 {
        assert!(app.on_mouse_event(scroll(MouseKind::ScrollUp)));
    }
    assert_eq!(app.selected, Some(0));
    app.selected = None;
    assert!(app.on_mouse_event(scroll(MouseKind::ScrollDown)));
    assert!(app.on_mouse_event(scroll(MouseKind::ScrollUp)));
    assert!(app.on_mouse_event(scroll(MouseKind::Other)));
    assert_eq!(app.selected, None);
}

#[test]
fn scrolling_down_an_empty_table_is_reported() {
    let mut app = App::new();
    app.selected = Some(0);
    assert!(!app.on_mouse_event(scroll(MouseKind::ScrollDown)));
    assert_eq!(app.selected, Some(0));
    app.selected = None;
    assert!(app.on_mouse_event(scroll(MouseKind::ScrollDown)));
    assert_eq!(app.selected, None);
}

#[test]
fn clicks_select_rows() {
    let mut app = sample_app();
    app.process_list_area = Area { x: 0, y: 10, width: 80, height: 6 };
    let click = |app: &mut App, row: u16| {
        assert!(app.on_mouse_event(MouseInput { kind: MouseKind::LeftDown, row }));
        app.selected
    };
    assert_eq!(click(&mut app, 13), Some(1));
    assert_eq!(click(&mut app, 12), Some(0));
    assert_eq!(click(&mut app, 15), Some(3));
    assert_eq!(click(&mut app, 11), Some(3));
    assert_eq!(click(&mut app, 16), Some(3));
    assert_eq!(click(&mut app, 0), Some(3));
    app.selected = None;
    assert_eq!(click(&mut app, 11), None);
    assert_eq!(click(&mut app, 14), Some(2));
    app.process_list_area = Area { x: 0, y: 10, width: 80, height: 60 };
    assert_eq!(click(&mut app, 17), Some(2));
    assert_eq!(click(&mut app, 16), Some(4));
}

#[test]
fn clicks_beyond_the_coordinates_are_reported() {
    let mut app = sample_app();
    let click = MouseInput { kind: MouseKind::LeftDown, row: u16::MAX };
    app.process_list_area = Area { x: 0, y: u16::MAX - 1, width: 80, height: 0 };
    assert!(!app.on_mouse_event(click));
    app.process_list_area = Area { x: 0, y: u16::MAX - 4, width: 80, height: 5 };
    assert!(!app.on_mouse_event(click));
    app.process_list_area = Area { x: 0, y: u16::MAX - 4, width: 80, height: 4 };
    assert!(app.on_mouse_event(click));
    assert_eq!(app.selected, Some(0));
}

#[test]
fn the_mouse_acts_in_the_main_screen_only() {
    let mut app = sample_app();
    press(&mut app, KeyCode::Enter);
    assert!(app.on_mouse_event(scroll(MouseKind::ScrollDown)));
    assert_eq!(app.selected, Some(0));
}

#[test]
fn the_mouse_with_a_given_number_of_rows() {
    let mut app = sample_app();
    app.mouse_on_rows(scroll(MouseKind::ScrollDown), 2);
    app.mouse_on_rows(scroll(MouseKind::ScrollDown), 2);
    assert_eq!(app.selected, Some(1));
}

#[test]
fn only_keys_that_go_down_count() {
    let mut app = sample_app();
    let idle = Outcome { handled: true, kill: None };
    for motion in [KeyMotion::Repeat, KeyMotion::Release] {
        let outcome = app.handle_crossterm_events(Some(TerminalEvent::Key(motion, ch('q'))));
        assert_eq!(outcome, idle);
        assert!(app.running);
    }
    assert_eq!(app.handle_crossterm_events(None), idle);
    assert_eq!(app.handle_crossterm_events(Some(TerminalEvent::Other)), idle);
    app.handle_crossterm_events(Some(TerminalEvent::Key(KeyMotion::Press, ch('d'))));
    let outcome = app.handle_crossterm_events(Some(TerminalEvent::Key(KeyMotion::Press, ch('1'))));
    assert_eq!(
        outcome,
        Outcome { handled: true, kill: Some(KillRequest { pid: 411, signal: Signal::Term }) }
    );
    app.handle_crossterm_events(Some(TerminalEvent::Mouse(scroll(MouseKind::ScrollDown))));
    assert_eq!(app.selected, Some(1));
    app.set_processes(ProcessList::default());
    let outcome =
        app.handle_crossterm_events(Some(TerminalEvent::Mouse(scroll(MouseKind::ScrollDown))));
    assert_eq!(outcome, Outcome { handled: false, kill: None });
}

#[test]
fn a_round_without_an_update() {
    let mut app = sample_app();
    assert_eq!(
        app.run(RunEvent::Drawn),
        RunStep { restart_clock: false, action: RunAction::HandleEvents }
    );
    assert_eq!(
        app.run(RunEvent::Handled { elapsed_secs: 0 }),
        RunStep { restart_clock: false, action: RunAction::Draw }
    );
    assert_eq!(app.ticks, 0);
}

#[test]
fn every_third_update_reads_processes() {
    let mut app = sample_app();
    let mut reads = vec![];
    for n in 1..=7u64 {
        assert_eq!(
            app.run(RunEvent::Handled { elapsed_secs: 1 }),
            RunStep { restart_clock: false, action: RunAction::MeasureCpu }
        );
        let step = app.run(RunEvent::Measured { usage_bits: 1.5f32.to_bits() });
        assert_eq!(app.cpu.len() as u64, n);
        assert_eq!(app.cpu[n as usize - 1], CpuSample { tick: n, usage_bits: 1.5f32.to_bits() });
        if step.action == RunAction::RefreshProcesses {
            assert!(!step.restart_clock);
            reads.push(n);
            let step = app.run(RunEvent::Refreshed);
            assert_eq!(step, RunStep { restart_clock: true, action: RunAction::Draw });
        } else {
            assert_eq!(step, RunStep { restart_clock: true, action: RunAction::Draw });
        }
    }
    assert_eq!(reads, vec![3, 6]);
}

#[test]
fn the_loop_ends_when_the_round_does() {
    let mut app = sample_app();
    press(&mut app, KeyCode::Char('q'));
    assert_eq!(app.run(RunEvent::Handled { elapsed_secs: 0 }).action, RunAction::Stop);
    assert_eq!(app.run(RunEvent::Handled { elapsed_secs: 5 }).action, RunAction::MeasureCpu);
    assert_eq!(app.run(RunEvent::Measured { usage_bits: 0 }).action, RunAction::Stop);
    assert_eq!(app.run(RunEvent::Refreshed).action, RunAction::Stop);
}

#[test]
fn helpers_of_the_kill_dialogs() {
    let mut app = sample_app();
    assert_eq!(app.try_kill_by_pid(), None);
    app.kill_by_pid_input = "+33".to_string();
    assert_eq!(app.try_kill_by_pid(), Some(KillRequest { pid: 33, signal: Signal::Kill }));
    assert_eq!(app.send_signal(Signal::Kill), None);
    app.prepare_kill_modal();
    assert_eq!(app.kill_pid, Some(411));
    app.quit();
    assert!(!app.running);
}

#[test]
fn invariants_hold_after_any_events() {
    let keys = [
        KeyCode::Char('j'), KeyCode::Char('k'), KeyCode::Char('s'), KeyCode::Char('d'),
        KeyCode::Char('p'), KeyCode::Char('1'), KeyCode::Char('2'), KeyCode::Char('x'),
        KeyCode::Enter, KeyCode::Esc, KeyCode::Backspace, KeyCode::Left, KeyCode::Tab,
    ];
    let mut app = sample_app();
    let mut seed: u32 = 7;
    for _ in 0..5000 {
        seed = seed.wrapping_mul(1664525).wrapping_add(1013904223);
        let n = (seed >> 16) as usize;
        let before = app.current_screen;
        match n % 20 {
            18 => {
                app.on_mouse_event(scroll(MouseKind::ScrollDown));
            }
            19 => {
                app.run(RunEvent::Measured { usage_bits: seed });
            }
            k => {
                let request = press(&mut app, keys[k % keys.len()]);
                if let Some(request) = request {
                    assert!(app.processes.entries().iter().any(|p| p.pid == request.pid));
                    assert!(
                        before == CurrentScreen::KillModal
                            || before == CurrentScreen::KillByPidModal
                    );
                }
            }
        }
        assert_eq!(app.kill_pid.is_some(), app.current_screen == CurrentScreen::KillModal);
        assert!(app.kill_by_pid_input.chars().all(|c| c.is_ascii_digit()));
        if app.current_screen != CurrentScreen::KillByPidModal {
            assert_eq!(app.kill_by_pid_input, "");
        }
        let latest = app.cpu.last().map(|s| s.tick).unwrap_or(0);
        assert_eq!(latest, app.ticks);
        let (row, col) = app.textarea.area.cursor();
        assert!(col <= app.textarea.area.lines()[row].chars().count());
    }
}

#[test]
fn escape_takes_back_what_was_opened() {
    for code in [
        KeyCode::Char('d'), KeyCode::Char('p'), KeyCode::Char('s'), KeyCode::Enter,
    ] {
        let mut app = sample_app();
        press(&mut app, code);
        assert_ne!(app.current_screen, CurrentScreen::Main);
        press(&mut app, KeyCode::Esc);
        assert_eq!(app.current_screen, CurrentScreen::Main);
        assert_eq!(app.selected, Some(0));
        assert_eq!(app.kill_pid, None);
        assert_eq!(app.kill_by_pid_input, "");
        assert_eq!(app.textarea.area.lines(), [""]);
        assert!(app.running);
    }
}
