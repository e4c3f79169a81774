use rustex::{handle_event, poll_timeout, tick_due, App, InputEvent, Key, KeyEvent, WindowState};
use rustex::{ActionMenuWindow, FileManagerWindow, FileWindow, NavigationWindow, Window};
use rustex::{ACTION_COUNT, CONTROL, OVERDUE_WAIT_MS};

fn press(code: Key, modifiers: u8) -> InputEvent<KeyEvent> {
    InputEvent::InputEvent(KeyEvent { code, modifiers, pressed: true })
}

#[test]
fn menu_previous_from_nothing_wraps_to_last() {
    let mut menu = NavigationWindow::new();
    assert_eq!(ACTION_COUNT, 6);
    menu.previous();
    assert_eq!(menu.selected, Some(5));
    menu.next();
    assert_eq!(menu.selected, Some(0));
}

#[test]
fn menu_next_from_nothing_is_first() {
    let mut menu = NavigationWindow::new();
    menu.next();
    assert_eq!(menu.selected, Some(0));
    menu.previous();
    assert_eq!(menu.selected, Some(5));
}

#[test]
fn menu_cycles_through_all_actions() {
    let mut menu = NavigationWindow::new();
    menu.next();
    for _ in 0..ACTION_COUNT {
        menu.next();
    }
    assert_eq!(menu.selected, Some(0));
}

#[test]
fn menu_run_reports_highlighted_action() {
    let mut menu = NavigationWindow::new();
    assert_eq!(menu.run(), None);
    menu.next();
    menu.next();
    menu.next();
    assert_eq!(menu.run(), Some(ActionMenuWindow::SaveFile));
    menu.unselect();
    assert_eq!(menu.selected, None);
    assert_eq!(menu.run(), None);
}

#[test]
fn actions_by_index() {
    assert_eq!(ActionMenuWindow::from_index(0), Some(ActionMenuWindow::NewFile));
    assert_eq!(ActionMenuWindow::from_index(5), Some(ActionMenuWindow::CloseFile));
    assert_eq!(ActionMenuWindow::from_index(6), None);
    assert_eq!(ActionMenuWindow::SaveFileAs.index(), 3);
}

#[test]
fn menu_keys() {
    let mut menu = NavigationWindow::new();
    assert_eq!(menu.handle_keyboard_input(Key::Down, 0), None);
    assert_eq!(menu.handle_keyboard_input(Key::Down, 0), None);
    assert_eq!(menu.handle_keyboard_input(Key::Enter, 0), Some(ActionMenuWindow::OpenFile));
    assert_eq!(menu.handle_keyboard_input(Key::Char('x'), 0), None);
    assert_eq!(menu.selected, Some(1));
    menu.handle_keyboard_input(Key::Delete, 0);
    assert_eq!(menu.selected, None);
    menu.handle_keyboard_input(Key::Up, 0);
    assert_eq!(menu.selected, Some(5));
}

fn three_files() -> FileManagerWindow {
    let mut files = FileManagerWindow::new();
    files.add_file_menu(FileWindow::new("third"));
    files
}

#[test]
fn tabs_cycle_after_as_many_steps_as_tabs() {
    let mut files = three_files();
    assert_eq!(files.file_list.len(), 3);
    for start in 0..3 {
        files.current_file_index = start;
        for _ in 0..3 {
            files.next();
        }
        assert_eq!(files.current_file_index, start);
        files.next();
        files.previous();
        assert_eq!(files.current_file_index, start);
    }
}

#[test]
fn tabs_wrap_at_both_ends() {
    let mut files = three_files();
    files.previous();
    assert_eq!(files.current_file_index, 2);
    files.next();
    assert_eq!(files.current_file_index, 0);
}

#[test]
fn adding_a_file_keeps_current_tab() {
    let mut files = FileManagerWindow::new();
    files.next();
    files.add_file_menu(FileWindow::new("new"));
    assert_eq!(files.current_file_index, 1);
    assert_eq!(files.file_list[2].name, "new");
}

#[test]
fn file_manager_keys() {
    let mut files = three_files();
    files.handle_keyboard_input(Key::Char('n'), CONTROL);
    assert_eq!(files.current_file_index, 1);
    files.handle_keyboard_input(Key::Char('a'), 0);
    assert_eq!(files.file_list[1].lines, vec!["a".to_string()]);
    assert_eq!(files.file_list[0].lines, vec![String::new()]);
    files.handle_keyboard_input(Key::Char('p'), CONTROL);
    files.handle_keyboard_input(Key::Char('p'), CONTROL);
    assert_eq!(files.current_file_index, 2);
    files.current_file().insert_char('z');
    assert_eq!(files.file_list[2].lines, vec!["z".to_string()]);
}

#[test]
fn toggle_key_switches_to_menu_and_routes_up_there() {
    let mut app = App::new("Rustex");
    assert_eq!(app.context.current_window, WindowState::Editor);
    app.handle_keyboard_event(Key::Char('x'), 0);
    app.handle_keyboard_event(Key::Char('b'), CONTROL);
    assert_eq!(app.context.current_window, WindowState::Navigation);
    app.handle_keyboard_event(Key::Up, 0);
    assert_eq!(app.context.navigation_window.selected, Some(5));
    let file = &app.context.file_manager_window.file_list[0];
    assert_eq!(file.lines, vec!["x".to_string()]);
    assert_eq!((file.cursor_y, file.cursor_x), (0, 1));
    app.handle_keyboard_event(Key::Char('b'), CONTROL);
    assert_eq!(app.context.current_window, WindowState::Editor);
}

#[test]
fn editor_mode_sends_keys_to_current_file() {
    let mut app = App::new("Rustex");
    app.handle_keyboard_event(Key::Char('h'), 0);
    app.handle_keyboard_event(Key::Char('i'), 0);
    app.handle_keyboard_event(Key::Enter, 0);
    app.handle_keyboard_event(Key::Down, 0);
    let file = &app.context.file_manager_window.file_list[0];
    assert_eq!(file.lines, vec!["hi".to_string(), String::new()]);
    assert_eq!(app.context.navigation_window.selected, None);
}

#[test]
fn menu_mode_enter_requests_action() {
    let mut app = App::new("Rustex");
    app.handle_keyboard_event(Key::Char('b'), CONTROL);
    app.handle_keyboard_event(Key::Down, 0);
    assert_eq!(app.handle_keyboard_event(Key::Enter, 0), Some(ActionMenuWindow::NewFile));
    app.handle_keyboard_event(Key::Char('q'), 0);
    assert_eq!(app.context.file_manager_window.file_list[0].lines, vec![String::new()]);
}

#[test]
fn file_menu_mode_ignores_keys() {
    let mut app = App::new("Rustex");
    app.context.current_window = WindowState::FileMenu;
    assert_eq!(app.handle_keyboard_event(Key::Char('a'), 0), None);
    assert_eq!(app.context.file_manager_window.file_list[0].lines, vec![String::new()]);
    app.handle_keyboard_event(Key::Char('b'), CONTROL);
    assert_eq!(app.context.current_window, WindowState::Navigation);
}

#[test]
fn escape_asks_to_quit() {
    let mut app = App::new("Rustex");
    assert!(!app.should_quit);
    handle_event(&mut app, press(Key::Esc, 0));
    assert!(app.should_quit);
}

#[test]
fn only_key_presses_are_routed() {
    let mut app = App::new("Rustex");
    let release = InputEvent::InputEvent(KeyEvent { code: Key::Char('a'), modifiers: 0, pressed: false });
    handle_event(&mut app, release);
    handle_event(&mut app, InputEvent::Tick);
    assert_eq!(app.context.file_manager_window.file_list[0].lines, vec![String::new()]);
    handle_event(&mut app, press(Key::Char('a'), 0));
    assert_eq!(app.context.file_manager_window.file_list[0].lines, vec!["a".to_string()]);
    assert!(!app.should_quit);
}

#[test]
fn poll_waits_for_rest_of_tick_period() {
    assert_eq!(poll_timeout(250, 100), 150);
    assert_eq!(poll_timeout(250, 250), 0);
    assert_eq!(poll_timeout(250, 251), OVERDUE_WAIT_MS);
    assert!(!tick_due(250, 249));
    assert!(tick_due(250, 250));
    assert!(tick_due(250, 400));
}

#[test]
fn new_app_starts_with_blank_buffers() {
    let app = App::new("Rustex");
    assert!(!app.should_quit);
    assert_eq!(app.context.current_window, WindowState::Editor);
    assert_eq!(app.context.navigation_window.selected, None);
    let files = &app.context.file_manager_window;
    assert_eq!(files.current_file_index, 0);
    assert_eq!(files.file_list.len(), 2);
    for file in &files.file_list {
        assert_eq!(file.lines, vec![String::new()]);
        assert_eq!((file.cursor_y, file.cursor_x), (0, 0));
        assert!(file.path.is_none());
    }
}
