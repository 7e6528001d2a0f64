use todoist_tui::input::{command_for, Command, Key, LoopAction};
use todoist_tui::state::{AppState, SyncStatus};
use todoist_tui::task::Task;

fn task(id: &str, done: bool) -> Task {
    Task {
        id: id.to_string(),
        content: id.to_string(),
        description: String::new(),
        is_completed: done,
        due: None,
        priority: 1,
    }
}

#[test]
fn normal_mode_commands() {
    assert_eq!(command_for(false, Key::Char('q')), Command::Quit);
    assert_eq!(command_for(false, Key::Char('j')), Command::MoveDown);
    assert_eq!(command_for(false, Key::Down), Command::MoveDown);
    assert_eq!(command_for(false, Key::Char('k')), Command::MoveUp);
    assert_eq!(command_for(false, Key::Up), Command::MoveUp);
    assert_eq!(command_for(false, Key::Char('G')), Command::Bottom);
    assert_eq!(command_for(false, Key::Char('g')), Command::Top);
    assert_eq!(command_for(false, Key::Char(' ')), Command::Toggle);
    assert_eq!(command_for(false, Key::Char('r')), Command::Refresh);
    assert_eq!(command_for(false, Key::Char('/')), Command::StartSearch);
    assert_eq!(command_for(false, Key::Esc), Command::Ignore);
    assert_eq!(command_for(false, Key::Char('x')), Command::Ignore);
    assert_eq!(command_for(false, Key::Other), Command::Ignore);
}

#[test]
fn search_mode_commands() {
    assert_eq!(command_for(true, Key::Esc), Command::EndSearch);
    assert_eq!(command_for(true, Key::Char('q')), Command::Quit);
    assert_eq!(command_for(true, Key::Char('j')), Command::Ignore);
    assert_eq!(command_for(true, Key::Down), Command::Ignore);
    assert_eq!(command_for(true, Key::Char(' ')), Command::Ignore);
    assert_eq!(command_for(true, Key::Char('r')), Command::Ignore);
}

#[test]
fn keys_drive_state() {
    let mut s = AppState::new();
    s.load_completed_tasks(vec![task("c1", true), task("c2", true), task("c3", true)]);
    assert_eq!(s.handle_key(Key::Char('j')), LoopAction::Continue);
    assert_eq!(s.selected_index, 1);
    assert_eq!(s.handle_key(Key::Char('G')), LoopAction::Continue);
    assert_eq!(s.selected_index, 2);
    assert_eq!(s.handle_key(Key::Down), LoopAction::Continue);
    assert_eq!(s.selected_index, 2);
    assert_eq!(s.handle_key(Key::Up), LoopAction::Continue);
    assert_eq!(s.selected_index, 1);
    assert_eq!(s.handle_key(Key::Char('g')), LoopAction::Continue);
    assert_eq!(s.selected_index, 0);
    assert_eq!(s.handle_key(Key::Char('r')), LoopAction::StartRefresh);
    assert_eq!(s.sync_status, SyncStatus::Syncing);
    assert_eq!(s.handle_key(Key::Char('q')), LoopAction::Quit);
}

#[test]
fn space_toggles_task_selected_in_view() {
    let mut s = AppState::new();
    s.load_tasks(vec![task("a", false)]);
    s.load_completed_tasks(vec![task("c1", true), task("c2", true)]);
    s.selected_index = 1;
    assert_eq!(s.handle_key(Key::Char(' ')), LoopAction::Continue);
    assert!(!s.completed_tasks[1].is_completed);
    assert!(s.completed_tasks[0].is_completed);
    assert!(!s.tasks[0].is_completed);
    s.selected_index = 7;
    s.toggle_selected_in_view();
    assert!(s.completed_tasks[0].is_completed);
}

#[test]
fn search_mode_via_keys() {
    let mut s = AppState::new();
    s.load_completed_tasks(vec![task("c1", true), task("c2", true)]);
    s.update_search("old".to_string());
    assert_eq!(s.handle_key(Key::Char('/')), LoopAction::Continue);
    assert!(s.is_searching);
    assert_eq!(s.search_query, "");
    assert_eq!(s.handle_key(Key::Char('j')), LoopAction::Continue);
    assert_eq!(s.selected_index, 0);
    s.update_search("abc".to_string());
    assert_eq!(s.handle_key(Key::Esc), LoopAction::Continue);
    assert!(!s.is_searching);
    assert_eq!(s.search_query, "");
}
