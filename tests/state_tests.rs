use todoist_tui::state::{AppState, ChangeType, PendingChange, SyncStatus, SYNC_DEBOUNCE_MS};
use todoist_tui::sync::FetchOutcome;
use std::time::{Duration, Instant};
use todoist_tui::task::{Due, Task};

fn task(id: &str, content: &str, done: bool) -> Task {
    Task {
        id: id.to_string(),
        content: content.to_string(),
        description: String::new(),
        is_completed: done,
        due: None,
        priority: 1,
    }
}

fn dated(id: &str, date: &str) -> Task {
    Task {
        due: Some(Due {
            date: date.to_string(),
            is_recurring: false,
            datetime: None,
            string: date.to_string(),
            timezone: None,
        }),
        ..task(id, id, false)
    }
}

fn change(id: &str, at: u64) -> PendingChange {
    PendingChange { task_id: id.to_string(), change_type: ChangeType::Complete, timestamp: at }
}

#[test]
fn new_state_is_empty_and_offline() {
    let s = AppState::new();
    assert!(s.tasks.is_empty());
    assert!(s.completed_tasks.is_empty());
    assert_eq!(s.selected_index, 0);
    assert!(s.pending_changes.is_empty());
    assert_eq!(s.search_query, "");
    assert!(!s.is_searching);
    assert_eq!(s.sync_status, SyncStatus::Offline);
}

#[test]
fn load_tasks_replaces_and_resets_selection() {
    let mut s = AppState::new();
    s.load_tasks(vec![task("1", "a", false), task("2", "b", false)]);
    s.selected_index = 1;
    s.pending_changes.push(change("1", 5));
    s.load_tasks(vec![task("3", "c", false)]);
    assert_eq!(s.tasks, vec![task("3", "c", false)]);
    assert_eq!(s.selected_index, 0);
    assert_eq!(s.pending_changes, vec![change("1", 5)]);
}

#[test]
fn load_completed_tasks_forces_completion() {
    let mut s = AppState::new();
    s.load_completed_tasks(vec![task("1", "a", false), task("2", "b", true)]);
    assert_eq!(s.completed_tasks.len(), 2);
    assert!(s.completed_tasks.iter().all(|t| t.is_completed));
    assert_eq!(s.completed_tasks[0].id, "1");
    assert_eq!(s.completed_tasks[1].id, "2");
}

#[test]
fn move_up_stops_at_top() {
    let mut s = AppState::new();
    s.move_up();
    assert_eq!(s.selected_index, 0);
    s.selected_index = 2;
    s.move_up();
    assert_eq!(s.selected_index, 1);
}

#[test]
fn move_down_stops_at_last_of_three() {
    let mut s = AppState::new();
    s.load_completed_tasks(vec![task("1", "a", true), task("2", "b", true), task("3", "c", true)]);
    for _ in 0..6 {
        s.move_down();
    }
    assert_eq!(s.selected_index, 2);
}

#[test]
fn move_down_on_empty_view_stays() {
    let mut s = AppState::new();
    s.move_down();
    assert_eq!(s.selected_index, 0);
    s.go_to_bottom();
    assert_eq!(s.selected_index, 0);
}

#[test]
fn move_down_within_counts() {
    let mut s = AppState::new();
    s.move_down_within(2);
    assert_eq!(s.selected_index, 1);
    s.move_down_within(2);
    assert_eq!(s.selected_index, 1);
    s.move_down_within(0);
    assert_eq!(s.selected_index, 1);
}

#[test]
fn go_to_top_and_bottom() {
    let mut s = AppState::new();
    s.load_completed_tasks(vec![task("1", "a", true), task("2", "b", true), task("3", "c", true)]);
    s.go_to_bottom();
    assert_eq!(s.selected_index, 2);
    s.go_to_top();
    assert_eq!(s.selected_index, 0);
    s.go_to_bottom_within(5);
    assert_eq!(s.selected_index, 4);
    s.go_to_bottom_within(0);
    assert_eq!(s.selected_index, 0);
}

#[test]
fn toggle_selected_task_records_one_change() {
    let mut s = AppState::new();
    s.load_tasks(vec![task("1", "a", false), task("2", "b", true)]);
    s.selected_index = 1;
    s.toggle_selected_task_at(1_000);
    assert!(!s.tasks[1].is_completed);
    assert_eq!(s.pending_changes.len(), 1);
    assert_eq!(s.pending_changes[0].task_id, "2");
    assert_eq!(s.pending_changes[0].change_type, ChangeType::Uncomplete);
    assert_eq!(s.pending_changes[0].timestamp, 1_000);
    s.selected_index = 0;
    s.toggle_selected_task();
    assert!(s.tasks[0].is_completed);
    assert_eq!(s.pending_changes.len(), 2);
    assert_eq!(s.pending_changes[1].task_id, "1");
    assert_eq!(s.pending_changes[1].change_type, ChangeType::Complete);
}

#[test]
fn toggle_selected_task_past_end_does_nothing() {
    let mut s = AppState::new();
    s.load_tasks(vec![task("1", "a", false)]);
    s.selected_index = 3;
    s.toggle_selected_task_at(7);
    assert!(!s.tasks[0].is_completed);
    assert!(s.pending_changes.is_empty());
}

#[test]
fn toggle_task_by_id_prefers_active_then_completed() {
    let mut s = AppState::new();
    s.load_tasks(vec![task("1", "a", false), task("2", "b", false)]);
    s.load_completed_tasks(vec![task("2", "b", true), task("3", "c", true)]);
    s.toggle_task_by_id("2");
    assert!(s.tasks[1].is_completed);
    assert!(s.completed_tasks[0].is_completed);
    s.toggle_task_by_id("3");
    assert!(!s.completed_tasks[1].is_completed);
    assert!(s.pending_changes.is_empty());
}

#[test]
fn toggle_task_by_id_unknown_is_silent() {
    let mut s = AppState::new();
    s.load_tasks(vec![task("1", "a", false)]);
    s.toggle_task_by_id("9");
    assert_eq!(s.tasks, vec![task("1", "a", false)]);
}

#[test]
fn toggle_task_by_id_flips_first_of_duplicates() {
    let mut s = AppState::new();
    s.load_tasks(vec![task("1", "a", false), task("1", "b", false)]);
    s.toggle_task_by_id("1");
    assert!(s.tasks[0].is_completed);
    assert!(!s.tasks[1].is_completed);
}

#[test]
fn ready_to_sync_boundary_is_inclusive() {
    let mut s = AppState::new();
    s.pending_changes = vec![change("1", 1_000), change("2", 1_001), change("3", 40_000)];
    let at = 1_000 + SYNC_DEBOUNCE_MS;
    let ready: Vec<String> = s.ready_to_sync_at(at).iter().map(|c| c.task_id.clone()).collect();
    assert_eq!(ready, vec!["1".to_string()]);
    let ready: Vec<String> =
        s.ready_to_sync_at(at - 1).iter().map(|c| c.task_id.clone()).collect();
    assert!(ready.is_empty());
    let ready: Vec<String> =
        s.ready_to_sync_at(70_000).iter().map(|c| c.task_id.clone()).collect();
    assert_eq!(ready, vec!["1".to_string(), "2".to_string(), "3".to_string()]);
}

#[test]
fn ready_to_sync_clock_behind_change_waits() {
    let mut s = AppState::new();
    s.pending_changes = vec![change("1", 50_000)];
    assert!(s.ready_to_sync_at(10_000).is_empty());
}

#[test]
fn fresh_change_is_not_ready_now() {
    let mut s = AppState::new();
    s.clock_origin = Instant::now().checked_sub(Duration::from_secs(60)).unwrap();
    s.load_tasks(vec![task("1", "a", false)]);
    s.toggle_selected_task();
    assert!(s.pending_changes[0].timestamp >= 60_000);
    assert!(s.get_ready_to_sync().is_empty());
    s.pending_changes[0].timestamp = 0;
    assert_eq!(s.get_ready_to_sync().len(), 1);
}

#[test]
fn load_completed_tasks_resets_selection() {
    let mut s = AppState::new();
    s.load_completed_tasks(vec![task("1", "a", true), task("2", "b", true)]);
    s.selected_index = 1;
    s.load_completed_tasks(vec![]);
    assert_eq!(s.selected_index, 0);
    assert_eq!(s.unified_today_count(), 0);
}

#[test]
fn refresh_with_completed_list_resets_selection() {
    let mut s = AppState::new();
    s.load_completed_tasks(vec![task("1", "a", true), task("2", "b", true)]);
    s.selected_index = 1;
    s.apply_refresh(FetchOutcome::TimedOut, FetchOutcome::Fetched(vec![]));
    assert_eq!(s.selected_index, 0);
    s.selected_index = 3;
    s.apply_refresh(FetchOutcome::TimedOut, FetchOutcome::Failed("x".to_string()));
    assert_eq!(s.selected_index, 3);
}

#[test]
fn mark_synced_removes_all_and_only_named() {
    let mut s = AppState::new();
    let mut uncomplete = change("1", 3);
    uncomplete.change_type = ChangeType::Uncomplete;
    s.pending_changes = vec![change("1", 1), change("2", 2), uncomplete, change("3", 4)];
    let ids = vec!["1".to_string(), "3".to_string()];
    s.mark_synced(&ids);
    assert_eq!(s.pending_changes, vec![change("2", 2)]);
    s.mark_synced(&ids);
    assert_eq!(s.pending_changes, vec![change("2", 2)]);
    s.mark_synced(&[]);
    assert_eq!(s.pending_changes, vec![change("2", 2)]);
}

#[test]
fn search_mode_start_update_end() {
    let mut s = AppState::new();
    s.update_search("abc".to_string());
    s.start_search();
    assert!(s.is_searching);
    assert_eq!(s.search_query, "");
    s.update_search("milk".to_string());
    assert_eq!(s.search_query, "milk");
    s.end_search();
    assert!(!s.is_searching);
    assert_eq!(s.search_query, "");
}

#[test]
fn filtered_tasks_ignore_case() {
    let mut s = AppState::new();
    s.load_tasks(vec![task("1", "Buy MILK", false), task("2", "Call Bob", false), task("3", "milkshake", false)]);
    let ids = |s: &AppState| s.get_filtered_tasks().iter().map(|t| t.id.clone()).collect::<Vec<_>>();
    assert_eq!(ids(&s), vec!["1", "2", "3"]);
    s.update_search("Milk".to_string());
    assert_eq!(ids(&s), vec!["1", "3"]);
    s.update_search("zzz".to_string());
    assert!(ids(&s).is_empty());
}

#[test]
fn refresh_keeps_pending_changes() {
    let mut s = AppState::new();
    s.load_tasks(vec![task("1", "a", false), task("2", "b", false), task("3", "c", false)]);
    s.begin_refresh();
    assert_eq!(s.sync_status, SyncStatus::Syncing);
    for i in 0..3 {
        s.selected_index = i;
        s.toggle_selected_task_at(100 + i as u64);
    }
    let queued = s.pending_changes.clone();
    assert_eq!(queued.len(), 3);
    s.apply_refresh(
        FetchOutcome::Fetched(vec![task("4", "d", false)]),
        FetchOutcome::Fetched(vec![task("5", "e", false)]),
    );
    assert_eq!(s.pending_changes, queued);
    assert_eq!(s.tasks, vec![task("4", "d", false)]);
    assert_eq!(s.completed_tasks, vec![task("5", "e", true)]);
    assert_eq!(s.sync_status, SyncStatus::Online);
    assert_eq!(s.selected_index, 0);
}

#[test]
fn refresh_failure_sets_error_and_keeps_tasks() {
    let mut s = AppState::new();
    s.load_tasks(vec![task("1", "a", false)]);
    s.load_completed_tasks(vec![task("2", "b", true)]);
    s.apply_refresh(FetchOutcome::Failed("boom".to_string()), FetchOutcome::Failed("x".to_string()));
    assert_eq!(s.sync_status, SyncStatus::Error("boom".to_string()));
    assert_eq!(s.tasks, vec![task("1", "a", false)]);
    assert_eq!(s.completed_tasks, vec![task("2", "b", true)]);
}

#[test]
fn refresh_timeout_is_distinguished() {
    let mut s = AppState::new();
    s.apply_refresh(FetchOutcome::TimedOut, FetchOutcome::TimedOut);
    assert_eq!(s.sync_status, SyncStatus::Error("Timeout".to_string()));
}

#[test]
fn completed_failure_does_not_override_online() {
    let mut s = AppState::new();
    s.apply_refresh(FetchOutcome::Fetched(vec![dated("1", "2024-01-01")]), FetchOutcome::TimedOut);
    assert_eq!(s.sync_status, SyncStatus::Online);
    assert_eq!(s.tasks.len(), 1);
    assert!(s.completed_tasks.is_empty());
}
