use todoist_tui::display::{parse_markdown, section_selection, spinner_frame, spinner_frame_at, task_line};
use todoist_tui::state::{AppState, SyncStatus};
use todoist_tui::task::Task;
use todoist_tui::text::matches_folded;

fn task(content: &str, description: &str, done: bool) -> Task {
    Task {
        id: "1".to_string(),
        content: content.to_string(),
        description: description.to_string(),
        is_completed: done,
        due: None,
        priority: 1,
    }
}

#[test]
fn markdown_markers_removed() {
    assert_eq!(parse_markdown("**bold** and *it* and _under_"), "bold and it and under");
    assert_eq!(parse_markdown("plain"), "plain");
    assert_eq!(parse_markdown(""), "");
}

#[test]
fn markdown_link_rewritten() {
    assert_eq!(parse_markdown("[label](https://x.y)"), "label) (https://x.y)");
    assert_eq!(parse_markdown("see [a](b)"), "see [a) (b)");
}

#[test]
fn spinner_frames_cycle() {
    assert_eq!(spinner_frame_at(0), "⠋");
    assert_eq!(spinner_frame_at(199), "⠙");
    assert_eq!(spinner_frame_at(250), "⠹");
    assert_eq!(spinner_frame_at(399), "⠸");
    assert_eq!(spinner_frame_at(400), "⠋");
    assert!(["⠋", "⠙", "⠹", "⠸"].contains(&spinner_frame()));
}

#[test]
fn task_line_shapes() {
    assert_eq!(task_line(&task("Buy *milk*", "", false)), "[ ] Buy milk");
    assert_eq!(task_line(&task("Done", "with _notes_", true)), "[✓] Done - with notes");
    let long = "x".repeat(120);
    let expected = format!("[ ] Long - {}...", "x".repeat(100));
    assert_eq!(task_line(&task("Long", &long, false)), expected);
    let exact = "y".repeat(100);
    assert_eq!(task_line(&task("Edge", &exact, false)), format!("[ ] Edge - {}", exact));
}

#[test]
fn section_selection_ranges() {
    assert_eq!(section_selection(0, 0, 3), Some(0));
    assert_eq!(section_selection(2, 0, 3), Some(2));
    assert_eq!(section_selection(3, 0, 3), None);
    assert_eq!(section_selection(4, 3, 2), Some(1));
    assert_eq!(section_selection(1, 3, 2), None);
    assert_eq!(section_selection(usize::MAX, 1, usize::MAX), Some(usize::MAX - 1));
}

#[test]
fn sync_labels() {
    let mut s = AppState::new();
    assert_eq!(s.sync_label("*"), "Offline");
    s.sync_status = SyncStatus::Online;
    assert_eq!(s.sync_label("*"), "Online");
    s.sync_status = SyncStatus::Syncing;
    assert_eq!(s.sync_label("⠙"), "⠙ Syncing...");
    s.sync_status = SyncStatus::Error("Timeout".to_string());
    assert_eq!(s.sync_label("*"), "ERR: Timeout");
}

#[test]
fn search_labels() {
    let mut s = AppState::new();
    assert_eq!(s.search_label(), "");
    s.start_search();
    s.update_search("milk".to_string());
    assert_eq!(s.search_label(), " | Search: milk");
}

#[test]
fn folded_match() {
    assert!(matches_folded("mil", "buy milk"));
    assert!(matches_folded("", "anything"));
    assert!(!matches_folded("Milk", "buy milk"));
    assert!(!matches_folded("milks", "milk"));
}

#[test]
fn description_cut_counts_bytes() {
    let accents = "é".repeat(60);
    let expected = format!("[ ] E - {}...", "é".repeat(50));
    assert_eq!(task_line(&task("E", &accents, false)), expected);
    let mixed = format!("{}{}", "a".repeat(99), "é".repeat(5));
    let expected = format!("[ ] M - {}...", "a".repeat(99));
    assert_eq!(task_line(&task("M", &mixed, false)), expected);
    let fifty = "é".repeat(50);
    assert_eq!(task_line(&task("F", &fifty, false)), format!("[ ] F - {}", fifty));
}

#[test]
fn status_line_text() {
    let mut s = AppState::new();
    s.load_tasks(vec![task("a", "", false); 12]);
    s.sync_status = SyncStatus::Online;
    assert_eq!(
        s.status_line("*"),
        "Status: Online | Tasks: 12 | q: quit, r: refresh, j/k: move, space: (un)check"
    );
    s.start_search();
    s.update_search("mi".to_string());
    s.sync_status = SyncStatus::Syncing;
    s.load_tasks(vec![]);
    assert_eq!(
        s.status_line("⠋"),
        "Status: ⠋ Syncing... | Search: mi | Tasks: 0 | q: quit, r: refresh, j/k: move, space: (un)check"
    );
}
