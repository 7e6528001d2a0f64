use vstd::prelude::*;
use crate::state::{AppState, AppView};
use crate::task::Task;

verus! {

/// A key press, as far as the interaction loop tells keys apart.
#[derive(Clone, Copy, Debug, PartialEq, Eq, Structural)]
pub enum Key {
    Char(char),
    Up,
    Down,
    Esc,
    Other,
}

/// What a key press asks for.
#[derive(Clone, Copy, Debug, PartialEq, Eq, Structural)]
pub enum Command {
    Quit,
    MoveUp,
    MoveDown,
    Top,
    Bottom,
    Toggle,
    Refresh,
    StartSearch,
    EndSearch,
    Ignore,
}

/// What the interaction loop does after a key press.
#[derive(Clone, Copy, Debug, PartialEq, Eq, Structural)]
pub enum LoopAction {
    /// Keep going.
    Continue,
    /// Leave the loop and restore the terminal.
    Quit,
    /// Start a background refresh of both task lists.
    StartRefresh,
}

/// The command a key asks for. `q` quits in either mode. In normal mode `j`/Down
/// and `k`/Up move, `G` and `g` jump to the bottom and the top, space toggles, `r`
/// refreshes and `/` enters search mode. In search mode only Esc acts: it leaves
/// search mode.
pub open spec fn command_of(is_searching: bool, key: Key) -> Command {
    if key == Key::Char('q') {
        Command::Quit
    } else if is_searching {
        if key == Key::Esc {
            Command::EndSearch
        } else {
            Command::Ignore
        }
    } else if key == Key::Char('j') || key == Key::Down {
        Command::MoveDown
    } else if key == Key::Char('k') || key == Key::Up {
        Command::MoveUp
    } else if key == Key::Char('G') {
        Command::Bottom
    } else if key == Key::Char('g') {
        Command::Top
    } else if key == Key::Char(' ') {
        Command::Toggle
    } else if key == Key::Char('r') {
        Command::Refresh
    } else if key == Key::Char('/') {
        Command::StartSearch
    } else {
        Command::Ignore
    }
}

pub fn command_for(is_searching: bool, key: Key) -> (r: Command)
    ensures
        r == command_of(is_searching, key),
{
    if key == Key::Char('q') {
        Command::Quit
    } else if is_searching {
        if key == Key::Esc {
            Command::EndSearch
        } else {
            Command::Ignore
        }
    } else if key == Key::Char('j') || key == Key::Down {
        Command::MoveDown
    } else if key == Key::Char('k') || key == Key::Up {
        Command::MoveUp
    } else if key == Key::Char('G') {
        Command::Bottom
    } else if key == Key::Char('g') {
        Command::Top
    } else if key == Key::Char(' ') {
        Command::Toggle
    } else if key == Key::Char('r') {
        Command::Refresh
    } else if key == Key::Char('/') {
        Command::StartSearch
    } else {
        Command::Ignore
    }
}

impl AppView {
    /// Flips the task at the selection in `view`, found by its identity; nothing
    /// changes when the selection is past the end of `view`.
    pub open spec fn toggle_in_view(self, view: Seq<Task>) -> AppView {
        if self.selected_index < view.len() {
            self.toggle_task_by_id(view[self.selected_index as int].id@)
        } else {
            self
        }
    }

    /// `after` and `action` are what a key press asking for `command` may leave.
    pub open spec fn key_effect(self, command: Command, after: AppView, action: LoopAction) -> bool {
        match command {
            Command::Quit => after == self && action == LoopAction::Quit,
            Command::Refresh => after == self.begin_refresh() && action == LoopAction::StartRefresh,
            _ => action == LoopAction::Continue && match command {
                Command::MoveUp => after == self.move_up(),
                Command::MoveDown => exists|view: Seq<Task>|
                    self.is_today_view(view) && after == self.move_down_within(view.len()),
                Command::Top => after == self.go_to_top(),
                Command::Bottom => exists|view: Seq<Task>|
                    self.is_today_view(view) && after == self.go_to_bottom_within(view.len()),
                Command::Toggle => exists|view: Seq<Task>|
                    self.is_today_view(view) && after == self.toggle_in_view(view),
                Command::StartSearch => after == self.start_search(),
                Command::EndSearch => after == self.end_search(),
                _ => after == self,
            },
        }
    }
}

impl AppState {
    /// Flips the task selected in the unified today view. The task is named by its
    /// identity before the flip, so a refresh that reorders the lists cannot make
    /// the flip land on another task.
    pub fn toggle_selected_in_view(&mut self)
        ensures
            exists|view: Seq<Task>|
                old(self)@.is_today_view(view) && final(self)@ == old(self)@.toggle_in_view(view),
    {
        let chosen: Option<String> = {
            let view = self.today_tasks();
            if self.selected_index < view.len() {
                Some(view[self.selected_index].id.clone())
            } else {
                None
            }
        };
        match chosen {
            Some(id) => self.toggle_task_by_id(id.as_str()),
            None => {},
        }
    }

    /// Acts on one key press and tells the loop what to do next.
    pub fn handle_key(&mut self, key: Key) -> (r: LoopAction)
        ensures
            old(self)@.key_effect(command_of(old(self)@.is_searching, key), final(self)@, r),
    {
        match command_for(self.is_searching, key) {
            Command::Quit => LoopAction::Quit,
            Command::MoveUp => {
                self.move_up();
                LoopAction::Continue
            },
            Command::MoveDown => {
                self.move_down();
                LoopAction::Continue
            },
            Command::Top => {
                self.go_to_top();
                LoopAction::Continue
            },
            Command::Bottom => {
                self.go_to_bottom();
                LoopAction::Continue
            },
            Command::Toggle => {
                self.toggle_selected_in_view();
                LoopAction::Continue
            },
            Command::Refresh => {
                self.begin_refresh();
                LoopAction::StartRefresh
            },
            Command::StartSearch => {
                self.start_search();
                LoopAction::Continue
            },
            Command::EndSearch => {
                self.end_search();
                LoopAction::Continue
            },
            Command::Ignore => LoopAction::Continue,
        }
    }
}

} // verus!
