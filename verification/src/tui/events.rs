//! Key handling of the dashboard, as a state machine.
//!
//! A key press updates the `App` and returns an `Effect`: the storage or
//! configuration work the caller performs before reporting back through the
//! `App` methods at the end of this file.
use vstd::prelude::*;
use crate::display::format::{duration_text, format_duration, format_elapsed};
use crate::error::{error_message, FocusError};
use crate::models::session::{secs_between, session_duration, Session};
use crate::models::todo::Todo;
use crate::pomodoro::config::PomodoroConfig;
use crate::models::pomodoro::PomodoroPhase;
use crate::pomodoro::timer::{PomodoroTimer, TimerEvent};
use crate::tui::report::ReportMetrics;
use crate::text::{chars_of, push_str, string_of_range, trim, trimmed};
use crate::tui::app::{
    app_wf, key_allowed, message_is, page_len, App, MessageKind, MessageOverlay, Overlay, PromptAction, Tab,
    SETTINGS_ROW_COUNT,
};
use crate::tui::keys::Key;
use crate::tui::text_input::{input_wf, lemma_cursor_index, TextInput, TextInputEvent};

verus! {

/// Work a key press asks of the caller.
#[derive(Debug, Clone, PartialEq)]
pub enum Effect {
    Nothing,
    /// Leave the dashboard.
    Quit,
    /// Reload the session log.
    LoadLog,
    /// Reload the report for the selected window.
    LoadReport,
    /// Reload the dashboard data.
    LoadDashboard,
    /// Stop the running session (report with `session_stopped` or `stop_failed`).
    StopSession,
    /// Start a freeform session unless one is running (report with
    /// `session_started` or `session_already_running`).
    StartSession { task: String, tag: Option<String> },
    /// Rename a session (report with `session_renamed` or `show_error`).
    RenameSession { id: i64, task: String },
    /// Delete a session (report with `session_deleted` or `show_error`).
    DeleteSession { id: i64, name: String },
    /// The Pomodoro was stopped; count it as abandoned when asked, then
    /// reload the dashboard.
    EndPomodoro { abandoned: bool },
    /// Start a Pomodoro with the configured durations (report with `start_pomodoro`).
    StartPomodoro { task: String, tag: Option<String> },
    /// Save the settings (report with `config_saved`).
    SaveAppConfig { success: String, failure_prefix: String },
    /// Save the Pomodoro durations (report a failure with `show_error`).
    SavePomodoroConfig,
    /// Add a TODO (then `todo_input_done` and `set_todos`).
    InsertTodo { title: String },
    /// Delete the TODO at `index` if no running session uses it (report with
    /// `todo_deleted` or `todo_delete_refused`).
    DeleteTodo { index: usize, todo_id: u64 },
    /// Mark a TODO completed (then `set_todos`).
    CompleteTodo { todo_id: u64 },
}

// ── Specification ───────────────────────────────────────────────────────────

/// The task name typed in a prompt: trimmed, "Untitled Session" when blank.
pub open spec fn task_name(v: Seq<char>) -> Seq<char> {
    if trim(v).len() == 0 {
        "Untitled Session"@
    } else {
        trim(v)
    }
}

/// The optional tag typed in a prompt: trimmed, None when blank.
pub open spec fn typed_tag(v: Seq<char>) -> Option<Seq<char>> {
    if trim(v).len() == 0 {
        None
    } else {
        Some(trim(v))
    }
}

pub open spec fn tag_view(t: Option<String>) -> Option<Seq<char>> {
    match t {
        Some(s) => Some(s@),
        None => None,
    }
}

/// `o` is a prompt with the given label and text, and an empty-or-given action.
pub open spec fn prompt_is(o: Overlay, label: Seq<char>, value: Seq<char>) -> bool {
    o matches Overlay::Prompt { label: l, value: v, .. } && l@ == label && v@ == value
}

/// The prompt's action, if `o` is a prompt.
pub open spec fn prompt_action(o: Overlay) -> Option<PromptAction> {
    match o {
        Overlay::Prompt { action, .. } => Some(action),
        _ => None,
    }
}

/// `b` is `a` with the overlay replaced by `o`.
pub open spec fn only_overlay(a: App, b: App, o: Overlay) -> bool {
    b == (App { overlay: o, ..a })
}

/// `b` is `a` showing a message of `kind` with `text`, nothing else changed.
pub open spec fn only_message(a: App, b: App, kind: MessageKind, text: Seq<char>) -> bool {
    message_is(b.message, kind, text) && b == (App { message: b.message, ..a })
}

/// What a key does in a prompt dialog.
pub open spec fn prompt_step(a: App, key: Key, b: App, e: Effect) -> bool {
    match a.overlay {
        Overlay::Prompt { label, value, action } => match key {
            Key::Esc => only_overlay(a, b, Overlay::Hidden) && e is Nothing,
            Key::Backspace => e is Nothing && b == (App { overlay: b.overlay, ..a })
                && prompt_is(b.overlay, label@, if value@.len() > 0 {
                value@.drop_last()
            } else {
                value@
            }) && prompt_action(b.overlay) == Some(action),
            Key::Char(c) => e is Nothing && b == (App { overlay: b.overlay, ..a }) && prompt_is(
                b.overlay,
                label@,
                value@.push(c),
            ) && prompt_action(b.overlay) == Some(action),
            Key::Enter => match action {
                PromptAction::StartSession => e is Nothing && b == (App { overlay: b.overlay, ..a })
                    && prompt_is(b.overlay, "Tag (optional, press Enter to skip):"@, Seq::empty())
                    && (prompt_action(b.overlay) matches Some(
                    PromptAction::StartSessionTag { task },
                ) && task@ == task_name(value@)),
                PromptAction::StartSessionTag { task } => only_overlay(a, b, Overlay::Hidden) && (
                e matches Effect::StartSession { task: t, tag } && t == task && tag_view(tag)
                    == typed_tag(value@)),
                PromptAction::RenameSession { id } => only_overlay(a, b, Overlay::Hidden) && (
                e matches Effect::RenameSession { id: i, task } && i == id && task@ == task_name(
                    value@,
                )),
                PromptAction::StartPomodoroName => e is Nothing && b == (App {
                    overlay: b.overlay,
                    ..a
                }) && prompt_is(b.overlay, "Pomodoro — tag (optional):"@, Seq::empty()) && (
                prompt_action(b.overlay) matches Some(PromptAction::StartPomodoroTag { task })
                    && task@ == task_name(value@)),
                PromptAction::StartPomodoroTag { task } => only_overlay(a, b, Overlay::Hidden) && (
                e matches Effect::StartPomodoro { task: t, tag } && t == task && tag_view(tag)
                    == typed_tag(value@)),
                PromptAction::AddTodo => only_overlay(a, b, Overlay::Hidden) && (if trim(
                    value@,
                ).len() == 0 {
                    e is Nothing
                } else {
                    e matches Effect::InsertTodo { title } && title@ == trim(value@)
                }),
            },
            _ => b == a && e is Nothing,
        },
        _ => b == a && e is Nothing,
    }
}

/// What a key does in the delete confirmation.
pub open spec fn confirm_step(a: App, key: Key, b: App, e: Effect) -> bool {
    match a.overlay {
        Overlay::ConfirmDelete { session_id, session_name } => if key == Key::Char('y') || key
            == Key::Enter {
            only_overlay(a, b, Overlay::Hidden) && (e matches Effect::DeleteSession { id, name }
                && id == session_id && name == session_name)
        } else if key == Key::Char('n') || key == Key::Esc {
            only_overlay(a, b, Overlay::Hidden) && e is Nothing
        } else {
            b == a && e is Nothing
        },
        _ => b == a && e is Nothing,
    }
}

/// What a key does in the mode selector.
pub open spec fn mode_selector_step(a: App, key: Key, b: App, e: Effect) -> bool {
    e is Nothing && match a.overlay {
        Overlay::ModeSelector { cursor } => if key == Key::Esc {
            only_overlay(a, b, Overlay::Hidden)
        } else if key == Key::Up || key == Key::Char('k') {
            only_overlay(
                a,
                b,
                Overlay::ModeSelector {
                    cursor: if cursor == 0 {
                        1
                    } else {
                        (cursor - 1) as usize
                    },
                },
            )
        } else if key == Key::Down || key == Key::Char('j') {
            only_overlay(a, b, Overlay::ModeSelector { cursor: ((cursor + 1) % 2) as usize })
        } else if key == Key::Enter {
            if cursor == 0 {
                if a.active_session is Some {
                    message_is(b.message, MessageKind::Warning, "Session already running."@) && b
                        == (App { message: b.message, overlay: Overlay::Hidden, ..a })
                } else {
                    b == (App { overlay: b.overlay, ..a }) && prompt_is(
                        b.overlay,
                        "Session name:"@,
                        Seq::empty(),
                    ) && prompt_action(b.overlay) == Some(PromptAction::StartSession)
                }
            } else {
                b == (App { overlay: b.overlay, ..a }) && prompt_is(
                    b.overlay,
                    "Pomodoro — task name:"@,
                    Seq::empty(),
                ) && prompt_action(b.overlay) == Some(PromptAction::StartPomodoroName)
            }
        } else {
            b == a
        },
        _ => b == a,
    }
}

/// The Pomodoro is stopped: the dashboard tab is shown with `text`.
pub open spec fn pomodoro_closed(a: App, b: App, kind: MessageKind, text: Seq<char>) -> bool {
    message_is(b.message, kind, text) && b == (App {
        message: b.message,
        pomodoro_timer: None,
        overlay: Overlay::Hidden,
        active_tab: Tab::Dashboard,
        ..a
    })
}

/// What a key does in the confirmation of stopping a Pomodoro at work.
pub open spec fn pomodoro_confirm_step(a: App, key: Key, b: App, e: Effect) -> bool {
    if key == Key::Char('y') || key == Key::Enter {
        pomodoro_closed(a, b, MessageKind::Warning, "Pomodoro stopped."@) && e == Effect::EndPomodoro {
            abandoned: a.pomodoro_timer matches Some(t) && t.phase is Work,
        }
    } else if key == Key::Char('n') || key == Key::Esc {
        only_overlay(a, b, Overlay::Hidden) && e is Nothing
    } else {
        b == a && e is Nothing
    }
}

/// What a key does while a dialog is shown.
pub open spec fn overlay_step(a: App, key: Key, b: App, e: Effect) -> bool {
    match a.overlay {
        Overlay::Prompt { .. } => prompt_step(a, key, b, e),
        Overlay::ConfirmDelete { .. } => confirm_step(a, key, b, e),
        Overlay::Help => only_overlay(a, b, Overlay::Hidden) && e is Nothing,
        Overlay::ModeSelector { .. } => mode_selector_step(a, key, b, e),
        Overlay::PomodoroConfirmStop => pomodoro_confirm_step(a, key, b, e),
        Overlay::Hidden => b == a && e is Nothing,
    }
}

/// `t2` is `t` after `pause` or `resume` toggled it.
pub open spec fn toggled(t: PomodoroTimer, t2: PomodoroTimer) -> bool {
    if t.paused {
        !t2.paused && t2.pause_started is None && t2.pause_accumulated_secs
            >= t.pause_accumulated_secs && t2 == (PomodoroTimer {
            paused: false,
            pause_started: None,
            pause_accumulated_secs: t2.pause_accumulated_secs,
            ..t
        })
    } else {
        t2.paused && t2.pause_started is Some && t2 == (PomodoroTimer {
            paused: true,
            pause_started: t2.pause_started,
            ..t
        })
    }
}

/// `t2` is `t` with its break skipped (a work phase is left as it is).
pub open spec fn break_skipped(t: PomodoroTimer, t2: PomodoroTimer) -> bool {
    if t.phase is Work {
        t2 == t
    } else {
        t2 == (PomodoroTimer {
            phase: crate::models::pomodoro::PomodoroPhase::Work,
            remaining_secs: (t.config.work_duration_mins * 60) as u64,
            pause_accumulated_secs: 0,
            ..t
        })
    }
}

/// What a key does on the Pomodoro tab.
pub open spec fn pomodoro_tab_step(a: App, key: Key, b: App, e: Effect) -> bool {
    match a.pomodoro_timer {
        None => b == a && e is Nothing,
        Some(t) => if key == Key::Char('p') || key == Key::Char('P') {
            e is Nothing && (b.pomodoro_timer matches Some(t2) && toggled(t, t2)) && b == (App {
                pomodoro_timer: b.pomodoro_timer,
                ..a
            })
        } else if key == Key::Char('s') || key == Key::Char('S') {
            e is Nothing && (b.pomodoro_timer matches Some(t2) && break_skipped(t, t2)) && b == (
            App { pomodoro_timer: b.pomodoro_timer, ..a })
        } else if key == Key::Char('+') {
            e is Nothing && b == (App {
                pomodoro_timer: Some(
                    PomodoroTimer { remaining_secs: (t.remaining_secs + 300) as u64, ..t },
                ),
                ..a
            })
        } else if key == Key::Char('q') || key == Key::Char('Q') {
            if t.phase is Work {
                only_overlay(a, b, Overlay::PomodoroConfirmStop) && e is Nothing
            } else {
                pomodoro_closed(a, b, MessageKind::Success, "Pomodoro finished."@) && e
                    == Effect::LoadDashboard
            }
        } else {
            b == a && e is Nothing
        },
    }
}

/// The selected log row after moving down one row.
pub open spec fn row_down(sel: usize, n: nat) -> usize {
    if n > 0 && sel < n - 1 {
        (sel + 1) as usize
    } else {
        sel
    }
}

/// The selected log row after moving up one row.
pub open spec fn row_up(sel: usize) -> usize {
    if sel > 0 {
        (sel - 1) as usize
    } else {
        sel
    }
}

/// What a key does on the log tab.
pub open spec fn log_tab_step(a: App, key: Key, b: App, e: Effect) -> bool {
    let n = page_len(a);
    let vim = a.config.vim_mode;
    let start = crate::tui::app::page_bounds(a.log_entries@.len(), a.log_page as nat).0;
    let sel = a.log_entries@[start + a.log_selected];
    e is Nothing && if key == Key::Down || (vim && key == Key::Char('j')) {
        b == (App { log_selected: row_down(a.log_selected, n), ..a })
    } else if key == Key::Up || (vim && key == Key::Char('k')) {
        b == (App { log_selected: row_up(a.log_selected), ..a })
    } else if key == Key::Right || key == Key::PageDown {
        if a.log_page + 1 < a.log_total_pages {
            b == (App { log_page: (a.log_page + 1) as usize, log_selected: 0, ..a })
        } else {
            b == a
        }
    } else if key == Key::Left || key == Key::PageUp {
        if a.log_page > 0 {
            b == (App { log_page: (a.log_page - 1) as usize, log_selected: 0, ..a })
        } else {
            b == a
        }
    } else if vim && key == Key::Char('g') {
        b == (App { log_selected: 0, ..a })
    } else if vim && key == Key::Char('G') {
        if n > 0 {
            b == (App { log_selected: (n - 1) as usize, ..a })
        } else {
            b == a
        }
    } else if key == Key::Char('d') || key == Key::Char('D') {
        if n > 0 {
            only_overlay(
                a,
                b,
                Overlay::ConfirmDelete { session_id: sel.id, session_name: sel.task },
            )
        } else {
            b == a
        }
    } else if key == Key::Char('r') || key == Key::Char('R') {
        if n > 0 {
            b == (App { overlay: b.overlay, ..a }) && prompt_is(
                b.overlay,
                "Rename session:"@,
                sel.task@,
            ) && prompt_action(b.overlay) == Some(PromptAction::RenameSession { id: sel.id })
        } else {
            b == a
        }
    } else {
        b == a
    }
}

/// What a key does on the report tab: move between its three time windows.
pub open spec fn report_tab_step(a: App, key: Key, b: App, e: Effect) -> bool {
    let w = a.report_selected_window;
    if key == Key::Char('h') || key == Key::Left {
        b == (App { report_selected_window: if w == 0 {
            2
        } else {
            (w - 1) as usize
        }, ..a }) && e == Effect::LoadReport
    } else if key == Key::Char('l') || key == Key::Right {
        b == (App { report_selected_window: ((w + 1) % 3) as usize, ..a }) && e
            == Effect::LoadReport
    } else {
        b == a && e is Nothing
    }
}

/// A Pomodoro setting stepped up or down within its range.
pub open spec fn stepped(c: PomodoroConfig, row: usize, up: bool) -> PomodoroConfig {
    if row == 1 {
        PomodoroConfig {
            work_duration_mins: if up && c.work_duration_mins < 120 {
                (c.work_duration_mins + 1) as u32
            } else if !up && c.work_duration_mins > 1 {
                (c.work_duration_mins - 1) as u32
            } else {
                c.work_duration_mins
            },
            ..c
        }
    } else if row == 2 {
        PomodoroConfig {
            break_duration_mins: if up && c.break_duration_mins < 60 {
                (c.break_duration_mins + 1) as u32
            } else if !up && c.break_duration_mins > 1 {
                (c.break_duration_mins - 1) as u32
            } else {
                c.break_duration_mins
            },
            ..c
        }
    } else if row == 3 {
        PomodoroConfig {
            long_break_duration_mins: if up && c.long_break_duration_mins < 60 {
                (c.long_break_duration_mins + 1) as u32
            } else if !up && c.long_break_duration_mins > 1 {
                (c.long_break_duration_mins - 1) as u32
            } else {
                c.long_break_duration_mins
            },
            ..c
        }
    } else if row == 4 {
        PomodoroConfig {
            long_break_after: if up && c.long_break_after < 10 {
                (c.long_break_after + 1) as u32
            } else if !up && c.long_break_after > 2 {
                (c.long_break_after - 1) as u32
            } else {
                c.long_break_after
            },
            ..c
        }
    } else {
        c
    }
}

/// The confirmation shown after toggling vim mode to `on`.
pub open spec fn vim_toggle_text(on: bool) -> Seq<char> {
    if on {
        "Vim mode enabled"@
    } else {
        "Vim mode disabled"@
    }
}

/// What a key does on the settings tab.
pub open spec fn settings_tab_step(a: App, key: Key, b: App, e: Effect) -> bool {
    let sel = a.settings_selected;
    let toggled_config = crate::config::AppConfig { vim_mode: !a.config.vim_mode, ..a.config };
    if key == Key::Up || key == Key::Char('k') {
        b == (App { settings_selected: row_up(sel), ..a }) && e is Nothing
    } else if key == Key::Down || key == Key::Char('j') {
        b == (App {
            settings_selected: if sel + 1 < SETTINGS_ROW_COUNT {
                (sel + 1) as usize
            } else {
                sel
            },
            ..a
        }) && e is Nothing
    } else if (key == Key::Char('v') || key == Key::Char('V') || key == Key::Enter) && sel == 0 {
        b == (App { config: toggled_config, ..a }) && (e matches Effect::SaveAppConfig {
            success,
            failure_prefix,
        } && success@ == vim_toggle_text(!a.config.vim_mode) && failure_prefix@ == (if key
            == Key::Enter {
            "Failed to save: "@
        } else {
            "Failed to save settings: "@
        }))
    } else if key == Key::Char('+') || key == Key::Char('=') || key == Key::Right {
        b == (App { pomo_config: stepped(a.pomo_config, sel, true), ..a }) && e == (if stepped(
            a.pomo_config,
            sel,
            true,
        ) != a.pomo_config {
            Effect::SavePomodoroConfig
        } else {
            Effect::Nothing
        })
    } else if key == Key::Char('-') || key == Key::Left {
        b == (App { pomo_config: stepped(a.pomo_config, sel, false), ..a }) && e == (if stepped(
            a.pomo_config,
            sel,
            false,
        ) != a.pomo_config {
            Effect::SavePomodoroConfig
        } else {
            Effect::Nothing
        })
    } else {
        b == a && e is Nothing
    }
}

/// `t` is an empty input in Insert mode with the given vim setting.
pub open spec fn fresh_input(t: TextInput, vim: bool) -> bool {
    &&& t.buffer@.len() == 0
    &&& t.cursor_pos == 0
    &&& t.vim_mode == crate::tui::text_input::VimInputMode::Insert
    &&& t.vim_enabled == vim
    &&& input_wf(t)
}

/// The TODO input with its vim setting taken from the configuration.
pub open spec fn synced_input(a: App) -> TextInput {
    TextInput { vim_enabled: a.config.vim_mode, ..a.todo_input }
}

/// What a key does to the TODO list and its title input.
pub open spec fn todo_step(a: App, key: Key, b: App, e: Effect) -> bool {
    let n = a.todos@.len();
    if a.todo_input_mode {
        let t = synced_input(a);
        if key == Key::Enter {
            b == (App { todo_input: t, ..a }) && (if trim(t.buffer@).len() > 0 {
                e matches Effect::InsertTodo { title } && title@ == trim(t.buffer@)
            } else {
                e is Nothing
            })
        } else if crate::tui::text_input::cancels(t.vim_mode, t.vim_enabled, key) {
            e is Nothing && b == (App { todo_input_mode: false, todo_input: b.todo_input, ..a })
                && fresh_input(b.todo_input, a.config.vim_mode)
        } else {
            e is Nothing && crate::tui::text_input::key_handled(
                t,
                b.todo_input,
                key,
                TextInputEvent::Continue,
            ) && b == (App { todo_input: b.todo_input, ..a })
        }
    } else if key == Key::Char('a') {
        e is Nothing && b == (App { todo_input_mode: true, todo_input: b.todo_input, ..a })
            && fresh_input(b.todo_input, a.config.vim_mode)
    } else if (key == Key::Delete || key == Key::Backspace) && a.selected_todo_idx is Some {
        let idx = a.selected_todo_idx->0;
        b == a && e == (if idx < n {
            Effect::DeleteTodo { index: idx, todo_id: a.todos@[idx as int].id }
        } else {
            Effect::Nothing
        })
    } else if key == Key::Char('c') && a.selected_todo_idx is Some {
        let idx = a.selected_todo_idx->0;
        b == a && e == (if idx < n {
            Effect::CompleteTodo { todo_id: a.todos@[idx as int].id }
        } else {
            Effect::Nothing
        })
    } else if key == Key::Char('s') || (key == Key::Right && a.selected_todo_idx is Some) {
        only_overlay(a, b, Overlay::ModeSelector { cursor: 0 }) && e is Nothing
    } else if key == Key::Up && n > 0 {
        e is Nothing && b == (App {
            selected_todo_idx: match a.selected_todo_idx {
                None => Some(0usize),
                Some(i) => if i > 0 {
                    Some((i - 1) as usize)
                } else {
                    Some(i)
                },
            },
            ..a
        })
    } else if key == Key::Down && n > 0 {
        e is Nothing && b == (App {
            selected_todo_idx: match a.selected_todo_idx {
                None => Some(0usize),
                Some(i) => if i + 1 < n {
                    Some((i + 1) as usize)
                } else {
                    Some(i)
                },
            },
            ..a
        })
    } else {
        b == a && e is Nothing
    }
}

/// What a key does on the dashboard tab.
pub open spec fn dashboard_step(a: App, key: Key, b: App, e: Effect) -> bool {
    let input = a.todo_input_mode;
    if (key == Key::Char('s') || key == Key::Char('S') || key == Key::Enter) && !input {
        b == a && e == Effect::StopSession
    } else if (key == Key::Char('n') || key == Key::Char('N')) && !input {
        e is Nothing && if a.active_session is Some {
            only_message(a, b, MessageKind::Warning, "Session already running."@)
        } else if a.pomodoro_timer is Some {
            only_message(
                a,
                b,
                MessageKind::Warning,
                "Pomodoro already running. Switch to Pomodoro tab."@,
            )
        } else {
            only_overlay(a, b, Overlay::ModeSelector { cursor: 0 })
        }
    } else if key == Key::Esc && input {
        e is Nothing && b == (App { todo_input_mode: false, todo_input: b.todo_input, ..a })
            && fresh_input(b.todo_input, a.todo_input.vim_enabled)
    } else {
        todo_step(a, key, b, e)
    }
}

/// The tab after `t` in the Tab order.
pub open spec fn next_tab(t: Tab) -> Tab {
    match t {
        Tab::Dashboard => Tab::Log,
        Tab::Log => Tab::Report,
        Tab::Report => Tab::Settings,
        Tab::Settings => Tab::Pomodoro,
        Tab::Pomodoro => Tab::Dashboard,
    }
}

/// The tab before `t` in the Tab order.
pub open spec fn prev_tab(t: Tab) -> Tab {
    match t {
        Tab::Dashboard => Tab::Pomodoro,
        Tab::Log => Tab::Dashboard,
        Tab::Report => Tab::Log,
        Tab::Settings => Tab::Report,
        Tab::Pomodoro => Tab::Settings,
    }
}

/// The data to reload on arriving at tab `t`.
pub open spec fn load_for(t: Tab) -> Effect {
    match t {
        Tab::Log => Effect::LoadLog,
        Tab::Report => Effect::LoadReport,
        _ => Effect::Nothing,
    }
}

/// What a key does on the current tab.
pub open spec fn tab_step(a: App, key: Key, b: App, e: Effect) -> bool {
    match a.active_tab {
        Tab::Dashboard => dashboard_step(a, key, b, e),
        Tab::Log => log_tab_step(a, key, b, e),
        Tab::Report => report_tab_step(a, key, b, e),
        Tab::Settings => settings_tab_step(a, key, b, e),
        Tab::Pomodoro => pomodoro_tab_step(a, key, b, e),
    }
}

/// The whole dashboard's answer to a key press (`ctrl` tells whether Control
/// was held): Ctrl-C quits, a dialog takes every key, then the global keys
/// (q quit, ? help, Esc dismiss, 1–5 and Tab/Shift-Tab switch tabs), then the
/// current tab.
pub open spec fn key_event_step(a: App, key: Key, ctrl: bool, b: App, e: Effect) -> bool {
    if ctrl && key == Key::Char('c') {
        b == a && e == Effect::Quit
    } else if !(a.overlay is Hidden) {
        overlay_step(a, key, b, e)
    } else if key == Key::Char('q') || key == Key::Char('Q') {
        if a.active_tab == Tab::Pomodoro && a.pomodoro_timer is Some {
            pomodoro_tab_step(a, key, b, e)
        } else {
            b == a && e == Effect::Quit
        }
    } else if key == Key::Char('?') {
        only_overlay(a, b, Overlay::Help) && e is Nothing
    } else if key == Key::Esc {
        b == (App { message: None, ..a }) && e is Nothing
    } else if key == Key::Char('1') {
        b == (App { active_tab: Tab::Dashboard, ..a }) && e is Nothing
    } else if key == Key::Char('2') {
        b == (App { active_tab: Tab::Log, ..a }) && e == Effect::LoadLog
    } else if key == Key::Char('3') {
        b == (App { active_tab: Tab::Report, ..a }) && e == Effect::LoadReport
    } else if key == Key::Char('4') {
        b == (App { active_tab: Tab::Settings, ..a }) && e is Nothing
    } else if key == Key::Char('5') {
        b == (App { active_tab: Tab::Pomodoro, ..a }) && e is Nothing
    } else if key == Key::Tab {
        b == (App { active_tab: next_tab(a.active_tab), ..a }) && e == load_for(
            next_tab(a.active_tab),
        )
    } else if key == Key::BackTab {
        b == (App { active_tab: prev_tab(a.active_tab), ..a }) && e == load_for(
            prev_tab(a.active_tab),
        )
    } else {
        tab_step(a, key, b, e)
    }
}

/// The message after stopping session `s`.
pub open spec fn stopped_text(s: Session) -> Seq<char> {
    "Session stopped: \""@ + s.task@ + "\" — "@ + match session_duration(s) {
        Some(d) => duration_text(d as int),
        None => "unknown"@,
    }
}

/// Title and body of the notice for arriving in phase `to`.
pub open spec fn phase_notice(to: PomodoroPhase) -> (Seq<char>, Seq<char>) {
    match to {
        PomodoroPhase::Work => ("Focus!"@, "Break over — time to work."@),
        PomodoroPhase::Break => ("Break time!"@, "Work phase complete."@),
        PomodoroPhase::LongBreak => ("Long break!"@, "Take a longer rest."@),
    }
}

/// The notices for the phase changes among `events`, in order.
pub open spec fn notices_of(events: Seq<TimerEvent>) -> Seq<(Seq<char>, Seq<char>)>
    decreases events.len(),
{
    if events.len() == 0 {
        Seq::empty()
    } else {
        let rest = notices_of(events.drop_last());
        match events.last() {
            TimerEvent::PhaseComplete { to, .. } => rest.push(phase_notice(to)),
            _ => rest,
        }
    }
}

/// The message left by the last phase change or abandonment among `events`.
pub open spec fn timer_message(events: Seq<TimerEvent>) -> Option<(MessageKind, Seq<char>)>
    decreases events.len(),
{
    if events.len() == 0 {
        None
    } else {
        match events.last() {
            TimerEvent::PhaseComplete { to, .. } => Some((MessageKind::Success, phase_notice(to).1)),
            TimerEvent::AutoAbandoned { .. } => Some(
                (MessageKind::Error, "Pomodoro abandoned: paused too long."@),
            ),
            _ => timer_message(events.drop_last()),
        }
    }
}

/// Whether the Pomodoro was abandoned among `events`.
pub open spec fn abandoned_in(events: Seq<TimerEvent>) -> bool {
    exists|i: int| 0 <= i < events.len() && #[trigger] events[i] is AutoAbandoned
}

// ── Laws ────────────────────────────────────────────────────────────────────

/// Shift-Tab undoes Tab: with no dialog open, pressing Tab and then
/// Shift-Tab gives back the state as it was.
pub proof fn law_backtab_undoes_tab(a: App, b: App, e1: Effect, c: App, e2: Effect)
    requires
        a.overlay is Hidden,
        key_event_step(a, Key::Tab, false, b, e1),
        key_event_step(b, Key::BackTab, false, c, e2),
    ensures
        c == a,
{
}

/// Tab visits every tab: five presses lead back to the tab one started on,
/// passing through the other four.
pub proof fn law_tab_cycles_all_tabs(t: Tab)
    ensures
        next_tab(next_tab(next_tab(next_tab(next_tab(t))))) == t,
        t != next_tab(t),
        t != next_tab(next_tab(t)),
        t != next_tab(next_tab(next_tab(t))),
        t != next_tab(next_tab(next_tab(next_tab(t)))),
{
}

/// In a prompt, typing a character and pressing Backspace gives back the
/// dialog as it was: same label, same text, same action, and nothing else
/// changed.
pub proof fn law_prompt_type_then_backspace(a: App, c: char, b: App, e1: Effect, d: App, e2: Effect)
    requires
        a.overlay is Prompt,
        prompt_step(a, Key::Char(c), b, e1),
        prompt_step(b, Key::Backspace, d, e2),
    ensures
        d == (App { overlay: d.overlay, ..a }),
        prompt_action(d.overlay) == prompt_action(a.overlay),
        (a.overlay matches Overlay::Prompt { label, value, .. } && prompt_is(
            d.overlay,
            label@,
            value@,
        )),
        e1 is Nothing && e2 is Nothing,
{
    if let Overlay::Prompt { label, value, action } = a.overlay {
        if let Overlay::Prompt { label: l2, value: v2, action: a2 } = b.overlay {
            assert(v2@.drop_last() =~= value@);
        }
    }
}

/// In the mode selector, Down twice comes back to the same choice.
pub proof fn law_mode_selector_down_twice(a: App, b: App, e1: Effect, c: App, e2: Effect)
    requires
        a.overlay matches Overlay::ModeSelector { cursor } && cursor < 2,
        mode_selector_step(a, Key::Down, b, e1),
        mode_selector_step(b, Key::Down, c, e2),
    ensures
        c == a,
{
}

/// On the log tab, moving down and back up returns to the same row when
/// there was a row below.
pub proof fn law_log_down_then_up(a: App, b: App, e1: Effect, c: App, e2: Effect)
    requires
        a.log_selected + 1 < page_len(a),
        log_tab_step(a, Key::Down, b, e1),
        log_tab_step(b, Key::Up, c, e2),
    ensures
        c == a,
{
}

/// On the log tab, `d` and `r` act on the session shown in the selected row:
/// with ten sessions a page, row `log_selected` of page `log_page` holds entry
/// `10 * log_page + log_selected`, which `log_page_entries` shows there; `d`
/// asks to delete that session and `r` to rename it, starting from its name.
pub proof fn law_log_keys_target_selected_row(a: App, key: Key, b: App, e: Effect)
    requires
        a.log_selected < page_len(a),
        log_tab_step(a, key, b, e),
    ensures
        ({
            let i = 10 * a.log_page + a.log_selected;
            let shown = a.log_entries@.subrange(
                crate::tui::app::page_bounds(a.log_entries@.len(), a.log_page as nat).0 as int,
                crate::tui::app::page_bounds(a.log_entries@.len(), a.log_page as nat).1 as int,
            );
            let s = a.log_entries@[i];
            &&& i < a.log_entries@.len()
            &&& shown[a.log_selected as int] == s
            &&& (key == Key::Char('d') || key == Key::Char('D')) ==> b.overlay == (
            Overlay::ConfirmDelete { session_id: s.id, session_name: s.task })
            &&& (key == Key::Char('r') || key == Key::Char('R')) ==> prompt_is(
                b.overlay,
                "Rename session:"@,
                s.task@,
            ) && prompt_action(b.overlay) == Some(PromptAction::RenameSession { id: s.id })
        }),
{
}

/// The Pomodoro durations edited in the settings tab stay within their
/// ranges (work 1–120, breaks 1–60 minutes, long break after 2–10 work
/// phases), and a step up that changed a value is undone by a step down.
pub proof fn law_settings_steps_in_range(c: PomodoroConfig, row: usize, up: bool)
    requires
        1 <= c.work_duration_mins <= 120,
        1 <= c.break_duration_mins <= 60,
        1 <= c.long_break_duration_mins <= 60,
        2 <= c.long_break_after <= 10,
    ensures
        1 <= stepped(c, row, up).work_duration_mins <= 120,
        1 <= stepped(c, row, up).break_duration_mins <= 60,
        1 <= stepped(c, row, up).long_break_duration_mins <= 60,
        2 <= stepped(c, row, up).long_break_after <= 10,
        stepped(c, row, true) != c ==> stepped(stepped(c, row, true), row, false) == c,
{
}

/// Pausing and then resuming leaves the countdown where it was: the phase,
/// the time left and the work phases done are those from before, and the
/// pause is added to the accumulated pause time.
pub proof fn law_pause_then_resume(t: PomodoroTimer, t1: PomodoroTimer, t2: PomodoroTimer)
    requires
        !t.paused,
        toggled(t, t1),
        toggled(t1, t2),
    ensures
        t1.paused,
        t2 == (PomodoroTimer {
            pause_started: None,
            pause_accumulated_secs: t2.pause_accumulated_secs,
            ..t
        }),
        t2.pause_accumulated_secs >= t.pause_accumulated_secs,
{
}

/// A key press keeps the dashboard's state valid: the text inputs stay on
/// character boundaries, and a selection that was on its log page stays on
/// the page shown afterwards.
pub proof fn law_keys_keep_state_valid(a: App, key: Key, ctrl: bool, b: App, e: Effect)
    requires
        app_wf(a),
        key_event_step(a, key, ctrl, b, e),
    ensures
        app_wf(b),
        (page_len(a) == 0 || a.log_selected < page_len(a)) ==> (page_len(b) == 0 || b.log_selected
            < page_len(b)),
{
    lemma_cursor_index(a.todo_input);
}

// ── Helpers ─────────────────────────────────────────────────────────────────

fn task_name_of(v: &str) -> (r: String)
    ensures
        r@ == task_name(v@),
{
    let t = trimmed(v);
    if t.as_str().is_empty() {
        "Untitled Session".to_owned()
    } else {
        t
    }
}

fn typed_tag_of(v: &str) -> (r: Option<String>)
    ensures
        tag_view(r) == typed_tag(v@),
{
    let t = trimmed(v);
    if t.as_str().is_empty() {
        None
    } else {
        Some(t)
    }
}

fn without_last_char(v: &String) -> (r: String)
    ensures
        r@ == (if v@.len() > 0 {
            v@.drop_last()
        } else {
            v@
        }),
{
    let chars = chars_of(v.as_str());
    if chars.len() == 0 {
        return v.clone();
    }
    let r = string_of_range(&chars, 0, chars.len() - 1);
    assert(r@ =~= v@.drop_last());
    r
}

// ── Dialog handlers ─────────────────────────────────────────────────────────

impl App {
    /// A key in a prompt dialog: edit the text, cancel, or confirm.
    pub fn handle_overlay_prompt(&mut self, key: Key) -> (e: Effect)
        ensures
            prompt_step(*old(self), key, *final(self), e),
    {
        let mut ov = Overlay::Hidden;
        std::mem::swap(&mut ov, &mut self.overlay);
        match ov {
            Overlay::Prompt { label, value, action } => match key {
                Key::Esc => Effect::Nothing,
                Key::Backspace => {
                    let v = without_last_char(&value);
                    self.overlay = Overlay::Prompt { label, value: v, action };
                    Effect::Nothing
                },
                Key::Char(c) => {
                    let mut v = value;
                    v.push(c);
                    self.overlay = Overlay::Prompt { label, value: v, action };
                    Effect::Nothing
                },
                Key::Enter => {
                    let name = task_name_of(value.as_str());
                    match action {
                        PromptAction::StartSession => {
                            self.overlay = Overlay::Prompt {
                                label: "Tag (optional, press Enter to skip):".to_owned(),
                                value: String::new(),
                                action: PromptAction::StartSessionTag { task: name },
                            };
                            Effect::Nothing
                        },
                        PromptAction::StartSessionTag { task } => {
                            let tag = typed_tag_of(value.as_str());
                            Effect::StartSession { task, tag }
                        },
                        PromptAction::RenameSession { id } => Effect::RenameSession {
                            id,
                            task: name,
                        },
                        PromptAction::StartPomodoroName => {
                            self.overlay = Overlay::Prompt {
                                label: "Pomodoro — tag (optional):".to_owned(),
                                value: String::new(),
                                action: PromptAction::StartPomodoroTag { task: name },
                            };
                            Effect::Nothing
                        },
                        PromptAction::StartPomodoroTag { task } => {
                            let tag = typed_tag_of(value.as_str());
                            Effect::StartPomodoro { task, tag }
                        },
                        PromptAction::AddTodo => {
                            let t = trimmed(value.as_str());
                            if t.as_str().is_empty() {
                                Effect::Nothing
                            } else {
                                Effect::InsertTodo { title: t }
                            }
                        },
                    }
                },
                _ => {
                    self.overlay = Overlay::Prompt { label, value, action };
                    Effect::Nothing
                },
            },
            other => {
                self.overlay = other;
                Effect::Nothing
            },
        }
    }

    /// A key in the delete confirmation: `y` or Enter deletes, `n` or Esc cancels.
    pub fn handle_overlay_confirm(&mut self, key: Key) -> (e: Effect)
        ensures
            confirm_step(*old(self), key, *final(self), e),
    {
        let mut ov = Overlay::Hidden;
        std::mem::swap(&mut ov, &mut self.overlay);
        match ov {
            Overlay::ConfirmDelete { session_id, session_name } => {
                if key == Key::Char('y') || key == Key::Enter {
                    Effect::DeleteSession { id: session_id, name: session_name }
                } else if key == Key::Char('n') || key == Key::Esc {
                    Effect::Nothing
                } else {
                    self.overlay = Overlay::ConfirmDelete { session_id, session_name };
                    Effect::Nothing
                }
            },
            other => {
                self.overlay = other;
                Effect::Nothing
            },
        }
    }

    /// A key in the mode selector: move between Freeform and Pomodoro, or pick one.
    pub fn handle_overlay_mode_selector(&mut self, key: Key) -> (e: Effect)
        ensures
            mode_selector_step(*old(self), key, *final(self), e),
    {
        let cursor = match &self.overlay {
            Overlay::ModeSelector { cursor } => *cursor,
            _ => {
                return Effect::Nothing;
            },
        };
        if key == Key::Esc {
            self.overlay = Overlay::Hidden;
        } else if key == Key::Up || key == Key::Char('k') {
            self.overlay = Overlay::ModeSelector {
                cursor: if cursor == 0 {
                    1
                } else {
                    cursor - 1
                },
            };
        } else if key == Key::Down || key == Key::Char('j') {
            self.overlay = Overlay::ModeSelector { cursor: (cursor % 2 + 1) % 2 };
        } else if key == Key::Enter {
            self.overlay = Overlay::Hidden;
            if cursor == 0 {
                if self.active_session.is_some() {
                    self.message = Some(MessageOverlay::warning("Session already running."));
                } else {
                    self.overlay = Overlay::Prompt {
                        label: "Session name:".to_owned(),
                        value: String::new(),
                        action: PromptAction::StartSession,
                    };
                }
            } else {
                self.overlay = Overlay::Prompt {
                    label: "Pomodoro — task name:".to_owned(),
                    value: String::new(),
                    action: PromptAction::StartPomodoroName,
                };
            }
        }
        Effect::Nothing
    }

    /// A key in the confirmation of stopping a Pomodoro: `y` or Enter stops it
    /// (counting an abandoned work phase), `n` or Esc cancels.
    pub fn handle_overlay_pomodoro_confirm_stop(&mut self, key: Key) -> (e: Effect)
        ensures
            pomodoro_confirm_step(*old(self), key, *final(self), e),
    {
        if key == Key::Char('y') || key == Key::Enter {
            let abandoned = match &self.pomodoro_timer {
                Some(t) => t.is_in_work_phase(),
                None => false,
            };
            self.pomodoro_timer = None;
            self.overlay = Overlay::Hidden;
            self.active_tab = Tab::Dashboard;
            self.message = Some(MessageOverlay::warning("Pomodoro stopped."));
            Effect::EndPomodoro { abandoned }
        } else if key == Key::Char('n') || key == Key::Esc {
            self.overlay = Overlay::Hidden;
            Effect::Nothing
        } else {
            Effect::Nothing
        }
    }

    /// A key while a dialog is shown; Help closes on any key.
    pub fn handle_overlay(&mut self, key: Key) -> (e: Effect)
        ensures
            overlay_step(*old(self), key, *final(self), e),
    {
        match &self.overlay {
            Overlay::Prompt { .. } => self.handle_overlay_prompt(key),
            Overlay::ConfirmDelete { .. } => self.handle_overlay_confirm(key),
            Overlay::Help => {
                self.overlay = Overlay::Hidden;
                Effect::Nothing
            },
            Overlay::ModeSelector { .. } => self.handle_overlay_mode_selector(key),
            Overlay::PomodoroConfirmStop => self.handle_overlay_pomodoro_confirm_stop(key),
            Overlay::Hidden => Effect::Nothing,
        }
    }

    // ── Tab handlers ────────────────────────────────────────────────────────

    /// A key on the Pomodoro tab: `p` pauses or resumes, `s` skips a break,
    /// `+` adds five minutes, `q` stops (asking first during work).
    pub fn handle_pomodoro_tab(&mut self, key: Key) -> (e: Effect)
        requires
            key == Key::Char('+') ==> (old(self).pomodoro_timer matches Some(t) ==> t.remaining_secs
                + 300 <= u64::MAX),
        ensures
            pomodoro_tab_step(*old(self), key, *final(self), e),
    {
        let taken = self.pomodoro_timer.take();
        let mut t = match taken {
            Some(t) => t,
            None => {
                return Effect::Nothing;
            },
        };
        if key == Key::Char('p') || key == Key::Char('P') {
            if t.paused {
                t.resume();
            } else {
                t.pause();
            }
            self.pomodoro_timer = Some(t);
            Effect::Nothing
        } else if key == Key::Char('s') || key == Key::Char('S') {
            t.skip_break();
            self.pomodoro_timer = Some(t);
            Effect::Nothing
        } else if key == Key::Char('+') {
            t.extend();
            self.pomodoro_timer = Some(t);
            Effect::Nothing
        } else if key == Key::Char('q') || key == Key::Char('Q') {
            if t.is_in_work_phase() {
                self.pomodoro_timer = Some(t);
                self.overlay = Overlay::PomodoroConfirmStop;
                Effect::Nothing
            } else {
                self.overlay = Overlay::Hidden;
                self.active_tab = Tab::Dashboard;
                self.message = Some(MessageOverlay::success("Pomodoro finished."));
                Effect::LoadDashboard
            }
        } else {
            self.pomodoro_timer = Some(t);
            Effect::Nothing
        }
    }

    /// A key on the log tab: move the selection or the page, or ask to
    /// delete (`d`) or rename (`r`) the selected session.
    pub fn handle_log_tab(&mut self, key: Key) -> (e: Effect)
        requires
            (key == Key::Char('d') || key == Key::Char('D') || key == Key::Char('r') || key
                == Key::Char('R')) && page_len(*old(self)) > 0 ==> old(self).log_selected < page_len(
                *old(self),
            ),
        ensures
            log_tab_step(*old(self), key, *final(self), e),
    {
        let (start, end) = self.log_page_bounds(self.log_page);
        let n = end - start;
        let vim = self.config.vim_mode;
        if key == Key::Down || (vim && key == Key::Char('j')) {
            if n > 0 && self.log_selected < n - 1 {
                self.log_selected = self.log_selected + 1;
            }
        } else if key == Key::Up || (vim && key == Key::Char('k')) {
            if self.log_selected > 0 {
                self.log_selected = self.log_selected - 1;
            }
        } else if key == Key::Right || key == Key::PageDown {
            if self.log_total_pages > 0 && self.log_page < self.log_total_pages - 1 {
                self.log_page = self.log_page + 1;
                self.log_selected = 0;
            }
        } else if key == Key::Left || key == Key::PageUp {
            if self.log_page > 0 {
                self.log_page = self.log_page - 1;
                self.log_selected = 0;
            }
        } else if vim && key == Key::Char('g') {
            self.log_selected = 0;
        } else if vim && key == Key::Char('G') {
            if n > 0 {
                self.log_selected = n - 1;
            }
        } else if key == Key::Char('d') || key == Key::Char('D') {
            if n > 0 {
                let s = &self.log_entries[start + self.log_selected];
                self.overlay = Overlay::ConfirmDelete {
                    session_id: s.id,
                    session_name: s.task.clone(),
                };
            }
        } else if key == Key::Char('r') || key == Key::Char('R') {
            if n > 0 {
                let s = &self.log_entries[start + self.log_selected];
                self.overlay = Overlay::Prompt {
                    label: "Rename session:".to_owned(),
                    value: s.task.clone(),
                    action: PromptAction::RenameSession { id: s.id },
                };
            }
        }
        Effect::Nothing
    }

    /// A key on the report tab: `h`/Left and `l`/Right cycle the time window.
    pub fn handle_report_tab(&mut self, key: Key) -> (e: Effect)
        ensures
            report_tab_step(*old(self), key, *final(self), e),
    {
        let w = self.report_selected_window;
        if key == Key::Char('h') || key == Key::Left {
            self.report_selected_window = if w == 0 {
                2
            } else {
                w - 1
            };
            Effect::LoadReport
        } else if key == Key::Char('l') || key == Key::Right {
            self.report_selected_window = (w % 3 + 1) % 3;
            Effect::LoadReport
        } else {
            Effect::Nothing
        }
    }

    /// A key on the settings tab: move between rows, toggle vim mode, or
    /// step a Pomodoro duration within its range.
    pub fn handle_settings_tab(&mut self, key: Key) -> (e: Effect)
        ensures
            settings_tab_step(*old(self), key, *final(self), e),
    {
        let sel = self.settings_selected;
        if key == Key::Up || key == Key::Char('k') {
            if sel > 0 {
                self.settings_selected = sel - 1;
            }
            Effect::Nothing
        } else if key == Key::Down || key == Key::Char('j') {
            if sel < SETTINGS_ROW_COUNT - 1 {
                self.settings_selected = sel + 1;
            }
            Effect::Nothing
        } else if (key == Key::Char('v') || key == Key::Char('V') || key == Key::Enter) && sel
            == 0 {
            self.config.vim_mode = !self.config.vim_mode;
            let success = if self.config.vim_mode {
                "Vim mode enabled".to_owned()
            } else {
                "Vim mode disabled".to_owned()
            };
            let failure_prefix = if key == Key::Enter {
                "Failed to save: ".to_owned()
            } else {
                "Failed to save settings: ".to_owned()
            };
            Effect::SaveAppConfig { success, failure_prefix }
        } else if key == Key::Char('+') || key == Key::Char('=') || key == Key::Right {
            if self.step_pomodoro_setting(true) {
                Effect::SavePomodoroConfig
            } else {
                Effect::Nothing
            }
        } else if key == Key::Char('-') || key == Key::Left {
            if self.step_pomodoro_setting(false) {
                Effect::SavePomodoroConfig
            } else {
                Effect::Nothing
            }
        } else {
            Effect::Nothing
        }
    }

    fn step_pomodoro_setting(&mut self, up: bool) -> (changed: bool)
        ensures
            *final(self) == (App {
                pomo_config: stepped(old(self).pomo_config, old(self).settings_selected, up),
                ..*old(self)
            }),
            changed == (stepped(old(self).pomo_config, old(self).settings_selected, up) != old(
                self,
            ).pomo_config),
    {
        let sel = self.settings_selected;
        let c = self.pomo_config;
        if sel == 1 {
            if up && c.work_duration_mins < 120 {
                self.pomo_config.work_duration_mins = c.work_duration_mins + 1;
                true
            } else if !up && c.work_duration_mins > 1 {
                self.pomo_config.work_duration_mins = c.work_duration_mins - 1;
                true
            } else {
                false
            }
        } else if sel == 2 {
            if up && c.break_duration_mins < 60 {
                self.pomo_config.break_duration_mins = c.break_duration_mins + 1;
                true
            } else if !up && c.break_duration_mins > 1 {
                self.pomo_config.break_duration_mins = c.break_duration_mins - 1;
                true
            } else {
                false
            }
        } else if sel == 3 {
            if up && c.long_break_duration_mins < 60 {
                self.pomo_config.long_break_duration_mins = c.long_break_duration_mins + 1;
                true
            } else if !up && c.long_break_duration_mins > 1 {
                self.pomo_config.long_break_duration_mins = c.long_break_duration_mins - 1;
                true
            } else {
                false
            }
        } else if sel == 4 {
            if up && c.long_break_after < 10 {
                self.pomo_config.long_break_after = c.long_break_after + 1;
                true
            } else if !up && c.long_break_after > 2 {
                self.pomo_config.long_break_after = c.long_break_after - 1;
                true
            } else {
                false
            }
        } else {
            false
        }
    }

    /// Opens the TODO title input, empty and in Insert mode.
    pub fn enter_todo_input_mode(&mut self)
        ensures
            *final(self) == (App {
                todo_input_mode: true,
                todo_input: final(self).todo_input,
                ..*old(self)
            }),
            fresh_input(final(self).todo_input, old(self).config.vim_mode),
    {
        self.todo_input_mode = true;
        self.todo_input.reset();
        self.todo_input.set_vim_enabled(self.config.vim_mode);
        assert(crate::text::cursor_at(self.todo_input.buffer@, self.todo_input.cursor_pos as nat, 0));
    }

    /// Closes the TODO title input and clears it.
    pub fn exit_todo_input_mode(&mut self)
        ensures
            *final(self) == (App {
                todo_input_mode: false,
                todo_input: final(self).todo_input,
                ..*old(self)
            }),
            fresh_input(final(self).todo_input, old(self).todo_input.vim_enabled),
    {
        self.todo_input_mode = false;
        self.todo_input.reset();
    }

    /// A key for the TODO list or, while typing a title, for its input.
    pub fn handle_todo_key(&mut self, key: Key) -> (e: Effect)
        requires
            input_wf(old(self).todo_input),
        ensures
            todo_step(*old(self), key, *final(self), e),
    {
        let n = self.todos.len();
        if self.todo_input_mode {
            self.todo_input.set_vim_enabled(self.config.vim_mode);
            let ev = self.todo_input.handle_key(key);
            match ev {
                TextInputEvent::Submit(text) => {
                    if text.as_str().is_empty() {
                        Effect::Nothing
                    } else {
                        Effect::InsertTodo { title: text }
                    }
                },
                TextInputEvent::Cancel => {
                    self.todo_input_mode = false;
                    self.todo_input.reset();
                    Effect::Nothing
                },
                TextInputEvent::Continue => Effect::Nothing,
            }
        } else if key == Key::Char('a') {
            self.enter_todo_input_mode();
            Effect::Nothing
        } else if (key == Key::Delete || key == Key::Backspace) && self.selected_todo_idx.is_some() {
            let idx = self.selected_todo_idx.unwrap();
            if idx < n {
                Effect::DeleteTodo { index: idx, todo_id: self.todos[idx].id }
            } else {
                Effect::Nothing
            }
        } else if key == Key::Char('c') && self.selected_todo_idx.is_some() {
            let idx = self.selected_todo_idx.unwrap();
            if idx < n {
                Effect::CompleteTodo { todo_id: self.todos[idx].id }
            } else {
                Effect::Nothing
            }
        } else if key == Key::Char('s') || (key == Key::Right && self.selected_todo_idx.is_some()) {
            self.overlay = Overlay::ModeSelector { cursor: 0 };
            Effect::Nothing
        } else if key == Key::Up && n > 0 {
            self.selected_todo_idx = match self.selected_todo_idx {
                None => Some(0),
                Some(i) => if i > 0 {
                    Some(i - 1)
                } else {
                    Some(i)
                },
            };
            Effect::Nothing
        } else if key == Key::Down && n > 0 {
            self.selected_todo_idx = match self.selected_todo_idx {
                None => Some(0),
                Some(i) => if i < n - 1 {
                    Some(i + 1)
                } else {
                    Some(i)
                },
            };
            Effect::Nothing
        } else {
            Effect::Nothing
        }
    }

    /// A key on the dashboard tab: `s`/Enter stops the session, `n` starts
    /// one, Esc leaves the TODO input; other keys go to the TODO list.
    pub fn handle_dashboard_tab(&mut self, key: Key) -> (e: Effect)
        requires
            input_wf(old(self).todo_input),
        ensures
            dashboard_step(*old(self), key, *final(self), e),
    {
        let input = self.todo_input_mode;
        if (key == Key::Char('s') || key == Key::Char('S') || key == Key::Enter) && !input {
            Effect::StopSession
        } else if (key == Key::Char('n') || key == Key::Char('N')) && !input {
            if self.active_session.is_some() {
                self.message = Some(MessageOverlay::warning("Session already running."));
            } else if self.pomodoro_timer.is_some() {
                self.message = Some(
                    MessageOverlay::warning("Pomodoro already running. Switch to Pomodoro tab."),
                );
            } else {
                self.overlay = Overlay::ModeSelector { cursor: 0 };
            }
            Effect::Nothing
        } else if key == Key::Esc && input {
            self.exit_todo_input_mode();
            Effect::Nothing
        } else {
            self.handle_todo_key(key)
        }
    }

    /// The dashboard's answer to a key press; `ctrl` tells whether Control was held.
    pub fn handle_key_event(&mut self, key: Key, ctrl: bool) -> (e: Effect)
        requires
            app_wf(*old(self)),
            key_allowed(*old(self), key, ctrl),
        ensures
            key_event_step(*old(self), key, ctrl, *final(self), e),
    {
        if ctrl && key == Key::Char('c') {
            return Effect::Quit;
        }
        if self.overlay.is_active() {
            return self.handle_overlay(key);
        }
        if key == Key::Char('q') || key == Key::Char('Q') {
            if self.active_tab == Tab::Pomodoro && self.pomodoro_timer.is_some() {
                return self.handle_pomodoro_tab(key);
            }
            return Effect::Quit;
        }
        if key == Key::Char('?') {
            self.overlay = Overlay::Help;
            return Effect::Nothing;
        }
        if key == Key::Esc {
            self.message = None;
            return Effect::Nothing;
        }
        if key == Key::Char('1') {
            self.active_tab = Tab::Dashboard;
            return Effect::Nothing;
        }
        if key == Key::Char('2') {
            self.active_tab = Tab::Log;
            return Effect::LoadLog;
        }
        if key == Key::Char('3') {
            self.active_tab = Tab::Report;
            return Effect::LoadReport;
        }
        if key == Key::Char('4') {
            self.active_tab = Tab::Settings;
            return Effect::Nothing;
        }
        if key == Key::Char('5') {
            self.active_tab = Tab::Pomodoro;
            return Effect::Nothing;
        }
        if key == Key::Tab || key == Key::BackTab {
            let t = if key == Key::Tab {
                match self.active_tab {
                    Tab::Dashboard => Tab::Log,
                    Tab::Log => Tab::Report,
                    Tab::Report => Tab::Settings,
                    Tab::Settings => Tab::Pomodoro,
                    Tab::Pomodoro => Tab::Dashboard,
                }
            } else {
                match self.active_tab {
                    Tab::Dashboard => Tab::Pomodoro,
                    Tab::Log => Tab::Dashboard,
                    Tab::Report => Tab::Log,
                    Tab::Settings => Tab::Report,
                    Tab::Pomodoro => Tab::Settings,
                }
            };
            self.active_tab = t;
            return match t {
                Tab::Log => Effect::LoadLog,
                Tab::Report => Effect::LoadReport,
                _ => Effect::Nothing,
            };
        }
        match self.active_tab {
            Tab::Dashboard => self.handle_dashboard_tab(key),
            Tab::Log => self.handle_log_tab(key),
            Tab::Report => self.handle_report_tab(key),
            Tab::Settings => self.handle_settings_tab(key),
            Tab::Pomodoro => self.handle_pomodoro_tab(key),
        }
    }

    // ── Reporting back ──────────────────────────────────────────────────────

    /// Shows an error message.
    pub fn show_error(&mut self, text: &str)
        ensures
            only_message(*old(self), *final(self), MessageKind::Error, text@),
    {
        self.message = Some(MessageOverlay::error(text));
    }

    /// The running session `s` was stopped.
    pub fn session_stopped(&mut self, s: &Session)
        ensures
            only_message(*old(self), *final(self), MessageKind::Success, stopped_text(*s)),
    {
        let mut text = String::new();
        push_str(&mut text, "Session stopped: \"");
        push_str(&mut text, s.task.as_str());
        push_str(&mut text, "\" — ");
        match s.duration() {
            Some(d) => {
                let t = format_duration(d);
                push_str(&mut text, t.as_str());
            },
            None => push_str(&mut text, "unknown"),
        }
        assert(text@ =~= stopped_text(*s));
        self.message = Some(MessageOverlay::success(text.as_str()));
    }

    /// Stopping failed: `no_active` when no session was running, otherwise
    /// with the error `err`.
    pub fn stop_failed(&mut self, no_active: bool, err: &str)
        ensures
            only_message(
                *old(self),
                *final(self),
                MessageKind::Error,
                if no_active {
                    "No active session to stop."@
                } else {
                    "Error: "@ + err@
                },
            ),
    {
        if no_active {
            self.message = Some(MessageOverlay::error("No active session to stop."));
        } else {
            let mut text = String::new();
            push_str(&mut text, "Error: ");
            push_str(&mut text, err);
            self.message = Some(MessageOverlay::error(text.as_str()));
        }
    }

    /// A freeform session for `task` was started.
    pub fn session_started(&mut self, task: &str)
        ensures
            only_message(
                *old(self),
                *final(self),
                MessageKind::Success,
                "Session started: \""@ + task@ + "\""@,
            ),
    {
        let mut text = String::new();
        push_str(&mut text, "Session started: \"");
        push_str(&mut text, task);
        push_str(&mut text, "\"");
        self.message = Some(MessageOverlay::success(text.as_str()));
    }

    /// A session was already running when one was to be started: the error
    /// names it and the time it has run, as measured now.
    pub fn session_already_running(&mut self, existing: &Session)
        ensures
            exists|now: i64|
                only_message(
                    *old(self),
                    *final(self),
                    MessageKind::Error,
                    "Session already running: \""@ + existing.task@ + "\" — elapsed: "@
                        + duration_text(#[trigger] secs_between(existing.start_time, now) as int),
                ),
    {
        let elapsed = format_elapsed(existing.start_time);
        let err = FocusError::AlreadyRunning { task: existing.task.clone(), elapsed };
        let text = err.message();
        self.message = Some(MessageOverlay::error(text.as_str()));
    }

    /// A session was renamed to `task`; `completed` is the reloaded log
    /// (oldest first). The selection stays where it was, within the first page.
    pub fn session_renamed(&mut self, task: &str, completed: Vec<Session>)
        ensures
            message_is(final(self).message, MessageKind::Success, "Renamed to \""@ + task@ + "\""@),
            final(self).log_entries@ == completed@.reverse(),
            final(self).log_page == 0,
            final(self).log_total_pages == crate::tui::app::page_count(completed@.len()),
            final(self).log_selected == (if page_len(*final(self)) == 0 {
                0
            } else if old(self).log_selected < page_len(*final(self)) - 1 {
                old(self).log_selected as int
            } else {
                page_len(*final(self)) - 1
            }),
            *final(self) == (App {
                message: final(self).message,
                log_entries: final(self).log_entries,
                log_page: 0,
                log_total_pages: final(self).log_total_pages,
                log_selected: final(self).log_selected,
                ..*old(self)
            }),
    {
        let mut text = String::new();
        push_str(&mut text, "Renamed to \"");
        push_str(&mut text, task);
        push_str(&mut text, "\"");
        self.message = Some(MessageOverlay::success(text.as_str()));
        let sel = self.log_selected;
        self.set_log_entries(completed);
        let (s, e) = self.log_page_bounds(self.log_page);
        let max = if e - s > 0 {
            e - s - 1
        } else {
            0
        };
        self.log_selected = if sel < max {
            sel
        } else {
            max
        };
    }

    /// The session `name` was deleted; `completed` is the reloaded log
    /// (oldest first). The selection stays where it was, clamped to the page.
    pub fn session_deleted(&mut self, name: &str, completed: Vec<Session>)
        ensures
            message_is(final(self).message, MessageKind::Success, "Deleted \""@ + name@ + "\""@),
            final(self).log_entries@ == completed@.reverse(),
            final(self).log_page == 0,
            final(self).log_total_pages == crate::tui::app::page_count(completed@.len()),
            final(self).log_selected == (if page_len(*final(self)) == 0 {
                0
            } else if old(self).log_selected >= page_len(*final(self)) {
                page_len(*final(self)) - 1
            } else {
                old(self).log_selected as int
            }),
            *final(self) == (App {
                message: final(self).message,
                log_entries: final(self).log_entries,
                log_page: 0,
                log_total_pages: final(self).log_total_pages,
                log_selected: final(self).log_selected,
                ..*old(self)
            }),
    {
        let mut text = String::new();
        push_str(&mut text, "Deleted \"");
        push_str(&mut text, name);
        push_str(&mut text, "\"");
        self.message = Some(MessageOverlay::success(text.as_str()));
        let prev = self.log_selected;
        self.set_log_entries(completed);
        self.log_selected = prev;
        self.clamp_log_selected();
    }

    /// Starts a Pomodoro for `task` with the durations of `config` and shows
    /// the Pomodoro tab.
    pub fn start_pomodoro(&mut self, task: String, tag: Option<String>, config: PomodoroConfig)
        ensures
            message_is(final(self).message, MessageKind::Success, "Pomodoro started!"@),
            final(self).pomodoro_timer matches Some(t) && t.phase is Work && t.completed_work == 0
                && t.remaining_secs == config.work_duration_mins * 60 && !t.paused && t.config
                == config && t.task == task && t.tag == tag,
            *final(self) == (App {
                message: final(self).message,
                pomodoro_timer: final(self).pomodoro_timer,
                active_tab: Tab::Pomodoro,
                overlay: Overlay::Hidden,
                ..*old(self)
            }),
    {
        let timer = PomodoroTimer::new(task, tag, config);
        self.pomodoro_timer = Some(timer);
        self.active_tab = Tab::Pomodoro;
        self.overlay = Overlay::Hidden;
        self.message = Some(MessageOverlay::success("Pomodoro started!"));
    }

    /// The settings were saved (`failure` None) or not: shows `success`, or
    /// `failure_prefix` followed by the error.
    pub fn config_saved(&mut self, success: &str, failure_prefix: &str, failure: Option<String>)
        ensures
            match failure {
                None => only_message(*old(self), *final(self), MessageKind::Success, success@),
                Some(err) => only_message(
                    *old(self),
                    *final(self),
                    MessageKind::Error,
                    failure_prefix@ + err@,
                ),
            },
    {
        match failure {
            None => {
                self.message = Some(MessageOverlay::success(success));
            },
            Some(err) => {
                let mut text = String::new();
                push_str(&mut text, failure_prefix);
                push_str(&mut text, err.as_str());
                self.message = Some(MessageOverlay::error(text.as_str()));
            },
        }
    }

    /// Replaces the TODO list.
    pub fn set_todos(&mut self, todos: Vec<Todo>)
        ensures
            *final(self) == (App { todos, ..*old(self) }),
    {
        self.todos = todos;
    }

    /// The TODO at `idx` was deleted and `todos` reloaded: the selection stays
    /// at that position, within the list.
    pub fn todo_deleted(&mut self, idx: usize, todos: Vec<Todo>)
        ensures
            message_is(final(self).message, MessageKind::Success, "Todo deleted."@),
            *final(self) == (App {
                message: final(self).message,
                todos: todos,
                selected_todo_idx: if todos@.len() == 0 {
                    None
                } else if idx < todos@.len() - 1 {
                    Some(idx)
                } else {
                    Some((todos@.len() - 1) as usize)
                },
                ..*old(self)
            }),
    {
        let n = todos.len();
        self.todos = todos;
        self.selected_todo_idx = if n == 0 {
            None
        } else if idx < n - 1 {
            Some(idx)
        } else {
            Some(n - 1)
        };
        self.message = Some(MessageOverlay::success("Todo deleted."));
    }

    /// The selected TODO is linked to a running session and was kept.
    pub fn todo_delete_refused(&mut self)
        ensures
            only_message(
                *old(self),
                *final(self),
                MessageKind::Error,
                "Cannot delete TODO linked to active session"@,
            ),
    {
        self.message = Some(MessageOverlay::error("Cannot delete TODO linked to active session"));
    }

    /// Replaces the running session and today's completed sessions.
    pub fn set_dashboard_data(&mut self, active: Option<Session>, today: Vec<Session>)
        ensures
            *final(self) == (App { active_session: active, today_sessions: today, ..*old(self) }),
    {
        self.active_session = active;
        self.today_sessions = today;
    }

    /// Whether report metrics computed `elapsed_secs` ago (None: never) are
    /// older than the five seconds they are kept.
    pub fn report_metrics_stale_after(&self, elapsed_secs: Option<u64>) -> (r: bool)
        ensures
            r == (match elapsed_secs {
                Some(e) => e >= 5,
                None => true,
            }),
    {
        match elapsed_secs {
            Some(e) => e >= 5,
            None => true,
        }
    }

    /// Whether the report metrics must be computed again: always when none
    /// are cached; otherwise when five seconds have passed since they were, as
    /// the monotonic clock tells, so either answer can come back.
    pub fn report_metrics_stale(&self) -> (r: bool)
        ensures
            self.report_metrics_cached_at is None ==> r,
    {
        let elapsed = match &self.report_metrics_cached_at {
            Some(t) => Some(crate::clock::secs_since(t)),
            None => None,
        };
        self.report_metrics_stale_after(elapsed)
    }

    /// Stores freshly computed report metrics, stamped now.
    pub fn store_report_metrics(&mut self, metrics: ReportMetrics)
        ensures
            final(self).report_metrics_cached_at is Some,
            *final(self) == (App {
                report_metrics: metrics,
                report_metrics_cached_at: final(self).report_metrics_cached_at,
                ..*old(self)
            }),
    {
        self.report_metrics = metrics;
        self.report_metrics_cached_at = Some(std::time::Instant::now());
    }

    /// Forces the next check to compute the report metrics again.
    pub fn invalidate_report_metrics_cache(&mut self)
        ensures
            *final(self) == (App { report_metrics_cached_at: None, ..*old(self) }),
    {
        self.report_metrics_cached_at = None;
    }

    /// Drops the message once it has been shown for its time, as the clock
    /// tells: a shown message is either dropped or kept, nothing else changes.
    pub fn expire_message(&mut self)
        ensures
            final(self).message is None || final(self).message == old(self).message,
            *final(self) == (App { message: final(self).message, ..*old(self) }),
    {
        let expired = match &self.message {
            Some(m) => m.is_expired(),
            None => false,
        };
        if expired {
            self.message = None;
        }
    }

    /// Reacts to what a timer tick reported: each phase change is announced,
    /// an abandoned Pomodoro is dropped and the dashboard shown. Returns the
    /// notices (title, body) to send, and whether to reload the dashboard.
    pub fn on_timer_events(&mut self, events: &Vec<TimerEvent>) -> (r: (Vec<(String, String)>, bool))
        ensures
            r.0@.map_values(|n: (String, String)| (n.0@, n.1@)) == notices_of(events@),
            r.1 == abandoned_in(events@),
            match timer_message(events@) {
                Some((kind, text)) => message_is(final(self).message, kind, text),
                None => final(self).message == old(self).message,
            },
            *final(self) == (if abandoned_in(events@) {
                App {
                    message: final(self).message,
                    pomodoro_timer: None,
                    active_tab: Tab::Dashboard,
                    ..*old(self)
                }
            } else {
                App { message: final(self).message, ..*old(self) }
            }),
    {
        let mut notices: Vec<(String, String)> = Vec::new();
        let mut reload = false;
        let ghost start = *self;
        let mut i: usize = 0;
        while i < events.len()
            invariant
                i <= events@.len(),
                notices@.map_values(|n: (String, String)| (n.0@, n.1@)) == notices_of(
                    events@.take(i as int),
                ),
                reload == abandoned_in(events@.take(i as int)),
                match timer_message(events@.take(i as int)) {
                    Some((kind, text)) => message_is(self.message, kind, text),
                    None => self.message == start.message,
                },
                *self == (if reload {
                    App {
                        message: self.message,
                        pomodoro_timer: None,
                        active_tab: Tab::Dashboard,
                        ..start
                    }
                } else {
                    App { message: self.message, ..start }
                }),
            decreases events@.len() - i,
        {
            let ghost prefix = events@.take(i as int);
            assert(events@.take(i + 1).drop_last() =~= prefix);
            assert(events@.take(i + 1).last() == events@[i as int]);
            match events[i] {
                TimerEvent::PhaseComplete { to, .. } => {
                    let (title, body) = match to {
                        PomodoroPhase::Work => ("Focus!", "Break over — time to work."),
                        PomodoroPhase::Break => ("Break time!", "Work phase complete."),
                        PomodoroPhase::LongBreak => ("Long break!", "Take a longer rest."),
                    };
                    self.message = Some(MessageOverlay::success(body));
                    notices.push((title.to_owned(), body.to_owned()));
                    assert(notices@.map_values(|n: (String, String)| (n.0@, n.1@)) =~= notices_of(
                        events@.take(i + 1),
                    ));
                },
                TimerEvent::AutoAbandoned { .. } => {
                    self.pomodoro_timer = None;
                    self.active_tab = Tab::Dashboard;
                    self.message = Some(MessageOverlay::error("Pomodoro abandoned: paused too long."));
                    reload = true;
                },
                _ => {},
            }
            proof {
                let next = events@.take(i + 1);
                if events@[i as int] is AutoAbandoned {
                    assert(next[i as int] is AutoAbandoned);
                }
                if abandoned_in(prefix) {
                    let w = choose|j: int| 0 <= j < prefix.len() && #[trigger] prefix[j] is AutoAbandoned;
                    assert(next[w] == prefix[w]);
                }
                if abandoned_in(next) {
                    let w = choose|j: int| 0 <= j < next.len() && #[trigger] next[j] is AutoAbandoned;
                    if w < i {
                        assert(prefix[w] == next[w]);
                    }
                }
            }
            i = i + 1;
        }
        assert(events@.take(events@.len() as int) =~= events@);
        (notices, reload)
    }
}

} // verus!
