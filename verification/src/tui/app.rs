//! State of the interactive dashboard.
use vstd::prelude::*;
use std::time::Instant;
use crate::clock::secs_since;
use crate::config::AppConfig;
use crate::models::session::Session;
use crate::models::todo::Todo;
use crate::pomodoro::config::PomodoroConfig;
use crate::pomodoro::timer::PomodoroTimer;
use crate::text::{chars_of, cursor_at, is_ascii_digit, lemma_utf8_len_empty, string_of, string_of_range, utf8_len};
use crate::tui::keyboard::{KeyContext, KeyHandler};
use crate::tui::keys::Key;
use crate::tui::report::ReportMetrics;
use crate::tui::text_input::{input_is, input_wf, TextInput, VimInputMode};

verus! {

// ── Message overlay ─────────────────────────────────────────────────────────

/// How a message is shown.
#[derive(Debug, Clone, Copy, PartialEq, Eq, Structural)]
pub enum MessageKind {
    Success,
    Warning,
    Error,
}

/// A transient message, dismissed automatically after a few seconds.
#[derive(Debug, Clone)]
pub struct MessageOverlay {
    pub text: String,
    pub kind: MessageKind,
    pub shown_at: Instant,
    pub auto_dismiss_secs: u64,
}

/// Seconds a message of each kind stays: errors 3, others 2.
pub open spec fn dismiss_secs(kind: MessageKind) -> u64 {
    match kind {
        MessageKind::Error => 3,
        _ => 2,
    }
}

/// `m` holds a message of kind `kind` with text `text`, shown for the usual time.
pub open spec fn message_is(m: Option<MessageOverlay>, kind: MessageKind, text: Seq<char>) -> bool {
    &&& m matches Some(o)
    &&& o.kind == kind
    &&& o.text@ == text
    &&& o.auto_dismiss_secs == dismiss_secs(kind)
}

/// A message shown `elapsed` seconds ago has expired.
pub open spec fn expired_after(m: MessageOverlay, elapsed: u64) -> bool {
    elapsed >= m.auto_dismiss_secs
}

impl MessageOverlay {
    fn shown_now(text: &str, kind: MessageKind) -> (r: Self)
        ensures
            r.text@ == text@,
            r.kind == kind,
            r.auto_dismiss_secs == dismiss_secs(kind),
    {
        let secs: u64 = match kind {
            MessageKind::Error => 3,
            _ => 2,
        };
        MessageOverlay {
            text: text.to_owned(),
            kind,
            shown_at: Instant::now(),
            auto_dismiss_secs: secs,
        }
    }

    /// A success message, shown for two seconds from now.
    pub fn success(text: &str) -> (r: Self)
        ensures
            message_is(Some(r), MessageKind::Success, text@),
    {
        Self::shown_now(text, MessageKind::Success)
    }

    /// A warning, shown for two seconds from now.
    pub fn warning(text: &str) -> (r: Self)
        ensures
            message_is(Some(r), MessageKind::Warning, text@),
    {
        Self::shown_now(text, MessageKind::Warning)
    }

    /// An error, shown for three seconds from now.
    pub fn error(text: &str) -> (r: Self)
        ensures
            message_is(Some(r), MessageKind::Error, text@),
    {
        Self::shown_now(text, MessageKind::Error)
    }

    /// Whether a message shown `elapsed_secs` ago has expired.
    pub fn is_expired_after(&self, elapsed_secs: u64) -> (r: bool)
        ensures
            r == expired_after(*self, elapsed_secs),
    {
        elapsed_secs >= self.auto_dismiss_secs
    }

    /// Whether the message has been shown for its whole time, by the clock.
    pub fn is_expired(&self) -> (r: bool)
        ensures
            exists|e: u64| r == #[trigger] expired_after(*self, e),
    {
        let e = secs_since(&self.shown_at);
        self.is_expired_after(e)
    }
}

// ── Tabs and overlays ───────────────────────────────────────────────────────

/// The dashboard's tabs, in the order Tab cycles through them.
#[derive(Debug, Clone, Copy, PartialEq, Eq, Structural)]
pub enum Tab {
    Dashboard,
    Log,
    Report,
    Settings,
    Pomodoro,
}

/// What a prompt's text is for.
#[derive(Debug, Clone, PartialEq)]
pub enum PromptAction {
    AddTodo,
    StartSession,
    /// Second step: the task name is known, the optional tag is asked for.
    StartSessionTag { task: String },
    RenameSession { id: i64 },
    /// First step of a Pomodoro: the task name.
    StartPomodoroName,
    /// Second step of a Pomodoro: the optional tag.
    StartPomodoroTag { task: String },
}

/// The dialog drawn over the current tab, if any.
#[derive(Debug, Clone, PartialEq)]
pub enum Overlay {
    /// No dialog.
    Hidden,
    Prompt { label: String, value: String, action: PromptAction },
    ConfirmDelete { session_id: i64, session_name: String },
    Help,
    /// Freeform or Pomodoro, on starting a session: cursor 0 is Freeform.
    ModeSelector { cursor: usize },
    /// Confirm stopping a Pomodoro during a work phase.
    PomodoroConfirmStop,
}

impl Overlay {
    /// Whether a dialog is shown.
    pub fn is_active(&self) -> (r: bool)
        ensures
            r == !(*self is Hidden),
    {
        match self {
            Overlay::Hidden => false,
            _ => true,
        }
    }
}

// ── App ─────────────────────────────────────────────────────────────────────

/// Sessions per page of the log tab.
pub const LOG_PAGE_SIZE: usize = 10;

/// Rows of the settings tab: vim mode and the four Pomodoro durations.
pub const SETTINGS_ROW_COUNT: usize = 5;

/// Everything the dashboard shows and edits.
pub struct App {
    pub active_tab: Tab,
    pub overlay: Overlay,
    pub log_selected: usize,
    pub config: AppConfig,
    pub log_page: usize,
    pub active_session: Option<Session>,
    pub today_sessions: Vec<Session>,
    /// Completed sessions, newest first.
    pub log_entries: Vec<Session>,
    pub log_total_pages: usize,
    pub message: Option<MessageOverlay>,
    pub quit_pending: bool,
    pub no_color: bool,
    /// The running Pomodoro, if any.
    pub pomodoro_timer: Option<PomodoroTimer>,
    /// Pomodoro durations edited in the settings tab.
    pub pomo_config: PomodoroConfig,
    /// Selected settings row (0 vim mode, 1 work, 2 break, 3 long break, 4 long break after).
    pub settings_selected: usize,
    pub todos: Vec<Todo>,
    pub selected_todo_idx: Option<usize>,
    /// Whether keys go to the TODO title input.
    pub todo_input_mode: bool,
    /// The TODO title being typed.
    pub todo_input: TextInput,
    /// Vim-aware text input of the prompt dialogs.
    pub prompt_input: TextInput,
    pub keyboard_handler: KeyHandler,
    pub report_metrics: ReportMetrics,
    /// When the report metrics were last computed (they are kept 5 seconds).
    pub report_metrics_cached_at: Option<Instant>,
    /// Time window shown by the report tab (0 today, 1 week, 2 all time).
    pub report_selected_window: usize,
    /// Whether the dashboard shows the full-screen Pomodoro panel.
    pub full_pomodoro_panel: bool,
    pub clock_prev_str: String,
    pub clock_curr_str: String,
    /// Fade frame per clock character: 0 idle, 1–6 fading.
    pub clock_anim_frame: Vec<u8>,
    pub pomo_clock_prev_str: String,
    pub pomo_clock_curr_str: String,
    pub pomo_clock_anim_frame: Vec<u8>,
}

/// Start and end (exclusive) of page `page` of `n` log entries.
pub open spec fn page_bounds(n: nat, page: nat) -> (nat, nat) {
    if page * 10 >= n {
        (0, 0)
    } else if page * 10 + 10 <= n {
        (page * 10, page * 10 + 10)
    } else {
        (page * 10, n)
    }
}

/// Number of entries on the current log page.
pub open spec fn page_len(a: App) -> nat {
    let (s, e) = page_bounds(a.log_entries@.len(), a.log_page as nat);
    (e - s) as nat
}

/// Number of log pages for `n` entries (at least one).
pub open spec fn page_count(n: nat) -> nat {
    if n == 0 {
        1
    } else {
        (n + 9) / 10
    }
}

/// The state the key handlers rely on: both text inputs sit on character
/// boundaries of buffers that fit in memory.
pub open spec fn app_wf(a: App) -> bool {
    &&& input_wf(a.prompt_input)
    &&& input_wf(a.todo_input)
}

/// Whether `key` (with Control held or not) can be handled in state `a`:
/// deleting or renaming from a non-empty log page needs the selection on
/// the page, and extending a Pomodoro needs room for five more minutes
/// (other keys need nothing).
pub open spec fn key_allowed(a: App, key: Key, ctrl: bool) -> bool {
    (!(ctrl && key == Key::Char('c')) && a.overlay is Hidden) ==> {
        &&& (a.active_tab == Tab::Log && (key == Key::Char('d') || key == Key::Char('D') || key
            == Key::Char('r') || key == Key::Char('R')) && page_len(a) > 0) ==> a.log_selected
            < page_len(a)
        &&& (a.active_tab == Tab::Pomodoro && key == Key::Char('+')) ==> (a.pomodoro_timer matches Some(
            t,
        ) ==> t.remaining_secs + 300 <= u64::MAX)
    }
}

/// The first `max_chars` characters of `s`, with "…" in place of the last
/// one kept when `s` is longer.
pub open spec fn truncated(s: Seq<char>, max_chars: nat) -> Seq<char> {
    if max_chars == 0 {
        Seq::empty()
    } else if s.len() <= max_chars {
        s
    } else {
        s.take(max_chars - 1) + seq!['…']
    }
}

/// One step of the digit fade animation: the new string, the previous one,
/// and the frames, after showing `new_s` where `curr`, `prev` and `frames`
/// were.
pub open spec fn anim_step(curr: Seq<char>, prev: Seq<char>, frames: Seq<u8>, new_s: Seq<char>) -> (
    Seq<char>,
    Seq<char>,
    Seq<u8>,
) {
    if new_s != curr {
        (
            new_s,
            curr,
            Seq::new(
                frames.len(),
                |i: int|
                    {
                        let pch = if i < curr.len() {
                            curr[i]
                        } else {
                            ' '
                        };
                        if i < new_s.len() && pch != new_s[i] && '0' <= pch <= '9' && '0'
                            <= new_s[i] <= '9' {
                            1u8
                        } else {
                            frames[i]
                        }
                    },
            ),
        )
    } else {
        (
            curr,
            prev,
            Seq::new(
                frames.len(),
                |i: int|
                    if frames[i] == 0 {
                        0u8
                    } else if frames[i] >= 6 {
                        0u8
                    } else {
                        (frames[i] + 1) as u8
                    },
            ),
        )
    }
}

/// Truncates `s` to `max_chars` characters, ending with "…" when cut.
pub fn truncate_to(s: &str, max_chars: usize) -> (r: String)
    ensures
        r@ == truncated(s@, max_chars as nat),
{
    if max_chars == 0 {
        return String::new();
    }
    let chars = chars_of(s);
    if chars.len() <= max_chars {
        return string_of(&chars);
    }
    let mut out = string_of_range(&chars, 0, max_chars - 1);
    out.push('…');
    assert(chars@.subrange(0, max_chars - 1) =~= s@.take(max_chars - 1));
    assert(out@ =~= truncated(s@, max_chars as nat));
    out
}

fn advance_anim(curr: &mut String, prev: &mut String, frames: &mut Vec<u8>, new_str: &str)
    ensures
        (final(curr)@, final(prev)@, final(frames)@) == anim_step(
            old(curr)@,
            old(prev)@,
            old(frames)@,
            new_str@,
        ),
{
    let ghost f0 = frames@;
    let ghost c0 = curr@;
    let current = curr.clone();
    if !crate::text::str_eq(new_str, current.as_str()) {
        let prev_chars = chars_of(current.as_str());
        let new_chars = chars_of(new_str);
        *prev = current;
        *curr = string_of(&new_chars);
        let n = frames.len();
        let mut i: usize = 0;
        while i < n
            invariant
                i <= n,
                n == frames@.len(),
                n == f0.len(),
                prev_chars@ == c0,
                new_chars@ == new_str@,
                new_str@ != c0,
                forall|j: int|
                    0 <= j < i ==> #[trigger] frames@[j] == anim_step(c0, c0, f0, new_str@).2[j],
                forall|j: int| i <= j < n ==> #[trigger] frames@[j] == f0[j],
            decreases n - i,
        {
            if i < new_chars.len() {
                let nch = new_chars[i];
                let pch = if i < prev_chars.len() {
                    prev_chars[i]
                } else {
                    ' '
                };
                if pch != nch && is_ascii_digit(pch) && is_ascii_digit(nch) {
                    frames.set(i, 1);
                }
            }
            i = i + 1;
        }
        assert(frames@ =~= anim_step(c0, old(prev)@, f0, new_str@).2);
    } else {
        let n = frames.len();
        let mut i: usize = 0;
        while i < n
            invariant
                i <= n,
                n == frames@.len(),
                n == f0.len(),
                forall|j: int|
                    0 <= j < i ==> #[trigger] frames@[j] == anim_step(c0, c0, f0, c0).2[j],
                forall|j: int| i <= j < n ==> #[trigger] frames@[j] == f0[j],
            decreases n - i,
        {
            let f = frames[i];
            if f > 0 {
                if f >= 6 {
                    frames.set(i, 0);
                } else {
                    frames.set(i, f + 1);
                }
            }
            i = i + 1;
        }
        assert(frames@ =~= anim_step(c0, old(prev)@, f0, new_str@).2);
    }
}

impl App {
    /// A fresh dashboard on the Dashboard tab.
    pub fn new(no_color: bool, config: AppConfig) -> (r: Self)
        ensures
            r.active_tab == Tab::Dashboard,
            r.overlay is Hidden,
            r.log_selected == 0,
            r.log_page == 0,
            r.log_total_pages == 1,
            r.log_entries@.len() == 0,
            r.active_session is None,
            r.message is None,
            !r.quit_pending,
            r.no_color == no_color,
            r.pomodoro_timer is None,
            r.settings_selected == 0,
            r.todos@.len() == 0,
            r.selected_todo_idx is None,
            !r.todo_input_mode,
            r.config == config,
            r.today_sessions@.len() == 0,
            r.pomo_config == (PomodoroConfig {
                work_duration_mins: 25,
                break_duration_mins: 5,
                long_break_duration_mins: 15,
                long_break_after: 4,
            }),
            r.todo_input.buffer@.len() == 0 && r.todo_input.cursor_pos == 0,
            r.todo_input.vim_mode == VimInputMode::Insert && r.todo_input.vim_enabled == config.vim_mode,
            r.prompt_input.buffer@.len() == 0 && r.prompt_input.cursor_pos == 0,
            r.prompt_input.vim_mode == VimInputMode::Insert && r.prompt_input.vim_enabled == config.vim_mode,
            r.keyboard_handler.vim() == config.vim_mode,
            r.keyboard_handler.ctx() == KeyContext::Viewing,
            r.keyboard_handler.d_pending() is None && r.keyboard_handler.g_pending() is None,
            r.report_metrics.count_today == 0 && r.report_metrics.count_week == 0
                && r.report_metrics.count_all_time == 0,
            r.report_metrics.total_duration_today == 0 && r.report_metrics.total_duration_week == 0
                && r.report_metrics.total_duration_all_time == 0,
            r.report_metrics.completion_rate == 0 && r.report_metrics.focus_streak_days == 0,
            r.report_selected_window == 0,
            r.clock_prev_str@ == "--:--:--"@,
            r.pomo_clock_prev_str@ == "--:--"@,
            r.report_metrics_cached_at is None,
            !r.full_pomodoro_panel,
            r.clock_curr_str@ == "--:--:--"@,
            r.clock_anim_frame@ == seq![0u8, 0, 0, 0, 0, 0, 0, 0],
            r.pomo_clock_curr_str@ == "--:--"@,
            r.pomo_clock_anim_frame@ == seq![0u8, 0, 0, 0, 0],
            app_wf(r),
    {
        let vim_mode = config.vim_mode;
        App {
            active_tab: Tab::Dashboard,
            overlay: Overlay::Hidden,
            log_selected: 0,
            config,
            log_page: 0,
            active_session: None,
            today_sessions: Vec::new(),
            log_entries: Vec::new(),
            log_total_pages: 1,
            message: None,
            quit_pending: false,
            no_color,
            pomodoro_timer: None,
            pomo_config: PomodoroConfig::default(),
            settings_selected: 0,
            todos: Vec::new(),
            selected_todo_idx: None,
            todo_input_mode: false,
            todo_input: TextInput::new(vim_mode),
            prompt_input: TextInput::new(vim_mode),
            keyboard_handler: KeyHandler::new(vim_mode),
            report_metrics: ReportMetrics::default(),
            report_metrics_cached_at: None,
            report_selected_window: 0,
            full_pomodoro_panel: false,
            clock_prev_str: "--:--:--".to_owned(),
            clock_curr_str: "--:--:--".to_owned(),
            clock_anim_frame: vec![0u8, 0, 0, 0, 0, 0, 0, 0],
            pomo_clock_prev_str: "--:--".to_owned(),
            pomo_clock_curr_str: "--:--".to_owned(),
            pomo_clock_anim_frame: vec![0u8, 0, 0, 0, 0],
        }
    }

    /// Start and end (exclusive) of page `page` of the log.
    pub fn log_page_bounds(&self, page: usize) -> (r: (usize, usize))
        ensures
            (r.0 as nat, r.1 as nat) == page_bounds(self.log_entries@.len(), page as nat),
    {
        let n = self.log_entries.len();
        if page >= n / 10 + 1 || page * 10 >= n {
            (0, 0)
        } else if n - page * 10 >= 10 {
            (page * 10, page * 10 + 10)
        } else {
            (page * 10, n)
        }
    }

    /// The log entries on page `page` (0-based).
    pub fn log_page_entries(&self, page: usize) -> (r: &[Session])
        ensures
            ({
                let (s, e) = page_bounds(self.log_entries@.len(), page as nat);
                r@ == self.log_entries@.subrange(s as int, e as int)
            }),
    {
        let (s, e) = self.log_page_bounds(page);
        vstd::slice::slice_subrange(self.log_entries.as_slice(), s, e)
    }

    /// Replaces the log with `completed` (oldest first), shown newest first
    /// from the first page.
    pub fn set_log_entries(&mut self, completed: Vec<Session>)
        ensures
            final(self).log_entries@ == completed@.reverse(),
            final(self).log_total_pages == page_count(completed@.len()),
            *final(self) == (App {
                log_entries: final(self).log_entries,
                log_total_pages: final(self).log_total_pages,
                log_selected: 0,
                log_page: 0,
                ..*old(self)
            }),
    {
        let n = completed.len();
        let mut rev: Vec<Session> = Vec::new();
        let mut i: usize = n;
        let mut src = completed;
        while i > 0
            invariant
                i <= n,
                src@.len() == i,
                src@ == completed@.take(i as int),
                rev@ == completed@.reverse().take((n - i) as int),
                n == completed@.len(),
            decreases i,
        {
            let s = src.pop().unwrap();
            rev.push(s);
            assert(src@ =~= completed@.take(i - 1));
            assert(rev@ =~= completed@.reverse().take((n - i + 1) as int));
            i = i - 1;
        }
        assert(rev@ =~= completed@.reverse());
        self.log_entries = rev;
        self.log_total_pages = if n == 0 {
            1
        } else {
            n / 10 + if n % 10 == 0 {
                0
            } else {
                1
            }
        };
        self.log_selected = 0;
        self.log_page = 0;
    }

    /// Keeps the log selection on the current page.
    pub fn clamp_log_selected(&mut self)
        ensures
            *final(self) == (App {
                log_selected: if page_len(*old(self)) == 0 {
                    0
                } else if old(self).log_selected >= page_len(*old(self)) {
                    (page_len(*old(self)) - 1) as usize
                } else {
                    old(self).log_selected
                },
                ..*old(self)
            }),
    {
        let (s, e) = self.log_page_bounds(self.log_page);
        let n = e - s;
        if n == 0 {
            self.log_selected = 0;
        } else if self.log_selected >= n {
            self.log_selected = n - 1;
        }
    }

    /// Whether a Pomodoro is running.
    pub fn has_active_pomodoro(&self) -> (r: bool)
        ensures
            r == self.pomodoro_timer is Some,
    {
        self.pomodoro_timer.is_some()
    }

    /// Opens a prompt dialog labelled `label` for `action`, its text input
    /// following the vim setting and either emptied or holding `initial`,
    /// with the cursor at its end.
    pub fn open_prompt(&mut self, label: &str, initial: &str, action: PromptAction)
        requires
            utf8_len(initial@) <= usize::MAX,
        ensures
            final(self).overlay matches Overlay::Prompt { label: l, value: v, action: a }
                && l@ == label@ && v@ == initial@ && a == action,
            input_is(
                final(self).prompt_input,
                initial@,
                initial@.len(),
                VimInputMode::Insert,
                old(self).config.vim_mode,
            ),
            *final(self) == (App {
                overlay: final(self).overlay,
                prompt_input: final(self).prompt_input,
                ..*old(self)
            }),
            app_wf(*old(self)) ==> app_wf(*final(self)),
    {
        self.prompt_input.set_vim_enabled(self.config.vim_mode);
        if initial.is_empty() {
            self.prompt_input.reset();
            proof {
                lemma_utf8_len_empty();
                assert(self.prompt_input.buffer@ =~= initial@);
                assert(cursor_at(initial@, 0, 0));
            }
        } else {
            self.prompt_input.set_value(initial);
        }
        self.overlay = Overlay::Prompt {
            label: label.to_owned(),
            value: initial.to_owned(),
            action,
        };
    }

    /// Advances the fade animation of the HH:MM:SS clock to show `new_str`.
    pub fn advance_clock_anim(&mut self, new_str: &str)
        ensures
            (final(self).clock_curr_str@, final(self).clock_prev_str@,
                final(self).clock_anim_frame@) == anim_step(
                old(self).clock_curr_str@,
                old(self).clock_prev_str@,
                old(self).clock_anim_frame@,
                new_str@,
            ),
    {
        advance_anim(
            &mut self.clock_curr_str,
            &mut self.clock_prev_str,
            &mut self.clock_anim_frame,
            new_str,
        );
    }

    /// Advances the fade animation of the Pomodoro MM:SS clock to show `new_str`.
    pub fn advance_pomo_clock_anim(&mut self, new_str: &str)
        ensures
            (final(self).pomo_clock_curr_str@, final(self).pomo_clock_prev_str@,
                final(self).pomo_clock_anim_frame@) == anim_step(
                old(self).pomo_clock_curr_str@,
                old(self).pomo_clock_prev_str@,
                old(self).pomo_clock_anim_frame@,
                new_str@,
            ),
    {
        advance_anim(
            &mut self.pomo_clock_curr_str,
            &mut self.pomo_clock_prev_str,
            &mut self.pomo_clock_anim_frame,
            new_str,
        );
    }
}

} // verus!
