//! Context-aware key bindings of the dashboard.
//!
//! In the viewing context, keys navigate (with optional vim bindings, where
//! `dd` deletes and `gg` jumps to the top when the second key follows within a
//! second); in the input context every key but Esc goes to the text input.
use vstd::prelude::*;
use std::time::Instant;
use crate::clock::millis_since;
use crate::tui::keys::Key;

verus! {

/// Which keys are active.
#[derive(Debug, Clone, Copy, PartialEq, Eq, Structural)]
pub enum KeyContext {
    /// Viewing: navigation shortcuts are active.
    Viewing,
    /// Input: text entry is active, shortcuts are off.
    Input,
}

/// Tab navigation targets.
#[derive(Debug, Clone, Copy, PartialEq, Eq, Structural)]
pub enum TabTarget {
    Dashboard,
    Sessions,
    TODOs,
}

/// What a key press asks for.
#[derive(Debug, Clone, Copy, PartialEq, Eq, Structural)]
pub enum KeyAction {
    /// Go to a tab.
    NavigateTab(TabTarget),
    /// Focus a panel (0-based).
    FocusPanel(usize),
    FocusLeft,
    FocusRight,
    FocusUp,
    FocusDown,
    /// Delete the selected item.
    DeleteItem,
    /// Jump to the first item (vim `gg`).
    JumpTop,
    /// Jump to the last item (vim `G`).
    JumpBottom,
    /// Leave text input (Esc).
    CancelInput,
    /// A key for the text input.
    InputKeypress(Key),
    /// Nothing.
    NoAction,
}

/// Milliseconds within which the second key of `dd` or `gg` must follow.
pub const VIM_COMMAND_TIMEOUT_MS: u128 = 1000;

/// Key handler: the binding set, the context, and the pending first key of a
/// vim two-key command with the moment it was pressed.
#[derive(Debug)]
pub struct KeyHandler {
    vim_mode: bool,
    context: KeyContext,
    pending_d: Option<Instant>,
    pending_g: Option<Instant>,
}

impl KeyHandler {
    /// Whether vim bindings are on.
    pub closed spec fn vim(&self) -> bool {
        self.vim_mode
    }

    /// The current context.
    pub closed spec fn ctx(&self) -> KeyContext {
        self.context
    }

    /// When the pending `d` of a `dd` was pressed, if one is pending.
    pub closed spec fn d_pending(&self) -> Option<Instant> {
        self.pending_d
    }

    /// When the pending `g` of a `gg` was pressed, if one is pending.
    pub closed spec fn g_pending(&self) -> Option<Instant> {
        self.pending_g
    }
}

/// Whether a pending key pressed `elapsed` milliseconds ago (None: not
/// measured) is still within the timeout.
pub open spec fn within_timeout(elapsed: Option<u128>) -> bool {
    elapsed matches Some(ms) && ms < VIM_COMMAND_TIMEOUT_MS
}

/// The age `ms` of a pending key, when one is pending.
pub open spec fn measured(pending: Option<Instant>, ms: u128) -> Option<u128> {
    if pending is Some {
        Some(ms)
    } else {
        None
    }
}

/// The action of `key` and the pending `d` and `g` afterwards, where
/// `d_elapsed` and `g_elapsed` are the milliseconds since the pending `d` and
/// `g` were pressed, and `now` is the moment of the key press.
pub open spec fn key_outcome(
    vim: bool,
    ctx: KeyContext,
    d: Option<Instant>,
    g: Option<Instant>,
    key: Key,
    d_elapsed: Option<u128>,
    g_elapsed: Option<u128>,
    now: Instant,
) -> (KeyAction, Option<Instant>, Option<Instant>) {
    if ctx == KeyContext::Input {
        (if key == Key::Esc {
            KeyAction::CancelInput
        } else {
            KeyAction::InputKeypress(key)
        }, d, g)
    } else {
        match key {
            Key::Delete | Key::Backspace => (KeyAction::DeleteItem, None, None),
            Key::Char(c) => if c == 'd' && vim {
                if d is Some && within_timeout(d_elapsed) {
                    (KeyAction::DeleteItem, None, g)
                } else {
                    (KeyAction::NoAction, Some(now), g)
                }
            } else if c == 'd' {
                (KeyAction::NavigateTab(TabTarget::Dashboard), d, g)
            } else if c == 's' {
                (KeyAction::NavigateTab(TabTarget::Sessions), d, g)
            } else if c == 't' {
                (KeyAction::NavigateTab(TabTarget::TODOs), d, g)
            } else if c == '1' {
                (KeyAction::FocusPanel(0), d, g)
            } else if c == '2' {
                (KeyAction::FocusPanel(1), d, g)
            } else if c == '3' {
                (KeyAction::FocusPanel(2), d, g)
            } else if vim && c == 'h' {
                (KeyAction::FocusLeft, d, g)
            } else if vim && c == 'j' {
                (KeyAction::FocusDown, d, g)
            } else if vim && c == 'k' {
                (KeyAction::FocusUp, d, g)
            } else if vim && c == 'l' {
                (KeyAction::FocusRight, d, g)
            } else if vim && c == 'G' {
                (KeyAction::JumpBottom, d, None)
            } else if vim && c == 'g' {
                if g is Some && within_timeout(g_elapsed) {
                    (KeyAction::JumpTop, d, None)
                } else {
                    (KeyAction::NoAction, d, Some(now))
                }
            } else {
                (KeyAction::NoAction, d, g)
            },
            Key::Left => (if vim {
                KeyAction::NoAction
            } else {
                KeyAction::FocusLeft
            }, d, g),
            Key::Right => (if vim {
                KeyAction::NoAction
            } else {
                KeyAction::FocusRight
            }, d, g),
            Key::Up => (if vim {
                KeyAction::NoAction
            } else {
                KeyAction::FocusUp
            }, d, g),
            Key::Down => (if vim {
                KeyAction::NoAction
            } else {
                KeyAction::FocusDown
            }, d, g),
            _ => (KeyAction::NoAction, d, g),
        }
    }
}

/// `after` is `before` having handled `key` with the given ages of the
/// pending keys and moment of the press, and `action` is what it returned.
pub open spec fn key_step(
    before: KeyHandler,
    key: Key,
    d_elapsed: Option<u128>,
    g_elapsed: Option<u128>,
    now: Instant,
    after: KeyHandler,
    action: KeyAction,
) -> bool {
    let (a, d, g) = key_outcome(
        before.vim(),
        before.ctx(),
        before.d_pending(),
        before.g_pending(),
        key,
        d_elapsed,
        g_elapsed,
        now,
    );
    &&& action == a
    &&& after.vim() == before.vim()
    &&& after.ctx() == before.ctx()
    &&& after.d_pending() == d
    &&& after.g_pending() == g
}

/// `after` is `before` switched to context `c`, with nothing else changed.
pub open spec fn context_set(before: KeyHandler, c: KeyContext, after: KeyHandler) -> bool {
    &&& after.ctx() == c
    &&& after.vim() == before.vim()
    &&& after.d_pending() == before.d_pending()
    &&& after.g_pending() == before.g_pending()
}

/// Over any sequence of context switches `cs` taking `hs[0]` to `hs.last()`,
/// the context is the last one set (the starting one when none was), and the
/// bindings and pending keys are untouched.
pub proof fn law_context_is_the_last_set(cs: Seq<KeyContext>, hs: Seq<KeyHandler>)
    requires
        hs.len() == cs.len() + 1,
        forall|i: int| 0 <= i < cs.len() ==> #[trigger] context_set(hs[i], cs[i], hs[i + 1]),
    ensures
        hs.last().ctx() == (if cs.len() == 0 {
            hs[0].ctx()
        } else {
            cs.last()
        }),
        hs.last().vim() == hs[0].vim(),
        hs.last().d_pending() == hs[0].d_pending(),
        hs.last().g_pending() == hs[0].g_pending(),
    decreases cs.len(),
{
    if cs.len() > 0 {
        let n = cs.len() - 1;
        assert(context_set(hs[n], cs[n], hs[n + 1]));
        law_context_is_the_last_set(cs.drop_last(), hs.drop_last());
    }
}

/// With vim bindings, in the viewing context and with no `d` pending, a `d`
/// followed by a second `d` less than a second later deletes the selected item.
pub proof fn law_dd_deletes(
    h0: KeyHandler,
    f1: Option<u128>,
    g1: Option<u128>,
    t1: Instant,
    h1: KeyHandler,
    a1: KeyAction,
    ms: u128,
    g2: Option<u128>,
    t2: Instant,
    h2: KeyHandler,
    a2: KeyAction,
)
    requires
        h0.vim(),
        h0.ctx() == KeyContext::Viewing,
        h0.d_pending() is None,
        key_step(h0, Key::Char('d'), f1, g1, t1, h1, a1),
        ms < 1000,
        key_step(h1, Key::Char('d'), Some(ms), g2, t2, h2, a2),
    ensures
        a2 == KeyAction::DeleteItem,
        h2.d_pending() is None,
{
}

/// With vim bindings, in the viewing context and with no `g` pending, a `g`
/// followed by a second `g` less than a second later jumps to the top.
pub proof fn law_gg_jumps_top(
    h0: KeyHandler,
    f1: Option<u128>,
    g1: Option<u128>,
    t1: Instant,
    h1: KeyHandler,
    a1: KeyAction,
    f2: Option<u128>,
    ms: u128,
    t2: Instant,
    h2: KeyHandler,
    a2: KeyAction,
)
    requires
        h0.vim(),
        h0.ctx() == KeyContext::Viewing,
        h0.g_pending() is None,
        key_step(h0, Key::Char('g'), f1, g1, t1, h1, a1),
        ms < 1000,
        key_step(h1, Key::Char('g'), f2, Some(ms), t2, h2, a2),
    ensures
        a2 == KeyAction::JumpTop,
        h2.g_pending() is None,
{
}

/// In the input context every key but Esc goes to the text input, nothing
/// becomes pending, and the handler stays in the input context.
pub proof fn law_input_context_passes_keys(
    h0: KeyHandler,
    key: Key,
    f: Option<u128>,
    g: Option<u128>,
    t: Instant,
    h1: KeyHandler,
    a: KeyAction,
)
    requires
        h0.ctx() == KeyContext::Input,
        key_step(h0, key, f, g, t, h1, a),
    ensures
        a == (if key == Key::Esc {
            KeyAction::CancelInput
        } else {
            KeyAction::InputKeypress(key)
        }),
        h1.ctx() == KeyContext::Input,
        h1.d_pending() == h0.d_pending(),
        h1.g_pending() == h0.g_pending(),
{
}

impl KeyHandler {
    /// A handler in the viewing context, nothing pending.
    pub fn new(vim_mode: bool) -> (r: Self)
        ensures
            r.vim() == vim_mode,
            r.ctx() == KeyContext::Viewing,
            r.d_pending() is None,
            r.g_pending() is None,
    {
        KeyHandler { vim_mode, context: KeyContext::Viewing, pending_d: None, pending_g: None }
    }

    /// Switches the context.
    pub fn set_context(&mut self, context: KeyContext)
        ensures
            context_set(*old(self), context, *final(self)),
    {
        self.context = context;
    }

    /// The current context.
    pub fn get_context(&self) -> (r: KeyContext)
        ensures
            r == self.ctx(),
    {
        self.context
    }

    /// Handles `key` given the milliseconds since the pending `d` and `g` were
    /// pressed (None where not measured) and the moment `now` of the press; a
    /// pending key counts while less than `VIM_COMMAND_TIMEOUT_MS` have passed.
    pub fn handle_key_at(
        &mut self,
        key: Key,
        d_elapsed_ms: Option<u128>,
        g_elapsed_ms: Option<u128>,
        now: Instant,
    ) -> (r: KeyAction)
        ensures
            key_step(*old(self), key, d_elapsed_ms, g_elapsed_ms, now, *final(self), r),
    {
        let d_fresh = match d_elapsed_ms {
            Some(ms) => ms < VIM_COMMAND_TIMEOUT_MS,
            None => false,
        };
        let g_fresh = match g_elapsed_ms {
            Some(ms) => ms < VIM_COMMAND_TIMEOUT_MS,
            None => false,
        };
        if self.context == KeyContext::Input {
            if key == Key::Esc {
                return KeyAction::CancelInput;
            }
            return KeyAction::InputKeypress(key);
        }
        match key {
            Key::Delete | Key::Backspace => {
                self.pending_d = None;
                self.pending_g = None;
                KeyAction::DeleteItem
            },
            Key::Char(c) => {
                if c == 'd' && self.vim_mode {
                    if self.pending_d.is_some() && d_fresh {
                        self.pending_d = None;
                        KeyAction::DeleteItem
                    } else {
                        self.pending_d = Some(now);
                        KeyAction::NoAction
                    }
                } else if c == 'd' {
                    KeyAction::NavigateTab(TabTarget::Dashboard)
                } else if c == 's' {
                    KeyAction::NavigateTab(TabTarget::Sessions)
                } else if c == 't' {
                    KeyAction::NavigateTab(TabTarget::TODOs)
                } else if c == '1' {
                    KeyAction::FocusPanel(0)
                } else if c == '2' {
                    KeyAction::FocusPanel(1)
                } else if c == '3' {
                    KeyAction::FocusPanel(2)
                } else if self.vim_mode && c == 'h' {
                    KeyAction::FocusLeft
                } else if self.vim_mode && c == 'j' {
                    KeyAction::FocusDown
                } else if self.vim_mode && c == 'k' {
                    KeyAction::FocusUp
                } else if self.vim_mode && c == 'l' {
                    KeyAction::FocusRight
                } else if self.vim_mode && c == 'G' {
                    self.pending_g = None;
                    KeyAction::JumpBottom
                } else if self.vim_mode && c == 'g' {
                    if self.pending_g.is_some() && g_fresh {
                        self.pending_g = None;
                        KeyAction::JumpTop
                    } else {
                        self.pending_g = Some(now);
                        KeyAction::NoAction
                    }
                } else {
                    KeyAction::NoAction
                }
            },
            Key::Left => if self.vim_mode {
                KeyAction::NoAction
            } else {
                KeyAction::FocusLeft
            },
            Key::Right => if self.vim_mode {
                KeyAction::NoAction
            } else {
                KeyAction::FocusRight
            },
            Key::Up => if self.vim_mode {
                KeyAction::NoAction
            } else {
                KeyAction::FocusUp
            },
            Key::Down => if self.vim_mode {
                KeyAction::NoAction
            } else {
                KeyAction::FocusDown
            },
            _ => KeyAction::NoAction,
        }
    }

    /// Handles `key`, reading on the monotonic clock how long ago the pending
    /// `d` and `g` were pressed (see `handle_key_at` for the one-second window).
    pub fn handle_key(&mut self, key: Key) -> (r: KeyAction)
        ensures
            exists|d_ms: u128, g_ms: u128, now: Instant|
                #[trigger] key_step(
                    *old(self),
                    key,
                    measured(old(self).d_pending(), d_ms),
                    measured(old(self).g_pending(), g_ms),
                    now,
                    *final(self),
                    r,
                ),
    {
        let d_ms: u128 = match &self.pending_d {
            Some(ts) => millis_since(ts),
            None => 0,
        };
        let g_ms: u128 = match &self.pending_g {
            Some(ts) => millis_since(ts),
            None => 0,
        };
        let d_elapsed = if self.pending_d.is_some() {
            Some(d_ms)
        } else {
            None
        };
        let g_elapsed = if self.pending_g.is_some() {
            Some(g_ms)
        } else {
            None
        };
        let now = Instant::now();
        let r = self.handle_key_at(key, d_elapsed, g_elapsed, now);
        assert(key_step(
            *old(self),
            key,
            measured(old(self).d_pending(), d_ms),
            measured(old(self).g_pending(), g_ms),
            now,
            *self,
            r,
        ));
        r
    }
}

} // verus!
