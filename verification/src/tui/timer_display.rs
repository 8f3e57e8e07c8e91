//! Digital flip-clock style timer display.
//!
//! Two display modes:
//! - Freeform: HH:MM:SS or HHH:MM:SS format (via `render_for_width`)
//! - Pomodoro: MM:SS format (via `render_for_width_pomodoro`) — digits render
//!   larger because pomodoro sessions always fit in two-digit minutes.
use vstd::prelude::*;
use crate::text::{chars_of, decimal, pad2, push_decimal, push_pad2};

verus! {

/// Timer display for a duration given in whole seconds.
///
/// Supports both HH:MM:SS format (for durations < 100 hours) and
/// HHH:MM:SS format (for durations >= 100 hours).
#[derive(Debug, Clone)]
pub struct TimerDisplay {
    pub duration_secs: u64,
}

// ── Specification of the texts ──────────────────────────────────────────────

/// "HH:MM:SS", with the hours unpadded from 100 hours on.
pub open spec fn hms_text(secs: nat) -> Seq<char> {
    let hours = secs / 3600;
    let minutes = (secs % 3600) / 60;
    let seconds = secs % 60;
    (if hours >= 100 {
        decimal(hours)
    } else {
        pad2(hours)
    }) + seq![':'] + pad2(minutes) + seq![':'] + pad2(seconds)
}

/// "MM:SS" with the minutes padded to two digits at least.
pub open spec fn ms_text(secs: nat) -> Seq<char> {
    pad2(secs / 60) + seq![':'] + pad2(secs % 60)
}

/// `n` copies of `c`.
pub open spec fn rep(c: char, n: nat) -> Seq<char> {
    Seq::new(n, |_i: int| c)
}

/// `n` copies of the row `row`.
pub open spec fn rows_of(row: Seq<char>, n: nat) -> Seq<Seq<char>> {
    Seq::new(n, |_i: int| row)
}

/// The texts held by a sequence of strings.
pub open spec fn views(v: Seq<String>) -> Seq<Seq<char>> {
    v.map_values(|s: String| s@)
}

pub open spec fn max1(n: nat) -> nat {
    if n >= 1 {
        n
    } else {
        1
    }
}

/// Thickness of the horizontal bars of a digit of height `h`.
pub open spec fn bar_height(h: nat) -> nat {
    max1(h / 10)
}

/// Width of the gap between the two vertical strokes (always odd).
pub open spec fn inner_gap(w: nat) -> nat {
    let g = max1(w / 9);
    if g % 2 == 0 {
        g + 1
    } else {
        g
    }
}

/// Width of a vertical stroke.
pub open spec fn stroke(w: nat) -> nat {
    ((w - inner_gap(w)) as nat) / 2
}

pub open spec fn inner_height(h: nat) -> nat {
    if h >= 3 * bar_height(h) {
        (h - 3 * bar_height(h)) as nat
    } else {
        0
    }
}

pub open spec fn upper_height(h: nat) -> nat {
    inner_height(h) / 2
}

pub open spec fn lower_height(h: nat) -> nat {
    (inner_height(h) - upper_height(h)) as nat
}

pub open spec fn full_row(w: nat) -> Seq<char> {
    rep('█', w)
}

pub open spec fn blank_row(w: nat) -> Seq<char> {
    rep(' ', w)
}

pub open spec fn sides_row(w: nat) -> Seq<char> {
    rep('█', stroke(w)) + rep(' ', inner_gap(w)) + rep('█', stroke(w))
}

pub open spec fn right_row(w: nat) -> Seq<char> {
    rep(' ', stroke(w) + inner_gap(w)) + rep('█', stroke(w))
}

pub open spec fn left_row(w: nat) -> Seq<char> {
    rep('█', stroke(w)) + rep(' ', stroke(w) + inner_gap(w))
}

pub open spec fn dot_row(w: nat) -> Seq<char> {
    rep(' ', w / 2) + seq!['█'] + rep(' ', (w - w / 2 - 1) as nat)
}

/// Row `r` of a colon: a centred dot at a third and at two thirds of the height.
pub open spec fn colon_row(w: nat, h: nat, r: int) -> Seq<char> {
    if r == h / 3 || r == 2 * h / 3 {
        dot_row(w)
    } else {
        blank_row(w)
    }
}

/// The rows of a thick seven-segment character of width `w` and height `h`.
pub open spec fn digit_rows(ch: char, w: nat, h: nat) -> Seq<Seq<char>> {
    let bar = bar_height(h);
    let up = upper_height(h);
    let low = lower_height(h);
    let full = full_row(w);
    let sides = sides_row(w);
    let right = right_row(w);
    let left = left_row(w);
    if ch == '0' {
        rows_of(full, bar) + rows_of(sides, (h - 2 * bar) as nat) + rows_of(full, bar)
    } else if ch == '1' {
        rows_of(right, h)
    } else if ch == '2' {
        rows_of(full, bar) + rows_of(right, up) + rows_of(full, bar) + rows_of(left, low) + rows_of(
            full,
            bar,
        )
    } else if ch == '3' {
        rows_of(full, bar) + rows_of(right, up) + rows_of(full, bar) + rows_of(right, low)
            + rows_of(full, bar)
    } else if ch == '4' {
        rows_of(sides, up + bar) + rows_of(full, bar) + rows_of(right, low + bar)
    } else if ch == '5' {
        rows_of(full, bar) + rows_of(left, up) + rows_of(full, bar) + rows_of(right, low) + rows_of(
            full,
            bar,
        )
    } else if ch == '6' {
        rows_of(full, bar) + rows_of(left, up) + rows_of(full, bar) + rows_of(sides, low) + rows_of(
            full,
            bar,
        )
    } else if ch == '7' {
        rows_of(full, bar) + rows_of(right, if h >= bar {
            (h - bar) as nat
        } else {
            0
        })
    } else if ch == '8' {
        rows_of(full, bar) + rows_of(sides, up) + rows_of(full, bar) + rows_of(sides, low)
            + rows_of(full, bar)
    } else if ch == '9' {
        rows_of(full, bar) + rows_of(sides, up) + rows_of(full, bar) + rows_of(right, low)
            + rows_of(full, bar)
    } else if ch == ':' {
        Seq::new(h, |r: int| colon_row(w, h, r))
    } else {
        rows_of(blank_row(w), h)
    }
}

/// The fixed 5 × 5 thick glyphs.
pub open spec fn big_glyph(ch: char) -> Seq<Seq<char>> {
    if ch == '0' {
        seq!["█████"@, "██ ██"@, "██ ██"@, "██ ██"@, "█████"@]
    } else if ch == '1' {
        seq!["  ██ "@, " ███ "@, "  ██ "@, "  ██ "@, "  ██ "@]
    } else if ch == '2' {
        seq!["█████"@, "   ██"@, "█████"@, "██   "@, "█████"@]
    } else if ch == '3' {
        seq!["█████"@, "   ██"@, "█████"@, "   ██"@, "█████"@]
    } else if ch == '4' {
        seq!["██ ██"@, "██ ██"@, "█████"@, "   ██"@, "   ██"@]
    } else if ch == '5' {
        seq!["█████"@, "██   "@, "█████"@, "   ██"@, "█████"@]
    } else if ch == '6' {
        seq!["█████"@, "██   "@, "█████"@, "██ ██"@, "█████"@]
    } else if ch == '7' {
        seq!["█████"@, "   ██"@, "   ██"@, "   ██"@, "   ██"@]
    } else if ch == '8' {
        seq!["█████"@, "██ ██"@, "█████"@, "██ ██"@, "█████"@]
    } else if ch == '9' {
        seq!["█████"@, "██ ██"@, "█████"@, "   ██"@, "█████"@]
    } else if ch == ':' {
        seq!["   "@, " █ "@, "   "@, " █ "@, "   "@]
    } else {
        seq!["     "@, "     "@, "     "@, "     "@, "     "@]
    }
}

/// The 3 × 5 box-drawing glyphs.
pub open spec fn thin_glyph(ch: char) -> Seq<Seq<char>> {
    if ch == '0' {
        seq!["┌─┐"@, "│ │"@, "│ │"@, "│ │"@, "└─┘"@]
    } else if ch == '1' {
        seq![" ╷ "@, " │ "@, " │ "@, " │ "@, " ╵ "@]
    } else if ch == '2' {
        seq!["╶─┐"@, "  │"@, "┌─┘"@, "│  "@, "└─╴"@]
    } else if ch == '3' {
        seq!["╶─┐"@, "  │"@, "╶─┤"@, "  │"@, "╶─┘"@]
    } else if ch == '4' {
        seq!["╷ ╷"@, "│ │"@, "└─┤"@, "  │"@, "  ╵"@]
    } else if ch == '5' {
        seq!["┌─╴"@, "│  "@, "└─┐"@, "  │"@, "╶─┘"@]
    } else if ch == '6' {
        seq!["┌─╴"@, "│  "@, "├─┐"@, "│ │"@, "└─┘"@]
    } else if ch == '7' {
        seq!["╶─┐"@, "  │"@, "  │"@, "  │"@, "  ╵"@]
    } else if ch == '8' {
        seq!["┌─┐"@, "│ │"@, "├─┤"@, "│ │"@, "└─┘"@]
    } else if ch == '9' {
        seq!["┌─┐"@, "│ │"@, "└─┤"@, "  │"@, "╶─┘"@]
    } else if ch == ':' {
        seq!["   "@, " ● "@, "   "@, " ● "@, "   "@]
    } else {
        seq!["   "@, "   "@, "   "@, "   "@, "   "@]
    }
}

/// Parts `0..n` joined with one space between neighbours.
pub open spec fn join_parts(n: nat, part: spec_fn(int) -> Seq<char>) -> Seq<char>
    decreases n,
{
    if n == 0 {
        seq![]
    } else if n == 1 {
        part(0)
    } else {
        join_parts((n - 1) as nat, part) + seq![' '] + part(n - 1)
    }
}

/// The 5-row glyph of `ch`: box-drawing when `thin`, block characters otherwise.
pub open spec fn glyph_of(ch: char, thin: bool) -> Seq<Seq<char>> {
    if thin {
        thin_glyph(ch)
    } else {
        big_glyph(ch)
    }
}

/// Row `r` of each glyph of `s`, by character index.
pub open spec fn glyph_part(s: Seq<char>, thin: bool, r: int) -> spec_fn(int) -> Seq<char> {
    |i: int| glyph_of(s[i], thin)[r]
}

/// The five rows of `s` drawn with fixed-size glyphs, one space between characters.
pub open spec fn glyph_text(s: Seq<char>, thin: bool) -> Seq<Seq<char>> {
    Seq::new(5, |r: int| join_parts(s.len(), glyph_part(s, thin, r)))
}

/// Height of thick digits of width `w`: square from 5 on.
pub open spec fn digit_height(w: nat) -> nat {
    if w >= 5 {
        w
    } else {
        5
    }
}

/// Digit width for HH:MM:SS texts in a panel `width` columns wide (None: plain text).
pub open spec fn hms_tier(width: nat) -> Option<u8> {
    if width >= 240 {
        Some(29u8)
    } else if width >= 208 {
        Some(25u8)
    } else if width >= 176 {
        Some(21u8)
    } else if width >= 144 {
        Some(17u8)
    } else if width >= 112 {
        Some(13u8)
    } else if width >= 96 {
        Some(11u8)
    } else if width >= 80 {
        Some(9u8)
    } else if width >= 64 {
        Some(7u8)
    } else if width >= 48 {
        Some(5u8)
    } else if width >= 34 {
        Some(3u8)
    } else {
        None
    }
}

/// Digit width for MM:SS texts in a panel `width` columns wide (None: plain text).
pub open spec fn pomo_tier(width: nat) -> Option<u8> {
    if width >= 232 {
        Some(45u8)
    } else if width >= 212 {
        Some(41u8)
    } else if width >= 192 {
        Some(37u8)
    } else if width >= 172 {
        Some(33u8)
    } else if width >= 152 {
        Some(29u8)
    } else if width >= 132 {
        Some(25u8)
    } else if width >= 112 {
        Some(21u8)
    } else if width >= 92 {
        Some(17u8)
    } else if width >= 72 {
        Some(13u8)
    } else if width >= 62 {
        Some(11u8)
    } else if width >= 52 {
        Some(9u8)
    } else if width >= 42 {
        Some(7u8)
    } else if width >= 30 {
        Some(5u8)
    } else if width >= 22 {
        Some(3u8)
    } else {
        None
    }
}

/// Row `r` of each scalable digit of `s`, `w` wide and `h` high, by character index.
pub open spec fn digit_part(s: Seq<char>, w: nat, h: nat, r: int) -> spec_fn(int) -> Seq<char> {
    |i: int| digit_rows(s[i], w, h)[r]
}

/// Rows of `s` at digit width `dw`: thin glyphs for width 3, thick ones otherwise.
pub open spec fn sized_rows(s: Seq<char>, dw: nat) -> Seq<Seq<char>> {
    if dw == 3 {
        glyph_text(s, true)
    } else {
        Seq::new(
            digit_height(dw),
            |r: int| join_parts(s.len(), digit_part(s, dw, digit_height(dw), r)),
        )
    }
}

/// One blended cell of the fade animation.
pub open spec fn blend_char(cc: char, pc: char, frame: u8) -> char {
    if frame <= 3 {
        if pc == ' ' {
            ' '
        } else if frame == 1 {
            '█'
        } else if frame == 2 {
            '▓'
        } else {
            '▒'
        }
    } else {
        if cc == ' ' {
            ' '
        } else if frame == 4 {
            '░'
        } else if frame == 5 {
            '▒'
        } else {
            '▓'
        }
    }
}

/// A row fading from `prev` to `curr`; the shorter row is padded with spaces.
pub open spec fn blend_row(curr: Seq<char>, prev: Seq<char>, frame: u8) -> Seq<char> {
    let len = if curr.len() >= prev.len() {
        curr.len()
    } else {
        prev.len()
    };
    Seq::new(
        len,
        |i: int|
            blend_char(
                if i < curr.len() {
                    curr[i]
                } else {
                    ' '
                },
                if i < prev.len() {
                    prev[i]
                } else {
                    ' '
                },
                frame,
            ),
    )
}

/// Row `r` of character `i` of an animated rendering.
pub open spec fn anim_part(
    curr: Seq<char>,
    prev: Seq<char>,
    frames: Seq<u8>,
    w: nat,
    h: nat,
    i: int,
    r: int,
) -> Seq<char> {
    let ch = curr[i];
    let frame = if i < frames.len() {
        frames[i]
    } else {
        0
    };
    let pch = if i < prev.len() {
        prev[i]
    } else {
        ch
    };
    if frame == 0 || pch == ch {
        digit_rows(ch, w, h)[r]
    } else {
        blend_row(digit_rows(ch, w, h)[r], digit_rows(pch, w, h)[r], frame)
    }
}

/// Row `r` of each animated character of `curr`, by character index.
pub open spec fn anim_parts(
    curr: Seq<char>,
    prev: Seq<char>,
    frames: Seq<u8>,
    w: nat,
    h: nat,
    r: int,
) -> spec_fn(int) -> Seq<char> {
    |i: int| anim_part(curr, prev, frames, w, h, i, r)
}

/// Rows of the animated rendering of `curr` at digit width `dw`; width 3 draws
/// thin glyphs without animation.
pub open spec fn anim_rows(curr: Seq<char>, prev: Seq<char>, frames: Seq<u8>, dw: nat) -> Seq<
    Seq<char>,
> {
    if dw == 3 {
        glyph_text(curr, true)
    } else {
        Seq::new(
            digit_height(dw),
            |r: int| join_parts(curr.len(), anim_parts(curr, prev, frames, dw, digit_height(dw), r)),
        )
    }
}

proof fn lemma_rows_len(ch: char, w: nat, h: nat)
    requires
        h >= 3,
    ensures
        digit_rows(ch, w, h).len() == h,
{
    assert(3 * bar_height(h) <= h);
}

/// A thick character of height `h` (at least 3) has exactly `h` rows, and when
/// its width `w` is odd, as every width the display picks is, each row is
/// exactly `w` columns wide.
pub proof fn lemma_digit_rows_shape(ch: char, w: nat, h: nat)
    requires
        h >= 3,
        w % 2 == 1,
    ensures
        digit_rows(ch, w, h).len() == h,
        forall|r: int| 0 <= r < h ==> (#[trigger] digit_rows(ch, w, h)[r]).len() == w,
{
    assert(3 * bar_height(h) <= h);
    assert(inner_gap(w) <= w);
    assert(inner_gap(w) % 2 == 1);
    assert(2 * stroke(w) + inner_gap(w) == w);
    assert(full_row(w).len() == w);
    assert(blank_row(w).len() == w);
    assert(sides_row(w).len() == w);
    assert(right_row(w).len() == w);
    assert(left_row(w).len() == w);
    assert(dot_row(w).len() == w);
    let rows = digit_rows(ch, w, h);
    assert forall|r: int| 0 <= r < h implies (#[trigger] rows[r]).len() == w by {
        if ch == ':' {
            assert(colon_row(w, h, r).len() == w);
        }
    }
}

proof fn lemma_join_parts_len(n: nat, part: spec_fn(int) -> Seq<char>, w: nat)
    requires
        n >= 1,
        forall|i: int| 0 <= i < n ==> (#[trigger] part(i)).len() == w,
    ensures
        join_parts(n, part).len() == n * w + n - 1,
    decreases n,
{
    if n > 1 {
        lemma_join_parts_len((n - 1) as nat, part, w);
        assert(part(n - 1).len() == w);
        assert(join_parts(n, part) == join_parts((n - 1) as nat, part) + seq![' '] + part(n - 1));
        assert(n * w == (n - 1) * w + w) by (nonlinear_arith)
            requires
                n >= 1,
        ;
    } else {
        assert(part(0).len() == w);
        assert(1 * w == w);
    }
}

proof fn lemma_join_parts_ext(n: nat, p1: spec_fn(int) -> Seq<char>, p2: spec_fn(int) -> Seq<char>)
    requires
        forall|i: int| 0 <= i < n ==> #[trigger] p1(i) == p2(i),
    ensures
        join_parts(n, p1) == join_parts(n, p2),
    decreases n,
{
    if n > 1 {
        lemma_join_parts_ext((n - 1) as nat, p1, p2);
        assert(p1(n - 1) == p2(n - 1));
    } else if n == 1 {
        assert(p1(0) == p2(0));
    }
}

/// Thick digits of an odd width `dw` (5 or more, as the display picks them)
/// are drawn in `dw` rows, each `n * dw + n - 1` columns wide for a text of
/// `n` characters: every character `dw` wide, one space between neighbours.
pub proof fn law_sized_rows_shape(s: Seq<char>, dw: nat)
    requires
        s.len() >= 1,
        dw >= 5,
        dw % 2 == 1,
    ensures
        sized_rows(s, dw).len() == dw,
        forall|r: int|
            0 <= r < dw ==> (#[trigger] sized_rows(s, dw)[r]).len() == s.len() * dw + s.len() - 1,
{
    assert forall|r: int| 0 <= r < dw implies (#[trigger] sized_rows(s, dw)[r]).len() == s.len() * dw
        + s.len() - 1 by {
        let part = digit_part(s, dw, dw, r);
        assert forall|i: int| 0 <= i < s.len() implies (#[trigger] part(i)).len() == dw by {
            lemma_digit_rows_shape(s[i], dw, dw);
        }
        lemma_join_parts_len(s.len(), part, dw);
    }
}

/// With nothing fading (the text did not change, or no character has an
/// animation frame), the animated rendering is the plain rendering at the
/// same size.
pub proof fn law_idle_animation_is_plain(curr: Seq<char>, prev: Seq<char>, frames: Seq<u8>, dw: nat)
    requires
        dw >= 3,
        prev == curr || forall|i: int| 0 <= i < curr.len() && i < frames.len() ==> #[trigger] frames[i] == 0,
    ensures
        anim_rows(curr, prev, frames, dw) == sized_rows(curr, dw),
{
    if dw != 3 {
        let h = digit_height(dw);
        assert forall|r: int| 0 <= r < h implies #[trigger] join_parts(
            curr.len(),
            anim_parts(curr, prev, frames, dw, h, r),
        ) == join_parts(curr.len(), digit_part(curr, dw, h, r)) by {
            let p1 = anim_parts(curr, prev, frames, dw, h, r);
            let p2 = digit_part(curr, dw, h, r);
            assert forall|i: int| 0 <= i < curr.len() implies #[trigger] p1(i) == p2(i) by {
                if prev != curr && i < frames.len() {
                    assert(frames[i] == 0);
                }
            }
            lemma_join_parts_ext(curr.len(), p1, p2);
        }
        assert(anim_rows(curr, prev, frames, dw) =~= sized_rows(curr, dw));
    }
}

// ── Executable helpers ──────────────────────────────────────────────────────

fn repeat_char(c: char, n: usize) -> (s: String)
    ensures
        s@ == rep(c, n as nat),
{
    let mut s = String::new();
    let mut i: usize = 0;
    while i < n
        invariant
            i <= n,
            s@ =~= rep(c, i as nat),
        decreases n - i,
    {
        s.push(c);
        i = i + 1;
    }
    s
}

fn push_rows(rows: &mut Vec<String>, row: &String, n: usize)
    ensures
        views(final(rows)@) == views(old(rows)@) + rows_of(row@, n as nat),
{
    let ghost start = views(rows@);
    let mut i: usize = 0;
    while i < n
        invariant
            i <= n,
            views(rows@) =~= start + rows_of(row@, i as nat),
        decreases n - i,
    {
        let ghost prev = rows@;
        let c = row.clone();
        rows.push(c);
        assert(views(rows@) =~= views(prev).push(row@));
        assert(rows_of(row@, (i + 1) as nat) =~= rows_of(row@, i as nat).push(row@));
        i = i + 1;
    }
}

fn push_joined(rows: &mut Vec<String>, parts: &Vec<String>, first: bool)
    requires
        old(rows)@.len() == parts@.len(),
    ensures
        final(rows)@.len() == parts@.len(),
        forall|r: int|
            0 <= r < parts@.len() ==> #[trigger] final(rows)@[r]@ == (if first {
                old(rows)@[r]@ + parts@[r]@
            } else {
                old(rows)@[r]@ + seq![' '] + parts@[r]@
            }),
{
    let ghost before = rows@;
    let n = parts.len();
    let mut r: usize = 0;
    while r < n
        invariant
            r <= n,
            n == parts@.len(),
            rows@.len() == n,
            forall|j: int|
                r <= j < n ==> #[trigger] rows@[j] == before[j],
            forall|j: int|
                0 <= j < r ==> #[trigger] rows@[j]@ == (if first {
                    before[j]@ + parts@[j]@
                } else {
                    before[j]@ + seq![' '] + parts@[j]@
                }),
        decreases n - r,
    {
        let mut row = rows[r].clone();
        if !first {
            row.push(' ');
        }
        row.append(parts[r].as_str());
        rows.set(r, row);
        r = r + 1;
    }
}

fn empty_rows(n: usize) -> (rows: Vec<String>)
    ensures
        rows@.len() == n,
        forall|r: int| 0 <= r < n ==> #[trigger] rows@[r]@ == Seq::<char>::empty(),
{
    let mut rows: Vec<String> = Vec::new();
    let mut i: usize = 0;
    while i < n
        invariant
            i <= n,
            rows@.len() == i,
            forall|r: int| 0 <= r < i ==> #[trigger] rows@[r]@ == Seq::<char>::empty(),
        decreases n - i,
    {
        rows.push(String::new());
        i = i + 1;
    }
    rows
}

proof fn lemma_join_parts_step(n: nat, part: spec_fn(int) -> Seq<char>)
    requires
        n >= 1,
    ensures
        join_parts(n, part) == (if n == 1 {
            Seq::<char>::empty() + part(0)
        } else {
            join_parts((n - 1) as nat, part) + seq![' '] + part(n - 1)
        }),
{
    if n == 1 {
        assert(Seq::<char>::empty() + part(0) =~= part(0));
    }
}

/// Whole rows of `s` joined from per-character parts, `s.len()` characters of
/// `h` rows each: `rows[r] == join_parts(s.len(), part(r))`.
proof fn lemma_join_extend(
    s: Seq<char>,
    i: nat,
    row_before: Seq<char>,
    piece: Seq<char>,
    part: spec_fn(int) -> Seq<char>,
)
    requires
        i < s.len(),
        row_before == join_parts(i, part),
        piece == part(i as int),
    ensures
        (if i == 0 {
            row_before + piece
        } else {
            row_before + seq![' '] + piece
        }) == join_parts(i + 1, part),
{
    lemma_join_parts_step(i + 1, part);
    if i == 0 {
        assert(row_before =~= Seq::<char>::empty());
    }
}

fn append_chars(s: &mut String, c: char, n: usize)
    ensures
        final(s)@ == old(s)@ + rep(c, n as nat),
{
    let t = repeat_char(c, n);
    s.append(t.as_str());
}

/// Rows of a thick character `ch`, `width` columns by `height` rows.
fn make_digit_rows(ch: char, width: usize, height: usize) -> (rows: Vec<String>)
    requires
        width >= 1,
        height >= 2,
        2 * height <= usize::MAX,
    ensures
        views(rows@) == digit_rows(ch, width as nat, height as nat),
{
    let ghost w = width as nat;
    let ghost h = height as nat;
    // Horizontal bar thickness — 1 row up to h=9, then scales (1 per 10 rows)
    let bar_h = if height / 10 >= 1 {
        height / 10
    } else {
        1
    };
    // Internal horizontal gap — forced odd so left/right strokes are equal width
    let gap_raw = if width / 9 >= 1 {
        width / 9
    } else {
        1
    };
    let inner_gap_w = if gap_raw % 2 == 0 {
        gap_raw + 1
    } else {
        gap_raw
    };
    assert(inner_gap_w == inner_gap(w));
    let stroke_w = (width - inner_gap_w) / 2;
    let inner_h = if height >= 3 * bar_h {
        height - 3 * bar_h
    } else {
        0
    };
    let upper = inner_h / 2;
    let lower = inner_h - upper;
    assert(bar_h == bar_height(h));
    assert(upper == upper_height(h));
    assert(lower == lower_height(h));
    let full = repeat_char('█', width);
    let blank = repeat_char(' ', width);
    let mut sides = repeat_char('█', stroke_w);
    append_chars(&mut sides, ' ', inner_gap_w);
    append_chars(&mut sides, '█', stroke_w);
    let mut right = repeat_char(' ', stroke_w + inner_gap_w);
    append_chars(&mut right, '█', stroke_w);
    let mut left = repeat_char('█', stroke_w);
    append_chars(&mut left, ' ', stroke_w + inner_gap_w);
    let mut cdot = repeat_char(' ', width / 2);
    cdot.push('█');
    append_chars(&mut cdot, ' ', width - width / 2 - 1);
    assert(sides@ == sides_row(w));
    assert(right@ == right_row(w));
    assert(left@ == left_row(w));
    assert(cdot@ =~= dot_row(w));
    let mut rows: Vec<String> = Vec::new();
    let ghost z = views(rows@);
    assert(z =~= Seq::<Seq<char>>::empty());
    match ch {
        '0' => {
            push_rows(&mut rows, &full, bar_h);
            push_rows(&mut rows, &sides, height - 2 * bar_h);
            push_rows(&mut rows, &full, bar_h);
        },
        '1' => {
            push_rows(&mut rows, &right, height);
        },
        '2' => {
            push_rows(&mut rows, &full, bar_h);
            push_rows(&mut rows, &right, upper);
            push_rows(&mut rows, &full, bar_h);
            push_rows(&mut rows, &left, lower);
            push_rows(&mut rows, &full, bar_h);
        },
        '3' => {
            push_rows(&mut rows, &full, bar_h);
            push_rows(&mut rows, &right, upper);
            push_rows(&mut rows, &full, bar_h);
            push_rows(&mut rows, &right, lower);
            push_rows(&mut rows, &full, bar_h);
        },
        '4' => {
            push_rows(&mut rows, &sides, upper + bar_h);
            push_rows(&mut rows, &full, bar_h);
            push_rows(&mut rows, &right, lower + bar_h);
        },
        '5' => {
            push_rows(&mut rows, &full, bar_h);
            push_rows(&mut rows, &left, upper);
            push_rows(&mut rows, &full, bar_h);
            push_rows(&mut rows, &right, lower);
            push_rows(&mut rows, &full, bar_h);
        },
        '6' => {
            push_rows(&mut rows, &full, bar_h);
            push_rows(&mut rows, &left, upper);
            push_rows(&mut rows, &full, bar_h);
            push_rows(&mut rows, &sides, lower);
            push_rows(&mut rows, &full, bar_h);
        },
        '7' => {
            push_rows(&mut rows, &full, bar_h);
            let n = if height >= bar_h {
                height - bar_h
            } else {
                0
            };
            push_rows(&mut rows, &right, n);
        },
        '8' => {
            push_rows(&mut rows, &full, bar_h);
            push_rows(&mut rows, &sides, upper);
            push_rows(&mut rows, &full, bar_h);
            push_rows(&mut rows, &sides, lower);
            push_rows(&mut rows, &full, bar_h);
        },
        '9' => {
            push_rows(&mut rows, &full, bar_h);
            push_rows(&mut rows, &sides, upper);
            push_rows(&mut rows, &full, bar_h);
            push_rows(&mut rows, &right, lower);
            push_rows(&mut rows, &full, bar_h);
        },
        ':' => {
            let mut row: usize = 0;
            while row < height
                invariant
                    row <= height,
                    h == height,
                    2 * height <= usize::MAX,
                    cdot@ == dot_row(w),
                    blank@ == blank_row(w),
                    views(rows@) =~= Seq::new(row as nat, |r: int| colon_row(w, h, r)),
                decreases height - row,
            {
                let ghost prev = rows@;
                if row == height / 3 || row == 2 * height / 3 {
                    rows.push(cdot.clone());
                } else {
                    rows.push(blank.clone());
                }
                assert(views(rows@) =~= views(prev).push(colon_row(w, h, row as int)));
                row = row + 1;
            }
        },
        _ => {
            push_rows(&mut rows, &blank, height);
        },
    }
    assert(views(rows@) =~= digit_rows(ch, w, h));
    rows
}

/// The 5 × 5 thick glyph rows of `ch`.
fn char_to_big(ch: char) -> (r: [&'static str; 5])
    ensures
        forall|i: int| 0 <= i < 5 ==> (#[trigger] r@[i])@ == big_glyph(ch)[i],
{
    match ch {
        '0' => ["█████", "██ ██", "██ ██", "██ ██", "█████"],
        '1' => ["  ██ ", " ███ ", "  ██ ", "  ██ ", "  ██ "],
        '2' => ["█████", "   ██", "█████", "██   ", "█████"],
        '3' => ["█████", "   ██", "█████", "   ██", "█████"],
        '4' => ["██ ██", "██ ██", "█████", "   ██", "   ██"],
        '5' => ["█████", "██   ", "█████", "   ██", "█████"],
        '6' => ["█████", "██   ", "█████", "██ ██", "█████"],
        '7' => ["█████", "   ██", "   ██", "   ██", "   ██"],
        '8' => ["█████", "██ ██", "█████", "██ ██", "█████"],
        '9' => ["█████", "██ ██", "█████", "   ██", "█████"],
        ':' => ["   ", " █ ", "   ", " █ ", "   "],
        _ => ["     ", "     ", "     ", "     ", "     "],
    }
}

/// The 3 × 5 box-drawing glyph rows of `ch`.
fn char_to_big_thin(ch: char) -> (r: [&'static str; 5])
    ensures
        forall|i: int| 0 <= i < 5 ==> (#[trigger] r@[i])@ == thin_glyph(ch)[i],
{
    match ch {
        '0' => ["┌─┐", "│ │", "│ │", "│ │", "└─┘"],
        '1' => [" ╷ ", " │ ", " │ ", " │ ", " ╵ "],
        '2' => ["╶─┐", "  │", "┌─┘", "│  ", "└─╴"],
        '3' => ["╶─┐", "  │", "╶─┤", "  │", "╶─┘"],
        '4' => ["╷ ╷", "│ │", "└─┤", "  │", "  ╵"],
        '5' => ["┌─╴", "│  ", "└─┐", "  │", "╶─┘"],
        '6' => ["┌─╴", "│  ", "├─┐", "│ │", "└─┘"],
        '7' => ["╶─┐", "  │", "  │", "  │", "  ╵"],
        '8' => ["┌─┐", "│ │", "├─┤", "│ │", "└─┘"],
        '9' => ["┌─┐", "│ │", "└─┤", "  │", "╶─┘"],
        ':' => ["   ", " ● ", "   ", " ● ", "   "],
        _ => ["   ", "   ", "   ", "   ", "   "],
    }
}

fn glyph_strings(g: [&'static str; 5]) -> (v: Vec<String>)
    ensures
        v@.len() == 5,
        forall|i: int| 0 <= i < 5 ==> #[trigger] v@[i]@ == g@[i]@,
{
    let mut v: Vec<String> = Vec::new();
    let mut i: usize = 0;
    while i < 5
        invariant
            i <= 5,
            v@.len() == i,
            forall|j: int| 0 <= j < i ==> #[trigger] v@[j]@ == g@[j]@,
        decreases 5 - i,
    {
        v.push(g[i].to_owned());
        i = i + 1;
    }
    v
}

/// Rows of `s` in fixed-size glyphs (thin box-drawing or 5-wide blocks).
fn render_glyph_text(s: &str, thin: bool) -> (rows: Vec<String>)
    ensures
        views(rows@) == glyph_text(s@, thin),
{
    let chars = chars_of(s);
    let mut rows = empty_rows(5);
    let n = chars.len();
    let mut i: usize = 0;
    while i < n
        invariant
            i <= n,
            n == chars@.len(),
            chars@ == s@,
            rows@.len() == 5,
            forall|r: int|
                0 <= r < 5 ==> #[trigger] rows@[r]@ == join_parts(
                    i as nat,
                    glyph_part(s@, thin, r),
                ),
        decreases n - i,
    {
        let g = if thin {
            char_to_big_thin(chars[i])
        } else {
            char_to_big(chars[i])
        };
        let part = glyph_strings(g);
        let ghost before = rows@;
        push_joined(&mut rows, &part, i == 0);
        proof {
            assert forall|r: int| 0 <= r < 5 implies #[trigger] rows@[r]@ == join_parts(
                (i + 1) as nat,
                glyph_part(s@, thin, r),
            ) by {
                lemma_join_extend(s@, i as nat, before[r]@, part@[r]@, glyph_part(s@, thin, r));
            }
        }
        i = i + 1;
    }
    assert(views(rows@) =~= glyph_text(s@, thin));
    rows
}

/// One fade step between two rows of the same digit cell.
///
/// `frame` 1–3 fades the old row out (█ → ▓ → ▒), 4–6 fades the new row in
/// (░ → ▒ → ▓); blank cells stay blank.
fn blend_digit_row(curr_row: &str, prev_row: &str, frame: u8) -> (out: String)
    ensures
        out@ == blend_row(curr_row@, prev_row@, frame),
{
    let curr_chars = chars_of(curr_row);
    let prev_chars = chars_of(prev_row);
    let len = if curr_chars.len() >= prev_chars.len() {
        curr_chars.len()
    } else {
        prev_chars.len()
    };
    let mut out = String::new();
    let mut i: usize = 0;
    while i < len
        invariant
            i <= len,
            curr_chars@ == curr_row@,
            prev_chars@ == prev_row@,
            len == (if curr_row@.len() >= prev_row@.len() {
                curr_row@.len()
            } else {
                prev_row@.len()
            }),
            out@ =~= blend_row(curr_row@, prev_row@, frame).take(i as int),
        decreases len - i,
    {
        let cc = if i < curr_chars.len() {
            curr_chars[i]
        } else {
            ' '
        };
        let pc = if i < prev_chars.len() {
            prev_chars[i]
        } else {
            ' '
        };
        let ch = if frame <= 3 {
            if pc == ' ' {
                ' '
            } else if frame == 1 {
                '█'
            } else if frame == 2 {
                '▓'
            } else {
                '▒'
            }
        } else {
            if cc == ' ' {
                ' '
            } else if frame == 4 {
                '░'
            } else if frame == 5 {
                '▒'
            } else {
                '▓'
            }
        };
        out.push(ch);
        i = i + 1;
    }
    assert(blend_row(curr_row@, prev_row@, frame).take(len as int) =~= blend_row(
        curr_row@,
        prev_row@,
        frame,
    ));
    out
}

impl TimerDisplay {
    /// Create a new TimerDisplay with the given duration.
    pub fn new(duration_secs: u64) -> (r: Self)
        ensures
            r.duration_secs == duration_secs,
    {
        TimerDisplay { duration_secs }
    }

    /// Render as HH:MM:SS or HHH:MM:SS (for freeform / dashboard timers).
    pub fn render(&self) -> (r: String)
        ensures
            r@ == hms_text(self.duration_secs as nat),
    {
        let total_secs = self.duration_secs;
        let hours = total_secs / 3600;
        let minutes = (total_secs % 3600) / 60;
        let seconds = total_secs % 60;
        let mut s = String::new();
        if hours >= 100 {
            push_decimal(&mut s, hours);
        } else {
            push_pad2(&mut s, hours);
        }
        s.push(':');
        push_pad2(&mut s, minutes);
        s.push(':');
        push_pad2(&mut s, seconds);
        assert(s@ =~= hms_text(self.duration_secs as nat));
        s
    }

    /// Render as MM:SS for Pomodoro display.
    pub fn render_pomodoro(&self) -> (r: String)
        ensures
            r@ == ms_text(self.duration_secs as nat),
    {
        let total_secs = self.duration_secs;
        let mut s = String::new();
        push_pad2(&mut s, total_secs / 60);
        s.push(':');
        push_pad2(&mut s, total_secs % 60);
        assert(s@ =~= ms_text(self.duration_secs as nat));
        s
    }

    /// Check if this duration requires HHH:MM:SS format (>= 100 hours).
    pub fn requires_extended_format(&self) -> (r: bool)
        ensures
            r == (self.duration_secs >= 360000),
    {
        self.duration_secs >= 360000
    }

    /// Render as five rows of 5-wide block digits.
    pub fn render_big(&self) -> (rows: Vec<String>)
        ensures
            views(rows@) == glyph_text(hms_text(self.duration_secs as nat), false),
    {
        let s = self.render();
        render_glyph_text(s.as_str(), false)
    }

    /// Render as five rows of thin box-drawing digits.
    pub fn render_big_thin(&self) -> (rows: Vec<String>)
        ensures
            views(rows@) == glyph_text(hms_text(self.duration_secs as nat), true),
    {
        let s = self.render();
        Self::render_big_thin_str(s.as_str())
    }

    /// Render `s` as five rows of thin box-drawing glyphs.
    pub fn render_big_thin_str(s: &str) -> (rows: Vec<String>)
        ensures
            views(rows@) == glyph_text(s@, true),
    {
        render_glyph_text(s, true)
    }

    /// The rows for a panel `width` columns wide (HH:MM:SS), and whether they
    /// are big digits (`false`: one row of plain text).
    pub fn render_for_width(&self, width: u16) -> (r: (Vec<String>, bool))
        ensures
            r.1 == hms_tier(width as nat).is_some(),
            views(r.0@) == (match hms_tier(width as nat) {
                None => seq![hms_text(self.duration_secs as nat)],
                Some(dw) => sized_rows(hms_text(self.duration_secs as nat), dw as nat),
            }),
    {
        let s = self.render();
        match Self::best_digit_width_hms(width) {
            None => {
                let v = vec![s];
                assert(views(v@) =~= seq![hms_text(self.duration_secs as nat)]);
                (v, false)
            },
            Some(dw) => (Self::render_big_sized(s.as_str(), dw), true),
        }
    }

    /// The rows for a panel `width` columns wide (MM:SS), and whether they are
    /// big digits (`false`: one row of plain text).
    pub fn render_for_width_pomodoro(&self, width: u16) -> (r: (Vec<String>, bool))
        ensures
            r.1 == pomo_tier(width as nat).is_some(),
            views(r.0@) == (match pomo_tier(width as nat) {
                None => seq![ms_text(self.duration_secs as nat)],
                Some(dw) => sized_rows(ms_text(self.duration_secs as nat), dw as nat),
            }),
    {
        let s = self.render_pomodoro();
        match Self::best_digit_width_pomo(width) {
            None => {
                let v = vec![s];
                assert(views(v@) =~= seq![ms_text(self.duration_secs as nat)]);
                (v, false)
            },
            Some(dw) => (Self::render_big_sized(s.as_str(), dw), true),
        }
    }

    /// Render `s` with thick digits `digit_width` wide (and as high, from 5
    /// on); width 3 selects the thin box-drawing glyphs.
    pub fn render_big_sized(s: &str, digit_width: u8) -> (rows: Vec<String>)
        requires
            digit_width >= 1 || s@.len() == 0,
        ensures
            views(rows@) == sized_rows(s@, digit_width as nat),
    {
        if digit_width == 3 {
            return render_glyph_text(s, true);
        }
        let w = digit_width as usize;
        let h = Self::digit_height_for_width(digit_width) as usize;
        let ghost hh = digit_height(digit_width as nat);
        let chars = chars_of(s);
        let mut rows = empty_rows(h);
        let n = chars.len();
        let mut i: usize = 0;
        while i < n
            invariant
                i <= n,
                n == chars@.len(),
                chars@ == s@,
                n > 0 ==> w >= 1,
                w == digit_width,
                h == hh,
                5 <= h <= 255,
                rows@.len() == h,
                forall|r: int|
                    0 <= r < h ==> #[trigger] rows@[r]@ == join_parts(
                        i as nat,
                        digit_part(s@, w as nat, h as nat, r),
                    ),
            decreases n - i,
        {
            let part = make_digit_rows(chars[i], w, h);
            proof {
                assert(part@.len() == digit_rows(s@[i as int], w as nat, h as nat).len());
                lemma_rows_len(s@[i as int], w as nat, h as nat);
            }
            let ghost before = rows@;
            push_joined(&mut rows, &part, i == 0);
            proof {
                assert forall|r: int| 0 <= r < h implies #[trigger] rows@[r]@ == join_parts(
                    (i + 1) as nat,
                    digit_part(s@, w as nat, h as nat, r),
                ) by {
                    assert(part@[r]@ == views(part@)[r]);
                    lemma_join_extend(
                        s@,
                        i as nat,
                        before[r]@,
                        part@[r]@,
                        digit_part(s@, w as nat, h as nat, r),
                    );
                }
            }
            i = i + 1;
        }
        assert(views(rows@) =~= sized_rows(s@, digit_width as nat));
        rows
    }

    /// Render `curr` with the per-character fade from `prev`: a character
    /// whose frame in `anim_frames` is 1–6 and that differs from the one at
    /// its place in `prev` is drawn blended; width 3 draws thin glyphs, unanimated.
    pub fn render_animated_big_sized(
        curr: &str,
        prev: &str,
        anim_frames: &[u8],
        digit_width: u8,
    ) -> (rows: Vec<String>)
        requires
            digit_width >= 1 || curr@.len() == 0,
        ensures
            views(rows@) == anim_rows(curr@, prev@, anim_frames@, digit_width as nat),
    {
        if digit_width == 3 {
            return render_glyph_text(curr, true);
        }
        let w = digit_width as usize;
        let h = Self::digit_height_for_width(digit_width) as usize;
        let ghost hh = digit_height(digit_width as nat);
        let chars = chars_of(curr);
        let prev_chars = chars_of(prev);
        let mut rows = empty_rows(h);
        let n = chars.len();
        let mut i: usize = 0;
        while i < n
            invariant
                i <= n,
                n == chars@.len(),
                chars@ == curr@,
                prev_chars@ == prev@,
                n > 0 ==> w >= 1,
                w == digit_width,
                h == hh,
                5 <= h <= 255,
                rows@.len() == h,
                forall|r: int|
                    0 <= r < h ==> #[trigger] rows@[r]@ == join_parts(
                        i as nat,
                        anim_parts(curr@, prev@, anim_frames@, w as nat, h as nat, r),
                    ),
            decreases n - i,
        {
            let ch = chars[i];
            let frame = if i < anim_frames.len() {
                anim_frames[i]
            } else {
                0
            };
            let prev_ch = if i < prev_chars.len() {
                prev_chars[i]
            } else {
                ch
            };
            let part = if frame == 0 || prev_ch == ch {
                make_digit_rows(ch, w, h)
            } else {
                let curr_part = make_digit_rows(ch, w, h);
                let prev_part = make_digit_rows(prev_ch, w, h);
                proof {
                    lemma_rows_len(ch, w as nat, h as nat);
                    lemma_rows_len(prev_ch, w as nat, h as nat);
                    assert(curr_part@.len() == h);
                    assert(prev_part@.len() == h);
                }
                let mut blended: Vec<String> = Vec::new();
                let mut r: usize = 0;
                while r < h
                    invariant
                        r <= h,
                        curr_part@.len() == h,
                        prev_part@.len() == h,
                        blended@.len() == r,
                        forall|k: int|
                            0 <= k < r ==> #[trigger] blended@[k]@ == blend_row(
                                curr_part@[k]@,
                                prev_part@[k]@,
                                frame,
                            ),
                    decreases h - r,
                {
                    let b = blend_digit_row(curr_part[r].as_str(), prev_part[r].as_str(), frame);
                    blended.push(b);
                    r = r + 1;
                }
                proof {
                    assert forall|k: int| 0 <= k < h implies #[trigger] blended@[k]@ == blend_row(
                        digit_rows(ch, w as nat, h as nat)[k],
                        digit_rows(prev_ch, w as nat, h as nat)[k],
                        frame,
                    ) by {
                        assert(curr_part@[k]@ == views(curr_part@)[k]);
                        assert(prev_part@[k]@ == views(prev_part@)[k]);
                    }
                }
                blended
            };
            proof {
                lemma_rows_len(ch, w as nat, h as nat);
                assert(part@.len() == h);
            }
            let ghost before = rows@;
            push_joined(&mut rows, &part, i == 0);
            proof {
                assert forall|r: int| 0 <= r < h implies #[trigger] rows@[r]@ == join_parts(
                    (i + 1) as nat,
                    anim_parts(curr@, prev@, anim_frames@, w as nat, h as nat, r),
                ) by {
                    if frame == 0 || prev_ch == ch {
                        assert(part@[r]@ == views(part@)[r]);
                    }
                    lemma_join_extend(
                        curr@,
                        i as nat,
                        before[r]@,
                        part@[r]@,
                        anim_parts(curr@, prev@, anim_frames@, w as nat, h as nat, r),
                    );
                }
            }
            i = i + 1;
        }
        assert(views(rows@) =~= anim_rows(curr@, prev@, anim_frames@, digit_width as nat));
        rows
    }

    /// Animated rendering at the default 5-wide thick size.
    pub fn render_animated_big_str(curr: &str, prev: &str, anim_frames: &[u8]) -> (rows: Vec<
        String,
    >)
        ensures
            views(rows@) == anim_rows(curr@, prev@, anim_frames@, 5),
    {
        Self::render_animated_big_sized(curr, prev, anim_frames, 5)
    }

    /// Best thick-digit width for HH:MM:SS texts; `Some(3)` means thin glyphs,
    /// `None` plain text.
    pub fn best_digit_width_hms(available_width: u16) -> (r: Option<u8>)
        ensures
            r == hms_tier(available_width as nat),
    {
        if available_width >= 240 {
            Some(29)
        } else if available_width >= 208 {
            Some(25)
        } else if available_width >= 176 {
            Some(21)
        } else if available_width >= 144 {
            Some(17)
        } else if available_width >= 112 {
            Some(13)
        } else if available_width >= 96 {
            Some(11)
        } else if available_width >= 80 {
            Some(9)
        } else if available_width >= 64 {
            Some(7)
        } else if available_width >= 48 {
            Some(5)
        } else if available_width >= 34 {
            Some(3)
        } else {
            None
        }
    }

    /// Best thick-digit width for MM:SS texts; `Some(3)` means thin glyphs,
    /// `None` plain text.
    pub fn best_digit_width_pomo(available_width: u16) -> (r: Option<u8>)
        ensures
            r == pomo_tier(available_width as nat),
    {
        if available_width >= 232 {
            Some(45)
        } else if available_width >= 212 {
            Some(41)
        } else if available_width >= 192 {
            Some(37)
        } else if available_width >= 172 {
            Some(33)
        } else if available_width >= 152 {
            Some(29)
        } else if available_width >= 132 {
            Some(25)
        } else if available_width >= 112 {
            Some(21)
        } else if available_width >= 92 {
            Some(17)
        } else if available_width >= 72 {
            Some(13)
        } else if available_width >= 62 {
            Some(11)
        } else if available_width >= 52 {
            Some(9)
        } else if available_width >= 42 {
            Some(7)
        } else if available_width >= 30 {
            Some(5)
        } else if available_width >= 22 {
            Some(3)
        } else {
            None
        }
    }

    /// Map digit width to digit height: square from 5 on.
    fn digit_height_for_width(w: u8) -> (h: u8)
        ensures
            h == digit_height(w as nat),
    {
        if w >= 5 {
            w
        } else {
            5
        }
    }
}

} // verus!
