//! Decisions of the guide's application shell: keyboard accelerators, the
//! responsive measurements that size the index, the document column and the
//! search dialog, and the search overlay's selection.
//!
//! The shell reads keys and committed sizes from the terminal, hands them over
//! as plain values, and renders the state these functions produce.
use vstd::prelude::*;
use vstd::string::*;

use crate::demos::{mode_for, reserved_for, WidthMode, NARROW_BREAKPOINT, WIDE_BREAKPOINT};
use crate::demos::{INDEX_WIDTH, RAIL_WIDTH};
use crate::navigation::{after_goto, after_goto_chapter, after_goto_section, Navigator, Viewport};
use crate::registry::CHAPTER_COUNT;
use crate::search::{HitKind, HitModel, SearchHit};

verus! {

/// A key as the shell sees it.
#[derive(Debug, Clone, Copy, PartialEq, Eq, Structural)]
pub enum Key {
    /// A printable character.
    Char(char),
    /// Left arrow.
    Left,
    /// Right arrow.
    Right,
    /// Up arrow.
    Up,
    /// Down arrow.
    Down,
    /// Escape.
    Esc,
    /// Enter.
    Enter,
    /// Any other key.
    Other,
}

/// A key press with the modifiers held.
#[derive(Debug, Clone, Copy, PartialEq, Eq, Structural)]
pub struct KeyPress {
    /// The key.
    pub key: Key,
    /// Control held.
    pub control: bool,
    /// Alt held.
    pub alt: bool,
    /// Super held.
    pub super_key: bool,
    /// Meta held.
    pub meta: bool,
}

/// A shell-level keyboard accelerator.
#[derive(Debug, Clone, Copy, PartialEq, Eq, Structural)]
pub enum Shortcut {
    /// Open or close the search overlay.
    ToggleSearch,
    /// Expand or collapse the index.
    ToggleIndex,
    /// Move to the previous chapter.
    PrevChapter,
    /// Move to the next chapter.
    NextChapter,
    /// Move to the previous section.
    PrevSection,
    /// Move to the next section.
    NextSection,
    /// Close the search overlay.
    CloseSearch,
}

/// Whether a press counts as an Alt chord: Alt without Super or Meta.
pub open spec fn alt_chord(press: KeyPress) -> bool {
    press.alt && !press.super_key && !press.meta
}

/// The accelerator a key press means.
pub open spec fn shortcut_of(press: KeyPress) -> Option<Shortcut> {
    let control = press.control;
    let alt = alt_chord(press);
    if control && alt {
        None
    } else {
        match press.key {
            Key::Char(c) => if c == 'k' && control {
                Some(Shortcut::ToggleSearch)
            } else if c == 'b' && control {
                Some(Shortcut::ToggleIndex)
            } else {
                None
            },
            Key::Left => if alt { Some(Shortcut::PrevChapter) } else { None },
            Key::Right => if alt { Some(Shortcut::NextChapter) } else { None },
            Key::Up => if alt { Some(Shortcut::PrevSection) } else { None },
            Key::Down => if alt { Some(Shortcut::NextSection) } else { None },
            Key::Esc => if !control && !alt { Some(Shortcut::CloseSearch) } else { None },
            _ => None,
        }
    }
}

/// Maps a key press to a shell accelerator.
///
/// Only modifier chords are accelerators. Bare letters, digits, and arrow keys
/// are deliberately unbound so demonstrated inputs keep receiving them.
pub fn shell_shortcut(press: &KeyPress) -> (shortcut: Option<Shortcut>)
    ensures
        shortcut == shortcut_of(*press),
{
    let control = press.control;
    let alt = press.alt && !press.super_key && !press.meta;
    if control && alt {
        return None;
    }
    match press.key {
        Key::Char(c) => {
            if c == 'k' && control {
                Some(Shortcut::ToggleSearch)
            } else if c == 'b' && control {
                Some(Shortcut::ToggleIndex)
            } else {
                None
            }
        },
        Key::Left => if alt { Some(Shortcut::PrevChapter) } else { None },
        Key::Right => if alt { Some(Shortcut::NextChapter) } else { None },
        Key::Up => if alt { Some(Shortcut::PrevSection) } else { None },
        Key::Down => if alt { Some(Shortcut::NextSection) } else { None },
        Key::Esc => if !control && !alt { Some(Shortcut::CloseSearch) } else { None },
        _ => None,
    }
}

/// No key pressed without a modifier is an accelerator, except Escape.
pub proof fn lemma_bare_keys_are_unbound(press: KeyPress)
    requires
        !press.control,
        !press.alt,
        press.key != Key::Esc,
    ensures
        shortcut_of(press) is None,
{
}

/// The light or dark half of a theme.
#[derive(Debug, Clone, Copy, PartialEq, Eq, Structural)]
pub enum ThemeMode {
    /// Dark backgrounds.
    Dark,
    /// Light backgrounds.
    Light,
}

/// Opposite light/dark mode.
pub fn next_mode(mode: ThemeMode) -> (next: ThemeMode)
    ensures
        next != mode,
{
    match mode {
        ThemeMode::Dark => ThemeMode::Light,
        ThemeMode::Light => ThemeMode::Dark,
    }
}

/// The state the shell keeps beside the navigator.
#[derive(Debug, Clone, Copy, PartialEq, Eq, Structural)]
pub struct ShellState {
    /// Navigation state.
    pub nav: Navigator,
    /// Whether the reader collapsed the index.
    pub collapsed: bool,
    /// Whether the search overlay is open.
    pub search_open: bool,
    /// The highlighted search result.
    pub search_active: usize,
}

/// The chapter before `chapter`, wrapping to the last.
pub open spec fn prev_chapter(chapter: usize) -> usize {
    ((chapter + CHAPTER_COUNT - 1) % (CHAPTER_COUNT as int)) as usize
}

/// The chapter after `chapter`, wrapping to the first.
pub open spec fn next_chapter(chapter: usize) -> usize {
    ((chapter + 1) % (CHAPTER_COUNT as int)) as usize
}

/// `min(a, b)` on naturals.
pub open spec fn nat_min(a: int, b: int) -> int {
    if a <= b { a } else { b }
}

/// The section before the active one, staying within the chapter.
pub open spec fn prev_section(active: usize, count: usize) -> usize {
    nat_min(if active > 0 { active - 1 } else { 0 }, if count > 0 { count - 1 } else { 0 }) as usize
}

/// The section after the active one, staying within the chapter.
pub open spec fn next_section(active: usize, count: usize) -> usize {
    nat_min(active + 1, if count > 0 { count - 1 } else { 0 }) as usize
}

/// The state an accelerator leads to.
pub open spec fn after_shortcut(
    state: ShellState,
    shortcut: Shortcut,
    viewport: Option<Viewport>,
    lines: Seq<Option<u32>>,
) -> ShellState {
    match shortcut {
        Shortcut::ToggleSearch => if state.search_open {
            ShellState { search_open: false, ..state }
        } else {
            ShellState { search_open: true, search_active: 0, ..state }
        },
        Shortcut::ToggleIndex => ShellState { collapsed: !state.collapsed, ..state },
        Shortcut::PrevChapter => ShellState {
            nav: after_goto_chapter(state.nav, prev_chapter(state.nav.chapter)),
            ..state
        },
        Shortcut::NextChapter => ShellState {
            nav: after_goto_chapter(state.nav, next_chapter(state.nav.chapter)),
            ..state
        },
        Shortcut::PrevSection => ShellState {
            nav: after_goto_section(
                state.nav,
                prev_section(state.nav.active, lines.len() as usize),
                viewport,
                lines,
            ),
            ..state
        },
        Shortcut::NextSection => ShellState {
            nav: after_goto_section(
                state.nav,
                next_section(state.nav.active, lines.len() as usize),
                viewport,
                lines,
            ),
            ..state
        },
        Shortcut::CloseSearch => if state.search_open {
            ShellState { search_open: false, search_active: 0, ..state }
        } else {
            state
        },
    }
}

impl ShellState {
    /// The shell's state on first render.
    pub fn new(initial_chapter: usize, collapsed: bool, search_open: bool) -> (state: Self)
        ensures
            state.nav.chapter == if initial_chapter < CHAPTER_COUNT {
                initial_chapter
            } else {
                (CHAPTER_COUNT - 1) as usize
            },
            state.nav.active == 0,
            state.nav.pending is None,
            state.nav.scroll.x == 0 && state.nav.scroll.y == 0,
            state.collapsed == collapsed,
            state.search_open == search_open,
            state.search_active == 0,
    {
        let chapter = if initial_chapter < CHAPTER_COUNT {
            initial_chapter
        } else {
            CHAPTER_COUNT - 1
        };
        ShellState { nav: Navigator::new(chapter), collapsed, search_open, search_active: 0 }
    }

    /// Applies one accelerator. `lines` holds the committed top of every
    /// section anchor of the mounted chapter.
    pub fn apply_shortcut(&mut self, shortcut: Shortcut, viewport: Option<Viewport>, lines: &[Option<u32>])
        requires
            shortcut == Shortcut::PrevChapter ==> old(self).nav.chapter + CHAPTER_COUNT
                <= usize::MAX,
            shortcut == Shortcut::NextChapter ==> old(self).nav.chapter < usize::MAX,
            shortcut == Shortcut::NextSection ==> old(self).nav.active < usize::MAX,
        ensures
            *final(self) == after_shortcut(*old(self), shortcut, viewport, lines@),
    {
        let count = lines.len();
        match shortcut {
            Shortcut::ToggleSearch => {
                if self.search_open {
                    self.search_open = false;
                } else {
                    self.search_active = 0;
                    self.search_open = true;
                }
            },
            Shortcut::ToggleIndex => {
                self.collapsed = !self.collapsed;
            },
            Shortcut::PrevChapter => {
                let target = (self.nav.chapter + CHAPTER_COUNT - 1) % CHAPTER_COUNT;
                self.nav.goto_chapter(target);
            },
            Shortcut::NextChapter => {
                let target = (self.nav.chapter + 1) % CHAPTER_COUNT;
                self.nav.goto_chapter(target);
            },
            Shortcut::PrevSection => {
                let back = self.nav.active.saturating_sub(1);
                let last = count.saturating_sub(1);
                let target = if back < last { back } else { last };
                self.nav.goto_section(target, viewport, lines);
            },
            Shortcut::NextSection => {
                let forward = self.nav.active + 1;
                let last = count.saturating_sub(1);
                let target = if forward < last { forward } else { last };
                self.nav.goto_section(target, viewport, lines);
            },
            Shortcut::CloseSearch => {
                if self.search_open {
                    self.search_active = 0;
                    self.search_open = false;
                }
            },
        }
    }
}

/// Widest the search overlay is allowed to grow.
pub const MAX_SEARCH_WIDTH: u16 = 78;

/// Tallest the search dialog may grow, so it reads as a card rather than a
/// sheet that covers the page behind it.
pub const MAX_SEARCH_HEIGHT: u16 = 16;

/// Assumed first-frame width before the root element reports its own.
pub const ASSUMED_WIDTH: u16 = 120;

/// Row count assumed before the terminal reports its own size.
pub const ASSUMED_HEIGHT: u16 = 24;

/// The responsive measurements one frame is built from.
#[derive(Debug, Clone, Copy, PartialEq, Eq, Structural)]
pub struct ShellMetrics {
    /// The index treatment.
    pub index_mode: WidthMode,
    /// Cells left for the document column.
    pub content_width: u16,
    /// Whether the document column has room for two columns.
    pub wide: bool,
    /// Whether the header has room for its navigation cluster.
    pub show_navigation: bool,
}

/// `value` clamped into `lo..=hi`.
pub open spec fn clamp(value: int, lo: int, hi: int) -> int {
    if value < lo {
        lo
    } else if value > hi {
        hi
    } else {
        value
    }
}

/// The measurements a root of `width` cells and a collapse preference select.
pub open spec fn metrics_for(width: u16, collapsed: bool) -> ShellMetrics {
    let mode = mode_for(width, collapsed);
    ShellMetrics {
        index_mode: mode,
        content_width: if sat_sub16(width, reserved_for(mode)) < 12 {
            12
        } else {
            sat_sub16(width, reserved_for(mode))
        },
        wide: width >= WIDE_BREAKPOINT,
        show_navigation: width >= NARROW_BREAKPOINT,
    }
}

/// `a - b` on cells, or `0` when `b` exceeds `a`.
pub open spec fn sat_sub16(a: u16, b: u16) -> u16 {
    if a >= b { (a - b) as u16 } else { 0 }
}

/// Measures one frame for a root of `width` cells.
pub fn shell_metrics(width: u16, collapsed: bool) -> (metrics: ShellMetrics)
    ensures
        metrics == metrics_for(width, collapsed),
        metrics.content_width >= 12,
{
    let index_mode = WidthMode::for_width(width, collapsed);
    let reserved = index_mode.reserved_width();
    let available = width.saturating_sub(reserved);
    let content_width = if available < 12 { 12 } else { available };
    ShellMetrics {
        index_mode,
        content_width,
        wide: width >= WIDE_BREAKPOINT,
        show_navigation: width >= NARROW_BREAKPOINT,
    }
}

/// The search dialog's width for a document column and root width.
pub open spec fn dialog_width(content_width: u16, width: u16) -> int {
    let fitted = clamp(sat_sub16(content_width, 4) as int, 34, MAX_SEARCH_WIDTH as int);
    let room = if sat_sub16(width, 2) < 20 { 20 } else { sat_sub16(width, 2) as int };
    nat_min(fitted, room)
}

/// The search dialog's height for a root height.
pub open spec fn dialog_height(height: u16) -> int {
    clamp(sat_sub16(height, 8) as int, 7, MAX_SEARCH_HEIGHT as int)
}

/// The search dialog's size: as wide as the document column allows within
/// its bounds and never wider than the root, and as tall as its results need
/// within its bounds.
pub fn search_dialog_size(content_width: u16, width: u16, height: u16) -> (size: (u16, u16))
    ensures
        size.0 == dialog_width(content_width, width),
        size.1 == dialog_height(height),
        20 <= size.0 <= MAX_SEARCH_WIDTH,
        7 <= size.1 <= MAX_SEARCH_HEIGHT,
{
    let inner = content_width.saturating_sub(4);
    let fitted = if inner < 34 {
        34
    } else if inner > MAX_SEARCH_WIDTH {
        MAX_SEARCH_WIDTH
    } else {
        inner
    };
    let edge = width.saturating_sub(2);
    let room = if edge < 20 { 20 } else { edge };
    let dialog_w = if fitted < room { fitted } else { room };
    let rows = height.saturating_sub(8);
    let dialog_h = if rows < 7 {
        7
    } else if rows > MAX_SEARCH_HEIGHT {
        MAX_SEARCH_HEIGHT
    } else {
        rows
    };
    (dialog_w, dialog_h)
}

/// The highlighted result after the result list changes: kept when it still
/// exists, otherwise the last result.
pub fn clamp_search_active(active: usize, count: usize) -> (clamped: usize)
    ensures
        clamped == nat_min(active as int, if count > 0 { count - 1 } else { 0 }),
{
    let last = count.saturating_sub(1);
    if active < last { active } else { last }
}

/// The highlighted result after one move, wrapping around the list.
pub open spec fn moved_selection(count: usize, current: usize, forward: bool) -> Option<usize> {
    if count == 0 {
        None
    } else {
        let cur = nat_min(current as int, count - 1);
        Some(
            (if forward {
                (cur + 1) % (count as int)
            } else {
                (cur + count - 1) % (count as int)
            }) as usize,
        )
    }
}

/// Moves the highlighted search result with wraparound; nothing moves in an
/// empty list.
pub fn move_search_selection(count: usize, current: usize, forward: bool) -> (next: Option<usize>)
    ensures
        next == moved_selection(count, current, forward),
        next matches Some(n) ==> n < count,
{
    if count == 0 {
        return None;
    }
    let cur = if current < count - 1 { current } else { count - 1 };
    let next = if forward {
        if cur + 1 == count { 0 } else { cur + 1 }
    } else {
        if cur == 0 { count - 1 } else { cur - 1 }
    };
    proof {
        if forward {
            if cur + 1 == count {
                assert((cur + 1) % (count as int) == 0) by (nonlinear_arith)
                    requires cur + 1 == count, count > 0;
            } else {
                assert((cur + 1) % (count as int) == cur + 1) by (nonlinear_arith)
                    requires 0 <= cur + 1 < count;
            }
        } else {
            if cur == 0 {
                assert((cur + count - 1) % (count as int) == count - 1) by (nonlinear_arith)
                    requires cur == 0, count > 0;
            } else {
                assert((cur + count - 1) % (count as int) == cur - 1) by (nonlinear_arith)
                    requires 0 < cur < count;
            }
        }
    }
    Some(next)
}

/// Moving forward then back returns to the same result.
pub proof fn lemma_selection_round_trip(count: usize, current: usize)
    requires
        current < count,
    ensures
        moved_selection(count, (moved_selection(count, current, true)->0), false) == Some(current),
{
    let c = count as int;
    let n = current as int;
    assert((n + 1) % c == if n + 1 == c { 0 } else { n + 1 }) by (nonlinear_arith)
        requires 0 <= n < c;
    let m = (n + 1) % c;
    assert((m + c - 1) % c == n) by (nonlinear_arith)
        requires 0 <= n < c, m == (if n + 1 == c { 0 } else { n + 1 });
}

/// The state activating the highlighted result leads to.
pub open spec fn after_activate(
    state: ShellState,
    results: Seq<HitModel>,
    viewport: Option<Viewport>,
    lines: Seq<Option<u32>>,
) -> ShellState {
    if state.search_active >= results.len() {
        state
    } else {
        let hit = results[state.search_active as int];
        ShellState {
            search_active: 0,
            search_open: false,
            nav: if hit.kind == HitKind::Chapter {
                after_goto_chapter(state.nav, hit.chapter)
            } else {
                after_goto(state.nav, hit.chapter, hit.section, viewport, lines)
            },
            ..state
        }
    }
}

impl ShellState {
    /// Navigates to the highlighted result and closes the overlay. `lines`
    /// holds the committed top of every section anchor of the mounted chapter.
    pub fn activate_result(&mut self, results: &[SearchHit], viewport: Option<Viewport>, lines: &[Option<u32>])
        ensures
            *final(self) == after_activate(
                *old(self),
                Seq::new(results@.len(), |i: int| results@[i]@),
                viewport,
                lines@,
            ),
    {
        if self.search_active >= results.len() {
            return;
        }
        let hit = &results[self.search_active];
        self.search_active = 0;
        self.search_open = false;
        match hit.kind {
            HitKind::Chapter => self.nav.goto_chapter(hit.chapter),
            _ => self.nav.goto(hit.chapter, hit.section, viewport, lines),
        }
    }

    /// Closes the overlay and forgets the highlighted result.
    pub fn close_search(&mut self)
        ensures
            *final(self) == (ShellState { search_open: false, search_active: 0, ..*old(self) }),
    {
        self.search_active = 0;
        self.search_open = false;
    }
}

/// The cells a committed root extent reports: `None` until the root has a
/// size, and at most `u16::MAX` cells.
pub fn measured_cells(extent: u32) -> (cells: Option<u16>)
    ensures
        extent == 0 ==> cells is None,
        extent > 0 ==> cells == Some(
            if extent > u16::MAX as u32 { u16::MAX } else { extent as u16 },
        ),
{
    if extent == 0 {
        None
    } else if extent > 65535 {
        Some(65535)
    } else {
        Some(extent as u16)
    }
}

/// The caption of the header's index toggle for an index treatment.
pub fn index_toggle_label(mode: WidthMode) -> (label: &'static str)
    ensures
        label@ == match mode {
            WidthMode::Narrow => "index hidden"@,
            WidthMode::Wide => "← index"@,
            WidthMode::Mixed => "→ index"@,
        },
{
    match mode {
        WidthMode::Narrow => "index hidden",
        WidthMode::Wide => "← index",
        WidthMode::Mixed => "→ index",
    }
}

/// The glyph and word of the header's light/dark toggle.
pub fn mode_badge(mode: ThemeMode) -> (badge: (&'static str, &'static str))
    ensures
        badge.0@ == match mode {
            ThemeMode::Dark => "☾"@,
            ThemeMode::Light => "☀"@,
        },
        badge.1@ == match mode {
            ThemeMode::Dark => "dark"@,
            ThemeMode::Light => "light"@,
        },
{
    match mode {
        ThemeMode::Dark => ("☾", "dark"),
        ThemeMode::Light => ("☀", "light"),
    }
}

/// Whether the header notes that the index is collapsed: the reader collapsed
/// it and the expanded index is not showing.
pub fn shows_collapsed_note(collapsed: bool, mode: WidthMode) -> (shown: bool)
    ensures
        shown == (collapsed && mode != WidthMode::Wide),
{
    collapsed && match mode {
        WidthMode::Wide => false,
        _ => true,
    }
}

/// What the search overlay's result area shows.
#[derive(Debug, Clone, Copy, PartialEq, Eq, Structural)]
pub enum SearchStatus {
    /// The query is blank: show how to search.
    Prompt,
    /// The query matched nothing.
    NoMatch,
    /// Show the ranked results.
    Results,
}

/// What the result area shows for a query and its number of results.
pub fn search_status(query: &str, results: usize) -> (status: SearchStatus)
    ensures
        status == if crate::text::trimmed(query@).len() == 0 {
            SearchStatus::Prompt
        } else if results == 0 {
            SearchStatus::NoMatch
        } else {
            SearchStatus::Results
        },
{
    let trimmed = crate::text::trim_chars(query);
    if trimmed.unicode_len() == 0 {
        SearchStatus::Prompt
    } else if results == 0 {
        SearchStatus::NoMatch
    } else {
        SearchStatus::Results
    }
}

/// Whether `i` is the first position of `preset` in `presets`.
pub open spec fn first_position(presets: Seq<u8>, preset: u8, i: int) -> bool {
    &&& 0 <= i < presets.len()
    &&& presets[i] == preset
    &&& forall|j: int| 0 <= j < i ==> presets[j] != preset
}

/// The preset after `preset` in the display order `presets`, wrapping at the
/// end; a preset missing from the list counts as the first one.
pub open spec fn next_preset_of(presets: Seq<u8>, preset: u8) -> u8 {
    let position = if exists|i: int| first_position(presets, preset, i) {
        choose|i: int| first_position(presets, preset, i)
    } else {
        0
    };
    presets[(position + 1) % (presets.len() as int)]
}

/// The theme preset the palette button switches to: the next one in display
/// order after `preset`, wrapping at the end. Presets are identified by their
/// ids; an id missing from the list is treated as the first preset.
pub fn next_preset(presets: &[u8], preset: u8) -> (next: u8)
    requires
        presets@.len() > 0,
    ensures
        next == next_preset_of(presets@, preset),
{
    let len = presets.len();
    let mut k: usize = 0;
    while k < len
        invariant
            len == presets@.len(),
            k <= len,
            forall|j: int| 0 <= j < k ==> presets@[j] != preset,
        decreases len - k,
    {
        if presets[k] == preset {
            proof {
                assert(first_position(presets@, preset, k as int));
                let i = choose|i: int| first_position(presets@, preset, i);
                if i < k {
                    assert(presets@[i] != preset);
                } else if k < i {
                    assert(presets@[k as int] != preset);
                }
            }
            return presets[(k + 1) % len];
        }
        k = k + 1;
    }
    proof {
        assert forall|i: int| !first_position(presets@, preset, i) by {
            if 0 <= i < presets@.len() && presets@[i] == preset {
                assert(presets@[i] != preset);
            }
        }
    }
    presets[1 % len]
}

/// Pressing the palette button on the preset at position `i` moves to the
/// preset at the next position, wrapping to the first after the last, when
/// that preset does not also appear earlier in the list.
pub proof fn lemma_next_preset_advances(presets: Seq<u8>, i: int)
    requires
        0 <= i < presets.len(),
        forall|j: int| 0 <= j < i ==> presets[j] != presets[i],
    ensures
        next_preset_of(presets, presets[i]) == presets[(i + 1) % (presets.len() as int)],
{
    assert(first_position(presets, presets[i], i));
    let k = choose|k: int| first_position(presets, presets[i], k);
    if k < i {
        assert(presets[k] != presets[i]);
    } else if i < k {
        assert(presets[i] != presets[i]);
    }
}

/// The chapter accelerators step through the guide one chapter at a time,
/// wrapping at both ends: previous-chapter mounts the chapter just before the
/// current one (the last from the first), next-chapter the one just after
/// (the first from the last), and each undoes the other.
pub proof fn lemma_chapter_shortcuts_step(
    state: ShellState,
    viewport: Option<Viewport>,
    lines: Seq<Option<u32>>,
)
    requires
        state.nav.chapter < CHAPTER_COUNT,
    ensures
        after_shortcut(state, Shortcut::PrevChapter, viewport, lines).nav.chapter == if state.nav.chapter
            == 0 {
            CHAPTER_COUNT - 1
        } else {
            state.nav.chapter - 1
        },
        after_shortcut(state, Shortcut::NextChapter, viewport, lines).nav.chapter == if state.nav.chapter
            == CHAPTER_COUNT - 1 {
            0
        } else {
            state.nav.chapter + 1
        },
        after_shortcut(
            after_shortcut(state, Shortcut::PrevChapter, viewport, lines),
            Shortcut::NextChapter,
            viewport,
            lines,
        ).nav.chapter == state.nav.chapter,
        after_shortcut(
            after_shortcut(state, Shortcut::NextChapter, viewport, lines),
            Shortcut::PrevChapter,
            viewport,
            lines,
        ).nav.chapter == state.nav.chapter,
{
}

/// The document column takes every cell the displayed index leaves, and
/// never fewer than twelve: the width minus what the reported index mode
/// reserves. The reported mode is the one the width and the collapse
/// preference select, so collapsing the index on a wide terminal widens the
/// column by the difference between the expanded index and the rail.
pub proof fn lemma_column_takes_what_the_index_leaves(width: u16, collapsed: bool)
    ensures
        metrics_for(width, collapsed).index_mode == mode_for(width, collapsed),
        metrics_for(width, collapsed).content_width as int == if width as int - reserved_for(
            metrics_for(width, collapsed).index_mode,
        ) as int <= 12 {
            12
        } else {
            width as int - reserved_for(metrics_for(width, collapsed).index_mode) as int
        },
        width >= WIDE_BREAKPOINT ==> metrics_for(width, true).content_width as int == metrics_for(
            width,
            false,
        ).content_width as int + (INDEX_WIDTH - RAIL_WIDTH) as int,
{
}

/// Activating a highlighted result closes the overlay and goes where the hit
/// points. A chapter hit switches chapter. Any other hit (a section title, a
/// type name, or an alias) goes to its section: in the mounted chapter it is
/// the same jump as moving to that section; in another chapter that exists,
/// that chapter is mounted at its top with the section waiting to be applied
/// once its anchor commits. With no highlighted result nothing changes.
pub proof fn lemma_activation_goes_to_the_hit(
    state: ShellState,
    results: Seq<HitModel>,
    viewport: Option<Viewport>,
    lines: Seq<Option<u32>>,
)
    ensures
        state.search_active >= results.len() ==> after_activate(state, results, viewport, lines)
            == state,
        state.search_active < results.len() ==> {
            let hit = results[state.search_active as int];
            let after = after_activate(state, results, viewport, lines);
            &&& !after.search_open
            &&& after.search_active == 0
            &&& after.collapsed == state.collapsed
            &&& hit.kind == HitKind::Chapter ==> after.nav == after_goto_chapter(
                state.nav,
                hit.chapter,
            )
            &&& hit.kind != HitKind::Chapter && hit.chapter == state.nav.chapter ==> after.nav
                == after_goto_section(state.nav, hit.section, viewport, lines)
            &&& hit.kind != HitKind::Chapter && hit.chapter != state.nav.chapter && hit.chapter
                < CHAPTER_COUNT ==> after.nav.chapter == hit.chapter && after.nav.pending == Some(
                hit.section,
            ) && after.nav.active == 0 && after.nav.scroll.x == 0 && after.nav.scroll.y == 0
        },
{
}

/// The section accelerators move one section at a time inside the mounted
/// chapter and stop at its ends: next-section goes to the section after the
/// active one, or stays on the last; previous-section goes to the one before,
/// or stays on the first. Neither changes the chapter, the overlay or the
/// index preference.
pub proof fn lemma_section_shortcuts_step(
    state: ShellState,
    viewport: Option<Viewport>,
    lines: Seq<Option<u32>>,
)
    requires
        0 < lines.len() <= usize::MAX,
        state.nav.active < lines.len(),
    ensures
        after_shortcut(state, Shortcut::NextSection, viewport, lines).nav == after_goto_section(
            state.nav,
            (if state.nav.active + 1 < lines.len() {
                state.nav.active + 1
            } else {
                state.nav.active as int
            }) as usize,
            viewport,
            lines,
        ),
        after_shortcut(state, Shortcut::PrevSection, viewport, lines).nav == after_goto_section(
            state.nav,
            (if state.nav.active > 0 {
                state.nav.active - 1
            } else {
                0int
            }) as usize,
            viewport,
            lines,
        ),
        after_shortcut(state, Shortcut::NextSection, viewport, lines).nav.chapter == state.nav.chapter,
        after_shortcut(state, Shortcut::PrevSection, viewport, lines).nav.chapter == state.nav.chapter,
        after_shortcut(state, Shortcut::NextSection, viewport, lines).search_open == state.search_open,
        after_shortcut(state, Shortcut::PrevSection, viewport, lines).collapsed == state.collapsed,
{
}

} // verus!
