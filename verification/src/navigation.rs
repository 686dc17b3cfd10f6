//! Chapter routing decisions, the shared scroll viewport, and scroll-spy.
//!
//! The shell owns the mounted chapter, the active-section indicator, the
//! controlled document scroll offset, and a pending section destination that
//! lets a search result land in a chapter whose section anchors have not
//! committed yet. This module holds that state and every decision the
//! navigator makes; the shell reads committed geometry, hands it over as plain
//! values, and mirrors the resulting state into its renderer.
use vstd::prelude::*;

use crate::registry::CHAPTER_COUNT;

verus! {

/// A controlled scroll offset in cells.
#[derive(Debug, Clone, Copy, PartialEq, Eq, Structural)]
pub struct ScrollOffset {
    /// Horizontal offset.
    pub x: u32,
    /// Vertical offset.
    pub y: u32,
}

impl ScrollOffset {
    /// The top-left offset.
    pub fn top() -> (offset: Self)
        ensures
            offset.x == 0 && offset.y == 0,
    {
        ScrollOffset { x: 0, y: 0 }
    }
}

/// What the document viewport committed: where its content starts, how far it
/// is scrolled, and how far it can scroll vertically.
#[derive(Debug, Clone, Copy, PartialEq, Eq, Structural)]
pub struct Viewport {
    /// First line of the viewport's content box.
    pub content_line: u32,
    /// Current scroll offset.
    pub offset: ScrollOffset,
    /// Largest vertical offset.
    pub max_offset_y: u32,
}

/// `a - b`, or `0` when `b` exceeds `a`.
pub open spec fn sat_sub(a: int, b: int) -> int {
    if a >= b { a - b } else { 0 }
}

/// The vertical offset that brings a section whose top is `section_line` to
/// the top of `viewport`.
pub open spec fn target_y(viewport: Viewport, section_line: u32) -> u32 {
    let wanted = viewport.offset.y + sat_sub(section_line as int, viewport.content_line as int);
    if wanted > viewport.max_offset_y {
        viewport.max_offset_y
    } else {
        wanted as u32
    }
}

/// Scroll offset that brings a section to the top of the viewport, when both
/// have committed geometry.
pub open spec fn target_for(viewport: Option<Viewport>, section_line: Option<u32>) -> Option<
    ScrollOffset,
> {
    match (viewport, section_line) {
        (Some(v), Some(line)) => Some(ScrollOffset { x: v.offset.x, y: target_y(v, line) }),
        _ => None,
    }
}

/// Scroll offset that brings `section_line` to the top of the viewport.
pub fn scroll_target(viewport: Option<Viewport>, section_line: Option<u32>) -> (target: Option<
    ScrollOffset,
>)
    ensures
        target == target_for(viewport, section_line),
        target matches Some(t) ==> t.y <= viewport->0.max_offset_y,
{
    match (viewport, section_line) {
        (Some(v), Some(line)) => {
            let relative: u64 = if line >= v.content_line {
                (line - v.content_line) as u64
            } else {
                0
            };
            let wanted: u64 = v.offset.y as u64 + relative;
            let y: u32 = if wanted > v.max_offset_y as u64 {
                v.max_offset_y
            } else {
                wanted as u32
            };
            Some(ScrollOffset { x: v.offset.x, y })
        },
        _ => None,
    }
}

/// Whether no section before position `n` has committed a top below `anchor`.
pub open spec fn reached(lines: Seq<Option<u32>>, anchor: int, n: int) -> bool {
    forall|k: int| 0 <= k < n ==> match #[trigger] lines[k] {
        Some(line) => line <= anchor,
        None => true,
    }
}

/// Whether `a` is the active section for section tops `lines` and an anchor
/// line: the last committed section whose top has reached the anchor before
/// any committed section that has not, or the first section when none has.
pub open spec fn is_active_for(lines: Seq<Option<u32>>, anchor: int, a: int) -> bool {
    if exists|i: int| #[trigger] spy_candidate(lines, anchor, i) {
        spy_candidate(lines, anchor, a) && forall|j: int|
            a < j ==> !#[trigger] spy_candidate(lines, anchor, j)
    } else {
        a == 0
    }
}

/// Whether section `i` is committed and every committed section up to and
/// including it has reached `anchor`.
pub open spec fn spy_candidate(lines: Seq<Option<u32>>, anchor: int, i: int) -> bool {
    0 <= i < lines.len() && lines[i] is Some && reached(lines, anchor, i + 1)
}

/// The active section is well defined: one set of section tops and one anchor
/// line single out exactly one section.
pub proof fn lemma_active_section_unique(lines: Seq<Option<u32>>, anchor: int, a: int, b: int)
    requires
        is_active_for(lines, anchor, a),
        is_active_for(lines, anchor, b),
    ensures
        a == b,
{
    if exists|i: int| #[trigger] spy_candidate(lines, anchor, i) {
        assert(spy_candidate(lines, anchor, a) && spy_candidate(lines, anchor, b));
        if a < b {
            assert(!spy_candidate(lines, anchor, b));
        }
        if b < a {
            assert(!spy_candidate(lines, anchor, a));
        }
    }
}

/// The anchor line a viewport's scroll-spy compares section tops against.
pub open spec fn anchor_of(viewport: Viewport) -> int {
    if viewport.content_line == u32::MAX {
        u32::MAX as int
    } else {
        viewport.content_line + 1
    }
}

/// Whether a viewport is scrolled to its very end.
pub open spec fn at_end(viewport: Viewport) -> bool {
    viewport.offset.y >= viewport.max_offset_y && viewport.max_offset_y > 0
}

/// Computes the active section from the committed document geometry.
///
/// At the very end of a scrollable document the last section is active;
/// otherwise it is the last committed section whose top has reached the first
/// content line, scanning stops at the first committed section that has not.
pub fn measured_active_section(viewport: Option<Viewport>, lines: &[Option<u32>]) -> (active:
    Option<usize>)
    ensures
        match viewport {
            None => active is None,
            Some(v) => if at_end(v) {
                active == if lines@.len() > 0 {
                    Some((lines@.len() - 1) as usize)
                } else {
                    None::<usize>
                }
            } else {
                active matches Some(a) && is_active_for(lines@, anchor_of(v), a as int)
            },
        },
{
    let v = match viewport {
        None => return None,
        Some(v) => v,
    };
    if v.offset.y >= v.max_offset_y && v.max_offset_y > 0 {
        return lines.len().checked_sub(1);
    }
    let anchor: u32 = v.content_line.saturating_add(1);
    let ghost anchor_int = anchor_of(v);
    let mut active: usize = 0;
    let mut any = false;
    let mut k: usize = 0;
    while k < lines.len()
        invariant
            anchor as int == anchor_int,
            k <= lines@.len(),
            reached(lines@, anchor_int, k as int),
            any ==> spy_candidate(lines@, anchor_int, active as int) && active < k,
            !any ==> active == 0,
            forall|j: int| 0 <= j < k && #[trigger] spy_candidate(lines@, anchor_int, j) ==> any && j <= active,
        ensures
            forall|j: int| #[trigger] spy_candidate(lines@, anchor_int, j) ==> any && j <= active,
            any ==> spy_candidate(lines@, anchor_int, active as int),
            !any ==> active == 0,
        decreases lines@.len() - k,
    {
        match lines[k] {
            None => {},
            Some(line) => {
                if line <= anchor {
                    active = k;
                    any = true;
                } else {
                    proof {
                        assert forall|j: int| #[trigger] spy_candidate(lines@, anchor_int, j) implies any && j <= active by {
                            if j >= k {
                                assert(!reached(lines@, anchor_int, j + 1)) by {
                                    assert(lines@[k as int] == Some(line));
                                }
                            }
                        }
                    }
                    break;
                }
            },
        }
        k = k + 1;
    }
    proof {
        if any {
            assert(exists|i: int| #[trigger] spy_candidate(lines@, anchor_int, i)) by {
                assert(spy_candidate(lines@, anchor_int, active as int));
            }
        } else {
            assert(!exists|i: int| #[trigger] spy_candidate(lines@, anchor_int, i));
        }
    }
    Some(active)
}

/// The navigation state the shell renders from.
#[derive(Debug, Clone, Copy, PartialEq, Eq, Structural)]
pub struct Navigator {
    /// The chapter currently mounted.
    pub chapter: usize,
    /// The active-section indicator.
    pub active: usize,
    /// A section destination waiting for the mounted chapter's anchors.
    pub pending: Option<usize>,
    /// The controlled document scroll offset.
    pub scroll: ScrollOffset,
}

/// The state after a chapter switch to `chapter`, parking `pending`.
pub open spec fn switched(nav: Navigator, chapter: usize, pending: Option<usize>) -> Navigator {
    Navigator { chapter: chapter, active: 0, pending: pending, scroll: ScrollOffset { x: 0, y: 0 } }
}

/// The state `goto_chapter` leads to.
pub open spec fn after_goto_chapter(nav: Navigator, chapter: usize) -> Navigator {
    if chapter == nav.chapter || chapter >= CHAPTER_COUNT {
        nav
    } else {
        switched(nav, chapter, None)
    }
}

/// The state `goto_section` leads to.
pub open spec fn after_goto_section(
    nav: Navigator,
    section: usize,
    viewport: Option<Viewport>,
    lines: Seq<Option<u32>>,
) -> Navigator {
    if section >= lines.len() {
        nav
    } else {
        match target_for(viewport, lines[section as int]) {
            Some(target) => Navigator { active: section, scroll: target, ..nav },
            None => Navigator { pending: Some(section), ..nav },
        }
    }
}

/// The state `goto` leads to.
pub open spec fn after_goto(
    nav: Navigator,
    chapter: usize,
    section: usize,
    viewport: Option<Viewport>,
    lines: Seq<Option<u32>>,
) -> Navigator {
    if chapter == nav.chapter {
        after_goto_section(nav, section, viewport, lines)
    } else if chapter >= CHAPTER_COUNT {
        nav
    } else {
        switched(nav, chapter, Some(section))
    }
}

/// The state resolving a pending destination leads to, and whether one was
/// applied.
pub open spec fn after_resolve(nav: Navigator, viewport: Option<Viewport>, lines: Seq<Option<u32>>) -> (
    Navigator,
    bool,
) {
    match nav.pending {
        None => (nav, false),
        Some(target) => if target >= lines.len() {
            (Navigator { pending: None, ..nav }, false)
        } else {
            match target_for(viewport, lines[target as int]) {
                None => (nav, false),
                Some(offset) => (
                    Navigator { pending: None, active: target, scroll: offset, ..nav },
                    true,
                ),
            }
        },
    }
}

/// Whether `after` is `before` with the active section recomputed by the
/// scroll-spy: at the very end of a scrollable document the last section,
/// otherwise the section the anchor line has reached; without a committed
/// viewport, or without sections at the end, nothing changes.
pub open spec fn refreshed(before: Navigator, after: Navigator, viewport: Option<Viewport>, lines: Seq<
    Option<u32>,
>) -> bool {
    &&& after.chapter == before.chapter
    &&& after.pending == before.pending
    &&& after.scroll == before.scroll
    &&& match viewport {
        None => after.active == before.active,
        Some(v) => if at_end(v) {
            after.active == if lines.len() > 0 {
                (lines.len() - 1) as usize
            } else {
                before.active
            }
        } else {
            is_active_for(lines, anchor_of(v), after.active as int)
        },
    }
}

impl Navigator {
    /// The navigator of a freshly mounted shell on `chapter`.
    pub fn new(chapter: usize) -> (nav: Self)
        ensures
            nav.chapter == chapter,
            nav.active == 0,
            nav.pending is None,
            nav.scroll == (ScrollOffset { x: 0, y: 0 }),
    {
        Navigator { chapter, active: 0, pending: None, scroll: ScrollOffset::top() }
    }

    /// The chapter currently mounted.
    pub fn chapter_index(&self) -> (chapter: usize)
        ensures
            chapter == self.chapter,
    {
        self.chapter
    }

    /// Switches chapter and resets the document to its top.
    pub fn goto_chapter(&mut self, chapter: usize)
        ensures
            *final(self) == after_goto_chapter(*old(self), chapter),
    {
        if chapter == self.chapter || chapter >= CHAPTER_COUNT {
            return;
        }
        self.pending = None;
        self.active = 0;
        self.chapter = chapter;
        self.scroll = ScrollOffset::top();
    }

    /// Scrolls to a section in the mounted chapter, or parks it until the
    /// section's anchor commits. `lines` holds the committed top of every
    /// section anchor of the mounted chapter.
    pub fn goto_section(&mut self, section: usize, viewport: Option<Viewport>, lines: &[Option<u32>])
        ensures
            *final(self) == after_goto_section(*old(self), section, viewport, lines@),
    {
        if section >= lines.len() {
            return;
        }
        match scroll_target(viewport, lines[section]) {
            Some(target) => {
                self.active = section;
                self.scroll = target;
            },
            None => {
                self.pending = Some(section);
            },
        }
    }

    /// Navigates to a destination, parking it when the chapter is not mounted.
    pub fn goto(&mut self, chapter: usize, section: usize, viewport: Option<Viewport>, lines: &[Option<u32>])
        ensures
            *final(self) == after_goto(*old(self), chapter, section, viewport, lines@),
    {
        if chapter == self.chapter {
            self.goto_section(section, viewport, lines);
            return;
        }
        if chapter >= CHAPTER_COUNT {
            return;
        }
        self.pending = Some(section);
        self.active = 0;
        self.chapter = chapter;
        self.scroll = ScrollOffset::top();
    }

    /// Resolves a pending section destination once its anchor has committed.
    ///
    /// Returns whether a destination was applied, so the caller can skip the
    /// scroll-spy pass that would otherwise recompute from pre-scroll geometry.
    pub fn resolve_pending(&mut self, viewport: Option<Viewport>, lines: &[Option<u32>]) -> (applied: bool)
        ensures
            (*final(self), applied) == after_resolve(*old(self), viewport, lines@),
    {
        let target = match self.pending {
            None => return false,
            Some(target) => target,
        };
        if target >= lines.len() {
            self.pending = None;
            return false;
        }
        match scroll_target(viewport, lines[target]) {
            None => false,
            Some(offset) => {
                self.pending = None;
                self.active = target;
                self.scroll = offset;
                true
            },
        }
    }

    /// Recomputes the active section from committed geometry.
    pub fn refresh_active(&mut self, viewport: Option<Viewport>, lines: &[Option<u32>])
        ensures
            refreshed(*old(self), *final(self), viewport, lines@),
    {
        if let Some(next) = measured_active_section(viewport, lines) {
            if self.active != next {
                self.active = next;
            }
        }
    }

    /// Handles a committed geometry change: a pending destination is applied
    /// first, and only when none was does the scroll-spy recompute.
    pub fn on_geometry_change(&mut self, viewport: Option<Viewport>, lines: &[Option<u32>])
        ensures
            ({
                let (resolved, applied) = after_resolve(*old(self), viewport, lines@);
                if applied {
                    *final(self) == resolved
                } else {
                    refreshed(resolved, *final(self), viewport, lines@)
                }
            }),
    {
        if !self.resolve_pending(viewport, lines) {
            self.refresh_active(viewport, lines);
        }
    }
}

/// Switching chapter always returns to the top of the new chapter with the
/// first section active and nothing parked; switching to the mounted chapter,
/// or to a chapter that does not exist, changes nothing.
pub proof fn lemma_chapter_switch_resets(nav: Navigator, chapter: usize)
    ensures
        chapter != nav.chapter && chapter < CHAPTER_COUNT ==> {
            let next = after_goto_chapter(nav, chapter);
            &&& next.chapter == chapter
            &&& next.active == 0
            &&& next.pending is None
            &&& next.scroll == (ScrollOffset { x: 0, y: 0 })
        },
        chapter == nav.chapter || chapter >= CHAPTER_COUNT ==> after_goto_chapter(nav, chapter)
            == nav,
{
}

/// A destination in another chapter is parked and then, once the new
/// chapter's anchor for it commits, applied exactly once: the section becomes
/// active, the document scrolls to it, and nothing stays parked.
pub proof fn lemma_parked_destination_resolves(
    nav: Navigator,
    chapter: usize,
    section: usize,
    viewport: Viewport,
    lines: Seq<Option<u32>>,
)
    requires
        chapter != nav.chapter,
        chapter < CHAPTER_COUNT,
        section < lines.len(),
        lines[section as int] is Some,
    ensures
        ({
            let parked = after_goto(nav, chapter, section, Some(viewport), lines);
            let (resolved, applied) = after_resolve(parked, Some(viewport), lines);
            &&& parked.pending == Some(section)
            &&& parked.chapter == chapter
            &&& applied
            &&& resolved.pending is None
            &&& resolved.active == section
            &&& resolved.chapter == chapter
            &&& resolved.scroll == target_for(Some(viewport), lines[section as int])->0
            &&& after_resolve(resolved, Some(viewport), lines) == (resolved, false)
        }),
{
}

/// A jump inside the mounted chapter resolves immediately when the section's
/// anchor has committed: nothing is parked, and the scroll target never leaves
/// the viewport's range.
pub proof fn lemma_section_jump_scrolls(nav: Navigator, section: usize, viewport: Viewport, lines: Seq<Option<u32>>)
    requires
        section < lines.len(),
        lines[section as int] is Some,
    ensures
        ({
            let next = after_goto_section(nav, section, Some(viewport), lines);
            &&& next.active == section
            &&& next.pending == nav.pending
            &&& next.scroll.y <= viewport.max_offset_y
            &&& next.chapter == nav.chapter
        }),
{
}

} // verus!
