use cargo_icmd::navigation::{
    measured_active_section, scroll_target, Navigator, ScrollOffset, Viewport,
};

/// Three tracked sections of a document laid out one under another.
const LINES: [Option<u32>; 3] = [Some(1), Some(27), Some(53)];

fn viewport(offset_y: u32) -> Viewport {
    Viewport {
        content_line: 1,
        offset: ScrollOffset { x: 0, y: offset_y },
        max_offset_y: 56,
    }
}

#[test]
fn scroll_target_requires_committed_refs() {
    assert!(scroll_target(None, None).is_none());
    assert!(scroll_target(Some(viewport(0)), None).is_none());
    assert!(scroll_target(None, Some(4)).is_none());
}

#[test]
fn scroll_target_adds_the_relative_line_and_clamps() {
    assert_eq!(
        scroll_target(Some(viewport(3)), Some(27)),
        Some(ScrollOffset { x: 0, y: 29 })
    );
    assert_eq!(
        scroll_target(Some(viewport(40)), Some(53)),
        Some(ScrollOffset { x: 0, y: 56 })
    );
    // a section above the content box scrolls nowhere further up
    assert_eq!(
        scroll_target(Some(viewport(5)), Some(0)),
        Some(ScrollOffset { x: 0, y: 5 })
    );
}

#[test]
fn measured_active_section_requires_committed_viewport() {
    assert!(measured_active_section(None, &[]).is_none());
}

#[test]
fn measured_active_section_follows_the_anchor_line() {
    assert_eq!(measured_active_section(Some(viewport(0)), &LINES), Some(0));
    let scrolled = [Some(1 - 1), Some(2), Some(28)];
    assert_eq!(measured_active_section(Some(viewport(26)), &scrolled), Some(1));
    assert_eq!(measured_active_section(Some(viewport(56)), &LINES), Some(2));
    assert_eq!(measured_active_section(Some(viewport(0)), &[None, None]), Some(0));
    // an uncommitted section is skipped, a committed one below the anchor stops the scan
    assert_eq!(
        measured_active_section(Some(viewport(0)), &[Some(0), None, Some(2), Some(40), Some(1)]),
        Some(2)
    );
    assert_eq!(measured_active_section(Some(viewport(56)), &[]), None);
}

#[test]
fn section_jump_scrolls_and_reports_a_new_active_section() {
    let mut nav = Navigator::new(0);
    nav.goto_section(2, Some(viewport(0)), &LINES);
    assert!(
        nav.pending.is_none(),
        "a same-chapter jump must resolve immediately rather than stay parked"
    );
    assert!(
        nav.active >= 1,
        "the jump must move the active section away from the first one"
    );
    assert!(
        nav.scroll.y > 0,
        "the jump must scroll the document rather than stay at the top"
    );
}

#[test]
fn chapter_change_resets_the_active_section_and_the_pending_target() {
    let mut nav = Navigator {
        chapter: 0,
        active: 2,
        pending: Some(2),
        scroll: ScrollOffset { x: 0, y: 30 },
    };
    nav.goto_chapter(1);
    assert_eq!(nav.chapter, 1);
    assert_eq!(nav.active, 0, "switching chapter resets the active-section indicator");
    assert!(nav.pending.is_none(), "switching chapter clears a parked destination");
    assert_eq!(
        nav.scroll,
        ScrollOffset::top(),
        "switching chapter returns the document to its top"
    );
}

#[test]
fn switching_to_the_mounted_or_a_missing_chapter_changes_nothing() {
    let start = Navigator {
        chapter: 3,
        active: 1,
        pending: None,
        scroll: ScrollOffset { x: 0, y: 9 },
    };
    let mut nav = start;
    nav.goto_chapter(3);
    assert_eq!(nav, start);
    nav.goto_chapter(10);
    assert_eq!(nav, start);
    nav.goto(11, 0, None, &LINES);
    assert_eq!(nav, start);
    assert_eq!(nav.chapter_index(), 3);
}

#[test]
fn pending_section_navigation_resolves_once_refs_mount() {
    let mut nav = Navigator::new(0);
    nav.goto(2, 2, None, &[]);
    assert_eq!(nav.chapter, 2);
    assert_eq!(nav.pending, Some(2));
    // nothing has committed yet: the destination stays parked
    assert!(!nav.resolve_pending(None, &[None, None, None]));
    assert_eq!(nav.pending, Some(2));
    // once the anchors mount, the destination applies exactly once
    assert!(nav.resolve_pending(Some(viewport(0)), &LINES));
    assert!(nav.pending.is_none(), "the parked destination must clear once the target ref mounts");
    assert_eq!(nav.active, 2);
    assert_eq!(nav.scroll, ScrollOffset { x: 0, y: 52 });
    assert!(!nav.resolve_pending(Some(viewport(0)), &LINES));
}

#[test]
fn a_parked_destination_past_the_chapter_is_dropped() {
    let mut nav = Navigator::new(0);
    nav.goto(1, 9, None, &[]);
    assert!(!nav.resolve_pending(Some(viewport(0)), &LINES));
    assert!(nav.pending.is_none());
    assert_eq!(nav.active, 0);
}

#[test]
fn a_section_jump_without_geometry_parks_and_geometry_change_applies_it() {
    let mut nav = Navigator::new(4);
    nav.goto_section(1, None, &LINES);
    assert_eq!(nav.pending, Some(1));
    assert_eq!(nav.active, 0);
    nav.on_geometry_change(Some(viewport(0)), &LINES);
    assert!(nav.pending.is_none());
    assert_eq!(nav.active, 1);
    assert_eq!(nav.scroll.y, 26);
    // with nothing parked the scroll-spy takes over
    nav.on_geometry_change(Some(viewport(56)), &LINES);
    assert_eq!(nav.active, 2);
    nav.refresh_active(None, &LINES);
    assert_eq!(nav.active, 2);
    nav.goto_section(7, Some(viewport(0)), &LINES);
    assert_eq!(nav.active, 2);
}
