use cargo_icmd::shell::next_preset;
use cargo_icmd::shell::{index_toggle_label, measured_cells, mode_badge, search_status, shows_collapsed_note, SearchStatus};
use cargo_icmd::demos::WidthMode as IndexMode;
use cargo_icmd::navigation::{Navigator, ScrollOffset, Viewport};
use cargo_icmd::registry::guide;
use cargo_icmd::search::search;
use cargo_icmd::shell::{
    clamp_search_active, move_search_selection, next_mode, search_dialog_size, shell_metrics,
    shell_shortcut, Key, KeyPress, ShellState, Shortcut, ThemeMode,
};

fn press(key: Key, control: bool, alt: bool) -> KeyPress {
    KeyPress { key, control, alt, super_key: false, meta: false }
}

#[test]
fn index_mode_respects_width_and_reader_preference() {
    assert_eq!(IndexMode::for_width(140, false), IndexMode::Wide);
    assert_eq!(IndexMode::for_width(140, true), IndexMode::Mixed);
    assert_eq!(IndexMode::for_width(110, false), IndexMode::Wide);
    assert_eq!(IndexMode::for_width(109, false), IndexMode::Mixed);
    assert_eq!(IndexMode::for_width(72, false), IndexMode::Mixed);
    assert_eq!(IndexMode::for_width(71, false), IndexMode::Narrow);
    assert_eq!(IndexMode::for_width(60, true), IndexMode::Narrow);
}

#[test]
fn shortcut_only_matches_modifier_chords() {
    for key in [
        Key::Char('q'),
        Key::Char('1'),
        Key::Char('k'),
        Key::Char('b'),
        Key::Left,
        Key::Right,
        Key::Up,
        Key::Down,
    ] {
        assert_eq!(
            shell_shortcut(&press(key, false, false)),
            None,
            "bare {key:?} must not be a shell shortcut"
        );
    }
    let cases = [
        (Key::Char('k'), true, false, Shortcut::ToggleSearch),
        (Key::Char('b'), true, false, Shortcut::ToggleIndex),
        (Key::Left, false, true, Shortcut::PrevChapter),
        (Key::Right, false, true, Shortcut::NextChapter),
        (Key::Up, false, true, Shortcut::PrevSection),
        (Key::Down, false, true, Shortcut::NextSection),
        (Key::Esc, false, false, Shortcut::CloseSearch),
    ];
    for (key, control, alt, expected) in cases {
        assert_eq!(shell_shortcut(&press(key, control, alt)), Some(expected), "{key:?}");
    }
}

#[test]
fn chords_with_both_modifiers_or_super_are_not_accelerators() {
    assert_eq!(shell_shortcut(&press(Key::Char('k'), true, true)), None);
    assert_eq!(shell_shortcut(&press(Key::Esc, true, false)), None);
    let with_super = KeyPress { key: Key::Left, control: false, alt: true, super_key: true, meta: false };
    assert_eq!(shell_shortcut(&with_super), None);
    let with_meta = KeyPress { key: Key::Right, control: false, alt: true, super_key: false, meta: true };
    assert_eq!(shell_shortcut(&with_meta), None);
    // Super or Meta alone do not turn Control into anything else
    let control_super = KeyPress { key: Key::Char('k'), control: true, alt: true, super_key: true, meta: false };
    assert_eq!(shell_shortcut(&control_super), Some(Shortcut::ToggleSearch));
}

#[test]
fn mode_toggles_back_and_forth() {
    assert_eq!(next_mode(ThemeMode::Dark), ThemeMode::Light);
    assert_eq!(next_mode(ThemeMode::Light), ThemeMode::Dark);
}

#[test]
fn accelerators_drive_the_shell_state() {
    let lines = [Some(1), Some(27), Some(53)];
    let viewport = Some(Viewport { content_line: 1, offset: ScrollOffset { x: 0, y: 0 }, max_offset_y: 56 });
    let mut state = ShellState::new(0, false, false);
    state.apply_shortcut(Shortcut::PrevChapter, viewport, &lines);
    assert_eq!(state.nav.chapter, 9);
    state.apply_shortcut(Shortcut::NextChapter, viewport, &lines);
    assert_eq!(state.nav.chapter, 0);
    state.apply_shortcut(Shortcut::NextSection, viewport, &lines);
    assert_eq!(state.nav.active, 1);
    assert_eq!(state.nav.scroll.y, 26);
    state.apply_shortcut(Shortcut::NextSection, viewport, &lines);
    state.apply_shortcut(Shortcut::NextSection, viewport, &lines);
    assert_eq!(state.nav.active, 2);
    state.apply_shortcut(Shortcut::PrevSection, viewport, &lines);
    assert_eq!(state.nav.active, 1);
    state.apply_shortcut(Shortcut::ToggleIndex, viewport, &lines);
    assert!(state.collapsed);
    state.search_active = 4;
    state.apply_shortcut(Shortcut::ToggleSearch, viewport, &lines);
    assert!(state.search_open);
    assert_eq!(state.search_active, 0);
    state.apply_shortcut(Shortcut::ToggleSearch, viewport, &lines);
    assert!(!state.search_open);
    state.search_open = true;
    state.search_active = 3;
    state.apply_shortcut(Shortcut::CloseSearch, viewport, &lines);
    assert!(!state.search_open);
    assert_eq!(state.search_active, 0);
    assert_eq!(ShellState::new(40, false, true).nav.chapter, 9);
}

#[test]
fn metrics_follow_the_breakpoints() {
    let wide = shell_metrics(140, false);
    assert_eq!(wide.index_mode, IndexMode::Wide);
    assert_eq!(wide.content_width, 110);
    assert!(wide.wide && wide.show_navigation);
    let rail = shell_metrics(80, false);
    assert_eq!(rail.index_mode, IndexMode::Mixed);
    assert_eq!(rail.content_width, 73);
    assert!(!rail.wide && rail.show_navigation);
    let narrow = shell_metrics(10, false);
    assert_eq!(narrow.content_width, 12);
    assert!(!narrow.show_navigation);
    assert_eq!(search_dialog_size(110, 140, 45), (78, 16));
    assert_eq!(search_dialog_size(73, 80, 24), (69, 16));
    assert_eq!(search_dialog_size(12, 20, 10), (20, 7));
    assert_eq!(search_dialog_size(12, 60, 20), (34, 12));
}

#[test]
fn search_selection_wraps_and_activates() {
    assert_eq!(move_search_selection(0, 0, true), None);
    assert_eq!(move_search_selection(3, 2, true), Some(0));
    assert_eq!(move_search_selection(3, 0, false), Some(2));
    assert_eq!(move_search_selection(3, 9, false), Some(1));
    assert_eq!(clamp_search_active(5, 3), 2);
    assert_eq!(clamp_search_active(1, 3), 1);
    assert_eq!(clamp_search_active(4, 0), 0);

    let chapters = guide();
    let results = search(&chapters, "scroll_area");
    let target = results.iter().position(|hit| hit.label == "scroll_area").unwrap();
    let mut state = ShellState::new(0, false, true);
    state.search_active = target;
    state.activate_result(&results, None, &[]);
    assert!(!state.search_open);
    assert_eq!(state.search_active, 0);
    assert_eq!(state.nav.chapter, results[target].chapter);
    assert_eq!(state.nav.pending, Some(results[target].section));

    let chapter_hits = search(&chapters, "themes");
    let mut other = ShellState::new(0, false, true);
    other.activate_result(&chapter_hits, None, &[]);
    assert_eq!(other.nav.chapter, 7);
    assert_eq!(other.nav.pending, None);
    let before = Navigator::new(0);
    let mut idle = ShellState::new(0, false, true);
    idle.search_active = 99;
    idle.activate_result(&chapter_hits, None, &[]);
    assert_eq!(idle.nav, before);
    assert!(idle.search_open);
    idle.close_search();
    assert!(!idle.search_open);
}

#[test]
fn header_labels_and_measurements() {
    assert_eq!(index_toggle_label(IndexMode::Narrow), "index hidden");
    assert_eq!(index_toggle_label(IndexMode::Wide), "← index");
    assert_eq!(index_toggle_label(IndexMode::Mixed), "→ index");
    assert_eq!(mode_badge(ThemeMode::Dark), ("☾", "dark"));
    assert_eq!(mode_badge(ThemeMode::Light), ("☀", "light"));
    assert!(shows_collapsed_note(true, IndexMode::Mixed));
    assert!(!shows_collapsed_note(true, IndexMode::Wide));
    assert!(!shows_collapsed_note(false, IndexMode::Narrow));
    assert_eq!(measured_cells(0), None);
    assert_eq!(measured_cells(80), Some(80));
    assert_eq!(measured_cells(100_000), Some(u16::MAX));
    assert_eq!(search_status("  ", 0), SearchStatus::Prompt);
    assert_eq!(search_status(" zzz ", 0), SearchStatus::NoMatch);
    assert_eq!(search_status("state", 3), SearchStatus::Results);
}

#[test]
fn the_palette_button_cycles_presets_in_display_order() {
    let presets = [3u8, 7, 1, 9];
    assert_eq!(next_preset(&presets, 3), 7);
    assert_eq!(next_preset(&presets, 1), 9);
    assert_eq!(next_preset(&presets, 9), 3);
    assert_eq!(next_preset(&presets, 42), 7);
    assert_eq!(next_preset(&[5u8], 5), 5);
    let mut current = presets[0];
    for _ in 0..presets.len() {
        current = next_preset(&presets, current);
    }
    assert_eq!(current, presets[0]);
}
