use std::collections::HashSet;

use cargo_icmd::api_map::{
    control_entries, hook_entries, layout_entries, media_entries, media_types, pointer,
    runtime_entries, widget_count,
};
use cargo_icmd::docs::CalloutKind;
use cargo_icmd::registry::{
    breadcrumb, chapter, covering_section, guide, high_level_types, section, section_count,
    CHAPTER_COUNT,
};
use cargo_icmd::search::{
    chapter_location, entries, search, search_index, tier, HitKind, SearchHit, MAX_RESULTS,
};

/// Every widget exported by the framework's widget module.
const WIDGETS: &[&str] = &[
    "alert",
    "badge",
    "blockquote",
    "button",
    "canvas",
    "card",
    "center",
    "checkbox",
    "code",
    "column",
    "container",
    "divider",
    "empty",
    "footer",
    "fragment",
    "heading",
    "input",
    "kbd",
    "label",
    "link",
    "muted",
    "paragraph",
    "progress_bar",
    "radio",
    "raw_input",
    "row",
    "scroll_area",
    "section",
    "selection_area",
    "skeleton",
    "spacer",
    "spinner",
    "switch",
    "text",
    "textarea",
    "view",
    "raster_image",
    "markdown",
];

#[test]
fn chapter_ids_and_indices_are_unique_and_ordered() {
    let chapters = guide();
    let mut ids = HashSet::new();
    for (position, chapter) in chapters.iter().enumerate() {
        assert_eq!(
            chapter.index, position,
            "chapter index must match its position"
        );
        assert!(
            ids.insert(chapter.id),
            "duplicate chapter id `{}`",
            chapter.id
        );
        assert_eq!(chapter.number, format!("{:02}", position + 1));
        assert!(!chapter.title.is_empty());
        assert!(!chapter.kicker.is_empty());
        assert!(!chapter.summary.is_empty());
    }
}

#[test]
fn section_ids_numbers_and_copy_are_unique_and_complete() {
    let chapters = guide();
    let mut ids = HashSet::new();
    for chapter in &chapters {
        assert!(
            !chapter.sections.is_empty(),
            "{} has no sections",
            chapter.id
        );
        for (position, section) in chapter.sections.iter().enumerate() {
            assert!(
                ids.insert(section.id),
                "duplicate section id `{}`",
                section.id
            );
            assert_eq!(
                section.number,
                format!("{}.{}", chapter.index + 1, position + 1),
                "section {} numbering",
                section.id
            );
            assert!(!section.title.is_empty());
            assert!(!section.kicker.is_empty());
            assert!(!section.summary.is_empty());
        }
    }
}

#[test]
fn every_widget_appears_in_the_registry() {
    let chapters = guide();
    let haystack: String = chapters
        .iter()
        .flat_map(|chapter| {
            chapter
                .sections
                .iter()
                .flat_map(|section| section.types.iter().chain(section.keywords.iter()).copied())
                .chain(std::iter::once(chapter.title))
                .chain(chapter.keywords.iter().copied())
        })
        .collect::<Vec<_>>()
        .join(" ");
    for widget in WIDGETS {
        assert!(
            haystack.contains(widget),
            "widget `{widget}` is missing from the documentation registry"
        );
    }
}

#[test]
fn every_documented_type_points_at_a_real_section() {
    let chapters = guide();
    let mut known = HashSet::new();
    for chapter in &chapters {
        for section in &chapter.sections {
            known.insert(section.id);
        }
    }
    let types = high_level_types();
    for widget in WIDGETS.iter().chain(types.iter()) {
        let found = chapters.iter().any(|chapter| {
            chapter
                .sections
                .iter()
                .any(|section| section.types.contains(widget))
        });
        assert!(
            found,
            "type `{widget}` must be listed by at least one section's `types`"
        );
    }
    assert_eq!(
        known.len(),
        chapters.iter().map(|c| c.sections.len()).sum::<usize>()
    );
}

#[test]
fn registry_matches_router_arity() {
    let chapters = guide();
    assert_eq!(chapters.len(), CHAPTER_COUNT);
    for (index, meta) in chapters.iter().enumerate() {
        assert_eq!(meta.index, index);
    }
}

#[test]
fn lookups_fall_back_and_count_sections() {
    let chapters = guide();
    assert_eq!(chapter(&chapters, 2).title, "Layout and Styling");
    assert_eq!(chapter(&chapters, 99).id, "start");
    assert_eq!(section(&chapters, 0, 2).map(|s| s.id), Some("start.first-component"));
    assert!(section(&chapters, 0, 6).is_none());
    assert_eq!(section(&chapters, 42, 0).map(|s| s.id), Some("start.belongs"));
    assert_eq!(section_count(&chapters, 0), 6);
    assert_eq!(section_count(&chapters, 9), 5);
    assert_eq!(breadcrumb(chapter(&chapters, 2)), "03 · Layout and Styling");
    assert_eq!(chapter_location(&chapters, chapter(&chapters, 0), 2), "01 · 1.3 / Render the first component");
    assert_eq!(chapter_location(&chapters, chapter(&chapters, 0), 40), "Start Here");
    assert_eq!(covering_section(&chapters, "badge").map(|s| s.number), Some("1.1"));
    assert!(covering_section(&chapters, "no such widget").is_none());
    assert_eq!(high_level_types().len(), 87);
}

#[test]
fn empty_query_returns_nothing() {
    let chapters = guide();
    assert!(search(&chapters, "").is_empty());
    assert!(search(&chapters, "   ").is_empty());
}

#[test]
fn matching_is_case_insensitive() {
    let chapters = guide();
    let upper = search(&chapters, "PROGRESS");
    let lower = search(&chapters, "progress");
    assert!(!upper.is_empty());
    assert_eq!(upper, lower);
    assert_eq!(search(&chapters, "  Progress \t"), lower);
}

#[test]
fn exact_ranks_before_prefix_before_substring() {
    let chapters = guide();
    let hits = search(&chapters, "badge");
    assert_eq!(
        hits.first().map(|hit| hit.label.to_lowercase()),
        Some("badge".into())
    );
}

#[test]
fn results_are_capped() {
    let chapters = guide();
    assert!(search(&chapters, "a").len() <= MAX_RESULTS);
    assert!(search(&chapters, "e").len() <= MAX_RESULTS);
    assert_eq!(search(&chapters, "e").len(), MAX_RESULTS);
}

#[test]
fn aliases_resolve_to_a_real_destination() {
    let chapters = guide();
    let hits = search(&chapters, "space between");
    let hit = hits.first().expect("the alias has a destination");
    assert_eq!(hit.chapter, 2);
    assert!(hit.location.contains("3.2"));
}

#[test]
fn type_names_resolve_to_the_covering_section() {
    let chapters = guide();
    let hits = search(&chapters, "scroll_area");
    let hit = hits
        .iter()
        .find(|hit| hit.label == "scroll_area")
        .expect("the widget is indexed");
    let section = section(&chapters, hit.chapter, hit.section)
        .expect("a type hit must point at a real section");
    assert!(
        section.types.contains(&"scroll_area"),
        "`scroll_area` must resolve to a section that covers it"
    );
}

#[test]
fn ranking_is_stable_between_identical_queries() {
    let chapters = guide();
    assert_eq!(search(&chapters, "state"), search(&chapters, "state"));
}

#[test]
fn every_shipped_widget_and_documented_type_is_searchable() {
    let chapters = guide();
    let types = high_level_types();
    for name in WIDGETS.iter().chain(types.iter()) {
        let hits = search(&chapters, name);
        assert!(
            hits.iter().any(|hit| hit.label.eq_ignore_ascii_case(name)),
            "`{name}` must be findable by an exact query"
        );
    }
}

#[test]
fn every_hit_points_at_a_real_destination() {
    let chapters = guide();
    for query in ["state", "scroll", "color", "image", "test", "key"] {
        for hit in search(&chapters, query) {
            let meta = chapter(&chapters, hit.chapter);
            assert!(
                hit.chapter < CHAPTER_COUNT
                    && (hit.section == 0 || section(&chapters, hit.chapter, hit.section).is_some()),
                "`{}` pointed at a missing destination {}:{}",
                hit.label,
                meta.number,
                hit.section
            );
        }
    }
}

#[test]
fn cross_chapter_navigation_is_offered_for_shared_words() {
    let chapters = guide();
    let found: HashSet<usize> = search(&chapters, "selection")
        .iter()
        .map(|hit| hit.chapter)
        .collect();
    assert!(found.len() > 1, "a shared word should span chapters");
}

#[test]
fn tiers_rank_exact_prefix_and_substring() {
    assert_eq!(tier("badge", "badge"), Some(0));
    assert_eq!(tier("badges", "badge"), Some(1));
    assert_eq!(tier("status badge", "badge"), Some(2));
    assert_eq!(tier("button", "badge"), None);
    assert_eq!(tier("anything", ""), Some(1));
    assert_eq!(tier("", ""), Some(0));
}

#[test]
fn the_index_starts_with_the_first_chapter_and_its_aliases() {
    let chapters = guide();
    let index = entries(&chapters);
    assert_eq!(index[0].text, "Start Here");
    assert_eq!(index[0].kind, HitKind::Chapter);
    assert_eq!(index[0].location, "01 · Start Here");
    assert_eq!(index[1].text, "getting started");
    assert_eq!(index[1].kind, HitKind::Alias);
    assert_eq!(index[6].text, "A UI that belongs in the terminal");
    assert_eq!(index[6].kind, HitKind::Section);
    assert_eq!(index[6].location, "01 · 1.1 / A UI that belongs in the terminal");
    assert_eq!(index[7].text, "card");
    assert_eq!(index[7].kind, HitKind::Type);
}

#[test]
fn search_index_deduplicates_and_truncates_to_the_limit() {
    let chapters = guide();
    let index = entries(&chapters);
    let all = search_index(&index, "badge", usize::MAX);
    assert!(all.len() > MAX_RESULTS);
    assert!(search_index(&index, "badge", 0).is_empty());
    let capped = search_index(&index, "badge", 3);
    assert_eq!(capped.len(), 3);
    assert_eq!(capped[..], all[..3]);
    // "badge" is both a type and a keyword of section 1.1: one hit survives
    let in_first: Vec<&SearchHit> = all
        .iter()
        .filter(|hit| hit.chapter == 0 && hit.section == 0 && hit.label == "badge")
        .collect();
    assert_eq!(in_first.len(), 1);
    assert_eq!(in_first[0].kind, HitKind::Type);
    assert_eq!(all[0]._score(), 0);
}

#[test]
fn hit_kinds_and_callouts_have_labels() {
    assert_eq!(HitKind::Chapter.label(), "CHAPTER");
    assert_eq!(HitKind::Section.label(), "SECTION");
    assert_eq!(HitKind::Type.label(), "API");
    assert_eq!(HitKind::Alias.label(), "ALIAS");
    assert_eq!(CalloutKind::Info.title(), "NOTE");
    assert_eq!(CalloutKind::Warning.title(), "WATCH FOR");
    assert_eq!(CalloutKind::Production.title(), "IN PRODUCTION");
    assert_eq!(CalloutKind::Info.glyph(), "◆");
    assert_eq!(CalloutKind::Warning.glyph(), "▲");
    assert_eq!(CalloutKind::Production.glyph(), "▸");
}

#[test]
fn widget_index_covers_every_exported_widget() {
    let listed: Vec<&str> = layout_entries()
        .iter()
        .chain(control_entries().iter())
        .chain(media_entries().iter())
        .map(|entry| entry.name)
        .collect();
    for widget in WIDGETS {
        assert!(
            listed.contains(widget),
            "the API map must list the `{widget}` widget"
        );
    }
    assert_eq!(
        listed.len(),
        WIDGETS.len(),
        "the API map must list every widget exactly once"
    );
    assert_eq!(widget_count(), listed.len());
}

#[test]
fn every_index_row_points_at_a_real_section() {
    let chapters = guide();
    let types = high_level_types();
    for name in WIDGETS.iter().chain(types.iter()) {
        let section = covering_section(&chapters, name)
            .unwrap_or_else(|| panic!("`{name}` must be covered by a section"));
        assert!(
            !section.number.is_empty() && !section.title.is_empty(),
            "`{name}` must point at a labeled section"
        );
    }
}

#[test]
fn hook_and_type_tables_cover_the_documented_set() {
    let hooks: Vec<&str> = hook_entries().iter().map(|entry| entry.name).collect();
    for hook in [
        "use_state",
        "use_ref",
        "use_state_ref",
        "use_memo",
        "use_effect",
        "use_mount_effect",
        "use_unmount",
        "use_context",
        "provide",
        "use_theme",
        "use_element_ref",
        "use_handle",
    ] {
        assert!(hooks.contains(&hook), "the hook index must list `{hook}`");
    }
    let types: Vec<&str> = media_types()
        .iter()
        .chain(runtime_entries().iter())
        .map(|entry| entry.name)
        .collect();
    for name in [
        "Text",
        "Span",
        "CanvasContext",
        "RasterImage",
        "RuntimeConfig",
        "AppLifecycle",
    ] {
        assert!(types.contains(&name), "the type map must list `{name}`");
    }
}

#[test]
fn every_registry_widget_has_a_pointer() {
    let chapters = guide();
    for widget in WIDGETS {
        assert_ne!(pointer(&chapters, widget), "—", "`{widget}` must resolve to a section");
    }
    assert_eq!(pointer(&chapters, "badge"), "1.1");
    assert_eq!(pointer(&chapters, "not documented"), "—");
}

#[test]
fn pointer_names_the_covering_section() {
    let chapters = guide();
    let names: Vec<&str> = WIDGETS
        .iter()
        .copied()
        .chain(high_level_types())
        .chain(["no_such_widget", ""])
        .collect();
    for name in names {
        let expected = covering_section(&chapters, name).map(|s| s.number).unwrap_or("—");
        assert_eq!(pointer(&chapters, name), expected, "`{name}`");
    }
    assert_eq!(pointer(&chapters, "scroll_area"), "3.6");
    assert_eq!(pointer(&chapters, "no_such_widget"), "—");
}

#[test]
fn the_index_has_one_entry_per_title_type_and_keyword() {
    let chapters = guide();
    let index = entries(&chapters);
    let expected: usize = chapters
        .iter()
        .map(|c| {
            1 + c.keywords.len()
                + c.sections.iter().map(|s| 1 + s.types.len() + s.keywords.len()).sum::<usize>()
        })
        .sum();
    assert_eq!(index.len(), expected);
    for entry in &index {
        let owner = &chapters[entry.chapter];
        assert!(entry.section < owner.sections.len());
        if entry.chapter_only {
            assert_eq!(entry.section, 0);
            assert!(matches!(entry.kind, HitKind::Chapter | HitKind::Alias));
            assert_eq!(entry.location, breadcrumb(owner));
        } else {
            assert!(!matches!(entry.kind, HitKind::Chapter));
            assert_eq!(entry.location, chapter_location(&chapters, owner, entry.section));
        }
        if matches!(entry.kind, HitKind::Chapter) {
            assert_eq!(entry.text, owner.title);
        }
        if matches!(entry.kind, HitKind::Section) {
            assert_eq!(entry.text, owner.sections[entry.section].title);
        }
    }
}
