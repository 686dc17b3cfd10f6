//! The single documentation registry the whole guide is generated from.
//!
//! Chapters and sections carry stable ids, display numbering, editorial copy,
//! the component and type names they cover, and the keywords the search index
//! matches. The shell derives its index, breadcrumb, scroll-spy labels, and
//! searchable entries from this one table; nothing else keeps a parallel list.
use vstd::prelude::*;

use crate::guide_data;
use vstd::string::*;

use crate::text::str_eq;

verus! {

/// One teaching section inside a chapter.
pub struct SectionMeta {
    /// Stable, unique identifier such as `start.first-component`.
    pub id: &'static str,
    /// Display number inside the chapter, such as `1.3`.
    pub number: &'static str,
    /// Descriptive heading.
    pub title: &'static str,
    /// Short uppercase kicker above the heading.
    pub kicker: &'static str,
    /// One-sentence promise shown under the heading.
    pub summary: &'static str,
    /// Searchable aliases and concepts that are not type names.
    pub keywords: Vec<&'static str>,
    /// Component, hook, and type names this section covers.
    pub types: Vec<&'static str>,
}

/// One chapter of the field guide.
pub struct ChapterMeta {
    /// Stable, unique identifier such as `start`.
    pub id: &'static str,
    /// Zero-based position, also the routing index.
    pub index: usize,
    /// Two-digit display number, such as `01`.
    pub number: &'static str,
    /// Chapter title.
    pub title: &'static str,
    /// Short uppercase kicker used by the masthead.
    pub kicker: &'static str,
    /// One-sentence description of the chapter's purpose.
    pub summary: &'static str,
    /// Searchable aliases for the chapter as a whole.
    pub keywords: Vec<&'static str>,
    /// Sections in reading order.
    pub sections: Vec<SectionMeta>,
}

/// What a section says, as character sequences.
#[verifier::ext_equal]
pub struct SectionView {
    pub id: Seq<char>,
    pub number: Seq<char>,
    pub title: Seq<char>,
    pub kicker: Seq<char>,
    pub summary: Seq<char>,
    pub keywords: Seq<Seq<char>>,
    pub types: Seq<Seq<char>>,
}

/// What a chapter says, as character sequences.
#[verifier::ext_equal]
pub struct ChapterView {
    pub id: Seq<char>,
    pub index: usize,
    pub number: Seq<char>,
    pub title: Seq<char>,
    pub kicker: Seq<char>,
    pub summary: Seq<char>,
    pub keywords: Seq<Seq<char>>,
    pub sections: Seq<SectionView>,
}

/// The characters of each word of `words`.
pub open spec fn words_view(words: Seq<&'static str>) -> Seq<Seq<char>> {
    words.map_values(|w: &'static str| w@)
}

impl View for SectionMeta {
    type V = SectionView;

    open spec fn view(&self) -> SectionView {
        SectionView {
            id: self.id@,
            number: self.number@,
            title: self.title@,
            kicker: self.kicker@,
            summary: self.summary@,
            keywords: words_view(self.keywords@),
            types: words_view(self.types@),
        }
    }
}

impl View for ChapterMeta {
    type V = ChapterView;

    open spec fn view(&self) -> ChapterView {
        ChapterView {
            id: self.id@,
            index: self.index,
            number: self.number@,
            title: self.title@,
            kicker: self.kicker@,
            summary: self.summary@,
            keywords: words_view(self.keywords@),
            sections: self.sections@.map_values(|s: SectionMeta| s@),
        }
    }
}

/// What a registry says: each chapter by its view.
pub open spec fn registry_view(chapters: Seq<ChapterMeta>) -> Seq<ChapterView> {
    chapters.map_values(|c: ChapterMeta| c@)
}

/// Number of chapters in the guide.
pub const CHAPTER_COUNT: usize = 10;

/// A registry the routing layer can rely on: at least one chapter, every
/// chapter's index equal to its position, and every chapter holding at least
/// one section.
pub open spec fn registry_wf(chapters: Seq<ChapterMeta>) -> bool {
    &&& chapters.len() > 0
    &&& forall|i: int|
        0 <= i < chapters.len() ==> (#[trigger] chapters[i]).index == i
            && chapters[i].sections@.len() > 0
}

/// Every chapter in reading order.
pub fn guide() -> (chapters: Vec<ChapterMeta>)
    ensures
        registry_view(chapters@) == guide_data::guide_view(),
        registry_wf(chapters@),
        chapters@.len() == CHAPTER_COUNT,
{
    let chapters = vec![
        guide_data::chapter_start(),
        guide_data::chapter_state(),
        guide_data::chapter_layout(),
        guide_data::chapter_text(),
        guide_data::chapter_controls(),
        guide_data::chapter_feedback(),
        guide_data::chapter_media(),
        guide_data::chapter_themes(),
        guide_data::chapter_production(),
        guide_data::chapter_api(),
    ];
    proof {
        assert(registry_view(chapters@) =~= guide_data::guide_view());
    }
    chapters
}

/// The chapter at `index`, or the first chapter for an out-of-range index.
pub open spec fn chapter_at(chapters: Seq<ChapterMeta>, index: int) -> ChapterMeta {
    if 0 <= index < chapters.len() {
        chapters[index]
    } else {
        chapters[0]
    }
}

/// Returns the chapter at `index`, or the first chapter for an out-of-range index.
pub fn chapter(chapters: &[ChapterMeta], index: usize) -> (meta: &ChapterMeta)
    requires
        registry_wf(chapters@),
    ensures
        *meta == chapter_at(chapters@, index as int),
{
    if index < chapters.len() {
        &chapters[index]
    } else {
        &chapters[0]
    }
}

/// The section at position `section` of the chapter at `index`, if any.
pub open spec fn section_at(chapters: Seq<ChapterMeta>, index: int, section: int) -> Option<
    SectionMeta,
> {
    let sections = chapter_at(chapters, index).sections@;
    if 0 <= section < sections.len() {
        Some(sections[section])
    } else {
        None
    }
}

/// Returns the section at `section` inside chapter `index`.
pub fn section(chapters: &[ChapterMeta], index: usize, position: usize) -> (meta: Option<
    &SectionMeta,
>)
    requires
        registry_wf(chapters@),
    ensures
        match meta {
            Some(m) => section_at(chapters@, index as int, position as int) == Some(*m),
            None => section_at(chapters@, index as int, position as int) is None,
        },
{
    let owner = chapter(chapters, index);
    if position < owner.sections.len() {
        Some(&owner.sections[position])
    } else {
        None
    }
}

/// Number of sections in the chapter at `index`.
pub fn section_count(chapters: &[ChapterMeta], index: usize) -> (count: usize)
    requires
        registry_wf(chapters@),
    ensures
        count == chapter_at(chapters@, index as int).sections@.len(),
        count > 0,
{
    chapter(chapters, index).sections.len()
}

/// Whether a section lists `name` among the types it covers.
pub open spec fn covers(section: SectionMeta, name: Seq<char>) -> bool {
    exists|k: int| 0 <= k < section.types@.len() && (#[trigger] section.types@[k])@ == name
}

/// Whether position (`c`, `s`) names a section of the registry.
pub open spec fn is_position(chapters: Seq<ChapterMeta>, c: int, s: int) -> bool {
    0 <= c < chapters.len() && 0 <= s < chapters[c].sections@.len()
}

/// Whether position (`c1`, `s1`) comes before (`c2`, `s2`) in reading order.
pub open spec fn reads_before(c1: int, s1: int, c2: int, s2: int) -> bool {
    c1 < c2 || (c1 == c2 && s1 < s2)
}

/// Whether `name` appears among `types`.
fn lists_name(types: &Vec<&'static str>, name: &str) -> (found: bool)
    ensures
        found == exists|k: int| 0 <= k < types@.len() && (#[trigger] types@[k])@ == name@,
{
    let mut k: usize = 0;
    while k < types.len()
        invariant
            k <= types@.len(),
            forall|j: int| 0 <= j < k ==> (#[trigger] types@[j])@ != name@,
        decreases types@.len() - k,
    {
        if str_eq(types[k], name) {
            return true;
        }
        k = k + 1;
    }
    false
}

/// Whether some section of the registry lists `name`.
pub open spec fn covered(chapters: Seq<ChapterMeta>, name: Seq<char>) -> bool {
    exists|c: int, s: int|
        is_position(chapters, c, s) && covers(#[trigger] chapters[c].sections@[s], name)
}

/// Whether (`c`, `s`) is the first position, in reading order, whose section
/// lists `name`.
pub open spec fn first_cover(chapters: Seq<ChapterMeta>, name: Seq<char>, c: int, s: int) -> bool {
    &&& is_position(chapters, c, s)
    &&& covers(chapters[c].sections@[s], name)
    &&& forall|c2: int, s2: int|
        is_position(chapters, c2, s2) && reads_before(c2, s2, c, s) ==> !covers(
            #[trigger] chapters[c2].sections@[s2],
            name,
        )
}

/// What `covering_section` answers for `name`: the section at the first
/// position that lists it, or nothing when no section does.
pub open spec fn covering_result(
    chapters: Seq<ChapterMeta>,
    name: Seq<char>,
    found: Option<SectionMeta>,
) -> bool {
    match found {
        Some(m) => exists|c: int, s: int|
            #[trigger] first_cover(chapters, name, c, s) && chapters[c].sections@[s] == m,
        None => !covered(chapters, name),
    }
}

/// At most one position is the first to list a name.
pub proof fn lemma_first_cover_unique(
    chapters: Seq<ChapterMeta>,
    name: Seq<char>,
    c1: int,
    s1: int,
    c2: int,
    s2: int,
)
    requires
        first_cover(chapters, name, c1, s1),
        first_cover(chapters, name, c2, s2),
    ensures
        c1 == c2 && s1 == s2,
{
    if reads_before(c1, s1, c2, s2) {
        assert(!covers(chapters[c1].sections@[s1], name));
    } else if reads_before(c2, s2, c1, s1) {
        assert(!covers(chapters[c2].sections@[s2], name));
    }
}

/// Returns the first section, in reading order, that lists `name` among the
/// types it covers.
///
/// The API map uses this to point every widget and type at the section that
/// demonstrates it, so the index cannot drift from the registry.
pub fn covering_section<'a>(chapters: &'a [ChapterMeta], name: &str) -> (found: Option<
    &'a SectionMeta,
>)
    ensures
        covering_result(
            chapters@,
            name@,
            match found {
                Some(m) => Some(*m),
                None => None,
            },
        ),
{
    let mut c: usize = 0;
    while c < chapters.len()
        invariant
            c <= chapters@.len(),
            forall|c2: int, s2: int|
                is_position(chapters@, c2, s2) && c2 < c ==> !covers(
                    #[trigger] chapters@[c2].sections@[s2],
                    name@,
                ),
        decreases chapters@.len() - c,
    {
        let sections = &chapters[c].sections;
        let mut s: usize = 0;
        while s < sections.len()
            invariant
                c < chapters@.len(),
                *sections == chapters@[c as int].sections,
                s <= sections@.len(),
                forall|c2: int, s2: int|
                    is_position(chapters@, c2, s2) && (c2 < c || (c2 == c && s2 < s)) ==> !covers(
                        #[trigger] chapters@[c2].sections@[s2],
                        name@,
                    ),
            decreases sections@.len() - s,
        {
            if lists_name(&sections[s].types, name) {
                let found = &sections[s];
                proof {
                    assert(covers(*found, name@));
                    assert(first_cover(chapters@, name@, c as int, s as int));
                }
                return Some(found);
            }
            s = s + 1;
        }
        c = c + 1;
    }
    None
}

/// Breadcrumb label for a chapter, used by the header and results.
pub open spec fn breadcrumb_text(meta: ChapterMeta) -> Seq<char> {
    meta.number@ + " · "@ + meta.title@
}

/// Breadcrumb label for a chapter, used by the header and results.
pub fn breadcrumb(meta: &ChapterMeta) -> (label: String)
    ensures
        label@ == breadcrumb_text(*meta),
{
    let mut label = meta.number.to_owned();
    label.append(" · ");
    label.append(meta.title);
    label
}

/// Every practical high-level hook and type the guide documents.
pub fn high_level_types() -> (names: Vec<&'static str>)
    ensures
        words_view(names@) == high_level_type_names(),
        names@.len() == 87,
{
    let names = vec![
        "use_state",
        "use_ref",
        "use_state_ref",
        "use_memo",
        "use_effect",
        "use_mount_effect",
        "use_unmount",
        "use_context",
        "provide",
        "use_theme",
        "use_element_ref",
        "use_handle",
        "Component",
        "ComponentContext",
        "Props",
        "Node",
        "Attr",
        "Style",
        "Edges",
        "Dimension",
        "Percent",
        "Layout",
        "Justify",
        "Align",
        "Overflow",
        "AxisPosition",
        "Visibility",
        "Text",
        "Span",
        "TextWrap",
        "TextAlign",
        "TextOverflow",
        "TextStyle",
        "Attributes",
        "ElementRef",
        "ElementSnapshot",
        "ElementRect",
        "ResolvedElementStyle",
        "ElementScrollState",
        "Theme",
        "ThemeColors",
        "ThemePreset",
        "ThemeMode",
        "ThemeBuilder",
        "ThemeTypography",
        "ThemeSpacing",
        "ThemeBorders",
        "ScrollbarStyle",
        "ScrollOffset",
        "ScrollEvent",
        "ScrollDelta",
        "ScrollAxes",
        "ScrollbarVisibility",
        "RuntimeConfig",
        "ImageProtocol",
        "ImageUpdatePolicy",
        "ResourceLimits",
        "EmojiMerging",
        "AppLifecycle",
        "AppPhase",
        "AppSession",
        "ExitReason",
        "AppHandle",
        "render",
        "render_with",
        "ImageSource",
        "ImageFit",
        "ImageMode",
        "ImageAlign",
        "ImageLoading",
        "RasterImage",
        "CanvasContext",
        "CanvasProps",
        "CanvasDraw",
        "CanvasError",
        "MarkdownProps",
        "PointerEvent",
        "WheelEvent",
        "PasteEvent",
        "ResizeEvent",
        "EventPhase",
        "EventListener",
        "KeyboardEvent",
        "FocusEvent",
        "TerminalFocusEvent",
        "StateSetter",
        "StateRef",
    ];
    proof {
        assert(words_view(names@) =~= high_level_type_names());
    }
    names
}

/// The names [`high_level_types`] lists, in order.
pub open spec fn high_level_type_names() -> Seq<Seq<char>> {
    seq![
        "use_state"@,
        "use_ref"@,
        "use_state_ref"@,
        "use_memo"@,
        "use_effect"@,
        "use_mount_effect"@,
        "use_unmount"@,
        "use_context"@,
        "provide"@,
        "use_theme"@,
        "use_element_ref"@,
        "use_handle"@,
        "Component"@,
        "ComponentContext"@,
        "Props"@,
        "Node"@,
        "Attr"@,
        "Style"@,
        "Edges"@,
        "Dimension"@,
        "Percent"@,
        "Layout"@,
        "Justify"@,
        "Align"@,
        "Overflow"@,
        "AxisPosition"@,
        "Visibility"@,
        "Text"@,
        "Span"@,
        "TextWrap"@,
        "TextAlign"@,
        "TextOverflow"@,
        "TextStyle"@,
        "Attributes"@,
        "ElementRef"@,
        "ElementSnapshot"@,
        "ElementRect"@,
        "ResolvedElementStyle"@,
        "ElementScrollState"@,
        "Theme"@,
        "ThemeColors"@,
        "ThemePreset"@,
        "ThemeMode"@,
        "ThemeBuilder"@,
        "ThemeTypography"@,
        "ThemeSpacing"@,
        "ThemeBorders"@,
        "ScrollbarStyle"@,
        "ScrollOffset"@,
        "ScrollEvent"@,
        "ScrollDelta"@,
        "ScrollAxes"@,
        "ScrollbarVisibility"@,
        "RuntimeConfig"@,
        "ImageProtocol"@,
        "ImageUpdatePolicy"@,
        "ResourceLimits"@,
        "EmojiMerging"@,
        "AppLifecycle"@,
        "AppPhase"@,
        "AppSession"@,
        "ExitReason"@,
        "AppHandle"@,
        "render"@,
        "render_with"@,
        "ImageSource"@,
        "ImageFit"@,
        "ImageMode"@,
        "ImageAlign"@,
        "ImageLoading"@,
        "RasterImage"@,
        "CanvasContext"@,
        "CanvasProps"@,
        "CanvasDraw"@,
        "CanvasError"@,
        "MarkdownProps"@,
        "PointerEvent"@,
        "WheelEvent"@,
        "PasteEvent"@,
        "ResizeEvent"@,
        "EventPhase"@,
        "EventListener"@,
        "KeyboardEvent"@,
        "FocusEvent"@,
        "TerminalFocusEvent"@,
        "StateSetter"@,
        "StateRef"@,
    ]
}

} // verus!
