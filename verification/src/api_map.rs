//! Data and lookups behind the API map chapter.
//!
//! Fast lookup without duplicating rustdoc signatures: every row points at the
//! section that demonstrates the item, resolved through the registry so the
//! map cannot drift from it.
use vstd::prelude::*;

use crate::registry::{
    covering_section, covered, covering_result, covers, first_cover, lemma_first_cover_unique,
    ChapterMeta, SectionMeta,
};

verus! {

/// One index entry: the name and what it is for.
pub struct ApiEntry {
    /// Widget or type name.
    pub name: &'static str,
    /// What it is for.
    pub purpose: &'static str,
}

/// Each entry of `entries` as its name and purpose.
pub open spec fn entries_view(entries: Seq<ApiEntry>) -> Seq<(Seq<char>, Seq<char>)> {
    entries.map_values(|e: ApiEntry| (e.name@, e.purpose@))
}

/// Layout and composition primitives.
pub fn layout_entries() -> (entries: Vec<ApiEntry>)
    ensures
        entries_view(entries@) == layout_table(),
        entries@.len() == 13,
{
    let entries = vec![
        ApiEntry { name: "view", purpose: "The base box: layout, style, events, refs, and focusability." },
        ApiEntry { name: "container", purpose: "Full-size vertical surface on the theme background." },
        ApiEntry { name: "column", purpose: "Vertical stack with small spacing." },
        ApiEntry { name: "row", purpose: "Horizontal stack with small spacing." },
        ApiEntry { name: "section", purpose: "Full-width vertical group with medium spacing." },
        ApiEntry { name: "card", purpose: "Bordered, padded surface with the card colors." },
        ApiEntry { name: "center", purpose: "Row that centers children on both axes." },
        ApiEntry { name: "spacer", purpose: "Fixed one-cell gap between siblings." },
        ApiEntry { name: "footer", purpose: "Muted horizontal row for trailing chrome." },
        ApiEntry { name: "divider", purpose: "One-cell horizontal rule on the top edge." },
        ApiEntry { name: "fragment", purpose: "Group siblings without introducing a box." },
        ApiEntry { name: "empty", purpose: "Render nothing on purpose, so a branch can vanish." },
        ApiEntry { name: "text", purpose: "Raw text leaf when no semantic role fits." },
    ];
    proof {
        assert(entries_view(entries@) =~= layout_table());
    }
    entries
}

/// The rows of [`layout_entries`]: each name with its purpose.
pub open spec fn layout_table() -> Seq<(Seq<char>, Seq<char>)> {
    seq![
        ("view"@, "The base box: layout, style, events, refs, and focusability."@),
        ("container"@, "Full-size vertical surface on the theme background."@),
        ("column"@, "Vertical stack with small spacing."@),
        ("row"@, "Horizontal stack with small spacing."@),
        ("section"@, "Full-width vertical group with medium spacing."@),
        ("card"@, "Bordered, padded surface with the card colors."@),
        ("center"@, "Row that centers children on both axes."@),
        ("spacer"@, "Fixed one-cell gap between siblings."@),
        ("footer"@, "Muted horizontal row for trailing chrome."@),
        ("divider"@, "One-cell horizontal rule on the top edge."@),
        ("fragment"@, "Group siblings without introducing a box."@),
        ("empty"@, "Render nothing on purpose, so a branch can vanish."@),
        ("text"@, "Raw text leaf when no semantic role fits."@),
    ]
}

/// Controls and feedback widgets.
pub fn control_entries() -> (entries: Vec<ApiEntry>)
    ensures
        entries_view(entries@) == control_table(),
        entries@.len() == 15,
{
    let entries = vec![
        ApiEntry { name: "button", purpose: "Semantic activation with primary, secondary, and destructive roles; emits on_press." },
        ApiEntry { name: "checkbox", purpose: "Controlled boolean row; requests a toggle through on_change." },
        ApiEntry { name: "radio", purpose: "Controlled exclusive choice; requests selection through on_select." },
        ApiEntry { name: "switch", purpose: "Controlled on/off row; requests a change through on_change." },
        ApiEntry { name: "input", purpose: "Single-line editor, controlled or uncontrolled; emits on_change and on_submit." },
        ApiEntry { name: "textarea", purpose: "Multi-line editor with wrapping and selection; emits on_change." },
        ApiEntry { name: "raw_input", purpose: "The editor engine itself, for custom fields that control policy and appearance." },
        ApiEntry { name: "link", purpose: "Inline hyperlink that reports its target through on_follow and never opens it." },
        ApiEntry { name: "scroll_area", purpose: "Clipping scroll container that may own or receive its offset; emits on_scroll." },
        ApiEntry { name: "selection_area", purpose: "Selectable text region over committed content; emits on_selection_change and on_clipboard." },
        ApiEntry { name: "badge", purpose: "Compact status label whose text always carries the meaning." },
        ApiEntry { name: "alert", purpose: "Card with a semantic left stripe, a title, and a message." },
        ApiEntry { name: "progress_bar", purpose: "Completion display driven entirely by the caller's value." },
        ApiEntry { name: "spinner", purpose: "Single animation frame the caller advances." },
        ApiEntry { name: "skeleton", purpose: "Muted placeholder block shown while content is pending." },
    ];
    proof {
        assert(entries_view(entries@) =~= control_table());
    }
    entries
}

/// The rows of [`control_entries`]: each name with its purpose.
pub open spec fn control_table() -> Seq<(Seq<char>, Seq<char>)> {
    seq![
        ("button"@, "Semantic activation with primary, secondary, and destructive roles; emits on_press."@),
        ("checkbox"@, "Controlled boolean row; requests a toggle through on_change."@),
        ("radio"@, "Controlled exclusive choice; requests selection through on_select."@),
        ("switch"@, "Controlled on/off row; requests a change through on_change."@),
        ("input"@, "Single-line editor, controlled or uncontrolled; emits on_change and on_submit."@),
        ("textarea"@, "Multi-line editor with wrapping and selection; emits on_change."@),
        ("raw_input"@, "The editor engine itself, for custom fields that control policy and appearance."@),
        ("link"@, "Inline hyperlink that reports its target through on_follow and never opens it."@),
        ("scroll_area"@, "Clipping scroll container that may own or receive its offset; emits on_scroll."@),
        ("selection_area"@, "Selectable text region over committed content; emits on_selection_change and on_clipboard."@),
        ("badge"@, "Compact status label whose text always carries the meaning."@),
        ("alert"@, "Card with a semantic left stripe, a title, and a message."@),
        ("progress_bar"@, "Completion display driven entirely by the caller's value."@),
        ("spinner"@, "Single animation frame the caller advances."@),
        ("skeleton"@, "Muted placeholder block shown while content is pending."@),
    ]
}

/// Scroll, selection, text, and media widgets.
pub fn media_entries() -> (entries: Vec<ApiEntry>)
    ensures
        entries_view(entries@) == media_table(),
        entries@.len() == 10,
{
    let entries = vec![
        ApiEntry { name: "heading", purpose: "Heading-level text using the heading typography token." },
        ApiEntry { name: "paragraph", purpose: "Body text laid out as a vertical block." },
        ApiEntry { name: "label", purpose: "Control label text." },
        ApiEntry { name: "muted", purpose: "De-emphasized secondary text." },
        ApiEntry { name: "code", purpose: "Inline code on the muted background." },
        ApiEntry { name: "blockquote", purpose: "Muted block with an accent left border." },
        ApiEntry { name: "kbd", purpose: "Keyboard-key token on the muted background." },
        ApiEntry { name: "canvas", purpose: "Fixed cell grid painted by a drawing callback." },
        ApiEntry { name: "raster_image", purpose: "Raster image placed in an explicit cell box." },
        ApiEntry { name: "markdown", purpose: "CommonMark rendered as ordinary selectable components." },
    ];
    proof {
        assert(entries_view(entries@) =~= media_table());
    }
    entries
}

/// The rows of [`media_entries`]: each name with its purpose.
pub open spec fn media_table() -> Seq<(Seq<char>, Seq<char>)> {
    seq![
        ("heading"@, "Heading-level text using the heading typography token."@),
        ("paragraph"@, "Body text laid out as a vertical block."@),
        ("label"@, "Control label text."@),
        ("muted"@, "De-emphasized secondary text."@),
        ("code"@, "Inline code on the muted background."@),
        ("blockquote"@, "Muted block with an accent left border."@),
        ("kbd"@, "Keyboard-key token on the muted background."@),
        ("canvas"@, "Fixed cell grid painted by a drawing callback."@),
        ("raster_image"@, "Raster image placed in an explicit cell box."@),
        ("markdown"@, "CommonMark rendered as ordinary selectable components."@),
    ]
}

/// Hooks and context.
pub fn hook_entries() -> (entries: Vec<ApiEntry>)
    ensures
        entries_view(entries@) == hook_table(),
        entries@.len() == 12,
{
    let entries = vec![
        ApiEntry { name: "use_state", purpose: "Visible state plus a cloneable setter that queues updates." },
        ApiEntry { name: "use_ref", purpose: "Persistent cell that survives renders without causing one." },
        ApiEntry { name: "use_state_ref", purpose: "The same storage with an encapsulated, poison-reporting lock." },
        ApiEntry { name: "use_memo", purpose: "Cache derived work; recomputes only when dependencies differ." },
        ApiEntry { name: "use_effect", purpose: "Run after commit when dependencies change; returns its cleanup." },
        ApiEntry { name: "use_mount_effect", purpose: "Run once at mount; the same as use_effect with unit dependencies." },
        ApiEntry { name: "use_unmount", purpose: "Run once at unmount, with no body at mount." },
        ApiEntry { name: "use_context", purpose: "Read a value published above, or the key's default." },
        ApiEntry { name: "provide", purpose: "Publish a value to this component's subtree." },
        ApiEntry { name: "use_theme", purpose: "Read the nearest provided theme." },
        ApiEntry { name: "use_element_ref", purpose: "Read a host element's committed geometry and resolved style." },
        ApiEntry { name: "use_handle", purpose: "A cloneable session control handle for graceful exit." },
    ];
    proof {
        assert(entries_view(entries@) =~= hook_table());
    }
    entries
}

/// The rows of [`hook_entries`]: each name with its purpose.
pub open spec fn hook_table() -> Seq<(Seq<char>, Seq<char>)> {
    seq![
        ("use_state"@, "Visible state plus a cloneable setter that queues updates."@),
        ("use_ref"@, "Persistent cell that survives renders without causing one."@),
        ("use_state_ref"@, "The same storage with an encapsulated, poison-reporting lock."@),
        ("use_memo"@, "Cache derived work; recomputes only when dependencies differ."@),
        ("use_effect"@, "Run after commit when dependencies change; returns its cleanup."@),
        ("use_mount_effect"@, "Run once at mount; the same as use_effect with unit dependencies."@),
        ("use_unmount"@, "Run once at unmount, with no body at mount."@),
        ("use_context"@, "Read a value published above, or the key's default."@),
        ("provide"@, "Publish a value to this component's subtree."@),
        ("use_theme"@, "Read the nearest provided theme."@),
        ("use_element_ref"@, "Read a host element's committed geometry and resolved style."@),
        ("use_handle"@, "A cloneable session control handle for graceful exit."@),
    ]
}

/// Text, canvas, and raster-media types.
pub fn media_types() -> (entries: Vec<ApiEntry>)
    ensures
        entries_view(entries@) == media_types_table(),
        entries@.len() == 21,
{
    let entries = vec![
        ApiEntry { name: "Text", purpose: "Styled spans plus wrap, align, overflow, and layout style." },
        ApiEntry { name: "Span", purpose: "One styled run inside a Text node." },
        ApiEntry { name: "TextStyle", purpose: "Foreground, background, and terminal attributes." },
        ApiEntry { name: "Attributes", purpose: "Bold, dim, italic, underline, reverse, and the rest." },
        ApiEntry { name: "TextWrap", purpose: "NoWrap, Soft, or Hard." },
        ApiEntry { name: "TextAlign", purpose: "Start, Center, or End inside the text box." },
        ApiEntry { name: "TextOverflow", purpose: "Clip at the edge or mark truncation with an ellipsis." },
        ApiEntry { name: "SelectionAreaProps", purpose: "Selection styling, keyboard opt-in, and clipboard listeners." },
        ApiEntry { name: "TextSelectionEvent", purpose: "The byte range and text of a committed selection." },
        ApiEntry { name: "MarkdownProps", purpose: "The Markdown source handed to the widget." },
        ApiEntry { name: "CanvasContext", purpose: "The mutable cell buffer a drawing callback fills." },
        ApiEntry { name: "CanvasProps", purpose: "Fixed width, height, and the drawing callback." },
        ApiEntry { name: "CanvasDraw", purpose: "The shared drawing closure type." },
        ApiEntry { name: "CanvasError", purpose: "A rejected glyph, image, or raster placement." },
        ApiEntry { name: "ImageProps", purpose: "Source, requested size, fit, alignment, mode, loading, and an alt label." },
        ApiEntry { name: "ImageSource", purpose: "An already-loaded image or a file path resolved on demand." },
        ApiEntry { name: "ImageFit", purpose: "Contain, Cover, or Stretch." },
        ApiEntry { name: "ImageMode", purpose: "Auto, Native, or Symbols." },
        ApiEntry { name: "ImageAlign", purpose: "Start, Center, or End on either axis." },
        ApiEntry { name: "ImageLoading", purpose: "Lazy or eager decoding for file-backed sources." },
        ApiEntry { name: "RasterImage", purpose: "Decoded RGBA pixels with a stable identity for caching." },
    ];
    proof {
        assert(entries_view(entries@) =~= media_types_table());
    }
    entries
}

/// The rows of [`media_types`]: each name with its purpose.
pub open spec fn media_types_table() -> Seq<(Seq<char>, Seq<char>)> {
    seq![
        ("Text"@, "Styled spans plus wrap, align, overflow, and layout style."@),
        ("Span"@, "One styled run inside a Text node."@),
        ("TextStyle"@, "Foreground, background, and terminal attributes."@),
        ("Attributes"@, "Bold, dim, italic, underline, reverse, and the rest."@),
        ("TextWrap"@, "NoWrap, Soft, or Hard."@),
        ("TextAlign"@, "Start, Center, or End inside the text box."@),
        ("TextOverflow"@, "Clip at the edge or mark truncation with an ellipsis."@),
        ("SelectionAreaProps"@, "Selection styling, keyboard opt-in, and clipboard listeners."@),
        ("TextSelectionEvent"@, "The byte range and text of a committed selection."@),
        ("MarkdownProps"@, "The Markdown source handed to the widget."@),
        ("CanvasContext"@, "The mutable cell buffer a drawing callback fills."@),
        ("CanvasProps"@, "Fixed width, height, and the drawing callback."@),
        ("CanvasDraw"@, "The shared drawing closure type."@),
        ("CanvasError"@, "A rejected glyph, image, or raster placement."@),
        ("ImageProps"@, "Source, requested size, fit, alignment, mode, loading, and an alt label."@),
        ("ImageSource"@, "An already-loaded image or a file path resolved on demand."@),
        ("ImageFit"@, "Contain, Cover, or Stretch."@),
        ("ImageMode"@, "Auto, Native, or Symbols."@),
        ("ImageAlign"@, "Start, Center, or End on either axis."@),
        ("ImageLoading"@, "Lazy or eager decoding for file-backed sources."@),
        ("RasterImage"@, "Decoded RGBA pixels with a stable identity for caching."@),
    ]
}

/// Runtime, lifecycle, and testing types.
pub fn runtime_entries() -> (entries: Vec<ApiEntry>)
    ensures
        entries_view(entries@) == runtime_table(),
        entries@.len() == 12,
{
    let entries = vec![
        ApiEntry { name: "render", purpose: "Enter the terminal and drive the event loop." },
        ApiEntry { name: "render_with", purpose: "The same, with an AppLifecycle attached." },
        ApiEntry { name: "RuntimeConfig", purpose: "Exit key, polling, terminal modes, protocols, and limits." },
        ApiEntry { name: "ImageProtocol", purpose: "Which graphics protocol a raster surface prefers." },
        ApiEntry { name: "ImageUpdatePolicy", purpose: "Whether a native repaint is required or merely preferred." },
        ApiEntry { name: "ResourceLimits", purpose: "Hard ceilings validated before any thread or terminal mode exists." },
        ApiEntry { name: "EmojiMerging", purpose: "How emoji sequences are merged during layout and rendering." },
        ApiEntry { name: "AppLifecycle", purpose: "Ordered hooks for each session phase." },
        ApiEntry { name: "AppPhase", purpose: "Boot, Mount, Ready, Unmount, or Exit." },
        ApiEntry { name: "AppSession", purpose: "Read-only facts handed to a lifecycle hook." },
        ApiEntry { name: "ExitReason", purpose: "Why a session ended." },
        ApiEntry { name: "AppHandle", purpose: "Request a graceful exit and get a clean teardown." },
    ];
    proof {
        assert(entries_view(entries@) =~= runtime_table());
    }
    entries
}

/// The rows of [`runtime_entries`]: each name with its purpose.
pub open spec fn runtime_table() -> Seq<(Seq<char>, Seq<char>)> {
    seq![
        ("render"@, "Enter the terminal and drive the event loop."@),
        ("render_with"@, "The same, with an AppLifecycle attached."@),
        ("RuntimeConfig"@, "Exit key, polling, terminal modes, protocols, and limits."@),
        ("ImageProtocol"@, "Which graphics protocol a raster surface prefers."@),
        ("ImageUpdatePolicy"@, "Whether a native repaint is required or merely preferred."@),
        ("ResourceLimits"@, "Hard ceilings validated before any thread or terminal mode exists."@),
        ("EmojiMerging"@, "How emoji sequences are merged during layout and rendering."@),
        ("AppLifecycle"@, "Ordered hooks for each session phase."@),
        ("AppPhase"@, "Boot, Mount, Ready, Unmount, or Exit."@),
        ("AppSession"@, "Read-only facts handed to a lifecycle hook."@),
        ("ExitReason"@, "Why a session ended."@),
        ("AppHandle"@, "Request a graceful exit and get a clean teardown."@),
    ]
}

/// How many widgets the index covers, shown as a headline count.
pub fn widget_count() -> (count: usize)
    ensures
        count == 38,
{
    layout_entries().len() + control_entries().len() + media_entries().len()
}

/// What `pointer` answers for `name`: the number of the first section, in
/// reading order, that lists `name`, or `—` when no section does.
pub open spec fn pointer_result(
    chapters: Seq<ChapterMeta>,
    name: Seq<char>,
    number: Seq<char>,
) -> bool {
    &&& !covered(chapters, name) ==> number == "—"@
    &&& covered(chapters, name) ==> exists|c: int, s: int|
        #[trigger] first_cover(chapters, name, c, s) && number == chapters[c].sections@[s].number@
}

/// Where a name is demonstrated, as a section number such as `3.7`, or `—`
/// when no section covers it.
pub fn pointer(chapters: &[ChapterMeta], name: &str) -> (number: &'static str)
    ensures
        pointer_result(chapters@, name@, number@),
{
    match covering_section(chapters, name) {
        Some(section) => section.number,
        None => "—",
    }
}

/// The pointer and the covering section agree: for any registry and name,
/// the number `pointer` gives is the number of the section
/// `covering_section` finds, and the dash exactly when it finds none.
pub proof fn lemma_pointer_is_covering_number(
    chapters: Seq<ChapterMeta>,
    name: Seq<char>,
    found: Option<SectionMeta>,
    number: Seq<char>,
)
    requires
        covering_result(chapters, name, found),
        pointer_result(chapters, name, number),
    ensures
        number == match found {
            Some(m) => m.number@,
            None => "—"@,
        },
{
    match found {
        Some(m) => {
            let (c, s) = choose|c: int, s: int|
                #[trigger] first_cover(chapters, name, c, s) && chapters[c].sections@[s] == m;
            assert(covered(chapters, name)) by {
                assert(covers(chapters[c].sections@[s], name));
            }
            let (c2, s2) = choose|c2: int, s2: int|
                #[trigger] first_cover(chapters, name, c2, s2) && number
                    == chapters[c2].sections@[s2].number@;
            lemma_first_cover_unique(chapters, name, c, s, c2, s2);
        },
        None => {},
    }
}

} // verus!
