//! The guide's chapter and section registry, as data.
//!
//! Each chapter is built by its own function, so the registry is assembled
//! once by [`crate::registry::guide`] and handed to every lookup and to the
//! search index.
use vstd::prelude::*;

use crate::registry::{ChapterMeta, ChapterView, SectionMeta, SectionView};

verus! {

/// Chapter 01 of the guide.
pub(crate) fn chapter_start() -> (chapter: ChapterMeta)
    ensures
        chapter@ == chapter_start_view(),
        chapter.index == 0,
        chapter.sections@.len() == 6,
{
    let chapter = ChapterMeta {
        id: "start",
        index: 0,
        number: "01",
        title: "Start Here",
        kicker: "FOUNDATIONS",
        summary: "Move from installation to a useful mental model without assuming prior TUI experience.",
        keywords: vec![
            "getting started",
            "install",
            "hello world",
            "overview",
            "quickstart",
        ],
        sections: vec![
            SectionMeta {
                id: "start.belongs",
                number: "1.1",
                title: "A UI that belongs in the terminal",
                kicker: "WHY ICMD",
                summary: "Retained components, cell-aware layout, Unicode text, focus, and incremental painting in one mental model.",
                keywords: vec![
                    "release card",
                    "status card",
                    "badge",
                    "divider",
                    "composition",
                ],
                types: vec![
                    "card",
                    "row",
                    "heading",
                    "badge",
                    "paragraph",
                    "divider",
                    "button",
                ],
            },
            SectionMeta {
                id: "start.install",
                number: "1.2",
                title: "Install the framework",
                kicker: "SETUP",
                summary: "A pure-Rust default, the two opt-in features, and the native raster prerequisites.",
                keywords: vec![
                    "cargo add",
                    "features",
                    "chafa",
                    "pkg-config",
                    "libclang",
                    "pure rust",
                ],
                types: vec!["RuntimeConfig", "ImageProtocol"],
            },
            SectionMeta {
                id: "start.first-component",
                number: "1.3",
                title: "Render the first component",
                kicker: "HELLO",
                summary: "A complete minimal program: imports, a component function, a `ui!` tree, and the runtime entry point.",
                keywords: vec!["hello world", "main", "entry point", "component", "props"],
                types: vec!["Component", "ComponentContext", "Props", "Node", "render"],
            },
            SectionMeta {
                id: "start.ui-syntax",
                number: "1.4",
                title: "Read the `ui!` syntax",
                kicker: "SYNTAX",
                summary: "Tags, text children, expressions, fragments, conditionals, collections, props, styles, and listeners.",
                keywords: vec![
                    "macro",
                    "element syntax",
                    "children",
                    "expression",
                    "fragment",
                    "collection",
                ],
                types: vec!["ui", "Node", "fragment", "empty", "Attr"],
            },
            SectionMeta {
                id: "start.committed-frame",
                number: "1.5",
                title: "Understand a committed frame",
                kicker: "PIPELINE",
                summary: "Render, lower, layout, clip, commit, diff, and paint as an app-author mental model.",
                keywords: vec![
                    "render", "lower", "layout", "commit", "diff", "paint", "frame",
                ],
                types: vec!["Node", "Frame", "ElementSnapshot"],
            },
            SectionMeta {
                id: "start.next",
                number: "1.6",
                title: "Choose the next passage",
                kicker: "ROUTES",
                summary: "Route cards for building a layout, adding state, collecting input, rendering documents, and shipping.",
                keywords: vec!["routes", "index", "where next", "learning path"],
                types: vec!["button", "card", "badge"],
            },
        ],
    };
    proof {
        assert(chapter@ =~~= chapter_start_view());
    }
    chapter
}

/// Chapter 02 of the guide.
pub(crate) fn chapter_state() -> (chapter: ChapterMeta)
    ensures
        chapter@ == chapter_state_view(),
        chapter.index == 1,
        chapter.sections@.len() == 7,
{
    let chapter = ChapterMeta {
        id: "state",
        index: 1,
        number: "02",
        title: "Components and State",
        kicker: "STRUCTURE",
        summary: "Reusable component boundaries and the complete practical hook model.",
        keywords: vec!["hooks", "state", "component", "props", "effects", "context"],
        sections: vec![
            SectionMeta {
                id: "state.props",
                number: "2.1",
                title: "Component functions and typed props",
                kicker: "BOUNDARIES",
                summary: "Give a repeated piece of interface a name, a typed contract, and sensible defaults.",
                keywords: vec![
                    "component function",
                    "typed props",
                    "defaults",
                    "reusable",
                    "status row",
                ],
                types: vec![
                    "Component",
                    "Props",
                    "Attr",
                    "Props::data",
                    "Props::host_props",
                ],
            },
            SectionMeta {
                id: "state.children",
                number: "2.2",
                title: "Children, fragments, and composition",
                kicker: "COMPOSITION",
                summary: "Accept arbitrary content, group siblings without a wrapper box, and render nothing on purpose.",
                keywords: vec![
                    "children",
                    "slot",
                    "fragment",
                    "empty",
                    "conditional children",
                    "panel",
                ],
                types: vec!["children_node", "fragment", "empty", "Node"],
            },
            SectionMeta {
                id: "state.keys",
                number: "2.3",
                title: "Identity and keyed collections",
                kicker: "IDENTITY",
                summary: "Keys tell the reconciler which row is which, so reordering moves state instead of destroying it.",
                keywords: vec![
                    "key",
                    "list",
                    "reorder",
                    "identity",
                    "collection",
                    "reconciliation",
                ],
                types: vec!["Key", "Node", "row", "view"],
            },
            SectionMeta {
                id: "state.use-state",
                number: "2.4",
                title: "Visible state with `use_state`",
                kicker: "STATE",
                summary: "A controlled counter that explains setter cloning, queued updates, and `set` versus `update`.",
                keywords: vec!["counter", "controlled", "setter", "update", "queue"],
                types: vec!["use_state", "StateSetter", "ComponentContext"],
            },
            SectionMeta {
                id: "state.refs",
                number: "2.5",
                title: "Persistent values and element refs",
                kicker: "REFS",
                summary: "Distinguish `use_ref`, `use_state_ref`, and `use_element_ref`, and read committed bounds without rendering them.",
                keywords: vec!["ref", "element ref", "snapshot", "geometry", "persistent"],
                types: vec![
                    "use_ref",
                    "use_state_ref",
                    "use_element_ref",
                    "Ref",
                    "StateRef",
                    "ElementRef",
                    "ElementSnapshot",
                ],
            },
            SectionMeta {
                id: "state.effects",
                number: "2.6",
                title: "Memoized work and effects",
                kicker: "EFFECTS",
                summary: "Dependency equality, mount effects, cleanup, and why hook order is a contract.",
                keywords: vec![
                    "memo",
                    "effect",
                    "cleanup",
                    "dependencies",
                    "unmount",
                    "start stop",
                ],
                types: vec![
                    "use_memo",
                    "use_effect",
                    "use_mount_effect",
                    "use_unmount",
                    "EffectResult",
                ],
            },
            SectionMeta {
                id: "state.context",
                number: "2.7",
                title: "Context and application handles",
                kicker: "SHARING",
                summary: "Publish a value to a subtree without threading it through every prop struct.",
                keywords: vec!["context", "provider", "theme", "handle", "exit", "graceful"],
                types: vec![
                    "create_context",
                    "use_context",
                    "provide",
                    "use_theme",
                    "use_handle",
                    "AppHandle",
                ],
            },
        ],
    };
    proof {
        assert(chapter@ =~~= chapter_state_view());
    }
    chapter
}

/// Chapter 03 of the guide.
pub(crate) fn chapter_layout() -> (chapter: ChapterMeta)
    ensures
        chapter@ == chapter_layout_view(),
        chapter.index == 2,
        chapter.sections@.len() == 8,
{
    let chapter = ChapterMeta {
        id: "layout",
        index: 2,
        number: "03",
        title: "Layout and Styling",
        kicker: "GEOMETRY",
        summary: "Make terminal geometry predictable rather than trial-and-error.",
        keywords: vec![
            "layout",
            "style",
            "dimension",
            "flex",
            "border",
            "responsive",
        ],
        sections: vec![
            SectionMeta {
                id: "layout.boxes",
                number: "3.1",
                title: "The box vocabulary",
                kicker: "PRIMITIVES",
                summary: "Learn the small set of containers that every screen is assembled from.",
                keywords: vec![
                    "box",
                    "container",
                    "column",
                    "row",
                    "section",
                    "center",
                    "spacer",
                    "footer",
                ],
                types: vec![
                    "view",
                    "container",
                    "column",
                    "row",
                    "section",
                    "card",
                    "center",
                    "spacer",
                    "footer",
                ],
            },
            SectionMeta {
                id: "layout.axes",
                number: "3.2",
                title: "Main and cross axes",
                kicker: "ALIGNMENT",
                summary: "Distribution and alignment are two independent decisions on perpendicular axes.",
                keywords: vec![
                    "justify",
                    "align",
                    "gap",
                    "space between",
                    "stretch",
                    "axis",
                ],
                types: vec!["Layout", "Justify", "Align", "gap"],
            },
            SectionMeta {
                id: "layout.sizing",
                number: "3.3",
                title: "Sizing in cells and remaining space",
                kicker: "DIMENSIONS",
                summary: "Choose between intrinsic, fixed-cell, percentage, and fill-the-rest sizing deliberately.",
                keywords: vec![
                    "dimension",
                    "auto",
                    "cells",
                    "percent",
                    "max",
                    "available space",
                ],
                types: vec!["Dimension", "Percent", "PercentBasis"],
            },
            SectionMeta {
                id: "layout.spacing",
                number: "3.4",
                title: "Spacing, surfaces, and borders",
                kicker: "SURFACES",
                summary: "Separate siblings, pad a surface, and pick the border kind that matches the role.",
                keywords: vec![
                    "margin",
                    "padding",
                    "background",
                    "fill",
                    "border",
                    "edges",
                    "rounded",
                ],
                types: vec!["Edges", "BorderKind", "Style", "Fill", "card"],
            },
            SectionMeta {
                id: "layout.positioning",
                number: "3.5",
                title: "Positioning and stacking",
                kicker: "OVERLAYS",
                summary: "Absolute placement and paint order put a badge exactly where flow layout cannot.",
                keywords: vec![
                    "absolute",
                    "position",
                    "z index",
                    "stacking",
                    "visibility",
                    "overlay",
                    "badge",
                ],
                types: vec!["AxisPosition", "z_index", "Visibility", "Style"],
            },
            SectionMeta {
                id: "layout.overflow",
                number: "3.6",
                title: "Overflow and clipping",
                kicker: "BOUNDS",
                summary: "Box overflow and text overflow are separate policies, and scrolling owns clipping on its axes.",
                keywords: vec!["overflow", "clip", "visible", "truncate", "scroll owner"],
                types: vec!["Overflow", "scroll_area", "TextOverflow", "TextWrap"],
            },
            SectionMeta {
                id: "layout.measure",
                number: "3.7",
                title: "Measure committed geometry",
                kicker: "INTROSPECTION",
                summary: "Read the rectangles and resolved styles the commit stage actually produced.",
                keywords: vec![
                    "element ref",
                    "snapshot",
                    "bounding rect",
                    "content rect",
                    "resolved style",
                    "scroll state",
                ],
                types: vec![
                    "ElementRef",
                    "ElementSnapshot",
                    "ElementRect",
                    "ResolvedElementStyle",
                    "ElementScrollState",
                ],
            },
            SectionMeta {
                id: "layout.responsive",
                number: "3.8",
                title: "Build responsive terminal layouts",
                kicker: "RESPONSIVE",
                summary: "Use the same width breakpoints this guide uses to choose rails, columns, and controls.",
                keywords: vec![
                    "breakpoint",
                    "responsive",
                    "rail",
                    "wide",
                    "narrow",
                    "resize",
                ],
                types: vec!["Dimension", "Visibility", "ElementRef"],
            },
        ],
    };
    proof {
        assert(chapter@ =~~= chapter_layout_view());
    }
    chapter
}

/// Chapter 04 of the guide.
pub(crate) fn chapter_text() -> (chapter: ChapterMeta)
    ensures
        chapter@ == chapter_text_view(),
        chapter.index == 3,
        chapter.sections@.len() == 7,
{
    let chapter = ChapterMeta {
        id: "text",
        index: 3,
        number: "04",
        title: "Text and Documents",
        kicker: "PROSE",
        summary: "The framework's Unicode-aware text model and long-form content.",
        keywords: vec!["text", "unicode", "wrap", "markdown", "selection", "spans"],
        sections: vec![
            SectionMeta {
                id: "text.components",
                number: "4.1",
                title: "Semantic text components",
                kicker: "ROLES",
                summary: "Name the role of a run of text and let the theme decide how it looks.",
                keywords: vec![
                    "heading",
                    "paragraph",
                    "label",
                    "muted",
                    "code",
                    "blockquote",
                    "kbd",
                ],
                types: vec![
                    "heading",
                    "paragraph",
                    "label",
                    "muted",
                    "code",
                    "blockquote",
                    "kbd",
                ],
            },
            SectionMeta {
                id: "text.spans",
                number: "4.2",
                title: "Styled spans",
                kicker: "INLINE",
                summary: "Compose one text node from independently styled runs, including the terminal attributes.",
                keywords: vec![
                    "span",
                    "foreground",
                    "background",
                    "bold",
                    "italic",
                    "underline",
                ],
                types: vec!["Text", "Span", "TextStyle", "Attributes"],
            },
            SectionMeta {
                id: "text.unicode",
                number: "4.3",
                title: "Unicode occupies cells, not bytes",
                kicker: "WIDTHS",
                summary: "Graphemes, wide CJK cells, combining marks, and emoji all participate in alignment.",
                keywords: vec![
                    "cjk",
                    "emoji",
                    "grapheme",
                    "wide cell",
                    "combining",
                    "unicode width",
                ],
                types: vec!["Text", "EmojiMerging", "Span"],
            },
            SectionMeta {
                id: "text.wrapping",
                number: "4.4",
                title: "Wrapping, alignment, and truncation",
                kicker: "FITTING",
                summary: "Choose how text reflows, where it sits in its box, and what happens when it still overflows.",
                keywords: vec!["nowrap", "soft", "hard", "ellipsis", "clip", "align"],
                types: vec!["TextWrap", "TextAlign", "TextOverflow", "Text"],
            },
            SectionMeta {
                id: "text.links",
                number: "4.5",
                title: "Links report intent",
                kicker: "LINKS",
                summary: "A link reports its target; opening anything stays an application decision.",
                keywords: vec!["link", "href", "follow", "url", "open"],
                types: vec!["link", "LinkProps", "on_follow"],
            },
            SectionMeta {
                id: "text.selection",
                number: "4.6",
                title: "Selectable documents",
                kicker: "SELECTION",
                summary: "Pointer drag, keyboard extension, select-all, and copy over the committed frame.",
                keywords: vec!["selection", "copy", "clipboard", "select all", "drag"],
                types: vec![
                    "selection_area",
                    "SelectionAreaProps",
                    "TextSelectionEvent",
                    "ElementRef",
                ],
            },
            SectionMeta {
                id: "text.markdown",
                number: "4.7",
                title: "Markdown as ordinary components",
                kicker: "DOCUMENTS",
                summary: "One opt-in feature turns CommonMark into selectable native components.",
                keywords: vec![
                    "markdown",
                    "commonmark",
                    "table",
                    "task list",
                    "footnote",
                    "alert",
                ],
                types: vec!["markdown", "MarkdownProps", "selection_area"],
            },
        ],
    };
    proof {
        assert(chapter@ =~~= chapter_text_view());
    }
    chapter
}

/// Chapter 05 of the guide.
pub(crate) fn chapter_controls() -> (chapter: ChapterMeta)
    ensures
        chapter@ == chapter_controls_view(),
        chapter.index == 4,
        chapter.sections@.len() == 8,
{
    let chapter = ChapterMeta {
        id: "controls",
        index: 4,
        number: "05",
        title: "Controls and Events",
        kicker: "INTERACTION",
        summary: "State ownership, semantic activation, editing, focus, and event flow.",
        keywords: vec![
            "controls", "events", "input", "focus", "keyboard", "pointer",
        ],
        sections: vec![
            SectionMeta {
                id: "controls.buttons",
                number: "5.1",
                title: "Buttons and semantic activation",
                kicker: "ACTIVATION",
                summary: "Buttons own press semantics, so a keyboard activation and a click arrive through one path.",
                keywords: vec![
                    "button",
                    "press",
                    "click",
                    "disabled",
                    "autofocus",
                    "variant",
                ],
                types: vec!["button", "ButtonProps", "ButtonVariant", "on_press"],
            },
            SectionMeta {
                id: "controls.selection-controls",
                number: "5.2",
                title: "Checkboxes, radios, and switches",
                kicker: "CHOICES",
                summary: "Controlled selection controls report the change they want instead of mutating themselves.",
                keywords: vec![
                    "checkbox",
                    "radio",
                    "switch",
                    "toggle",
                    "preferences",
                    "on_change",
                    "on_select",
                ],
                types: vec![
                    "checkbox",
                    "radio",
                    "switch",
                    "CheckboxProps",
                    "RadioProps",
                    "SwitchProps",
                ],
            },
            SectionMeta {
                id: "controls.input",
                number: "5.3",
                title: "Controlled and uncontrolled input",
                kicker: "EDITING",
                summary: "Pick one owner for the value, then rely on the same control for the other model.",
                keywords: vec![
                    "input",
                    "controlled",
                    "uncontrolled",
                    "placeholder",
                    "max length",
                    "submit",
                    "read only",
                ],
                types: vec!["input", "InputProps", "TextValueEvent", "on_submit"],
            },
            SectionMeta {
                id: "controls.textarea",
                number: "5.4",
                title: "Multiline editing",
                kicker: "MULTILINE",
                summary: "Wrapping, selection, clipboard, and a bounded height for longer text.",
                keywords: vec!["textarea", "multiline", "wrap", "clipboard", "height"],
                types: vec![
                    "textarea",
                    "TextareaProps",
                    "TextWrap",
                    "TextClipboardEvent",
                ],
            },
            SectionMeta {
                id: "controls.raw-input",
                number: "5.5",
                title: "Build on `raw_input`",
                kicker: "EXTENSION",
                summary: "Restyle the editor host and intercept policy while keeping low-level editing out of application code.",
                keywords: vec!["raw input", "command field", "custom", "appearance", "mode"],
                types: vec![
                    "raw_input",
                    "RawInputProps",
                    "RawInputAppearance",
                    "RawInputMode",
                ],
            },
            SectionMeta {
                id: "controls.focus",
                number: "5.6",
                title: "Focus and keyboard behavior",
                kicker: "FOCUS",
                summary: "Focusability, autofocus, activation keys, local key handling, and application shortcuts.",
                keywords: vec![
                    "focus", "tab", "enter", "space", "shortcut", "modifier", "app key",
                ],
                types: vec!["autofocus", "on_key_down", "on_app_key", "KeyboardEvent"],
            },
            SectionMeta {
                id: "controls.events",
                number: "5.7",
                title: "Pointer, wheel, paste, resize, and terminal focus",
                kicker: "EVENT FLOW",
                summary: "The public event families and the capture, target, and bubble phases they share.",
                keywords: vec![
                    "pointer",
                    "wheel",
                    "paste",
                    "resize",
                    "focus event",
                    "capture",
                    "bubble",
                ],
                types: vec![
                    "PointerEvent",
                    "WheelEvent",
                    "PasteEvent",
                    "ResizeEvent",
                    "FocusEvent",
                    "TerminalFocusEvent",
                    "EventPhase",
                    "EventListener",
                ],
            },
            SectionMeta {
                id: "controls.ledger",
                number: "5.8",
                title: "A live event ledger",
                kicker: "LEDGER",
                summary: "A preferences form that records recent semantic events in a bounded, scrollable ledger.",
                keywords: vec!["ledger", "log", "event log", "bounded", "preferences form"],
                types: vec![
                    "use_state",
                    "scroll_area",
                    "card",
                    "checkbox",
                    "radio",
                    "switch",
                ],
            },
        ],
    };
    proof {
        assert(chapter@ =~~= chapter_controls_view());
    }
    chapter
}

/// Chapter 06 of the guide.
pub(crate) fn chapter_feedback() -> (chapter: ChapterMeta)
    ensures
        chapter@ == chapter_feedback_view(),
        chapter.index == 5,
        chapter.sections@.len() == 6,
{
    let chapter = ChapterMeta {
        id: "feedback",
        index: 5,
        number: "06",
        title: "Feedback and Canvas",
        kicker: "STATUS",
        summary: "Communicate status without introducing a separate charting abstraction.",
        keywords: vec![
            "feedback", "progress", "spinner", "alert", "canvas", "chart",
        ],
        sections: vec![
            SectionMeta {
                id: "feedback.badges",
                number: "6.1",
                title: "Badges as compact state",
                kicker: "BADGES",
                summary: "A short label with a semantic role, always paired with text so color is never the only cue.",
                keywords: vec!["badge", "tag", "label", "variant", "status"],
                types: vec!["badge", "BadgeProps", "BadgeVariant"],
            },
            SectionMeta {
                id: "feedback.alerts",
                number: "6.2",
                title: "Alerts with semantic severity",
                kicker: "ALERTS",
                summary: "Info, success, warning, and error share one card with a colored edge and a readable title.",
                keywords: vec!["alert", "info", "success", "warning", "error", "severity"],
                types: vec!["alert", "AlertProps", "AlertVariant"],
            },
            SectionMeta {
                id: "feedback.progress",
                number: "6.3",
                title: "Progress is caller-owned",
                kicker: "PROGRESS",
                summary: "The bar clamps and formats a value; deciding that value belongs to your state model.",
                keywords: vec!["progress", "bar", "value", "max", "clamp", "percentage"],
                types: vec!["progress_bar", "ProgressBarProps"],
            },
            SectionMeta {
                id: "feedback.spinners",
                number: "6.4",
                title: "Spinners and skeletons",
                kicker: "PLACEHOLDERS",
                summary: "Callers advance spinner frames and decide when a placeholder is better than a blank.",
                keywords: vec!["spinner", "skeleton", "frame", "placeholder", "loading"],
                types: vec!["spinner", "skeleton", "SpinnerProps", "SkeletonProps"],
            },
            SectionMeta {
                id: "feedback.publish",
                number: "6.5",
                title: "A publish-operation demonstration",
                kicker: "LIVE EXAMPLE",
                summary: "One state model drives a spinner, a progress bar, a badge, an alert, and a bounded status log.",
                keywords: vec![
                    "publish",
                    "operation",
                    "timer",
                    "effect",
                    "cleanup",
                    "start pause reset",
                ],
                types: vec![
                    "use_state",
                    "use_effect",
                    "use_mount_effect",
                    "spinner",
                    "progress_bar",
                    "alert",
                    "badge",
                ],
            },
            SectionMeta {
                id: "feedback.canvas",
                number: "6.6",
                title: "Draw directly with canvas",
                kicker: "CANVAS",
                summary: "Text, lines, rectangles, colors, attributes, and clipping in a fixed cell grid.",
                keywords: vec!["canvas", "draw", "chart", "line", "rect", "cells"],
                types: vec![
                    "canvas",
                    "CanvasContext",
                    "CanvasProps",
                    "CanvasDraw",
                    "CanvasError",
                ],
            },
        ],
    };
    proof {
        assert(chapter@ =~~= chapter_feedback_view());
    }
    chapter
}

/// Chapter 07 of the guide.
pub(crate) fn chapter_media() -> (chapter: ChapterMeta)
    ensures
        chapter@ == chapter_media_view(),
        chapter.index == 6,
        chapter.sections@.len() == 7,
{
    let chapter = ChapterMeta {
        id: "media",
        index: 6,
        number: "07",
        title: "Scroll, Selection, and Raster Media",
        kicker: "INTERACTION",
        summary: "Interaction whose correctness depends on committed geometry.",
        keywords: vec!["scroll", "selection", "image", "raster", "sixel", "kitty"],
        sections: vec![
            SectionMeta {
                id: "media.scroll",
                number: "7.1",
                title: "Scrollable regions",
                kicker: "SCROLLING",
                summary: "Vertical, horizontal, and two-axis scrolling with clipping, scrollbars, and wheel steps.",
                keywords: vec!["scroll", "axes", "scrollbar", "wheel", "clip"],
                types: vec![
                    "scroll_area",
                    "ScrollAreaProps",
                    "ScrollAxes",
                    "ScrollbarVisibility",
                    "ScrollbarStyle",
                ],
            },
            SectionMeta {
                id: "media.offsets",
                number: "7.2",
                title: "Controlled versus runtime-owned offsets",
                kicker: "OWNERSHIP",
                summary: "Own the offset when the application must know it; let the runtime own it otherwise.",
                keywords: vec![
                    "controlled offset",
                    "uncontrolled",
                    "on_scroll",
                    "readout",
                    "build log",
                ],
                types: vec!["ScrollOffset", "ScrollEvent", "ScrollDelta", "scroll_area"],
            },
            SectionMeta {
                id: "media.nesting",
                number: "7.3",
                title: "Scrollable nesting",
                kicker: "NESTING",
                summary: "Wheel ownership, focus, bounded heights, and why chrome belongs outside the document scroller.",
                keywords: vec![
                    "nesting",
                    "nested scroll",
                    "height",
                    "chrome",
                    "wheel ownership",
                ],
                types: vec!["scroll_area", "Dimension", "ElementRef"],
            },
            SectionMeta {
                id: "media.selection-scroll",
                number: "7.4",
                title: "Selection inside scrolling",
                kicker: "SELECTION",
                summary: "Hit testing follows painted content, so selection stays correct after a scroll.",
                keywords: vec!["selection", "scroll", "hit test", "release notes", "copy"],
                types: vec!["selection_area", "scroll_area", "TextSelectionEvent"],
            },
            SectionMeta {
                id: "media.sources",
                number: "7.5",
                title: "Raster sources and loading",
                kicker: "SOURCES",
                summary: "Loaded versus file-backed sources, lazy and eager decoding, explicit dimensions, and resource limits.",
                keywords: vec![
                    "image source",
                    "raster",
                    "decode",
                    "lazy",
                    "eager",
                    "budget",
                    "include_bytes",
                ],
                types: vec![
                    "raster_image",
                    "ImageProps",
                    "ImageSource",
                    "ImageLoading",
                    "RasterImage",
                    "ResourceLimits",
                ],
            },
            SectionMeta {
                id: "media.fit",
                number: "7.6",
                title: "Fit, alignment, and render mode",
                kicker: "PLACEMENT",
                summary: "Contain, cover, and stretch; Auto, Native, and Symbols; and terminal protocol negotiation.",
                keywords: vec![
                    "contain", "cover", "stretch", "align", "auto", "native", "symbols", "protocol",
                ],
                types: vec![
                    "ImageFit",
                    "ImageAlign",
                    "ImageMode",
                    "ImageProtocol",
                    "raster_image",
                ],
            },
            SectionMeta {
                id: "media.shipping",
                number: "7.7",
                title: "Shipping images safely",
                kicker: "PRODUCTION",
                summary: "Cache identity, explicit sizing, error placeholders, budgets, and terminal capability variance.",
                keywords: vec![
                    "cache",
                    "budget",
                    "placeholder",
                    "capability",
                    "packaging",
                    "asset",
                ],
                types: vec![
                    "ImageSource",
                    "ImageSourceKey",
                    "ResourceLimits",
                    "ImageMode",
                ],
            },
        ],
    };
    proof {
        assert(chapter@ =~~= chapter_media_view());
    }
    chapter
}

/// Chapter 08 of the guide.
pub(crate) fn chapter_themes() -> (chapter: ChapterMeta)
    ensures
        chapter@ == chapter_themes_view(),
        chapter.index == 7,
        chapter.sections@.len() == 6,
{
    let chapter = ChapterMeta {
        id: "themes",
        index: 7,
        number: "08",
        title: "Themes",
        kicker: "DESIGN SYSTEM",
        summary: "The semantic design system, proven by the guide's own header controls.",
        keywords: vec![
            "theme",
            "color",
            "palette",
            "preset",
            "contrast",
            "typography",
        ],
        sections: vec![
            SectionMeta {
                id: "themes.roles",
                number: "8.1",
                title: "Theme roles instead of raw colors",
                kicker: "ROLES",
                summary: "Nineteen roles cover every surface, and each one carries a readable foreground partner.",
                keywords: vec![
                    "role",
                    "palette",
                    "foreground",
                    "background",
                    "semantic color",
                ],
                types: vec!["ThemeColors", "Theme", "ThemeMode", "ThemePreset"],
            },
            SectionMeta {
                id: "themes.presets",
                number: "8.2",
                title: "Preset and mode selection",
                kicker: "PRESETS",
                summary: "Eight complete palettes crossed with light and dark, driven by the header controls.",
                keywords: vec![
                    "preset",
                    "nord",
                    "dracula",
                    "solarized",
                    "latte",
                    "ocean",
                    "mode",
                ],
                types: vec!["ThemePreset", "ThemeMode", "ThemePreset::ALL"],
            },
            SectionMeta {
                id: "themes.tokens",
                number: "8.3",
                title: "Typography, spacing, borders, and scrollbars",
                kicker: "TOKENS",
                summary: "Derived tokens turn a palette into a consistent interface, shown as compact specimens.",
                keywords: vec!["typography", "spacing", "border", "scrollbar", "tokens"],
                types: vec![
                    "ThemeTypography",
                    "ThemeSpacing",
                    "ThemeBorders",
                    "ScrollbarStyle",
                ],
            },
            SectionMeta {
                id: "themes.customize",
                number: "8.4",
                title: "Customize without breaking derivation",
                kicker: "CUSTOMIZE",
                summary: "Start from a preset, override deliberately, and know which substitutions re-derive dependent tokens.",
                keywords: vec![
                    "customize",
                    "theme builder",
                    "override",
                    "derive",
                    "palette",
                ],
                types: vec!["ThemePreset::theme", "ThemeBuilder", "Theme::customize"],
            },
            SectionMeta {
                id: "themes.providers",
                number: "8.5",
                title: "Nested providers",
                kicker: "SCOPING",
                summary: "A nested provider restyles one subtree, and the guide proves it does not leak.",
                keywords: vec!["provider", "nested", "scope", "local theme", "preview"],
                types: vec![
                    "theme_provider",
                    "ThemeProviderProps",
                    "theme_context",
                    "use_theme",
                ],
            },
            SectionMeta {
                id: "themes.contrast",
                number: "8.6",
                title: "Contrast and non-color cues",
                kicker: "ACCESSIBILITY",
                summary: "Measure readability and always pair status color with a label, glyph, or shape.",
                keywords: vec!["contrast", "accessibility", "readable", "status", "cue"],
                types: vec!["contrast_ratio", "MIN_TEXT_CONTRAST", "Theme::on_card"],
            },
        ],
    };
    proof {
        assert(chapter@ =~~= chapter_themes_view());
    }
    chapter
}

/// Chapter 09 of the guide.
pub(crate) fn chapter_production() -> (chapter: ChapterMeta)
    ensures
        chapter@ == chapter_production_view(),
        chapter.index == 8,
        chapter.sections@.len() == 8,
{
    let chapter = ChapterMeta {
        id: "production",
        index: 8,
        number: "09",
        title: "Production",
        kicker: "OPERATIONS",
        summary: "Turn a convincing UI into a reliable terminal application.",
        keywords: vec![
            "production",
            "runtime",
            "lifecycle",
            "limits",
            "testing",
            "release",
        ],
        sections: vec![
            SectionMeta {
                id: "production.runtime",
                number: "9.1",
                title: "Runtime configuration",
                kicker: "CONFIG",
                summary: "Exit key, polling, terminal modes, protocols, and the limits that bound the session.",
                keywords: vec![
                    "runtime config",
                    "exit key",
                    "mouse",
                    "paste",
                    "focus events",
                    "limits",
                ],
                types: vec![
                    "RuntimeConfig",
                    "ImageProtocol",
                    "ImageUpdatePolicy",
                    "ResourceLimits",
                    "EmojiMerging",
                ],
            },
            SectionMeta {
                id: "production.lifecycle",
                number: "9.2",
                title: "Application lifecycle",
                kicker: "LIFECYCLE",
                summary: "Boot, Mount, Ready, Unmount, and Exit, with the hook that belongs in each phase.",
                keywords: vec![
                    "lifecycle",
                    "boot",
                    "mount",
                    "ready",
                    "unmount",
                    "exit",
                    "render_with",
                ],
                types: vec![
                    "AppLifecycle",
                    "AppPhase",
                    "AppSession",
                    "ExitReason",
                    "render_with",
                ],
            },
            SectionMeta {
                id: "production.exit",
                number: "9.3",
                title: "Graceful exit and terminal restoration",
                kicker: "SHUTDOWN",
                summary: "Exit reasons, cleanup ordering, and why process termination must not bypass restoration.",
                keywords: vec![
                    "exit",
                    "restore",
                    "cleanup",
                    "handle",
                    "request exit",
                    "terminal state",
                ],
                types: vec!["AppHandle", "ExitReason", "use_handle", "use_unmount"],
            },
            SectionMeta {
                id: "production.effects",
                number: "9.4",
                title: "Effects and external work",
                kicker: "ASYNC",
                summary: "Threads, channels, cancellation, dependency changes, and unmount cleanup.",
                keywords: vec![
                    "thread",
                    "channel",
                    "cancellation",
                    "effect",
                    "cleanup",
                    "worker",
                ],
                types: vec![
                    "use_effect",
                    "use_mount_effect",
                    "EffectResult",
                    "StateSetter",
                ],
            },
            SectionMeta {
                id: "production.render-path",
                number: "9.5",
                title: "Keep the render path quiet",
                kicker: "PERFORMANCE",
                summary: "Stable structure, keyed collections, memoization, and bounded logs keep frames cheap.",
                keywords: vec![
                    "performance",
                    "memo",
                    "key",
                    "bounded",
                    "redundant update",
                    "render",
                ],
                types: vec!["use_memo", "Key", "use_state", "ElementRef"],
            },
            SectionMeta {
                id: "production.limits",
                number: "9.6",
                title: "Resource limits and failure behavior",
                kicker: "LIMITS",
                summary: "Tree, output, image, and cache budgets described from the application's side.",
                keywords: vec![
                    "limit",
                    "budget",
                    "tree size",
                    "output bytes",
                    "image cache",
                    "failure",
                ],
                types: vec!["ResourceLimits", "ImageRenderOptions", "RenderError"],
            },
            SectionMeta {
                id: "production.testing",
                number: "9.7",
                title: "Test at the right layer",
                kicker: "TESTING",
                summary: "Pure state tests, component commits, fixed viewports, event routing, and terminal smoke checks.",
                keywords: vec![
                    "test",
                    "commit",
                    "viewport",
                    "event routing",
                    "reducer",
                    "pure function",
                ],
                types: vec!["Commit", "Lower", "Runtime", "Frame"],
            },
            SectionMeta {
                id: "production.checklist",
                number: "9.8",
                title: "Release checklist",
                kicker: "CHECKLIST",
                summary: "An interactive checklist for the last pass before a terminal application ships.",
                keywords: vec![
                    "checklist",
                    "release",
                    "viewport sizes",
                    "keyboard only",
                    "packaging",
                ],
                types: vec!["checkbox", "use_state", "progress_bar", "button"],
            },
        ],
    };
    proof {
        assert(chapter@ =~~= chapter_production_view());
    }
    chapter
}

/// Chapter 10 of the guide.
pub(crate) fn chapter_api() -> (chapter: ChapterMeta)
    ensures
        chapter@ == chapter_api_view(),
        chapter.index == 9,
        chapter.sections@.len() == 5,
{
    let chapter = ChapterMeta {
        id: "api",
        index: 9,
        number: "10",
        title: "API Map",
        kicker: "REFERENCE",
        summary: "Fast lookup that points at the chapter containing each demonstration.",
        keywords: vec!["reference", "index", "lookup", "api", "map"],
        sections: vec![
            SectionMeta {
                id: "api.layout",
                number: "10.1",
                title: "Composition and layout index",
                kicker: "LAYOUT",
                summary: "Every layout primitive, its purpose, and where it is demonstrated.",
                keywords: vec!["layout index", "views", "containers", "boxes"],
                types: vec![
                    "view",
                    "container",
                    "column",
                    "row",
                    "section",
                    "card",
                    "center",
                    "spacer",
                    "footer",
                    "divider",
                ],
            },
            SectionMeta {
                id: "api.controls",
                number: "10.2",
                title: "Controls and feedback index",
                kicker: "WIDGETS",
                summary: "Every widget with its ownership model, important defaults, and emitted event.",
                keywords: vec!["widget index", "controls", "feedback", "events"],
                types: vec![
                    "button",
                    "checkbox",
                    "radio",
                    "switch",
                    "input",
                    "textarea",
                    "raw_input",
                    "link",
                    "badge",
                    "alert",
                    "progress_bar",
                    "spinner",
                    "skeleton",
                    "selection_area",
                ],
            },
            SectionMeta {
                id: "api.hooks",
                number: "10.3",
                title: "Hooks and context index",
                kicker: "HOOKS",
                summary: "A selection guide for state, refs, memo, effects, context, theme, and handles.",
                keywords: vec!["hook index", "state ref memo effect context"],
                types: vec![
                    "use_state",
                    "use_ref",
                    "use_state_ref",
                    "use_memo",
                    "use_effect",
                    "use_mount_effect",
                    "use_unmount",
                    "use_context",
                    "provide",
                    "use_theme",
                    "use_element_ref",
                    "use_handle",
                ],
            },
            SectionMeta {
                id: "api.media",
                number: "10.4",
                title: "Text, documents, and media index",
                kicker: "CONTENT",
                summary: "The type map for text, spans, selection, Markdown, canvas, and raster media.",
                keywords: vec![
                    "text index",
                    "markdown index",
                    "canvas index",
                    "raster index",
                ],
                types: vec![
                    "text",
                    "Text",
                    "Span",
                    "heading",
                    "paragraph",
                    "label",
                    "muted",
                    "code",
                    "blockquote",
                    "kbd",
                    "markdown",
                    "MarkdownProps",
                    "canvas",
                    "CanvasContext",
                    "raster_image",
                    "ImageProps",
                    "ImageSource",
                    "ImageFit",
                    "ImageMode",
                ],
            },
            SectionMeta {
                id: "api.runtime",
                number: "10.5",
                title: "Runtime and lifecycle index",
                kicker: "RUNTIME",
                summary: "High-level configuration and lifecycle types, and the boundary to rustdoc for pipeline work.",
                keywords: vec![
                    "runtime index",
                    "lifecycle index",
                    "advanced",
                    "rustdoc",
                    "boundary",
                ],
                types: vec![
                    "render",
                    "render_with",
                    "RuntimeConfig",
                    "AppLifecycle",
                    "AppPhase",
                    "AppSession",
                    "ExitReason",
                    "AppHandle",
                    "advanced",
                ],
            },
        ],
    };
    proof {
        assert(chapter@ =~~= chapter_api_view());
    }
    chapter
}

/// What chapter 01 of the guide says.
pub open spec fn chapter_start_view() -> ChapterView {
    ChapterView {
        id: "start"@,
        index: 0,
        number: "01"@,
        title: "Start Here"@,
        kicker: "FOUNDATIONS"@,
        summary: "Move from installation to a useful mental model without assuming prior TUI experience."@,
        keywords: seq![
            "getting started"@,
            "install"@,
            "hello world"@,
            "overview"@,
            "quickstart"@,
        ],
        sections: seq![
            SectionView {
                id: "start.belongs"@,
                number: "1.1"@,
                title: "A UI that belongs in the terminal"@,
                kicker: "WHY ICMD"@,
                summary: "Retained components, cell-aware layout, Unicode text, focus, and incremental painting in one mental model."@,
                keywords: seq![
                    "release card"@,
                    "status card"@,
                    "badge"@,
                    "divider"@,
                    "composition"@,
                ],
                types: seq![
                    "card"@,
                    "row"@,
                    "heading"@,
                    "badge"@,
                    "paragraph"@,
                    "divider"@,
                    "button"@,
                ],
            },
            SectionView {
                id: "start.install"@,
                number: "1.2"@,
                title: "Install the framework"@,
                kicker: "SETUP"@,
                summary: "A pure-Rust default, the two opt-in features, and the native raster prerequisites."@,
                keywords: seq![
                    "cargo add"@,
                    "features"@,
                    "chafa"@,
                    "pkg-config"@,
                    "libclang"@,
                    "pure rust"@,
                ],
                types: seq!["RuntimeConfig"@, "ImageProtocol"@],
            },
            SectionView {
                id: "start.first-component"@,
                number: "1.3"@,
                title: "Render the first component"@,
                kicker: "HELLO"@,
                summary: "A complete minimal program: imports, a component function, a `ui!` tree, and the runtime entry point."@,
                keywords: seq!["hello world"@, "main"@, "entry point"@, "component"@, "props"@],
                types: seq!["Component"@, "ComponentContext"@, "Props"@, "Node"@, "render"@],
            },
            SectionView {
                id: "start.ui-syntax"@,
                number: "1.4"@,
                title: "Read the `ui!` syntax"@,
                kicker: "SYNTAX"@,
                summary: "Tags, text children, expressions, fragments, conditionals, collections, props, styles, and listeners."@,
                keywords: seq![
                    "macro"@,
                    "element syntax"@,
                    "children"@,
                    "expression"@,
                    "fragment"@,
                    "collection"@,
                ],
                types: seq!["ui"@, "Node"@, "fragment"@, "empty"@, "Attr"@],
            },
            SectionView {
                id: "start.committed-frame"@,
                number: "1.5"@,
                title: "Understand a committed frame"@,
                kicker: "PIPELINE"@,
                summary: "Render, lower, layout, clip, commit, diff, and paint as an app-author mental model."@,
                keywords: seq![
                    "render"@, "lower"@, "layout"@, "commit"@, "diff"@, "paint"@, "frame"@,
                ],
                types: seq!["Node"@, "Frame"@, "ElementSnapshot"@],
            },
            SectionView {
                id: "start.next"@,
                number: "1.6"@,
                title: "Choose the next passage"@,
                kicker: "ROUTES"@,
                summary: "Route cards for building a layout, adding state, collecting input, rendering documents, and shipping."@,
                keywords: seq!["routes"@, "index"@, "where next"@, "learning path"@],
                types: seq!["button"@, "card"@, "badge"@],
            },
        ],
    }
}

/// What chapter 02 of the guide says.
pub open spec fn chapter_state_view() -> ChapterView {
    ChapterView {
        id: "state"@,
        index: 1,
        number: "02"@,
        title: "Components and State"@,
        kicker: "STRUCTURE"@,
        summary: "Reusable component boundaries and the complete practical hook model."@,
        keywords: seq!["hooks"@, "state"@, "component"@, "props"@, "effects"@, "context"@],
        sections: seq![
            SectionView {
                id: "state.props"@,
                number: "2.1"@,
                title: "Component functions and typed props"@,
                kicker: "BOUNDARIES"@,
                summary: "Give a repeated piece of interface a name, a typed contract, and sensible defaults."@,
                keywords: seq![
                    "component function"@,
                    "typed props"@,
                    "defaults"@,
                    "reusable"@,
                    "status row"@,
                ],
                types: seq![
                    "Component"@,
                    "Props"@,
                    "Attr"@,
                    "Props::data"@,
                    "Props::host_props"@,
                ],
            },
            SectionView {
                id: "state.children"@,
                number: "2.2"@,
                title: "Children, fragments, and composition"@,
                kicker: "COMPOSITION"@,
                summary: "Accept arbitrary content, group siblings without a wrapper box, and render nothing on purpose."@,
                keywords: seq![
                    "children"@,
                    "slot"@,
                    "fragment"@,
                    "empty"@,
                    "conditional children"@,
                    "panel"@,
                ],
                types: seq!["children_node"@, "fragment"@, "empty"@, "Node"@],
            },
            SectionView {
                id: "state.keys"@,
                number: "2.3"@,
                title: "Identity and keyed collections"@,
                kicker: "IDENTITY"@,
                summary: "Keys tell the reconciler which row is which, so reordering moves state instead of destroying it."@,
                keywords: seq![
                    "key"@,
                    "list"@,
                    "reorder"@,
                    "identity"@,
                    "collection"@,
                    "reconciliation"@,
                ],
                types: seq!["Key"@, "Node"@, "row"@, "view"@],
            },
            SectionView {
                id: "state.use-state"@,
                number: "2.4"@,
                title: "Visible state with `use_state`"@,
                kicker: "STATE"@,
                summary: "A controlled counter that explains setter cloning, queued updates, and `set` versus `update`."@,
                keywords: seq!["counter"@, "controlled"@, "setter"@, "update"@, "queue"@],
                types: seq!["use_state"@, "StateSetter"@, "ComponentContext"@],
            },
            SectionView {
                id: "state.refs"@,
                number: "2.5"@,
                title: "Persistent values and element refs"@,
                kicker: "REFS"@,
                summary: "Distinguish `use_ref`, `use_state_ref`, and `use_element_ref`, and read committed bounds without rendering them."@,
                keywords: seq!["ref"@, "element ref"@, "snapshot"@, "geometry"@, "persistent"@],
                types: seq![
                    "use_ref"@,
                    "use_state_ref"@,
                    "use_element_ref"@,
                    "Ref"@,
                    "StateRef"@,
                    "ElementRef"@,
                    "ElementSnapshot"@,
                ],
            },
            SectionView {
                id: "state.effects"@,
                number: "2.6"@,
                title: "Memoized work and effects"@,
                kicker: "EFFECTS"@,
                summary: "Dependency equality, mount effects, cleanup, and why hook order is a contract."@,
                keywords: seq![
                    "memo"@,
                    "effect"@,
                    "cleanup"@,
                    "dependencies"@,
                    "unmount"@,
                    "start stop"@,
                ],
                types: seq![
                    "use_memo"@,
                    "use_effect"@,
                    "use_mount_effect"@,
                    "use_unmount"@,
                    "EffectResult"@,
                ],
            },
            SectionView {
                id: "state.context"@,
                number: "2.7"@,
                title: "Context and application handles"@,
                kicker: "SHARING"@,
                summary: "Publish a value to a subtree without threading it through every prop struct."@,
                keywords: seq!["context"@, "provider"@, "theme"@, "handle"@, "exit"@, "graceful"@],
                types: seq![
                    "create_context"@,
                    "use_context"@,
                    "provide"@,
                    "use_theme"@,
                    "use_handle"@,
                    "AppHandle"@,
                ],
            },
        ],
    }
}

/// What chapter 03 of the guide says.
pub open spec fn chapter_layout_view() -> ChapterView {
    ChapterView {
        id: "layout"@,
        index: 2,
        number: "03"@,
        title: "Layout and Styling"@,
        kicker: "GEOMETRY"@,
        summary: "Make terminal geometry predictable rather than trial-and-error."@,
        keywords: seq![
            "layout"@,
            "style"@,
            "dimension"@,
            "flex"@,
            "border"@,
            "responsive"@,
        ],
        sections: seq![
            SectionView {
                id: "layout.boxes"@,
                number: "3.1"@,
                title: "The box vocabulary"@,
                kicker: "PRIMITIVES"@,
                summary: "Learn the small set of containers that every screen is assembled from."@,
                keywords: seq![
                    "box"@,
                    "container"@,
                    "column"@,
                    "row"@,
                    "section"@,
                    "center"@,
                    "spacer"@,
                    "footer"@,
                ],
                types: seq![
                    "view"@,
                    "container"@,
                    "column"@,
                    "row"@,
                    "section"@,
                    "card"@,
                    "center"@,
                    "spacer"@,
                    "footer"@,
                ],
            },
            SectionView {
                id: "layout.axes"@,
                number: "3.2"@,
                title: "Main and cross axes"@,
                kicker: "ALIGNMENT"@,
                summary: "Distribution and alignment are two independent decisions on perpendicular axes."@,
                keywords: seq![
                    "justify"@,
                    "align"@,
                    "gap"@,
                    "space between"@,
                    "stretch"@,
                    "axis"@,
                ],
                types: seq!["Layout"@, "Justify"@, "Align"@, "gap"@],
            },
            SectionView {
                id: "layout.sizing"@,
                number: "3.3"@,
                title: "Sizing in cells and remaining space"@,
                kicker: "DIMENSIONS"@,
                summary: "Choose between intrinsic, fixed-cell, percentage, and fill-the-rest sizing deliberately."@,
                keywords: seq![
                    "dimension"@,
                    "auto"@,
                    "cells"@,
                    "percent"@,
                    "max"@,
                    "available space"@,
                ],
                types: seq!["Dimension"@, "Percent"@, "PercentBasis"@],
            },
            SectionView {
                id: "layout.spacing"@,
                number: "3.4"@,
                title: "Spacing, surfaces, and borders"@,
                kicker: "SURFACES"@,
                summary: "Separate siblings, pad a surface, and pick the border kind that matches the role."@,
                keywords: seq![
                    "margin"@,
                    "padding"@,
                    "background"@,
                    "fill"@,
                    "border"@,
                    "edges"@,
                    "rounded"@,
                ],
                types: seq!["Edges"@, "BorderKind"@, "Style"@, "Fill"@, "card"@],
            },
            SectionView {
                id: "layout.positioning"@,
                number: "3.5"@,
                title: "Positioning and stacking"@,
                kicker: "OVERLAYS"@,
                summary: "Absolute placement and paint order put a badge exactly where flow layout cannot."@,
                keywords: seq![
                    "absolute"@,
                    "position"@,
                    "z index"@,
                    "stacking"@,
                    "visibility"@,
                    "overlay"@,
                    "badge"@,
                ],
                types: seq!["AxisPosition"@, "z_index"@, "Visibility"@, "Style"@],
            },
            SectionView {
                id: "layout.overflow"@,
                number: "3.6"@,
                title: "Overflow and clipping"@,
                kicker: "BOUNDS"@,
                summary: "Box overflow and text overflow are separate policies, and scrolling owns clipping on its axes."@,
                keywords: seq!["overflow"@, "clip"@, "visible"@, "truncate"@, "scroll owner"@],
                types: seq!["Overflow"@, "scroll_area"@, "TextOverflow"@, "TextWrap"@],
            },
            SectionView {
                id: "layout.measure"@,
                number: "3.7"@,
                title: "Measure committed geometry"@,
                kicker: "INTROSPECTION"@,
                summary: "Read the rectangles and resolved styles the commit stage actually produced."@,
                keywords: seq![
                    "element ref"@,
                    "snapshot"@,
                    "bounding rect"@,
                    "content rect"@,
                    "resolved style"@,
                    "scroll state"@,
                ],
                types: seq![
                    "ElementRef"@,
                    "ElementSnapshot"@,
                    "ElementRect"@,
                    "ResolvedElementStyle"@,
                    "ElementScrollState"@,
                ],
            },
            SectionView {
                id: "layout.responsive"@,
                number: "3.8"@,
                title: "Build responsive terminal layouts"@,
                kicker: "RESPONSIVE"@,
                summary: "Use the same width breakpoints this guide uses to choose rails, columns, and controls."@,
                keywords: seq![
                    "breakpoint"@,
                    "responsive"@,
                    "rail"@,
                    "wide"@,
                    "narrow"@,
                    "resize"@,
                ],
                types: seq!["Dimension"@, "Visibility"@, "ElementRef"@],
            },
        ],
    }
}

/// What chapter 04 of the guide says.
pub open spec fn chapter_text_view() -> ChapterView {
    ChapterView {
        id: "text"@,
        index: 3,
        number: "04"@,
        title: "Text and Documents"@,
        kicker: "PROSE"@,
        summary: "The framework's Unicode-aware text model and long-form content."@,
        keywords: seq!["text"@, "unicode"@, "wrap"@, "markdown"@, "selection"@, "spans"@],
        sections: seq![
            SectionView {
                id: "text.components"@,
                number: "4.1"@,
                title: "Semantic text components"@,
                kicker: "ROLES"@,
                summary: "Name the role of a run of text and let the theme decide how it looks."@,
                keywords: seq![
                    "heading"@,
                    "paragraph"@,
                    "label"@,
                    "muted"@,
                    "code"@,
                    "blockquote"@,
                    "kbd"@,
                ],
                types: seq![
                    "heading"@,
                    "paragraph"@,
                    "label"@,
                    "muted"@,
                    "code"@,
                    "blockquote"@,
                    "kbd"@,
                ],
            },
            SectionView {
                id: "text.spans"@,
                number: "4.2"@,
                title: "Styled spans"@,
                kicker: "INLINE"@,
                summary: "Compose one text node from independently styled runs, including the terminal attributes."@,
                keywords: seq![
                    "span"@,
                    "foreground"@,
                    "background"@,
                    "bold"@,
                    "italic"@,
                    "underline"@,
                ],
                types: seq!["Text"@, "Span"@, "TextStyle"@, "Attributes"@],
            },
            SectionView {
                id: "text.unicode"@,
                number: "4.3"@,
                title: "Unicode occupies cells, not bytes"@,
                kicker: "WIDTHS"@,
                summary: "Graphemes, wide CJK cells, combining marks, and emoji all participate in alignment."@,
                keywords: seq![
                    "cjk"@,
                    "emoji"@,
                    "grapheme"@,
                    "wide cell"@,
                    "combining"@,
                    "unicode width"@,
                ],
                types: seq!["Text"@, "EmojiMerging"@, "Span"@],
            },
            SectionView {
                id: "text.wrapping"@,
                number: "4.4"@,
                title: "Wrapping, alignment, and truncation"@,
                kicker: "FITTING"@,
                summary: "Choose how text reflows, where it sits in its box, and what happens when it still overflows."@,
                keywords: seq!["nowrap"@, "soft"@, "hard"@, "ellipsis"@, "clip"@, "align"@],
                types: seq!["TextWrap"@, "TextAlign"@, "TextOverflow"@, "Text"@],
            },
            SectionView {
                id: "text.links"@,
                number: "4.5"@,
                title: "Links report intent"@,
                kicker: "LINKS"@,
                summary: "A link reports its target; opening anything stays an application decision."@,
                keywords: seq!["link"@, "href"@, "follow"@, "url"@, "open"@],
                types: seq!["link"@, "LinkProps"@, "on_follow"@],
            },
            SectionView {
                id: "text.selection"@,
                number: "4.6"@,
                title: "Selectable documents"@,
                kicker: "SELECTION"@,
                summary: "Pointer drag, keyboard extension, select-all, and copy over the committed frame."@,
                keywords: seq!["selection"@, "copy"@, "clipboard"@, "select all"@, "drag"@],
                types: seq![
                    "selection_area"@,
                    "SelectionAreaProps"@,
                    "TextSelectionEvent"@,
                    "ElementRef"@,
                ],
            },
            SectionView {
                id: "text.markdown"@,
                number: "4.7"@,
                title: "Markdown as ordinary components"@,
                kicker: "DOCUMENTS"@,
                summary: "One opt-in feature turns CommonMark into selectable native components."@,
                keywords: seq![
                    "markdown"@,
                    "commonmark"@,
                    "table"@,
                    "task list"@,
                    "footnote"@,
                    "alert"@,
                ],
                types: seq!["markdown"@, "MarkdownProps"@, "selection_area"@],
            },
        ],
    }
}

/// What chapter 05 of the guide says.
pub open spec fn chapter_controls_view() -> ChapterView {
    ChapterView {
        id: "controls"@,
        index: 4,
        number: "05"@,
        title: "Controls and Events"@,
        kicker: "INTERACTION"@,
        summary: "State ownership, semantic activation, editing, focus, and event flow."@,
        keywords: seq![
            "controls"@, "events"@, "input"@, "focus"@, "keyboard"@, "pointer"@,
        ],
        sections: seq![
            SectionView {
                id: "controls.buttons"@,
                number: "5.1"@,
                title: "Buttons and semantic activation"@,
                kicker: "ACTIVATION"@,
                summary: "Buttons own press semantics, so a keyboard activation and a click arrive through one path."@,
                keywords: seq![
                    "button"@,
                    "press"@,
                    "click"@,
                    "disabled"@,
                    "autofocus"@,
                    "variant"@,
                ],
                types: seq!["button"@, "ButtonProps"@, "ButtonVariant"@, "on_press"@],
            },
            SectionView {
                id: "controls.selection-controls"@,
                number: "5.2"@,
                title: "Checkboxes, radios, and switches"@,
                kicker: "CHOICES"@,
                summary: "Controlled selection controls report the change they want instead of mutating themselves."@,
                keywords: seq![
                    "checkbox"@,
                    "radio"@,
                    "switch"@,
                    "toggle"@,
                    "preferences"@,
                    "on_change"@,
                    "on_select"@,
                ],
                types: seq![
                    "checkbox"@,
                    "radio"@,
                    "switch"@,
                    "CheckboxProps"@,
                    "RadioProps"@,
                    "SwitchProps"@,
                ],
            },
            SectionView {
                id: "controls.input"@,
                number: "5.3"@,
                title: "Controlled and uncontrolled input"@,
                kicker: "EDITING"@,
                summary: "Pick one owner for the value, then rely on the same control for the other model."@,
                keywords: seq![
                    "input"@,
                    "controlled"@,
                    "uncontrolled"@,
                    "placeholder"@,
                    "max length"@,
                    "submit"@,
                    "read only"@,
                ],
                types: seq!["input"@, "InputProps"@, "TextValueEvent"@, "on_submit"@],
            },
            SectionView {
                id: "controls.textarea"@,
                number: "5.4"@,
                title: "Multiline editing"@,
                kicker: "MULTILINE"@,
                summary: "Wrapping, selection, clipboard, and a bounded height for longer text."@,
                keywords: seq!["textarea"@, "multiline"@, "wrap"@, "clipboard"@, "height"@],
                types: seq![
                    "textarea"@,
                    "TextareaProps"@,
                    "TextWrap"@,
                    "TextClipboardEvent"@,
                ],
            },
            SectionView {
                id: "controls.raw-input"@,
                number: "5.5"@,
                title: "Build on `raw_input`"@,
                kicker: "EXTENSION"@,
                summary: "Restyle the editor host and intercept policy while keeping low-level editing out of application code."@,
                keywords: seq!["raw input"@, "command field"@, "custom"@, "appearance"@, "mode"@],
                types: seq![
                    "raw_input"@,
                    "RawInputProps"@,
                    "RawInputAppearance"@,
                    "RawInputMode"@,
                ],
            },
            SectionView {
                id: "controls.focus"@,
                number: "5.6"@,
                title: "Focus and keyboard behavior"@,
                kicker: "FOCUS"@,
                summary: "Focusability, autofocus, activation keys, local key handling, and application shortcuts."@,
                keywords: seq![
                    "focus"@, "tab"@, "enter"@, "space"@, "shortcut"@, "modifier"@, "app key"@,
                ],
                types: seq!["autofocus"@, "on_key_down"@, "on_app_key"@, "KeyboardEvent"@],
            },
            SectionView {
                id: "controls.events"@,
                number: "5.7"@,
                title: "Pointer, wheel, paste, resize, and terminal focus"@,
                kicker: "EVENT FLOW"@,
                summary: "The public event families and the capture, target, and bubble phases they share."@,
                keywords: seq![
                    "pointer"@,
                    "wheel"@,
                    "paste"@,
                    "resize"@,
                    "focus event"@,
                    "capture"@,
                    "bubble"@,
                ],
                types: seq![
                    "PointerEvent"@,
                    "WheelEvent"@,
                    "PasteEvent"@,
                    "ResizeEvent"@,
                    "FocusEvent"@,
                    "TerminalFocusEvent"@,
                    "EventPhase"@,
                    "EventListener"@,
                ],
            },
            SectionView {
                id: "controls.ledger"@,
                number: "5.8"@,
                title: "A live event ledger"@,
                kicker: "LEDGER"@,
                summary: "A preferences form that records recent semantic events in a bounded, scrollable ledger."@,
                keywords: seq!["ledger"@, "log"@, "event log"@, "bounded"@, "preferences form"@],
                types: seq![
                    "use_state"@,
                    "scroll_area"@,
                    "card"@,
                    "checkbox"@,
                    "radio"@,
                    "switch"@,
                ],
            },
        ],
    }
}

/// What chapter 06 of the guide says.
pub open spec fn chapter_feedback_view() -> ChapterView {
    ChapterView {
        id: "feedback"@,
        index: 5,
        number: "06"@,
        title: "Feedback and Canvas"@,
        kicker: "STATUS"@,
        summary: "Communicate status without introducing a separate charting abstraction."@,
        keywords: seq![
            "feedback"@, "progress"@, "spinner"@, "alert"@, "canvas"@, "chart"@,
        ],
        sections: seq![
            SectionView {
                id: "feedback.badges"@,
                number: "6.1"@,
                title: "Badges as compact state"@,
                kicker: "BADGES"@,
                summary: "A short label with a semantic role, always paired with text so color is never the only cue."@,
                keywords: seq!["badge"@, "tag"@, "label"@, "variant"@, "status"@],
                types: seq!["badge"@, "BadgeProps"@, "BadgeVariant"@],
            },
            SectionView {
                id: "feedback.alerts"@,
                number: "6.2"@,
                title: "Alerts with semantic severity"@,
                kicker: "ALERTS"@,
                summary: "Info, success, warning, and error share one card with a colored edge and a readable title."@,
                keywords: seq!["alert"@, "info"@, "success"@, "warning"@, "error"@, "severity"@],
                types: seq!["alert"@, "AlertProps"@, "AlertVariant"@],
            },
            SectionView {
                id: "feedback.progress"@,
                number: "6.3"@,
                title: "Progress is caller-owned"@,
                kicker: "PROGRESS"@,
                summary: "The bar clamps and formats a value; deciding that value belongs to your state model."@,
                keywords: seq!["progress"@, "bar"@, "value"@, "max"@, "clamp"@, "percentage"@],
                types: seq!["progress_bar"@, "ProgressBarProps"@],
            },
            SectionView {
                id: "feedback.spinners"@,
                number: "6.4"@,
                title: "Spinners and skeletons"@,
                kicker: "PLACEHOLDERS"@,
                summary: "Callers advance spinner frames and decide when a placeholder is better than a blank."@,
                keywords: seq!["spinner"@, "skeleton"@, "frame"@, "placeholder"@, "loading"@],
                types: seq!["spinner"@, "skeleton"@, "SpinnerProps"@, "SkeletonProps"@],
            },
            SectionView {
                id: "feedback.publish"@,
                number: "6.5"@,
                title: "A publish-operation demonstration"@,
                kicker: "LIVE EXAMPLE"@,
                summary: "One state model drives a spinner, a progress bar, a badge, an alert, and a bounded status log."@,
                keywords: seq![
                    "publish"@,
                    "operation"@,
                    "timer"@,
                    "effect"@,
                    "cleanup"@,
                    "start pause reset"@,
                ],
                types: seq![
                    "use_state"@,
                    "use_effect"@,
                    "use_mount_effect"@,
                    "spinner"@,
                    "progress_bar"@,
                    "alert"@,
                    "badge"@,
                ],
            },
            SectionView {
                id: "feedback.canvas"@,
                number: "6.6"@,
                title: "Draw directly with canvas"@,
                kicker: "CANVAS"@,
                summary: "Text, lines, rectangles, colors, attributes, and clipping in a fixed cell grid."@,
                keywords: seq!["canvas"@, "draw"@, "chart"@, "line"@, "rect"@, "cells"@],
                types: seq![
                    "canvas"@,
                    "CanvasContext"@,
                    "CanvasProps"@,
                    "CanvasDraw"@,
                    "CanvasError"@,
                ],
            },
        ],
    }
}

/// What chapter 07 of the guide says.
pub open spec fn chapter_media_view() -> ChapterView {
    ChapterView {
        id: "media"@,
        index: 6,
        number: "07"@,
        title: "Scroll, Selection, and Raster Media"@,
        kicker: "INTERACTION"@,
        summary: "Interaction whose correctness depends on committed geometry."@,
        keywords: seq!["scroll"@, "selection"@, "image"@, "raster"@, "sixel"@, "kitty"@],
        sections: seq![
            SectionView {
                id: "media.scroll"@,
                number: "7.1"@,
                title: "Scrollable regions"@,
                kicker: "SCROLLING"@,
                summary: "Vertical, horizontal, and two-axis scrolling with clipping, scrollbars, and wheel steps."@,
                keywords: seq!["scroll"@, "axes"@, "scrollbar"@, "wheel"@, "clip"@],
                types: seq![
                    "scroll_area"@,
                    "ScrollAreaProps"@,
                    "ScrollAxes"@,
                    "ScrollbarVisibility"@,
                    "ScrollbarStyle"@,
                ],
            },
            SectionView {
                id: "media.offsets"@,
                number: "7.2"@,
                title: "Controlled versus runtime-owned offsets"@,
                kicker: "OWNERSHIP"@,
                summary: "Own the offset when the application must know it; let the runtime own it otherwise."@,
                keywords: seq![
                    "controlled offset"@,
                    "uncontrolled"@,
                    "on_scroll"@,
                    "readout"@,
                    "build log"@,
                ],
                types: seq!["ScrollOffset"@, "ScrollEvent"@, "ScrollDelta"@, "scroll_area"@],
            },
            SectionView {
                id: "media.nesting"@,
                number: "7.3"@,
                title: "Scrollable nesting"@,
                kicker: "NESTING"@,
                summary: "Wheel ownership, focus, bounded heights, and why chrome belongs outside the document scroller."@,
                keywords: seq![
                    "nesting"@,
                    "nested scroll"@,
                    "height"@,
                    "chrome"@,
                    "wheel ownership"@,
                ],
                types: seq!["scroll_area"@, "Dimension"@, "ElementRef"@],
            },
            SectionView {
                id: "media.selection-scroll"@,
                number: "7.4"@,
                title: "Selection inside scrolling"@,
                kicker: "SELECTION"@,
                summary: "Hit testing follows painted content, so selection stays correct after a scroll."@,
                keywords: seq!["selection"@, "scroll"@, "hit test"@, "release notes"@, "copy"@],
                types: seq!["selection_area"@, "scroll_area"@, "TextSelectionEvent"@],
            },
            SectionView {
                id: "media.sources"@,
                number: "7.5"@,
                title: "Raster sources and loading"@,
                kicker: "SOURCES"@,
                summary: "Loaded versus file-backed sources, lazy and eager decoding, explicit dimensions, and resource limits."@,
                keywords: seq![
                    "image source"@,
                    "raster"@,
                    "decode"@,
                    "lazy"@,
                    "eager"@,
                    "budget"@,
                    "include_bytes"@,
                ],
                types: seq![
                    "raster_image"@,
                    "ImageProps"@,
                    "ImageSource"@,
                    "ImageLoading"@,
                    "RasterImage"@,
                    "ResourceLimits"@,
                ],
            },
            SectionView {
                id: "media.fit"@,
                number: "7.6"@,
                title: "Fit, alignment, and render mode"@,
                kicker: "PLACEMENT"@,
                summary: "Contain, cover, and stretch; Auto, Native, and Symbols; and terminal protocol negotiation."@,
                keywords: seq![
                    "contain"@, "cover"@, "stretch"@, "align"@, "auto"@, "native"@, "symbols"@, "protocol"@,
                ],
                types: seq![
                    "ImageFit"@,
                    "ImageAlign"@,
                    "ImageMode"@,
                    "ImageProtocol"@,
                    "raster_image"@,
                ],
            },
            SectionView {
                id: "media.shipping"@,
                number: "7.7"@,
                title: "Shipping images safely"@,
                kicker: "PRODUCTION"@,
                summary: "Cache identity, explicit sizing, error placeholders, budgets, and terminal capability variance."@,
                keywords: seq![
                    "cache"@,
                    "budget"@,
                    "placeholder"@,
                    "capability"@,
                    "packaging"@,
                    "asset"@,
                ],
                types: seq![
                    "ImageSource"@,
                    "ImageSourceKey"@,
                    "ResourceLimits"@,
                    "ImageMode"@,
                ],
            },
        ],
    }
}

/// What chapter 08 of the guide says.
pub open spec fn chapter_themes_view() -> ChapterView {
    ChapterView {
        id: "themes"@,
        index: 7,
        number: "08"@,
        title: "Themes"@,
        kicker: "DESIGN SYSTEM"@,
        summary: "The semantic design system, proven by the guide's own header controls."@,
        keywords: seq![
            "theme"@,
            "color"@,
            "palette"@,
            "preset"@,
            "contrast"@,
            "typography"@,
        ],
        sections: seq![
            SectionView {
                id: "themes.roles"@,
                number: "8.1"@,
                title: "Theme roles instead of raw colors"@,
                kicker: "ROLES"@,
                summary: "Nineteen roles cover every surface, and each one carries a readable foreground partner."@,
                keywords: seq![
                    "role"@,
                    "palette"@,
                    "foreground"@,
                    "background"@,
                    "semantic color"@,
                ],
                types: seq!["ThemeColors"@, "Theme"@, "ThemeMode"@, "ThemePreset"@],
            },
            SectionView {
                id: "themes.presets"@,
                number: "8.2"@,
                title: "Preset and mode selection"@,
                kicker: "PRESETS"@,
                summary: "Eight complete palettes crossed with light and dark, driven by the header controls."@,
                keywords: seq![
                    "preset"@,
                    "nord"@,
                    "dracula"@,
                    "solarized"@,
                    "latte"@,
                    "ocean"@,
                    "mode"@,
                ],
                types: seq!["ThemePreset"@, "ThemeMode"@, "ThemePreset::ALL"@],
            },
            SectionView {
                id: "themes.tokens"@,
                number: "8.3"@,
                title: "Typography, spacing, borders, and scrollbars"@,
                kicker: "TOKENS"@,
                summary: "Derived tokens turn a palette into a consistent interface, shown as compact specimens."@,
                keywords: seq!["typography"@, "spacing"@, "border"@, "scrollbar"@, "tokens"@],
                types: seq![
                    "ThemeTypography"@,
                    "ThemeSpacing"@,
                    "ThemeBorders"@,
                    "ScrollbarStyle"@,
                ],
            },
            SectionView {
                id: "themes.customize"@,
                number: "8.4"@,
                title: "Customize without breaking derivation"@,
                kicker: "CUSTOMIZE"@,
                summary: "Start from a preset, override deliberately, and know which substitutions re-derive dependent tokens."@,
                keywords: seq![
                    "customize"@,
                    "theme builder"@,
                    "override"@,
                    "derive"@,
                    "palette"@,
                ],
                types: seq!["ThemePreset::theme"@, "ThemeBuilder"@, "Theme::customize"@],
            },
            SectionView {
                id: "themes.providers"@,
                number: "8.5"@,
                title: "Nested providers"@,
                kicker: "SCOPING"@,
                summary: "A nested provider restyles one subtree, and the guide proves it does not leak."@,
                keywords: seq!["provider"@, "nested"@, "scope"@, "local theme"@, "preview"@],
                types: seq![
                    "theme_provider"@,
                    "ThemeProviderProps"@,
                    "theme_context"@,
                    "use_theme"@,
                ],
            },
            SectionView {
                id: "themes.contrast"@,
                number: "8.6"@,
                title: "Contrast and non-color cues"@,
                kicker: "ACCESSIBILITY"@,
                summary: "Measure readability and always pair status color with a label, glyph, or shape."@,
                keywords: seq!["contrast"@, "accessibility"@, "readable"@, "status"@, "cue"@],
                types: seq!["contrast_ratio"@, "MIN_TEXT_CONTRAST"@, "Theme::on_card"@],
            },
        ],
    }
}

/// What chapter 09 of the guide says.
pub open spec fn chapter_production_view() -> ChapterView {
    ChapterView {
        id: "production"@,
        index: 8,
        number: "09"@,
        title: "Production"@,
        kicker: "OPERATIONS"@,
        summary: "Turn a convincing UI into a reliable terminal application."@,
        keywords: seq![
            "production"@,
            "runtime"@,
            "lifecycle"@,
            "limits"@,
            "testing"@,
            "release"@,
        ],
        sections: seq![
            SectionView {
                id: "production.runtime"@,
                number: "9.1"@,
                title: "Runtime configuration"@,
                kicker: "CONFIG"@,
                summary: "Exit key, polling, terminal modes, protocols, and the limits that bound the session."@,
                keywords: seq![
                    "runtime config"@,
                    "exit key"@,
                    "mouse"@,
                    "paste"@,
                    "focus events"@,
                    "limits"@,
                ],
                types: seq![
                    "RuntimeConfig"@,
                    "ImageProtocol"@,
                    "ImageUpdatePolicy"@,
                    "ResourceLimits"@,
                    "EmojiMerging"@,
                ],
            },
            SectionView {
                id: "production.lifecycle"@,
                number: "9.2"@,
                title: "Application lifecycle"@,
                kicker: "LIFECYCLE"@,
                summary: "Boot, Mount, Ready, Unmount, and Exit, with the hook that belongs in each phase."@,
                keywords: seq![
                    "lifecycle"@,
                    "boot"@,
                    "mount"@,
                    "ready"@,
                    "unmount"@,
                    "exit"@,
                    "render_with"@,
                ],
                types: seq![
                    "AppLifecycle"@,
                    "AppPhase"@,
                    "AppSession"@,
                    "ExitReason"@,
                    "render_with"@,
                ],
            },
            SectionView {
                id: "production.exit"@,
                number: "9.3"@,
                title: "Graceful exit and terminal restoration"@,
                kicker: "SHUTDOWN"@,
                summary: "Exit reasons, cleanup ordering, and why process termination must not bypass restoration."@,
                keywords: seq![
                    "exit"@,
                    "restore"@,
                    "cleanup"@,
                    "handle"@,
                    "request exit"@,
                    "terminal state"@,
                ],
                types: seq!["AppHandle"@, "ExitReason"@, "use_handle"@, "use_unmount"@],
            },
            SectionView {
                id: "production.effects"@,
                number: "9.4"@,
                title: "Effects and external work"@,
                kicker: "ASYNC"@,
                summary: "Threads, channels, cancellation, dependency changes, and unmount cleanup."@,
                keywords: seq![
                    "thread"@,
                    "channel"@,
                    "cancellation"@,
                    "effect"@,
                    "cleanup"@,
                    "worker"@,
                ],
                types: seq![
                    "use_effect"@,
                    "use_mount_effect"@,
                    "EffectResult"@,
                    "StateSetter"@,
                ],
            },
            SectionView {
                id: "production.render-path"@,
                number: "9.5"@,
                title: "Keep the render path quiet"@,
                kicker: "PERFORMANCE"@,
                summary: "Stable structure, keyed collections, memoization, and bounded logs keep frames cheap."@,
                keywords: seq![
                    "performance"@,
                    "memo"@,
                    "key"@,
                    "bounded"@,
                    "redundant update"@,
                    "render"@,
                ],
                types: seq!["use_memo"@, "Key"@, "use_state"@, "ElementRef"@],
            },
            SectionView {
                id: "production.limits"@,
                number: "9.6"@,
                title: "Resource limits and failure behavior"@,
                kicker: "LIMITS"@,
                summary: "Tree, output, image, and cache budgets described from the application's side."@,
                keywords: seq![
                    "limit"@,
                    "budget"@,
                    "tree size"@,
                    "output bytes"@,
                    "image cache"@,
                    "failure"@,
                ],
                types: seq!["ResourceLimits"@, "ImageRenderOptions"@, "RenderError"@],
            },
            SectionView {
                id: "production.testing"@,
                number: "9.7"@,
                title: "Test at the right layer"@,
                kicker: "TESTING"@,
                summary: "Pure state tests, component commits, fixed viewports, event routing, and terminal smoke checks."@,
                keywords: seq![
                    "test"@,
                    "commit"@,
                    "viewport"@,
                    "event routing"@,
                    "reducer"@,
                    "pure function"@,
                ],
                types: seq!["Commit"@, "Lower"@, "Runtime"@, "Frame"@],
            },
            SectionView {
                id: "production.checklist"@,
                number: "9.8"@,
                title: "Release checklist"@,
                kicker: "CHECKLIST"@,
                summary: "An interactive checklist for the last pass before a terminal application ships."@,
                keywords: seq![
                    "checklist"@,
                    "release"@,
                    "viewport sizes"@,
                    "keyboard only"@,
                    "packaging"@,
                ],
                types: seq!["checkbox"@, "use_state"@, "progress_bar"@, "button"@],
            },
        ],
    }
}

/// What chapter 10 of the guide says.
pub open spec fn chapter_api_view() -> ChapterView {
    ChapterView {
        id: "api"@,
        index: 9,
        number: "10"@,
        title: "API Map"@,
        kicker: "REFERENCE"@,
        summary: "Fast lookup that points at the chapter containing each demonstration."@,
        keywords: seq!["reference"@, "index"@, "lookup"@, "api"@, "map"@],
        sections: seq![
            SectionView {
                id: "api.layout"@,
                number: "10.1"@,
                title: "Composition and layout index"@,
                kicker: "LAYOUT"@,
                summary: "Every layout primitive, its purpose, and where it is demonstrated."@,
                keywords: seq!["layout index"@, "views"@, "containers"@, "boxes"@],
                types: seq![
                    "view"@,
                    "container"@,
                    "column"@,
                    "row"@,
                    "section"@,
                    "card"@,
                    "center"@,
                    "spacer"@,
                    "footer"@,
                    "divider"@,
                ],
            },
            SectionView {
                id: "api.controls"@,
                number: "10.2"@,
                title: "Controls and feedback index"@,
                kicker: "WIDGETS"@,
                summary: "Every widget with its ownership model, important defaults, and emitted event."@,
                keywords: seq!["widget index"@, "controls"@, "feedback"@, "events"@],
                types: seq![
                    "button"@,
                    "checkbox"@,
                    "radio"@,
                    "switch"@,
                    "input"@,
                    "textarea"@,
                    "raw_input"@,
                    "link"@,
                    "badge"@,
                    "alert"@,
                    "progress_bar"@,
                    "spinner"@,
                    "skeleton"@,
                    "selection_area"@,
                ],
            },
            SectionView {
                id: "api.hooks"@,
                number: "10.3"@,
                title: "Hooks and context index"@,
                kicker: "HOOKS"@,
                summary: "A selection guide for state, refs, memo, effects, context, theme, and handles."@,
                keywords: seq!["hook index"@, "state ref memo effect context"@],
                types: seq![
                    "use_state"@,
                    "use_ref"@,
                    "use_state_ref"@,
                    "use_memo"@,
                    "use_effect"@,
                    "use_mount_effect"@,
                    "use_unmount"@,
                    "use_context"@,
                    "provide"@,
                    "use_theme"@,
                    "use_element_ref"@,
                    "use_handle"@,
                ],
            },
            SectionView {
                id: "api.media"@,
                number: "10.4"@,
                title: "Text, documents, and media index"@,
                kicker: "CONTENT"@,
                summary: "The type map for text, spans, selection, Markdown, canvas, and raster media."@,
                keywords: seq![
                    "text index"@,
                    "markdown index"@,
                    "canvas index"@,
                    "raster index"@,
                ],
                types: seq![
                    "text"@,
                    "Text"@,
                    "Span"@,
                    "heading"@,
                    "paragraph"@,
                    "label"@,
                    "muted"@,
                    "code"@,
                    "blockquote"@,
                    "kbd"@,
                    "markdown"@,
                    "MarkdownProps"@,
                    "canvas"@,
                    "CanvasContext"@,
                    "raster_image"@,
                    "ImageProps"@,
                    "ImageSource"@,
                    "ImageFit"@,
                    "ImageMode"@,
                ],
            },
            SectionView {
                id: "api.runtime"@,
                number: "10.5"@,
                title: "Runtime and lifecycle index"@,
                kicker: "RUNTIME"@,
                summary: "High-level configuration and lifecycle types, and the boundary to rustdoc for pipeline work."@,
                keywords: seq![
                    "runtime index"@,
                    "lifecycle index"@,
                    "advanced"@,
                    "rustdoc"@,
                    "boundary"@,
                ],
                types: seq![
                    "render"@,
                    "render_with"@,
                    "RuntimeConfig"@,
                    "AppLifecycle"@,
                    "AppPhase"@,
                    "AppSession"@,
                    "ExitReason"@,
                    "AppHandle"@,
                    "advanced"@,
                ],
            },
        ],
    }
}

/// What the whole guide says, chapter by chapter in reading order.
pub open spec fn guide_view() -> Seq<ChapterView> {
    seq![
        chapter_start_view(),
        chapter_state_view(),
        chapter_layout_view(),
        chapter_text_view(),
        chapter_controls_view(),
        chapter_feedback_view(),
        chapter_media_view(),
        chapter_themes_view(),
        chapter_production_view(),
        chapter_api_view(),
    ]
}

} // verus!
