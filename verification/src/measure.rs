//! The committed-geometry readout of the layout chapter.
//!
//! The readout reports what the renderer committed for one element: its
//! bounds, content box, visible part, resolved layout, spacing, overflow,
//! stacking order, and scroll range. The renderer's snapshot is handed over as
//! plain values.
use vstd::prelude::*;
use vstd::string::*;

use crate::demos::{decimal, decimal_string};

verus! {

/// A child layout direction.
#[derive(Debug, Clone, Copy, PartialEq, Eq, Structural)]
pub enum LayoutKind {
    /// Children stack top to bottom.
    Vertical,
    /// Children stack left to right.
    Horizontal,
    /// Children are placed explicitly.
    Absolute,
}

/// An overflow policy.
#[derive(Debug, Clone, Copy, PartialEq, Eq, Structural)]
pub enum OverflowKind {
    /// Content outside the box is cut off.
    Clip,
    /// Content outside the box stays visible.
    Visible,
}

/// Human-readable name for a child layout direction.
pub fn layout_name(layout: LayoutKind) -> (name: &'static str)
    ensures
        name@ == match layout {
            LayoutKind::Vertical => "vertical"@,
            LayoutKind::Horizontal => "horizontal"@,
            LayoutKind::Absolute => "absolute"@,
        },
{
    match layout {
        LayoutKind::Vertical => "vertical",
        LayoutKind::Horizontal => "horizontal",
        LayoutKind::Absolute => "absolute",
    }
}

/// Human-readable name for an overflow policy.
pub fn overflow_name(overflow: OverflowKind) -> (name: &'static str)
    ensures
        name@ == match overflow {
            OverflowKind::Clip => "clip"@,
            OverflowKind::Visible => "visible"@,
        },
{
    match overflow {
        OverflowKind::Clip => "clip",
        OverflowKind::Visible => "visible",
    }
}

/// A rectangle of cells.
#[derive(Debug, Clone, Copy, PartialEq, Eq, Structural)]
pub struct CellRect {
    /// Top line.
    pub line: u32,
    /// Left column.
    pub column: u32,
    /// Width in cells.
    pub width: u32,
    /// Height in cells.
    pub height: u32,
}

/// Resolved padding on each edge.
#[derive(Debug, Clone, Copy, PartialEq, Eq, Structural)]
pub struct EdgeCells {
    /// Top edge.
    pub top: u32,
    /// Right edge.
    pub right: u32,
    /// Bottom edge.
    pub bottom: u32,
    /// Left edge.
    pub left: u32,
}

/// The scroll range of a scroll host.
#[derive(Debug, Clone, Copy, PartialEq, Eq, Structural)]
pub struct ScrollFacts {
    /// Largest vertical offset.
    pub max_offset_y: u32,
    /// Height of the scrolled content.
    pub content_height: u32,
}

/// What one committed element reports.
#[derive(Debug, Clone, Copy, PartialEq, Eq, Structural)]
pub struct SnapshotFacts {
    /// The border box.
    pub bounds: CellRect,
    /// The content box.
    pub content: CellRect,
    /// The part left visible by clipping ancestors, if any.
    pub visible: Option<CellRect>,
    /// Resolved child layout.
    pub layout: LayoutKind,
    /// Resolved gap between children.
    pub gap: u32,
    /// Resolved padding.
    pub padding: EdgeCells,
    /// Horizontal overflow policy.
    pub overflow_x: OverflowKind,
    /// Vertical overflow policy.
    pub overflow_y: OverflowKind,
    /// Stacking order.
    pub z_index: i32,
    /// The scroll range, for a scroll host.
    pub scroll: Option<ScrollFacts>,
}

/// The name of a layout direction.
pub open spec fn layout_text(layout: LayoutKind) -> Seq<char> {
    match layout {
        LayoutKind::Vertical => "vertical"@,
        LayoutKind::Horizontal => "horizontal"@,
        LayoutKind::Absolute => "absolute"@,
    }
}

/// The name of an overflow policy.
pub open spec fn overflow_text(overflow: OverflowKind) -> Seq<char> {
    match overflow {
        OverflowKind::Clip => "clip"@,
        OverflowKind::Visible => "visible"@,
    }
}

/// The decimal representation of a signed number.
pub open spec fn signed_decimal(n: int) -> Seq<char> {
    if n < 0 {
        "-"@ + decimal((-n) as nat)
    } else {
        decimal(n as nat)
    }
}

/// `W`x`H` for a width and height.
pub open spec fn size_text(width: u32, height: u32) -> Seq<char> {
    decimal(width as nat) + "x"@ + decimal(height as nat)
}

/// The readout line for one committed element.
pub open spec fn snapshot_text(facts: SnapshotFacts) -> Seq<char> {
    let visible = match facts.visible {
        None => "clipped"@,
        Some(rect) => size_text(rect.width, rect.height),
    };
    let scroll = match facts.scroll {
        None => "this box does not scroll"@,
        Some(range) => "scroll max y "@ + decimal(range.max_offset_y as nat) + " · content h "@
            + decimal(range.content_height as nat),
    };
    "bounds "@ + size_text(facts.bounds.width, facts.bounds.height) + " at ("@ + decimal(
        facts.bounds.line as nat,
    ) + ", "@ + decimal(facts.bounds.column as nat) + ") · content "@ + size_text(
        facts.content.width,
        facts.content.height,
    ) + " · visible "@ + visible + " · layout "@ + layout_text(facts.layout) + " · gap "@
        + decimal(facts.gap as nat) + " · padding "@ + decimal(facts.padding.top as nat) + "/"@
        + decimal(facts.padding.right as nat) + "/"@ + decimal(facts.padding.bottom as nat) + "/"@
        + decimal(facts.padding.left as nat) + " · overflow "@ + overflow_text(facts.overflow_x)
        + "/"@ + overflow_text(facts.overflow_y) + " · z "@ + signed_decimal(facts.z_index as int)
        + " · "@ + scroll
}

/// Appends the decimal digits of `n`.
fn append_number(text: &mut String, n: u32)
    ensures
        final(text)@ == old(text)@ + decimal(n as nat),
{
    let digits = decimal_string(n as usize);
    text.append(digits.as_str());
}

/// Appends `W`x`H`.
fn append_size(text: &mut String, width: u32, height: u32)
    ensures
        final(text)@ == old(text)@ + size_text(width, height),
{
    append_number(text, width);
    text.append("x");
    append_number(text, height);
    proof {
        assert(final(text)@ =~= old(text)@ + size_text(width, height));
    }
}

/// Formats the committed fields the measure readout shows.
pub fn describe_snapshot(facts: &SnapshotFacts) -> (report: String)
    ensures
        report@ == snapshot_text(*facts),
{
    let mut text = "bounds ".to_owned();
    append_size(&mut text, facts.bounds.width, facts.bounds.height);
    text.append(" at (");
    append_number(&mut text, facts.bounds.line);
    text.append(", ");
    append_number(&mut text, facts.bounds.column);
    text.append(") · content ");
    append_size(&mut text, facts.content.width, facts.content.height);
    text.append(" · visible ");
    match facts.visible {
        None => text.append("clipped"),
        Some(rect) => append_size(&mut text, rect.width, rect.height),
    }
    text.append(" · layout ");
    text.append(layout_name(facts.layout));
    text.append(" · gap ");
    append_number(&mut text, facts.gap);
    text.append(" · padding ");
    append_number(&mut text, facts.padding.top);
    text.append("/");
    append_number(&mut text, facts.padding.right);
    text.append("/");
    append_number(&mut text, facts.padding.bottom);
    text.append("/");
    append_number(&mut text, facts.padding.left);
    text.append(" · overflow ");
    text.append(overflow_name(facts.overflow_x));
    text.append("/");
    text.append(overflow_name(facts.overflow_y));
    text.append(" · z ");
    if facts.z_index < 0 {
        text.append("-");
        let magnitude: u32 = if facts.z_index == i32::MIN {
            2147483648
        } else {
            (-facts.z_index) as u32
        };
        append_number(&mut text, magnitude);
    } else {
        append_number(&mut text, facts.z_index as u32);
    }
    text.append(" · ");
    match facts.scroll {
        None => text.append("this box does not scroll"),
        Some(range) => {
            text.append("scroll max y ");
            append_number(&mut text, range.max_offset_y);
            text.append(" · content h ");
            append_number(&mut text, range.content_height);
        },
    }
    proof {
        assert(text@ =~= snapshot_text(*facts));
    }
    text
}

} // verus!
