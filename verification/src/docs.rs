//! Shared editorial vocabulary of the guide's pages.
use vstd::prelude::*;

verus! {

/// The kind of an editorial callout.
#[derive(Debug, Clone, Copy, PartialEq, Eq, Structural)]
pub enum CalloutKind {
    /// Neutral explanation.
    Info,
    /// Something that commonly goes wrong.
    Warning,
    /// A note aimed at shipped software.
    Production,
}

impl CalloutKind {
    /// Uppercase heading for the callout.
    pub fn title(self) -> (heading: &'static str)
        ensures
            heading@ == match self {
                CalloutKind::Info => "NOTE"@,
                CalloutKind::Warning => "WATCH FOR"@,
                CalloutKind::Production => "IN PRODUCTION"@,
            },
    {
        match self {
            CalloutKind::Info => "NOTE",
            CalloutKind::Warning => "WATCH FOR",
            CalloutKind::Production => "IN PRODUCTION",
        }
    }

    /// Symbol that keeps the callout meaningful without color.
    pub fn glyph(self) -> (symbol: &'static str)
        ensures
            symbol@ == match self {
                CalloutKind::Info => "◆"@,
                CalloutKind::Warning => "▲"@,
                CalloutKind::Production => "▸"@,
            },
    {
        match self {
            CalloutKind::Info => "◆",
            CalloutKind::Warning => "▲",
            CalloutKind::Production => "▸",
        }
    }
}

} // verus!
