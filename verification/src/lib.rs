//! Verified core of the interactive documentation browser for `icmd`.
//!
//! The registry of chapters and sections, the search over it, navigation and
//! scroll-spy decisions, keyboard accelerators, responsive measurements, and
//! the state machines behind the guide's demonstrations.

pub mod api_map;
pub mod command;
pub mod demos;
pub mod docs;
pub mod guide_data;
pub mod measure;
pub mod navigation;
pub mod registry;
pub mod search;
pub mod shell;
pub mod text;
