//! Window-level building blocks: pane identities, colors and themes, and tab
//! management for a window that holds several terminal panes.

pub mod errors;
pub mod ids;
pub mod layout;
pub mod tabs;
pub mod theme;

pub use errors::{SashError, SashResult};
pub use ids::PaneId;
pub use layout::{LayoutPath, SplitConstraints, SplitDirection, Tab};
pub use tabs::{NewTabPosition, TabConfig, TabManager, TabWidth};
pub use theme::{BorderStyle, Color, ColorScheme, DecorationScheme, FontScheme, SpacingScheme, TabStyle, Theme};
