//! The display layer's verifiable state: rendering configuration, cursor
//! blink bookkeeping, cell styles, color palettes, theme collections, and
//! the errors of rendering.

pub mod config;
pub mod errors;
pub mod renderer;
pub mod theme;

pub use config::{
    AntiAliasingConfig, AntiAliasingMethod, ConfigValidation, CursorConfig, FeatureConfig,
    FontStyle, FontWeight, SubpixelOrder, TextQuality,
};
pub use errors::{
    ContextualError, ErrorContext, ErrorReporter, ErrorSeverity, ErrorStatistics, GlazingError,
    GlazingResult, RecoveryStrategy,
};
pub use renderer::{BlinkState, CellPosition, CellStyle, CursorRenderer, DecorationRenderer, DirtyRegion};
pub use theme::{ColorPalette, ThemeCollection};
