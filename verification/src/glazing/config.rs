//! Display-layer configuration values that the verified state works on.

use vstd::prelude::*;
use crate::sash::theme::Color;

verus! {

/// Font weight.
#[derive(Debug, Clone, Copy, PartialEq, Eq, Structural)]
pub enum FontWeight {
    Thin,
    ExtraLight,
    Light,
    Normal,
    Medium,
    SemiBold,
    Bold,
    ExtraBold,
    Black,
}

/// Font style.
#[derive(Debug, Clone, Copy, PartialEq, Eq, Structural)]
pub enum FontStyle {
    Normal,
    Italic,
    Oblique,
}

/// Anti-aliasing method.
#[derive(Debug, Clone, Copy, PartialEq, Eq, Structural)]
pub enum AntiAliasingMethod {
    Disabled,
    Grayscale,
    Subpixel,
}

/// Subpixel ordering.
#[derive(Debug, Clone, Copy, PartialEq, Eq, Structural)]
pub enum SubpixelOrder {
    Rgb,
    Bgr,
    Vrgb,
    Vbgr,
}

/// Anti-aliasing configuration.
#[derive(Debug, Clone, Copy, PartialEq, Eq, Structural)]
pub struct AntiAliasingConfig {
    pub enabled: bool,
    pub method: AntiAliasingMethod,
    pub subpixel_order: SubpixelOrder,
}

impl Default for AntiAliasingConfig {
    /// Subpixel anti-aliasing with the usual ordering.
    fn default() -> (c: Self)
        ensures
            c == (AntiAliasingConfig {
                enabled: true,
                method: AntiAliasingMethod::Subpixel,
                subpixel_order: SubpixelOrder::Rgb,
            }),
    {
        AntiAliasingConfig {
            enabled: true,
            method: AntiAliasingMethod::Subpixel,
            subpixel_order: SubpixelOrder::Rgb,
        }
    }
}

/// Text rendering quality.
#[derive(Debug, Clone, Copy, PartialEq, Eq, Structural)]
pub enum TextQuality {
    Low,
    Medium,
    High,
    Ultra,
}

/// Cursor rendering configuration, with times in milliseconds.
#[derive(Debug, Clone, Copy, PartialEq, Eq, Structural)]
pub struct CursorConfig {
    pub enable_blinking: bool,
    pub blink_rate_ms: u64,
    pub thickness: u16,
    pub color_override: Option<Color>,
    pub smooth_movement: bool,
    pub movement_duration_ms: u64,
}

impl Default for CursorConfig {
    /// Blinking at half-second rate, one cell thick, theme-colored.
    fn default() -> (c: Self)
        ensures
            c == (CursorConfig {
                enable_blinking: true,
                blink_rate_ms: 500u64,
                thickness: 1u16,
                color_override: None::<Color>,
                smooth_movement: false,
                movement_duration_ms: 100u64,
            }),
    {
        CursorConfig {
            enable_blinking: true,
            blink_rate_ms: 500,
            thickness: 1,
            color_override: None,
            smooth_movement: false,
            movement_duration_ms: 100,
        }
    }
}

/// Display feature switches.
#[derive(Debug, Clone, Copy, PartialEq, Eq, Structural)]
pub struct FeatureConfig {
    pub smooth_scrolling: bool,
    pub layout_transitions: bool,
    pub text_shaping: bool,
    pub decorations: bool,
    pub transparency: bool,
    pub blur_effects: bool,
    pub animations: bool,
    pub high_dpi: bool,
}

impl Default for FeatureConfig {
    /// Decorations and smooth scrolling on, the heavier effects off.
    fn default() -> (c: Self)
        ensures
            c.decorations,
            c.smooth_scrolling,
    {
        FeatureConfig {
            smooth_scrolling: true,
            layout_transitions: true,
            text_shaping: false,
            decorations: true,
            transparency: false,
            blur_effects: false,
            animations: true,
            high_dpi: true,
        }
    }
}

/// The outcome of validating a configuration.
#[derive(Debug, Clone)]
pub struct ConfigValidation {
    pub is_valid: bool,
    pub warnings: Vec<String>,
    pub errors: Vec<String>,
}

} // verus!
