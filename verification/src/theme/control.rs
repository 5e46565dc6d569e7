//! Theme tokens shared by interactive controls.

use vstd::prelude::*;

use spectrum_theme::{Color, Radius};

use super::pack::ThemePack;

verus! {

/// Resolved theme tokens shared by interactive controls.
#[derive(Clone, Copy, Debug, Eq, PartialEq)]
pub struct ControlStyleTokens {
    /// Control border color.
    pub border: Color,
    /// Keyboard focus ring color.
    pub focus_ring: Color,
    /// Foreground used while disabled.
    pub disabled_foreground: Color,
    /// Hover-state overlay color.
    pub hover_overlay: Color,
    /// Pressed-state overlay color.
    pub pressed_overlay: Color,
    /// Control corner radius.
    pub radius: Radius,
}

impl ControlStyleTokens {
    /// Resolves shared control style tokens from the theme baseline.
    pub fn from_theme(theme: &ThemePack) -> (r: Self)
        ensures
            r.border == theme.palette.border,
            r.focus_ring == theme.palette.focus_ring,
            r.disabled_foreground == theme.control.disabled_foreground,
            r.hover_overlay == theme.control.hover_overlay,
            r.pressed_overlay == theme.control.pressed_overlay,
            r.radius == theme.shape.control_radius,
    {
        Self {
            border: theme.palette.border,
            focus_ring: theme.palette.focus_ring,
            disabled_foreground: theme.control.disabled_foreground,
            hover_overlay: theme.control.hover_overlay,
            pressed_overlay: theme.control.pressed_overlay,
            radius: theme.shape.control_radius,
        }
    }
}

} // verus!
