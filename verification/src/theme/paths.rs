//! Every token of a loaded theme comes from its own dotted path.
//!
//! Application colours, control metrics, panel metrics and button shapes are
//! the tokens at `group.subgroup.field`; the shared control colours and
//! radius are their own tokens when present and otherwise fall back to the
//! component tokens they were derived from.

use vstd::prelude::*;

use spectrum_theme::{Color, Length, Radius};

use super::pack::ThemePack;
use super::source::{TokenError, inherited_read, toml_color_token, toml_length_token, toml_radius_token};

verus! {

/// The application colours of `theme` are the tokens at `app.bg`, `app.fg`
/// and `app.fg_muted` of the source parsed from `text`.
pub open spec fn app_reads_own_paths(text: Seq<char>, theme: ThemePack) -> bool {
    &&& toml_color_token(text, "app.bg"@) == Ok::<Color, TokenError>(theme.app.bg)
    &&& toml_color_token(text, "app.fg"@) == Ok::<Color, TokenError>(theme.app.fg)
    &&& toml_color_token(text, "app.fg_muted"@) == Ok::<Color, TokenError>(theme.app.fg_muted)
}

/// The control metrics of `theme` are the lengths at their own paths, and
/// the shared control colours follow their fallback chains.
pub open spec fn control_reads_own_paths(text: Seq<char>, theme: ThemePack) -> bool {
    &&& toml_length_token(text, "control.border.width"@) == Ok::<Length, TokenError>(theme.control.border.width)
    &&& toml_length_token(text, "control.surface.padding"@) == Ok::<Length, TokenError>(theme.control.surface.padding)
    &&& toml_length_token(text, "control.button.padding_x"@) == Ok::<Length, TokenError>(theme.control.button.padding_x)
    &&& toml_length_token(text, "control.button.padding_y"@) == Ok::<Length, TokenError>(theme.control.button.padding_y)
    &&& toml_length_token(text, "control.icon_button.size"@) == Ok::<Length, TokenError>(theme.control.icon_button.size)
    &&& toml_length_token(text, "control.icon_button.icon_size"@) == Ok::<Length, TokenError>(
        theme.control.icon_button.icon_size,
    )
    &&& inherited_read::<Color>(
        text,
        seq!["control.disabled_foreground"@, "button.standard_filled.disabled.fg"@, "button.standard_filled.idle.fg"@],
    ) == Ok::<Color, TokenError>(theme.control.disabled_foreground)
    &&& inherited_read::<Color>(
        text,
        seq!["control.hover_overlay"@, "button.standard_flat.hover.bg"@, "button.standard_flat.idle.bg"@],
    ) == Ok::<Color, TokenError>(theme.control.hover_overlay)
    &&& inherited_read::<Color>(
        text,
        seq![
            "control.pressed_overlay"@,
            "button.standard_flat.pressed.bg"@,
            "button.standard_flat.hover.bg"@,
            "button.standard_flat.idle.bg"@,
        ],
    ) == Ok::<Color, TokenError>(theme.control.pressed_overlay)
}

/// The palette, shape, panel and button shape tokens of `theme` are the
/// tokens at their own paths (palette and shape falling back to the surface
/// and button tokens they derive from).
pub open spec fn shared_reads_own_paths(text: Seq<char>, theme: ThemePack) -> bool {
    &&& inherited_read::<Color>(text, seq!["palette.border"@, "surface.regular.idle.border"@])
        == Ok::<Color, TokenError>(theme.palette.border)
    &&& inherited_read::<Color>(text, seq!["palette.focus_ring"@, "button.standard_filled.idle.focus_ring"@])
        == Ok::<Color, TokenError>(theme.palette.focus_ring)
    &&& inherited_read::<Radius>(text, seq!["shape.control_radius"@, "button.shape.rounded.radius"@])
        == Ok::<Radius, TokenError>(theme.shape.control_radius)
    &&& toml_length_token(text, "panel.regular.padding"@) == Ok::<Length, TokenError>(theme.panel.regular.padding)
    &&& toml_length_token(text, "panel.regular.spacing"@) == Ok::<Length, TokenError>(theme.panel.regular.spacing)
    &&& toml_length_token(text, "panel.regular.title_size"@) == Ok::<Length, TokenError>(theme.panel.regular.title_size)
    &&& toml_radius_token(text, "button.shape.rounded.radius"@) == Ok::<Radius, TokenError>(theme.button.shape.rounded.radius)
    &&& toml_radius_token(text, "button.shape.pill.radius"@) == Ok::<Radius, TokenError>(theme.button.shape.pill.radius)
    &&& toml_radius_token(text, "button.shape.circular.radius"@) == Ok::<Radius, TokenError>(
        theme.button.shape.circular.radius,
    )
}

/// The metrics of `theme` (control, panel and button shape lengths and
/// radii, and the shared control radius) are the tokens at their own paths.
pub open spec fn metrics_read_own_paths(text: Seq<char>, theme: ThemePack) -> bool {
    &&& toml_length_token(text, "control.border.width"@) == Ok::<Length, TokenError>(theme.control.border.width)
    &&& toml_length_token(text, "control.surface.padding"@) == Ok::<Length, TokenError>(theme.control.surface.padding)
    &&& toml_length_token(text, "control.button.padding_x"@) == Ok::<Length, TokenError>(theme.control.button.padding_x)
    &&& toml_length_token(text, "control.button.padding_y"@) == Ok::<Length, TokenError>(theme.control.button.padding_y)
    &&& toml_length_token(text, "control.icon_button.size"@) == Ok::<Length, TokenError>(theme.control.icon_button.size)
    &&& toml_length_token(text, "control.icon_button.icon_size"@) == Ok::<Length, TokenError>(
        theme.control.icon_button.icon_size,
    )
    &&& inherited_read::<Radius>(text, seq!["shape.control_radius"@, "button.shape.rounded.radius"@])
        == Ok::<Radius, TokenError>(theme.shape.control_radius)
    &&& toml_length_token(text, "panel.regular.padding"@) == Ok::<Length, TokenError>(theme.panel.regular.padding)
    &&& toml_length_token(text, "panel.regular.spacing"@) == Ok::<Length, TokenError>(theme.panel.regular.spacing)
    &&& toml_length_token(text, "panel.regular.title_size"@) == Ok::<Length, TokenError>(theme.panel.regular.title_size)
    &&& toml_radius_token(text, "button.shape.rounded.radius"@) == Ok::<Radius, TokenError>(theme.button.shape.rounded.radius)
    &&& toml_radius_token(text, "button.shape.pill.radius"@) == Ok::<Radius, TokenError>(theme.button.shape.pill.radius)
    &&& toml_radius_token(text, "button.shape.circular.radius"@) == Ok::<Radius, TokenError>(
        theme.button.shape.circular.radius,
    )
}

/// Every application colour, control metric and shared token of a theme
/// loaded from `text` is the token at its own dotted path (or along its
/// fallback chain): no field takes another field's token.
pub proof fn lemma_theme_reads_own_paths(text: Seq<char>)
    requires
        super::pack::spec_theme(text) is Ok,
    ensures
        app_reads_own_paths(text, super::pack::spec_theme(text)->Ok_0),
        control_reads_own_paths(text, super::pack::spec_theme(text)->Ok_0),
        shared_reads_own_paths(text, super::pack::spec_theme(text)->Ok_0),
        metrics_read_own_paths(text, super::pack::spec_theme(text)->Ok_0),
{
    assert(super::pack::disabled_foreground_paths() =~= seq![
        "control.disabled_foreground"@,
        "button.standard_filled.disabled.fg"@,
        "button.standard_filled.idle.fg"@,
    ]);
}

} // verus!
