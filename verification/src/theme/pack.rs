//! The typed theme pack and its contract-aware loader.
//!
//! Every token lives at a dotted path (`group.subgroup.field`). Stateful
//! component groups (`surface.*`, `button.*`) hold one component per state;
//! a state that extends another falls back to its parent's token when its
//! own token is absent.

use vstd::prelude::*;

use spectrum_theme::config::TomlThemeSourceError;
use spectrum_theme::{Color, Length, Radius, ShadowLayer};

use super::error::ThemeLoadError;
use super::source::{
    ThemeSource, TokenError, TokenValue, build_field_paths, build_paths, read_inherited, state_chain_1,
    state_chain_2, state_chain_3,
};

verus! {

/// Application-wide colors.
#[derive(Clone, Copy, Debug, PartialEq)]
pub struct AppTokens {
    /// Window background.
    pub bg: Color,
    /// Default foreground.
    pub fg: Color,
    /// Muted foreground.
    pub fg_muted: Color,
}

/// Shared control border metrics.
#[derive(Clone, Copy, Debug, PartialEq)]
pub struct ControlBorderTokens {
    /// Border width.
    pub width: Length,
}

/// Default surface metrics.
#[derive(Clone, Copy, Debug, PartialEq)]
pub struct ControlSurfaceTokens {
    /// Default inner padding.
    pub padding: Length,
}

/// Default button metrics.
#[derive(Clone, Copy, Debug, PartialEq)]
pub struct ControlButtonTokens {
    /// Horizontal padding.
    pub padding_x: Length,
    /// Vertical padding.
    pub padding_y: Length,
}

/// Default icon-button metrics.
#[derive(Clone, Copy, Debug, PartialEq)]
pub struct ControlIconButtonTokens {
    /// Square control size.
    pub size: Length,
    /// Icon size inside the control.
    pub icon_size: Length,
}

/// Control metrics and interaction colors.
#[derive(Clone, Copy, Debug, PartialEq)]
pub struct ControlTokens {
    /// Border metrics.
    pub border: ControlBorderTokens,
    /// Surface metrics.
    pub surface: ControlSurfaceTokens,
    /// Button metrics.
    pub button: ControlButtonTokens,
    /// Icon-button metrics.
    pub icon_button: ControlIconButtonTokens,
    /// Foreground used while disabled.
    pub disabled_foreground: Color,
    /// Hover-state overlay color.
    pub hover_overlay: Color,
    /// Pressed-state overlay color.
    pub pressed_overlay: Color,
}

/// Shared palette colors.
#[derive(Clone, Copy, Debug, PartialEq)]
pub struct PaletteTokens {
    /// Control border color.
    pub border: Color,
    /// Keyboard focus ring color.
    pub focus_ring: Color,
}

/// Shared shape metrics.
#[derive(Clone, Copy, Debug, PartialEq)]
pub struct ShapeTokens {
    /// Control corner radius.
    pub control_radius: Radius,
}

/// Tokens of one surface component state.
#[derive(Clone, Copy, Debug, PartialEq)]
pub struct SurfaceTokens {
    /// Fill color.
    pub bg: Color,
    /// Foreground color.
    pub fg: Color,
    /// Border color.
    pub border: Color,
    /// Border width.
    pub border_width: Length,
    /// Corner radius.
    pub radius: Radius,
    /// Shadow.
    pub shadow: ShadowLayer,
}

/// States of a surface token set.
#[derive(Clone, Copy, Debug, PartialEq, Eq)]
pub enum SurfaceTokenState {
    /// Resting state.
    Idle,
    /// Pointer hover state.
    Hover,
}

impl SurfaceTokenState {
    /// The state this state falls back to for absent tokens.
    pub fn parent(self) -> (r: Option<SurfaceTokenState>)
        ensures
            r == (match self {
                SurfaceTokenState::Idle => None,
                SurfaceTokenState::Hover => Some(SurfaceTokenState::Idle),
            }),
    {
        match self {
            SurfaceTokenState::Idle => None,
            SurfaceTokenState::Hover => Some(SurfaceTokenState::Idle),
        }
    }
}

/// A surface component per state.
#[derive(Clone, Copy, Debug, PartialEq)]
pub struct SurfaceStates {
    /// Resting tokens.
    pub idle: SurfaceTokens,
    /// Hover tokens.
    pub hover: SurfaceTokens,
}

impl SurfaceStates {
    /// The tokens of one state.
    pub open spec fn spec_get(self, state: SurfaceTokenState) -> SurfaceTokens {
        match state {
            SurfaceTokenState::Idle => self.idle,
            SurfaceTokenState::Hover => self.hover,
        }
    }

    /// Returns the tokens of one state.
    pub fn get(&self, state: SurfaceTokenState) -> (r: &SurfaceTokens)
        ensures
            *r == self.spec_get(state),
    {
        match state {
            SurfaceTokenState::Idle => &self.idle,
            SurfaceTokenState::Hover => &self.hover,
        }
    }
}

/// Surface token sets per surface kind.
#[derive(Clone, Copy, Debug, PartialEq)]
pub struct SurfaceGroupTokens {
    /// App or page background.
    pub background: SurfaceStates,
    /// Regular content surface.
    pub regular: SurfaceStates,
    /// Raised content surface.
    pub raised: SurfaceStates,
}

/// Panel layout tokens.
#[derive(Clone, Copy, Debug, PartialEq)]
pub struct PanelTokens {
    /// Inner padding.
    pub padding: Length,
    /// Vertical spacing between sections.
    pub spacing: Length,
    /// Title text size.
    pub title_size: Length,
}

/// Panel token sets.
#[derive(Clone, Copy, Debug, PartialEq)]
pub struct PanelGroupTokens {
    /// Regular panel.
    pub regular: PanelTokens,
}

/// Tokens of one button component state.
#[derive(Clone, Copy, Debug, PartialEq)]
pub struct ButtonTokens {
    /// Fill color.
    pub bg: Color,
    /// Foreground color.
    pub fg: Color,
    /// Border color.
    pub border: Color,
    /// Border width.
    pub border_width: Length,
    /// Corner radius.
    pub radius: Radius,
    /// Focus ring color.
    pub focus_ring: Color,
    /// Shadow.
    pub shadow: ShadowLayer,
}

/// States of a button token set.
#[derive(Clone, Copy, Debug, PartialEq, Eq)]
pub enum ButtonTokenState {
    /// Resting state.
    Idle,
    /// Pointer hover state.
    Hover,
    /// Pressed state.
    Pressed,
    /// Disabled state.
    Disabled,
}

impl ButtonTokenState {
    /// The state this state falls back to for absent tokens.
    pub fn parent(self) -> (r: Option<ButtonTokenState>)
        ensures
            r == (match self {
                ButtonTokenState::Idle => None,
                ButtonTokenState::Hover => Some(ButtonTokenState::Idle),
                ButtonTokenState::Pressed => Some(ButtonTokenState::Hover),
                ButtonTokenState::Disabled => Some(ButtonTokenState::Idle),
            }),
    {
        match self {
            ButtonTokenState::Idle => None,
            ButtonTokenState::Hover => Some(ButtonTokenState::Idle),
            ButtonTokenState::Pressed => Some(ButtonTokenState::Hover),
            ButtonTokenState::Disabled => Some(ButtonTokenState::Idle),
        }
    }
}

/// A button component per state.
#[derive(Clone, Copy, Debug, PartialEq)]
pub struct ButtonStates {
    /// Resting tokens.
    pub idle: ButtonTokens,
    /// Hover tokens.
    pub hover: ButtonTokens,
    /// Pressed tokens.
    pub pressed: ButtonTokens,
    /// Disabled tokens.
    pub disabled: ButtonTokens,
}

impl ButtonStates {
    /// The tokens of one state.
    pub open spec fn spec_get(self, state: ButtonTokenState) -> ButtonTokens {
        match state {
            ButtonTokenState::Idle => self.idle,
            ButtonTokenState::Hover => self.hover,
            ButtonTokenState::Pressed => self.pressed,
            ButtonTokenState::Disabled => self.disabled,
        }
    }

    /// Returns the tokens of one state.
    pub fn get(&self, state: ButtonTokenState) -> (r: &ButtonTokens)
        ensures
            *r == self.spec_get(state),
    {
        match state {
            ButtonTokenState::Idle => &self.idle,
            ButtonTokenState::Hover => &self.hover,
            ButtonTokenState::Pressed => &self.pressed,
            ButtonTokenState::Disabled => &self.disabled,
        }
    }
}

/// A corner radius token.
#[derive(Clone, Copy, Debug, PartialEq)]
pub struct ShapeRadiusTokens {
    /// Corner radius.
    pub radius: Radius,
}

/// Button outline shapes.
#[derive(Clone, Copy, Debug, PartialEq)]
pub struct ButtonShapeTokens {
    /// Rounded rectangle.
    pub rounded: ShapeRadiusTokens,
    /// Pill.
    pub pill: ShapeRadiusTokens,
    /// Circle.
    pub circular: ShapeRadiusTokens,
}

/// Button token sets per role and treatment.
#[derive(Clone, Copy, Debug, PartialEq)]
pub struct ButtonGroupTokens {
    /// Outline shapes.
    pub shape: ButtonShapeTokens,
    /// Standard filled.
    pub standard_filled: ButtonStates,
    /// Standard flat.
    pub standard_flat: ButtonStates,
    /// Standard raised.
    pub standard_raised: ButtonStates,
    /// Suggested filled.
    pub suggested_filled: ButtonStates,
    /// Suggested flat.
    pub suggested_flat: ButtonStates,
    /// Suggested raised.
    pub suggested_raised: ButtonStates,
    /// Destructive filled.
    pub destructive_filled: ButtonStates,
    /// Destructive flat.
    pub destructive_flat: ButtonStates,
    /// Destructive raised.
    pub destructive_raised: ButtonStates,
}

/// The complete typed theme.
#[derive(Clone, Copy, Debug, PartialEq)]
pub struct ThemePack {
    /// Application colors.
    pub app: AppTokens,
    /// Control metrics and interaction colors.
    pub control: ControlTokens,
    /// Shared palette.
    pub palette: PaletteTokens,
    /// Shared shapes.
    pub shape: ShapeTokens,
    /// Surface token sets.
    pub surface: SurfaceGroupTokens,
    /// Panel token sets.
    pub panel: PanelGroupTokens,
    /// Button token sets.
    pub button: ButtonGroupTokens,
}

/// Button component tokens.
pub type ButtonComponentTokens = ButtonTokens;

/// Panel component tokens.
pub type PanelComponentTokens = PanelTokens;

/// Where `control.disabled_foreground` is read: its own path first, then the standard filled button's disabled foreground
/// (along that state's chain) when the theme leaves it out.
pub open spec fn disabled_foreground_paths() -> Seq<Seq<char>> {
    seq!["control.disabled_foreground"@, "button.standard_filled.disabled.fg"@, "button.standard_filled.idle.fg"@]
}

/// Where `control.hover_overlay` is read: its own path first, then the standard flat button's hover fill
/// (along that state's chain) when the theme leaves it out.
pub open spec fn hover_overlay_paths() -> Seq<Seq<char>> {
    seq!["control.hover_overlay"@, "button.standard_flat.hover.bg"@, "button.standard_flat.idle.bg"@]
}

/// Where `control.pressed_overlay` is read: its own path first, then the standard flat button's pressed fill
/// (along that state's chain) when the theme leaves it out.
pub open spec fn pressed_overlay_paths() -> Seq<Seq<char>> {
    seq!["control.pressed_overlay"@, "button.standard_flat.pressed.bg"@, "button.standard_flat.hover.bg"@, "button.standard_flat.idle.bg"@]
}

/// Where `palette.border` is read: its own path first, then the regular surface's resting border
/// (along that state's chain) when the theme leaves it out.
pub open spec fn palette_border_paths() -> Seq<Seq<char>> {
    seq!["palette.border"@, "surface.regular.idle.border"@]
}

/// Where `palette.focus_ring` is read: its own path first, then the standard filled button's resting focus ring
/// (along that state's chain) when the theme leaves it out.
pub open spec fn palette_focus_ring_paths() -> Seq<Seq<char>> {
    seq!["palette.focus_ring"@, "button.standard_filled.idle.focus_ring"@]
}

/// Where `shape.control_radius` is read: its own path first, then the rounded button radius
/// (along that state's chain) when the theme leaves it out.
pub open spec fn control_radius_paths() -> Seq<Seq<char>> {
    seq!["shape.control_radius"@, "button.shape.rounded.radius"@]
}

/// The application token group.
pub open spec fn spec_app(text: Seq<char>) -> Result<AppTokens, TokenError> {
    match Color::spec_read(text, "app.bg"@) {
        Err(e) => Err(e),
        Ok(bg) => {
            match Color::spec_read(text, "app.fg"@) {
                Err(e) => Err(e),
                Ok(fg) => {
                    match Color::spec_read(text, "app.fg_muted"@) {
                        Err(e) => Err(e),
                        Ok(fg_muted) => {
                            Ok(AppTokens { bg, fg, fg_muted })
                        },
                    }
                },
            }
        },
    }
}

/// Reads the application token group.
pub fn read_app(source: &ThemeSource) -> (r: Result<AppTokens, TokenError>)
    ensures
        super::source::read_agrees(r, spec_app(source@), !super::source::toml_source_seeded(source@)),
        !super::source::toml_source_seeded(source@) ==> (r matches Ok(app) ==> {
            &&& super::source::toml_color_token(source@, "app.bg"@) == Ok::<Color, TokenError>(app.bg)
            &&& super::source::toml_color_token(source@, "app.fg"@) == Ok::<Color, TokenError>(app.fg)
            &&& super::source::toml_color_token(source@, "app.fg_muted"@) == Ok::<Color, TokenError>(app.fg_muted)
        }),
{
    let bg = match Color::read(source, "app.bg") {
        Ok(v) => v,
        Err(e) => return Err(e),
    };
    let fg = match Color::read(source, "app.fg") {
        Ok(v) => v,
        Err(e) => return Err(e),
    };
    let fg_muted = match Color::read(source, "app.fg_muted") {
        Ok(v) => v,
        Err(e) => return Err(e),
    };
    Ok(AppTokens { bg, fg, fg_muted })
}

/// The control metric token group.
pub open spec fn spec_control(text: Seq<char>) -> Result<ControlTokens, TokenError> {
    match Length::spec_read(text, "control.border.width"@) {
        Err(e) => Err(e),
        Ok(border_width) => {
            match Length::spec_read(text, "control.surface.padding"@) {
                Err(e) => Err(e),
                Ok(surface_padding) => {
                    match Length::spec_read(text, "control.button.padding_x"@) {
                        Err(e) => Err(e),
                        Ok(button_padding_x) => {
                            match Length::spec_read(text, "control.button.padding_y"@) {
                                Err(e) => Err(e),
                                Ok(button_padding_y) => {
                                    match Length::spec_read(text, "control.icon_button.size"@) {
                                        Err(e) => Err(e),
                                        Ok(icon_button_size) => {
                                            match Length::spec_read(text, "control.icon_button.icon_size"@) {
                                                Err(e) => Err(e),
                                                Ok(icon_button_icon_size) => {
                                                    match super::source::inherited_read::<Color>(text, disabled_foreground_paths()) {
                                                        Err(e) => Err(e),
                                                        Ok(disabled_foreground) => {
                                                            match super::source::inherited_read::<Color>(text, hover_overlay_paths()) {
                                                                Err(e) => Err(e),
                                                                Ok(hover_overlay) => {
                                                                    match super::source::inherited_read::<Color>(text, pressed_overlay_paths()) {
                                                                        Err(e) => Err(e),
                                                                        Ok(pressed_overlay) => {
                                                                            Ok(ControlTokens { border: ControlBorderTokens { width: border_width }, surface: ControlSurfaceTokens { padding: surface_padding }, button: ControlButtonTokens { padding_x: button_padding_x, padding_y: button_padding_y }, icon_button: ControlIconButtonTokens { size: icon_button_size, icon_size: icon_button_icon_size }, disabled_foreground, hover_overlay, pressed_overlay })
                                                                        },
                                                                    }
                                                                },
                                                            }
                                                        },
                                                    }
                                                },
                                            }
                                        },
                                    }
                                },
                            }
                        },
                    }
                },
            }
        },
    }
}

/// Reads the control metric token group.
pub fn read_control(source: &ThemeSource) -> (r: Result<ControlTokens, TokenError>)
    ensures
        super::source::read_agrees(r, spec_control(source@), !super::source::toml_source_seeded(source@)),
        r matches Ok(control) ==> {
            &&& super::source::toml_length_token(source@, "control.border.width"@) == Ok::<Length, TokenError>(control.border.width)
            &&& super::source::toml_length_token(source@, "control.surface.padding"@) == Ok::<Length, TokenError>(control.surface.padding)
            &&& super::source::toml_length_token(source@, "control.button.padding_x"@) == Ok::<Length, TokenError>(control.button.padding_x)
            &&& super::source::toml_length_token(source@, "control.button.padding_y"@) == Ok::<Length, TokenError>(control.button.padding_y)
            &&& super::source::toml_length_token(source@, "control.icon_button.size"@) == Ok::<Length, TokenError>(control.icon_button.size)
            &&& super::source::toml_length_token(source@, "control.icon_button.icon_size"@) == Ok::<Length, TokenError>(control.icon_button.icon_size)
        },
{
    let border_width = match Length::read(source, "control.border.width") {
        Ok(v) => v,
        Err(e) => return Err(e),
    };
    let surface_padding = match Length::read(source, "control.surface.padding") {
        Ok(v) => v,
        Err(e) => return Err(e),
    };
    let button_padding_x = match Length::read(source, "control.button.padding_x") {
        Ok(v) => v,
        Err(e) => return Err(e),
    };
    let button_padding_y = match Length::read(source, "control.button.padding_y") {
        Ok(v) => v,
        Err(e) => return Err(e),
    };
    let icon_button_size = match Length::read(source, "control.icon_button.size") {
        Ok(v) => v,
        Err(e) => return Err(e),
    };
    let icon_button_icon_size = match Length::read(source, "control.icon_button.icon_size") {
        Ok(v) => v,
        Err(e) => return Err(e),
    };
    let disabled_foreground_chain = ["control.disabled_foreground", "button.standard_filled.disabled.fg", "button.standard_filled.idle.fg"];
    let disabled_foreground_owned = build_paths(&disabled_foreground_chain);
    proof {
        assert(disabled_foreground_chain@.map_values(|s: &str| s@) =~= disabled_foreground_paths());
    }
    let disabled_foreground = match read_inherited::<Color>(source, &disabled_foreground_owned) {
        Ok(v) => v,
        Err(e) => return Err(e),
    };
    let hover_overlay_chain = ["control.hover_overlay", "button.standard_flat.hover.bg", "button.standard_flat.idle.bg"];
    let hover_overlay_owned = build_paths(&hover_overlay_chain);
    proof {
        assert(hover_overlay_chain@.map_values(|s: &str| s@) =~= hover_overlay_paths());
    }
    let hover_overlay = match read_inherited::<Color>(source, &hover_overlay_owned) {
        Ok(v) => v,
        Err(e) => return Err(e),
    };
    let pressed_overlay_chain = ["control.pressed_overlay", "button.standard_flat.pressed.bg", "button.standard_flat.hover.bg", "button.standard_flat.idle.bg"];
    let pressed_overlay_owned = build_paths(&pressed_overlay_chain);
    proof {
        assert(pressed_overlay_chain@.map_values(|s: &str| s@) =~= pressed_overlay_paths());
    }
    let pressed_overlay = match read_inherited::<Color>(source, &pressed_overlay_owned) {
        Ok(v) => v,
        Err(e) => return Err(e),
    };
    Ok(ControlTokens { border: ControlBorderTokens { width: border_width }, surface: ControlSurfaceTokens { padding: surface_padding }, button: ControlButtonTokens { padding_x: button_padding_x, padding_y: button_padding_y }, icon_button: ControlIconButtonTokens { size: icon_button_size, icon_size: icon_button_icon_size }, disabled_foreground, hover_overlay, pressed_overlay })
}

/// The shared palette token group.
pub open spec fn spec_palette(text: Seq<char>) -> Result<PaletteTokens, TokenError> {
    match super::source::inherited_read::<Color>(text, palette_border_paths()) {
        Err(e) => Err(e),
        Ok(border) => {
            match super::source::inherited_read::<Color>(text, palette_focus_ring_paths()) {
                Err(e) => Err(e),
                Ok(focus_ring) => {
                    Ok(PaletteTokens { border, focus_ring })
                },
            }
        },
    }
}

/// Reads the shared palette token group.
pub fn read_palette(source: &ThemeSource) -> (r: Result<PaletteTokens, TokenError>)
    ensures
        super::source::read_agrees(r, spec_palette(source@), !super::source::toml_source_seeded(source@)),
{
    let border_chain = ["palette.border", "surface.regular.idle.border"];
    let border_owned = build_paths(&border_chain);
    proof {
        assert(border_chain@.map_values(|s: &str| s@) =~= palette_border_paths());
    }
    let border = match read_inherited::<Color>(source, &border_owned) {
        Ok(v) => v,
        Err(e) => return Err(e),
    };
    let focus_ring_chain = ["palette.focus_ring", "button.standard_filled.idle.focus_ring"];
    let focus_ring_owned = build_paths(&focus_ring_chain);
    proof {
        assert(focus_ring_chain@.map_values(|s: &str| s@) =~= palette_focus_ring_paths());
    }
    let focus_ring = match read_inherited::<Color>(source, &focus_ring_owned) {
        Ok(v) => v,
        Err(e) => return Err(e),
    };
    Ok(PaletteTokens { border, focus_ring })
}

/// The shared shape token group.
pub open spec fn spec_shape(text: Seq<char>) -> Result<ShapeTokens, TokenError> {
    match super::source::inherited_read::<Radius>(text, control_radius_paths()) {
        Err(e) => Err(e),
        Ok(control_radius) => {
            Ok(ShapeTokens { control_radius })
        },
    }
}

/// Reads the shared shape token group.
pub fn read_shape(source: &ThemeSource) -> (r: Result<ShapeTokens, TokenError>)
    ensures
        super::source::read_agrees(r, spec_shape(source@), !super::source::toml_source_seeded(source@)),
        r matches Ok(shape) ==> super::source::inherited_read::<Radius>(
            source@,
            seq!["shape.control_radius"@, "button.shape.rounded.radius"@],
        ) == Ok::<Radius, TokenError>(shape.control_radius),
{
    let control_radius_chain = ["shape.control_radius", "button.shape.rounded.radius"];
    let control_radius_owned = build_paths(&control_radius_chain);
    proof {
        assert(control_radius_chain@.map_values(|s: &str| s@) =~= control_radius_paths());
    }
    let control_radius = match read_inherited::<Radius>(source, &control_radius_owned) {
        Ok(v) => v,
        Err(e) => return Err(e),
    };
    Ok(ShapeTokens { control_radius })
}

/// The panel layout token group.
pub open spec fn spec_panel(text: Seq<char>) -> Result<PanelGroupTokens, TokenError> {
    match Length::spec_read(text, "panel.regular.padding"@) {
        Err(e) => Err(e),
        Ok(padding) => {
            match Length::spec_read(text, "panel.regular.spacing"@) {
                Err(e) => Err(e),
                Ok(spacing) => {
                    match Length::spec_read(text, "panel.regular.title_size"@) {
                        Err(e) => Err(e),
                        Ok(title_size) => {
                            Ok(PanelGroupTokens { regular: PanelTokens { padding, spacing, title_size } })
                        },
                    }
                },
            }
        },
    }
}

/// Reads the panel layout token group.
pub fn read_panel(source: &ThemeSource) -> (r: Result<PanelGroupTokens, TokenError>)
    ensures
        super::source::read_agrees(r, spec_panel(source@), !super::source::toml_source_seeded(source@)),
        r matches Ok(panel) ==> {
            &&& super::source::toml_length_token(source@, "panel.regular.padding"@) == Ok::<Length, TokenError>(panel.regular.padding)
            &&& super::source::toml_length_token(source@, "panel.regular.spacing"@) == Ok::<Length, TokenError>(panel.regular.spacing)
            &&& super::source::toml_length_token(source@, "panel.regular.title_size"@) == Ok::<Length, TokenError>(panel.regular.title_size)
        },
{
    let padding = match Length::read(source, "panel.regular.padding") {
        Ok(v) => v,
        Err(e) => return Err(e),
    };
    let spacing = match Length::read(source, "panel.regular.spacing") {
        Ok(v) => v,
        Err(e) => return Err(e),
    };
    let title_size = match Length::read(source, "panel.regular.title_size") {
        Ok(v) => v,
        Err(e) => return Err(e),
    };
    Ok(PanelGroupTokens { regular: PanelTokens { padding, spacing, title_size } })
}

/// The button shape token group.
pub open spec fn spec_button_shape(text: Seq<char>) -> Result<ButtonShapeTokens, TokenError> {
    match Radius::spec_read(text, "button.shape.rounded.radius"@) {
        Err(e) => Err(e),
        Ok(rounded) => {
            match Radius::spec_read(text, "button.shape.pill.radius"@) {
                Err(e) => Err(e),
                Ok(pill) => {
                    match Radius::spec_read(text, "button.shape.circular.radius"@) {
                        Err(e) => Err(e),
                        Ok(circular) => {
                            Ok(ButtonShapeTokens { rounded: ShapeRadiusTokens { radius: rounded }, pill: ShapeRadiusTokens { radius: pill }, circular: ShapeRadiusTokens { radius: circular } })
                        },
                    }
                },
            }
        },
    }
}

/// Reads the button shape token group.
pub fn read_button_shape(source: &ThemeSource) -> (r: Result<ButtonShapeTokens, TokenError>)
    ensures
        super::source::read_agrees(r, spec_button_shape(source@), !super::source::toml_source_seeded(source@)),
        r matches Ok(shape) ==> {
            &&& super::source::toml_radius_token(source@, "button.shape.rounded.radius"@) == Ok::<Radius, TokenError>(shape.rounded.radius)
            &&& super::source::toml_radius_token(source@, "button.shape.pill.radius"@) == Ok::<Radius, TokenError>(shape.pill.radius)
            &&& super::source::toml_radius_token(source@, "button.shape.circular.radius"@) == Ok::<Radius, TokenError>(shape.circular.radius)
        },
{
    let rounded = match Radius::read(source, "button.shape.rounded.radius") {
        Ok(v) => v,
        Err(e) => return Err(e),
    };
    let pill = match Radius::read(source, "button.shape.pill.radius") {
        Ok(v) => v,
        Err(e) => return Err(e),
    };
    let circular = match Radius::read(source, "button.shape.circular.radius") {
        Ok(v) => v,
        Err(e) => return Err(e),
    };
    Ok(ButtonShapeTokens { rounded: ShapeRadiusTokens { radius: rounded }, pill: ShapeRadiusTokens { radius: pill }, circular: ShapeRadiusTokens { radius: circular } })
}

/// One surface component along a chain of state base paths.
pub open spec fn spec_surface_tokens(text: Seq<char>, bases: Seq<Seq<char>>) -> Result<SurfaceTokens, TokenError> {
    match super::source::inherited_read::<Color>(text, super::source::field_paths(bases, "bg"@)) {
        Err(e) => Err(e),
        Ok(bg) => {
            match super::source::inherited_read::<Color>(text, super::source::field_paths(bases, "fg"@)) {
                Err(e) => Err(e),
                Ok(fg) => {
                    match super::source::inherited_read::<Color>(text, super::source::field_paths(bases, "border"@)) {
                        Err(e) => Err(e),
                        Ok(border) => {
                            match super::source::inherited_read::<Length>(text, super::source::field_paths(bases, "border_width"@)) {
                                Err(e) => Err(e),
                                Ok(border_width) => {
                                    match super::source::inherited_read::<Radius>(text, super::source::field_paths(bases, "radius"@)) {
                                        Err(e) => Err(e),
                                        Ok(radius) => {
                                            match super::source::inherited_read::<ShadowLayer>(text, super::source::field_paths(bases, "shadow"@)) {
                                                Err(e) => Err(e),
                                                Ok(shadow) => {
                                                    Ok(SurfaceTokens { bg, fg, border, border_width, radius, shadow })
                                                },
                                            }
                                        },
                                    }
                                },
                            }
                        },
                    }
                },
            }
        },
    }
}

/// Reads one surface component along a chain of state base paths.
pub fn read_surface_tokens(source: &ThemeSource, bases: &Vec<String>) -> (r: Result<SurfaceTokens, TokenError>)
    requires
        bases.len() >= 1,
    ensures
        super::source::read_agrees(r, spec_surface_tokens(source@, super::source::string_views(bases@)), !super::source::toml_source_seeded(source@)),
{
    let bg = match read_inherited::<Color>(source, &build_field_paths(bases, "bg")) {
        Ok(v) => v,
        Err(e) => return Err(e),
    };
    let fg = match read_inherited::<Color>(source, &build_field_paths(bases, "fg")) {
        Ok(v) => v,
        Err(e) => return Err(e),
    };
    let border = match read_inherited::<Color>(source, &build_field_paths(bases, "border")) {
        Ok(v) => v,
        Err(e) => return Err(e),
    };
    let border_width = match read_inherited::<Length>(source, &build_field_paths(bases, "border_width")) {
        Ok(v) => v,
        Err(e) => return Err(e),
    };
    let radius = match read_inherited::<Radius>(source, &build_field_paths(bases, "radius")) {
        Ok(v) => v,
        Err(e) => return Err(e),
    };
    let shadow = match read_inherited::<ShadowLayer>(source, &build_field_paths(bases, "shadow")) {
        Ok(v) => v,
        Err(e) => return Err(e),
    };
    Ok(SurfaceTokens { bg, fg, border, border_width, radius, shadow })
}

/// One button component along a chain of state base paths.
pub open spec fn spec_button_tokens(text: Seq<char>, bases: Seq<Seq<char>>) -> Result<ButtonTokens, TokenError> {
    match super::source::inherited_read::<Color>(text, super::source::field_paths(bases, "bg"@)) {
        Err(e) => Err(e),
        Ok(bg) => {
            match super::source::inherited_read::<Color>(text, super::source::field_paths(bases, "fg"@)) {
                Err(e) => Err(e),
                Ok(fg) => {
                    match super::source::inherited_read::<Color>(text, super::source::field_paths(bases, "border"@)) {
                        Err(e) => Err(e),
                        Ok(border) => {
                            match super::source::inherited_read::<Length>(text, super::source::field_paths(bases, "border_width"@)) {
                                Err(e) => Err(e),
                                Ok(border_width) => {
                                    match super::source::inherited_read::<Radius>(text, super::source::field_paths(bases, "radius"@)) {
                                        Err(e) => Err(e),
                                        Ok(radius) => {
                                            match super::source::inherited_read::<Color>(text, super::source::field_paths(bases, "focus_ring"@)) {
                                                Err(e) => Err(e),
                                                Ok(focus_ring) => {
                                                    match super::source::inherited_read::<ShadowLayer>(text, super::source::field_paths(bases, "shadow"@)) {
                                                        Err(e) => Err(e),
                                                        Ok(shadow) => {
                                                            Ok(ButtonTokens { bg, fg, border, border_width, radius, focus_ring, shadow })
                                                        },
                                                    }
                                                },
                                            }
                                        },
                                    }
                                },
                            }
                        },
                    }
                },
            }
        },
    }
}

/// Reads one button component along a chain of state base paths.
pub fn read_button_tokens(source: &ThemeSource, bases: &Vec<String>) -> (r: Result<ButtonTokens, TokenError>)
    requires
        bases.len() >= 1,
    ensures
        super::source::read_agrees(r, spec_button_tokens(source@, super::source::string_views(bases@)), !super::source::toml_source_seeded(source@)),
{
    let bg = match read_inherited::<Color>(source, &build_field_paths(bases, "bg")) {
        Ok(v) => v,
        Err(e) => return Err(e),
    };
    let fg = match read_inherited::<Color>(source, &build_field_paths(bases, "fg")) {
        Ok(v) => v,
        Err(e) => return Err(e),
    };
    let border = match read_inherited::<Color>(source, &build_field_paths(bases, "border")) {
        Ok(v) => v,
        Err(e) => return Err(e),
    };
    let border_width = match read_inherited::<Length>(source, &build_field_paths(bases, "border_width")) {
        Ok(v) => v,
        Err(e) => return Err(e),
    };
    let radius = match read_inherited::<Radius>(source, &build_field_paths(bases, "radius")) {
        Ok(v) => v,
        Err(e) => return Err(e),
    };
    let focus_ring = match read_inherited::<Color>(source, &build_field_paths(bases, "focus_ring")) {
        Ok(v) => v,
        Err(e) => return Err(e),
    };
    let shadow = match read_inherited::<ShadowLayer>(source, &build_field_paths(bases, "shadow")) {
        Ok(v) => v,
        Err(e) => return Err(e),
    };
    Ok(ButtonTokens { bg, fg, border, border_width, radius, focus_ring, shadow })
}

/// A surface state set: `hover` extends `idle`.
pub open spec fn spec_surface_states(text: Seq<char>, prefix: Seq<char>) -> Result<SurfaceStates, TokenError> {
    match spec_surface_tokens(text, super::source::state_bases(prefix, seq!["idle"@])) {
        Err(e) => Err(e),
        Ok(idle) => {
            match spec_surface_tokens(text, super::source::state_bases(prefix, seq!["hover"@, "idle"@])) {
                Err(e) => Err(e),
                Ok(hover) => {
                    Ok(SurfaceStates { idle, hover })
                },
            }
        },
    }
}

/// Reads a surface state set: `hover` extends `idle`.
pub fn read_surface_states(source: &ThemeSource, prefix: &str) -> (r: Result<SurfaceStates, TokenError>)
    ensures
        super::source::read_agrees(r, spec_surface_states(source@, prefix@), !super::source::toml_source_seeded(source@)),
{
    let idle = match read_surface_tokens(source, &state_chain_1(prefix, "idle")) {
        Ok(v) => v,
        Err(e) => return Err(e),
    };
    let hover = match read_surface_tokens(source, &state_chain_2(prefix, "hover", "idle")) {
        Ok(v) => v,
        Err(e) => return Err(e),
    };
    Ok(SurfaceStates { idle, hover })
}

/// A button state set: `hover` extends `idle`, `pressed` extends `hover`, `disabled` extends `idle`.
pub open spec fn spec_button_states(text: Seq<char>, prefix: Seq<char>) -> Result<ButtonStates, TokenError> {
    match spec_button_tokens(text, super::source::state_bases(prefix, seq!["idle"@])) {
        Err(e) => Err(e),
        Ok(idle) => {
            match spec_button_tokens(text, super::source::state_bases(prefix, seq!["hover"@, "idle"@])) {
                Err(e) => Err(e),
                Ok(hover) => {
                    match spec_button_tokens(text, super::source::state_bases(prefix, seq!["pressed"@, "hover"@, "idle"@])) {
                        Err(e) => Err(e),
                        Ok(pressed) => {
                            match spec_button_tokens(text, super::source::state_bases(prefix, seq!["disabled"@, "idle"@])) {
                                Err(e) => Err(e),
                                Ok(disabled) => {
                                    Ok(ButtonStates { idle, hover, pressed, disabled })
                                },
                            }
                        },
                    }
                },
            }
        },
    }
}

/// Reads a button state set: `hover` extends `idle`, `pressed` extends `hover`, `disabled` extends `idle`.
pub fn read_button_states(source: &ThemeSource, prefix: &str) -> (r: Result<ButtonStates, TokenError>)
    ensures
        super::source::read_agrees(r, spec_button_states(source@, prefix@), !super::source::toml_source_seeded(source@)),
{
    let idle = match read_button_tokens(source, &state_chain_1(prefix, "idle")) {
        Ok(v) => v,
        Err(e) => return Err(e),
    };
    let hover = match read_button_tokens(source, &state_chain_2(prefix, "hover", "idle")) {
        Ok(v) => v,
        Err(e) => return Err(e),
    };
    let pressed = match read_button_tokens(source, &state_chain_3(prefix, "pressed", "hover", "idle")) {
        Ok(v) => v,
        Err(e) => return Err(e),
    };
    let disabled = match read_button_tokens(source, &state_chain_2(prefix, "disabled", "idle")) {
        Ok(v) => v,
        Err(e) => return Err(e),
    };
    Ok(ButtonStates { idle, hover, pressed, disabled })
}

/// The surface token group.
pub open spec fn spec_surface_group(text: Seq<char>) -> Result<SurfaceGroupTokens, TokenError> {
    match spec_surface_states(text, "surface.background"@) {
        Err(e) => Err(e),
        Ok(background) => {
            match spec_surface_states(text, "surface.regular"@) {
                Err(e) => Err(e),
                Ok(regular) => {
                    match spec_surface_states(text, "surface.raised"@) {
                        Err(e) => Err(e),
                        Ok(raised) => {
                            Ok(SurfaceGroupTokens { background, regular, raised })
                        },
                    }
                },
            }
        },
    }
}

/// Reads the surface token group.
pub fn read_surface_group(source: &ThemeSource) -> (r: Result<SurfaceGroupTokens, TokenError>)
    ensures
        super::source::read_agrees(r, spec_surface_group(source@), !super::source::toml_source_seeded(source@)),
{
    let background = match read_surface_states(source, "surface.background") {
        Ok(v) => v,
        Err(e) => return Err(e),
    };
    let regular = match read_surface_states(source, "surface.regular") {
        Ok(v) => v,
        Err(e) => return Err(e),
    };
    let raised = match read_surface_states(source, "surface.raised") {
        Ok(v) => v,
        Err(e) => return Err(e),
    };
    Ok(SurfaceGroupTokens { background, regular, raised })
}

/// The button token group.
pub open spec fn spec_button_group(text: Seq<char>) -> Result<ButtonGroupTokens, TokenError> {
    match spec_button_shape(text) {
        Err(e) => Err(e),
        Ok(shape) => {
            match spec_button_states(text, "button.standard_filled"@) {
                Err(e) => Err(e),
                Ok(standard_filled) => {
                    match spec_button_states(text, "button.standard_flat"@) {
                        Err(e) => Err(e),
                        Ok(standard_flat) => {
                            match spec_button_states(text, "button.standard_raised"@) {
                                Err(e) => Err(e),
                                Ok(standard_raised) => {
                                    match spec_button_states(text, "button.suggested_filled"@) {
                                        Err(e) => Err(e),
                                        Ok(suggested_filled) => {
                                            match spec_button_states(text, "button.suggested_flat"@) {
                                                Err(e) => Err(e),
                                                Ok(suggested_flat) => {
                                                    match spec_button_states(text, "button.suggested_raised"@) {
                                                        Err(e) => Err(e),
                                                        Ok(suggested_raised) => {
                                                            match spec_button_states(text, "button.destructive_filled"@) {
                                                                Err(e) => Err(e),
                                                                Ok(destructive_filled) => {
                                                                    match spec_button_states(text, "button.destructive_flat"@) {
                                                                        Err(e) => Err(e),
                                                                        Ok(destructive_flat) => {
                                                                            match spec_button_states(text, "button.destructive_raised"@) {
                                                                                Err(e) => Err(e),
                                                                                Ok(destructive_raised) => {
                                                                                    Ok(ButtonGroupTokens { shape, standard_filled, standard_flat, standard_raised, suggested_filled, suggested_flat, suggested_raised, destructive_filled, destructive_flat, destructive_raised })
                                                                                },
                                                                            }
                                                                        },
                                                                    }
                                                                },
                                                            }
                                                        },
                                                    }
                                                },
                                            }
                                        },
                                    }
                                },
                            }
                        },
                    }
                },
            }
        },
    }
}

/// Reads the button token group.
pub fn read_button_group(source: &ThemeSource) -> (r: Result<ButtonGroupTokens, TokenError>)
    ensures
        super::source::read_agrees(r, spec_button_group(source@), !super::source::toml_source_seeded(source@)),
        r matches Ok(group) ==> {
            &&& super::source::toml_radius_token(source@, "button.shape.rounded.radius"@) == Ok::<Radius, TokenError>(group.shape.rounded.radius)
            &&& super::source::toml_radius_token(source@, "button.shape.pill.radius"@) == Ok::<Radius, TokenError>(group.shape.pill.radius)
            &&& super::source::toml_radius_token(source@, "button.shape.circular.radius"@) == Ok::<Radius, TokenError>(group.shape.circular.radius)
        },
{
    let shape = match read_button_shape(source) {
        Ok(v) => v,
        Err(e) => return Err(e),
    };
    let standard_filled = match read_button_states(source, "button.standard_filled") {
        Ok(v) => v,
        Err(e) => return Err(e),
    };
    let standard_flat = match read_button_states(source, "button.standard_flat") {
        Ok(v) => v,
        Err(e) => return Err(e),
    };
    let standard_raised = match read_button_states(source, "button.standard_raised") {
        Ok(v) => v,
        Err(e) => return Err(e),
    };
    let suggested_filled = match read_button_states(source, "button.suggested_filled") {
        Ok(v) => v,
        Err(e) => return Err(e),
    };
    let suggested_flat = match read_button_states(source, "button.suggested_flat") {
        Ok(v) => v,
        Err(e) => return Err(e),
    };
    let suggested_raised = match read_button_states(source, "button.suggested_raised") {
        Ok(v) => v,
        Err(e) => return Err(e),
    };
    let destructive_filled = match read_button_states(source, "button.destructive_filled") {
        Ok(v) => v,
        Err(e) => return Err(e),
    };
    let destructive_flat = match read_button_states(source, "button.destructive_flat") {
        Ok(v) => v,
        Err(e) => return Err(e),
    };
    let destructive_raised = match read_button_states(source, "button.destructive_raised") {
        Ok(v) => v,
        Err(e) => return Err(e),
    };
    Ok(ButtonGroupTokens { shape, standard_filled, standard_flat, standard_raised, suggested_filled, suggested_flat, suggested_raised, destructive_filled, destructive_flat, destructive_raised })
}

/// The complete theme pack.
pub open spec fn spec_theme(text: Seq<char>) -> Result<ThemePack, TokenError> {
    match spec_app(text) {
        Err(e) => Err(e),
        Ok(app) => {
            match spec_control(text) {
                Err(e) => Err(e),
                Ok(control) => {
                    match spec_palette(text) {
                        Err(e) => Err(e),
                        Ok(palette) => {
                            match spec_shape(text) {
                                Err(e) => Err(e),
                                Ok(shape) => {
                                    match spec_surface_group(text) {
                                        Err(e) => Err(e),
                                        Ok(surface) => {
                                            match spec_panel(text) {
                                                Err(e) => Err(e),
                                                Ok(panel) => {
                                                    match spec_button_group(text) {
                                                        Err(e) => Err(e),
                                                        Ok(button) => {
                                                            Ok(ThemePack { app, control, palette, shape, surface, panel, button })
                                                        },
                                                    }
                                                },
                                            }
                                        },
                                    }
                                },
                            }
                        },
                    }
                },
            }
        },
    }
}

/// Reads the complete theme pack.
pub fn read_theme(source: &ThemeSource) -> (r: Result<ThemePack, TokenError>)
    ensures
        super::source::read_agrees(r, spec_theme(source@), !super::source::toml_source_seeded(source@)),
        r matches Ok(theme) ==> super::paths::metrics_read_own_paths(source@, theme),
{
    let app = match read_app(source) {
        Ok(v) => v,
        Err(e) => return Err(e),
    };
    let control = match read_control(source) {
        Ok(v) => v,
        Err(e) => return Err(e),
    };
    let palette = match read_palette(source) {
        Ok(v) => v,
        Err(e) => return Err(e),
    };
    let shape = match read_shape(source) {
        Ok(v) => v,
        Err(e) => return Err(e),
    };
    let surface = match read_surface_group(source) {
        Ok(v) => v,
        Err(e) => return Err(e),
    };
    let panel = match read_panel(source) {
        Ok(v) => v,
        Err(e) => return Err(e),
    };
    let button = match read_button_group(source) {
        Ok(v) => v,
        Err(e) => return Err(e),
    };
    Ok(ThemePack { app, control, palette, shape, surface, panel, button })
}


/// Embedded default Adwaita-like light theme.
pub const ADWAITA_LIGHT_TOML: &'static str = r##"[meta]
name = "Adwaita Light"
mode = "light"

[app]
bg = "#f6f5f4"
fg = "#2e3436"
fg_muted = "#77767b"

[control]
disabled_foreground = "#2e343680"
hover_overlay = "#00000012"
pressed_overlay = "#00000021"

[control.border]
width = "1px"

[control.surface]
padding = "12px"

[control.button]
padding_x = "14px"
padding_y = "8px"

[control.icon_button]
size = "40px"
icon_size = "16px"

[palette]
border = "#d5d0cc"
focus_ring = "#3584e480"

[shape]
control_radius = "6px"

[surface.background.idle]
bg = "{app.bg}"
fg = "{app.fg}"
border = "{app.bg}"
border_width = "0px"
radius = "0px"
shadow = { color = "#00000000", offset_x = "0px", offset_y = "0px", blur = "0px", spread = "0px" }

[surface.regular.idle]
bg = "#fafafa"
fg = "{app.fg}"
border = "#dedddb"
border_width = "1px"
radius = "12px"
shadow = { color = "#00000000", offset_x = "0px", offset_y = "0px", blur = "0px", spread = "0px" }

[surface.regular.hover]
bg = "#f4f4f3"

[surface.raised.idle]
bg = "#ffffff"
fg = "{app.fg}"
border = "{surface.regular.idle.border}"
border_width = "1px"
radius = "12px"
shadow = { color = "#00000017", offset_x = "0px", offset_y = "2px", blur = "8px", spread = "0px" }

[surface.raised.hover]
bg = "#f8f8f7"

[panel.regular]
padding = "18px"
spacing = "12px"
title_size = "17px"

[button.shape.rounded]
radius = "6px"

[button.shape.pill]
radius = "999px"

[button.shape.circular]
radius = "9999px"

[button.standard_filled.idle]
bg = "{surface.raised.idle.bg}"
fg = "{app.fg}"
border = "#d5d0cc"
border_width = "1px"
radius = "6px"
focus_ring = "{palette.focus_ring}"
shadow = { color = "#00000000", offset_x = "0px", offset_y = "0px", blur = "0px", spread = "0px" }

[button.standard_filled.hover]
bg = "#f1f0ef"

[button.standard_filled.pressed]
bg = "#e4e3e2"

[button.standard_filled.disabled]
fg = "{control.disabled_foreground}"

[button.standard_flat.idle]
bg = "#00000000"
fg = "{app.fg}"
border = "#00000000"
border_width = "0px"
radius = "6px"
focus_ring = "{palette.focus_ring}"
shadow = { color = "#00000000", offset_x = "0px", offset_y = "0px", blur = "0px", spread = "0px" }

[button.standard_flat.hover]
bg = "#0000000f"

[button.standard_flat.pressed]
bg = "#0000001c"

[button.standard_flat.disabled]
fg = "{control.disabled_foreground}"

[button.standard_raised.idle]
bg = "#ffffff"
fg = "{app.fg}"
border = "#d5d0cc"
border_width = "1px"
radius = "6px"
focus_ring = "{palette.focus_ring}"
shadow = { color = "#00000000", offset_x = "0px", offset_y = "0px", blur = "0px", spread = "0px" }

[button.standard_raised.hover]
bg = "#f6f5f4"

[button.standard_raised.pressed]
bg = "#e8e7e6"

[button.standard_raised.disabled]
fg = "{control.disabled_foreground}"

[button.suggested_filled.idle]
bg = "#3584e4"
fg = "#ffffff"
border = "{button.suggested_filled.idle.bg}"
border_width = "1px"
radius = "6px"
focus_ring = "{palette.focus_ring}"
shadow = { color = "#00000000", offset_x = "0px", offset_y = "0px", blur = "0px", spread = "0px" }

[button.suggested_filled.hover]
bg = "#4a90e7"
border = "#4a90e7"

[button.suggested_filled.pressed]
bg = "#2a6fc9"
border = "#2a6fc9"

[button.suggested_filled.disabled]
fg = "{control.disabled_foreground}"

[button.suggested_flat.idle]
bg = "#00000000"
fg = "#1c71d8"
border = "#00000000"
border_width = "0px"
radius = "6px"
focus_ring = "{palette.focus_ring}"
shadow = { color = "#00000000", offset_x = "0px", offset_y = "0px", blur = "0px", spread = "0px" }

[button.suggested_flat.hover]
bg = "#1c71d81a"

[button.suggested_flat.pressed]
bg = "#1c71d82e"

[button.suggested_flat.disabled]
fg = "{control.disabled_foreground}"

[button.suggested_raised.idle]
bg = "#3584e4"
fg = "#ffffff"
border = "#3584e4"
border_width = "1px"
radius = "6px"
focus_ring = "{palette.focus_ring}"
shadow = { color = "#00000000", offset_x = "0px", offset_y = "0px", blur = "0px", spread = "0px" }

[button.suggested_raised.hover]
bg = "#4a90e7"

[button.suggested_raised.pressed]
bg = "#2a6fc9"

[button.suggested_raised.disabled]
fg = "{control.disabled_foreground}"

[button.destructive_filled.idle]
bg = "#e01b24"
fg = "#ffffff"
border = "{button.destructive_filled.idle.bg}"
border_width = "1px"
radius = "6px"
focus_ring = "{palette.focus_ring}"
shadow = { color = "#00000000", offset_x = "0px", offset_y = "0px", blur = "0px", spread = "0px" }

[button.destructive_filled.hover]
bg = "#e3323a"
border = "#e3323a"

[button.destructive_filled.pressed]
bg = "#c01c28"
border = "#c01c28"

[button.destructive_filled.disabled]
fg = "{control.disabled_foreground}"

[button.destructive_flat.idle]
bg = "#00000000"
fg = "#c01c28"
border = "#00000000"
border_width = "0px"
radius = "6px"
focus_ring = "{palette.focus_ring}"
shadow = { color = "#00000000", offset_x = "0px", offset_y = "0px", blur = "0px", spread = "0px" }

[button.destructive_flat.hover]
bg = "#c01c281a"

[button.destructive_flat.pressed]
bg = "#c01c282e"

[button.destructive_flat.disabled]
fg = "{control.disabled_foreground}"

[button.destructive_raised.idle]
bg = "#e01b24"
fg = "#ffffff"
border = "#e01b24"
border_width = "1px"
radius = "6px"
focus_ring = "{palette.focus_ring}"
shadow = { color = "#00000000", offset_x = "0px", offset_y = "0px", blur = "0px", spread = "0px" }

[button.destructive_raised.hover]
bg = "#e3323a"

[button.destructive_raised.pressed]
bg = "#c01c28"

[button.destructive_raised.disabled]
fg = "{control.disabled_foreground}"
"##;

/// Whether the embedded default theme loads, exactly: it is plain text, it
/// parses, it has no seed (so every colour is named), and every token loads.
pub open spec fn adwaita_loads() -> bool {
    &&& super::source::plain_theme_text(ADWAITA_LIGHT_TOML@)
    &&& super::source::toml_source_parses(ADWAITA_LIGHT_TOML@)
    &&& !super::source::toml_source_seeded(ADWAITA_LIGHT_TOML@)
    &&& spec_theme(ADWAITA_LIGHT_TOML@) is Ok
}

/// The embedded default theme, when it loads.
pub open spec fn spec_adwaita() -> ThemePack {
    spec_theme(ADWAITA_LIGHT_TOML@)->Ok_0
}

/// The outcome of loading a theme from TOML `text`: a parse failure with the
/// parser's error for the text, a token failure with the first failing
/// token's error, or the typed theme, which is exactly the theme the text
/// describes when the text has no seed.
pub open spec fn toml_load_matches(text: Seq<char>, r: Result<ThemePack, ThemeLoadError>) -> bool {
    &&& (!super::source::toml_source_parses(text) <==> (r matches Err(ThemeLoadError::ParseToml(_))))
    &&& (r matches Err(ThemeLoadError::ParseToml(error)) ==> error == super::source::toml_parse_error(text))
    &&& super::source::toml_source_parses(text) ==> (match r {
        Ok(theme) => spec_theme(text) is Ok && (!super::source::toml_source_seeded(text)
            ==> spec_theme(text) == Ok::<ThemePack, TokenError>(theme)),
        Err(ThemeLoadError::Build(error)) => spec_theme(text) == Err::<ThemePack, TokenError>(error),
        Err(_) => false,
    })
}

impl ThemePack {
    /// Loads a typed theme from a parsed token source.
    ///
    /// The load succeeds or fails (and with which error) exactly as the text
    /// describes; without a seed the theme is exactly the one described, and
    /// each state that extends a parent takes its own token where the source
    /// has one and the parent's value where it has none.
    pub fn try_from_source(source: &ThemeSource) -> (r: Result<ThemePack, TokenError>)
        ensures
            super::source::read_agrees(r, spec_theme(source@), !super::source::toml_source_seeded(source@)),
            !super::source::toml_source_seeded(source@) ==> (r matches Ok(theme)
                ==> super::inherit::theme_states_inherit(source@, theme)),
            r matches Ok(theme) ==> super::paths::metrics_read_own_paths(source@, theme),
            !super::source::toml_source_seeded(source@) ==> (r matches Ok(theme)
                ==> super::paths::app_reads_own_paths(source@, theme)
                && super::paths::control_reads_own_paths(source@, theme)
                && super::paths::shared_reads_own_paths(source@, theme)),
    {
        let r = read_theme(source);
        proof {
            if r is Ok && !super::source::toml_source_seeded(source@) {
                super::inherit::lemma_theme_states_inherit(source@);
                super::paths::lemma_theme_reads_own_paths(source@);
            }
        }
        r
    }

    /// Loads a typed theme from a TOML theme specification.
    ///
    /// The text must be plain (ASCII without backslashes): the colour parser
    /// behind the loader panics on a non-ASCII colour.
    pub fn try_from_toml(input: &str) -> (r: Result<ThemePack, ThemeLoadError>)
        requires
            super::source::plain_theme_text(input@),
        ensures
            toml_load_matches(input@, r),
            !super::source::toml_source_seeded(input@) ==> (r matches Ok(theme)
                ==> super::inherit::theme_states_inherit(input@, theme)),
            r matches Ok(theme) ==> super::paths::metrics_read_own_paths(input@, theme),
            !super::source::toml_source_seeded(input@) ==> (r matches Ok(theme)
                ==> super::paths::app_reads_own_paths(input@, theme)
                && super::paths::control_reads_own_paths(input@, theme)
                && super::paths::shared_reads_own_paths(input@, theme)),
    {
        let source = match ThemeSource::parse(input) {
            Ok(source) => source,
            Err(error) => return Err(ThemeLoadError::ParseToml(error)),
        };
        match Self::try_from_source(&source) {
            Ok(theme) => Ok(theme),
            Err(error) => Err(ThemeLoadError::Build(error)),
        }
    }

    /// Loads the default muted Adwaita-like baseline.
    ///
    /// The embedded text is plain; [`Self::adwaita_checked`] tests it.
    pub fn try_adwaita() -> (r: Result<ThemePack, ThemeLoadError>)
        requires
            super::source::plain_theme_text(ADWAITA_LIGHT_TOML@),
        ensures
            toml_load_matches(ADWAITA_LIGHT_TOML@, r),
            adwaita_loads() ==> r == Ok::<ThemePack, ThemeLoadError>(spec_adwaita()),
    {
        Self::try_from_toml(ADWAITA_LIGHT_TOML)
    }

    /// Returns the default muted Adwaita-like baseline.
    pub fn adwaita() -> (r: ThemePack)
        requires
            adwaita_loads(),
        ensures
            r == spec_adwaita(),
    {
        match Self::try_adwaita() {
            Ok(theme) => theme,
            Err(_) => vstd::pervasive::unreached(),
        }
    }

    /// Returns the default baseline, or `None` when the embedded theme does
    /// not load.
    pub fn adwaita_checked() -> (r: Option<ThemePack>)
        ensures
            r is Some <==> adwaita_loads(),
            r matches Some(theme) ==> theme == spec_adwaita(),
    {
        if !super::source::is_plain_theme_text(ADWAITA_LIGHT_TOML) {
            return None;
        }
        let source = match ThemeSource::parse(ADWAITA_LIGHT_TOML) {
            Ok(source) => source,
            Err(_) => return None,
        };
        if source.has_seed() {
            return None;
        }
        match Self::try_from_source(&source) {
            Ok(theme) => Some(theme),
            Err(_) => None,
        }
    }
}

} // verus!
