//! Theme token value types and theme packs.

pub mod context;
pub mod control;
pub mod error;
pub mod inherit;
pub mod paths;
pub mod pack;
pub mod source;
pub mod surface;

pub use context::ThemeContext;
pub use control::ControlStyleTokens;
pub use error::ThemeLoadError;
pub use pack::{
    ADWAITA_LIGHT_TOML, AppTokens, ButtonComponentTokens, ButtonGroupTokens, ButtonShapeTokens,
    ButtonStates, ButtonTokenState, ButtonTokens, ControlBorderTokens, ControlButtonTokens,
    ControlIconButtonTokens, ControlSurfaceTokens, ControlTokens, PaletteTokens,
    PanelComponentTokens, PanelGroupTokens, PanelTokens, ShapeRadiusTokens, ShapeTokens,
    SurfaceGroupTokens, SurfaceStates, SurfaceTokenState, SurfaceTokens, ThemePack,
};
pub use spectrum_theme::{Color, Length, LengthUnit, Radius, ShadowLayer};
pub use surface::{SurfaceRole, SurfaceStyleTokens};
