//! Theme tokens for surface-like components.

use vstd::prelude::*;

use spectrum_theme::{Color, Radius, ShadowLayer};

use super::context::ThemeContext;
use super::pack::ThemePack;

verus! {

/// Visual role for resolving surface theme tokens.
#[derive(Clone, Copy, Debug, Eq, PartialEq)]
pub enum SurfaceRole {
    /// App or page background.
    Background,
    /// Regular component surface.
    Surface,
    /// Raised panel, popover, or interactive container.
    Raised,
}

/// Resolved theme tokens used by surface-like components.
#[derive(Clone, Copy, Debug, Eq, PartialEq)]
pub struct SurfaceStyleTokens {
    /// Surface fill color.
    pub background: Color,
    /// Default foreground color.
    pub foreground: Color,
    /// Surface border color.
    pub border: Color,
    /// Surface corner radius.
    pub radius: Radius,
    /// Surface shadow.
    pub shadow: Option<ShadowLayer>,
}

/// The surface style of a role: backgrounds use the app colors on the
/// regular surface's shape, surfaces use the resting regular surface, and
/// raised surfaces use the resting raised surface, the only role with a
/// shadow.
pub open spec fn spec_surface_style(theme: ThemePack, role: SurfaceRole) -> SurfaceStyleTokens {
    match role {
        SurfaceRole::Background => SurfaceStyleTokens {
            background: theme.app.bg,
            foreground: theme.app.fg,
            border: theme.surface.regular.idle.border,
            radius: theme.surface.regular.idle.radius,
            shadow: None,
        },
        SurfaceRole::Surface => SurfaceStyleTokens {
            background: theme.surface.regular.idle.bg,
            foreground: theme.surface.regular.idle.fg,
            border: theme.surface.regular.idle.border,
            radius: theme.surface.regular.idle.radius,
            shadow: None,
        },
        SurfaceRole::Raised => SurfaceStyleTokens {
            background: theme.surface.raised.idle.bg,
            foreground: theme.surface.raised.idle.fg,
            border: theme.surface.raised.idle.border,
            radius: theme.surface.raised.idle.radius,
            shadow: Some(theme.surface.raised.idle.shadow),
        },
    }
}

impl SurfaceStyleTokens {
    /// Resolves surface style tokens from the theme baseline.
    pub fn from_theme(theme: &ThemePack, role: SurfaceRole) -> (r: Self)
        ensures
            r == spec_surface_style(*theme, role),
            role == SurfaceRole::Background ==> r.background == theme.app.bg && r.foreground == theme.app.fg
                && r.border == theme.surface.regular.idle.border && r.radius == theme.surface.regular.idle.radius
                && r.shadow is None,
            role == SurfaceRole::Surface ==> r.background == theme.surface.regular.idle.bg && r.foreground
                == theme.surface.regular.idle.fg && r.border == theme.surface.regular.idle.border && r.radius
                == theme.surface.regular.idle.radius && r.shadow is None,
            role == SurfaceRole::Raised ==> r.background == theme.surface.raised.idle.bg && r.foreground
                == theme.surface.raised.idle.fg && r.border == theme.surface.raised.idle.border && r.radius
                == theme.surface.raised.idle.radius && r.shadow == Some(theme.surface.raised.idle.shadow),
    {
        let (background, radius, shadow) = match role {
            SurfaceRole::Background => (theme.app.bg, theme.surface.regular.idle.radius, None),
            SurfaceRole::Surface => (
                theme.surface.regular.idle.bg,
                theme.surface.regular.idle.radius,
                None,
            ),
            SurfaceRole::Raised => (
                theme.surface.raised.idle.bg,
                theme.surface.raised.idle.radius,
                Some(theme.surface.raised.idle.shadow),
            ),
        };

        Self {
            background,
            foreground: match role {
                SurfaceRole::Background => theme.app.fg,
                SurfaceRole::Surface => theme.surface.regular.idle.fg,
                SurfaceRole::Raised => theme.surface.raised.idle.fg,
            },
            border: match role {
                SurfaceRole::Background | SurfaceRole::Surface => theme.surface.regular.idle.border,
                SurfaceRole::Raised => theme.surface.raised.idle.border,
            },
            radius,
            shadow,
        }
    }

    /// Resolves surface style tokens from a theme context.
    pub fn from_context(context: &ThemeContext, role: SurfaceRole) -> (r: Self)
        ensures
            r == spec_surface_style(context@, role),
            role == SurfaceRole::Background ==> r.background == context@.app.bg && r.foreground == context@.app.fg
                && r.border == context@.surface.regular.idle.border && r.radius == context@.surface.regular.idle.radius
                && r.shadow is None,
            role == SurfaceRole::Surface ==> r.background == context@.surface.regular.idle.bg && r.foreground
                == context@.surface.regular.idle.fg && r.border == context@.surface.regular.idle.border && r.radius
                == context@.surface.regular.idle.radius && r.shadow is None,
            role == SurfaceRole::Raised ==> r.background == context@.surface.raised.idle.bg && r.foreground
                == context@.surface.raised.idle.fg && r.border == context@.surface.raised.idle.border && r.radius
                == context@.surface.raised.idle.radius && r.shadow == Some(context@.surface.raised.idle.shadow),
    {
        Self::from_theme(context.theme(), role)
    }
}

/// Each surface role takes its own tokens: a background uses the app colours
/// on the regular surface's border and radius without a shadow, a surface
/// uses the resting regular surface without a shadow, and a raised surface
/// uses the resting raised surface, shadow included.
pub proof fn lemma_surface_style_by_role(theme: ThemePack, role: SurfaceRole, r: SurfaceStyleTokens)
    requires
        r == spec_surface_style(theme, role),
    ensures
            role == SurfaceRole::Background ==> r.background == theme.app.bg && r.foreground == theme.app.fg
                && r.border == theme.surface.regular.idle.border && r.radius == theme.surface.regular.idle.radius
                && r.shadow is None,
            role == SurfaceRole::Surface ==> r.background == theme.surface.regular.idle.bg && r.foreground
                == theme.surface.regular.idle.fg && r.border == theme.surface.regular.idle.border && r.radius
                == theme.surface.regular.idle.radius && r.shadow is None,
            role == SurfaceRole::Raised ==> r.background == theme.surface.raised.idle.bg && r.foreground
                == theme.surface.raised.idle.fg && r.border == theme.surface.raised.idle.border && r.radius
                == theme.surface.raised.idle.radius && r.shadow == Some(theme.surface.raised.idle.shadow),
{
}

} // verus!
