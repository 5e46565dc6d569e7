//! Themed surface variants, interaction state and token resolution.

use vstd::prelude::*;

use crate::theme::{SurfaceStates, SurfaceTokenState, SurfaceTokens, ThemePack};

verus! {

/// Surface interaction handled by a surface.
#[derive(Clone, Copy, Debug, Eq, PartialEq)]
pub enum SurfaceInteraction {
    /// Pointer entered the surface.
    HoverEnter,
    /// Pointer left the surface.
    HoverExit,
}

/// Surface view event.
#[derive(Clone, Copy, Debug, Eq, PartialEq)]
pub enum SurfaceEvent {
    /// Internal interaction that only updates surface state.
    Interaction(SurfaceInteraction),
}

/// Visual state for resolving surface motion.
#[derive(Clone, Copy, Debug, Eq, PartialEq)]
pub enum SurfaceStyleState {
    /// Resting surface state.
    Idle,
    /// Pointer hover state.
    Hovered,
}

/// Pointer state of a surface.
#[derive(Clone, Copy, Debug, Eq, PartialEq)]
pub struct SurfaceState {
    hovered: bool,
}

impl SurfaceState {
    /// Whether the pointer is over the surface.
    pub closed spec fn spec_hovered(self) -> bool {
        self.hovered
    }

    /// The visual state of a pointer state.
    pub open spec fn spec_style_state(self) -> SurfaceStyleState {
        if self.spec_hovered() {
            SurfaceStyleState::Hovered
        } else {
            SurfaceStyleState::Idle
        }
    }

    /// Applies one interaction: hover enter sets the pointer inside, hover
    /// exit sets it outside.
    pub fn apply(&mut self, interaction: SurfaceInteraction)
        ensures
            final(self).spec_hovered() == (interaction == SurfaceInteraction::HoverEnter),
    {
        match interaction {
            SurfaceInteraction::HoverEnter => self.hovered = true,
            SurfaceInteraction::HoverExit => self.hovered = false,
        }
    }

    /// Returns whether the pointer is over the surface.
    pub fn is_hovered(self) -> (r: bool)
        ensures
            r == self.spec_hovered(),
    {
        self.hovered
    }

    /// Returns the visual state.
    pub fn style_state(self) -> (r: SurfaceStyleState)
        ensures
            r == self.spec_style_state(),
            self.spec_hovered() ==> r == SurfaceStyleState::Hovered,
            !self.spec_hovered() ==> r == SurfaceStyleState::Idle,
    {
        if self.hovered {
            SurfaceStyleState::Hovered
        } else {
            SurfaceStyleState::Idle
        }
    }
}

impl Default for SurfaceState {
    /// A state with the pointer outside.
    fn default() -> (r: Self)
        ensures
            !r.spec_hovered(),
    {
        Self { hovered: false }
    }
}

/// Semantic role for resolving surface theme tokens.
#[derive(Clone, Copy, Debug, Eq, PartialEq)]
pub enum SurfaceRole {
    /// App or page background.
    Background,
    /// Content container surface.
    Container,
}

/// Visual treatment for a surface.
#[derive(Clone, Copy, Debug, Eq, PartialEq)]
pub enum SurfaceTreatment {
    /// Plain non-elevated surface.
    Plain,
    /// Elevated panel, popover, or card surface.
    Elevated,
}

/// Complete visual variant for resolving surface style.
#[derive(Clone, Copy, Debug, Eq, PartialEq)]
pub struct SurfaceVariant {
    /// Semantic role.
    pub role: SurfaceRole,
    /// Visual treatment.
    pub treatment: SurfaceTreatment,
}

/// Whether a variant keeps backgrounds plain (the form every builder
/// produces).
pub open spec fn background_is_plain(variant: SurfaceVariant) -> bool {
    variant.role == SurfaceRole::Background ==> variant.treatment == SurfaceTreatment::Plain
}

impl SurfaceVariant {
    /// App/page background surface.
    pub open spec fn spec_background() -> SurfaceVariant {
        SurfaceVariant { role: SurfaceRole::Background, treatment: SurfaceTreatment::Plain }
    }

    /// Regular content container.
    pub open spec fn spec_regular() -> SurfaceVariant {
        SurfaceVariant { role: SurfaceRole::Container, treatment: SurfaceTreatment::Plain }
    }

    /// Elevated content container.
    pub open spec fn spec_raised() -> SurfaceVariant {
        SurfaceVariant { role: SurfaceRole::Container, treatment: SurfaceTreatment::Elevated }
    }

    /// App/page background surface.
    pub fn background() -> (r: Self)
        ensures
            r == Self::spec_background(),
    {
        SurfaceVariant { role: SurfaceRole::Background, treatment: SurfaceTreatment::Plain }
    }

    /// Regular content container.
    pub fn regular() -> (r: Self)
        ensures
            r == Self::spec_regular(),
    {
        SurfaceVariant { role: SurfaceRole::Container, treatment: SurfaceTreatment::Plain }
    }

    /// Elevated content container.
    pub fn raised() -> (r: Self)
        ensures
            r == Self::spec_raised(),
    {
        SurfaceVariant { role: SurfaceRole::Container, treatment: SurfaceTreatment::Elevated }
    }

    /// Creates a surface variant from role and treatment.
    pub fn new(role: SurfaceRole, treatment: SurfaceTreatment) -> (r: Self)
        ensures
            r.role == role,
            r.treatment == treatment,
    {
        Self { role, treatment }
    }

    /// Returns this variant with a different semantic role; a background is
    /// always plain.
    pub fn with_role(self, role: SurfaceRole) -> (r: Self)
        ensures
            background_is_plain(r),
            r.role == role,
            r.treatment == (if role == SurfaceRole::Background {
                SurfaceTreatment::Plain
            } else {
                self.treatment
            }),
    {
        let mut variant = self;
        variant.role = role;
        if let SurfaceRole::Background = role {
            variant.treatment = SurfaceTreatment::Plain;
        }
        variant
    }

    /// Returns this variant with a different visual treatment; a background
    /// stays plain.
    pub fn with_treatment(self, treatment: SurfaceTreatment) -> (r: Self)
        ensures
            background_is_plain(r),
            r.role == self.role,
            r.treatment == (if self.role == SurfaceRole::Background {
                SurfaceTreatment::Plain
            } else {
                treatment
            }),
    {
        let mut variant = self;
        variant.treatment = match self.role {
            SurfaceRole::Background => SurfaceTreatment::Plain,
            SurfaceRole::Container => treatment,
        };
        variant
    }

    /// Returns this variant as an app/page background.
    pub fn set_background(self) -> (r: Self)
        ensures
            r == Self::spec_background(),
    {
        Self::background()
    }

    /// Returns this variant as a regular container.
    pub fn set_regular(self) -> (r: Self)
        ensures
            r == Self::spec_regular(),
    {
        Self::regular()
    }

    /// Returns this variant as an elevated container.
    pub fn set_raised(self) -> (r: Self)
        ensures
            r == Self::spec_raised(),
    {
        Self::raised()
    }

    /// Returns this variant with plain treatment.
    pub fn set_plain(self) -> (r: Self)
        ensures
            r.role == self.role,
            r.treatment == SurfaceTreatment::Plain,
    {
        self.with_treatment(SurfaceTreatment::Plain)
    }

    /// Returns this variant with elevated treatment; a background stays
    /// plain.
    pub fn set_elevated(self) -> (r: Self)
        ensures
            background_is_plain(r),
            r.role == self.role,
            r.treatment == (if self.role == SurfaceRole::Background {
                SurfaceTreatment::Plain
            } else {
                SurfaceTreatment::Elevated
            }),
    {
        self.with_treatment(SurfaceTreatment::Elevated)
    }
}

/// The token state read for a surface visual state.
pub open spec fn token_state(state: SurfaceStyleState) -> SurfaceTokenState {
    match state {
        SurfaceStyleState::Idle => SurfaceTokenState::Idle,
        SurfaceStyleState::Hovered => SurfaceTokenState::Hover,
    }
}

/// The token set of a variant: backgrounds use the background set, plain
/// containers the regular set and elevated containers the raised set.
pub open spec fn variant_states(theme: ThemePack, variant: SurfaceVariant) -> SurfaceStates {
    match (variant.role, variant.treatment) {
        (SurfaceRole::Background, _) => theme.surface.background,
        (SurfaceRole::Container, SurfaceTreatment::Plain) => theme.surface.regular,
        (SurfaceRole::Container, SurfaceTreatment::Elevated) => theme.surface.raised,
    }
}

/// Returns the token state read for a surface visual state.
fn style_token_state(state: SurfaceStyleState) -> (r: SurfaceTokenState)
    ensures
        r == token_state(state),
{
    match state {
        SurfaceStyleState::Idle => SurfaceTokenState::Idle,
        SurfaceStyleState::Hovered => SurfaceTokenState::Hover,
    }
}

/// Resolves the surface component tokens of a variant in a visual state.
pub fn tokens_from_theme(theme: &ThemePack, variant: SurfaceVariant, state: SurfaceStyleState) -> (r:
    SurfaceTokens)
    ensures
        r == variant_states(*theme, variant).spec_get(token_state(state)),
        r == (match (variant.role, variant.treatment, state) {
            (SurfaceRole::Background, _, SurfaceStyleState::Idle) => theme.surface.background.idle,
            (SurfaceRole::Background, _, SurfaceStyleState::Hovered) => theme.surface.background.hover,
            (SurfaceRole::Container, SurfaceTreatment::Plain, SurfaceStyleState::Idle) => theme.surface.regular.idle,
            (SurfaceRole::Container, SurfaceTreatment::Plain, SurfaceStyleState::Hovered) => theme.surface.regular.hover,
            (SurfaceRole::Container, SurfaceTreatment::Elevated, SurfaceStyleState::Idle) => theme.surface.raised.idle,
            (SurfaceRole::Container, SurfaceTreatment::Elevated, SurfaceStyleState::Hovered) => theme.surface.raised.hover,
        }),
{
    let token_state = style_token_state(state);
    *match (variant.role, variant.treatment) {
        (SurfaceRole::Background, _) => theme.surface.background.get(token_state),
        (SurfaceRole::Container, SurfaceTreatment::Plain) => theme.surface.regular.get(token_state),
        (SurfaceRole::Container, SurfaceTreatment::Elevated) => theme.surface.raised.get(
            token_state,
        ),
    }
}

/// A surface is drawn with the token set of its variant in its visual
/// state: backgrounds (whatever their treatment) with the background tokens,
/// plain containers with the regular tokens and elevated containers with the
/// raised tokens, each resting while idle and hovered while hovered.
pub proof fn lemma_surface_tokens_follow_variant_and_state(
    theme: ThemePack,
    variant: SurfaceVariant,
    state: SurfaceStyleState,
    tokens: SurfaceTokens,
)
    requires
        tokens == variant_states(theme, variant).spec_get(token_state(state)),
    ensures
        tokens == (match (variant.role, variant.treatment, state) {
            (SurfaceRole::Background, _, SurfaceStyleState::Idle) => theme.surface.background.idle,
            (SurfaceRole::Background, _, SurfaceStyleState::Hovered) => theme.surface.background.hover,
            (SurfaceRole::Container, SurfaceTreatment::Plain, SurfaceStyleState::Idle) => theme.surface.regular.idle,
            (SurfaceRole::Container, SurfaceTreatment::Plain, SurfaceStyleState::Hovered) => theme.surface.regular.hover,
            (SurfaceRole::Container, SurfaceTreatment::Elevated, SurfaceStyleState::Idle) => theme.surface.raised.idle,
            (SurfaceRole::Container, SurfaceTreatment::Elevated, SurfaceStyleState::Hovered) => theme.surface.raised.hover,
        }),
{
}

} // verus!
