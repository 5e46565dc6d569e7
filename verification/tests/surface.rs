use iced_component::surface::{
    SurfaceInteraction, SurfaceRole, SurfaceState, SurfaceStyleState, SurfaceTreatment,
    SurfaceVariant, tokens_from_theme,
};
use iced_component::theme::{Color, ThemePack};

#[test]
fn apply_updates_hover_state() {
    let mut state = SurfaceState::default();

    state.apply(SurfaceInteraction::HoverEnter);
    assert!(state.is_hovered());
    assert_eq!(state.style_state(), SurfaceStyleState::Hovered);

    state.apply(SurfaceInteraction::HoverExit);
    assert!(!state.is_hovered());
    assert_eq!(state.style_state(), SurfaceStyleState::Idle);
}

#[test]
fn background_surface_uses_background_state_tokens() {
    let theme = ThemePack::adwaita();
    let tokens = tokens_from_theme(&theme, SurfaceVariant::background(), SurfaceStyleState::Idle);

    assert_eq!(tokens.bg, theme.surface.background.idle.bg);
    assert_eq!(tokens.fg, theme.surface.background.idle.fg);
    assert_eq!(tokens.shadow.color().alpha(), 0);
    assert!(tokens.border_width.value().abs() <= f32::EPSILON);
}

#[test]
fn raised_surface_uses_raised_state_tokens() {
    let theme = ThemePack::adwaita();
    let tokens = tokens_from_theme(&theme, SurfaceVariant::raised(), SurfaceStyleState::Idle);

    assert_eq!(tokens.bg, theme.surface.raised.idle.bg);
    assert_eq!(tokens.border_width, theme.surface.raised.idle.border_width);
    assert_eq!(tokens.radius, theme.surface.raised.idle.radius);
    assert_eq!(tokens.shadow, theme.surface.raised.idle.shadow);
}

#[test]
fn hover_state_uses_component_state_tokens() {
    let mut theme = ThemePack::adwaita();
    let hover = Color::new(230, 240, 250);
    theme.surface.regular.hover.bg = hover;

    let tokens = tokens_from_theme(&theme, SurfaceVariant::regular(), SurfaceStyleState::Hovered);

    assert_eq!(tokens.bg, hover);
}

#[test]
fn surface_variant_keeps_role_and_treatment_separate() {
    let variant = SurfaceVariant::new(SurfaceRole::Container, SurfaceTreatment::Elevated);

    assert_eq!(variant.role, SurfaceRole::Container);
    assert_eq!(variant.treatment, SurfaceTreatment::Elevated);
    assert_eq!(
        SurfaceVariant::background().set_elevated(),
        SurfaceVariant::background()
    );
}

#[test]
fn background_role_forces_plain_treatment() {
    let variant = SurfaceVariant::raised().with_role(SurfaceRole::Background);

    assert_eq!(variant, SurfaceVariant::background());
    assert_eq!(
        variant.with_treatment(SurfaceTreatment::Elevated).treatment,
        SurfaceTreatment::Plain
    );
    assert_eq!(
        SurfaceVariant::regular().with_role(SurfaceRole::Container),
        SurfaceVariant::regular()
    );
}

#[test]
fn variant_setters_select_presets() {
    let variant = SurfaceVariant::new(SurfaceRole::Background, SurfaceTreatment::Elevated);

    assert_eq!(variant.set_background(), SurfaceVariant::background());
    assert_eq!(variant.set_regular(), SurfaceVariant::regular());
    assert_eq!(variant.set_raised(), SurfaceVariant::raised());
    assert_eq!(SurfaceVariant::raised().set_plain(), SurfaceVariant::regular());
    assert_eq!(SurfaceVariant::regular().set_elevated(), SurfaceVariant::raised());
}

#[test]
fn hovered_raised_surface_uses_raised_hover_tokens() {
    let theme = ThemePack::adwaita();
    let idle = tokens_from_theme(&theme, SurfaceVariant::raised(), SurfaceStyleState::Idle);
    let hovered = tokens_from_theme(&theme, SurfaceVariant::raised(), SurfaceStyleState::Hovered);

    assert_eq!(hovered, theme.surface.raised.hover);
    assert_eq!(hovered.shadow, idle.shadow);
    assert_ne!(hovered.bg, idle.bg);
}

#[test]
fn builders_never_leave_a_background_elevated() {
    let variant = SurfaceVariant::new(SurfaceRole::Background, SurfaceTreatment::Elevated);

    assert_eq!(
        variant.with_treatment(SurfaceTreatment::Elevated),
        SurfaceVariant::background()
    );
    assert_eq!(variant.set_elevated(), SurfaceVariant::background());
    assert_eq!(variant.set_plain(), SurfaceVariant::background());
    assert_eq!(
        variant.with_role(SurfaceRole::Background),
        SurfaceVariant::background()
    );
    assert_eq!(
        variant.with_role(SurfaceRole::Container),
        SurfaceVariant::raised()
    );
}
