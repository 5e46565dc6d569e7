use iced_component::theme::source::{ThemeSource, TokenError, is_plain_theme_text};
use iced_component::theme::{
    ADWAITA_LIGHT_TOML, Color, ControlStyleTokens, Length, ShadowLayer, SurfaceRole,
    SurfaceStyleTokens, ThemeContext, ThemeLoadError, ThemePack,
};

fn approx(left: f32, right: f32) -> bool {
    (left - right).abs() <= f32::EPSILON * 4.0
}

#[test]
fn color_reexport_uses_spectrum_parser() {
    let color = "#336699".parse::<Color>().unwrap();

    assert_eq!(color.to_string(), "#336699");
}

#[test]
fn length_reexport_uses_spectrum_parser() {
    let length = "12px".parse::<Length>().unwrap();

    assert_eq!(length.to_string(), "12px");
}

#[test]
fn scoped_context_does_not_mutate_parent() {
    let parent = ThemeContext::from_theme(&ThemePack::adwaita());
    let scoped_bg = Color::new(221, 238, 255);
    let scoped = parent.scoped(|theme| theme.button.standard_filled.hover.bg = scoped_bg);

    assert_ne!(parent.theme().button.standard_filled.hover.bg, scoped_bg);
    assert_eq!(scoped.theme().button.standard_filled.hover.bg, scoped_bg);
}

#[test]
fn adwaita_context_uses_default_theme() {
    let context = ThemeContext::adwaita();

    assert_eq!(context.theme().app.bg, ThemePack::adwaita().app.bg);
}

#[test]
fn control_style_uses_theme_control_tokens() {
    let theme = ThemePack::adwaita();
    let style = ControlStyleTokens::from_theme(&theme);

    assert_eq!(style.disabled_foreground, theme.control.disabled_foreground);
    assert_eq!(style.hover_overlay, theme.control.hover_overlay);
    assert_eq!(style.pressed_overlay, theme.control.pressed_overlay);
}

#[test]
fn control_style_uses_shared_shape_and_focus_tokens() {
    let theme = ThemePack::adwaita();
    let style = ControlStyleTokens::from_theme(&theme);

    assert_eq!(style.radius, theme.shape.control_radius);
    assert_eq!(style.focus_ring, theme.palette.focus_ring);
    assert!(style.hover_overlay.alpha() <= 24);
    assert!(style.pressed_overlay.alpha() <= 36);
}

#[test]
fn adwaita_baseline_uses_muted_blue_accent() {
    let theme = ThemePack::adwaita();
    let accent = theme.button.suggested_filled.idle.bg;

    assert!(accent.blue() > accent.red());
    assert!(accent.red() < 96);
    assert_eq!(accent.alpha(), 255);
}

#[test]
fn default_elevation_is_subtle() {
    let shadow = ThemePack::adwaita().surface.raised.idle.shadow;

    assert!(shadow.color().alpha() <= 48);
    assert!(shadow.blur().value() <= 12.0);
}

fn assert_no_shadow(shadow: ShadowLayer) {
    assert_eq!(shadow.color().alpha(), 0);
    assert!(approx(shadow.offset_x().value(), 0.0));
    assert!(approx(shadow.offset_y().value(), 0.0));
    assert!(approx(shadow.blur().value(), 0.0));
    assert!(approx(shadow.spread().value(), 0.0));
}

#[test]
fn adwaita_buttons_do_not_use_shadows() {
    let theme = ThemePack::adwaita();

    for shadow in [
        theme.button.standard_filled.idle.shadow,
        theme.button.standard_flat.idle.shadow,
        theme.button.standard_raised.idle.shadow,
        theme.button.suggested_filled.idle.shadow,
        theme.button.suggested_flat.idle.shadow,
        theme.button.suggested_raised.idle.shadow,
        theme.button.destructive_filled.idle.shadow,
        theme.button.destructive_flat.idle.shadow,
        theme.button.destructive_raised.idle.shadow,
    ] {
        assert_no_shadow(shadow);
    }
}

#[test]
fn adwaita_theme_is_loaded_from_embedded_toml() {
    let theme = ThemePack::try_from_toml(ADWAITA_LIGHT_TOML).unwrap();

    assert_eq!(theme.app.bg, "#f6f5f4".parse::<Color>().unwrap());
    assert_eq!(
        theme.surface.raised.idle.border,
        theme.surface.regular.idle.border
    );
    assert_eq!(
        theme.button.standard_filled.idle.bg,
        theme.surface.raised.idle.bg
    );
    assert_eq!(
        theme.button.suggested_filled.idle.border,
        theme.button.suggested_filled.idle.bg
    );
    assert_eq!(
        theme.button.destructive_filled.idle.border,
        theme.button.destructive_filled.idle.bg
    );
    assert_eq!(
        theme.button.suggested_filled.disabled.fg,
        theme.button.standard_filled.disabled.fg
    );
    assert!(approx(theme.control.icon_button.size.value(), 40.0));
    assert!(approx(theme.panel.regular.padding.value(), 18.0));
    assert!(approx(theme.panel.regular.spacing.value(), 12.0));
    assert!(approx(theme.panel.regular.title_size.value(), 17.0));
}

#[test]
fn background_surface_has_no_shadow() {
    let theme = ThemePack::adwaita();
    let style = SurfaceStyleTokens::from_theme(&theme, SurfaceRole::Background);

    assert_eq!(style.background, theme.app.bg);
    assert_eq!(style.foreground, theme.app.fg);
    assert_eq!(style.shadow, None);
}

#[test]
fn raised_surface_uses_theme_elevation() {
    let theme = ThemePack::adwaita();
    let style = SurfaceStyleTokens::from_theme(&theme, SurfaceRole::Raised);

    assert_eq!(style.background, theme.surface.raised.idle.bg);
    assert_eq!(style.radius, theme.surface.raised.idle.radius);
    assert_eq!(style.shadow, Some(theme.surface.raised.idle.shadow));
}

#[test]
fn surface_style_uses_scoped_context() {
    let context = ThemeContext::from_theme(&ThemePack::adwaita());
    let scoped_bg = Color::new(238, 244, 250);
    let scoped = context.scoped(|theme| theme.surface.raised.idle.bg = scoped_bg);

    let style = SurfaceStyleTokens::from_context(&scoped, SurfaceRole::Raised);

    assert_eq!(style.background, scoped_bg);
    assert_ne!(context.theme().surface.raised.idle.bg, scoped_bg);
}

#[test]
fn regular_surface_style_uses_resting_regular_tokens() {
    let theme = ThemePack::adwaita();
    let style = SurfaceStyleTokens::from_theme(&theme, SurfaceRole::Surface);

    assert_eq!(style.background, theme.surface.regular.idle.bg);
    assert_eq!(style.foreground, theme.surface.regular.idle.fg);
    assert_eq!(style.border, theme.surface.regular.idle.border);
    assert_eq!(style.radius, theme.surface.regular.idle.radius);
    assert_eq!(style.shadow, None);
}

#[test]
fn with_patch_changes_only_the_patched_token() {
    let theme = ThemePack::adwaita();
    let accent = Color::new(26, 95, 180);
    let context = ThemeContext::new(theme).with_patch(|theme| theme.app.fg = accent);

    assert_eq!(context.theme().app.fg, accent);
    assert_eq!(context.theme().app.bg, theme.app.bg);
    assert_eq!(context.into_theme().button, theme.button);
}

#[test]
fn adwaita_checked_matches_adwaita() {
    assert_eq!(ThemePack::adwaita_checked(), Some(ThemePack::adwaita()));
    assert!(ThemePack::try_adwaita().is_ok());
}

#[test]
fn hover_state_falls_back_to_idle_tokens() {
    let theme = ThemePack::adwaita();

    assert_eq!(theme.surface.background.hover, theme.surface.background.idle);
    assert_ne!(theme.surface.raised.hover.bg, theme.surface.raised.idle.bg);
    assert_eq!(theme.surface.raised.hover.shadow, theme.surface.raised.idle.shadow);
    assert_eq!(theme.surface.raised.hover.radius, theme.surface.raised.idle.radius);
}

#[test]
fn pressed_state_falls_back_to_hover_before_idle() {
    let input = ADWAITA_LIGHT_TOML.replace(
        "[button.standard_filled.pressed]\nbg = \"#e4e3e2\"\n",
        "[button.standard_filled.pressed]\nfg = \"#101010\"\n",
    );
    let theme = ThemePack::try_from_toml(&input).unwrap();
    let states = theme.button.standard_filled;

    assert_eq!(states.pressed.bg, states.hover.bg);
    assert_ne!(states.pressed.bg, states.idle.bg);
    assert_eq!(states.pressed.fg, Color::new(16, 16, 16));
    assert_eq!(states.disabled.bg, states.idle.bg);
}

#[test]
fn missing_required_token_is_reported_by_path() {
    let input = ADWAITA_LIGHT_TOML.replace("fg_muted = \"#77767b\"\n", "");
    let error = ThemePack::try_from_toml(&input).unwrap_err();

    match error {
        ThemeLoadError::Build(TokenError::MissingToken { path }) => {
            assert_eq!(path, "app.fg_muted");
        }
        other => panic!("unexpected error: {other:?}"),
    }
}

#[test]
fn missing_idle_token_is_reported_for_the_child_state() {
    let input = ADWAITA_LIGHT_TOML.replace(
        "[surface.raised.idle]\nbg = \"#ffffff\"\n",
        "[surface.raised.idle]\n",
    );
    let error = ThemePack::try_from_toml(&input).unwrap_err();

    match error {
        ThemeLoadError::Build(TokenError::MissingToken { path }) => {
            assert_eq!(path, "surface.raised.idle.bg");
        }
        other => panic!("unexpected error: {other:?}"),
    }
}

#[test]
fn invalid_token_value_is_not_masked_by_the_parent_state() {
    let input = ADWAITA_LIGHT_TOML.replace(
        "[surface.raised.hover]\nbg = \"#f8f8f7\"\n",
        "[surface.raised.hover]\nbg = \"#f8f8f7\"\nradius = \"-2px\"\n",
    );
    let error = ThemePack::try_from_toml(&input).unwrap_err();

    match error {
        ThemeLoadError::Build(TokenError::InvalidTokenValue { path, .. }) => {
            assert_eq!(path, "surface.raised.hover.radius");
        }
        other => panic!("unexpected error: {other:?}"),
    }
}

#[test]
fn malformed_toml_is_a_parse_error() {
    let error = ThemePack::try_from_toml("[app\nbg = ").unwrap_err();

    assert!(matches!(error, ThemeLoadError::ParseToml(_)));
}

#[test]
fn theme_source_reads_single_tokens() {
    let source = ThemeSource::parse(ADWAITA_LIGHT_TOML).unwrap();
    let theme = ThemePack::try_from_source(&source).unwrap();

    assert_eq!(theme, ThemePack::adwaita());
    assert!(ThemeSource::parse("= nope").is_err());
}

#[test]
fn token_error_classifies_missing_tokens() {
    assert!(TokenError::MissingToken { path: "a.b".to_string() }.is_missing());
    assert!(!TokenError::MissingSeed { path: "a.b".to_string() }.is_missing());
    assert!(
        !TokenError::InvalidTokenValue {
            path: "a.b".to_string(),
            message: "bad".to_string(),
        }
        .is_missing()
    );
}

#[test]
fn theme_text_must_be_plain_ascii_without_escapes() {
    assert!(is_plain_theme_text(ADWAITA_LIGHT_TOML));
    assert!(is_plain_theme_text("[app]\nbg = \"#ffffff\"\n"));
    assert!(is_plain_theme_text(""));
    assert!(!is_plain_theme_text("[app]\nbg = \"#1\u{e9}234\"\n"));
    assert!(!is_plain_theme_text("[app]\nbg = \"#1\\u00e9234\"\n"));
    assert!(!is_plain_theme_text("name = \"Adwaita L\u{ef}ght\"\n"));
}

#[test]
fn parse_errors_are_decided_by_the_text() {
    let first = ThemePack::try_from_toml("not toml = [").unwrap_err();
    let second = ThemePack::try_from_toml("not toml = [").unwrap_err();

    match (first, second) {
        (ThemeLoadError::ParseToml(first), ThemeLoadError::ParseToml(second)) => {
            assert_eq!(first.to_string(), second.to_string());
        }
        other => panic!("unexpected errors: {other:?}"),
    }
}

#[test]
fn shared_control_tokens_fall_back_to_component_tokens() {
    let input = ADWAITA_LIGHT_TOML
        .replace(
            "disabled_foreground = \"#2e343680\"\nhover_overlay = \"#00000012\"\npressed_overlay = \"#00000021\"\n",
            "",
        )
        .replace("[palette]\nborder = \"#d5d0cc\"\nfocus_ring = \"#3584e480\"\n", "")
        .replace("[shape]\ncontrol_radius = \"6px\"\n", "")
        .replace("{palette.focus_ring}", "#3584e480")
        .replace("{control.disabled_foreground}", "#2e343680");
    assert!(!input.contains("[palette]"));

    let theme = ThemePack::try_from_toml(&input).unwrap();

    assert_eq!(theme.palette.border, theme.surface.regular.idle.border);
    assert_eq!(theme.palette.focus_ring, theme.button.standard_filled.idle.focus_ring);
    assert_eq!(theme.shape.control_radius, theme.button.shape.rounded.radius);
    assert_eq!(theme.control.disabled_foreground, theme.button.standard_filled.disabled.fg);
    assert_eq!(theme.control.hover_overlay, theme.button.standard_flat.hover.bg);
    assert_eq!(theme.control.pressed_overlay, theme.button.standard_flat.pressed.bg);
}

#[test]
fn material_colours_need_the_seed() {
    let material = ADWAITA_LIGHT_TOML.replace("bg = \"#f6f5f4\"", "bg = \"{material.primary}\"");

    let unseeded = ThemeSource::parse(&material).unwrap();
    assert!(!unseeded.has_seed());
    match ThemePack::try_from_toml(&material) {
        Err(ThemeLoadError::Build(TokenError::MissingSeed { path })) => assert_eq!(path, "app.bg"),
        other => panic!("unexpected result: {other:?}"),
    }

    let mut seeded_text = String::from("seed = \"#3584e4\"\n");
    seeded_text.push_str(&material);
    let seeded = ThemeSource::parse(&seeded_text).unwrap();
    assert!(seeded.has_seed());
    assert!(ThemePack::try_from_source(&seeded).is_ok());
    assert!(!ThemeSource::parse(ADWAITA_LIGHT_TOML).unwrap().has_seed());
}
