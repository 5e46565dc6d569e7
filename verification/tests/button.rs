use iced_component::button::{
    AdwaitaButtonPreset, ButtonContent, ButtonEvent, ButtonInteraction, ButtonMotionTrigger,
    ButtonState, ButtonStyle, ButtonStyleState, IconSource, MaterialButtonPreset,
    trigger_from_interaction,
};
use std::borrow::Cow;
use std::path::PathBuf;

const TEST_ICON: &[u8] = br#"<svg viewBox="0 0 16 16"></svg>"#;

#[test]
fn svg_bytes_preserves_source_kind() {
    assert!(matches!(
        IconSource::svg_bytes(TEST_ICON),
        IconSource::SvgBytes(_)
    ));
}

#[test]
fn text_source_is_explicit_fallback() {
    assert_eq!(IconSource::text("!").text_fallback(), Some("!"));
}

#[test]
fn owned_svg_bytes_are_leaked_into_borrowed_bytes() {
    let source = IconSource::svg_bytes(TEST_ICON.to_vec());

    match source {
        IconSource::SvgBytes(Cow::Borrowed(bytes)) => assert_eq!(bytes, TEST_ICON),
        other => panic!("unexpected source: {other:?}"),
    }
    match IconSource::from_vec_leak(TEST_ICON.to_vec()) {
        IconSource::SvgBytes(Cow::Borrowed(bytes)) => assert_eq!(bytes, TEST_ICON),
        other => panic!("unexpected source: {other:?}"),
    }
}

#[test]
fn icon_source_constructors_keep_their_kind() {
    assert_eq!(
        IconSource::from_static(TEST_ICON),
        IconSource::SvgBytes(Cow::Borrowed(TEST_ICON))
    );
    assert_eq!(
        IconSource::from_vec(TEST_ICON.to_vec()),
        IconSource::SvgBytes(Cow::Owned(TEST_ICON.to_vec()))
    );
    assert_eq!(
        IconSource::svg_path("icons/open.svg"),
        IconSource::SvgPath(PathBuf::from("icons/open.svg"))
    );
    assert_eq!(IconSource::svg_path("icons/open.svg").text_fallback(), None);
    assert_eq!(IconSource::from_static(TEST_ICON).text_fallback(), None);
    let text = IconSource::text("?");
    assert_eq!(text.clone(), text);
}

#[test]
fn button_content_exposes_text() {
    assert_eq!(ButtonContent::text("Save").as_text(), Some("Save"));
    assert_eq!(ButtonContent::text(String::from("Open")), ButtonContent::Text("Open".to_string()));
    assert_eq!(ButtonContent::Empty.as_text(), None);
}

#[test]
fn every_interaction_maps_to_its_trigger() {
    let cases = [
        (ButtonInteraction::HoverEnter, ButtonMotionTrigger::HoverEnter),
        (ButtonInteraction::HoverExit, ButtonMotionTrigger::HoverExit),
        (ButtonInteraction::PressDown, ButtonMotionTrigger::PressDown),
        (ButtonInteraction::PressUp, ButtonMotionTrigger::PressUp),
        (ButtonInteraction::Focus, ButtonMotionTrigger::Focus),
        (ButtonInteraction::Blur, ButtonMotionTrigger::Blur),
        (ButtonInteraction::SetDisabled(true), ButtonMotionTrigger::Disable),
        (ButtonInteraction::SetDisabled(false), ButtonMotionTrigger::Enable),
    ];

    for (interaction, trigger) in cases {
        assert_eq!(trigger_from_interaction(interaction), trigger);
    }
}

#[test]
fn button_state_resolves_style_by_priority() {
    let mut state = ButtonState::default();
    assert_eq!(state.style_state(), ButtonStyleState::Idle);

    state.hover_enter();
    assert_eq!(state.style_state(), ButtonStyleState::Hovered);

    state.press_down();
    assert_eq!(state.style_state(), ButtonStyleState::Pressed);

    state.press_up();
    assert_eq!(state.style_state(), ButtonStyleState::Hovered);

    state.press_down();
    state.hover_exit();
    assert_eq!(state.style_state(), ButtonStyleState::Idle);
}

#[test]
fn disabled_button_ignores_presses_and_clears_hover() {
    let mut state = ButtonState::default();
    state.hover_enter();
    state.press_down();
    state.focus();

    state.set_disabled(true);
    assert!(state.is_disabled());
    assert!(state.is_focused());
    assert_eq!(state.style_state(), ButtonStyleState::Disabled);

    state.press_down();
    state.set_disabled(false);
    assert_eq!(state.style_state(), ButtonStyleState::Idle);

    state.blur();
    assert!(!state.is_focused());
}

#[test]
fn button_event_carries_release_action() {
    #[derive(Clone, Copy, Debug, Eq, PartialEq)]
    enum Action {
        Save,
    }

    let event = ButtonEvent::Pressed(Action::Save);
    assert_eq!(event, ButtonEvent::Pressed(Action::Save));
    assert_ne!(
        event,
        ButtonEvent::Interaction(ButtonInteraction::PressUp)
    );
    assert_eq!(ButtonStyle::default(), ButtonStyle::Standard);
}

#[test]
fn each_style_maps_to_one_variant_per_family() {
    assert_eq!(
        ButtonStyle::Standard.presets(),
        (AdwaitaButtonPreset::Standard, MaterialButtonPreset::Elevated)
    );
    assert_eq!(
        ButtonStyle::Primary.presets(),
        (AdwaitaButtonPreset::Suggested, MaterialButtonPreset::Filled)
    );
    assert_eq!(
        ButtonStyle::Secondary.presets(),
        (AdwaitaButtonPreset::Standard, MaterialButtonPreset::FilledTonal)
    );
    assert_eq!(
        ButtonStyle::Quiet.presets(),
        (AdwaitaButtonPreset::StandardFlat, MaterialButtonPreset::Text)
    );
    assert_eq!(ButtonStyle::default(), ButtonStyle::Standard);
}

#[test]
fn cloned_icon_sources_keep_kind_and_contents() {
    let path = IconSource::svg_path("icons/save.svg");
    assert_eq!(path.clone(), path);

    let owned = IconSource::from_vec(TEST_ICON.to_vec());
    match owned.clone() {
        IconSource::SvgBytes(Cow::Owned(bytes)) => assert_eq!(bytes, TEST_ICON.to_vec()),
        other => panic!("unexpected source: {other:?}"),
    }

    let borrowed = IconSource::from_static(TEST_ICON);
    match borrowed.clone() {
        IconSource::SvgBytes(Cow::Borrowed(bytes)) => assert_eq!(bytes, TEST_ICON),
        other => panic!("unexpected source: {other:?}"),
    }
}

#[test]
fn button_content_converts_from_strings() {
    assert_eq!(ButtonContent::from("Save"), ButtonContent::Text("Save".to_string()));
    assert_eq!(
        ButtonContent::from(String::from("Open")),
        ButtonContent::Text("Open".to_string())
    );
    let content: ButtonContent = "Close".into();
    assert_eq!(content.as_text(), Some("Close"));
}

#[test]
fn release_sends_the_press_action_or_a_press_up() {
    assert_eq!(ButtonEvent::on_release(Some(7)), ButtonEvent::Pressed(7));
    assert_eq!(
        ButtonEvent::<u8>::on_release(None),
        ButtonEvent::Interaction(ButtonInteraction::PressUp)
    );
}

#[test]
fn owned_and_leaked_vectors_hold_the_same_bytes() {
    let owned = IconSource::from_vec(TEST_ICON.to_vec());
    let leaked = IconSource::from_vec_leak(TEST_ICON.to_vec());

    match (owned, leaked) {
        (IconSource::SvgBytes(Cow::Owned(a)), IconSource::SvgBytes(Cow::Borrowed(b))) => {
            assert_eq!(a.as_slice(), b)
        }
        other => panic!("unexpected sources: {other:?}"),
    }
}
