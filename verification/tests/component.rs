use iced_component::component::{ComponentContext, MotionSlotState, SlotPreparation, ThemeRevision};
use iced_component::theme::{Color, ThemeContext, ThemeLoadError, ThemePack, ADWAITA_LIGHT_TOML};

#[test]
fn scoped_theme_keeps_theme_override() {
    let context = ComponentContext::adwaita();
    let scoped_bg = Color::new(221, 238, 255);
    let scoped = context.scoped_theme(|theme| theme.button.standard_filled.hover.bg = scoped_bg);

    assert_eq!(
        scoped.theme().theme().button.standard_filled.hover.bg,
        scoped_bg
    );
}

#[test]
fn context_can_change_theme_and_reduce_motion_at_runtime() {
    let accent = Color::new(26, 95, 180);
    let mut context = ComponentContext::adwaita();

    context.patch_theme(|theme| theme.button.suggested_filled.idle.bg = accent);
    context.set_reduce_motion(true);

    assert_eq!(
        context.theme().theme().button.suggested_filled.idle.bg,
        accent
    );
    assert!(context.reduce_motion());
}

#[test]
fn theme_changes_are_scoped_to_one_component_context() {
    let accent = Color::new(26, 95, 180);
    let mut first = ComponentContext::adwaita();
    let second = ComponentContext::adwaita();

    first.patch_theme(|theme| theme.button.suggested_filled.idle.bg = accent);

    assert_eq!(
        first.theme().theme().button.suggested_filled.idle.bg,
        accent
    );
    assert_ne!(
        second.theme().theme().button.suggested_filled.idle.bg,
        accent
    );
}

#[test]
fn toggling_reduce_motion_twice_restores_it() {
    let mut context = ComponentContext::new(ThemeContext::adwaita());
    assert!(!context.reduce_motion());

    context.toggle_reduce_motion();
    assert!(context.reduce_motion());
    context.toggle_reduce_motion();
    assert!(!context.reduce_motion());

    let reduced = context.with_reduce_motion(true);
    assert!(reduced.reduce_motion());
    assert_eq!(reduced.theme().theme(), context.theme().theme());
}

#[test]
fn theme_can_be_replaced_and_reset() {
    let mut context = ComponentContext::adwaita();
    let mut theme = ThemePack::adwaita();
    theme.app.bg = Color::new(1, 2, 3);

    context.set_theme_pack(theme);
    assert_eq!(context.theme().theme().app.bg, Color::new(1, 2, 3));

    context.set_theme(ThemeContext::new(ThemePack::adwaita()));
    assert_eq!(*context.theme().theme(), ThemePack::adwaita());

    context.set_theme_pack(theme);
    context.reset_theme();
    assert_eq!(*context.theme().theme(), ThemePack::adwaita());
}

#[test]
fn theme_loaded_from_text_replaces_the_theme() {
    let mut context = ComponentContext::adwaita();
    let input = ADWAITA_LIGHT_TOML.replace("bg = \"#f6f5f4\"", "bg = \"#010203\"");

    context.load_theme_from_str(&input).unwrap();
    assert_eq!(context.theme().theme().app.bg, Color::new(1, 2, 3));

    let error = context.load_theme_from_str("not toml = [").unwrap_err();
    assert!(matches!(error, ThemeLoadError::ParseToml(_)));
    assert_eq!(context.theme().theme().app.bg, Color::new(1, 2, 3));
}

#[test]
fn theme_changes_move_the_revision_on() {
    let mut context = ComponentContext::new(ThemeContext::adwaita());
    let initial = context.theme_revision();
    assert_eq!(initial, ThemeRevision::default());

    context.set_reduce_motion(true);
    assert_eq!(context.theme_revision(), initial);

    context.patch_theme(|theme| theme.app.bg = Color::new(1, 2, 3));
    let patched = context.theme_revision();
    assert_ne!(patched, initial);

    let scoped = context.scoped_theme(|theme| theme.app.fg = Color::new(4, 5, 6));
    assert_ne!(scoped.theme_revision(), patched);
    assert_eq!(context.theme_revision(), patched);

    context.reset_theme();
    assert_ne!(context.theme_revision(), patched);

    let before = context.theme_revision();
    assert!(context.load_theme_from_str("not toml = [").is_err());
    assert_eq!(context.theme_revision(), before);
}

#[test]
fn motion_slot_registers_exactly_once() {
    let mut slot = MotionSlotState::new();
    let revision = ThemeRevision::default();

    assert!(!slot.is_registered());
    assert!(!slot.record_play(revision));
    assert!(slot.register(revision));
    assert!(!slot.register(revision.next()));
    assert!(slot.is_registered());
    assert_eq!(slot.theme_revision(), Some(revision));
}

#[test]
fn motion_slot_value_is_ignored_after_a_theme_change() {
    let mut context = ComponentContext::new(ThemeContext::adwaita());
    let mut slot = MotionSlotState::default();
    let original = context.theme_revision();
    slot.register(original);

    assert!(slot.is_current(original));

    context.patch_theme(|theme| theme.button.standard_filled.idle.bg = Color::new(221, 238, 255));

    assert!(!slot.is_current(context.theme_revision()));
    assert_eq!(slot.prepare_fresh(context.theme_revision()), SlotPreparation::Replace);
    assert!(slot.is_current(context.theme_revision()));
    assert_eq!(slot.prepare_fresh(context.theme_revision()), SlotPreparation::Reuse);
    assert_eq!(MotionSlotState::new().prepare_fresh(original), SlotPreparation::Register);
    assert!(slot.record_play(original));
    assert!(slot.is_current(original));
}

#[test]
fn checked_defaults_and_reset_use_the_embedded_theme() {
    let context = ComponentContext::adwaita_checked().unwrap();
    assert_eq!(*context.theme().theme(), ThemePack::adwaita());
    assert!(!context.reduce_motion());
    assert_eq!(ThemeContext::adwaita_checked().unwrap().theme(), &ThemePack::adwaita());

    let mut changed = context;
    changed.set_reduce_motion(true);
    changed.patch_theme(|theme| theme.app.bg = Color::new(9, 9, 9));
    let before = changed.theme_revision();
    assert!(changed.try_reset_theme());
    assert_eq!(*changed.theme().theme(), ThemePack::adwaita());
    assert!(changed.reduce_motion());
    assert_ne!(changed.theme_revision(), before);
}
