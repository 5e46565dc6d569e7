use aura_anim_core::runtime::MotionRuntime;
use iced_component::context::{
    AdapterContext, AdapterUpdateCx, AdapterViewCx, BackendSelection, ColorScheme, ThemeBackend,
    ThemeFamily,
};

#[derive(Clone, Copy, Debug, PartialEq)]
struct Settings {
    scheme: ColorScheme,
    reduce_motion: bool,
    revision: u32,
}

struct First;
struct Second;

impl ThemeBackend for First {
    type Context = Settings;

    fn new_context(color_scheme: ColorScheme) -> Settings {
        Settings { scheme: color_scheme, reduce_motion: false, revision: 0 }
    }

    fn spec_color_scheme(context: Settings) -> ColorScheme {
        context.scheme
    }

    fn spec_reduce_motion(context: Settings) -> bool {
        context.reduce_motion
    }

    fn color_scheme(context: &Settings) -> ColorScheme {
        context.scheme
    }

    fn reduce_motion(context: &Settings) -> bool {
        context.reduce_motion
    }

    fn set_color_scheme(_: &mut MotionRuntime, context: &mut Settings, scheme: ColorScheme) -> bool {
        let changed = context.scheme != scheme;
        context.scheme = scheme;
        changed
    }

    fn set_reduce_motion(_: &mut MotionRuntime, context: &mut Settings, reduce_motion: bool) {
        context.reduce_motion = reduce_motion;
    }
}

impl ThemeBackend for Second {
    type Context = Settings;

    fn new_context(color_scheme: ColorScheme) -> Settings {
        Settings { scheme: color_scheme, reduce_motion: false, revision: 7 }
    }

    fn spec_color_scheme(context: Settings) -> ColorScheme {
        context.scheme
    }

    fn spec_reduce_motion(context: Settings) -> bool {
        context.reduce_motion
    }

    fn color_scheme(context: &Settings) -> ColorScheme {
        context.scheme
    }

    fn reduce_motion(context: &Settings) -> bool {
        context.reduce_motion
    }

    fn set_color_scheme(_: &mut MotionRuntime, context: &mut Settings, scheme: ColorScheme) -> bool {
        let changed = context.scheme != scheme;
        context.scheme = scheme;
        changed
    }

    fn set_reduce_motion(_: &mut MotionRuntime, context: &mut Settings, reduce_motion: bool) {
        context.reduce_motion = reduce_motion;
    }
}

type Context = AdapterContext<First, Second>;

#[test]
fn family_switch_preserves_both_concrete_contexts() {
    let mut runtime = MotionRuntime::new();
    let mut context = Context::new(ThemeFamily::default());
    let first = *context.first();
    let second = *context.second();

    let changed = AdapterUpdateCx::new(&mut runtime, &mut context).set_family(ThemeFamily::Material);

    assert!(changed);
    assert_eq!(context.family(), ThemeFamily::Material);
    assert_eq!(*context.first(), first);
    assert_eq!(*context.second(), second);
    assert_eq!(runtime.motion_count(), 0);
}

#[test]
fn common_settings_are_applied_to_both_backends() {
    let mut runtime = MotionRuntime::new();
    let mut context = Context::new(ThemeFamily::default());
    let mut cx = AdapterUpdateCx::new(&mut runtime, &mut context);

    cx.set_reduce_motion(true);
    let scheme = cx.toggle_color_scheme();

    assert_eq!(scheme, ColorScheme::Dark);
    assert!(context.first().reduce_motion);
    assert!(context.second().reduce_motion);
    assert_eq!(context.color_scheme(), ColorScheme::Dark);
}

#[test]
fn active_values_follow_independently_configured_backends() {
    let mut runtime = MotionRuntime::new();
    let mut first = First::new_context(ColorScheme::Light);
    First::set_reduce_motion(&mut runtime, &mut first, true);
    let second = Second::new_context(ColorScheme::Dark);
    let mut context = Context::from_backends(ThemeFamily::Material, first, second);

    assert_eq!(context.color_scheme(), ColorScheme::Dark);
    assert!(!context.reduce_motion());

    AdapterUpdateCx::new(&mut runtime, &mut context).set_family(ThemeFamily::Adwaita);

    assert_eq!(context.color_scheme(), ColorScheme::Light);
    assert!(context.reduce_motion());
}

#[test]
fn set_family_reports_only_real_changes() {
    let mut runtime = MotionRuntime::new();
    let mut context = Context::dark(ThemeFamily::Material);
    let mut cx = AdapterUpdateCx::new(&mut runtime, &mut context);

    assert!(!cx.set_family(ThemeFamily::Material));
    assert_eq!(cx.toggle_family(), ThemeFamily::Adwaita);
    assert_eq!(cx.family(), ThemeFamily::Adwaita);
    assert_eq!(cx.toggle_family(), ThemeFamily::Material);
    assert_eq!(cx.color_scheme(), ColorScheme::Dark);
    assert!(!cx.set_color_scheme(ColorScheme::Dark));
    assert!(cx.set_color_scheme(ColorScheme::Light));
    assert!(cx.toggle_reduce_motion());
    assert!(cx.reduce_motion());
    assert_eq!(cx.toggle_selection(), BackendSelection::First);
    assert!(cx.set_selection(BackendSelection::Second));
    assert_eq!(cx.selection(), BackendSelection::Second);
}

#[test]
fn view_context_reads_the_selected_backend() {
    let runtime = MotionRuntime::new();
    let context = Context::light(ThemeFamily::Material);
    let cx = AdapterViewCx::new(&runtime, &context);

    assert_eq!(cx.family(), ThemeFamily::Material);
    assert_eq!(cx.selection(), BackendSelection::Second);
    assert_eq!(cx.color_scheme(), ColorScheme::Light);
    assert!(!cx.reduce_motion());
    assert_eq!(cx.runtime().motion_count(), 0);
}

#[test]
fn toggles_are_involutions() {
    assert_eq!(ThemeFamily::Adwaita.toggled().toggled(), ThemeFamily::Adwaita);
    assert_eq!(ColorScheme::Light.toggled(), ColorScheme::Dark);
    assert_eq!(ColorScheme::Dark.toggled(), ColorScheme::Light);
    assert_eq!(BackendSelection::from(ThemeFamily::Material), BackendSelection::Second);
    assert_eq!(BackendSelection::First.toggled(), BackendSelection::Second);
}

#[test]
fn toggling_the_family_twice_restores_the_context() {
    let mut runtime = MotionRuntime::new();
    let mut context = Context::dark(ThemeFamily::Adwaita);
    let first = *context.first();
    let second = *context.second();
    let mut cx = AdapterUpdateCx::new(&mut runtime, &mut context);

    assert_eq!(cx.toggle_family(), ThemeFamily::Material);
    assert_eq!(cx.toggle_family(), ThemeFamily::Adwaita);

    assert_eq!(context.selection(), BackendSelection::First);
    assert_eq!(*context.first(), first);
    assert_eq!(*context.second(), second);
}

#[test]
fn selecting_the_same_family_twice_changes_nothing_the_second_time() {
    let mut runtime = MotionRuntime::new();
    let mut context = Context::light(ThemeFamily::Adwaita);
    let mut cx = AdapterUpdateCx::new(&mut runtime, &mut context);

    assert!(cx.set_family(ThemeFamily::Material));
    assert!(!cx.set_family(ThemeFamily::Material));
    assert_eq!(cx.selection(), BackendSelection::Second);
    assert_eq!(cx.family(), ThemeFamily::Material);
}

#[test]
fn toggling_the_color_scheme_keeps_reduced_motion() {
    let mut runtime = MotionRuntime::new();
    let mut context = Context::light(ThemeFamily::Material);
    context.set_reduce_motion(&mut runtime, true);

    assert_eq!(context.toggle_color_scheme(&mut runtime), ColorScheme::Dark);
    assert!(context.first().reduce_motion);
    assert!(context.second().reduce_motion);
    assert_eq!(context.toggle_color_scheme(&mut runtime), ColorScheme::Light);
    assert_eq!(context.color_scheme(), ColorScheme::Light);
}

#[test]
fn backends_can_be_combined_under_an_explicit_selection() {
    let first = First::new_context(ColorScheme::Dark);
    let second = Second::new_context(ColorScheme::Light);
    let context = Context::from_backends(BackendSelection::First, first, second);

    assert_eq!(context.family(), ThemeFamily::Adwaita);
    assert_eq!(context.color_scheme(), ColorScheme::Dark);
    assert_eq!(context.second().revision, 7);
}
