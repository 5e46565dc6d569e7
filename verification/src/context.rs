//! Adapter context: selects one of two retained themed backends and keeps
//! their common settings in sync.

use vstd::prelude::*;

use aura_anim_core::runtime::MotionRuntime;

verus! {

/// Application-owned animation runtime.
#[verifier::external_type_specification]
#[verifier::external_body]
pub struct ExMotionRuntime(MotionRuntime);

/// The themed component family rendered by an adapter.
#[derive(Clone, Copy, Debug, Default, Eq, PartialEq, Structural)]
pub enum ThemeFamily {
    /// Render components from the Adwaita family.
    #[default]
    Adwaita,
    /// Render components from the Material family.
    Material,
}

impl ThemeFamily {
    /// The other family.
    pub open spec fn spec_toggled(self) -> ThemeFamily {
        match self {
            ThemeFamily::Adwaita => ThemeFamily::Material,
            ThemeFamily::Material => ThemeFamily::Adwaita,
        }
    }

    /// Returns the other family.
    pub fn toggled(self) -> (r: Self)
        ensures
            r == self.spec_toggled(),
            r != self,
            self == ThemeFamily::Adwaita ==> r == ThemeFamily::Material,
            self == ThemeFamily::Material ==> r == ThemeFamily::Adwaita,
    {
        match self {
            Self::Adwaita => Self::Material,
            Self::Material => Self::Adwaita,
        }
    }
}

/// Color scheme shared by every retained themed context.
#[derive(Clone, Copy, Debug, Default, Eq, PartialEq, Structural)]
pub enum ColorScheme {
    /// Dark color scheme.
    Dark,
    /// Light color scheme.
    #[default]
    Light,
}

impl ColorScheme {
    /// The other scheme.
    pub open spec fn spec_toggled(self) -> ColorScheme {
        match self {
            ColorScheme::Dark => ColorScheme::Light,
            ColorScheme::Light => ColorScheme::Dark,
        }
    }

    /// Returns the other scheme.
    pub fn toggled(self) -> (r: Self)
        ensures
            r == self.spec_toggled(),
            r != self,
            self == ColorScheme::Dark ==> r == ColorScheme::Light,
            self == ColorScheme::Light ==> r == ColorScheme::Dark,
    {
        match self {
            Self::Dark => Self::Light,
            Self::Light => Self::Dark,
        }
    }
}

/// Which of the two retained backends is rendered.
#[derive(Clone, Copy, Debug, Eq, PartialEq, Structural)]
pub enum BackendSelection {
    /// The first backend.
    First,
    /// The second backend.
    Second,
}

impl BackendSelection {
    /// The other backend.
    pub open spec fn spec_toggled(self) -> BackendSelection {
        match self {
            BackendSelection::First => BackendSelection::Second,
            BackendSelection::Second => BackendSelection::First,
        }
    }

    /// Returns the other backend.
    pub fn toggled(self) -> (r: Self)
        ensures
            r == self.spec_toggled(),
            r != self,
            self == BackendSelection::First ==> r == BackendSelection::Second,
            self == BackendSelection::Second ==> r == BackendSelection::First,
    {
        match self {
            Self::First => Self::Second,
            Self::Second => Self::First,
        }
    }
}

/// The backend that renders a family: Adwaita is the first backend and
/// Material the second.
pub open spec fn family_selection(family: ThemeFamily) -> BackendSelection {
    match family {
        ThemeFamily::Adwaita => BackendSelection::First,
        ThemeFamily::Material => BackendSelection::Second,
    }
}

/// The family rendered by a backend selection.
pub open spec fn selection_family(selection: BackendSelection) -> ThemeFamily {
    match selection {
        BackendSelection::First => ThemeFamily::Adwaita,
        BackendSelection::Second => ThemeFamily::Material,
    }
}

impl From<ThemeFamily> for BackendSelection {
    fn from(family: ThemeFamily) -> (r: Self) {
        match family {
            ThemeFamily::Adwaita => BackendSelection::First,
            ThemeFamily::Material => BackendSelection::Second,
        }
    }
}

impl vstd::std_specs::convert::FromSpecImpl<ThemeFamily> for BackendSelection {
    open spec fn obeys_from_spec() -> bool {
        true
    }

    open spec fn from_spec(family: ThemeFamily) -> BackendSelection {
        family_selection(family)
    }
}

/// A concrete themed component library that can participate in an adapter.
///
/// Implementations own their persistent context and report and apply the
/// adapter's common settings: the light or dark color scheme and the
/// reduced-motion preference.
pub trait ThemeBackend: Sized {
    /// Persistent context owned by an adapter context.
    type Context;

    /// Creates a persistent context in a color scheme.
    fn new_context(color_scheme: ColorScheme) -> (r: Self::Context)
        ensures
            Self::spec_color_scheme(r) == color_scheme,
    ;

    /// The color scheme of a context.
    spec fn spec_color_scheme(context: Self::Context) -> ColorScheme;

    /// The reduced-motion preference of a context.
    spec fn spec_reduce_motion(context: Self::Context) -> bool;

    /// Returns the backend's active light or dark color scheme.
    fn color_scheme(context: &Self::Context) -> (r: ColorScheme)
        ensures
            r == Self::spec_color_scheme(*context),
    ;

    /// Returns whether this backend reduces non-essential motion.
    fn reduce_motion(context: &Self::Context) -> (r: bool)
        ensures
            r == Self::spec_reduce_motion(*context),
    ;

    /// Applies a light or dark color scheme; returns whether it changed.
    fn set_color_scheme(
        runtime: &mut MotionRuntime,
        context: &mut Self::Context,
        color_scheme: ColorScheme,
    ) -> (changed: bool)
        ensures
            Self::spec_color_scheme(*final(context)) == color_scheme,
            changed == (Self::spec_color_scheme(*old(context)) != color_scheme),
            Self::spec_reduce_motion(*final(context)) == Self::spec_reduce_motion(*old(context)),
    ;

    /// Applies the reduced-motion preference.
    fn set_reduce_motion(runtime: &mut MotionRuntime, context: &mut Self::Context, reduce_motion: bool)
        ensures
            Self::spec_reduce_motion(*final(context)) == reduce_motion,
            Self::spec_color_scheme(*final(context)) == Self::spec_color_scheme(*old(context)),
    ;
}

/// Theme contexts of two backends retained by an adapter, and the selection
/// of the one that is rendered.
///
/// Both contexts stay alive across a switch, which preserves runtime theme
/// edits while the adapter changes the rendered implementation.
pub struct AdapterContext<A: ThemeBackend, B: ThemeBackend> {
    selection: BackendSelection,
    first: A::Context,
    second: B::Context,
}

impl<A: ThemeBackend, B: ThemeBackend> AdapterContext<A, B> {
    /// The selected backend.
    pub closed spec fn spec_selection(self) -> BackendSelection {
        self.selection
    }

    /// The first backend's context.
    pub closed spec fn spec_first(self) -> A::Context {
        self.first
    }

    /// The second backend's context.
    pub closed spec fn spec_second(self) -> B::Context {
        self.second
    }

    /// The color scheme of the selected backend.
    pub open spec fn spec_color_scheme(self) -> ColorScheme {
        match self.spec_selection() {
            BackendSelection::First => A::spec_color_scheme(self.spec_first()),
            BackendSelection::Second => B::spec_color_scheme(self.spec_second()),
        }
    }

    /// The reduced-motion preference of the selected backend.
    pub open spec fn spec_reduce_motion(self) -> bool {
        match self.spec_selection() {
            BackendSelection::First => A::spec_reduce_motion(self.spec_first()),
            BackendSelection::Second => B::spec_reduce_motion(self.spec_second()),
        }
    }

    /// Creates an adapter context from two configured backend contexts and
    /// the selection (or the family) to render.
    pub fn from_backends<S: Into<BackendSelection>>(selection: S, first: A::Context, second: B::Context) -> (r:
        Self)
        ensures
            <S as vstd::std_specs::convert::IntoSpec<BackendSelection>>::obeys_into_spec()
                ==> r.spec_selection()
                == <S as vstd::std_specs::convert::IntoSpec<BackendSelection>>::into_spec(selection),
            r.spec_first() == first,
            r.spec_second() == second,
    {
        Self { selection: selection.into(), first, second }
    }

    /// Creates backend contexts with one shared color scheme.
    pub fn with_color_scheme(family: ThemeFamily, color_scheme: ColorScheme) -> (r: Self)
        ensures
            r.spec_selection() == family_selection(family),
            A::spec_color_scheme(r.spec_first()) == color_scheme,
            B::spec_color_scheme(r.spec_second()) == color_scheme,
            r.spec_color_scheme() == color_scheme,
    {
        let first = A::new_context(color_scheme);
        let second = B::new_context(color_scheme);
        Self::from_backends(family, first, second)
    }

    /// Creates light contexts with the selected family.
    pub fn new(family: ThemeFamily) -> (r: Self)
        ensures
            r.spec_selection() == family_selection(family),
            A::spec_color_scheme(r.spec_first()) == ColorScheme::Light,
            B::spec_color_scheme(r.spec_second()) == ColorScheme::Light,
    {
        Self::light(family)
    }

    /// Creates light contexts with the selected family.
    pub fn light(family: ThemeFamily) -> (r: Self)
        ensures
            r.spec_selection() == family_selection(family),
            A::spec_color_scheme(r.spec_first()) == ColorScheme::Light,
            B::spec_color_scheme(r.spec_second()) == ColorScheme::Light,
    {
        Self::with_color_scheme(family, ColorScheme::Light)
    }

    /// Creates dark contexts with the selected family.
    pub fn dark(family: ThemeFamily) -> (r: Self)
        ensures
            r.spec_selection() == family_selection(family),
            A::spec_color_scheme(r.spec_first()) == ColorScheme::Dark,
            B::spec_color_scheme(r.spec_second()) == ColorScheme::Dark,
    {
        Self::with_color_scheme(family, ColorScheme::Dark)
    }

    /// Returns the selected backend.
    pub fn selection(&self) -> (r: BackendSelection)
        ensures
            r == self.spec_selection(),
    {
        self.selection
    }

    /// Returns the family rendered by the selected backend.
    pub fn family(&self) -> (r: ThemeFamily)
        ensures
            r == selection_family(self.spec_selection()),
            self.spec_selection() == BackendSelection::First ==> r == ThemeFamily::Adwaita,
            self.spec_selection() == BackendSelection::Second ==> r == ThemeFamily::Material,
    {
        match self.selection {
            BackendSelection::First => ThemeFamily::Adwaita,
            BackendSelection::Second => ThemeFamily::Material,
        }
    }

    /// Returns the retained first context.
    pub fn first(&self) -> (r: &A::Context)
        ensures
            *r == self.spec_first(),
    {
        &self.first
    }

    /// Returns the retained second context.
    pub fn second(&self) -> (r: &B::Context)
        ensures
            *r == self.spec_second(),
    {
        &self.second
    }

    /// Returns the color scheme of the selected backend.
    pub fn color_scheme(&self) -> (r: ColorScheme)
        ensures
            r == self.spec_color_scheme(),
    {
        match self.selection {
            BackendSelection::First => A::color_scheme(&self.first),
            BackendSelection::Second => B::color_scheme(&self.second),
        }
    }

    /// Returns the reduced-motion preference of the selected backend.
    pub fn reduce_motion(&self) -> (r: bool)
        ensures
            r == self.spec_reduce_motion(),
    {
        match self.selection {
            BackendSelection::First => A::reduce_motion(&self.first),
            BackendSelection::Second => B::reduce_motion(&self.second),
        }
    }

    /// Selects a backend without a cross-theme transition; returns whether
    /// the selection changed. Both contexts are kept.
    pub fn set_selection(&mut self, selection: BackendSelection) -> (changed: bool)
        ensures
            final(self).spec_selection() == selection,
            changed == (old(self).spec_selection() != selection),
            final(self).spec_first() == old(self).spec_first(),
            final(self).spec_second() == old(self).spec_second(),
    {
        let changed = self.selection != selection;
        self.selection = selection;
        changed
    }

    /// Selects the other backend and returns it.
    pub fn toggle_selection(&mut self) -> (r: BackendSelection)
        ensures
            r == old(self).spec_selection().spec_toggled(),
            final(self).spec_selection() == r,
            final(self).spec_first() == old(self).spec_first(),
            final(self).spec_second() == old(self).spec_second(),
    {
        let selection = self.selection.toggled();
        self.selection = selection;
        selection
    }

    /// Selects the backend of a family; returns whether the selection
    /// changed.
    pub fn set_family(&mut self, family: ThemeFamily) -> (changed: bool)
        ensures
            final(self).spec_selection() == family_selection(family),
            family == ThemeFamily::Adwaita ==> final(self).spec_selection() == BackendSelection::First,
            family == ThemeFamily::Material ==> final(self).spec_selection() == BackendSelection::Second,
            changed == (old(self).spec_selection() != family_selection(family)),
            final(self).spec_first() == old(self).spec_first(),
            final(self).spec_second() == old(self).spec_second(),
    {
        self.set_selection(BackendSelection::from(family))
    }

    /// Selects the other family and returns it.
    pub fn toggle_family(&mut self) -> (r: ThemeFamily)
        ensures
            r == selection_family(old(self).spec_selection()).spec_toggled(),
            final(self).spec_selection() == family_selection(r),
            final(self).spec_first() == old(self).spec_first(),
            final(self).spec_second() == old(self).spec_second(),
    {
        match self.toggle_selection() {
            BackendSelection::First => ThemeFamily::Adwaita,
            BackendSelection::Second => ThemeFamily::Material,
        }
    }

    /// Applies one color scheme to both backends; returns whether either
    /// changed.
    pub fn set_color_scheme(&mut self, runtime: &mut MotionRuntime, color_scheme: ColorScheme) -> (changed:
        bool)
        ensures
            A::spec_color_scheme(final(self).spec_first()) == color_scheme,
            B::spec_color_scheme(final(self).spec_second()) == color_scheme,
            changed == (A::spec_color_scheme(old(self).spec_first()) != color_scheme
                || B::spec_color_scheme(old(self).spec_second()) != color_scheme),
            A::spec_reduce_motion(final(self).spec_first()) == A::spec_reduce_motion(
                old(self).spec_first(),
            ),
            B::spec_reduce_motion(final(self).spec_second()) == B::spec_reduce_motion(
                old(self).spec_second(),
            ),
            final(self).spec_selection() == old(self).spec_selection(),
    {
        let first = A::set_color_scheme(runtime, &mut self.first, color_scheme);
        let second = B::set_color_scheme(runtime, &mut self.second, color_scheme);
        first || second
    }

    /// Switches both backends to the other scheme of the selected backend and
    /// returns it.
    pub fn toggle_color_scheme(&mut self, runtime: &mut MotionRuntime) -> (r: ColorScheme)
        ensures
            r == old(self).spec_color_scheme().spec_toggled(),
            A::spec_color_scheme(final(self).spec_first()) == r,
            B::spec_color_scheme(final(self).spec_second()) == r,
            final(self).spec_color_scheme() == r,
            A::spec_reduce_motion(final(self).spec_first()) == A::spec_reduce_motion(
                old(self).spec_first(),
            ),
            B::spec_reduce_motion(final(self).spec_second()) == B::spec_reduce_motion(
                old(self).spec_second(),
            ),
            final(self).spec_selection() == old(self).spec_selection(),
    {
        let color_scheme = self.color_scheme().toggled();
        self.set_color_scheme(runtime, color_scheme);
        color_scheme
    }

    /// Applies one reduced-motion preference to both backends.
    pub fn set_reduce_motion(&mut self, runtime: &mut MotionRuntime, reduce_motion: bool)
        ensures
            A::spec_reduce_motion(final(self).spec_first()) == reduce_motion,
            B::spec_reduce_motion(final(self).spec_second()) == reduce_motion,
            final(self).spec_reduce_motion() == reduce_motion,
            A::spec_color_scheme(final(self).spec_first()) == A::spec_color_scheme(
                old(self).spec_first(),
            ),
            B::spec_color_scheme(final(self).spec_second()) == B::spec_color_scheme(
                old(self).spec_second(),
            ),
            final(self).spec_selection() == old(self).spec_selection(),
    {
        A::set_reduce_motion(runtime, &mut self.first, reduce_motion);
        B::set_reduce_motion(runtime, &mut self.second, reduce_motion);
    }

    /// Toggles the selected backend's reduced-motion preference and applies
    /// the result to both backends.
    pub fn toggle_reduce_motion(&mut self, runtime: &mut MotionRuntime) -> (r: bool)
        ensures
            r == !old(self).spec_reduce_motion(),
            A::spec_reduce_motion(final(self).spec_first()) == r,
            B::spec_reduce_motion(final(self).spec_second()) == r,
            final(self).spec_reduce_motion() == r,
            A::spec_color_scheme(final(self).spec_first()) == A::spec_color_scheme(
                old(self).spec_first(),
            ),
            B::spec_color_scheme(final(self).spec_second()) == B::spec_color_scheme(
                old(self).spec_second(),
            ),
            final(self).spec_selection() == old(self).spec_selection(),
    {
        let reduce_motion = !self.reduce_motion();
        self.set_reduce_motion(runtime, reduce_motion);
        reduce_motion
    }
}


/// Each toggle is an involution that always changes its value, and the
/// backend of a family corresponds one to one with the family it renders,
/// toggles included.
pub proof fn lemma_toggles_and_family_correspondence(
    family: ThemeFamily,
    color_scheme: ColorScheme,
    selection: BackendSelection,
)
    ensures
        family.spec_toggled().spec_toggled() == family,
        family.spec_toggled() != family,
        color_scheme.spec_toggled().spec_toggled() == color_scheme,
        color_scheme.spec_toggled() != color_scheme,
        selection.spec_toggled().spec_toggled() == selection,
        selection.spec_toggled() != selection,
        selection_family(family_selection(family)) == family,
        family_selection(selection_family(selection)) == selection,
        family_selection(family.spec_toggled()) == family_selection(family).spec_toggled(),
{
}

/// Switching the family twice restores the adapter context exactly: the
/// selection comes back and both retained backend contexts were never
/// touched.
pub proof fn lemma_toggle_family_twice<A: ThemeBackend, B: ThemeBackend>(
    before: AdapterContext<A, B>,
    middle: AdapterContext<A, B>,
    after: AdapterContext<A, B>,
)
    requires
        middle.spec_selection() == family_selection(
            selection_family(before.spec_selection()).spec_toggled(),
        ),
        middle.spec_first() == before.spec_first(),
        middle.spec_second() == before.spec_second(),
        after.spec_selection() == family_selection(
            selection_family(middle.spec_selection()).spec_toggled(),
        ),
        after.spec_first() == middle.spec_first(),
        after.spec_second() == middle.spec_second(),
    ensures
        after == before,
{
}

/// Selecting a family is idempotent: a second selection of the same family
/// reports no change and leaves the context as the first one left it.
pub proof fn lemma_set_family_idempotent<A: ThemeBackend, B: ThemeBackend>(
    family: ThemeFamily,
    first: AdapterContext<A, B>,
    second: AdapterContext<A, B>,
    changed: bool,
)
    requires
        first.spec_selection() == family_selection(family),
        second.spec_selection() == family_selection(family),
        changed == (first.spec_selection() != family_selection(family)),
        second.spec_first() == first.spec_first(),
        second.spec_second() == first.spec_second(),
    ensures
        !changed,
        second == first,
{
}


/// Mutable runtime inputs used by adapter components.
pub struct AdapterUpdateCx<'a, A: ThemeBackend, B: ThemeBackend> {
    runtime: &'a mut MotionRuntime,
    context: &'a mut AdapterContext<A, B>,
}

impl<'a, A: ThemeBackend, B: ThemeBackend> AdapterUpdateCx<'a, A, B> {
    /// The adapter context being updated.
    pub closed spec fn spec_context(self) -> AdapterContext<A, B> {
        *self.context
    }

    /// The animation runtime as this update context holds it.
    pub closed spec fn spec_runtime(self) -> MotionRuntime {
        *self.runtime
    }

    /// Creates an adapter update context.
    pub fn new(runtime: &'a mut MotionRuntime, context: &'a mut AdapterContext<A, B>) -> (r: Self)
        ensures
            r.spec_context() == *old(context),
            r.spec_runtime() == *old(runtime),
    {
        Self { runtime, context }
    }

    /// Returns the active built-in family.
    pub fn family(&self) -> (r: ThemeFamily)
        ensures
            r == selection_family(self.spec_context().spec_selection()),
    {
        self.context.family()
    }

    /// Selects a family without a cross-theme transition.
    pub fn set_family(&mut self, family: ThemeFamily) -> (changed: bool)
        ensures
            final(self).spec_runtime() == old(self).spec_runtime(),
            final(self).spec_context().spec_selection() == family_selection(family),
            changed == (old(self).spec_context().spec_selection() != family_selection(family)),
            final(self).spec_context().spec_first() == old(self).spec_context().spec_first(),
            final(self).spec_context().spec_second() == old(self).spec_context().spec_second(),
    {
        self.context.set_family(family)
    }

    /// Selects the other family.
    pub fn toggle_family(&mut self) -> (r: ThemeFamily)
        ensures
            final(self).spec_runtime() == old(self).spec_runtime(),
            r == selection_family(old(self).spec_context().spec_selection()).spec_toggled(),
            final(self).spec_context().spec_selection() == family_selection(r),
            final(self).spec_context().spec_first() == old(self).spec_context().spec_first(),
            final(self).spec_context().spec_second() == old(self).spec_context().spec_second(),
    {
        self.context.toggle_family()
    }

    /// Returns the selected backend.
    pub fn selection(&self) -> (r: BackendSelection)
        ensures
            r == self.spec_context().spec_selection(),
    {
        self.context.selection()
    }

    /// Selects a backend without a cross-theme transition; returns whether
    /// the selection changed.
    pub fn set_selection(&mut self, selection: BackendSelection) -> (changed: bool)
        ensures
            final(self).spec_runtime() == old(self).spec_runtime(),
            final(self).spec_context().spec_selection() == selection,
            changed == (old(self).spec_context().spec_selection() != selection),
            final(self).spec_context().spec_first() == old(self).spec_context().spec_first(),
            final(self).spec_context().spec_second() == old(self).spec_context().spec_second(),
    {
        self.context.set_selection(selection)
    }

    /// Selects the other backend and returns it.
    pub fn toggle_selection(&mut self) -> (r: BackendSelection)
        ensures
            final(self).spec_runtime() == old(self).spec_runtime(),
            r == old(self).spec_context().spec_selection().spec_toggled(),
            final(self).spec_context().spec_selection() == r,
            final(self).spec_context().spec_first() == old(self).spec_context().spec_first(),
            final(self).spec_context().spec_second() == old(self).spec_context().spec_second(),
    {
        self.context.toggle_selection()
    }

    /// Returns whether non-essential motion is reduced in the selected
    /// backend.
    pub fn reduce_motion(&self) -> (r: bool)
        ensures
            r == self.spec_context().spec_reduce_motion(),
    {
        self.context.reduce_motion()
    }

    /// Returns the color scheme of the selected backend.
    pub fn color_scheme(&self) -> (r: ColorScheme)
        ensures
            r == self.spec_context().spec_color_scheme(),
    {
        self.context.color_scheme()
    }

    /// Applies one color scheme to both backends; returns whether either
    /// changed.
    pub fn set_color_scheme(&mut self, color_scheme: ColorScheme) -> (changed: bool)
        ensures
            A::spec_color_scheme(final(self).spec_context().spec_first()) == color_scheme,
            B::spec_color_scheme(final(self).spec_context().spec_second()) == color_scheme,
            changed == (A::spec_color_scheme(old(self).spec_context().spec_first()) != color_scheme
                || B::spec_color_scheme(old(self).spec_context().spec_second()) != color_scheme),
            A::spec_reduce_motion(final(self).spec_context().spec_first()) == A::spec_reduce_motion(
                old(self).spec_context().spec_first(),
            ),
            B::spec_reduce_motion(final(self).spec_context().spec_second()) == B::spec_reduce_motion(
                old(self).spec_context().spec_second(),
            ),
            final(self).spec_context().spec_selection() == old(self).spec_context().spec_selection(),
    {
        self.context.set_color_scheme(self.runtime, color_scheme)
    }

    /// Switches both backends to the other scheme of the selected backend and
    /// returns it.
    pub fn toggle_color_scheme(&mut self) -> (r: ColorScheme)
        ensures
            r == old(self).spec_context().spec_color_scheme().spec_toggled(),
            final(self).spec_context().spec_color_scheme() == r,
            A::spec_color_scheme(final(self).spec_context().spec_first()) == r,
            B::spec_color_scheme(final(self).spec_context().spec_second()) == r,
            A::spec_reduce_motion(final(self).spec_context().spec_first()) == A::spec_reduce_motion(
                old(self).spec_context().spec_first(),
            ),
            B::spec_reduce_motion(final(self).spec_context().spec_second()) == B::spec_reduce_motion(
                old(self).spec_context().spec_second(),
            ),
            final(self).spec_context().spec_selection() == old(self).spec_context().spec_selection(),
    {
        self.context.toggle_color_scheme(self.runtime)
    }

    /// Updates reduced motion for both backends.
    pub fn set_reduce_motion(&mut self, reduce_motion: bool)
        ensures
            A::spec_reduce_motion(final(self).spec_context().spec_first()) == reduce_motion,
            B::spec_reduce_motion(final(self).spec_context().spec_second()) == reduce_motion,
            final(self).spec_context().spec_reduce_motion() == reduce_motion,
            A::spec_color_scheme(final(self).spec_context().spec_first()) == A::spec_color_scheme(
                old(self).spec_context().spec_first(),
            ),
            B::spec_color_scheme(final(self).spec_context().spec_second()) == B::spec_color_scheme(
                old(self).spec_context().spec_second(),
            ),
            final(self).spec_context().spec_selection() == old(self).spec_context().spec_selection(),
    {
        self.context.set_reduce_motion(self.runtime, reduce_motion)
    }

    /// Toggles reduced motion for both backends and returns the new value.
    pub fn toggle_reduce_motion(&mut self) -> (r: bool)
        ensures
            r == !old(self).spec_context().spec_reduce_motion(),
            A::spec_reduce_motion(final(self).spec_context().spec_first()) == r,
            B::spec_reduce_motion(final(self).spec_context().spec_second()) == r,
            final(self).spec_context().spec_reduce_motion() == r,
            A::spec_color_scheme(final(self).spec_context().spec_first()) == A::spec_color_scheme(
                old(self).spec_context().spec_first(),
            ),
            B::spec_color_scheme(final(self).spec_context().spec_second()) == B::spec_color_scheme(
                old(self).spec_context().spec_second(),
            ),
            final(self).spec_context().spec_selection() == old(self).spec_context().spec_selection(),
    {
        self.context.toggle_reduce_motion(self.runtime)
    }
}

/// Read-only runtime inputs used by adapter views.
pub struct AdapterViewCx<'a, A: ThemeBackend, B: ThemeBackend> {
    runtime: &'a MotionRuntime,
    context: &'a AdapterContext<A, B>,
}

impl<'a, A: ThemeBackend, B: ThemeBackend> AdapterViewCx<'a, A, B> {
    /// The adapter context being viewed.
    pub closed spec fn spec_context(self) -> AdapterContext<A, B> {
        *self.context
    }

    /// The runtime used to read animated values.
    pub closed spec fn spec_runtime(self) -> MotionRuntime {
        *self.runtime
    }

    /// Creates an adapter view context.
    pub fn new(runtime: &'a MotionRuntime, context: &'a AdapterContext<A, B>) -> (r: Self)
        ensures
            r.spec_context() == *context,
            r.spec_runtime() == *runtime,
    {
        Self { runtime, context }
    }

    /// Returns the runtime used to read animated values.
    pub fn runtime(&self) -> (r: &'a MotionRuntime)
        ensures
            *r == self.spec_runtime(),
    {
        self.runtime
    }

    /// Returns the active built-in family.
    pub fn family(&self) -> (r: ThemeFamily)
        ensures
            r == selection_family(self.spec_context().spec_selection()),
    {
        self.context.family()
    }

    /// Returns the selected backend.
    pub fn selection(&self) -> (r: BackendSelection)
        ensures
            r == self.spec_context().spec_selection(),
    {
        self.context.selection()
    }

    /// Returns whether non-essential motion is reduced in the selected
    /// backend.
    pub fn reduce_motion(&self) -> (r: bool)
        ensures
            r == self.spec_context().spec_reduce_motion(),
    {
        self.context.reduce_motion()
    }

    /// Returns the color scheme of the selected backend.
    pub fn color_scheme(&self) -> (r: ColorScheme)
        ensures
            r == self.spec_context().spec_color_scheme(),
    {
        self.context.color_scheme()
    }
}

} // verus!
