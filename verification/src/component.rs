//! Shared component inputs that can change while the application runs.

use vstd::prelude::*;

use crate::theme::{ThemeContext, ThemeLoadError, ThemePack};

verus! {

/// Revision of a component context's theme: every theme change moves it
/// on, so a motion value recorded under an earlier revision is known stale.
#[derive(Clone, Copy, Debug, Eq, PartialEq, Structural)]
pub struct ThemeRevision {
    value: u64,
}

impl ThemeRevision {
    /// The revision counter.
    pub closed spec fn spec_value(self) -> u64 {
        self.value
    }

    /// The revision of a freshly created context.
    pub closed spec fn spec_initial() -> ThemeRevision {
        ThemeRevision { value: 0 }
    }

    /// The revision after one more theme change (the counter wraps).
    pub closed spec fn spec_next(self) -> ThemeRevision {
        ThemeRevision { value: if self.value == u64::MAX { 0 } else { (self.value + 1) as u64 } }
    }

    /// Returns the revision of a freshly created context.
    pub fn initial() -> (r: Self)
        ensures
            r == Self::spec_initial(),
    {
        ThemeRevision { value: 0 }
    }

    /// Returns the revision after one more theme change; it always differs
    /// from this one.
    pub fn next(self) -> (r: Self)
        ensures
            r == self.spec_next(),
            r != self,
    {
        if self.value == u64::MAX {
            ThemeRevision { value: 0 }
        } else {
            ThemeRevision { value: self.value + 1 }
        }
    }
}

impl Default for ThemeRevision {
    /// The revision of a freshly created context.
    fn default() -> (r: Self)
        ensures
            r == Self::spec_initial(),
    {
        Self::initial()
    }
}

/// What a motion slot does with the application's runtime before it plays
/// an animation from a fresh starting value.
#[derive(Clone, Copy, Debug, Eq, PartialEq)]
pub enum SlotPreparation {
    /// The registered motion belongs to the current theme and is reused.
    Reuse,
    /// Nothing is registered yet: register a motion from the initial value.
    Register,
    /// The registered motion belongs to an earlier theme: remove it, then
    /// register a new one from the initial value.
    Replace,
}

/// Registration and theme-revision bookkeeping of a component motion slot.
///
/// A slot is registered at most once in the application's runtime, and it
/// remembers the theme revision its runtime value belongs to: rendering reads
/// the runtime value only while that revision is current, and a fresh play
/// after a theme change replaces the stale motion.
#[derive(Clone, Copy, Debug, Eq, PartialEq)]
pub struct MotionSlotState {
    registered: bool,
    theme_revision: Option<ThemeRevision>,
}

impl MotionSlotState {
    #[verifier::type_invariant]
    spec fn revision_iff_registered(self) -> bool {
        self.registered <==> self.theme_revision is Some
    }

    /// Whether a motion is registered.
    pub closed spec fn spec_registered(self) -> bool {
        self.registered
    }

    /// The theme revision of the registered motion's value.
    pub closed spec fn spec_theme_revision(self) -> Option<ThemeRevision> {
        self.theme_revision
    }

    /// An unregistered slot.
    pub fn new() -> (r: Self)
        ensures
            !r.spec_registered(),
            r.spec_theme_revision() is None,
    {
        Self { registered: false, theme_revision: None }
    }

    /// Returns whether a motion is registered.
    pub fn is_registered(&self) -> (r: bool)
        ensures
            r == self.spec_registered(),
            r <==> self.spec_theme_revision() is Some,
    {
        proof {
            use_type_invariant(self);
        }
        self.registered
    }

    /// Returns the theme revision of the registered motion's value.
    pub fn theme_revision(&self) -> (r: Option<ThemeRevision>)
        ensures
            r == self.spec_theme_revision(),
    {
        self.theme_revision
    }

    /// Returns whether the registered motion's value belongs to
    /// `theme_revision`; rendering reads the runtime value only then.
    pub fn is_current(&self, theme_revision: ThemeRevision) -> (r: bool)
        ensures
            r == (self.spec_theme_revision() == Some(theme_revision)),
    {
        match self.theme_revision {
            Some(revision) => revision == theme_revision,
            None => false,
        }
    }

    /// Registration: returns whether a motion must be registered now; a
    /// registered slot is left as it is, registration happens exactly once.
    pub fn register(&mut self, theme_revision: ThemeRevision) -> (r: bool)
        ensures
            r == !old(self).spec_registered(),
            final(self).spec_registered(),
            final(self).spec_theme_revision() == (if old(self).spec_registered() {
                old(self).spec_theme_revision()
            } else {
                Some(theme_revision)
            }),
    {
        proof {
            use_type_invariant(&*self);
        }
        if self.registered {
            return false;
        }
        *self = Self { registered: true, theme_revision: Some(theme_revision) };
        true
    }

    /// Preparation of a play from a fresh starting value: a current motion is
    /// reused, a missing one registered and a stale one replaced; afterwards
    /// the slot is registered under `theme_revision`.
    pub fn prepare_fresh(&mut self, theme_revision: ThemeRevision) -> (r: SlotPreparation)
        ensures
            r == (if !old(self).spec_registered() {
                SlotPreparation::Register
            } else if old(self).spec_theme_revision() == Some(theme_revision) {
                SlotPreparation::Reuse
            } else {
                SlotPreparation::Replace
            }),
            final(self).spec_registered(),
            final(self).spec_theme_revision() == Some(theme_revision),
    {
        proof {
            use_type_invariant(&*self);
        }
        let preparation = if !self.registered {
            SlotPreparation::Register
        } else if self.is_current(theme_revision) {
            SlotPreparation::Reuse
        } else {
            SlotPreparation::Replace
        };
        *self = Self { registered: true, theme_revision: Some(theme_revision) };
        preparation
    }

    /// Records a play on the registered motion under `theme_revision`;
    /// returns whether anything was played (nothing before registration).
    pub fn record_play(&mut self, theme_revision: ThemeRevision) -> (r: bool)
        ensures
            r == old(self).spec_registered(),
            final(self).spec_registered() == old(self).spec_registered(),
            final(self).spec_theme_revision() == (if old(self).spec_registered() {
                Some(theme_revision)
            } else {
                None
            }),
    {
        proof {
            use_type_invariant(&*self);
        }
        if !self.registered {
            return false;
        }
        *self = Self { registered: true, theme_revision: Some(theme_revision) };
        true
    }
}

impl Default for MotionSlotState {
    /// An unregistered slot.
    fn default() -> (r: Self)
        ensures
            !r.spec_registered(),
            r.spec_theme_revision() is None,
    {
        Self::new()
    }
}

/// A theme change makes every motion value recorded before it stale: a slot
/// whose value belongs to the revision before the change is not current
/// under the revision after it.
pub proof fn lemma_theme_change_makes_slot_stale(slot: MotionSlotState, before: ThemeRevision)
    requires
        slot.spec_theme_revision() == Some(before),
    ensures
        slot.spec_theme_revision() != Some(before.spec_next()),
{
}

/// Shared component inputs that can change while the application is running.
#[derive(Clone, Copy, Debug)]
pub struct ComponentContext {
    theme: ThemeContext,
    reduce_motion: bool,
    theme_revision: ThemeRevision,
}

impl ComponentContext {
    /// The revision of the current theme.
    pub closed spec fn spec_theme_revision(self) -> ThemeRevision {
        self.theme_revision
    }

    /// The theme context.
    pub closed spec fn spec_theme(self) -> ThemeContext {
        self.theme
    }

    /// Whether non-essential animation should be reduced.
    pub closed spec fn spec_reduce_motion(self) -> bool {
        self.reduce_motion
    }

    /// Creates a component context from explicit inputs.
    pub fn new(theme: ThemeContext) -> (r: Self)
        ensures
            r.spec_theme() == theme,
            !r.spec_reduce_motion(),
            r.spec_theme_revision() == ThemeRevision::spec_initial(),
    {
        Self { theme, reduce_motion: false, theme_revision: ThemeRevision::initial() }
    }

    /// Creates a context from the default Adwaita-like theme.
    pub fn adwaita() -> (r: Self)
        requires
            crate::theme::pack::adwaita_loads(),
        ensures
            r.spec_theme()@ == crate::theme::pack::spec_adwaita(),
            !r.spec_reduce_motion(),
            r.spec_theme_revision() == ThemeRevision::spec_initial(),
    {
        Self::new(ThemeContext::adwaita())
    }

    /// Creates a context from the default Adwaita-like theme, or returns
    /// `None` when the embedded theme does not load.
    pub fn adwaita_checked() -> (r: Option<Self>)
        ensures
            r is Some <==> crate::theme::pack::adwaita_loads(),
            r matches Some(context) ==> context.spec_theme()@ == crate::theme::pack::spec_adwaita()
                && !context.spec_reduce_motion() && context.spec_theme_revision()
                == ThemeRevision::spec_initial(),
    {
        match ThemeContext::adwaita_checked() {
            Some(theme) => Some(Self::new(theme)),
            None => None,
        }
    }

    /// Resets this context to the default Adwaita-like theme when the
    /// embedded theme loads, and returns whether it did; otherwise the
    /// context is unchanged.
    pub fn try_reset_theme(&mut self) -> (r: bool)
        ensures
            r == crate::theme::pack::adwaita_loads(),
            r ==> final(self).spec_theme()@ == crate::theme::pack::spec_adwaita()
                && final(self).spec_reduce_motion() == old(self).spec_reduce_motion()
                && final(self).spec_theme_revision() == old(self).spec_theme_revision().spec_next(),
            !r ==> *final(self) == *old(self),
    {
        match ThemeContext::adwaita_checked() {
            Some(theme) => {
                self.set_theme(theme);
                true
            },
            None => false,
        }
    }

    /// Returns the revision of the current theme; every theme change moves
    /// it on.
    pub fn theme_revision(&self) -> (r: ThemeRevision)
        ensures
            r == self.spec_theme_revision(),
    {
        self.theme_revision
    }

    /// Returns the theme context.
    pub fn theme(&self) -> (r: &ThemeContext)
        ensures
            *r == self.spec_theme(),
    {
        &self.theme
    }

    /// Replaces the theme context.
    pub fn set_theme(&mut self, theme: ThemeContext)
        ensures
            final(self).spec_theme() == theme,
            final(self).spec_reduce_motion() == old(self).spec_reduce_motion(),
            final(self).spec_theme_revision() == old(self).spec_theme_revision().spec_next(),
    {
        self.theme = theme;
        self.theme_revision = self.theme_revision.next();
    }

    /// Replaces the theme with an owned theme pack.
    pub fn set_theme_pack(&mut self, theme: ThemePack)
        ensures
            final(self).spec_theme()@ == theme,
            final(self).spec_reduce_motion() == old(self).spec_reduce_motion(),
            final(self).spec_theme_revision() == old(self).spec_theme_revision().spec_next(),
    {
        self.theme = ThemeContext::new(theme);
        self.theme_revision = self.theme_revision.next();
    }

    /// Replaces the theme with one loaded from plain TOML text (ASCII without
    /// backslashes); on failure the context is unchanged.
    pub fn load_theme_from_str(&mut self, config: &str) -> (r: Result<(), ThemeLoadError>)
        requires
            crate::theme::source::plain_theme_text(config@),
        ensures
            crate::theme::pack::toml_load_matches(
                config@,
                match r {
                    Ok(()) => Ok(final(self).spec_theme()@),
                    Err(error) => Err(error),
                },
            ),
            r is Err ==> *final(self) == *old(self),
            r is Ok ==> final(self).spec_theme_revision() == old(self).spec_theme_revision().spec_next(),
            final(self).spec_reduce_motion() == old(self).spec_reduce_motion(),
    {
        let theme_pack = match ThemePack::try_from_toml(config) {
            Ok(theme_pack) => theme_pack,
            Err(error) => return Err(error),
        };
        self.set_theme_pack(theme_pack);
        Ok(())
    }

    /// Resets this context to the default Adwaita-like theme.
    pub fn reset_theme(&mut self)
        requires
            crate::theme::pack::adwaita_loads(),
        ensures
            final(self).spec_theme()@ == crate::theme::pack::spec_adwaita(),
            final(self).spec_reduce_motion() == old(self).spec_reduce_motion(),
            final(self).spec_theme_revision() == old(self).spec_theme_revision().spec_next(),
    {
        self.theme = ThemeContext::adwaita();
        self.theme_revision = self.theme_revision.next();
    }

    /// Applies local theme token changes to this context.
    pub fn patch_theme(&mut self, patch: impl FnOnce(&mut ThemePack))
        requires
            forall|theme: &mut ThemePack| call_requires(patch, (theme,)),
        ensures
            exists|theme: &mut ThemePack|
                *theme == old(self).spec_theme()@ && *final(theme) == final(self).spec_theme()@
                    && call_ensures(patch, (theme,), ()),
            final(self).spec_reduce_motion() == old(self).spec_reduce_motion(),
            final(self).spec_theme_revision() == old(self).spec_theme_revision().spec_next(),
    {
        self.theme = self.theme.with_patch(patch);
        self.theme_revision = self.theme_revision.next();
    }

    /// Returns a context with local theme token changes applied; this context
    /// is left unchanged.
    pub fn scoped_theme(&self, patch: impl FnOnce(&mut ThemePack)) -> (r: Self)
        requires
            forall|theme: &mut ThemePack| call_requires(patch, (theme,)),
        ensures
            exists|theme: &mut ThemePack|
                *theme == self.spec_theme()@ && *final(theme) == r.spec_theme()@
                    && call_ensures(patch, (theme,), ()),
            r.spec_reduce_motion() == self.spec_reduce_motion(),
            r.spec_theme_revision() == self.spec_theme_revision().spec_next(),
    {
        Self {
            theme: self.theme.scoped(patch),
            reduce_motion: self.reduce_motion,
            theme_revision: self.theme_revision.next(),
        }
    }

    /// Returns whether non-essential animation should be reduced.
    pub fn reduce_motion(&self) -> (r: bool)
        ensures
            r == self.spec_reduce_motion(),
    {
        self.reduce_motion
    }

    /// Updates whether non-essential animation should be reduced.
    pub fn set_reduce_motion(&mut self, reduce_motion: bool)
        ensures
            final(self).spec_reduce_motion() == reduce_motion,
            final(self).spec_theme() == old(self).spec_theme(),
            final(self).spec_theme_revision() == old(self).spec_theme_revision(),
    {
        self.reduce_motion = reduce_motion;
    }

    /// Returns a context with a different reduced-motion preference.
    pub fn with_reduce_motion(self, reduce_motion: bool) -> (r: Self)
        ensures
            r.spec_reduce_motion() == reduce_motion,
            r.spec_theme() == self.spec_theme(),
            r.spec_theme_revision() == self.spec_theme_revision(),
    {
        let mut context = self;
        context.reduce_motion = reduce_motion;
        context
    }

    /// Toggles the reduced-motion preference.
    pub fn toggle_reduce_motion(&mut self)
        ensures
            final(self).spec_reduce_motion() == !old(self).spec_reduce_motion(),
            final(self).spec_theme() == old(self).spec_theme(),
            final(self).spec_theme_revision() == old(self).spec_theme_revision(),
    {
        self.reduce_motion = !self.reduce_motion;
    }
}

/// Resetting the theme undoes every earlier theme change: whatever theme a
/// context held (patched, replaced or loaded), after a reset it holds the
/// same default theme as a freshly created default context, and it keeps
/// its own reduced-motion preference. A reset needs the embedded default
/// theme to load.
pub proof fn lemma_reset_restores_default(
    changed: ComponentContext,
    reset: ComponentContext,
    fresh: ComponentContext,
)
    requires
        crate::theme::pack::adwaita_loads(),
        reset.spec_theme()@ == crate::theme::pack::spec_adwaita(),
        reset.spec_reduce_motion() == changed.spec_reduce_motion(),
        fresh.spec_theme()@ == crate::theme::pack::spec_adwaita(),
    ensures
        reset.spec_theme()@ == fresh.spec_theme()@,
        reset.spec_reduce_motion() == changed.spec_reduce_motion(),
{
}

/// Toggling the reduced-motion preference twice restores it, and the theme
/// is never touched.
pub proof fn lemma_toggle_reduce_motion_twice(before: ComponentContext, middle: ComponentContext, after: ComponentContext)
    requires
        middle.spec_reduce_motion() == !before.spec_reduce_motion(),
        middle.spec_theme() == before.spec_theme(),
        after.spec_reduce_motion() == !middle.spec_reduce_motion(),
        after.spec_theme() == middle.spec_theme(),
        middle.spec_theme_revision() == before.spec_theme_revision(),
        after.spec_theme_revision() == middle.spec_theme_revision(),
    ensures
        after == before,
{
}

} // verus!
