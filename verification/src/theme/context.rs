//! Theme snapshot used while resolving component styles.

use vstd::prelude::*;

use super::pack::ThemePack;

verus! {

/// Theme snapshot used while resolving component styles.
#[derive(Clone, Copy, Debug)]
pub struct ThemeContext {
    theme: ThemePack,
}

impl View for ThemeContext {
    type V = ThemePack;

    /// The resolved theme snapshot.
    closed spec fn view(&self) -> ThemePack {
        self.theme
    }
}

impl ThemeContext {
    /// Creates a context from an owned theme pack.
    pub fn new(theme: ThemePack) -> (r: Self)
        ensures
            r@ == theme,
    {
        Self { theme }
    }

    /// Creates a context by copying a theme pack.
    pub fn from_theme(theme: &ThemePack) -> (r: Self)
        ensures
            r@ == *theme,
    {
        Self { theme: *theme }
    }

    /// Creates a context from the default Adwaita-like theme.
    pub fn adwaita() -> (r: Self)
        requires
            super::pack::adwaita_loads(),
        ensures
            r@ == super::pack::spec_adwaita(),
    {
        Self::new(ThemePack::adwaita())
    }

    /// Returns a context with the default Adwaita-like theme, or `None` when
    /// the embedded theme does not load.
    pub fn adwaita_checked() -> (r: Option<Self>)
        ensures
            r is Some <==> super::pack::adwaita_loads(),
            r matches Some(context) ==> context@ == super::pack::spec_adwaita(),
    {
        match ThemePack::adwaita_checked() {
            Some(theme) => Some(Self::new(theme)),
            None => None,
        }
    }

    /// Returns the resolved theme snapshot.
    pub fn theme(&self) -> (r: &ThemePack)
        ensures
            *r == self@,
    {
        &self.theme
    }

    /// Returns a scoped context with local token changes applied; this
    /// context is left unchanged.
    pub fn scoped(&self, patch: impl FnOnce(&mut ThemePack)) -> (r: Self)
        requires
            forall|theme: &mut ThemePack| call_requires(patch, (theme,)),
        ensures
            exists|theme: &mut ThemePack|
                *theme == self@ && *final(theme) == r@ && call_ensures(patch, (theme,), ()),
    {
        let mut theme = self.theme;
        patch(&mut theme);
        Self { theme }
    }

    /// Applies local token changes to this context.
    pub fn with_patch(self, patch: impl FnOnce(&mut ThemePack)) -> (r: Self)
        requires
            forall|theme: &mut ThemePack| call_requires(patch, (theme,)),
        ensures
            exists|theme: &mut ThemePack|
                *theme == self@ && *final(theme) == r@ && call_ensures(patch, (theme,), ()),
    {
        let mut context = self;
        patch(&mut context.theme);
        context
    }

    /// Consumes the context and returns its theme pack.
    pub fn into_theme(self) -> (r: ThemePack)
        ensures
            r == self@,
    {
        self.theme
    }
}

} // verus!
