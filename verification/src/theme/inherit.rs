//! State inheritance of loaded themes.
//!
//! A state that extends a parent state (`hover extends idle`, `pressed
//! extends hover`, `disabled extends idle`) takes its own token wherever the
//! source has one, and the parent state's value wherever it has none. A root
//! state (`idle`) takes its own tokens, which must all be present.

use vstd::prelude::*;

use spectrum_theme::{Color, Length, Radius, ShadowLayer};

use super::pack::{ButtonStates, ButtonTokens, SurfaceStates, SurfaceTokens, ThemePack};
use super::source::{TokenError, TokenValue};

verus! {

/// The field `field` of the state at `base` extends the parent's value: the
/// state's own token when present, the parent's value when absent.
pub open spec fn field_inherits<T: TokenValue>(
    text: Seq<char>,
    base: Seq<char>,
    field: Seq<char>,
    own: T,
    parent: T,
) -> bool {
    let read = T::spec_read(text, base + "."@ + field);
    if super::source::is_missing_read(read) {
        own == parent
    } else {
        read == Ok::<T, TokenError>(own)
    }
}

/// The field `field` of the root state at `base` is the state's own token.
pub open spec fn field_reads<T: TokenValue>(text: Seq<char>, base: Seq<char>, field: Seq<char>, own: T) -> bool {
    T::spec_read(text, base + "."@ + field) == Ok::<T, TokenError>(own)
}

/// Every field of the surface state at `base` extends `parent`.
pub open spec fn surface_inherits(text: Seq<char>, base: Seq<char>, own: SurfaceTokens, parent: SurfaceTokens) -> bool {
    &&& field_inherits::<Color>(text, base, "bg"@, own.bg, parent.bg)
    &&& field_inherits::<Color>(text, base, "fg"@, own.fg, parent.fg)
    &&& field_inherits::<Color>(text, base, "border"@, own.border, parent.border)
    &&& field_inherits::<Length>(text, base, "border_width"@, own.border_width, parent.border_width)
    &&& field_inherits::<Radius>(text, base, "radius"@, own.radius, parent.radius)
    &&& field_inherits::<ShadowLayer>(text, base, "shadow"@, own.shadow, parent.shadow)
}

/// Every field of the root surface state at `base` is its own token.
pub open spec fn surface_reads(text: Seq<char>, base: Seq<char>, own: SurfaceTokens) -> bool {
    &&& field_reads::<Color>(text, base, "bg"@, own.bg)
    &&& field_reads::<Color>(text, base, "fg"@, own.fg)
    &&& field_reads::<Color>(text, base, "border"@, own.border)
    &&& field_reads::<Length>(text, base, "border_width"@, own.border_width)
    &&& field_reads::<Radius>(text, base, "radius"@, own.radius)
    &&& field_reads::<ShadowLayer>(text, base, "shadow"@, own.shadow)
}

/// Every field of the button state at `base` extends `parent`.
pub open spec fn button_inherits(text: Seq<char>, base: Seq<char>, own: ButtonTokens, parent: ButtonTokens) -> bool {
    &&& field_inherits::<Color>(text, base, "bg"@, own.bg, parent.bg)
    &&& field_inherits::<Color>(text, base, "fg"@, own.fg, parent.fg)
    &&& field_inherits::<Color>(text, base, "border"@, own.border, parent.border)
    &&& field_inherits::<Length>(text, base, "border_width"@, own.border_width, parent.border_width)
    &&& field_inherits::<Radius>(text, base, "radius"@, own.radius, parent.radius)
    &&& field_inherits::<Color>(text, base, "focus_ring"@, own.focus_ring, parent.focus_ring)
    &&& field_inherits::<ShadowLayer>(text, base, "shadow"@, own.shadow, parent.shadow)
}

/// Every field of the root button state at `base` is its own token.
pub open spec fn button_reads(text: Seq<char>, base: Seq<char>, own: ButtonTokens) -> bool {
    &&& field_reads::<Color>(text, base, "bg"@, own.bg)
    &&& field_reads::<Color>(text, base, "fg"@, own.fg)
    &&& field_reads::<Color>(text, base, "border"@, own.border)
    &&& field_reads::<Length>(text, base, "border_width"@, own.border_width)
    &&& field_reads::<Radius>(text, base, "radius"@, own.radius)
    &&& field_reads::<Color>(text, base, "focus_ring"@, own.focus_ring)
    &&& field_reads::<ShadowLayer>(text, base, "shadow"@, own.shadow)
}

/// A surface state set under `prefix`: `idle` is read, `hover` extends `idle`.
pub open spec fn surface_states_inherit(text: Seq<char>, prefix: Seq<char>, states: SurfaceStates) -> bool {
    &&& surface_reads(text, prefix + "."@ + "idle"@, states.idle)
    &&& surface_inherits(text, prefix + "."@ + "hover"@, states.hover, states.idle)
}

/// A button state set under `prefix`: `idle` is read, `hover` extends
/// `idle`, `pressed` extends `hover` and `disabled` extends `idle`.
pub open spec fn button_states_inherit(text: Seq<char>, prefix: Seq<char>, states: ButtonStates) -> bool {
    &&& button_reads(text, prefix + "."@ + "idle"@, states.idle)
    &&& button_inherits(text, prefix + "."@ + "hover"@, states.hover, states.idle)
    &&& button_inherits(text, prefix + "."@ + "pressed"@, states.pressed, states.hover)
    &&& button_inherits(text, prefix + "."@ + "disabled"@, states.disabled, states.idle)
}

/// Every state set of a theme loaded from `text` follows its inheritance
/// chain.
pub open spec fn theme_states_inherit(text: Seq<char>, theme: ThemePack) -> bool {
    &&& surface_states_inherit(text, "surface.background"@, theme.surface.background)
    &&& surface_states_inherit(text, "surface.regular"@, theme.surface.regular)
    &&& surface_states_inherit(text, "surface.raised"@, theme.surface.raised)
    &&& button_states_inherit(text, "button.standard_filled"@, theme.button.standard_filled)
    &&& button_states_inherit(text, "button.standard_flat"@, theme.button.standard_flat)
    &&& button_states_inherit(text, "button.standard_raised"@, theme.button.standard_raised)
    &&& button_states_inherit(text, "button.suggested_filled"@, theme.button.suggested_filled)
    &&& button_states_inherit(text, "button.suggested_flat"@, theme.button.suggested_flat)
    &&& button_states_inherit(text, "button.suggested_raised"@, theme.button.suggested_raised)
    &&& button_states_inherit(text, "button.destructive_filled"@, theme.button.destructive_filled)
    &&& button_states_inherit(text, "button.destructive_flat"@, theme.button.destructive_flat)
    &&& button_states_inherit(text, "button.destructive_raised"@, theme.button.destructive_raised)
}

/// One step of an inherited read: a present first token is the result; an
/// absent one defers to the rest of the chain.
proof fn lemma_read_step<T: TokenValue>(text: Seq<char>, paths: Seq<Seq<char>>)
    requires
        paths.len() >= 2,
        super::source::inherited_read::<T>(text, paths) is Ok,
    ensures
        super::source::is_missing_read(T::spec_read(text, paths[0]))
            ==> super::source::inherited_read::<T>(text, paths)
            == super::source::inherited_read::<T>(text, paths.drop_first()),
        !super::source::is_missing_read(T::spec_read(text, paths[0]))
            ==> super::source::inherited_read::<T>(text, paths) == T::spec_read(text, paths[0]),
{
}

/// A field read along a chain of bases extends the read along the rest of
/// the chain.
proof fn lemma_field_step<T: TokenValue>(text: Seq<char>, bases: Seq<Seq<char>>, field: Seq<char>)
    requires
        bases.len() >= 2,
        super::source::inherited_read::<T>(text, super::source::field_paths(bases, field)) is Ok,
    ensures
        field_inherits::<T>(
            text,
            bases[0],
            field,
            super::source::inherited_read::<T>(text, super::source::field_paths(bases, field))->Ok_0,
            super::source::inherited_read::<T>(
                text,
                super::source::field_paths(bases.drop_first(), field),
            )->Ok_0,
        ),
{
    let paths = super::source::field_paths(bases, field);
    lemma_read_step::<T>(text, paths);
    assert(paths.drop_first() =~= super::source::field_paths(bases.drop_first(), field));
}

/// A field read along a chain of one base is that base's token.
proof fn lemma_field_root<T: TokenValue>(text: Seq<char>, base: Seq<char>, field: Seq<char>)
    requires
        super::source::inherited_read::<T>(text, super::source::field_paths(seq![base], field)) is Ok,
    ensures
        field_reads::<T>(
            text,
            base,
            field,
            super::source::inherited_read::<T>(text, super::source::field_paths(seq![base], field))->Ok_0,
        ),
{
    let paths = super::source::field_paths(seq![base], field);
    assert(paths[0] == base + "."@ + field);
}

/// Surface tokens read along a chain extend the tokens read along the rest.
proof fn lemma_surface_step(text: Seq<char>, bases: Seq<Seq<char>>)
    requires
        bases.len() >= 2,
        super::pack::spec_surface_tokens(text, bases) is Ok,
        super::pack::spec_surface_tokens(text, bases.drop_first()) is Ok,
    ensures
        surface_inherits(
            text,
            bases[0],
            super::pack::spec_surface_tokens(text, bases)->Ok_0,
            super::pack::spec_surface_tokens(text, bases.drop_first())->Ok_0,
        ),
{
    lemma_field_step::<Color>(text, bases, "bg"@);
    lemma_field_step::<Color>(text, bases, "fg"@);
    lemma_field_step::<Color>(text, bases, "border"@);
    lemma_field_step::<Length>(text, bases, "border_width"@);
    lemma_field_step::<Radius>(text, bases, "radius"@);
    lemma_field_step::<ShadowLayer>(text, bases, "shadow"@);
}

/// Surface tokens read from one base are that base's tokens.
proof fn lemma_surface_root(text: Seq<char>, base: Seq<char>)
    requires
        super::pack::spec_surface_tokens(text, seq![base]) is Ok,
    ensures
        surface_reads(text, base, super::pack::spec_surface_tokens(text, seq![base])->Ok_0),
{
    lemma_field_root::<Color>(text, base, "bg"@);
    lemma_field_root::<Color>(text, base, "fg"@);
    lemma_field_root::<Color>(text, base, "border"@);
    lemma_field_root::<Length>(text, base, "border_width"@);
    lemma_field_root::<Radius>(text, base, "radius"@);
    lemma_field_root::<ShadowLayer>(text, base, "shadow"@);
}

/// Button tokens read along a chain extend the tokens read along the rest.
proof fn lemma_button_step(text: Seq<char>, bases: Seq<Seq<char>>)
    requires
        bases.len() >= 2,
        super::pack::spec_button_tokens(text, bases) is Ok,
        super::pack::spec_button_tokens(text, bases.drop_first()) is Ok,
    ensures
        button_inherits(
            text,
            bases[0],
            super::pack::spec_button_tokens(text, bases)->Ok_0,
            super::pack::spec_button_tokens(text, bases.drop_first())->Ok_0,
        ),
{
    lemma_field_step::<Color>(text, bases, "bg"@);
    lemma_field_step::<Color>(text, bases, "fg"@);
    lemma_field_step::<Color>(text, bases, "border"@);
    lemma_field_step::<Length>(text, bases, "border_width"@);
    lemma_field_step::<Radius>(text, bases, "radius"@);
    lemma_field_step::<Color>(text, bases, "focus_ring"@);
    lemma_field_step::<ShadowLayer>(text, bases, "shadow"@);
}

/// Button tokens read from one base are that base's tokens.
proof fn lemma_button_root(text: Seq<char>, base: Seq<char>)
    requires
        super::pack::spec_button_tokens(text, seq![base]) is Ok,
    ensures
        button_reads(text, base, super::pack::spec_button_tokens(text, seq![base])->Ok_0),
{
    lemma_field_root::<Color>(text, base, "bg"@);
    lemma_field_root::<Color>(text, base, "fg"@);
    lemma_field_root::<Color>(text, base, "border"@);
    lemma_field_root::<Length>(text, base, "border_width"@);
    lemma_field_root::<Radius>(text, base, "radius"@);
    lemma_field_root::<Color>(text, base, "focus_ring"@);
    lemma_field_root::<ShadowLayer>(text, base, "shadow"@);
}

/// A loaded surface state set follows `hover extends idle`.
pub proof fn lemma_surface_states_inherit(text: Seq<char>, prefix: Seq<char>)
    requires
        super::pack::spec_surface_states(text, prefix) is Ok,
    ensures
        surface_states_inherit(text, prefix, super::pack::spec_surface_states(text, prefix)->Ok_0),
{
    let idle = super::source::state_bases(prefix, seq!["idle"@]);
    let hover = super::source::state_bases(prefix, seq!["hover"@, "idle"@]);
    assert(idle =~= seq![prefix + "."@ + "idle"@]);
    assert(hover.drop_first() =~= idle);
    lemma_surface_root(text, prefix + "."@ + "idle"@);
    lemma_surface_step(text, hover);
}

/// A loaded button state set follows `hover extends idle`, `pressed extends
/// hover` and `disabled extends idle`.
pub proof fn lemma_button_states_inherit(text: Seq<char>, prefix: Seq<char>)
    requires
        super::pack::spec_button_states(text, prefix) is Ok,
    ensures
        button_states_inherit(text, prefix, super::pack::spec_button_states(text, prefix)->Ok_0),
{
    let idle = super::source::state_bases(prefix, seq!["idle"@]);
    let hover = super::source::state_bases(prefix, seq!["hover"@, "idle"@]);
    let pressed = super::source::state_bases(prefix, seq!["pressed"@, "hover"@, "idle"@]);
    let disabled = super::source::state_bases(prefix, seq!["disabled"@, "idle"@]);
    assert(idle =~= seq![prefix + "."@ + "idle"@]);
    assert(hover.drop_first() =~= idle);
    assert(pressed.drop_first() =~= hover);
    assert(disabled.drop_first() =~= idle);
    lemma_button_root(text, prefix + "."@ + "idle"@);
    lemma_button_step(text, hover);
    lemma_button_step(text, pressed);
    lemma_button_step(text, disabled);
}

/// Every state set of a theme loaded from `text` follows its inheritance
/// chain: a state that extends a parent takes its own token where the source
/// has one and the parent's value where it has none.
pub proof fn lemma_theme_states_inherit(text: Seq<char>)
    requires
        super::pack::spec_theme(text) is Ok,
    ensures
        theme_states_inherit(text, super::pack::spec_theme(text)->Ok_0),
{
    lemma_surface_states_inherit(text, "surface.background"@);
    lemma_surface_states_inherit(text, "surface.regular"@);
    lemma_surface_states_inherit(text, "surface.raised"@);
    lemma_button_states_inherit(text, "button.standard_filled"@);
    lemma_button_states_inherit(text, "button.standard_flat"@);
    lemma_button_states_inherit(text, "button.standard_raised"@);
    lemma_button_states_inherit(text, "button.suggested_filled"@);
    lemma_button_states_inherit(text, "button.suggested_flat"@);
    lemma_button_states_inherit(text, "button.suggested_raised"@);
    lemma_button_states_inherit(text, "button.destructive_filled"@);
    lemma_button_states_inherit(text, "button.destructive_flat"@);
    lemma_button_states_inherit(text, "button.destructive_raised"@);
}

} // verus!
