//! Button interaction state, motion triggers, content and icon sources.

use vstd::prelude::*;

use std::borrow::Cow;
use std::path::PathBuf;

use vstd::string::StringExecFns;

verus! {

/// Button interaction message.
#[derive(Clone, Copy, Debug, Eq, PartialEq)]
pub enum ButtonInteraction {
    /// Pointer entered the button.
    HoverEnter,
    /// Pointer left the button.
    HoverExit,
    /// Pointer pressed the button.
    PressDown,
    /// Pointer released the button.
    PressUp,
    /// Keyboard focus entered the button.
    Focus,
    /// Keyboard focus left the button.
    Blur,
    /// Enables or disables the button.
    SetDisabled(bool),
}

/// Button event that can carry an application action on release.
#[derive(Clone, Copy, Debug, Eq, PartialEq)]
pub enum ButtonEvent<Action> {
    /// Internal interaction that only updates button state.
    Interaction(ButtonInteraction),
    /// Release event that first resets pressed state, then yields an action.
    Pressed(Action),
}

impl<Action> ButtonEvent<Action> {
    /// The event a pointer release sends: the press action when one is
    /// configured, otherwise a plain press-up interaction.
    pub fn on_release(action: Option<Action>) -> (r: Self)
        ensures
            r == (match action {
                Some(action) => ButtonEvent::Pressed(action),
                None => ButtonEvent::Interaction(ButtonInteraction::PressUp),
            }),
    {
        match action {
            Some(action) => ButtonEvent::Pressed(action),
            None => ButtonEvent::Interaction(ButtonInteraction::PressUp),
        }
    }
}

/// Button motion transition trigger.
#[derive(Clone, Copy, Debug, Eq, PartialEq)]
pub enum ButtonMotionTrigger {
    /// Pointer entered the button.
    HoverEnter,
    /// Pointer left the button.
    HoverExit,
    /// Pointer pressed the button.
    PressDown,
    /// Pointer released the button.
    PressUp,
    /// Keyboard focus entered the button.
    Focus,
    /// Keyboard focus left the button.
    Blur,
    /// Button became disabled.
    Disable,
    /// Button became enabled.
    Enable,
    /// Theme or target synchronization.
    Sync,
}

/// The motion trigger of an interaction.
pub open spec fn spec_trigger(interaction: ButtonInteraction) -> ButtonMotionTrigger {
    match interaction {
        ButtonInteraction::HoverEnter => ButtonMotionTrigger::HoverEnter,
        ButtonInteraction::HoverExit => ButtonMotionTrigger::HoverExit,
        ButtonInteraction::PressDown => ButtonMotionTrigger::PressDown,
        ButtonInteraction::PressUp => ButtonMotionTrigger::PressUp,
        ButtonInteraction::Focus => ButtonMotionTrigger::Focus,
        ButtonInteraction::Blur => ButtonMotionTrigger::Blur,
        ButtonInteraction::SetDisabled(disabled) => if disabled {
            ButtonMotionTrigger::Disable
        } else {
            ButtonMotionTrigger::Enable
        },
    }
}

/// Converts a [`ButtonInteraction`] to a [`ButtonMotionTrigger`].
pub fn trigger_from_interaction(interaction: ButtonInteraction) -> (r: ButtonMotionTrigger)
    ensures
        r == spec_trigger(interaction),
        interaction == ButtonInteraction::HoverEnter ==> r == ButtonMotionTrigger::HoverEnter,
        interaction == ButtonInteraction::HoverExit ==> r == ButtonMotionTrigger::HoverExit,
        interaction == ButtonInteraction::PressDown ==> r == ButtonMotionTrigger::PressDown,
        interaction == ButtonInteraction::PressUp ==> r == ButtonMotionTrigger::PressUp,
        interaction == ButtonInteraction::Focus ==> r == ButtonMotionTrigger::Focus,
        interaction == ButtonInteraction::Blur ==> r == ButtonMotionTrigger::Blur,
        interaction == ButtonInteraction::SetDisabled(true) ==> r == ButtonMotionTrigger::Disable,
        interaction == ButtonInteraction::SetDisabled(false) ==> r == ButtonMotionTrigger::Enable,
{
    match interaction {
        ButtonInteraction::HoverEnter => ButtonMotionTrigger::HoverEnter,
        ButtonInteraction::HoverExit => ButtonMotionTrigger::HoverExit,
        ButtonInteraction::PressDown => ButtonMotionTrigger::PressDown,
        ButtonInteraction::PressUp => ButtonMotionTrigger::PressUp,
        ButtonInteraction::Focus => ButtonMotionTrigger::Focus,
        ButtonInteraction::Blur => ButtonMotionTrigger::Blur,
        ButtonInteraction::SetDisabled(true) => ButtonMotionTrigger::Disable,
        ButtonInteraction::SetDisabled(false) => ButtonMotionTrigger::Enable,
    }
}

/// Interaction state used to resolve button style.
#[derive(Clone, Copy, Debug, Eq, PartialEq)]
pub enum ButtonStyleState {
    /// Resting state.
    Idle,
    /// Pointer hover state.
    Hovered,
    /// Pressed state.
    Pressed,
    /// Disabled state.
    Disabled,
}

/// Common construction preset of a two-family button.
///
/// The preset is mapped once to each family's own variant and not retained.
#[derive(Clone, Copy, Debug, Default, Eq, PartialEq)]
pub enum ButtonStyle {
    /// Normal emphasis in the active design language.
    #[default]
    Standard,
    /// Primary or suggested action.
    Primary,
    /// Secondary or tonal action.
    Secondary,
    /// Low-emphasis flat or text action.
    Quiet,
}

/// Adwaita button variant constructed for a preset.
#[derive(Clone, Copy, Debug, Eq, PartialEq)]
pub enum AdwaitaButtonPreset {
    /// Standard filled button.
    Standard,
    /// Suggested-action filled button.
    Suggested,
    /// Standard button with flat treatment.
    StandardFlat,
}

/// Material button variant constructed for a preset.
#[derive(Clone, Copy, Debug, Eq, PartialEq)]
pub enum MaterialButtonPreset {
    /// Elevated button.
    Elevated,
    /// Filled button.
    Filled,
    /// Filled tonal button.
    FilledTonal,
    /// Text button.
    Text,
}

impl ButtonStyle {
    /// The variant of each family that a preset constructs: standard is an
    /// Adwaita standard and a Material elevated button, primary a suggested
    /// and a filled one, secondary a standard and a filled tonal one, and
    /// quiet a flat standard and a text one.
    pub open spec fn spec_presets(self) -> (AdwaitaButtonPreset, MaterialButtonPreset) {
        match self {
            ButtonStyle::Standard => (AdwaitaButtonPreset::Standard, MaterialButtonPreset::Elevated),
            ButtonStyle::Primary => (AdwaitaButtonPreset::Suggested, MaterialButtonPreset::Filled),
            ButtonStyle::Secondary => (
                AdwaitaButtonPreset::Standard,
                MaterialButtonPreset::FilledTonal,
            ),
            ButtonStyle::Quiet => (AdwaitaButtonPreset::StandardFlat, MaterialButtonPreset::Text),
        }
    }

    /// Returns the variant of each family that this preset constructs.
    pub fn presets(self) -> (r: (AdwaitaButtonPreset, MaterialButtonPreset))
        ensures
            r == self.spec_presets(),
            self == ButtonStyle::Standard ==> r == (AdwaitaButtonPreset::Standard, MaterialButtonPreset::Elevated),
            self == ButtonStyle::Primary ==> r == (AdwaitaButtonPreset::Suggested, MaterialButtonPreset::Filled),
            self == ButtonStyle::Secondary ==> r == (AdwaitaButtonPreset::Standard, MaterialButtonPreset::FilledTonal),
            self == ButtonStyle::Quiet ==> r == (AdwaitaButtonPreset::StandardFlat, MaterialButtonPreset::Text),
    {
        match self {
            ButtonStyle::Standard => (AdwaitaButtonPreset::Standard, MaterialButtonPreset::Elevated),
            ButtonStyle::Primary => (AdwaitaButtonPreset::Suggested, MaterialButtonPreset::Filled),
            ButtonStyle::Secondary => (
                AdwaitaButtonPreset::Standard,
                MaterialButtonPreset::FilledTonal,
            ),
            ButtonStyle::Quiet => (AdwaitaButtonPreset::StandardFlat, MaterialButtonPreset::Text),
        }
    }
}

#[derive(Clone, Copy, Debug, Eq, PartialEq)]
enum PointerState {
    Outside,
    Hovered,
}

/// Pointer, press, focus and enablement state of a button.
///
/// A disabled button is never pressed.
#[derive(Clone, Copy, Debug, Eq, PartialEq)]
pub struct ButtonState {
    pointer: PointerState,
    pressed: bool,
    focused: bool,
    disabled: bool,
}

impl ButtonState {
    #[verifier::type_invariant]
    spec fn disabled_is_not_pressed(self) -> bool {
        self.disabled ==> !self.pressed
    }

    /// Whether the pointer is over the button.
    pub closed spec fn spec_hovered(self) -> bool {
        self.pointer == PointerState::Hovered
    }

    /// Whether the button is held down.
    pub closed spec fn spec_pressed(self) -> bool {
        self.pressed
    }

    /// Whether the button has keyboard focus.
    pub closed spec fn spec_focused(self) -> bool {
        self.focused
    }

    /// Whether the button is disabled.
    pub closed spec fn spec_disabled(self) -> bool {
        self.disabled
    }

    /// The visual state: disabled before pressed before hovered before idle.
    pub open spec fn spec_style_state(self) -> ButtonStyleState {
        if self.spec_disabled() {
            ButtonStyleState::Disabled
        } else if self.spec_pressed() {
            ButtonStyleState::Pressed
        } else if self.spec_hovered() {
            ButtonStyleState::Hovered
        } else {
            ButtonStyleState::Idle
        }
    }

    /// Pointer entered the button.
    pub fn hover_enter(&mut self)
        ensures
            final(self).spec_hovered(),
            final(self).spec_pressed() == old(self).spec_pressed(),
            final(self).spec_focused() == old(self).spec_focused(),
            final(self).spec_disabled() == old(self).spec_disabled(),
    {
        proof {
            use_type_invariant(&*self);
        }
        self.pointer = PointerState::Hovered;
    }

    /// Pointer left the button, which also releases it.
    pub fn hover_exit(&mut self)
        ensures
            !final(self).spec_hovered(),
            !final(self).spec_pressed(),
            final(self).spec_focused() == old(self).spec_focused(),
            final(self).spec_disabled() == old(self).spec_disabled(),
    {
        proof {
            use_type_invariant(&*self);
        }
        self.pointer = PointerState::Outside;
        self.pressed = false;
    }

    /// Pointer pressed the button; ignored while disabled.
    pub fn press_down(&mut self)
        ensures
            final(self).spec_pressed() == (old(self).spec_pressed() || !old(self).spec_disabled()),
            final(self).spec_hovered() == old(self).spec_hovered(),
            final(self).spec_focused() == old(self).spec_focused(),
            final(self).spec_disabled() == old(self).spec_disabled(),
    {
        proof {
            use_type_invariant(&*self);
        }
        if !self.disabled {
            self.pressed = true;
        }
    }

    /// Pointer released the button.
    pub fn press_up(&mut self)
        ensures
            !final(self).spec_pressed(),
            final(self).spec_hovered() == old(self).spec_hovered(),
            final(self).spec_focused() == old(self).spec_focused(),
            final(self).spec_disabled() == old(self).spec_disabled(),
    {
        proof {
            use_type_invariant(&*self);
        }
        self.pressed = false;
    }

    /// Keyboard focus entered the button.
    pub fn focus(&mut self)
        ensures
            final(self).spec_focused(),
            final(self).spec_hovered() == old(self).spec_hovered(),
            final(self).spec_pressed() == old(self).spec_pressed(),
            final(self).spec_disabled() == old(self).spec_disabled(),
    {
        proof {
            use_type_invariant(&*self);
        }
        self.focused = true;
    }

    /// Keyboard focus left the button.
    pub fn blur(&mut self)
        ensures
            !final(self).spec_focused(),
            final(self).spec_hovered() == old(self).spec_hovered(),
            final(self).spec_pressed() == old(self).spec_pressed(),
            final(self).spec_disabled() == old(self).spec_disabled(),
    {
        proof {
            use_type_invariant(&*self);
        }
        self.focused = false;
    }

    /// Enables or disables the button; disabling also clears hover and press.
    pub fn set_disabled(&mut self, disabled: bool)
        ensures
            final(self).spec_disabled() == disabled,
            final(self).spec_focused() == old(self).spec_focused(),
            disabled ==> !final(self).spec_hovered() && !final(self).spec_pressed(),
            !disabled ==> final(self).spec_hovered() == old(self).spec_hovered()
                && final(self).spec_pressed() == old(self).spec_pressed(),
    {
        proof {
            use_type_invariant(&*self);
        }
        if disabled {
            self.pointer = PointerState::Outside;
            self.pressed = false;
        }
        self.disabled = disabled;
    }

    /// Returns whether the button is disabled; a disabled button is never
    /// pressed.
    pub fn is_disabled(self) -> (r: bool)
        ensures
            r == self.spec_disabled(),
            r ==> !self.spec_pressed(),
    {
        proof {
            use_type_invariant(&self);
        }
        self.disabled
    }

    /// Returns whether the button has keyboard focus.
    pub fn is_focused(self) -> (r: bool)
        ensures
            r == self.spec_focused(),
    {
        self.focused
    }

    /// Returns the visual state.
    pub fn style_state(self) -> (r: ButtonStyleState)
        ensures
            r == self.spec_style_state(),
            self.spec_disabled() ==> r == ButtonStyleState::Disabled,
            !self.spec_disabled() && self.spec_pressed() ==> r == ButtonStyleState::Pressed,
            !self.spec_disabled() && !self.spec_pressed() && self.spec_hovered() ==> r
                == ButtonStyleState::Hovered,
            !self.spec_disabled() && !self.spec_pressed() && !self.spec_hovered() ==> r
                == ButtonStyleState::Idle,
    {
        if self.disabled {
            ButtonStyleState::Disabled
        } else if self.pressed {
            ButtonStyleState::Pressed
        } else if let PointerState::Hovered = self.pointer {
            ButtonStyleState::Hovered
        } else {
            ButtonStyleState::Idle
        }
    }
}

impl Default for ButtonState {
    /// An enabled, unfocused, released button with the pointer outside.
    fn default() -> (r: Self)
        ensures
            !r.spec_hovered(),
            !r.spec_pressed(),
            !r.spec_focused(),
            !r.spec_disabled(),
    {
        Self { pointer: PointerState::Outside, pressed: false, focused: false, disabled: false }
    }
}

/// Stable button content stored by the component.
#[derive(Clone, Debug, Eq, PartialEq)]
pub enum ButtonContent {
    /// No default content.
    Empty,
    /// Text content.
    Text(String),
}

impl ButtonContent {
    /// Creates text content.
    pub fn text<T: Into<String>>(text: T) -> (r: Self)
        ensures
            r is Text,
            <T as vstd::std_specs::convert::IntoSpec<String>>::obeys_into_spec() ==> r == ButtonContent::Text(
                <T as vstd::std_specs::convert::IntoSpec<String>>::into_spec(text),
            ),
    {
        Self::Text(text.into())
    }

    /// Returns this content as text when text-backed.
    pub fn as_text(&self) -> (r: Option<&str>)
        ensures
            match *self {
                ButtonContent::Text(text) => r is Some && r->Some_0@ == text@,
                ButtonContent::Empty => r is None,
            },
    {
        match self {
            ButtonContent::Text(text) => Some(text.as_str()),
            ButtonContent::Empty => None,
        }
    }
}

impl From<String> for ButtonContent {
    /// Text content holding `text`.
    fn from(text: String) -> (r: Self)
        ensures
            r == ButtonContent::Text(text),
    {
        ButtonContent::Text(text)
    }
}

impl vstd::std_specs::convert::FromSpecImpl<String> for ButtonContent {
    open spec fn obeys_from_spec() -> bool {
        true
    }

    open spec fn from_spec(text: String) -> ButtonContent {
        ButtonContent::Text(text)
    }
}

impl<'a> From<&'a str> for ButtonContent {
    /// Text content holding a copy of `text`.
    fn from(text: &'a str) -> (r: Self)
        ensures
            r matches ButtonContent::Text(owned) && owned@ == text@,
    {
        ButtonContent::Text(String::from_str(text))
    }
}

impl<'a> vstd::std_specs::convert::FromSpecImpl<&'a str> for ButtonContent {
    /// A copied string is equal in characters, not as a value, so only the
    /// `from` implementation's own contract is claimed.
    open spec fn obeys_from_spec() -> bool {
        false
    }

    open spec fn from_spec(text: &'a str) -> ButtonContent {
        ButtonContent::Text(choose|owned: String| owned@ == text@)
    }
}

/// Filesystem path.
#[verifier::external_type_specification]
#[verifier::external_body]
pub struct ExPathBuf(PathBuf);

/// Copies a filesystem path.
///
/// Trusted: specifies `PathBuf::clone`, which copies the path's bytes into a
/// new buffer; the copy is claimed equal to the original.
pub assume_specification[ <PathBuf as Clone>::clone ](path: &PathBuf) -> (r: PathBuf)
    ensures
        r == *path,
;

/// Icon source rendered by icon-aware components.
#[derive(Debug, Eq, PartialEq)]
pub enum IconSource {
    /// SVG loaded from a filesystem path.
    SvgPath(PathBuf),
    /// SVG loaded from in-memory bytes.
    SvgBytes(Cow<'static, [u8]>),
    /// Explicit text fallback, useful for tests or icon fonts.
    Text(String),
}

impl Clone for IconSource {
    /// Copies the source; borrowed bytes stay borrowed, owned bytes and text
    /// are copied.
    fn clone(&self) -> (r: Self)
        ensures
            match (*self, r) {
                (IconSource::SvgPath(a), IconSource::SvgPath(b)) => a == b,
                (IconSource::SvgBytes(a), IconSource::SvgBytes(b)) => cow_bytes(a) == cow_bytes(b)
                    && (a is Borrowed <==> b is Borrowed),
                (IconSource::Text(a), IconSource::Text(b)) => a@ == b@,
                _ => false,
            },
    {
        match self {
            IconSource::SvgPath(path) => IconSource::SvgPath(path.clone()),
            IconSource::SvgBytes(Cow::Borrowed(bytes)) => IconSource::SvgBytes(Cow::Borrowed(bytes)),
            IconSource::SvgBytes(Cow::Owned(bytes)) => IconSource::SvgBytes(Cow::Owned(bytes.clone())),
            IconSource::Text(text) => IconSource::Text(text.clone()),
        }
    }
}

/// The bytes held by a byte buffer that is borrowed or owned.
pub open spec fn cow_bytes(bytes: Cow<'static, [u8]>) -> Seq<u8> {
    match bytes {
        Cow::Borrowed(borrowed) => borrowed@,
        Cow::Owned(owned) => owned@,
    }
}

/// Leaks an owned byte buffer for the rest of the program.
///
/// Trusted: calls `Vec::leak`, which returns the buffer's elements.
#[verifier::external_body]
fn leak_bytes(bytes: Vec<u8>) -> (r: &'static [u8])
    ensures
        r@ == bytes@,
{
    bytes.leak()
}

/// A vector of SVG bytes gives an icon with the same bytes whether the
/// vector is kept owned or leaked; only the owned source keeps ownership.
pub proof fn lemma_vec_sources_hold_same_bytes(bytes: Vec<u8>, owned: IconSource, leaked: IconSource)
    requires
        owned == IconSource::SvgBytes(Cow::Owned(bytes)),
        leaked matches IconSource::SvgBytes(Cow::Borrowed(held)) && held@ == bytes@,
    ensures
        owned matches IconSource::SvgBytes(a) && leaked matches IconSource::SvgBytes(b) && cow_bytes(a)
            == cow_bytes(b) && a is Owned && b is Borrowed,
{
}

impl IconSource {
    /// Creates an SVG icon source from a filesystem path.
    pub fn svg_path<P: Into<PathBuf>>(path: P) -> (r: Self)
        ensures
            r is SvgPath,
            <P as vstd::std_specs::convert::IntoSpec<PathBuf>>::obeys_into_spec() ==> r == IconSource::SvgPath(
                <P as vstd::std_specs::convert::IntoSpec<PathBuf>>::into_spec(path),
            ),
    {
        Self::SvgPath(path.into())
    }

    /// Creates an SVG icon source from static in-memory bytes; owned bytes
    /// are leaked so that the source always borrows.
    pub fn svg_bytes<B: Into<Cow<'static, [u8]>>>(bytes: B) -> (r: Self)
        ensures
            r matches IconSource::SvgBytes(Cow::Borrowed(_)),
            <B as vstd::std_specs::convert::IntoSpec<Cow<'static, [u8]>>>::obeys_into_spec() ==> (r matches IconSource::SvgBytes(
                held,
            ) && cow_bytes(held) == cow_bytes(
                <B as vstd::std_specs::convert::IntoSpec<Cow<'static, [u8]>>>::into_spec(bytes),
            )),
    {
        let bytes: Cow<'static, [u8]> = bytes.into();
        match bytes {
            Cow::Borrowed(borrowed) => Self::SvgBytes(Cow::Borrowed(borrowed)),
            Cow::Owned(owned) => Self::SvgBytes(Cow::Borrowed(leak_bytes(owned))),
        }
    }

    /// Creates an SVG icon source from static in-memory bytes.
    pub fn from_static(bytes: &'static [u8]) -> (r: Self)
        ensures
            r == IconSource::SvgBytes(Cow::Borrowed(bytes)),
    {
        Self::SvgBytes(Cow::Borrowed(bytes))
    }

    /// Creates an SVG icon source from a `Vec` of bytes, which is leaked.
    pub fn from_vec_leak(bytes: Vec<u8>) -> (r: Self)
        ensures
            r matches IconSource::SvgBytes(Cow::Borrowed(leaked)) && leaked@ == bytes@,
    {
        Self::SvgBytes(Cow::Borrowed(leak_bytes(bytes)))
    }

    /// Creates an SVG icon source that owns a `Vec` of bytes.
    pub fn from_vec(bytes: Vec<u8>) -> (r: Self)
        ensures
            r == IconSource::SvgBytes(Cow::Owned(bytes)),
    {
        Self::SvgBytes(Cow::Owned(bytes))
    }

    /// Creates an explicit text fallback icon source.
    pub fn text<T: Into<String>>(text: T) -> (r: Self)
        ensures
            r is Text,
            <T as vstd::std_specs::convert::IntoSpec<String>>::obeys_into_spec() ==> r == IconSource::Text(
                <T as vstd::std_specs::convert::IntoSpec<String>>::into_spec(text),
            ),
    {
        Self::Text(text.into())
    }

    /// Returns fallback text when this source is text-backed.
    pub fn text_fallback(&self) -> (r: Option<&str>)
        ensures
            match *self {
                IconSource::Text(text) => r is Some && r->Some_0@ == text@,
                _ => r is None,
            },
    {
        match self {
            IconSource::Text(text) => Some(text.as_str()),
            IconSource::SvgPath(_) | IconSource::SvgBytes(_) => None,
        }
    }
}

} // verus!
