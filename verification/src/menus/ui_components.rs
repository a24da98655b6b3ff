//! What buttons have in common: how the pointer meets them and which of
//! their colours they show.

use vstd::prelude::*;

verus! {

/// How the pointer meets an interactive element.
#[derive(Clone, Copy, Debug, PartialEq, Eq, Hash, Structural)]
pub enum Interaction {
    /// The element is being pressed.
    Pressed,
    /// The pointer rests on the element.
    Hovered,
    /// The pointer is elsewhere.
    Idle,
}

/// Which of its colours a button shows.
#[derive(Clone, Copy, Debug, PartialEq, Eq, Hash, Structural)]
pub enum ButtonShade {
    /// The colour of a button at rest.
    Normal,
    /// The colour of a button under the pointer.
    Hovered,
    /// The colour of a pressed button, or of the selected tab.
    Active,
    /// The colour of the selected tab under the pointer.
    ActiveHovered,
}

impl Default for ButtonShade {
    fn default() -> (shade: Self)
        ensures
            shade == ButtonShade::Normal,
    {
        ButtonShade::Normal
    }
}

/// The shade of a plain button after `interaction`: hovering and leaving
/// recolour it, pressing leaves it as it is.
pub open spec fn hover_shade(interaction: Interaction, shade: ButtonShade) -> ButtonShade {
    match interaction {
        Interaction::Hovered => ButtonShade::Hovered,
        Interaction::Idle => ButtonShade::Normal,
        Interaction::Pressed => shade,
    }
}

/// The shade of a button that acts when pressed, after `interaction`.
pub open spec fn press_shade(interaction: Interaction) -> ButtonShade {
    match interaction {
        Interaction::Pressed => ButtonShade::Active,
        Interaction::Hovered => ButtonShade::Hovered,
        Interaction::Idle => ButtonShade::Normal,
    }
}

/// Recolours a plain button for a changed interaction.
pub fn handle_button_hover(interaction: Interaction, shade: &mut ButtonShade)
    ensures
        *final(shade) == hover_shade(interaction, *old(shade)),
{
    match interaction {
        Interaction::Hovered => {
            *shade = ButtonShade::Hovered;
        },
        Interaction::Idle => {
            *shade = ButtonShade::Normal;
        },
        Interaction::Pressed => {},
    }
}

/// A button as a menu offers it: what it says and the shade it shows.
#[derive(Debug)]
pub struct MenuButton {
    /// The text on the button.
    pub label: String,
    /// Which of its colours the button shows.
    pub shade: ButtonShade,
}

impl MenuButton {
    /// Whether the button says `label` and is at rest.
    pub open spec fn is_fresh(self, label: Seq<char>) -> bool {
        self.label@ == label && self.shade == ButtonShade::Normal
    }

    /// The button with `shade` in place of the shade it shows.
    pub open spec fn shaded(self, shade: ButtonShade) -> MenuButton {
        MenuButton { shade, ..self }
    }

    /// A button at rest.
    pub fn new(label: String) -> (button: Self)
        ensures
            button.is_fresh(label@),
    {
        MenuButton { label, shade: ButtonShade::Normal }
    }
}

/// One line of a settings surface: what is set, and the button that shows
/// the value.
#[derive(Debug)]
pub struct SettingRow {
    /// The name of the setting.
    pub label: String,
    /// The text of the value, shown on the row's button.
    pub value: String,
    /// Which of its colours the row's button shows.
    pub shade: ButtonShade,
}

impl SettingRow {
    /// Whether the row names `label`, shows `value` and is at rest.
    pub open spec fn is_fresh(self, label: Seq<char>, value: Seq<char>) -> bool {
        self.label@ == label && self.value@ == value && self.shade == ButtonShade::Normal
    }

    /// Whether `other` is `self` showing `value` instead of what it showed.
    pub open spec fn shows_instead(self, value: Seq<char>, other: SettingRow) -> bool {
        other.label == self.label && other.value@ == value && other.shade == self.shade
    }

    /// The row with `shade` in place of the shade its button shows.
    pub open spec fn shaded(self, shade: ButtonShade) -> SettingRow {
        SettingRow { shade, ..self }
    }

    /// A row at rest.
    pub fn new(label: String, value: String) -> (row: Self)
        ensures
            row.is_fresh(label@, value@),
    {
        SettingRow { label, value, shade: ButtonShade::Normal }
    }
}

} // verus!
