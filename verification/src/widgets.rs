//! Plain-value state of the small chrome widgets. Drawing belongs to the UI
//! shell; what a widget remembers and decides is specified here.

use vstd::prelude::*;

verus! {

/// Footer that houses the attribution links; it carries no state.
pub struct AttributionFooter;

impl AttributionFooter {
    /// A footer.
    pub fn new() -> (r: Self)
        ensures
            r == AttributionFooter,
    {
        AttributionFooter
    }
}

/// Compact chip-like label for tags or metadata such as star counts.
pub struct TagChip {
    pub text: String,
}

impl TagChip {
    /// A chip showing exactly `text`.
    pub fn new(text: String) -> (r: Self)
        ensures
            r.text == text,
    {
        TagChip { text }
    }
}

/// State of the settings dropdown menu: whether its popup is open.
pub struct SettingsMenu {
    pub open: bool,
}

impl SettingsMenu {
    /// A menu whose popup is open exactly when `open` holds.
    pub fn new(open: bool) -> (r: Self)
        ensures
            r.open == open,
    {
        SettingsMenu { open }
    }

    /// A click on the settings button toggles the popup; the result says
    /// whether this very click opened it.
    pub fn handle_button_click(&mut self) -> (just_opened: bool)
        ensures
            final(self).open == !old(self).open,
            just_opened == final(self).open,
    {
        if self.open {
            self.open = false;
            false
        } else {
            self.open = true;
            true
        }
    }

    /// Whether the open popup closes after this frame: an item was chosen,
    /// escape was pressed, or a pointer press landed outside both the popup
    /// and the button - unless that press is the one that just opened it.
    pub fn popup_should_close(
        item_chosen: bool,
        escape_pressed: bool,
        just_opened: bool,
        clicked_outside: bool,
    ) -> (r: bool)
        ensures
            r == (item_chosen || escape_pressed || (!just_opened && clicked_outside)),
    {
        item_chosen || escape_pressed || (!just_opened && clicked_outside)
    }
}

} // verus!
