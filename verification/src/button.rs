//! The button in the corner of each section of a profile: in a listing it
//! records a decision about the profile, on one's own profile it edits and
//! saves the section.
use vstd::prelude::*;

use crate::listing::ListingCtx;
use crate::model::Decision;

verus! {

/// What the button does.
#[derive(Clone, Copy, PartialEq, Eq, Structural, Debug)]
pub enum ButtonAction {
    /// No button.
    Hidden,
    /// Records the button's decision (when it has one) about the profile
    /// with this id.
    Decide { id: i32, decision: Option<Decision> },
    /// Edits the section, or saves it while it is edited.
    Edit,
}

/// What the button does: in a listing, a button whose decision is not the
/// one the listing shows records it about a profile with an id; on one's
/// own profile it edits.
pub open spec fn spec_button_action(
    listing: Option<ListingCtx>,
    decision: Option<Decision>,
    person_id: Option<i32>,
) -> ButtonAction {
    match listing {
        Some(ctx) => if decision != ctx.wants && person_id is Some {
            ButtonAction::Decide { id: person_id->0, decision }
        } else {
            ButtonAction::Hidden
        },
        None => ButtonAction::Edit,
    }
}

/// What a button with `decision` does.
pub fn button_action(listing: Option<ListingCtx>, decision: Option<Decision>, person_id: Option<i32>) -> (r:
    ButtonAction)
    ensures
        r == spec_button_action(listing, decision, person_id),
{
    match listing {
        Some(ctx) => {
            if decision != ctx.wants {
                match person_id {
                    Some(id) => ButtonAction::Decide { id, decision },
                    None => ButtonAction::Hidden,
                }
            } else {
                ButtonAction::Hidden
            }
        },
        None => ButtonAction::Edit,
    }
}

/// The class of the button: the skip button sticks to the bottom left, the
/// others stand at the bottom right.
pub open spec fn spec_button_class(decision: Option<Decision>) -> Seq<char> {
    if decision == Some(Decision::Skip) {
        "sticky mt-2 left-5 rounded-full! z-1 bottom-5 border-2! bg-background select-none"@
    } else {
        "absolute right-5 z-1 bottom-5 border-2! bg-background select-none"@
    }
}

/// The class of the button.
pub fn button_class(decision: Option<Decision>) -> (r: String)
    ensures
        r@ == spec_button_class(decision),
{
    if decision == Some(Decision::Skip) {
        String::from_str("sticky mt-2 left-5 rounded-full! z-1 bottom-5 border-2! bg-background select-none")
    } else {
        String::from_str("absolute right-5 z-1 bottom-5 border-2! bg-background select-none")
    }
}

/// The label of the button: 🚫 to skip, ✅ to like, 💾 to save, ✏️ to edit.
pub open spec fn spec_button_label(action: ButtonAction, editing: bool) -> Seq<char> {
    match action {
        ButtonAction::Decide { decision, .. } => if decision == Some(Decision::Skip) {
            "🚫"@
        } else {
            "✅"@
        },
        ButtonAction::Edit => if editing {
            "💾"@
        } else {
            "✏️"@
        },
        ButtonAction::Hidden => ""@,
    }
}

/// The label of the button.
pub fn button_label(action: ButtonAction, editing: bool) -> (r: &'static str)
    ensures
        r@ == spec_button_label(action, editing),
{
    match action {
        ButtonAction::Decide { decision, .. } => if decision == Some(Decision::Skip) {
            "🚫"
        } else {
            "✅"
        },
        ButtonAction::Edit => if editing {
            "💾"
        } else {
            "✏️"
        },
        ButtonAction::Hidden => "",
    }
}

/// A button as shown: what it does, its class and its label.
pub struct ButtonView {
    pub action: ButtonAction,
    pub class: String,
    pub label: &'static str,
}

/// The button for `decision`.
pub fn button(listing: Option<ListingCtx>, decision: Option<Decision>, person_id: Option<i32>, editing: bool) -> (r:
    ButtonView)
    ensures
        r.action == spec_button_action(listing, decision, person_id),
        r.class@ == spec_button_class(decision),
        r.label@ == spec_button_label(r.action, editing),
{
    let action = button_action(listing, decision, person_id);
    ButtonView { action, class: button_class(decision), label: button_label(action, editing) }
}

/// The like button of a section.
#[allow(non_snake_case)]
pub fn LikeButton(listing: Option<ListingCtx>, person_id: Option<i32>, editing: bool) -> (r: ButtonView)
    ensures
        r.action == spec_button_action(listing, Some(Decision::Like), person_id),
        r.class@ == spec_button_class(Some(Decision::Like)),
        r.label@ == spec_button_label(r.action, editing),
{
    button(listing, Some(Decision::Like), person_id, editing)
}

/// The skip button of a profile.
#[allow(non_snake_case)]
pub fn SkipButton(listing: Option<ListingCtx>, person_id: Option<i32>, editing: bool) -> (r: ButtonView)
    ensures
        r.action == spec_button_action(listing, Some(Decision::Skip), person_id),
        r.class@ == spec_button_class(Some(Decision::Skip)),
        r.label@ == spec_button_label(r.action, editing),
{
    button(listing, Some(Decision::Skip), person_id, editing)
}

/// A click on the edit button of one's own profile: while the section is
/// shown, the click starts editing instead of submitting (`true`); while it
/// is edited, the click submits the form (`false`).
pub fn edit_click_starts_editing(editing: bool) -> (r: bool)
    ensures
        r == !editing,
{
    !editing
}

/// In a listing, a profile offers exactly the decisions other than the one
/// the listing shows: a liked profile can be skipped, a skipped one liked,
/// and one still undecided both; outside a listing the button edits.
pub proof fn law_buttons_offer_the_other_decision(listing: ListingCtx, id: i32)
    ensures
        (spec_button_action(Some(listing), Some(Decision::Like), Some(id)) is Decide) <==> listing.wants
            != Some(Decision::Like),
        (spec_button_action(Some(listing), Some(Decision::Skip), Some(id)) is Decide) <==> listing.wants
            != Some(Decision::Skip),
        spec_button_action(None, Some(Decision::Like), Some(id)) == ButtonAction::Edit,
        spec_button_action(Some(listing), Some(Decision::Like), None) == ButtonAction::Hidden,
{
}

} // verus!
