//! Layout decisions shared by the sections of a profile.
use vstd::prelude::*;

use crate::profile::editor::spec_editor_class;
use crate::text::{decimal, push_decimal};

verus! {

/// The class of a prompt editor, and whether its cancel and delete buttons
/// are shown: cancel for a new prompt that is empty, delete for a stored one
/// that was emptied; either hides the default save button.
pub fn class_canceler_deleter(new_but_empty: bool, to_be_deleted: bool) -> (r: (String, bool, bool))
    ensures
        r.0@ == spec_editor_class(new_but_empty || to_be_deleted),
        r.1 == new_but_empty,
        r.2 == to_be_deleted,
{
    let class = if new_but_empty || to_be_deleted {
        String::from_str("grid grid-cols-[1fr_auto] gap-2 [&>input]:text-xl [&>button]:last:hidden")
    } else {
        String::from_str("grid grid-cols-[1fr_auto] gap-2 [&>input]:text-xl")
    };
    (class, new_but_empty, to_be_deleted)
}

/// The class of a section's frame, with the section's own class appended.
pub open spec fn spec_container_class(class: Option<Seq<char>>) -> Seq<char> {
    "relative border rounded-2xl w-full overflow-hidden "@ + match class {
        Some(c) => c,
        None => ""@,
    }
}

/// The class of a section's frame.
pub fn container_class(class: Option<&str>) -> (r: String)
    ensures
        r@ == spec_container_class(
            match class {
                Some(c) => Some(c@),
                None => None,
            },
        ),
{
    let mut s = String::from_str("relative border rounded-2xl w-full overflow-hidden ");
    match class {
        Some(c) => s.append(c),
        None => {
            proof {
                reveal_strlit("");
            }
        },
    }
    proof {
        assert(s@ =~= spec_container_class(
            match class {
                Some(c) => Some(c@),
                None => None,
            },
        ));
    }
    s
}

/// A section's frame shows the like button unless asked not to.
pub fn shows_like_button(wo_button: Option<bool>) -> (r: bool)
    ensures
        r == (wo_button != Some(true)),
{
    match wo_button {
        Some(true) => false,
        _ => true,
    }
}

/// What the place of the `idx`-th prompt or image of a profile shows.
#[derive(Clone, Copy, PartialEq, Eq, Structural, Debug)]
pub enum Slot {
    /// The item, as it is.
    Show,
    /// The editor of the item.
    Edit,
    /// The editor of a new item.
    Add,
    /// The invitation to add an item.
    Invite,
    /// Nothing.
    Empty,
}

/// What the place of the `idx`-th of `count` items shows: an existing item,
/// or its editor while edited; right after the last item of one's own
/// profile, the invitation to add one, or its editor while edited.
pub open spec fn spec_slot(count: nat, idx: nat, editing: bool, own: bool) -> Slot {
    if idx < count {
        if editing {
            Slot::Edit
        } else {
            Slot::Show
        }
    } else if own && idx == count {
        if editing {
            Slot::Add
        } else {
            Slot::Invite
        }
    } else {
        Slot::Empty
    }
}

/// What the place of the `idx`-th of `count` items shows.
pub fn slot(count: usize, idx: usize, editing: bool, own: bool) -> (r: Slot)
    ensures
        r == spec_slot(count as nat, idx as nat, editing, own),
{
    if idx < count {
        if editing {
            Slot::Edit
        } else {
            Slot::Show
        }
    } else if own && idx == count {
        if editing {
            Slot::Add
        } else {
            Slot::Invite
        }
    } else {
        Slot::Empty
    }
}

/// A profile invites to add an item in exactly one place, right after its
/// last item, and only one's own profile does.
pub proof fn law_one_invitation(count: nat, idx: nat, other: nat, editing: bool)
    ensures
        (spec_slot(count, idx, editing, true) is Invite || spec_slot(count, idx, editing, true) is Add)
            <==> idx == count,
        !(spec_slot(count, idx, false, false) is Invite),
        !(spec_slot(count, idx, editing, false) is Add),
        idx != other && spec_slot(count, idx, false, true) is Invite ==> !(spec_slot(
            count,
            other,
            false,
            true,
        ) is Invite),
{
}

/// The label of the `idx`-th image (from 0) to add: festive for the first
/// three, numbered after that.
pub open spec fn spec_ordinal_label(idx: nat) -> Seq<char> {
    if idx == 0 {
        "🥳 1st"@
    } else if idx == 1 {
        "🎉 2nd"@
    } else if idx == 2 {
        "🎊 3rd"@
    } else {
        "📸 "@ + decimal(idx + 1) + "th"@
    }
}

/// The label of the `idx`-th image to add.
pub fn ordinal_label(idx: usize) -> (r: String)
    requires
        idx < usize::MAX,
    ensures
        r@ == spec_ordinal_label(idx as nat),
{
    if idx == 0 {
        String::from_str("🥳 1st")
    } else if idx == 1 {
        String::from_str("🎉 2nd")
    } else if idx == 2 {
        String::from_str("🎊 3rd")
    } else {
        let mut s = String::from_str("📸 ");
        push_decimal(&mut s, idx as u64 + 1);
        s.append("th");
        s
    }
}

} // verus!
