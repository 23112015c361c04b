//! The details section of one's own profile: children, family plans and the
//! name, how they are shown and how edits change them.
use vstd::prelude::*;

use crate::parse::{parse_bool, replace_all, replaced};

verus! {

/// The line for whether someone has children.
pub open spec fn spec_has_children_label(any: bool) -> Seq<char> {
    if any {
        "🧑‍🧒‍🧒 Has children"@
    } else {
        "🧑‍🧒‍🧒 Has no children"@
    }
}

/// The line for whether someone has children.
pub fn has_children_label(any: bool) -> (r: String)
    ensures
        r@ == spec_has_children_label(any),
{
    let mut s = String::from_str("🧑‍🧒‍🧒 Has");
    if !any {
        s.append(" no");
    }
    s.append(" children");
    proof {
        reveal_strlit("🧑‍🧒‍🧒 Has");
        reveal_strlit(" no");
        reveal_strlit(" children");
        reveal_strlit("🧑‍🧒‍🧒 Has children");
        reveal_strlit("🧑‍🧒‍🧒 Has no children");
    }
    s
}

/// The answer chosen in the select for children: `"true"` or `"false"`,
/// anything else (the empty placeholder) clears it.
pub fn has_children_input(text: &str) -> (r: Option<bool>)
    ensures
        r == (if text@ == "true"@ {
            Some(true)
        } else if text@ == "false"@ {
            Some(false)
        } else {
            None
        }),
{
    parse_bool(text)
}

/// A first name is taken only when it is longer than one byte; otherwise
/// the name stays as it was.
pub fn accept_name(name: &str) -> (r: bool)
    ensures
        r == (name.len() > 1),
{
    name.len() > 1
}

/// What follows the family plans: nothing when one is not sure yet,
/// otherwise " more" for someone who has children, then " children".
pub open spec fn spec_family_plans_suffix(not_sure_yet: bool, has_children: Option<bool>) -> Seq<char> {
    if not_sure_yet {
        ""@
    } else if has_children == Some(true) {
        " more children"@
    } else {
        " children"@
    }
}

/// What follows the family plans.
pub fn family_plans_suffix(not_sure_yet: bool, has_children: Option<bool>) -> (r: String)
    ensures
        r@ == spec_family_plans_suffix(not_sure_yet, has_children),
{
    proof {
        reveal_strlit("");
        reveal_strlit(" more");
        reveal_strlit(" children");
        reveal_strlit(" more children");
    }
    let mut s = String::new();
    if !not_sure_yet {
        if has_children == Some(true) {
            s.append(" more");
        }
        s.append(" children");
    }
    s
}

/// A family plan's label put in the first person, as the select offers it.
pub open spec fn spec_first_person(label: Seq<char>) -> Seq<char> {
    replaced(replaced(label, "Doesn't"@, "I don't"@), "Wants"@, "I want"@)
}

/// A family plan's label put in the first person: "Doesn't" becomes
/// "I don't", then "Wants" becomes "I want".
pub fn first_person(label: &str) -> (r: String)
    ensures
        r@ == spec_first_person(label@),
{
    let s = replace_all(label, "Doesn't", "I don't");
    replace_all(s.as_str(), "Wants", "I want")
}

/// An option of the select for family plans.
pub fn family_plans_option(label: &str, not_sure_yet: bool, has_children: Option<bool>) -> (r: String)
    ensures
        r@ == spec_first_person(label@) + spec_family_plans_suffix(not_sure_yet, has_children),
{
    let mut s = first_person(label);
    let suffix = family_plans_suffix(not_sure_yet, has_children);
    s.append(suffix.as_str());
    s
}

/// The line for someone's family plans.
pub fn family_plans_line(label: &str, not_sure_yet: bool, has_children: Option<bool>) -> (r: String)
    ensures
        r@ == "🍼 "@ + label@ + spec_family_plans_suffix(not_sure_yet, has_children),
{
    let mut s = String::from_str("🍼 ");
    s.append(label);
    let suffix = family_plans_suffix(not_sure_yet, has_children);
    s.append(suffix.as_str());
    s
}

/// " more" is said only to someone who has children: for any other answer
/// (no children, or unknown) the plans end in " children", exactly what
/// someone with children reads without " more"; nothing follows a plan
/// that is not sure yet.
pub proof fn law_more_only_with_children(has_children: Option<bool>)
    ensures
        has_children != Some(true) ==> spec_family_plans_suffix(false, has_children) == " children"@,
        spec_family_plans_suffix(false, Some(true)) == " more"@ + spec_family_plans_suffix(false, Some(false)),
        spec_family_plans_suffix(false, None) == spec_family_plans_suffix(false, Some(false)),
        spec_family_plans_suffix(true, has_children) == Seq::<char>::empty(),
{
    reveal_strlit(" more");
    reveal_strlit(" children");
    reveal_strlit(" more children");
    reveal_strlit("");
    assert(" more"@ + " children"@ =~= " more children"@);
}

} // verus!
