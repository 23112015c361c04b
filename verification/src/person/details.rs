//! The details section of a profile: children, habits and the free-text
//! fields, how they are shown and how edits change them.
use vstd::prelude::*;

use crate::model::{Frequency, Habit, Habits, Kids, Person};
use crate::parse::{parse_i8, parsed_i8};
use crate::person::{ResourceCtx, next_of};
use crate::text::{decimal, push_decimal};

verus! {

/// Whether someone already has children: a stated number above zero.
pub open spec fn spec_already_has_kids(kids: Option<Kids>) -> bool {
    kids matches Some(k) && k.has matches Some(n) && n > 0
}

/// Whether someone already has children: a stated number above zero.
pub fn already_has_kids(kids: &Option<Kids>) -> (r: bool)
    ensures
        r == spec_already_has_kids(*kids),
{
    match kids {
        Some(k) => match k.has {
            Some(n) => n > 0,
            None => false,
        },
        None => false,
    }
}

/// `kids` with the number of children one has set to `has`; without
/// children stated before, the wish stays unknown.
pub open spec fn spec_with_has(kids: Option<Kids>, has: Option<i8>) -> Option<Kids> {
    match kids {
        Some(k) => Some(Kids { has, ..k }),
        None => Some(Kids { has, wants: None }),
    }
}

/// `kids` with the number of children one wants set to `wants`; without
/// children stated before, the number one has stays unknown.
pub open spec fn spec_with_wants(kids: Option<Kids>, wants: Option<i8>) -> Option<Kids> {
    match kids {
        Some(k) => Some(Kids { wants, ..k }),
        None => Some(Kids { has: None, wants }),
    }
}

/// Sets the number of children one has.
pub fn set_kids_has(kids: &mut Option<Kids>, has: Option<i8>)
    ensures
        *final(kids) == spec_with_has(*old(kids), has),
{
    match kids {
        Some(k) => k.has = has,
        None => *kids = Some(Kids { has, wants: None }),
    }
}

/// Sets the number of children one wants.
pub fn set_kids_wants(kids: &mut Option<Kids>, wants: Option<i8>)
    ensures
        *final(kids) == spec_with_wants(*old(kids), wants),
{
    match kids {
        Some(k) => k.wants = wants,
        None => *kids = Some(Kids { has: None, wants }),
    }
}

/// Sets the number of children one has from the input's text; text that is
/// not an `i8` clears it.
pub fn kids_has_input(kids: &mut Option<Kids>, text: &str)
    ensures
        *final(kids) == spec_with_has(*old(kids), parsed_i8(text@)),
{
    set_kids_has(kids, parse_i8(text));
}

/// Sets the number of children one wants from the selected option's value;
/// the empty value clears it.
pub fn kids_wants_input(kids: &mut Option<Kids>, text: &str)
    ensures
        *final(kids) == spec_with_wants(*old(kids), parsed_i8(text@)),
{
    set_kids_wants(kids, parse_i8(text));
}

/// `habits` with `habit` set to `freq`; without habits stated before, the
/// others stay unknown.
pub open spec fn spec_with_habit(habits: Option<Habits>, habit: Habit, freq: Option<Frequency>) -> Option<
    Habits,
> {
    match habits {
        Some(h) => Some(h.spec_with(habit, freq)),
        None => Some(
            Habits { drinking: None, smoking: None, marijuana: None, drugs: None }.spec_with(habit, freq),
        ),
    }
}

/// Sets one habit, creating the habits when none were stated.
pub fn set_habit(habits: &mut Option<Habits>, habit: Habit, freq: Option<Frequency>)
    ensures
        *final(habits) == spec_with_habit(*old(habits), habit, freq),
{
    match habits {
        Some(h) => h.set(habit, freq),
        None => {
            let mut h = Habits { drinking: None, smoking: None, marijuana: None, drugs: None };
            h.set(habit, freq);
            *habits = Some(h);
        },
    }
}

/// Sets one habit when habits were stated, and does nothing otherwise.
pub fn set_habit_if_stated(habits: &mut Option<Habits>, habit: Habit, freq: Option<Frequency>)
    ensures
        *final(habits) == match *old(habits) {
            Some(h) => Some(h.spec_with(habit, freq)),
            None => None,
        },
{
    match habits {
        Some(h) => h.set(habit, freq),
        None => {},
    }
}

/// The line for the number of children one has.
pub open spec fn spec_has_label(has: i8) -> Seq<char> {
    "🧑‍🧒‍🧒 Has "@ + (if has > 0 {
        if has == i8::MAX {
            decimal(has as nat) + " or more"@
        } else {
            decimal(has as nat)
        }
    } else {
        " no"@
    }) + " kids"@
}

/// The line for the number of children one has.
pub fn has_label(has: i8) -> (r: String)
    ensures
        r@ == spec_has_label(has),
{
    let mut s = String::from_str("🧑‍🧒‍🧒 Has ");
    if has > 0 {
        push_decimal(&mut s, has as u64);
        if has == i8::MAX {
            s.append(" or more");
        }
    } else {
        s.append(" no");
    }
    s.append(" kids");
    s
}

/// The line for the number of children one wants.
pub open spec fn spec_wants_label(wants: i8, already_has_kids: bool) -> Seq<char> {
    "🍼 "@ + (if wants > 0 {
        "Wants "@ + decimal(wants as nat)
    } else if wants == 0 {
        "Doesn't want"@
    } else {
        "Doesn't know if wants any"@
    }) + (if wants == i8::MAX {
        " or more"@
    } else {
        ""@
    }) + (if already_has_kids {
        " additional"@
    } else {
        ""@
    }) + " kids"@
}

/// The line for the number of children one wants.
pub fn wants_label(wants: i8, already_has_kids: bool) -> (r: String)
    ensures
        r@ == spec_wants_label(wants, already_has_kids),
{
    let mut s = String::from_str("🍼 ");
    if wants > 0 {
        s.append("Wants ");
        push_decimal(&mut s, wants as u64);
    } else if wants == 0 {
        s.append("Doesn't want");
    } else {
        s.append("Doesn't know if wants any");
    }
    if wants == i8::MAX {
        s.append(" or more");
    }
    if already_has_kids {
        s.append(" additional");
    }
    s.append(" kids");
    proof {
        reveal_strlit("");
    }
    s
}

/// The personal-data section's line for the number of children one has.
pub open spec fn spec_personal_has_label(has: i8) -> Seq<char> {
    "🧑‍🧒‍🧒 "@ + (if has > 0 {
        "Has "@ + decimal(has as nat)
    } else {
        "No"@
    }) + " kids"@
}

/// The personal-data section's line for the number of children one has.
pub fn personal_has_label(has: i8) -> (r: String)
    ensures
        r@ == spec_personal_has_label(has),
{
    let mut s = String::from_str("🧑‍🧒‍🧒 ");
    if has > 0 {
        s.append("Has ");
        push_decimal(&mut s, has as u64);
    } else {
        s.append("No");
    }
    s.append(" kids");
    s
}

/// The personal-data section's line for the number of children one wants:
/// " or more" at the top of the scale, otherwise " more" for someone who
/// already has children.
pub open spec fn spec_personal_wants_label(wants: i8, already_has_kids: bool) -> Seq<char> {
    "🍼 "@ + (if wants > 0 {
        "Wants "@ + decimal(wants as nat)
    } else if wants == 0 {
        "Doesn't want"@
    } else {
        "Doesn't know if wants any"@
    }) + (if wants == i8::MAX {
        " or more"@
    } else if already_has_kids {
        " more"@
    } else {
        ""@
    }) + " kids"@
}

/// The personal-data section's line for the number of children one wants.
pub fn personal_wants_label(wants: i8, already_has_kids: bool) -> (r: String)
    ensures
        r@ == spec_personal_wants_label(wants, already_has_kids),
{
    let mut s = String::from_str("🍼 ");
    if wants > 0 {
        s.append("Wants ");
        push_decimal(&mut s, wants as u64);
    } else if wants == 0 {
        s.append("Doesn't want");
    } else {
        s.append("Doesn't know if wants any");
    }
    if wants == i8::MAX {
        s.append(" or more");
    } else if already_has_kids {
        s.append(" more");
    }
    s.append(" kids");
    proof {
        reveal_strlit("");
    }
    s
}

/// Whether the select for the number of children one wants offers `value`:
/// no answer, or a number from -1 (doesn't know) up to `i8::MAX`.
pub open spec fn is_wants_option(value: Option<i8>) -> bool {
    value matches Some(n) ==> -1 <= n
}

/// The options of the select for the number of children one wants: no
/// answer, then -1 (doesn't know), 0, and every number up to `i8::MAX`.
pub open spec fn spec_wants_options() -> Seq<Option<i8>> {
    seq![None::<i8>] + Seq::new(129, |i: int| Some((i - 1) as i8))
}

/// The options of the select for the number of children one wants.
pub fn wants_options() -> (r: Vec<Option<i8>>)
    ensures
        r@ == spec_wants_options(),
{
    let mut r: Vec<Option<i8>> = Vec::new();
    r.push(None);
    for k in 0..129u8
        invariant
            r@ == seq![None::<i8>] + Seq::new(k as nat, |i: int| Some((i - 1) as i8)),
    {
        let n: i8 = (k as i16 - 1) as i8;
        r.push(Some(n));
        proof {
            assert(r@ =~= seq![None::<i8>] + Seq::new((k + 1) as nat, |i: int| Some((i - 1) as i8)));
        }
    }
    r
}

/// The text of an option of the select for the number of children one wants.
pub open spec fn spec_wants_option_label(value: Option<i8>, already_has_kids: bool) -> Seq<char> {
    let more = if already_has_kids {
        " more"@
    } else {
        ""@
    };
    match value {
        None => "# of"@ + (if already_has_kids {
            " additional"@
        } else {
            ""@
        }) + " kids you want"@,
        Some(n) => if n == i8::MAX {
            "I want 127 **or more** kids"@
        } else if n == -1 {
            "I don't know if I want any"@ + more + " kids"@
        } else if n == 0 {
            "I don't want any"@ + more + " kids"@
        } else {
            "I want "@ + decimal(n as nat) + more + " kids"@
        },
    }
}

/// The text of an option of the select for the number of children one wants.
pub fn wants_option_label(value: Option<i8>, already_has_kids: bool) -> (r: String)
    requires
        is_wants_option(value),
    ensures
        r@ == spec_wants_option_label(value, already_has_kids),
{
    proof {
        reveal_strlit("");
    }
    match value {
        None => {
            let mut s = String::from_str("# of");
            if already_has_kids {
                s.append(" additional");
            }
            s.append(" kids you want");
            s
        },
        Some(n) => {
            if n == i8::MAX {
                return String::from_str("I want 127 **or more** kids");
            }
            let mut s = if n == -1 {
                String::from_str("I don't know if I want any")
            } else if n == 0 {
                String::from_str("I don't want any")
            } else {
                let mut t = String::from_str("I want ");
                push_decimal(&mut t, n as u64);
                t
            };
            if already_has_kids {
                s.append(" more");
            }
            s.append(" kids");
            s
        },
    }
}

/// How many of occupation, education, hometown, what one seeks and the
/// relationship type are stated: the lines shown below the list of details.
pub open spec fn spec_values_under_list(p: &Person) -> nat {
    (if p.occupation is Some { 1nat } else { 0nat }) + (if p.education is Some { 1nat } else { 0nat })
        + (if p.hometown is Some { 1nat } else { 0nat }) + (if p.seeking is Some { 1nat } else { 0nat })
        + (if p.relationship_type is Some { 1nat } else { 0nat })
}

/// How many of the lines below the list of details are stated.
pub fn values_under_list(p: &Person) -> (r: usize)
    ensures
        r == spec_values_under_list(p),
        r <= 5,
{
    let mut r: usize = 0;
    if p.occupation.is_some() {
        r = r + 1;
    }
    if p.education.is_some() {
        r = r + 1;
    }
    if p.hometown.is_some() {
        r = r + 1;
    }
    if p.seeking.is_some() {
        r = r + 1;
    }
    if p.relationship_type.is_some() {
        r = r + 1;
    }
    r
}

/// The class of the details' container: room for the save button while
/// editing; on one's own profile without lines below the list, the edit
/// button moves down.
pub open spec fn spec_details_class(editing: bool, own: bool, under: nat) -> Seq<char> {
    "px-2 [&>*+*]:border-t [&>*+*]:p-2 [&_input]:border-none! [&>div>input]:w-full [&_select]:border-none! [&>div>select]:px-0! [&>div>select]:w-full [&>div]:flex [&>div]:gap-2 [&>div]:items-center"@
        + (if editing {
        " [&>div]:nth-last-2:mb-20"@
    } else {
        ""@
    }) + (if own && under == 0 {
        " [&>button]:nth-2:bottom-2!"@
    } else {
        ""@
    })
}

/// The class of the details' container.
pub fn details_class(editing: bool, own: bool, under: usize) -> (r: String)
    ensures
        r@ == spec_details_class(editing, own, under as nat),
{
    proof {
        reveal_strlit("");
    }
    let mut s = String::from_str(
        "px-2 [&>*+*]:border-t [&>*+*]:p-2 [&_input]:border-none! [&>div>input]:w-full [&_select]:border-none! [&>div>select]:px-0! [&>div>select]:w-full [&>div]:flex [&>div]:gap-2 [&>div]:items-center",
    );
    if editing {
        s.append(" [&>div]:nth-last-2:mb-20");
    }
    if own && under == 0 {
        s.append(" [&>button]:nth-2:bottom-2!");
    }
    s
}

/// The class of the list of details: on one's own profile, when it is not
/// edited and fewer than `room` lines stand below the list, its last item
/// leaves room for the edit button.
pub open spec fn spec_details_list_class(editing: bool, own: bool, under: nat, room: nat) -> Seq<char> {
    "p-2 flex overflow-x-scroll text-nowrap [&>*+*]:ml-2 [&>*+*]:border-l *:p-2 [&>li]:flex [&>li]:gap-2 [&>li]:items-center"@
        + (if own && !editing && under < room {
        " [&>li:last-child]:mr-15"@
    } else {
        ""@
    })
}

/// The class of the list of details, leaving room for the edit button when
/// fewer than `room` lines stand below it.
pub fn details_list_class(editing: bool, own: bool, under: usize, room: usize) -> (r: String)
    ensures
        r@ == spec_details_list_class(editing, own, under as nat, room as nat),
{
    proof {
        reveal_strlit("");
    }
    let mut s = String::from_str(
        "p-2 flex overflow-x-scroll text-nowrap [&>*+*]:ml-2 [&>*+*]:border-l *:p-2 [&>li]:flex [&>li]:gap-2 [&>li]:items-center",
    );
    if own && !editing && under < room {
        s.append(" [&>li:last-child]:mr-15");
    }
    s
}

/// A free-text field's value: empty text clears it.
pub fn non_empty(text: String) -> (r: Option<String>)
    ensures
        text@.len() == 0 ==> r is None,
        text@.len() > 0 ==> (r matches Some(s) && s@ == text@),
{
    if text.as_str().is_empty() {
        None
    } else {
        Some(text)
    }
}

/// What is sent when the details are saved: the profile without its prompts
/// and images, which are saved on their own.
pub fn details_payload(p: Person) -> (r: Person)
    ensures
        r.prompts@.len() == 0,
        r.images@.len() == 0,
        r.id == p.id,
        r.name == p.name,
        r.location == p.location,
        r.occupation == p.occupation,
        r.education == p.education,
        r.hometown == p.hometown,
        r.seeking == p.seeking,
        r.relationship_type == p.relationship_type,
        r.has_children == p.has_children,
        r.kids == p.kids,
        r.habits == p.habits,
{
    let mut p = p;
    p.prompts.truncate(0);
    p.images.truncate(0);
    p
}

/// Reading back an edit of the children: the field that was set holds the
/// new value, the other keeps its old one (unknown when nothing was stated).
pub proof fn law_kids_edit_reads_back(kids: Option<Kids>, v: Option<i8>)
    ensures
        spec_with_has(kids, v) matches Some(k) && k.has == v,
        spec_with_has(kids, v)->0.wants == match kids {
            Some(k) => k.wants,
            None => None,
        },
        spec_with_wants(kids, v) matches Some(k) && k.wants == v,
        spec_with_wants(kids, v)->0.has == match kids {
            Some(k) => k.has,
            None => None,
        },
        spec_with_has(spec_with_has(kids, v), v) == spec_with_has(kids, v),
        spec_with_wants(spec_with_wants(kids, v), v) == spec_with_wants(kids, v),
{
}

/// Reading back an edit of a habit: the habit that was set holds the new
/// frequency, every other habit keeps its old one (unknown when no habits
/// were stated).
pub proof fn law_habit_edit_reads_back(habits: Option<Habits>, habit: Habit, other: Habit, freq: Option<Frequency>)
    ensures
        spec_with_habit(habits, habit, freq) matches Some(h) && h.spec_get(habit) == freq,
        other != habit ==> spec_with_habit(habits, habit, freq)->0.spec_get(other) == match habits {
            Some(h) => h.spec_get(other),
            None => None,
        },
{
}

/// Starts saving the details: the section moves on to being saved, and the
/// profile without prompts and images is what is sent.
pub fn begin_details_submit(rcx: &mut ResourceCtx, draft: Person) -> (r: Person)
    ensures
        final(rcx).spec_state() == next_of(old(rcx).spec_state()),
        r.prompts@.len() == 0,
        r.images@.len() == 0,
        r.id == draft.id,
        r.name == draft.name,
        r.location == draft.location,
        r.occupation == draft.occupation,
        r.education == draft.education,
        r.hometown == draft.hometown,
        r.seeking == draft.seeking,
        r.relationship_type == draft.relationship_type,
        r.has_children == draft.has_children,
        r.kids == draft.kids,
        r.habits == draft.habits,
{
    rcx.next_state();
    details_payload(draft)
}

/// Finishes saving the details: the section moves on, and the draft becomes
/// the user's profile exactly when the server confirmed the update
/// (`Some(true)`).
pub fn finish_details_submit(rcx: &mut ResourceCtx, confirmed: Option<bool>) -> (adopt: bool)
    ensures
        final(rcx).spec_state() == next_of(old(rcx).spec_state()),
        adopt == (confirmed == Some(true)),
{
    rcx.next_state();
    confirmed == Some(true)
}

/// The class of a select: muted while nothing is chosen.
pub fn select_class(chosen: bool) -> (r: &'static str)
    ensures
        chosen ==> r@ == ""@,
        !chosen ==> r@ == "text-gray-500"@,
{
    if chosen {
        ""
    } else {
        "text-gray-500"
    }
}

/// Setting a habit where none were stated creates habits in which only that
/// habit's own field is set.
pub proof fn law_first_habit_sets_its_own_field(f: Option<Frequency>)
    ensures
        spec_with_habit(None, Habit::Drinking, f) == Some(
            Habits { drinking: f, smoking: None, marijuana: None, drugs: None },
        ),
        spec_with_habit(None, Habit::Smoking, f) == Some(
            Habits { drinking: None, smoking: f, marijuana: None, drugs: None },
        ),
        spec_with_habit(None, Habit::Marijuana, f) == Some(
            Habits { drinking: None, smoking: None, marijuana: f, drugs: None },
        ),
        spec_with_habit(None, Habit::Drugs, f) == Some(
            Habits { drinking: None, smoking: None, marijuana: None, drugs: f },
        ),
{
}

} // verus!
