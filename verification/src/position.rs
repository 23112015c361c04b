//! The position field of the prompt and image editors: positions are shown
//! from 1 and stored from 0, and only those that exist (or the one after the
//! last, for a new item) can be chosen.
use vstd::prelude::*;

use crate::parse::{parse_i16, parsed_i16};

verus! {

/// The greatest position (counted from 1) an editor offers.
pub open spec fn spec_max_position(count: usize, is_new: bool) -> int {
    (count as i16) + if is_new { 1int } else { 0int }
}

/// The greatest position (counted from 1) an editor offers: the number of
/// items on the profile (taken as an `i16`), plus one for a new item.
pub fn max_position(count: usize, is_new: bool) -> (r: i16)
    requires
        spec_max_position(count, is_new) <= i16::MAX,
    ensures
        r == spec_max_position(count, is_new),
{
    #[verifier::truncate]
    let c: i16 = count as i16;
    if is_new {
        c + 1
    } else {
        c
    }
}

/// The stored position a new item starts with: the last one.
pub fn new_item_position(max: i16) -> (r: Option<i16>)
    requires
        max > i16::MIN,
    ensures
        r == Some((max - 1) as i16),
{
    Some(max - 1)
}

/// A position typed in the editor (counted from 1) as stored (from 0), when
/// it lies between 1 and `max`.
pub open spec fn spec_position_from_parsed(parsed: Option<i16>, max: i16) -> Option<i16> {
    match parsed {
        Some(p) => if 1 <= p && p <= max {
            Some((p - 1) as i16)
        } else {
            None
        },
        None => None,
    }
}

/// A typed position, already parsed, as stored, or `None` when out of range.
pub fn position_from_parsed(parsed: Option<i16>, max: i16) -> (r: Option<i16>)
    ensures
        r == spec_position_from_parsed(parsed, max),
{
    match parsed {
        Some(p) => if 1 <= p && p <= max {
            Some(p - 1)
        } else {
            None
        },
        None => None,
    }
}

/// The text of the position field as a stored position, or `None` when it
/// is not a number between 1 and `max`.
pub fn position_input(text: &str, max: i16) -> (r: Option<i16>)
    ensures
        r == spec_position_from_parsed(parsed_i16(text@), max),
{
    position_from_parsed(parse_i16(text), max)
}

/// Whether an image would become the profile picture: it is placed first,
/// or it is the only image.
pub fn to_be_profile_pic(position: Option<i16>, max: i16) -> (r: bool)
    ensures
        r == (position == Some(0i16) || max == 1),
{
    position == Some(0i16) || max == 1
}

/// A chosen position, when there is one, lies between 0 and `max - 1`, and
/// the position shown for it (one more) is the one typed.
pub proof fn law_position_in_range(parsed: Option<i16>, max: i16)
    ensures
        spec_position_from_parsed(parsed, max) matches Some(p) ==> {
            &&& 0 <= p < max
            &&& parsed == Some((p + 1) as i16)
        },
        (parsed matches Some(t) && 1 <= t <= max) ==> spec_position_from_parsed(parsed, max) is Some,
{
}

} // verus!
