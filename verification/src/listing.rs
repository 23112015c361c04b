//! Lists of other people's profiles: those liked, those skipped, and those
//! still to decide on (swiped one at a time).
use vstd::prelude::*;

use crate::model::{Decision, Person};

verus! {

/// What a listing shows: profiles with the decision `wants`, or those with
/// no decision yet when `wants` is `None`.
#[derive(Clone, Copy, PartialEq, Eq, Structural, Debug)]
pub struct ListingCtx {
    pub wants: Option<Decision>,
}

/// The listing of liked profiles.
#[allow(non_snake_case)]
pub fn LikedProfiles() -> (r: ListingCtx)
    ensures
        r.wants == Some(Decision::Like),
{
    ListingCtx { wants: Some(Decision::Like) }
}

/// The listing of skipped profiles.
#[allow(non_snake_case)]
pub fn SkippedProfiles() -> (r: ListingCtx)
    ensures
        r.wants == Some(Decision::Skip),
{
    ListingCtx { wants: Some(Decision::Skip) }
}

/// The listing of profiles still to decide on.
#[allow(non_snake_case)]
pub fn SwipeProfiles() -> (r: ListingCtx)
    ensures
        r.wants is None,
{
    ListingCtx { wants: None }
}

/// The condition on the stored decision in the query for a listing: equal
/// to the decision asked for (bound as the second parameter), or absent.
pub open spec fn spec_decision_condition(wants: Option<Decision>) -> Seq<char> {
    if wants is Some {
        " = $2"@
    } else {
        "IS NULL"@
    }
}

/// The condition on the stored decision in the query for a listing.
pub fn decision_condition(wants: Option<Decision>) -> (r: &'static str)
    ensures
        r@ == spec_decision_condition(wants),
{
    if wants.is_some() {
        " = $2"
    } else {
        "IS NULL"
    }
}

/// Whether the listing shows only its first profile: so it does while
/// swiping.
pub fn shows_only_first(ctx: ListingCtx) -> (r: bool)
    ensures
        r == (ctx.wants is None),
{
    ctx.wants.is_none()
}

/// The profiles of `s` other than the one with id `id`, in order.
pub open spec fn without_person(s: Seq<Person>, id: i32) -> Seq<Person>
    decreases s.len(),
{
    if s.len() == 0 {
        seq![]
    } else {
        let rest = without_person(s.drop_last(), id);
        if s.last().id != Some(id) {
            rest.push(s.last())
        } else {
            rest
        }
    }
}

/// `without_person` of a sequence extended by one profile.
proof fn lemma_without_person_push(s: Seq<Person>, p: Person, id: i32)
    ensures
        without_person(s.push(p), id) == if p.id != Some(id) {
            without_person(s, id).push(p)
        } else {
            without_person(s, id)
        },
{
    assert(s.push(p).drop_last() =~= s);
}

/// Removes from a listing the profile that was just decided on.
pub fn retain_others(profiles: &mut Vec<Person>, id: i32)
    ensures
        final(profiles)@ == without_person(old(profiles)@, id),
{
    let ghost start = profiles@;
    let mut i: usize = 0;
    let ghost mut k: int = 0;
    while i < profiles.len()
        invariant
            0 <= i <= profiles.len(),
            0 <= k <= start.len(),
            profiles@.len() - i == start.len() - k,
            profiles@.subrange(0, i as int) == without_person(start.subrange(0, k), id),
            profiles@.subrange(i as int, profiles@.len() as int) == start.subrange(k, start.len() as int),
        decreases profiles.len() - i,
    {
        let ghost before = profiles@;
        proof {
            assert(before.subrange(i as int, before.len() as int)[0] == before[i as int]);
            assert(start.subrange(k, start.len() as int)[0] == start[k]);
            assert(before[i as int] == start[k]);
            assert(start.subrange(0, k + 1) =~= start.subrange(0, k).push(start[k]));
            lemma_without_person_push(start.subrange(0, k), start[k], id);
        }
        if profiles[i].id == Some(id) {
            profiles.remove(i);
            proof {
                assert(profiles@.subrange(0, i as int) =~= before.subrange(0, i as int));
                let sb = before.subrange(i as int, before.len() as int);
                let ss = start.subrange(k, start.len() as int);
                assert(profiles@.subrange(i as int, profiles@.len() as int) =~= sb.subrange(1, sb.len() as int));
                assert(start.subrange(k + 1, start.len() as int) =~= ss.subrange(1, ss.len() as int));
                assert(profiles@.subrange(i as int, profiles@.len() as int) =~= start.subrange(
                    k + 1,
                    start.len() as int,
                ));
            }
        } else {
            i = i + 1;
            proof {
                assert(profiles@.subrange(0, i as int) =~= before.subrange(0, i - 1).push(before[i - 1]));
                let sb = before.subrange(i - 1, before.len() as int);
                let ss = start.subrange(k, start.len() as int);
                assert(profiles@.subrange(i as int, profiles@.len() as int) =~= sb.subrange(1, sb.len() as int));
                assert(start.subrange(k + 1, start.len() as int) =~= ss.subrange(1, ss.len() as int));
                assert(profiles@.subrange(i as int, profiles@.len() as int) =~= start.subrange(
                    k + 1,
                    start.len() as int,
                ));
            }
        }
        proof {
            k = k + 1;
        }
    }
    proof {
        assert(start.subrange(k, start.len() as int).len() == 0);
        assert(k == start.len());
        assert(start.subrange(0, k) =~= start);
        assert(profiles@ =~= profiles@.subrange(0, i as int));
    }
}

/// Removing a profile from a listing leaves no profile with its id, keeps
/// every other profile in order, and removing it again changes nothing.
pub proof fn law_retain_removes_only_decided(s: Seq<Person>, id: i32)
    ensures
        forall|j: int| 0 <= j < without_person(s, id).len() ==> (#[trigger] without_person(s, id)[j]).id
            != Some(id),
        without_person(without_person(s, id), id) == without_person(s, id),
        (forall|j: int| 0 <= j < s.len() ==> (#[trigger] s[j]).id != Some(id)) ==> without_person(s, id)
            == s,
        without_person(s, id).len() <= s.len(),
    decreases s.len(),
{
    if s.len() > 0 {
        let t = s.drop_last();
        law_retain_removes_only_decided(t, id);
        let r = without_person(t, id);
        if s.last().id != Some(id) {
            assert(r.push(s.last()).drop_last() =~= r);
        }
        if forall|j: int| 0 <= j < s.len() ==> (#[trigger] s[j]).id != Some(id) {
            assert forall|j: int| 0 <= j < t.len() implies (#[trigger] t[j]).id != Some(id) by {
                assert(t[j] == s[j]);
            }
            assert(s.last() == s[s.len() - 1]);
            assert(t.push(s.last()) =~= s);
        }
    }
}

/// The ids of the profiles that have one, in order: the profiles a listing
/// shows.
pub open spec fn spec_listed_ids(s: Seq<Person>) -> Seq<i32>
    decreases s.len(),
{
    if s.len() == 0 {
        seq![]
    } else {
        let rest = spec_listed_ids(s.drop_last());
        match s.last().id {
            Some(id) => rest.push(id),
            None => rest,
        }
    }
}

/// The ids of the profiles a listing shows.
pub fn listed_ids(profiles: &Vec<Person>) -> (r: Vec<i32>)
    ensures
        r@ == spec_listed_ids(profiles@),
{
    let mut r: Vec<i32> = Vec::new();
    for i in 0..profiles.len()
        invariant
            r@ == spec_listed_ids(profiles@.take(i as int)),
    {
        proof {
            assert(profiles@.take(i + 1).drop_last() =~= profiles@.take(i as int));
        }
        match profiles[i].id {
            Some(id) => r.push(id),
            None => {},
        }
    }
    proof {
        assert(profiles@.take(profiles.len() as int) =~= profiles@);
    }
    r
}

/// Once a decision about the profile with id `id` was sent, a listing drops
/// that profile when the server confirmed the decision (`Some(true)`), and
/// keeps it otherwise.
pub fn after_decision(profiles: &mut Vec<Person>, id: i32, confirmed: Option<bool>)
    ensures
        confirmed == Some(true) ==> final(profiles)@ == without_person(old(profiles)@, id),
        confirmed != Some(true) ==> final(profiles)@ == old(profiles)@,
{
    if confirmed == Some(true) {
        retain_others(profiles, id);
    }
}

/// Dropping a decided profile keeps exactly the profiles with another id
/// (those without an id included), in their order.
pub proof fn law_retain_is_filter(s: Seq<Person>, id: i32)
    ensures
        without_person(s, id) == s.filter(|p: Person| p.id != Some(id)),
    decreases s.len(),
{
    reveal_with_fuel(Seq::<Person>::filter, 1);
    if s.len() > 0 {
        law_retain_is_filter(s.drop_last(), id);
    }
}

} // verus!
