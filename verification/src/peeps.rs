//! The first listing of people, decided on with a yes or a no.
use vstd::prelude::*;

verus! {

/// A yes or a no about someone.
#[derive(Clone, Copy, PartialEq, Eq, Structural, Debug)]
pub enum Liked {
    Yes,
    No,
}

/// Someone in the first listing, and what was decided about them.
pub struct Peep {
    pub id: String,
    pub liked: Option<Liked>,
}

/// Whether the index `i` holds the first person with id `id`.
pub open spec fn is_first_with_id(s: Seq<Peep>, id: Seq<char>, i: int) -> bool {
    &&& 0 <= i < s.len()
    &&& s[i].id@ == id
    &&& forall|j: int| 0 <= j < i ==> (#[trigger] s[j]).id@ != id
}

/// Records a decision about the first person with id `id`; everyone else,
/// and everything when nobody has that id, stays as it was.
pub fn set_liked(peeps: &mut Vec<Peep>, id: &String, liked: Liked)
    ensures
        final(peeps)@.len() == old(peeps)@.len(),
        forall|i: int| #[trigger] is_first_with_id(old(peeps)@, id@, i) ==> {
            &&& final(peeps)@[i].liked == Some(liked)
            &&& final(peeps)@[i].id == old(peeps)@[i].id
            &&& forall|j: int| 0 <= j < old(peeps)@.len() && j != i ==> #[trigger] final(peeps)@[j]
                == old(peeps)@[j]
        },
        (forall|i: int| 0 <= i < old(peeps)@.len() ==> (#[trigger] old(peeps)@[i]).id@ != id@)
            ==> final(peeps)@ == old(peeps)@,
{
    let n = peeps.len();
    let ghost start = peeps@;
    for i in 0..n
        invariant
            n == peeps.len(),
            peeps@ == start,
            start == old(peeps)@,
            forall|j: int| 0 <= j < i ==> (#[trigger] start[j]).id@ != id@,
    {
        if peeps[i].id == *id {
            peeps[i].liked = Some(liked);
            proof {
                assert forall|k: int| #[trigger] is_first_with_id(start, id@, k) implies k == i by {
                    if k < i {
                    } else if k > i {
                        assert(start[i as int].id@ == id@);
                    }
                }
            }
            return;
        }
    }
}

/// The yes button is offered unless the answer is already yes.
pub fn offers_yes(liked: Option<Liked>) -> (r: bool)
    ensures
        r == (liked != Some(Liked::Yes)),
{
    match liked {
        Some(Liked::Yes) => false,
        _ => true,
    }
}

/// The no button is offered unless the answer is already no.
pub fn offers_no(liked: Option<Liked>) -> (r: bool)
    ensures
        r == (liked != Some(Liked::No)),
{
    match liked {
        Some(Liked::No) => false,
        _ => true,
    }
}

} // verus!
