//! Editing one prompt of one's own profile: the prompt is removed from the
//! list, put back at the position the user chose (or left out, which deletes
//! it), and the positions of all prompts are renumbered.
use vstd::prelude::*;

use crate::model::{Prompt, PromptView};
use crate::person::ResourceCtx;
use crate::person::next_of;

verus! {

/// The views of a sequence of prompts.
pub open spec fn prompt_views(v: Seq<Prompt>) -> Seq<PromptView> {
    v.map_values(|p: Prompt| p@)
}

/// The prompts of `s` whose id differs from `id`, in their order.
pub open spec fn without_id(s: Seq<PromptView>, id: Option<i32>) -> Seq<PromptView>
    decreases s.len(),
{
    if s.len() == 0 {
        seq![]
    } else {
        let rest = without_id(s.drop_last(), id);
        if s.last().id != id {
            rest.push(s.last())
        } else {
            rest
        }
    }
}

/// A prompt with a position, a title and a body stays on the profile;
/// one that lacks any of them is removed.
pub open spec fn is_kept(p: PromptView) -> bool {
    &&& p.position is Some
    &&& p.title.len() > 0
    &&& p.body.len() > 0
}

/// The prompts once `edited` has been taken out and, when it is kept,
/// put back at its position.
pub open spec fn placed(mine: Seq<PromptView>, edited: PromptView) -> Seq<PromptView> {
    let others = without_id(mine, edited.id);
    if is_kept(edited) {
        others.insert(edited.position->0 as int, edited)
    } else {
        others
    }
}

/// Whether `placed` is defined: a kept prompt's position lies within the
/// other prompts, ends included.
pub open spec fn placeable(mine: Seq<PromptView>, edited: PromptView) -> bool {
    is_kept(edited) ==> 0 <= edited.position->0 <= without_id(mine, edited.id).len()
}

/// `p` standing at index `i`: a position that is set becomes `i`.
pub open spec fn renumber_at(p: PromptView, i: int) -> PromptView {
    if p.position is Some {
        PromptView { position: Some(i as i16), ..p }
    } else {
        p
    }
}

/// Every prompt with a position gets its index as position.
pub open spec fn renumbered(s: Seq<PromptView>) -> Seq<PromptView> {
    Seq::new(s.len(), |i: int| renumber_at(s[i], i))
}

/// The (id, new position) pairs of the prompts whose set position differs
/// from their index, in order: what the server must be told to re-sort.
pub open spec fn moves(s: Seq<PromptView>) -> Seq<(Option<i32>, Option<i16>)>
    decreases s.len(),
{
    if s.len() == 0 {
        seq![]
    } else {
        let i = s.len() - 1;
        let rest = moves(s.drop_last());
        if s.last().position is Some && s.last().position->0 != (i as i16) {
            rest.push((s.last().id, Some(i as i16)))
        } else {
            rest
        }
    }
}

/// A new prompt (no id yet) that lacks a position, a title or a body:
/// submitting it only closes the editor.
pub open spec fn spec_new_but_empty(p: PromptView) -> bool {
    p.id is None && !is_kept(p)
}

/// A stored prompt (it has an id) that lacks a position, a title or a body:
/// submitting it deletes it.
pub open spec fn spec_to_be_deleted(p: PromptView) -> bool {
    p.id is Some && !is_kept(p)
}

/// Whether `p` stays on the profile once submitted.
pub fn kept(p: &Prompt) -> (r: bool)
    ensures
        r == is_kept(p@),
{
    p.position.is_some() && !p.title.as_str().is_empty() && !p.body.as_str().is_empty()
}

/// Whether `p` is new and lacks a position, a title or a body.
pub fn new_but_empty(p: &Prompt) -> (r: bool)
    ensures
        r == spec_new_but_empty(p@),
{
    p.id.is_none() && !kept(p)
}

/// Whether `p` is stored and lacks a position, a title or a body.
pub fn to_be_deleted(p: &Prompt) -> (r: bool)
    ensures
        r == spec_to_be_deleted(p@),
{
    p.id.is_some() && !kept(p)
}

/// Copies of the prompts of `mine` whose id differs from `id`, in order.
pub fn others_than(mine: &Vec<Prompt>, id: Option<i32>) -> (r: Vec<Prompt>)
    ensures
        prompt_views(r@) == without_id(prompt_views(mine@), id),
{
    let mut r: Vec<Prompt> = Vec::new();
    let ghost all = prompt_views(mine@);
    for i in 0..mine.len()
        invariant
            all == prompt_views(mine@),
            prompt_views(r@) == without_id(all.take(i as int), id),
    {
        proof {
            assert(all.take(i + 1).drop_last() =~= all.take(i as int));
            assert(all.take(i + 1).last() == mine@[i as int]@);
        }
        if mine[i].id != id {
            let p = mine[i].duplicate();
            r.push(p);
            proof {
                assert(prompt_views(r@) =~= without_id(all.take(i as int), id).push(p@));
            }
        }
    }
    proof {
        assert(all.take(mine.len() as int) =~= all);
    }
    r
}

/// Gives every prompt of `draft` that has a position its index as position,
/// and returns the (id, new position) of each prompt whose position changed.
pub fn renumber(draft: &mut Vec<Prompt>) -> (moved: Vec<(Option<i32>, Option<i16>)>)
    ensures
        prompt_views(final(draft)@) == renumbered(prompt_views(old(draft)@)),
        moved@ == moves(prompt_views(old(draft)@)),
{
    let ghost start = prompt_views(draft@);
    let mut moved: Vec<(Option<i32>, Option<i16>)> = Vec::new();
    let n = draft.len();
    for idx in 0..n
        invariant
            n == draft.len(),
            start.len() == n,
            forall|j: int| 0 <= j < idx ==> #[trigger] draft@[j]@ == renumber_at(start[j], j),
            forall|j: int| idx <= j < n ==> #[trigger] draft@[j]@ == start[j],
            moved@ == moves(start.take(idx as int)),
    {
        proof {
            assert(start.take(idx + 1).drop_last() =~= start.take(idx as int));
            assert(draft@[idx as int]@ == start[idx as int]);
        }
        #[verifier::truncate]
        let at: i16 = idx as i16;
        match draft[idx].position {
            Some(pos) => {
                if pos != at {
                    moved.push((draft[idx].id, Some(at)));
                }
                draft[idx].position = Some(at);
            },
            None => {},
        }
        assert(draft@[idx as int]@ == renumber_at(start[idx as int], idx as int));
    }
    proof {
        assert(start.take(n as int) =~= start);
        assert(prompt_views(draft@) =~= renumbered(start));
    }
    moved
}

/// The prompts of a profile after an edit, and the positions to send along.
pub struct PromptUpdate {
    /// The prompts in their new order, positions renumbered.
    pub draft: Vec<Prompt>,
    /// The (id, new position) of each prompt whose position changed.
    pub sorter: Vec<(Option<i32>, Option<i16>)>,
}

/// Takes `edited` out of `mine`, puts it back at its position when it is
/// kept, and renumbers the positions.
pub fn plan_prompt_update(mine: &Vec<Prompt>, edited: &Prompt) -> (r: PromptUpdate)
    requires
        placeable(prompt_views(mine@), edited@),
    ensures
        prompt_views(r.draft@) == renumbered(placed(prompt_views(mine@), edited@)),
        r.sorter@ == moves(placed(prompt_views(mine@), edited@)),
{
    let mut draft = others_than(mine, edited.id);
    let ghost others = prompt_views(draft@);
    if kept(edited) {
        let pos = edited.position.unwrap();
        let p = edited.duplicate();
        draft.insert(pos as usize, p);
        proof {
            assert(prompt_views(draft@) =~= others.insert(pos as int, edited@));
        }
    }
    assert(prompt_views(draft@) == placed(prompt_views(mine@), edited@));
    let sorter = renumber(&mut draft);
    PromptUpdate { draft, sorter }
}

/// `draft` with the prompt at `position` given the id `inserted_id`, when
/// the server returned an id and that position lies in `draft`.
pub open spec fn with_inserted_id(
    draft: Seq<PromptView>,
    position: Option<i16>,
    inserted_id: Option<i32>,
) -> Seq<PromptView> {
    if inserted_id is Some && position is Some && 0 <= position->0 < draft.len() {
        let i = position->0 as int;
        draft.update(i, PromptView { id: inserted_id, ..draft[i] })
    } else {
        draft
    }
}

/// Gives the newly inserted prompt, found by its position, the id that the
/// server returned.
pub fn adopt_inserted_id(draft: &mut Vec<Prompt>, position: Option<i16>, inserted_id: Option<i32>)
    ensures
        prompt_views(final(draft)@) == with_inserted_id(prompt_views(old(draft)@), position, inserted_id),
{
    if inserted_id.is_some() {
        if let Some(pos) = position {
            if 0 <= pos && (pos as usize) < draft.len() {
                draft[pos as usize].id = inserted_id;
                proof {
                    assert(prompt_views(draft@) =~= with_inserted_id(
                        prompt_views(old(draft)@),
                        position,
                        inserted_id,
                    ));
                }
            }
        }
    }
}

/// What the server answered to a prompt edit.
pub struct ModResponse {
    pub authorized: bool,
    pub sorted: i64,
    pub deleted: i64,
    pub updated: i64,
    pub inserted_id: Option<i32>,
}

/// Starts submitting the edited prompt: the section goes to its next state;
/// a new prompt that is empty is not sent, the section moves on once more
/// and `None` comes back; otherwise the planned update comes back.
pub fn begin_prompt_submit(rcx: &mut ResourceCtx, mine: &Vec<Prompt>, edited: &Prompt) -> (r: Option<
    PromptUpdate,
>)
    requires
        placeable(prompt_views(mine@), edited@),
    ensures
        spec_new_but_empty(edited@) <==> r is None,
        spec_new_but_empty(edited@) ==> final(rcx).spec_state() == next_of(
            next_of(old(rcx).spec_state()),
        ),
        !spec_new_but_empty(edited@) ==> final(rcx).spec_state() == next_of(old(rcx).spec_state()),
        r matches Some(u) ==> {
            &&& prompt_views(u.draft@) == renumbered(placed(prompt_views(mine@), edited@))
            &&& u.sorter@ == moves(placed(prompt_views(mine@), edited@))
        },
{
    rcx.next_state();
    if new_but_empty(edited) {
        rcx.next_state();
        return None;
    }
    Some(plan_prompt_update(mine, edited))
}

/// Finishes submitting: when the server authorized the edit, the prompts
/// become the planned draft with the new prompt's id filled in; otherwise
/// they stay as they were (`None`). The section moves to its next state.
pub fn finish_prompt_submit(
    rcx: &mut ResourceCtx,
    draft: Vec<Prompt>,
    edited_position: Option<i16>,
    response: Option<ModResponse>,
) -> (r: Option<Vec<Prompt>>)
    ensures
        final(rcx).spec_state() == next_of(old(rcx).spec_state()),
        (r is Some) <==> (response matches Some(resp) && resp.authorized),
        r matches Some(v) ==> prompt_views(v@) == with_inserted_id(
            prompt_views(draft@),
            edited_position,
            response->0.inserted_id,
        ),
{
    let r = match response {
        Some(resp) => {
            if resp.authorized {
                let mut draft = draft;
                adopt_inserted_id(&mut draft, edited_position, resp.inserted_id);
                Some(draft)
            } else {
                None
            }
        },
        None => None,
    };
    rcx.next_state();
    r
}

/// No prompt left by `without_id` has the removed id, and none is invented:
/// each comes from `s`.
pub proof fn lemma_without_id(s: Seq<PromptView>, id: Option<i32>)
    ensures
        without_id(s, id).len() <= s.len(),
        forall|j: int| 0 <= j < without_id(s, id).len() ==> (#[trigger] without_id(s, id)[j]).id != id,
        forall|j: int| 0 <= j < without_id(s, id).len() ==> s.contains(#[trigger] without_id(s, id)[j]),
    decreases s.len(),
{
    if s.len() > 0 {
        lemma_without_id(s.drop_last(), id);
        let rest = without_id(s.drop_last(), id);
        assert forall|j: int| 0 <= j < without_id(s, id).len() implies s.contains(
            #[trigger] without_id(s, id)[j],
        ) by {
            if j < rest.len() {
                let k = choose|k: int| 0 <= k < s.drop_last().len() && s.drop_last()[k] == rest[j];
                assert(s[k] == rest[j]);
            } else {
                assert(s[s.len() - 1] == s.last());
            }
        }
    }
}

/// After renumbering, every prompt that has a position stands at it, only
/// positions change, and a second renumbering changes nothing.
pub proof fn law_renumbering_is_settled(s: Seq<PromptView>)
    ensures
        renumbered(s).len() == s.len(),
        forall|i: int| 0 <= i < s.len() && (#[trigger] renumbered(s)[i]).position is Some
            ==> renumbered(s)[i].position == Some(i as i16),
        forall|i: int| 0 <= i < s.len() ==> {
            &&& (#[trigger] renumbered(s)[i]).id == s[i].id
            &&& renumbered(s)[i].title == s[i].title
            &&& renumbered(s)[i].body == s[i].body
            &&& (renumbered(s)[i].position is Some <==> s[i].position is Some)
        },
        renumbered(renumbered(s)) == renumbered(s),
        moves(renumbered(s)) == Seq::<(Option<i32>, Option<i16>)>::empty(),
{
    let r = renumbered(s);
    assert(renumbered(r) =~= r);
    lemma_moves_of_settled(r);
}

/// A sequence whose set positions all equal their indices needs no moves.
proof fn lemma_moves_of_settled(s: Seq<PromptView>)
    requires
        forall|i: int| 0 <= i < s.len() && (#[trigger] s[i]).position is Some ==> s[i].position
            == Some(i as i16),
    ensures
        moves(s) == Seq::<(Option<i32>, Option<i16>)>::empty(),
    decreases s.len(),
{
    if s.len() > 0 {
        let t = s.drop_last();
        assert forall|i: int| 0 <= i < t.len() && (#[trigger] t[i]).position is Some implies t[i].position
            == Some(i as i16) by {
            assert(t[i] == s[i]);
        }
        lemma_moves_of_settled(t);
        assert(s.last() == s[s.len() - 1]);
    }
}

/// A kept prompt ends up at the position the user chose, exactly as edited,
/// and it is the only prompt there with its id; a prompt that is not kept
/// is gone: no prompt of the result has its id.
pub proof fn law_edited_prompt_lands_at_its_position(mine: Seq<PromptView>, edited: PromptView)
    requires
        placeable(mine, edited),
    ensures
        is_kept(edited) ==> {
            let pos = edited.position->0 as int;
            &&& renumbered(placed(mine, edited)).len() == without_id(mine, edited.id).len() + 1
            &&& renumbered(placed(mine, edited))[pos] == edited
            &&& forall|i: int| 0 <= i < renumbered(placed(mine, edited)).len() && i != pos
                ==> (#[trigger] renumbered(placed(mine, edited))[i]).id != edited.id
        },
        !is_kept(edited) ==> {
            &&& renumbered(placed(mine, edited)).len() == without_id(mine, edited.id).len()
            &&& forall|i: int| 0 <= i < renumbered(placed(mine, edited)).len()
                ==> (#[trigger] renumbered(placed(mine, edited))[i]).id != edited.id
        },
{
    lemma_without_id(mine, edited.id);
    let others = without_id(mine, edited.id);
    let p = placed(mine, edited);
    let r = renumbered(p);
    if is_kept(edited) {
        let pos = edited.position->0 as int;
        assert(p[pos] == edited);
        assert((pos as i16) == edited.position->0);
        assert(r[pos] =~= edited);
        assert forall|i: int| 0 <= i < r.len() && i != pos implies (#[trigger] r[i]).id != edited.id by {
            if i < pos {
                assert(p[i] == others[i]);
            } else {
                assert(p[i] == others[i - 1]);
            }
        }
    } else {
        assert forall|i: int| 0 <= i < r.len() implies (#[trigger] r[i]).id != edited.id by {
            assert(p[i] == others[i]);
        }
    }
}

/// Editing one prompt leaves the others as they were, in their order: taking
/// the edited prompt back out of the placed list gives the other prompts.
pub proof fn law_other_prompts_keep_their_order(mine: Seq<PromptView>, edited: PromptView)
    requires
        placeable(mine, edited),
    ensures
        is_kept(edited) ==> placed(mine, edited).remove(edited.position->0 as int) == without_id(
            mine,
            edited.id,
        ),
        !is_kept(edited) ==> placed(mine, edited) == without_id(mine, edited.id),
{
    if is_kept(edited) {
        let others = without_id(mine, edited.id);
        assert(others.insert(edited.position->0 as int, edited).remove(edited.position->0 as int)
            =~= others);
    }
}

/// Whether the prompt at index `i` of `s` has a position other than `i`:
/// the server must be told its new position.
pub open spec fn is_moved(s: Seq<PromptView>, i: int) -> bool {
    &&& 0 <= i < s.len()
    &&& s[i].position is Some
    &&& s[i].position->0 != (i as i16)
}

/// The sorter sent to the server names every prompt whose set position
/// differs from its index, with that index as new position, and nothing
/// else: each pair in it is the id and index of such a prompt, and there is
/// at most one pair per prompt.
pub proof fn law_every_moved_prompt_is_sent(s: Seq<PromptView>)
    ensures
        forall|i: int| #[trigger] is_moved(s, i) ==> moves(s).contains((s[i].id, Some(i as i16))),
        forall|k: int| #![trigger moves(s)[k]] 0 <= k < moves(s).len() ==> exists|i: int| #[trigger] is_moved(s, i) && moves(s)[k]
            == (s[i].id, Some(i as i16)),
        moves(s).len() <= s.len(),
    decreases s.len(),
{
    if s.len() > 0 {
        let t = s.drop_last();
        let n = s.len() - 1;
        law_every_moved_prompt_is_sent(t);
        let rest = moves(t);
        assert(s.last() == s[n]);
        if is_moved(s, n) {
            assert(moves(s) == rest.push((s[n].id, Some(n as i16))));
        } else {
            assert(moves(s) == rest);
        }
        assert forall|i: int| #[trigger] is_moved(s, i) implies moves(s).contains((s[i].id, Some(i as i16))) by {
            if i < n {
                assert(t[i] == s[i]);
                assert(is_moved(t, i));
                let k = choose|k: int| 0 <= k < rest.len() && rest[k] == (t[i].id, Some(i as i16));
                assert(moves(s)[k] == rest[k]);
            } else {
                assert(s.last() == s[n]);
                assert(moves(s) == rest.push((s[n].id, Some(n as i16))));
                assert(moves(s)[rest.len() as int] == (s[n].id, Some(n as i16)));
            }
        }
        assert forall|k: int| #![trigger moves(s)[k]] 0 <= k < moves(s).len() implies exists|i: int| #[trigger] is_moved(s, i)
            && moves(s)[k] == (s[i].id, Some(i as i16)) by {
            if k < rest.len() {
                let i = choose|i: int| #[trigger] is_moved(t, i) && rest[k] == (t[i].id, Some(i as i16));
                assert(t[i] == s[i]);
                assert(is_moved(s, i));
                assert(moves(s)[k] == rest[k]);
            } else {
                assert(is_moved(s, n));
                assert(moves(s)[k] == (s[n].id, Some(n as i16)));
            }
        }
    }
}

/// Adopting the id the server returned gives it to the prompt at the given
/// position, wherever that position lies in the draft (the last one
/// included), and leaves everything else as it was; without a returned id,
/// or with a position outside the draft, nothing changes.
pub proof fn law_inserted_id_is_adopted(draft: Seq<PromptView>, position: Option<i16>, inserted_id: Option<i32>)
    ensures
        with_inserted_id(draft, position, inserted_id).len() == draft.len(),
        (inserted_id is Some && position is Some && 0 <= position->0 < draft.len()) ==> {
            let r = with_inserted_id(draft, position, inserted_id);
            let p = position->0 as int;
            &&& r[p].id == inserted_id
            &&& r[p].position == draft[p].position
            &&& r[p].title == draft[p].title
            &&& r[p].body == draft[p].body
            &&& forall|j: int| 0 <= j < draft.len() && j != p ==> #[trigger] r[j] == draft[j]
        },
        !(inserted_id is Some && position is Some && 0 <= position->0 < draft.len()) ==> with_inserted_id(
            draft,
            position,
            inserted_id,
        ) == draft,
{
}

/// Taking a prompt out keeps exactly the prompts with another id, in their
/// order: it is the filter of the list by a different id.
pub proof fn law_without_id_is_filter(s: Seq<PromptView>, id: Option<i32>)
    ensures
        without_id(s, id) == s.filter(|p: PromptView| p.id != id),
    decreases s.len(),
{
    reveal_with_fuel(Seq::<PromptView>::filter, 1);
    if s.len() > 0 {
        law_without_id_is_filter(s.drop_last(), id);
    }
}

/// The sorter split into its ids and its positions, pair by pair, as the
/// query takes them.
pub fn unzip_sorter(sorter: &Vec<(Option<i32>, Option<i16>)>) -> (r: (Vec<Option<i32>>, Vec<Option<i16>>))
    ensures
        r.0@.len() == sorter@.len(),
        r.1@.len() == sorter@.len(),
        forall|i: int| 0 <= i < sorter@.len() ==> r.0@[i] == (#[trigger] sorter@[i]).0 && r.1@[i] == sorter@[i].1,
{
    let mut ids: Vec<Option<i32>> = Vec::new();
    let mut positions: Vec<Option<i16>> = Vec::new();
    for i in 0..sorter.len()
        invariant
            ids@.len() == i,
            positions@.len() == i,
            forall|j: int| 0 <= j < i ==> ids@[j] == (#[trigger] sorter@[j]).0 && positions@[j] == sorter@[j].1,
    {
        let (id, pos) = sorter[i];
        ids.push(id);
        positions.push(pos);
    }
    (ids, positions)
}

} // verus!
