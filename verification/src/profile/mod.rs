//! One's own profile, edited section by section; each section's edit is
//! sent to the server and its outcome arrives later in a shared table.
use std::collections::HashMap;
use vstd::prelude::*;

use crate::model::OpState;

pub mod details;
pub mod editor;

verus! {

broadcast use vstd::std_specs::hash::group_hash_axioms;

/// The state of one editable section and the id under which its pending
/// edit is tracked.
#[derive(Clone, Copy)]
pub struct ResourceCtx {
    pub editing: bool,
    pub op_id: u8,
}

impl ResourceCtx {
    /// A section that is shown, not edited, tracked under `idx` (taken modulo 256).
    pub fn provide(idx: usize) -> (r: Self)
        ensures
            !r.editing,
            r.op_id == idx as u8,
    {
        #[verifier::truncate]
        let op_id: u8 = idx as u8;
        ResourceCtx { editing: false, op_id }
    }

    /// Whether the section is being edited.
    pub fn editing(&self) -> (r: bool)
        ensures
            r == self.editing,
    {
        self.editing
    }

    /// Starts or stops editing.
    pub fn toggle_editing(&mut self)
        ensures
            final(self).editing == !old(self).editing,
            final(self).op_id == old(self).op_id,
    {
        self.editing = !self.editing;
    }

    /// While the section is edited, picks up the outcome of its pending
    /// edit: an outcome is removed from the table; success stops editing,
    /// failure keeps the section in edit. Without an outcome, or when the
    /// section is not edited, nothing changes.
    pub fn await_op(&mut self, ops: &mut HashMap<u8, OpState>)
        ensures
            final(self).op_id == old(self).op_id,
            final(self).editing == await_editing(old(self).editing, old(ops)@, old(self).op_id),
            final(ops)@ == await_ops(old(self).editing, old(ops)@, old(self).op_id),
    {
        if !self.editing {
            return;
        }
        let id = self.op_id;
        let returned = ops.remove(&id);
        match returned {
            Some(OpState::Success) => self.toggle_editing(),
            Some(OpState::Failure) => {},
            None => {},
        }
    }
}

impl ResourceCtx {
    /// The image editor's watch on the outcomes: a success recorded for the
    /// section is removed and toggles editing; a failure, or no outcome,
    /// leaves both as they are.
    pub fn take_success(&mut self, ops: &mut HashMap<u8, OpState>)
        ensures
            final(self).op_id == old(self).op_id,
            (old(ops)@.contains_key(old(self).op_id) && old(ops)@[old(self).op_id] == OpState::Success)
                ==> {
                &&& final(ops)@ == old(ops)@.remove(old(self).op_id)
                &&& final(self).editing == !old(self).editing
            },
            !(old(ops)@.contains_key(old(self).op_id) && old(ops)@[old(self).op_id] == OpState::Success)
                ==> {
                &&& final(ops)@ == old(ops)@
                &&& final(self).editing == old(self).editing
            },
    {
        let id = self.op_id;
        let is_success = match ops.get(&id) {
            Some(state) => *state == OpState::Success,
            None => false,
        };
        if is_success {
            ops.remove(&id);
            self.toggle_editing();
        }
    }
}

/// Whether a section stays in edit after `await_op`.
pub open spec fn await_editing(editing: bool, ops: Map<u8, OpState>, id: u8) -> bool {
    if editing && ops.contains_key(id) && ops[id] == OpState::Success {
        false
    } else {
        editing
    }
}

/// The table of outcomes after `await_op`.
pub open spec fn await_ops(editing: bool, ops: Map<u8, OpState>, id: u8) -> Map<u8, OpState> {
    if editing {
        ops.remove(id)
    } else {
        ops
    }
}

/// Picking up an outcome never starts an edit; while editing, the section's
/// own outcome is consumed, so a second pick-up changes nothing; other
/// sections' outcomes stay in the table.
pub proof fn law_await_op_consumes_own_outcome(editing: bool, ops: Map<u8, OpState>, id: u8)
    ensures
        await_editing(editing, ops, id) ==> editing,
        editing ==> !await_ops(editing, ops, id).contains_key(id),
        await_ops(
            await_editing(editing, ops, id),
            await_ops(editing, ops, id),
            id,
        ) == await_ops(editing, ops, id),
        await_editing(
            await_editing(editing, ops, id),
            await_ops(editing, ops, id),
            id,
        ) == await_editing(editing, ops, id),
        forall|k: u8| k != id ==> #[trigger] await_ops(editing, ops, id).contains_key(k)
            == ops.contains_key(k),
{
    if editing {
        assert(ops.remove(id).remove(id) =~= ops.remove(id));
    }
}

/// While a section is edited: a recorded success ends the edit, a recorded
/// failure keeps it, and without an outcome nothing changes; a section that
/// is not edited ignores the table.
pub proof fn law_await_op_outcomes(ops: Map<u8, OpState>, id: u8)
    ensures
        ops.contains_key(id) && ops[id] == OpState::Success ==> !await_editing(true, ops, id),
        ops.contains_key(id) && ops[id] == OpState::Failure ==> await_editing(true, ops, id),
        !ops.contains_key(id) ==> await_editing(true, ops, id) && await_ops(true, ops, id) == ops,
        !await_editing(false, ops, id) && await_ops(false, ops, id) == ops,
{
    if !ops.contains_key(id) {
        assert(ops.remove(id) =~= ops);
    }
}

} // verus!
