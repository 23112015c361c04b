//! Another person's profile, or one's own, as shown and edited section by section.
use vstd::prelude::*;

pub mod details;
pub mod prompt_editor;
pub mod utils;

verus! {

/// The state of one editable section (a prompt, an image or the personal
/// data): `0` shown, `1` being edited, `2` being saved.
pub struct ResourceCtx {
    state: u8,
}

impl ResourceCtx {
    /// The section's state never leaves `0..=2`.
    #[verifier::type_invariant]
    spec fn inv(self) -> bool {
        self.state <= 2
    }

    /// The state of the section: `0` shown, `1` edited, `2` saved.
    pub closed spec fn spec_state(self) -> u8 {
        self.state
    }

    /// Whether the section is being edited or saved.
    pub open spec fn spec_editing(self) -> bool {
        self.spec_state() >= 1
    }

    /// A section that is shown, not edited.
    pub fn provide() -> (r: Self)
        ensures
            r.spec_state() == 0,
    {
        ResourceCtx { state: 0 }
    }

    /// The state of the section.
    pub fn state(&self) -> (r: u8)
        ensures
            r == self.spec_state(),
            r <= 2,
    {
        proof { use_type_invariant(self); }
        self.state
    }

    /// Whether the section is being edited or saved.
    pub fn editing(&self) -> (r: bool)
        ensures
            r == self.spec_editing(),
    {
        self.state >= 1
    }

    /// Shown becomes edited, edited becomes saved, saved becomes shown.
    pub fn next_state(&mut self)
        ensures
            final(self).spec_state() == next_of(old(self).spec_state()),
            final(self).spec_state() <= 2,
    {
        proof { use_type_invariant(&*self); }
        let curr = self.state;
        self.state = if curr == 2 { 0 } else { curr + 1 };
    }
}

/// The state that follows `s` in the cycle shown, edited, saved.
pub open spec fn next_of(s: u8) -> u8 {
    if s == 2 { 0 } else { (s + 1) as u8 }
}

/// Three steps bring a section back to the state it was in.
pub proof fn law_next_state_cycles(s: u8)
    requires
        s <= 2,
    ensures
        next_of(next_of(next_of(s))) == s,
        next_of(s) <= 2,
{
}

/// From shown, one step starts editing and a second keeps the section busy
/// while it is saved; the third shows it again.
pub proof fn law_edit_then_save_then_show()
    ensures
        next_of(0) == 1 && next_of(1) == 2 && next_of(2) == 0,
{
}

} // verus!
