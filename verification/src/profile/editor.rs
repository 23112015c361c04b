//! The editors of one prompt or one image of one's own profile: whether the
//! draft is new, empty or changed decides what submitting does, which
//! button overrides the save button and how the editor is styled.
use vstd::prelude::*;

use crate::model::{Image, ImageView, Prompt, PromptView, opt_bytes_view, opt_str_view};
use crate::person::prompt_editor::{is_kept, kept};
use crate::profile::ResourceCtx;

verus! {

/// What an editor's draft is, compared with what is stored.
#[derive(Clone, Copy, PartialEq, Eq, Structural, Debug)]
pub struct EditorFlags {
    /// Nothing is stored for it yet.
    pub is_new: bool,
    /// It lacks what it needs to be stored.
    pub is_empty: bool,
    /// It differs from what is stored (always so for a new one).
    pub has_changes: bool,
}

/// What submitting an editor does.
#[derive(Clone, Copy, PartialEq, Eq, Structural, Debug)]
pub enum SubmitAction {
    /// Close the editor without sending anything.
    CloseEditor,
    /// Send the draft to the server.
    Send,
}

/// The button shown in place of the save button.
#[derive(Clone, Copy, PartialEq, Eq, Structural, Debug)]
pub enum OverrideButton {
    /// Nothing to save: the button cancels.
    Cancel,
    /// A stored item was emptied: the button deletes it.
    Delete,
}

/// Whether submitting the editor only closes it: a new draft that is empty,
/// or a stored one that is unchanged.
pub open spec fn closes_only(f: EditorFlags) -> bool {
    (f.is_new && f.is_empty) || (!f.is_new && !f.has_changes)
}

/// The prompt editor's flags.
pub open spec fn spec_prompt_flags(src: Option<PromptView>, draft: PromptView) -> EditorFlags {
    EditorFlags {
        is_new: draft.id is None,
        is_empty: !is_kept(draft),
        has_changes: match src {
            Some(s) => s.title != draft.title || s.body != draft.body || s.position != draft.position,
            None => true,
        },
    }
}

/// Whether an image has a file, by URL or by bytes.
pub open spec fn has_file(img: ImageView) -> bool {
    img.bytes is Some || img.url is Some
}

/// The image editor's flags; the file of two images is the same when their
/// URLs and their bytes are.
pub open spec fn spec_image_flags(src: Option<ImageView>, draft: ImageView) -> EditorFlags {
    EditorFlags {
        is_new: draft.id is None,
        is_empty: !has_file(draft) || draft.position is None,
        has_changes: match src {
            Some(s) => s.position != draft.position || s.prompt != draft.prompt || s.url != draft.url
                || s.bytes != draft.bytes,
            None => true,
        },
    }
}

/// The class of an editor's container: the default save button is hidden
/// when there is nothing to save.
pub open spec fn spec_editor_class(hide_save: bool) -> Seq<char> {
    if hide_save {
        "grid grid-cols-[1fr_auto] gap-2 [&>input]:text-xl [&>button]:last:hidden"@
    } else {
        "grid grid-cols-[1fr_auto] gap-2 [&>input]:text-xl"@
    }
}

/// The class of an editor's container; the default save button is hidden
/// when the draft is empty or unchanged.
pub fn container_class(is_empty: bool, has_changes: bool) -> (r: String)
    ensures
        r@ == spec_editor_class(is_empty || !has_changes),
{
    if is_empty || !has_changes {
        String::from_str("grid grid-cols-[1fr_auto] gap-2 [&>input]:text-xl [&>button]:last:hidden")
    } else {
        String::from_str("grid grid-cols-[1fr_auto] gap-2 [&>input]:text-xl")
    }
}

/// The button that replaces the save button: cancel when submitting only
/// closes the editor; delete when a stored item was emptied; none otherwise.
pub fn button_override(is_new: bool, is_empty: bool, has_changes: bool) -> (r: Option<OverrideButton>)
    ensures
        closes_only(EditorFlags { is_new, is_empty, has_changes }) ==> r == Some(OverrideButton::Cancel),
        !closes_only(EditorFlags { is_new, is_empty, has_changes }) && !is_new && is_empty ==> r == Some(
            OverrideButton::Delete,
        ),
        !closes_only(EditorFlags { is_new, is_empty, has_changes }) && !(!is_new && is_empty) ==> r is None,
{
    if is_new && is_empty || !is_new && !has_changes {
        Some(OverrideButton::Cancel)
    } else if !is_new && is_empty {
        Some(OverrideButton::Delete)
    } else {
        None
    }
}

fn same_opt_str(a: &Option<String>, b: &Option<String>) -> (r: bool)
    ensures
        r == (opt_str_view(*a) == opt_str_view(*b)),
{
    match (a, b) {
        (Some(x), Some(y)) => *x == *y,
        (None, None) => true,
        _ => false,
    }
}

fn same_bytes(a: &Vec<u8>, b: &Vec<u8>) -> (r: bool)
    ensures
        r == (a@ == b@),
{
    if a.len() != b.len() {
        return false;
    }
    let n = a.len();
    for i in 0..n
        invariant
            n == a.len(),
            n == b.len(),
            forall|j: int| 0 <= j < i ==> a@[j] == b@[j],
    {
        if a[i] != b[i] {
            return false;
        }
    }
    assert(a@ =~= b@);
    true
}

fn same_opt_bytes(a: &Option<Vec<u8>>, b: &Option<Vec<u8>>) -> (r: bool)
    ensures
        r == (opt_bytes_view(*a) == opt_bytes_view(*b)),
{
    match (a, b) {
        (Some(x), Some(y)) => same_bytes(x, y),
        (None, None) => true,
        _ => false,
    }
}

impl EditorFlags {
    /// The flags of a prompt editor whose stored prompt is `src` (none for a
    /// new one) and whose draft is `draft`.
    pub fn for_prompt(src: Option<&Prompt>, draft: &Prompt) -> (r: Self)
        ensures
            r == spec_prompt_flags(
                match src {
                    Some(s) => Some(s@),
                    None => None,
                },
                draft@,
            ),
    {
        let has_changes = match src {
            Some(s) => s.title != draft.title || s.body != draft.body || s.position != draft.position,
            None => true,
        };
        EditorFlags { is_new: draft.id.is_none(), is_empty: !kept(draft), has_changes }
    }

    /// The flags of an image editor whose stored image is `src` (none for a
    /// new one) and whose draft is `draft`.
    pub fn for_image(src: Option<&Image>, draft: &Image) -> (r: Self)
        ensures
            r == spec_image_flags(
                match src {
                    Some(s) => Some(s@),
                    None => None,
                },
                draft@,
            ),
    {
        let has_changes = match src {
            Some(s) => s.position != draft.position || !same_opt_str(&s.prompt, &draft.prompt)
                || !same_opt_str(&s.url, &draft.url) || !same_opt_bytes(&s.bytes, &draft.bytes),
            None => true,
        };
        let has_file = draft.bytes.is_some() || draft.url.is_some();
        EditorFlags {
            is_new: draft.id.is_none(),
            is_empty: !has_file || draft.position.is_none(),
            has_changes,
        }
    }

    /// Submitting only closes the editor when the draft is new and empty or
    /// stored and unchanged; otherwise the draft is sent.
    pub fn submit(&self) -> (r: SubmitAction)
        ensures
            closes_only(*self) <==> r == SubmitAction::CloseEditor,
    {
        if self.is_new && self.is_empty || !self.is_new && !self.has_changes {
            SubmitAction::CloseEditor
        } else {
            SubmitAction::Send
        }
    }

    /// The class of the editor's container.
    pub fn class(&self) -> (r: String)
        ensures
            r@ == spec_editor_class(self.is_empty || !self.has_changes),
    {
        container_class(self.is_empty, self.has_changes)
    }

    /// The button that replaces the save button.
    pub fn override_button(&self) -> (r: Option<OverrideButton>)
        ensures
            closes_only(*self) ==> r == Some(OverrideButton::Cancel),
            !closes_only(*self) && !self.is_new && self.is_empty ==> r == Some(OverrideButton::Delete),
            !closes_only(*self) && !(!self.is_new && self.is_empty) ==> r is None,
    {
        button_override(self.is_new, self.is_empty, self.has_changes)
    }
}

/// Whenever the cancel button is shown, submitting only closes the editor
/// and the save button is hidden; whenever the delete button is shown, the
/// emptied draft is sent.
pub proof fn law_override_matches_submit(f: EditorFlags)
    ensures
        closes_only(f) ==> (f.is_empty || !f.has_changes),
        (!closes_only(f) && !f.is_new && f.is_empty) ==> f.has_changes,
{
}

/// A new prompt counts as changed, and is sent exactly when it is complete;
/// a stored prompt that was not touched is never sent.
pub proof fn law_prompt_editor_sends_only_changes(draft: PromptView, stored: PromptView)
    ensures
        spec_prompt_flags(None, draft).has_changes,
        draft.id is None ==> (closes_only(spec_prompt_flags(None, draft)) <==> !is_kept(draft)),
        stored.id is Some ==> closes_only(spec_prompt_flags(Some(stored), stored)),
{
}

/// A new image counts as changed, and is sent exactly when it has a file and
/// a position; a stored image that was not touched is never sent.
pub proof fn law_image_editor_sends_only_changes(draft: ImageView, stored: ImageView)
    ensures
        spec_image_flags(None, draft).has_changes,
        draft.id is None ==> (closes_only(spec_image_flags(None, draft)) <==> !(has_file(draft)
            && draft.position is Some)),
        stored.id is Some ==> closes_only(spec_image_flags(Some(stored), stored)),
{
}

/// Submitting an editor of one's own profile: when it only closes, editing
/// stops and nothing is to be sent; otherwise the section stays in edit and
/// the draft is to be sent under the section's op id.
pub fn on_submit(rcx: &mut ResourceCtx, flags: &EditorFlags) -> (r: SubmitAction)
    ensures
        closes_only(*flags) <==> r == SubmitAction::CloseEditor,
        r == SubmitAction::CloseEditor ==> final(rcx).editing == !old(rcx).editing,
        r == SubmitAction::Send ==> final(rcx).editing == old(rcx).editing,
        final(rcx).op_id == old(rcx).op_id,
{
    let action = flags.submit();
    match action {
        SubmitAction::CloseEditor => rcx.toggle_editing(),
        SubmitAction::Send => {},
    }
    action
}

/// Editing a stored prompt: a draft that differs from the stored prompt in
/// its title, its body or its position is sent; one that differs in none of
/// them only closes the editor.
pub proof fn law_changed_prompt_is_sent(stored: PromptView, draft: PromptView)
    requires
        draft.id is Some,
    ensures
        (stored.title != draft.title || stored.body != draft.body || stored.position != draft.position)
            ==> {
            &&& spec_prompt_flags(Some(stored), draft).has_changes
            &&& !closes_only(spec_prompt_flags(Some(stored), draft))
        },
        stored.position != draft.position ==> !closes_only(spec_prompt_flags(Some(stored), draft)),
        (stored.title == draft.title && stored.body == draft.body && stored.position == draft.position)
            ==> closes_only(spec_prompt_flags(Some(stored), draft)),
{
}

/// Editing a stored image: a draft that differs from the stored image in its
/// position, caption, URL or bytes is sent; one that differs in none of them
/// only closes the editor.
pub proof fn law_changed_image_is_sent(stored: ImageView, draft: ImageView)
    requires
        draft.id is Some,
    ensures
        (stored.position != draft.position || stored.prompt != draft.prompt || stored.url != draft.url
            || stored.bytes != draft.bytes) ==> !closes_only(spec_image_flags(Some(stored), draft)),
        (stored.position == draft.position && stored.prompt == draft.prompt && stored.url == draft.url
            && stored.bytes == draft.bytes) ==> closes_only(spec_image_flags(Some(stored), draft)),
        (draft.bytes is None && draft.url is None) ==> spec_image_flags(Some(stored), draft).is_empty,
        draft.position is None ==> spec_image_flags(Some(stored), draft).is_empty,
{
}

/// The delete button appears exactly for a stored item that was changed
/// into an empty one; the cancel button exactly when submitting only closes.
pub proof fn law_delete_only_emptied_stored(is_new: bool, is_empty: bool, has_changes: bool)
    ensures
        !closes_only(EditorFlags { is_new, is_empty, has_changes }) && !is_new && is_empty <==> (!is_new
            && is_empty && has_changes),
        closes_only(EditorFlags { is_new: true, is_empty, has_changes }) <==> is_empty,
        closes_only(EditorFlags { is_new: false, is_empty, has_changes }) <==> !has_changes,
{
}

} // verus!
