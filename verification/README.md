# cringe

The decision logic of a dating-profile web front end, verified with Verus.

The views of the application (listings of other people's profiles, one's
own profile edited section by section) decide many small things: which
section is being edited or saved, where an edited prompt lands and which
prompts must be re-sorted on the server, when submitting an editor only
closes it, which button a profile shows in a listing, and what the lines
about children or family plans read. This crate holds those decisions as
functions from plain values to plain values, each with a contract.

Layout of `src/`:

- `model` — the profile data the views read and edit.
- `person` — a profile's sections: the three-state section cycle
  (`ResourceCtx`), the details (children, habits, free text, layout
  classes), the prompt editor (removal, placement, renumbering, server
  answer) and shared layout helpers (slots, frames, labels).
- `profile` — one's own profile: the edit/op-id state with its
  outcome table (`await_op`), the prompt and image editor flags, and
  the details' texts.
- `position` — the position field of the editors.
- `listing`, `button`, `protector`, `peeps` — listings, the decision and
  edit buttons, login/profile gates, the first yes/no listing.
- `parse`, `text` — calls into the standard library's parsers and
  decimal rendering of numbers.
