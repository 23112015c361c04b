use std::collections::HashMap;

use cringe::model::{Image, OpState, Prompt};
use cringe::person::prompt_editor::{
    adopt_inserted_id, begin_prompt_submit, finish_prompt_submit, new_but_empty, plan_prompt_update,
    to_be_deleted, unzip_sorter, ModResponse,
};
use cringe::person::ResourceCtx as SectionState;
use cringe::position::{max_position, new_item_position, position_from_parsed, position_input, to_be_profile_pic};
use cringe::profile::editor::{button_override, container_class, on_submit, EditorFlags, OverrideButton, SubmitAction};
use cringe::profile::ResourceCtx;

fn prompt(id: Option<i32>, position: Option<i16>, title: &str, body: &str) -> Prompt {
    Prompt { id, position, title: title.to_string(), body: body.to_string() }
}

fn summary(v: &[Prompt]) -> Vec<(Option<i32>, Option<i16>, String)> {
    v.iter().map(|p| (p.id, p.position, p.title.clone())).collect()
}

fn mine() -> Vec<Prompt> {
    vec![
        prompt(Some(1), Some(0), "a", "A"),
        prompt(Some(2), Some(1), "b", "B"),
        prompt(Some(3), Some(2), "c", "C"),
    ]
}

#[test]
fn section_state_cycles_through_edit_and_save() {
    let mut s = SectionState::provide();
    assert_eq!(s.state(), 0);
    assert!(!s.editing());
    s.next_state();
    assert_eq!(s.state(), 1);
    assert!(s.editing());
    s.next_state();
    assert_eq!(s.state(), 2);
    assert!(s.editing());
    s.next_state();
    assert_eq!(s.state(), 0);
    assert!(!s.editing());
}

#[test]
fn moving_a_prompt_to_the_front_renumbers_the_rest() {
    let edited = prompt(Some(2), Some(0), "b", "B2");
    let u = plan_prompt_update(&mine(), &edited);
    assert_eq!(
        summary(&u.draft),
        vec![(Some(2), Some(0), "b".to_string()), (Some(1), Some(1), "a".to_string()), (Some(3), Some(2), "c".to_string())]
    );
    assert_eq!(u.draft[0].body, "B2");
    assert_eq!(u.sorter, vec![(Some(1), Some(1))]);
}

#[test]
fn emptying_a_prompt_deletes_it() {
    let edited = prompt(Some(2), Some(1), "", "B");
    assert!(to_be_deleted(&edited));
    let u = plan_prompt_update(&mine(), &edited);
    assert_eq!(summary(&u.draft), vec![(Some(1), Some(0), "a".to_string()), (Some(3), Some(1), "c".to_string())]);
    assert_eq!(u.sorter, vec![(Some(3), Some(1))]);
}

#[test]
fn a_new_prompt_goes_last() {
    let edited = prompt(None, Some(3), "d", "D");
    assert!(!new_but_empty(&edited));
    let u = plan_prompt_update(&mine(), &edited);
    assert_eq!(u.draft.len(), 4);
    assert_eq!(summary(&u.draft)[3], (None, Some(3), "d".to_string()));
    assert!(u.sorter.is_empty());
}

#[test]
fn prompts_without_position_keep_none() {
    let mut list = mine();
    list[1].position = None;
    let edited = prompt(Some(3), Some(0), "c", "C");
    let u = plan_prompt_update(&list, &edited);
    assert_eq!(
        summary(&u.draft),
        vec![(Some(3), Some(0), "c".to_string()), (Some(1), Some(1), "a".to_string()), (Some(2), None, "b".to_string())]
    );
    assert_eq!(u.sorter, vec![(Some(1), Some(1))]);
    let (ids, positions) = unzip_sorter(&u.sorter);
    assert_eq!(ids, vec![Some(1)]);
    assert_eq!(positions, vec![Some(1)]);
}

#[test]
fn submitting_an_empty_new_prompt_only_closes() {
    let mut rcx = SectionState::provide();
    rcx.next_state();
    let edited = prompt(None, Some(3), "", "");
    assert!(new_but_empty(&edited));
    let r = begin_prompt_submit(&mut rcx, &mine(), &edited);
    assert!(r.is_none());
    assert_eq!(rcx.state(), 0);
}

#[test]
fn a_confirmed_new_prompt_gets_its_id() {
    let mut rcx = SectionState::provide();
    rcx.next_state();
    let edited = prompt(None, Some(1), "x", "X");
    let u = begin_prompt_submit(&mut rcx, &mine(), &edited).unwrap();
    assert_eq!(rcx.state(), 2);
    let resp = ModResponse { authorized: true, sorted: 2, deleted: 0, updated: 0, inserted_id: Some(9) };
    let done = finish_prompt_submit(&mut rcx, u.draft, edited.position, Some(resp)).unwrap();
    assert_eq!(rcx.state(), 0);
    assert_eq!(summary(&done)[1], (Some(9), Some(1), "x".to_string()));
    assert_eq!(summary(&done)[2], (Some(2), Some(2), "b".to_string()));
}

#[test]
fn an_unauthorized_prompt_edit_changes_nothing() {
    let mut rcx = SectionState::provide();
    rcx.next_state();
    rcx.next_state();
    let resp = ModResponse { authorized: false, sorted: 0, deleted: 0, updated: 0, inserted_id: None };
    assert!(finish_prompt_submit(&mut rcx, mine(), Some(0), Some(resp)).is_none());
    assert_eq!(rcx.state(), 0);
    let mut rcx = SectionState::provide();
    assert!(finish_prompt_submit(&mut rcx, mine(), Some(0), None).is_none());
}

#[test]
fn inserted_id_outside_the_draft_is_ignored() {
    let mut d = mine();
    adopt_inserted_id(&mut d, Some(7), Some(5));
    assert_eq!(summary(&d), summary(&mine()));
    adopt_inserted_id(&mut d, Some(-1), Some(5));
    assert_eq!(summary(&d), summary(&mine()));
    adopt_inserted_id(&mut d, Some(0), None);
    assert_eq!(summary(&d), summary(&mine()));
    adopt_inserted_id(&mut d, Some(0), Some(5));
    assert_eq!(d[0].id, Some(5));
}

#[test]
fn positions_are_typed_from_one() {
    assert_eq!(position_input("2", 3), Some(1));
    assert_eq!(position_input("1", 3), Some(0));
    assert_eq!(position_input("3", 3), Some(2));
    assert_eq!(position_input("0", 3), None);
    assert_eq!(position_input("4", 3), None);
    assert_eq!(position_input("two", 3), None);
    assert_eq!(position_input("", 3), None);
    assert_eq!(position_from_parsed(Some(-5), 3), None);
    assert_eq!(max_position(4, true), 5);
    assert_eq!(max_position(4, false), 4);
    assert_eq!(new_item_position(5), Some(4));
    assert!(to_be_profile_pic(Some(0), 3));
    assert!(to_be_profile_pic(None, 1));
    assert!(!to_be_profile_pic(Some(1), 3));
}

#[test]
fn await_op_picks_up_the_sections_outcome() {
    let mut ops: HashMap<u8, OpState> = HashMap::new();
    ops.insert(3, OpState::Success);
    ops.insert(4, OpState::Failure);

    let mut shown = ResourceCtx::provide(3);
    shown.await_op(&mut ops);
    assert!(!shown.editing());
    assert_eq!(ops.len(), 2);

    let mut r3 = ResourceCtx::provide(3);
    r3.toggle_editing();
    r3.await_op(&mut ops);
    assert!(!r3.editing());
    assert!(!ops.contains_key(&3));

    let mut r4 = ResourceCtx::provide(4);
    r4.toggle_editing();
    r4.await_op(&mut ops);
    assert!(r4.editing());
    assert!(ops.is_empty());

    let mut r5 = ResourceCtx::provide(5 + 256);
    assert_eq!(r5.op_id, 5);
    r5.toggle_editing();
    r5.await_op(&mut ops);
    assert!(r5.editing());
}

#[test]
fn take_success_ignores_failures() {
    let mut ops: HashMap<u8, OpState> = HashMap::new();
    ops.insert(7, OpState::Failure);
    let mut r = ResourceCtx::provide(7);
    r.toggle_editing();
    r.take_success(&mut ops);
    assert!(r.editing());
    assert_eq!(ops.get(&7), Some(&OpState::Failure));
    ops.insert(7, OpState::Success);
    r.take_success(&mut ops);
    assert!(!r.editing());
    assert!(ops.is_empty());
}

#[test]
fn editor_flags_decide_the_submit() {
    let stored = prompt(Some(1), Some(0), "a", "A");
    let same = prompt(Some(1), Some(0), "a", "A");
    let f = EditorFlags::for_prompt(Some(&stored), &same);
    assert_eq!(f, EditorFlags { is_new: false, is_empty: false, has_changes: false });
    assert_eq!(f.submit(), SubmitAction::CloseEditor);
    assert_eq!(f.override_button(), Some(OverrideButton::Cancel));

    let emptied = prompt(Some(1), Some(0), "a", "");
    let f = EditorFlags::for_prompt(Some(&stored), &emptied);
    assert_eq!(f.submit(), SubmitAction::Send);
    assert_eq!(f.override_button(), Some(OverrideButton::Delete));

    let changed = prompt(Some(1), Some(0), "a", "B");
    let f = EditorFlags::for_prompt(Some(&stored), &changed);
    assert_eq!(f.submit(), SubmitAction::Send);
    assert_eq!(f.override_button(), None);
    assert_eq!(f.class(), "grid grid-cols-[1fr_auto] gap-2 [&>input]:text-xl");

    let fresh = prompt(None, Some(1), "", "");
    let f = EditorFlags::for_prompt(None, &fresh);
    assert_eq!(f, EditorFlags { is_new: true, is_empty: true, has_changes: true });
    assert_eq!(f.class(), "grid grid-cols-[1fr_auto] gap-2 [&>input]:text-xl [&>button]:last:hidden");

    let mut rcx = ResourceCtx::provide(1);
    rcx.toggle_editing();
    assert_eq!(on_submit(&mut rcx, &f), SubmitAction::CloseEditor);
    assert!(!rcx.editing());
}

#[test]
fn image_flags_compare_the_file() {
    let stored = Image { id: Some(4), url: Some("u".to_string()), bytes: None, prompt: None, position: Some(0) };
    let same = Image { id: Some(4), url: Some("u".to_string()), bytes: None, prompt: None, position: Some(0) };
    assert!(!EditorFlags::for_image(Some(&stored), &same).has_changes);
    let other = Image { id: Some(4), url: None, bytes: Some(vec![1, 2]), prompt: None, position: Some(0) };
    let f = EditorFlags::for_image(Some(&stored), &other);
    assert!(f.has_changes);
    assert!(!f.is_empty);
    let no_file = Image { id: None, url: None, bytes: None, prompt: Some("p".to_string()), position: Some(0) };
    let f = EditorFlags::for_image(None, &no_file);
    assert!(f.is_new && f.is_empty && f.has_changes);
    assert_eq!(f.submit(), SubmitAction::CloseEditor);
    let unplaced = Image { id: Some(4), url: Some("u".to_string()), bytes: None, prompt: None, position: None };
    let f = EditorFlags::for_image(Some(&stored), &unplaced);
    assert!(f.is_empty && f.has_changes);
    assert_eq!(f.override_button(), Some(OverrideButton::Delete));
}

#[test]
fn override_buttons_and_classes() {
    assert_eq!(button_override(true, true, true), Some(OverrideButton::Cancel));
    assert_eq!(button_override(false, false, false), Some(OverrideButton::Cancel));
    assert_eq!(button_override(false, true, true), Some(OverrideButton::Delete));
    assert_eq!(button_override(true, false, true), None);
    assert_eq!(container_class(false, true), "grid grid-cols-[1fr_auto] gap-2 [&>input]:text-xl");
    assert_eq!(container_class(true, true), "grid grid-cols-[1fr_auto] gap-2 [&>input]:text-xl [&>button]:last:hidden");
}
