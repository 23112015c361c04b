use cringe::button::{button_class, edit_click_starts_editing, ButtonAction, LikeButton, SkipButton};
use cringe::listing::{
    after_decision, decision_condition, listed_ids, retain_others, shows_only_first, LikedProfiles, ListingCtx,
    SkippedProfiles, SwipeProfiles,
};
use cringe::model::{Decision, Frequency, Habit, Habits, Kids, Person, RelationshipType, Seeking};
use cringe::peeps::{offers_no, offers_yes, set_liked, Liked, Peep};
use cringe::person::details::{
    already_has_kids, begin_details_submit, personal_has_label, personal_wants_label, details_class, details_list_class, details_payload,
    finish_details_submit, has_label, kids_has_input, kids_wants_input, non_empty, select_class, set_habit,
    set_habit_if_stated, set_kids_has, set_kids_wants, values_under_list, wants_label, wants_option_label,
    wants_options,
};
use cringe::person::utils::{
    class_canceler_deleter, container_class, ordinal_label, shows_like_button, slot, Slot,
};
use cringe::person::ResourceCtx;
use cringe::profile::details::{
    accept_name, family_plans_line, family_plans_option, family_plans_suffix, first_person, has_children_input,
    has_children_label,
};
use cringe::protector::{shows_login_button, Gate, NeedsLogin, NeedsLoginAndProfile, NeedsProfile};
use cringe::text::push_decimal;

fn person(id: Option<i32>) -> Person {
    Person {
        id,
        name: "Ann".to_string(),
        location: None,
        occupation: None,
        education: None,
        hometown: None,
        seeking: None,
        relationship_type: None,
        has_children: None,
        kids: None,
        habits: None,
        prompts: vec![],
        images: vec![],
    }
}

#[test]
fn decimals_render_like_display() {
    for n in [0u64, 7, 10, 42, 127, 1000, 18446744073709551615] {
        let mut s = String::new();
        push_decimal(&mut s, n);
        assert_eq!(s, n.to_string());
    }
}

#[test]
fn kids_lines() {
    assert_eq!(has_label(2), "🧑‍🧒‍🧒 Has 2 kids");
    assert_eq!(has_label(0), "🧑‍🧒‍🧒 Has  no kids");
    assert_eq!(has_label(127), "🧑‍🧒‍🧒 Has 127 or more kids");
    assert_eq!(wants_label(3, true), "🍼 Wants 3 additional kids");
    assert_eq!(wants_label(0, false), "🍼 Doesn't want kids");
    assert_eq!(wants_label(-1, false), "🍼 Doesn't know if wants any kids");
    assert_eq!(wants_label(127, false), "🍼 Wants 127 or more kids");
    assert_eq!(wants_label(127, true), "🍼 Wants 127 or more additional kids");
    assert_eq!(personal_has_label(4), "🧑‍🧒‍🧒 Has 4 kids");
    assert_eq!(personal_has_label(0), "🧑‍🧒‍🧒 No kids");
    assert_eq!(personal_wants_label(2, true), "🍼 Wants 2 more kids");
    assert_eq!(personal_wants_label(127, true), "🍼 Wants 127 or more kids");
    assert_eq!(personal_wants_label(-1, false), "🍼 Doesn't know if wants any kids");
}

#[test]
fn kids_options() {
    let o = wants_options();
    assert_eq!(o.len(), 130);
    assert_eq!(o[0], None);
    assert_eq!(o[1], Some(-1));
    assert_eq!(o[2], Some(0));
    assert_eq!(o[129], Some(127));
    assert_eq!(wants_option_label(None, false), "# of kids you want");
    assert_eq!(wants_option_label(None, true), "# of additional kids you want");
    assert_eq!(wants_option_label(Some(-1), true), "I don't know if I want any more kids");
    assert_eq!(wants_option_label(Some(0), false), "I don't want any kids");
    assert_eq!(wants_option_label(Some(5), true), "I want 5 more kids");
    assert_eq!(wants_option_label(Some(127), true), "I want 127 **or more** kids");
}

#[test]
fn kids_edits() {
    let mut k: Option<Kids> = None;
    assert!(!already_has_kids(&k));
    kids_has_input(&mut k, "3");
    assert_eq!(k, Some(Kids { has: Some(3), wants: None }));
    assert!(already_has_kids(&k));
    kids_wants_input(&mut k, "-1");
    assert_eq!(k, Some(Kids { has: Some(3), wants: Some(-1) }));
    kids_has_input(&mut k, "lots");
    assert_eq!(k, Some(Kids { has: None, wants: Some(-1) }));
    let mut k: Option<Kids> = None;
    set_kids_wants(&mut k, Some(2));
    assert_eq!(k, Some(Kids { has: None, wants: Some(2) }));
    set_kids_has(&mut k, Some(0));
    assert_eq!(k, Some(Kids { has: Some(0), wants: Some(2) }));
    assert!(!already_has_kids(&k));
    kids_has_input(&mut k, "200");
    assert_eq!(k, Some(Kids { has: None, wants: Some(2) }));
}

#[test]
fn habit_edits() {
    let mut h: Option<Habits> = None;
    set_habit_if_stated(&mut h, Habit::Drugs, Some(Frequency::Never));
    assert_eq!(h, None);
    set_habit(&mut h, Habit::Smoking, Some(Frequency::Rarely));
    assert_eq!(h, Some(Habits { drinking: None, smoking: Some(Frequency::Rarely), marijuana: None, drugs: None }));
    set_habit_if_stated(&mut h, Habit::Drinking, Some(Frequency::YesPlease));
    let got = h.unwrap();
    assert_eq!(got.get(Habit::Drinking), Some(Frequency::YesPlease));
    assert_eq!(got.get(Habit::Smoking), Some(Frequency::Rarely));
    assert_eq!(Frequency::all(), vec![Frequency::Never, Frequency::Rarely, Frequency::Often, Frequency::YesPlease]);
    assert_eq!(Seeking::all().len(), 5);
    assert_eq!(RelationshipType::all()[1], RelationshipType::Monogamy);
}

#[test]
fn details_layout() {
    let mut p = person(Some(1));
    assert_eq!(values_under_list(&p), 0);
    p.occupation = Some("baker".to_string());
    p.seeking = Some(Seeking::LongTerm);
    assert_eq!(values_under_list(&p), 2);
    let base = "px-2 [&>*+*]:border-t [&>*+*]:p-2 [&_input]:border-none! [&>div>input]:w-full [&_select]:border-none! [&>div>select]:px-0! [&>div>select]:w-full [&>div]:flex [&>div]:gap-2 [&>div]:items-center";
    assert_eq!(details_class(false, false, 0), base);
    assert_eq!(details_class(true, true, 0), format!("{base} [&>div]:nth-last-2:mb-20 [&>button]:nth-2:bottom-2!"));
    assert_eq!(details_class(false, true, 1), base);
    let ul = "p-2 flex overflow-x-scroll text-nowrap [&>*+*]:ml-2 [&>*+*]:border-l *:p-2 [&>li]:flex [&>li]:gap-2 [&>li]:items-center";
    assert_eq!(details_list_class(false, true, 1, 2), format!("{ul} [&>li:last-child]:mr-15"));
    assert_eq!(details_list_class(false, true, 1, 1), ul);
    assert_eq!(details_list_class(true, true, 0, 2), ul);
    assert_eq!(select_class(false), "text-gray-500");
    assert_eq!(select_class(true), "");
}

#[test]
fn free_text_and_payload() {
    assert_eq!(non_empty(String::new()), None);
    assert_eq!(non_empty("Oslo".to_string()), Some("Oslo".to_string()));
    let mut p = person(Some(4));
    p.prompts = vec![cringe::model::Prompt { id: None, position: None, title: String::new(), body: String::new() }];
    p.kids = Some(Kids { has: Some(1), wants: None });
    let q = details_payload(p);
    assert!(q.prompts.is_empty() && q.images.is_empty());
    assert_eq!(q.kids, Some(Kids { has: Some(1), wants: None }));
    let mut rcx = ResourceCtx::provide();
    rcx.next_state();
    let sent = begin_details_submit(&mut rcx, person(Some(4)));
    assert_eq!(sent.id, Some(4));
    assert_eq!(rcx.state(), 2);
    assert!(finish_details_submit(&mut rcx, Some(true)));
    assert_eq!(rcx.state(), 0);
    assert!(!finish_details_submit(&mut rcx, Some(false)));
    assert!(!finish_details_submit(&mut rcx, None));
}

#[test]
fn profile_details_texts() {
    assert_eq!(has_children_label(true), "🧑‍🧒‍🧒 Has children");
    assert_eq!(has_children_label(false), "🧑‍🧒‍🧒 Has no children");
    assert_eq!(has_children_input("true"), Some(true));
    assert_eq!(has_children_input("false"), Some(false));
    assert_eq!(has_children_input(""), None);
    assert_eq!(has_children_input("True"), None);
    assert!(accept_name("Al"));
    assert!(!accept_name("A"));
    assert!(accept_name("É"));
    assert_eq!(first_person("Doesn't want"), "I don't want");
    assert_eq!(first_person("Wants"), "I want");
    assert_eq!(family_plans_suffix(true, Some(true)), "");
    assert_eq!(family_plans_suffix(false, Some(true)), " more children");
    assert_eq!(family_plans_suffix(false, None), " children");
    assert_eq!(family_plans_option("Wants", false, Some(true)), "I want more children");
    assert_eq!(family_plans_line("Not sure yet", true, Some(true)), "🍼 Not sure yet");
}

#[test]
fn layout_helpers() {
    let (class, cancel, delete) = class_canceler_deleter(true, false);
    assert_eq!(class, "grid grid-cols-[1fr_auto] gap-2 [&>input]:text-xl [&>button]:last:hidden");
    assert!(cancel && !delete);
    let (class, _, _) = class_canceler_deleter(false, false);
    assert_eq!(class, "grid grid-cols-[1fr_auto] gap-2 [&>input]:text-xl");
    assert_eq!(container_class(Some("p-2")), "relative border rounded-2xl w-full overflow-hidden p-2");
    assert_eq!(container_class(None), "relative border rounded-2xl w-full overflow-hidden ");
    assert!(shows_like_button(None));
    assert!(shows_like_button(Some(false)));
    assert!(!shows_like_button(Some(true)));
    assert_eq!(ordinal_label(0), "🥳 1st");
    assert_eq!(ordinal_label(1), "🎉 2nd");
    assert_eq!(ordinal_label(2), "🎊 3rd");
    assert_eq!(ordinal_label(3), "📸 4th");
    assert_eq!(ordinal_label(10), "📸 11th");
    assert_eq!(slot(2, 1, false, false), Slot::Show);
    assert_eq!(slot(2, 1, true, true), Slot::Edit);
    assert_eq!(slot(2, 2, false, true), Slot::Invite);
    assert_eq!(slot(2, 2, true, true), Slot::Add);
    assert_eq!(slot(2, 2, false, false), Slot::Empty);
    assert_eq!(slot(2, 3, true, true), Slot::Empty);
}

#[test]
fn gates() {
    assert_eq!(NeedsLogin(false), Gate::Login);
    assert_eq!(NeedsProfile(false), Gate::CreateProfile);
    assert_eq!(NeedsLoginAndProfile(false, false), Gate::Login);
    assert_eq!(NeedsLoginAndProfile(false, true), Gate::Login);
    assert_eq!(NeedsLoginAndProfile(true, false), Gate::CreateProfile);
    assert_eq!(NeedsLoginAndProfile(true, true), Gate::Content);
    assert!(shows_login_button(None));
    assert!(!shows_login_button(Some(true)));
}

#[test]
fn listings() {
    assert_eq!(LikedProfiles().wants, Some(Decision::Like));
    assert_eq!(SkippedProfiles().wants, Some(Decision::Skip));
    assert!(shows_only_first(SwipeProfiles()));
    assert!(!shows_only_first(LikedProfiles()));
    assert_eq!(decision_condition(Some(Decision::Like)), " = $2");
    assert_eq!(decision_condition(None), "IS NULL");
    let mut v = vec![person(Some(1)), person(None), person(Some(2)), person(Some(1))];
    assert_eq!(listed_ids(&v), vec![1, 2, 1]);
    retain_others(&mut v, 1);
    assert_eq!(v.iter().map(|p| p.id).collect::<Vec<_>>(), vec![None, Some(2)]);
    after_decision(&mut v, 2, Some(false));
    assert_eq!(v.len(), 2);
    after_decision(&mut v, 2, None);
    assert_eq!(v.len(), 2);
    after_decision(&mut v, 2, Some(true));
    assert_eq!(v.iter().map(|p| p.id).collect::<Vec<_>>(), vec![None]);
}

#[test]
fn buttons() {
    let liked = Some(ListingCtx { wants: Some(Decision::Like) });
    let b = LikeButton(liked, Some(5), false);
    assert_eq!(b.action, ButtonAction::Hidden);
    let b = SkipButton(liked, Some(5), false);
    assert_eq!(b.action, ButtonAction::Decide { id: 5, decision: Some(Decision::Skip) });
    assert_eq!(b.label, "🚫");
    assert_eq!(b.class, "sticky mt-2 left-5 rounded-full! z-1 bottom-5 border-2! bg-background select-none");
    let b = LikeButton(Some(SwipeProfiles()), Some(5), false);
    assert_eq!(b.label, "✅");
    assert_eq!(b.class, "absolute right-5 z-1 bottom-5 border-2! bg-background select-none");
    let b = LikeButton(Some(SwipeProfiles()), None, false);
    assert_eq!(b.action, ButtonAction::Hidden);
    let b = LikeButton(None, Some(5), true);
    assert_eq!(b.action, ButtonAction::Edit);
    assert_eq!(b.label, "💾");
    assert_eq!(LikeButton(None, None, false).label, "✏️");
    assert_eq!(button_class(None), "absolute right-5 z-1 bottom-5 border-2! bg-background select-none");
    assert!(edit_click_starts_editing(false));
    assert!(!edit_click_starts_editing(true));
}

#[test]
fn peeps_get_decided_once() {
    let mut v = vec![
        Peep { id: "a".to_string(), liked: None },
        Peep { id: "b".to_string(), liked: None },
        Peep { id: "b".to_string(), liked: None },
    ];
    set_liked(&mut v, &"b".to_string(), Liked::Yes);
    assert_eq!(v[1].liked, Some(Liked::Yes));
    assert_eq!(v[2].liked, None);
    assert_eq!(v[0].liked, None);
    set_liked(&mut v, &"z".to_string(), Liked::No);
    assert_eq!(v.iter().filter(|p| p.liked.is_some()).count(), 1);
    assert!(!offers_yes(Some(Liked::Yes)));
    assert!(offers_no(Some(Liked::Yes)));
    assert!(offers_yes(None) && offers_no(None));
}
