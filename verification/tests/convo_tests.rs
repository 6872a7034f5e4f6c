use mission_bot::convo::ConfirmOutcome;
use mission_bot::convo::ConvEvent;
use mission_bot::convo::ItemsAction;
use mission_bot::convo::Reply;
use mission_bot::convo::Step;
use mission_bot::convo::confirm_registration;
use mission_bot::convo::is_affirmative;
use mission_bot::convo::items_step;
use mission_bot::convo::registration_finish;
use mission_bot::convo::registration_intent;
use mission_bot::convo::submission_finish;
use mission_bot::convo::submission_intent;
use mission_bot::convo::team_choice_step;
use mission_bot::registry::Registrant;
use mission_bot::submission::Item;
use mission_bot::submission::build_submission;
use mission_bot::team::TeamId;

#[test]
fn registration_scenario_private_chat_then_sim() {
    // Intent in a private chat by an unregistered sender opens the
    // confirmation step.
    let (state, reply) = registration_intent(true, false);
    let st = state.expect("a conversation should open");
    assert_eq!(st.step, Step::AwaitingRegistrationConfirm);
    assert!(st.team.is_none());
    assert!(st.items.is_empty());
    assert_eq!(reply, Reply::RegistrationPrompt);

    // "SIM" (any ASCII case) registers with the first sequential id.
    let mut registry: Vec<Registrant> = Vec::new();
    let o = confirm_registration(b"SIM", &mut registry, b"Guan Yu".to_vec(), b"guan".to_vec());
    assert_eq!(o, ConfirmOutcome::Registered);
    assert_eq!(registry.len(), 1);
    assert_eq!(registry[0].id, 1);
    assert_eq!(registry[0].name, b"Guan Yu".to_vec());
    assert_eq!(registry[0].handle, b"guan".to_vec());

    // Once the list is persisted the conversation ends with success.
    let (remove, reply) = registration_finish(o, true);
    assert!(remove);
    assert_eq!(reply, Reply::RegistrationSuccess);
}

#[test]
fn registration_intent_rejections() {
    let (state, reply) = registration_intent(false, false);
    assert!(state.is_none());
    assert_eq!(reply, Reply::RegistrationPrivateOnly);
    let (state, reply) = registration_intent(true, true);
    assert!(state.is_none());
    assert_eq!(reply, Reply::AlreadyRegistered);
}

#[test]
fn affirmative_forms() {
    assert!(is_affirmative(b"sim"));
    assert!(is_affirmative(b"S"));
    assert!(is_affirmative(b"Ss"));
    assert!(!is_affirmative(b"nao"));
    assert!(!is_affirmative(b"sim!"));
    assert!(!is_affirmative(b""));
}

#[test]
fn any_non_affirmative_text_declines() {
    let mut registry: Vec<Registrant> = Vec::new();
    let o = confirm_registration(b"talvez", &mut registry, b"a".to_vec(), b"b".to_vec());
    assert_eq!(o, ConfirmOutcome::Declined);
    assert!(registry.is_empty());
    let (remove, reply) = registration_finish(o, true);
    assert!(remove);
    assert_eq!(reply, Reply::RegistrationDeclined);
}

#[test]
fn duplicate_handle_is_registered_once() {
    let mut registry: Vec<Registrant> = Vec::new();
    let o1 = confirm_registration(b"sim", &mut registry, b"n1".to_vec(), b"same".to_vec());
    assert_eq!(o1, ConfirmOutcome::Registered);
    let o2 = confirm_registration(b"sim", &mut registry, b"n2".to_vec(), b"same".to_vec());
    assert_eq!(o2, ConfirmOutcome::HandleTaken);
    assert_eq!(registry.len(), 1);
}

#[test]
fn registration_persist_failure_keeps_conversation() {
    let mut registry: Vec<Registrant> = Vec::new();
    let o = confirm_registration(b"sim", &mut registry, b"n".to_vec(), b"h".to_vec());
    let (remove, reply) = registration_finish(o, false);
    assert!(!remove);
    assert_eq!(reply, Reply::RegistrationSaveFailed);
}

#[test]
fn team_choice_accepts_case_insensitive_names_and_reprompts_otherwise() {
    let (state, reply) = submission_intent(true);
    let mut st = state.expect("a conversation should open");
    assert_eq!(st.step, Step::AwaitingTeamChoice);
    assert_eq!(reply, Reply::TeamPrompt);

    // An invalid name re-prompts and the conversation survives.
    let reply = team_choice_step(&mut st, b"han");
    assert_eq!(reply, Reply::TeamInvalid);
    assert_eq!(st.step, Step::AwaitingTeamChoice);

    let reply = team_choice_step(&mut st, b"SHU");
    assert_eq!(reply, Reply::ItemsPrompt);
    assert_eq!(st.step, Step::AwaitingSubmissionItems);
    assert_eq!(st.team, Some(TeamId::Shu));
    assert!(st.items.is_empty());
}

#[test]
fn submission_intent_needs_private_chat() {
    let (state, reply) = submission_intent(false);
    assert!(state.is_none());
    assert_eq!(reply, Reply::SubmissionPrivateOnly);
}

#[test]
fn items_are_collected_in_arrival_order() {
    let (state, _) = submission_intent(true);
    let mut st = state.unwrap();
    team_choice_step(&mut st, b"wei");
    assert_eq!(items_step(&mut st, ConvEvent::Text(b"primeiro feito".to_vec())), ItemsAction::TextRecorded);
    assert_eq!(items_step(&mut st, ConvEvent::ImageResolved(b"entregas/wei/1_2.jpg".to_vec())), ItemsAction::ImageRecorded);
    assert_eq!(st.items.len(), 2);
    assert_eq!(st.items[0], Item::Text(b"primeiro feito".to_vec()));
    assert_eq!(st.items[1], Item::ImageRef(b"entregas/wei/1_2.jpg".to_vec()));
}

#[test]
fn failed_image_resolution_keeps_state_for_retry() {
    let (state, _) = submission_intent(true);
    let mut st = state.unwrap();
    team_choice_step(&mut st, b"wu");
    assert_eq!(items_step(&mut st, ConvEvent::ImageFailed), ItemsAction::ImageFailed);
    assert!(st.items.is_empty());
    assert_eq!(st.step, Step::AwaitingSubmissionItems);
}

#[test]
fn two_photos_then_finalize_build_a_two_image_submission() {
    let (state, _) = submission_intent(true);
    let mut st = state.unwrap();
    team_choice_step(&mut st, b"shu");
    items_step(&mut st, ConvEvent::ImageResolved(b"entregas/shu/9_1.jpg".to_vec()));
    items_step(&mut st, ConvEvent::ImageResolved(b"entregas/shu/9_2.jpg".to_vec()));
    let action = items_step(&mut st, ConvEvent::Text(b"/entregar".to_vec()));
    assert_eq!(action, ItemsAction::Finalize);
    let s = build_submission(b"Zhao".to_vec(), b"zhao".to_vec(), TeamId::Shu, &st.items);
    assert_eq!(s.images.len(), 2);
    assert_eq!(s.texts.len(), 0);
    assert_eq!(s.images[0], b"entregas/shu/9_1.jpg".to_vec());
    assert_eq!(s.images[1], b"entregas/shu/9_2.jpg".to_vec());
    let (remove, reply) = submission_finish(true);
    assert!(remove);
    assert_eq!(reply, Reply::SubmissionSuccess);
}

#[test]
fn finalize_with_zero_items_still_builds_a_record() {
    let items: Vec<Item> = Vec::new();
    let s = build_submission(b"n".to_vec(), b"h".to_vec(), TeamId::Wu, &items);
    assert!(s.images.is_empty());
    assert!(s.texts.is_empty());
    assert_eq!(s.team, TeamId::Wu);
}

#[test]
fn submission_persist_failure_keeps_items() {
    let (remove, reply) = submission_finish(false);
    assert!(!remove);
    assert_eq!(reply, Reply::SubmissionSaveFailed);
}

#[test]
fn items_partition_by_tag_not_by_text_shape() {
    // A text that merely looks like a storage path is still a text.
    let items = vec![
        Item::Text(b"entregas/shu/fake.jpg".to_vec()),
        Item::ImageRef(b"entregas/shu/real.jpg".to_vec()),
    ];
    let s = build_submission(b"n".to_vec(), b"h".to_vec(), TeamId::Shu, &items);
    assert_eq!(s.texts, vec![b"entregas/shu/fake.jpg".to_vec()]);
    assert_eq!(s.images, vec![b"entregas/shu/real.jpg".to_vec()]);
}
