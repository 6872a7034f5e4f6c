use mission_bot::convo::Step;
use mission_bot::convo::submission_intent;
use mission_bot::store::StateStore;

#[test]
fn store_tracks_one_conversation_per_user() {
    let mut store = StateStore::new();
    assert!(!store.has_conversation(7));
    assert!(store.get(7).is_none());

    let (state, _) = submission_intent(true);
    store.set(7, state.unwrap());
    assert!(store.has_conversation(7));
    assert_eq!(store.get(7).unwrap().step, Step::AwaitingTeamChoice);
    assert!(!store.has_conversation(8));

    let (replacement, _) = mission_bot::convo::registration_intent(true, false);
    store.set(7, replacement.unwrap());
    assert_eq!(store.get(7).unwrap().step, Step::AwaitingRegistrationConfirm);

    store.remove(7);
    assert!(!store.has_conversation(7));
    store.remove(7);
    assert!(!store.has_conversation(7));
}
