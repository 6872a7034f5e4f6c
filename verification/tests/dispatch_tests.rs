use mission_bot::dispatch::Route;
use mission_bot::dispatch::route_message;
use mission_bot::dispatch::team_view_allowed;
use mission_bot::registry::Registrant;
use mission_bot::registry::is_registered;
use mission_bot::team::TeamId;
use mission_bot::team::parse_team_ci;
use mission_bot::text::to_ascii_lower;
use mission_bot::text::tokenize;

#[test]
fn messages_route_by_open_conversation_then_text() {
    assert_eq!(route_message(true, true), Route::Conversation);
    assert_eq!(route_message(true, false), Route::Conversation);
    assert_eq!(route_message(false, true), Route::Command);
    assert_eq!(route_message(false, false), Route::Ignore);
}

#[test]
fn team_view_is_for_admin_or_own_channel() {
    assert!(team_view_allowed(-100, -100, -200));
    assert!(team_view_allowed(-200, -100, -200));
    assert!(!team_view_allowed(-300, -100, -200));
}

#[test]
fn registration_lookup_matches_exact_handle() {
    let rs = vec![Registrant { id: 1, name: b"n".to_vec(), handle: b"Guan".to_vec() }];
    assert!(is_registered(&rs, b"Guan"));
    assert!(!is_registered(&rs, b"guan"));
    assert!(!is_registered(&rs, b"zhang"));
}

#[test]
fn team_names_parse_without_case() {
    assert_eq!(parse_team_ci(b"Shu"), Some(TeamId::Shu));
    assert_eq!(parse_team_ci(b"WEI"), Some(TeamId::Wei));
    assert_eq!(parse_team_ci(b"wu"), Some(TeamId::Wu));
    assert_eq!(parse_team_ci(b"han"), None);
    assert_eq!(parse_team_ci(b""), None);
}

#[test]
fn byte_helpers_behave() {
    assert_eq!(to_ascii_lower(b"AbC1!"), b"abc1!".to_vec());
    let toks = tokenize(b"  um\tdois  tres\n");
    assert_eq!(toks, vec![b"um".to_vec(), b"dois".to_vec(), b"tres".to_vec()]);
}
