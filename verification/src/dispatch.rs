//! Routing of one inbound message: to the state machine when the
//! sender has an open conversation, else to command handling.
use vstd::prelude::*;

verus! {

/// Where an inbound message goes.
#[derive(Clone, Copy, PartialEq, Eq, Structural, Debug)]
pub enum Route {
    Conversation,
    Command,
    Ignore,
}

/// Routes one inbound message.  A sender with an open conversation is
/// always handled by the state machine, whatever the message holds; a
/// sender without one is handled as a command when the message has
/// text, and ignored otherwise.
pub fn route_message(has_conversation: bool, has_text: bool) -> (r: Route)
    ensures
        has_conversation ==> r == Route::Conversation,
        !has_conversation && has_text ==> r == Route::Command,
        !has_conversation && !has_text ==> r == Route::Ignore,
{
    if has_conversation {
        Route::Conversation
    } else if has_text {
        Route::Command
    } else {
        Route::Ignore
    }
}

/// Whether a team-view command is eligible in this chat: the admin
/// channel always may view a team, and a team's own channel may view
/// that team.
pub fn team_view_allowed(chat_id: i64, admin_chat_id: i64, team_chat_id: i64) -> (r: bool)
    ensures
        r <==> chat_id == admin_chat_id || chat_id == team_chat_id,
{
    chat_id == admin_chat_id || chat_id == team_chat_id
}

} // verus!
