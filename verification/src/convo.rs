//! The per-user conversation state machine: registration confirmation,
//! team choice and mission-item collection.  Each step is a pure
//! transition; the caller performs persistence and transport between
//! steps and feeds the outcomes back in.
use vstd::prelude::*;
use crate::registry::Registrant;
use crate::registry::handle_present;
use crate::registry::register;
use crate::submission::Item;
use crate::submission::ItemV;
use crate::submission::item_views;
use crate::team::TeamId;
use crate::team::parse_team_ci;
use crate::team::spec_team_of;
use crate::text::bytes_eq;
use crate::text::lower_bytes;
use crate::text::to_ascii_lower;

verus! {

/// The input a conversation is waiting on.
#[derive(Clone, Copy, PartialEq, Eq, Structural, Debug)]
pub enum Step {
    AwaitingRegistrationConfirm,
    AwaitingTeamChoice,
    AwaitingSubmissionItems,
}

/// A user's open conversation.
#[derive(Clone, Debug)]
pub struct ConvState {
    pub step: Step,
    pub team: Option<TeamId>,
    pub items: Vec<Item>,
}

impl ConvState {
    /// A conversation that collects items always knows its team.
    pub open spec fn wf(self) -> bool {
        self.step == Step::AwaitingSubmissionItems ==> self.team is Some
    }
}

/// What the bot answers the message that drove a transition.
#[derive(Clone, Copy, PartialEq, Eq, Structural, Debug)]
pub enum Reply {
    RegistrationPrivateOnly,
    AlreadyRegistered,
    RegistrationPrompt,
    RegistrationSuccess,
    RegistrationDeclined,
    RegistrationSaveFailed,
    SubmissionPrivateOnly,
    TeamPrompt,
    TeamInvalid,
    ItemsPrompt,
    TextItemRecorded,
    ImageItemRecorded,
    ImageFetchFailed,
    SubmissionSuccess,
    SubmissionSaveFailed,
}

/// The bytes of `sim`.
pub open spec fn kw_sim() -> Seq<u8> {
    seq!['s' as u8, 'i' as u8, 'm' as u8]
}

/// The bytes of `sim`.
pub fn kw_sim_vec() -> (r: Vec<u8>)
    ensures
        r@ == kw_sim(),
{
    let r: Vec<u8> = vec!['s' as u8, 'i' as u8, 'm' as u8];
    proof {
        assert(r@ =~= kw_sim());
    }
    r
}

/// The bytes of `s`.
pub open spec fn kw_s() -> Seq<u8> {
    seq!['s' as u8]
}

/// The bytes of `s`.
pub fn kw_s_vec() -> (r: Vec<u8>)
    ensures
        r@ == kw_s(),
{
    let r: Vec<u8> = vec!['s' as u8];
    proof {
        assert(r@ =~= kw_s());
    }
    r
}

/// The bytes of `ss`.
pub open spec fn kw_ss() -> Seq<u8> {
    seq!['s' as u8, 's' as u8]
}

/// The bytes of `ss`.
pub fn kw_ss_vec() -> (r: Vec<u8>)
    ensures
        r@ == kw_ss(),
{
    let r: Vec<u8> = vec!['s' as u8, 's' as u8];
    proof {
        assert(r@ =~= kw_ss());
    }
    r
}

/// The bytes of `/entregar`, the finalize-submission keyword.
pub open spec fn kw_entregar() -> Seq<u8> {
    seq![
        '/' as u8,
        'e' as u8,
        'n' as u8,
        't' as u8,
        'r' as u8,
        'e' as u8,
        'g' as u8,
        'a' as u8,
        'r' as u8,
    ]
}

/// The bytes of `/entregar`.
pub fn kw_entregar_vec() -> (r: Vec<u8>)
    ensures
        r@ == kw_entregar(),
{
    let r: Vec<u8> = vec![
        '/' as u8,
        'e' as u8,
        'n' as u8,
        't' as u8,
        'r' as u8,
        'e' as u8,
        'g' as u8,
        'a' as u8,
        'r' as u8,
    ];
    proof {
        assert(r@ =~= kw_entregar());
    }
    r
}

/// An affirmative reply to the registration confirmation prompt:
/// `sim`, `s` or `ss`, ASCII case ignored.
pub open spec fn spec_affirmative(text: Seq<u8>) -> bool {
    ||| lower_bytes(text) == kw_sim()
    ||| lower_bytes(text) == kw_s()
    ||| lower_bytes(text) == kw_ss()
}

/// True for the affirmative confirmation replies.
pub fn is_affirmative(text: &[u8]) -> (r: bool)
    ensures
        r == spec_affirmative(text@),
{
    let low = to_ascii_lower(text);
    let sim = kw_sim_vec();
    if bytes_eq(low.as_slice(), sim.as_slice()) {
        return true;
    }
    let s = kw_s_vec();
    if bytes_eq(low.as_slice(), s.as_slice()) {
        return true;
    }
    let ss = kw_ss_vec();
    bytes_eq(low.as_slice(), ss.as_slice())
}

/// Opens the registration flow for a user with no open conversation.
/// Only a private chat may start it, and only for a sender not yet
/// registered; otherwise no conversation is created and the reply says
/// why.
pub fn registration_intent(is_private: bool, already_registered: bool) -> (r: (
    Option<ConvState>,
    Reply,
))
    ensures
        !is_private ==> r.0 is None && r.1 == Reply::RegistrationPrivateOnly,
        is_private && already_registered ==> r.0 is None && r.1 == Reply::AlreadyRegistered,
        is_private && !already_registered ==> (r.0 matches Some(st) && st.step
            == Step::AwaitingRegistrationConfirm && st.team is None && st.items@.len() == 0 && r.1
            == Reply::RegistrationPrompt),
{
    if !is_private {
        (None, Reply::RegistrationPrivateOnly)
    } else if already_registered {
        (None, Reply::AlreadyRegistered)
    } else {
        (
            Some(ConvState { step: Step::AwaitingRegistrationConfirm, team: None, items: Vec::new() }),
            Reply::RegistrationPrompt,
        )
    }
}

/// Opens the mission-submission flow for a user with no open
/// conversation.  Only a private chat may start it; the new
/// conversation waits for a team choice.
pub fn submission_intent(is_private: bool) -> (r: (Option<ConvState>, Reply))
    ensures
        !is_private ==> r.0 is None && r.1 == Reply::SubmissionPrivateOnly,
        is_private ==> (r.0 matches Some(st) && st.step == Step::AwaitingTeamChoice && st.team
            is None && st.items@.len() == 0 && r.1 == Reply::TeamPrompt),
{
    if !is_private {
        (None, Reply::SubmissionPrivateOnly)
    } else {
        (
            Some(ConvState { step: Step::AwaitingTeamChoice, team: None, items: Vec::new() }),
            Reply::TeamPrompt,
        )
    }
}

/// How the registration confirmation step ended.
#[derive(Clone, Copy, PartialEq, Eq, Structural, Debug)]
pub enum ConfirmOutcome {
    Declined,
    HandleTaken,
    Registered,
}

/// Answers the registration confirmation prompt.  Any non-affirmative
/// text declines, which is a terminal transition.  An affirmative
/// reply appends a new registrant to the freshly loaded list — unless
/// the handle is already taken, so at most one registrant per handle
/// can ever be stored — and the caller must then persist the list.
pub fn confirm_registration(
    text: &[u8],
    rs: &mut Vec<Registrant>,
    name: Vec<u8>,
    handle: Vec<u8>,
) -> (o: ConfirmOutcome)
    requires
        old(rs)@.len() < u32::MAX,
    ensures
        o == ConfirmOutcome::Declined <==> !spec_affirmative(text@),
        o == ConfirmOutcome::HandleTaken <==> spec_affirmative(text@) && handle_present(
            old(rs)@,
            handle@,
        ),
        o == ConfirmOutcome::Registered <==> spec_affirmative(text@) && !handle_present(
            old(rs)@,
            handle@,
        ),
        o != ConfirmOutcome::Registered ==> final(rs)@ == old(rs)@,
        o == ConfirmOutcome::Registered ==> final(rs)@ =~= old(rs)@.push(
            (Registrant { id: (old(rs)@.len() + 1) as u32, name, handle }),
        ),
{
    if !is_affirmative(text) {
        return ConfirmOutcome::Declined;
    }
    if register(rs, name, handle) {
        ConfirmOutcome::Registered
    } else {
        ConfirmOutcome::HandleTaken
    }
}

/// Closes the registration confirmation step once the caller knows
/// whether the appended registrant was persisted.  The first component
/// says whether the conversation ends: it does at every documented
/// terminal transition, and survives a persistence failure so the user
/// can retry.
pub fn registration_finish(o: ConfirmOutcome, persisted: bool) -> (r: (bool, Reply))
    ensures
        o == ConfirmOutcome::Declined ==> r == (true, Reply::RegistrationDeclined),
        o == ConfirmOutcome::HandleTaken ==> r == (true, Reply::AlreadyRegistered),
        o == ConfirmOutcome::Registered && persisted ==> r == (true, Reply::RegistrationSuccess),
        o == ConfirmOutcome::Registered && !persisted ==> r == (
            false,
            Reply::RegistrationSaveFailed,
        ),
{
    match o {
        ConfirmOutcome::Declined => (true, Reply::RegistrationDeclined),
        ConfirmOutcome::HandleTaken => (true, Reply::AlreadyRegistered),
        ConfirmOutcome::Registered => {
            if persisted {
                (true, Reply::RegistrationSuccess)
            } else {
                (false, Reply::RegistrationSaveFailed)
            }
        },
    }
}

/// One message in the team-choice step.  A valid team name, ASCII case
/// ignored, advances the conversation to item collection; anything
/// else re-prompts.  The conversation survives either way: a
/// validation failure never drops the user from the store.
pub fn team_choice_step(state: &mut ConvState, text: &[u8]) -> (r: Reply)
    requires
        old(state).step == Step::AwaitingTeamChoice,
    ensures
        final(state).wf(),
        match spec_team_of(lower_bytes(text@)) {
            Some(t) => final(state).step == Step::AwaitingSubmissionItems && final(state).team
                == Some(t) && final(state).items == old(state).items && r == Reply::ItemsPrompt,
            None => *final(state) == *old(state) && r == Reply::TeamInvalid,
        },
{
    match parse_team_ci(text) {
        Some(t) => {
            state.step = Step::AwaitingSubmissionItems;
            state.team = Some(t);
            Reply::ItemsPrompt
        },
        None => Reply::TeamInvalid,
    }
}

/// One message while the conversation collects items.
pub enum ConvEvent {
    Text(Vec<u8>),
    ImageResolved(Vec<u8>),
    ImageFailed,
}

/// What the caller must do after a message in the item-collection
/// step.
#[derive(Clone, Copy, PartialEq, Eq, Structural, Debug)]
pub enum ItemsAction {
    Finalize,
    TextRecorded,
    ImageRecorded,
    ImageFailed,
}

proof fn lemma_item_views_push(s: Seq<Item>, it: Item)
    ensures
        item_views(s.push(it)) =~= item_views(s).push(it@),
{
}

/// One message in the item-collection step.  The finalize keyword
/// leaves the items untouched and tells the caller to build and
/// persist the submission; any other text and every resolved image are
/// appended in arrival order; a failed image resolution changes
/// nothing, so the user can retry, and never drops the conversation.
pub fn items_step(state: &mut ConvState, event: ConvEvent) -> (a: ItemsAction)
    requires
        old(state).step == Step::AwaitingSubmissionItems,
        old(state).wf(),
    ensures
        final(state).step == old(state).step,
        final(state).team == old(state).team,
        final(state).wf(),
        match event {
            ConvEvent::Text(t) => if t@ == kw_entregar() {
                a == ItemsAction::Finalize && final(state).items == old(state).items
            } else {
                a == ItemsAction::TextRecorded && item_views(final(state).items@) =~= item_views(
                    old(state).items@,
                ).push(ItemV::Text(t@))
            },
            ConvEvent::ImageResolved(p) => a == ItemsAction::ImageRecorded && item_views(
                final(state).items@,
            ) =~= item_views(old(state).items@).push(ItemV::ImageRef(p@)),
            ConvEvent::ImageFailed => a == ItemsAction::ImageFailed && final(state).items == old(
                state,
            ).items,
        },
{
    match event {
        ConvEvent::Text(t) => {
            let fin = kw_entregar_vec();
            if bytes_eq(t.as_slice(), fin.as_slice()) {
                ItemsAction::Finalize
            } else {
                proof {
                    lemma_item_views_push(state.items@, Item::Text(t));
                }
                state.items.push(Item::Text(t));
                ItemsAction::TextRecorded
            }
        },
        ConvEvent::ImageResolved(p) => {
            proof {
                lemma_item_views_push(state.items@, Item::ImageRef(p));
            }
            state.items.push(Item::ImageRef(p));
            ItemsAction::ImageRecorded
        },
        ConvEvent::ImageFailed => ItemsAction::ImageFailed,
    }
}

/// Closes the finalize transition once the caller knows whether the
/// submission record was persisted.  The conversation ends exactly
/// when it was; a persistence failure keeps the collected items so the
/// user can retry the finalize keyword.
pub fn submission_finish(persisted: bool) -> (r: (bool, Reply))
    ensures
        persisted ==> r == (true, Reply::SubmissionSuccess),
        !persisted ==> r == (false, Reply::SubmissionSaveFailed),
{
    if persisted {
        (true, Reply::SubmissionSuccess)
    } else {
        (false, Reply::SubmissionSaveFailed)
    }
}

} // verus!
