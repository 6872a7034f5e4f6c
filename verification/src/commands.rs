//! The command layer: exact-keyword user commands and the fixed
//! grammar of admin commands, each parsed and executed against an
//! explicit spec of the grammar.
use vstd::prelude::*;
use crate::ledger::CounterKind;
use crate::ledger::NAIPE_COUNT;
use crate::ledger::TeamLedger;
use crate::ledger::bump;
use crate::ledger::counter_of;
use crate::ledger::soldier_delta;
use crate::team::TeamId;
use crate::team::parse_team;
use crate::team::spec_team_of;
use crate::text::all_digits;
use crate::text::bytes_eq;
use crate::text::bytes_starts_with;
use crate::text::dec_val;
use crate::text::digit_val;
use crate::text::is_digit;
use crate::text::is_space;
use crate::text::parse_dec;
use crate::text::seq_views;
use crate::text::sub_bytes;
use crate::text::tokenize;
use crate::text::tokens;

verus! {

/// The bytes of `/start`.
pub open spec fn kw_start() -> Seq<u8> {
    seq!['/' as u8, 's' as u8, 't' as u8, 'a' as u8, 'r' as u8, 't' as u8]
}

/// The bytes of `/start`.
pub fn kw_start_vec() -> (r: Vec<u8>)
    ensures
        r@ == kw_start(),
{
    let r: Vec<u8> = vec!['/' as u8, 's' as u8, 't' as u8, 'a' as u8, 'r' as u8, 't' as u8];
    proof {
        assert(r@ =~= kw_start());
    }
    r
}

/// The bytes of `/inscricao`.
pub open spec fn kw_inscricao() -> Seq<u8> {
    seq![
        '/' as u8,
        'i' as u8,
        'n' as u8,
        's' as u8,
        'c' as u8,
        'r' as u8,
        'i' as u8,
        'c' as u8,
        'a' as u8,
        'o' as u8,
    ]
}

/// The bytes of `/inscricao`.
pub fn kw_inscricao_vec() -> (r: Vec<u8>)
    ensures
        r@ == kw_inscricao(),
{
    let r: Vec<u8> = vec![
        '/' as u8,
        'i' as u8,
        'n' as u8,
        's' as u8,
        'c' as u8,
        'r' as u8,
        'i' as u8,
        'c' as u8,
        'a' as u8,
        'o' as u8,
    ];
    proof {
        assert(r@ =~= kw_inscricao());
    }
    r
}

/// The bytes of `/inscritos`.
pub open spec fn kw_inscritos() -> Seq<u8> {
    seq![
        '/' as u8,
        'i' as u8,
        'n' as u8,
        's' as u8,
        'c' as u8,
        'r' as u8,
        'i' as u8,
        't' as u8,
        'o' as u8,
        's' as u8,
    ]
}

/// The bytes of `/inscritos`.
pub fn kw_inscritos_vec() -> (r: Vec<u8>)
    ensures
        r@ == kw_inscritos(),
{
    let r: Vec<u8> = vec![
        '/' as u8,
        'i' as u8,
        'n' as u8,
        's' as u8,
        'c' as u8,
        'r' as u8,
        'i' as u8,
        't' as u8,
        'o' as u8,
        's' as u8,
    ];
    proof {
        assert(r@ =~= kw_inscritos());
    }
    r
}

/// The bytes of `/entregarmissao`.
pub open spec fn kw_entregarmissao() -> Seq<u8> {
    seq![
        '/' as u8,
        'e' as u8,
        'n' as u8,
        't' as u8,
        'r' as u8,
        'e' as u8,
        'g' as u8,
        'a' as u8,
        'r' as u8,
        'm' as u8,
        'i' as u8,
        's' as u8,
        's' as u8,
        'a' as u8,
        'o' as u8,
    ]
}

/// The bytes of `/entregarmissao`.
pub fn kw_entregarmissao_vec() -> (r: Vec<u8>)
    ensures
        r@ == kw_entregarmissao(),
{
    let r: Vec<u8> = vec![
        '/' as u8,
        'e' as u8,
        'n' as u8,
        't' as u8,
        'r' as u8,
        'e' as u8,
        'g' as u8,
        'a' as u8,
        'r' as u8,
        'm' as u8,
        'i' as u8,
        's' as u8,
        's' as u8,
        'a' as u8,
        'o' as u8,
    ];
    proof {
        assert(r@ =~= kw_entregarmissao());
    }
    r
}

/// The bytes of `/missoes`.
pub open spec fn kw_missoes() -> Seq<u8> {
    seq!['/' as u8, 'm' as u8, 'i' as u8, 's' as u8, 's' as u8, 'o' as u8, 'e' as u8, 's' as u8]
}

/// The bytes of `/missoes`.
pub fn kw_missoes_vec() -> (r: Vec<u8>)
    ensures
        r@ == kw_missoes(),
{
    let r: Vec<u8> = vec![
        '/' as u8,
        'm' as u8,
        'i' as u8,
        's' as u8,
        's' as u8,
        'o' as u8,
        'e' as u8,
        's' as u8,
    ];
    proof {
        assert(r@ =~= kw_missoes());
    }
    r
}

/// The bytes of `/shu`.
pub open spec fn kw_cmd_shu() -> Seq<u8> {
    seq!['/' as u8, 's' as u8, 'h' as u8, 'u' as u8]
}

/// The bytes of `/shu`.
pub fn kw_cmd_shu_vec() -> (r: Vec<u8>)
    ensures
        r@ == kw_cmd_shu(),
{
    let r: Vec<u8> = vec!['/' as u8, 's' as u8, 'h' as u8, 'u' as u8];
    proof {
        assert(r@ =~= kw_cmd_shu());
    }
    r
}

/// The bytes of `/wei`.
pub open spec fn kw_cmd_wei() -> Seq<u8> {
    seq!['/' as u8, 'w' as u8, 'e' as u8, 'i' as u8]
}

/// The bytes of `/wei`.
pub fn kw_cmd_wei_vec() -> (r: Vec<u8>)
    ensures
        r@ == kw_cmd_wei(),
{
    let r: Vec<u8> = vec!['/' as u8, 'w' as u8, 'e' as u8, 'i' as u8];
    proof {
        assert(r@ =~= kw_cmd_wei());
    }
    r
}

/// The bytes of `/wu`.
pub open spec fn kw_cmd_wu() -> Seq<u8> {
    seq!['/' as u8, 'w' as u8, 'u' as u8]
}

/// The bytes of `/wu`.
pub fn kw_cmd_wu_vec() -> (r: Vec<u8>)
    ensures
        r@ == kw_cmd_wu(),
{
    let r: Vec<u8> = vec!['/' as u8, 'w' as u8, 'u' as u8];
    proof {
        assert(r@ =~= kw_cmd_wu());
    }
    r
}

/// The bytes of `/add`.
pub open spec fn kw_add() -> Seq<u8> {
    seq!['/' as u8, 'a' as u8, 'd' as u8, 'd' as u8]
}

/// The bytes of `/add`.
pub fn kw_add_vec() -> (r: Vec<u8>)
    ensures
        r@ == kw_add(),
{
    let r: Vec<u8> = vec!['/' as u8, 'a' as u8, 'd' as u8, 'd' as u8];
    proof {
        assert(r@ =~= kw_add());
    }
    r
}

/// The bytes of `/remove`.
pub open spec fn kw_remove() -> Seq<u8> {
    seq!['/' as u8, 'r' as u8, 'e' as u8, 'm' as u8, 'o' as u8, 'v' as u8, 'e' as u8]
}

/// The bytes of `/remove`.
pub fn kw_remove_vec() -> (r: Vec<u8>)
    ensures
        r@ == kw_remove(),
{
    let r: Vec<u8> = vec!['/' as u8, 'r' as u8, 'e' as u8, 'm' as u8, 'o' as u8, 'v' as u8, 'e' as u8];
    proof {
        assert(r@ =~= kw_remove());
    }
    r
}

/// The bytes of `/addsoldados`.
pub open spec fn kw_addsoldados() -> Seq<u8> {
    seq![
        '/' as u8,
        'a' as u8,
        'd' as u8,
        'd' as u8,
        's' as u8,
        'o' as u8,
        'l' as u8,
        'd' as u8,
        'a' as u8,
        'd' as u8,
        'o' as u8,
        's' as u8,
    ]
}

/// The bytes of `/addsoldados`.
pub fn kw_addsoldados_vec() -> (r: Vec<u8>)
    ensures
        r@ == kw_addsoldados(),
{
    let r: Vec<u8> = vec![
        '/' as u8,
        'a' as u8,
        'd' as u8,
        'd' as u8,
        's' as u8,
        'o' as u8,
        'l' as u8,
        'd' as u8,
        'a' as u8,
        'd' as u8,
        'o' as u8,
        's' as u8,
    ];
    proof {
        assert(r@ =~= kw_addsoldados());
    }
    r
}

/// The bytes of `/removesoldados`.
pub open spec fn kw_removesoldados() -> Seq<u8> {
    seq![
        '/' as u8,
        'r' as u8,
        'e' as u8,
        'm' as u8,
        'o' as u8,
        'v' as u8,
        'e' as u8,
        's' as u8,
        'o' as u8,
        'l' as u8,
        'd' as u8,
        'a' as u8,
        'd' as u8,
        'o' as u8,
        's' as u8,
    ]
}

/// The bytes of `/removesoldados`.
pub fn kw_removesoldados_vec() -> (r: Vec<u8>)
    ensures
        r@ == kw_removesoldados(),
{
    let r: Vec<u8> = vec![
        '/' as u8,
        'r' as u8,
        'e' as u8,
        'm' as u8,
        'o' as u8,
        'v' as u8,
        'e' as u8,
        's' as u8,
        'o' as u8,
        'l' as u8,
        'd' as u8,
        'a' as u8,
        'd' as u8,
        'o' as u8,
        's' as u8,
    ];
    proof {
        assert(r@ =~= kw_removesoldados());
    }
    r
}

/// The bytes of `pedra`.
pub open spec fn kw_pedra() -> Seq<u8> {
    seq!['p' as u8, 'e' as u8, 'd' as u8, 'r' as u8, 'a' as u8]
}

/// The bytes of `pedra`.
pub fn kw_pedra_vec() -> (r: Vec<u8>)
    ensures
        r@ == kw_pedra(),
{
    let r: Vec<u8> = vec!['p' as u8, 'e' as u8, 'd' as u8, 'r' as u8, 'a' as u8];
    proof {
        assert(r@ =~= kw_pedra());
    }
    r
}

/// The bytes of `papel`.
pub open spec fn kw_papel() -> Seq<u8> {
    seq!['p' as u8, 'a' as u8, 'p' as u8, 'e' as u8, 'l' as u8]
}

/// The bytes of `papel`.
pub fn kw_papel_vec() -> (r: Vec<u8>)
    ensures
        r@ == kw_papel(),
{
    let r: Vec<u8> = vec!['p' as u8, 'a' as u8, 'p' as u8, 'e' as u8, 'l' as u8];
    proof {
        assert(r@ =~= kw_papel());
    }
    r
}

/// The bytes of `tesoura`.
pub open spec fn kw_tesoura() -> Seq<u8> {
    seq!['t' as u8, 'e' as u8, 's' as u8, 'o' as u8, 'u' as u8, 'r' as u8, 'a' as u8]
}

/// The bytes of `tesoura`.
pub fn kw_tesoura_vec() -> (r: Vec<u8>)
    ensures
        r@ == kw_tesoura(),
{
    let r: Vec<u8> = vec!['t' as u8, 'e' as u8, 's' as u8, 'o' as u8, 'u' as u8, 'r' as u8, 'a' as u8];
    proof {
        assert(r@ =~= kw_tesoura());
    }
    r
}

/// A general user command, matched on the exact message text.
#[derive(Clone, Copy, PartialEq, Eq, Structural, Debug)]
pub enum UserCommand {
    Start,
    Register,
    ListRegistrants,
    SubmitMission,
    ListMissions,
    TeamView(TeamId),
    AdminCandidate,
    Other,
}

/// Which command an exact message text is.  Texts starting with `/add`
/// or `/remove` are candidates for the admin grammar; everything else
/// unknown is ignored.
pub open spec fn spec_classify(s: Seq<u8>) -> UserCommand {
    if s == kw_start() {
        UserCommand::Start
    } else if s == kw_inscricao() {
        UserCommand::Register
    } else if s == kw_inscritos() {
        UserCommand::ListRegistrants
    } else if s == kw_entregarmissao() {
        UserCommand::SubmitMission
    } else if s == kw_missoes() {
        UserCommand::ListMissions
    } else if s == kw_cmd_shu() {
        UserCommand::TeamView(TeamId::Shu)
    } else if s == kw_cmd_wei() {
        UserCommand::TeamView(TeamId::Wei)
    } else if s == kw_cmd_wu() {
        UserCommand::TeamView(TeamId::Wu)
    } else if kw_add().is_prefix_of(s) || kw_remove().is_prefix_of(s) {
        UserCommand::AdminCandidate
    } else {
        UserCommand::Other
    }
}

/// Classifies one message text as a user command.
pub fn classify_command(text: &[u8]) -> (c: UserCommand)
    ensures
        c == spec_classify(text@),
{
    let start = kw_start_vec();
    if bytes_eq(text, start.as_slice()) {
        return UserCommand::Start;
    }
    let inscricao = kw_inscricao_vec();
    if bytes_eq(text, inscricao.as_slice()) {
        return UserCommand::Register;
    }
    let inscritos = kw_inscritos_vec();
    if bytes_eq(text, inscritos.as_slice()) {
        return UserCommand::ListRegistrants;
    }
    let entregarmissao = kw_entregarmissao_vec();
    if bytes_eq(text, entregarmissao.as_slice()) {
        return UserCommand::SubmitMission;
    }
    let missoes = kw_missoes_vec();
    if bytes_eq(text, missoes.as_slice()) {
        return UserCommand::ListMissions;
    }
    let shu = kw_cmd_shu_vec();
    if bytes_eq(text, shu.as_slice()) {
        return UserCommand::TeamView(TeamId::Shu);
    }
    let wei = kw_cmd_wei_vec();
    if bytes_eq(text, wei.as_slice()) {
        return UserCommand::TeamView(TeamId::Wei);
    }
    let wu = kw_cmd_wu_vec();
    if bytes_eq(text, wu.as_slice()) {
        return UserCommand::TeamView(TeamId::Wu);
    }
    let add = kw_add_vec();
    if bytes_starts_with(text, add.as_slice()) {
        return UserCommand::AdminCandidate;
    }
    let remove = kw_remove_vec();
    if bytes_starts_with(text, remove.as_slice()) {
        return UserCommand::AdminCandidate;
    }
    UserCommand::Other
}

/// A numeral with an optional leading minus sign and at least one
/// digit.
pub open spec fn signed_numeral(t: Seq<u8>) -> bool {
    if t.len() > 0 && t[0] == '-' as u8 {
        t.len() >= 2 && all_digits(t.skip(1))
    } else {
        t.len() >= 1 && all_digits(t)
    }
}

/// The value of a signed decimal numeral.
pub open spec fn signed_value(t: Seq<u8>) -> int {
    if t.len() > 0 && t[0] == '-' as u8 {
        -(dec_val(t.skip(1)) as int)
    } else {
        dec_val(t) as int
    }
}

/// Parses a signed numeral whose value a 32-bit signed integer can
/// hold, the only amounts the soldier grammar accepts.
fn parse_signed(t: &[u8]) -> (r: Option<i64>)
    ensures
        r is Some <==> signed_numeral(t@) && -0x8000_0000 <= signed_value(t@) <= 0x7fff_ffff,
        r matches Some(v) ==> v == signed_value(t@),
{
    if t.len() == 0 {
        return None;
    }
    if t[0] == '-' as u8 {
        let rest = sub_bytes(t, 1, t.len());
        proof {
            assert(rest@ =~= t@.skip(1));
        }
        match parse_dec(rest.as_slice(), 0x8000_0000u64) {
            Some(v) => Some(-(v as i64)),
            None => None,
        }
    } else {
        match parse_dec(t, 0x7fff_ffffu64) {
            Some(v) => Some(v as i64),
            None => None,
        }
    }
}

/// The counter kind a grammar token names.
pub open spec fn spec_kind_of(t: Seq<u8>) -> Option<CounterKind> {
    if t == kw_pedra() {
        Some(CounterKind::Rock)
    } else if t == kw_papel() {
        Some(CounterKind::Paper)
    } else if t == kw_tesoura() {
        Some(CounterKind::Scissors)
    } else {
        None
    }
}

/// Parses a counter-kind token.
fn parse_kind(t: &[u8]) -> (r: Option<CounterKind>)
    ensures
        r == spec_kind_of(t@),
{
    let pedra = kw_pedra_vec();
    if bytes_eq(t, pedra.as_slice()) {
        return Some(CounterKind::Rock);
    }
    let papel = kw_papel_vec();
    if bytes_eq(t, papel.as_slice()) {
        return Some(CounterKind::Paper);
    }
    let tesoura = kw_tesoura_vec();
    if bytes_eq(t, tesoura.as_slice()) {
        return Some(CounterKind::Scissors);
    }
    None
}

/// A parsed admin command.
#[derive(Clone, Copy, PartialEq, Eq, Structural, Debug)]
pub enum AdminCmd {
    Soldiers { add: bool, team: TeamId, amount: i64 },
    Naipe { add: bool, team: TeamId, index: usize, kind: CounterKind },
    Unrecognized,
}

/// The text starts and ends on a non-whitespace byte, as the anchored
/// grammar requires.
pub open spec fn trimmed(s: Seq<u8>) -> bool {
    s.len() > 0 && !is_space(s[0]) && !is_space(s.last())
}

/// The admin command grammar, matched in order with first match
/// winning: `/addsoldados` or `/removesoldados`, a team and a signed
/// amount; or `/add` or `/remove`, a team, a one- or two-digit naipe
/// index and a counter kind.  Fields are separated by whitespace runs
/// and nothing may surround them.  An amount outside the range of a
/// 32-bit signed integer is not recognized.
pub open spec fn spec_parse_admin(s: Seq<u8>) -> AdminCmd {
    let ts = tokens(s);
    if !trimmed(s) {
        AdminCmd::Unrecognized
    } else if ts.len() == 3 && (ts[0] == kw_addsoldados() || ts[0] == kw_removesoldados())
        && spec_team_of(ts[1]) is Some && signed_numeral(ts[2]) && -0x8000_0000 <= signed_value(
        ts[2],
    ) <= 0x7fff_ffff {
        AdminCmd::Soldiers {
            add: ts[0] == kw_addsoldados(),
            team: spec_team_of(ts[1])->Some_0,
            amount: signed_value(ts[2]) as i64,
        }
    } else if ts.len() == 4 && (ts[0] == kw_add() || ts[0] == kw_remove()) && spec_team_of(ts[1])
        is Some && 1 <= ts[2].len() <= 2 && all_digits(ts[2]) && spec_kind_of(ts[3]) is Some {
        AdminCmd::Naipe {
            add: ts[0] == kw_add(),
            team: spec_team_of(ts[1])->Some_0,
            index: dec_val(ts[2]) as usize,
            kind: spec_kind_of(ts[3])->Some_0,
        }
    } else {
        AdminCmd::Unrecognized
    }
}

/// A numeral of at most two digits is at most 99.
proof fn lemma_two_digits_small(t: Seq<u8>)
    requires
        all_digits(t),
        1 <= t.len() <= 2,
    ensures
        dec_val(t) <= 99,
{
    if t.len() == 1 {
        assert(is_digit(t[0]));
        assert(dec_val(t) == dec_val(t.drop_last()) * 10 + digit_val(t.last()));
        assert(t.drop_last().len() == 0);
    } else {
        assert(is_digit(t[0]));
        assert(is_digit(t[1]));
        assert(dec_val(t) == dec_val(t.drop_last()) * 10 + digit_val(t.last()));
        assert(dec_val(t.drop_last()) == dec_val(t.drop_last().drop_last()) * 10 + digit_val(
            t.drop_last().last(),
        ));
        assert(t.drop_last().drop_last().len() == 0);
        assert(t.drop_last().last() == t[0]);
        assert(dec_val(t.drop_last()) <= 9);
    }
}

/// Parses one admin message against the fixed grammar.
pub fn parse_admin_command(text: &[u8]) -> (c: AdminCmd)
    ensures
        c == spec_parse_admin(text@),
{
    if text.len() == 0 {
        return AdminCmd::Unrecognized;
    }
    let first = text[0];
    let last = text[text.len() - 1];
    if first == 32 || first == 9 || first == 10 || first == 11 || first == 12 || first == 13 {
        return AdminCmd::Unrecognized;
    }
    if last == 32 || last == 9 || last == 10 || last == 11 || last == 12 || last == 13 {
        return AdminCmd::Unrecognized;
    }
    let toks = tokenize(text);
    proof {
        assert(seq_views(toks@) == tokens(text@));
        assert(toks@.len() == tokens(text@).len());
    }
    if toks.len() == 3 {
        let addsold = kw_addsoldados_vec();
        let removesold = kw_removesoldados_vec();
        let is_add = bytes_eq(toks[0].as_slice(), addsold.as_slice());
        let is_remove = bytes_eq(toks[0].as_slice(), removesold.as_slice());
        proof {
            assert(toks@[0]@ == tokens(text@)[0]);
            assert(toks@[1]@ == tokens(text@)[1]);
            assert(toks@[2]@ == tokens(text@)[2]);
        }
        if is_add || is_remove {
            if let Some(team) = parse_team(toks[1].as_slice()) {
                if let Some(amount) = parse_signed(toks[2].as_slice()) {
                    return AdminCmd::Soldiers { add: is_add, team, amount };
                }
            }
        }
        return AdminCmd::Unrecognized;
    }
    if toks.len() == 4 {
        let add = kw_add_vec();
        let remove = kw_remove_vec();
        let is_add = bytes_eq(toks[0].as_slice(), add.as_slice());
        let is_remove = bytes_eq(toks[0].as_slice(), remove.as_slice());
        proof {
            assert(toks@[0]@ == tokens(text@)[0]);
            assert(toks@[1]@ == tokens(text@)[1]);
            assert(toks@[2]@ == tokens(text@)[2]);
            assert(toks@[3]@ == tokens(text@)[3]);
        }
        if is_add || is_remove {
            if let Some(team) = parse_team(toks[1].as_slice()) {
                if 1 <= toks[2].len() && toks[2].len() <= 2 {
                    proof {
                        if all_digits(toks@[2]@) {
                            lemma_two_digits_small(toks@[2]@);
                        }
                    }
                    if let Some(index) = parse_dec(toks[2].as_slice(), 99) {
                        if let Some(kind) = parse_kind(toks[3].as_slice()) {
                            return AdminCmd::Naipe { add: is_add, team, index: index as usize, kind };
                        }
                    }
                }
            }
        }
        return AdminCmd::Unrecognized;
    }
    AdminCmd::Unrecognized
}

/// The team a parsed admin command addresses, whose ledger the caller
/// must load before executing it.
pub fn cmd_team(cmd: &AdminCmd) -> (r: Option<TeamId>)
    ensures
        match *cmd {
            AdminCmd::Soldiers { team, .. } => r == Some(team),
            AdminCmd::Naipe { team, .. } => r == Some(team),
            AdminCmd::Unrecognized => r is None,
        },
{
    match cmd {
        AdminCmd::Soldiers { team, .. } => Some(*team),
        AdminCmd::Naipe { team, .. } => Some(*team),
        AdminCmd::Unrecognized => None,
    }
}

/// The effect one admin command had.
#[derive(Clone, Copy, PartialEq, Eq, Structural, Debug)]
pub enum AdminOutcome {
    SoldiersChanged { team: TeamId, total: i64 },
    CounterChanged { team: TeamId, index: usize, kind: CounterKind },
    InvalidIndex,
    SoldiersOverflow,
    Unrecognized,
}

/// Executes one parsed admin command against the team's ledger, which
/// the caller loaded and must persist again when the outcome reports a
/// change.  A naipe index outside 1..=22 is a validation error and
/// mutates nothing; a decrement of a zero counter still succeeds, the
/// counter staying clamped at zero.
pub fn execute_admin(cmd: &AdminCmd, ledger: &mut TeamLedger) -> (o: AdminOutcome)
    requires
        old(ledger).wf(),
    ensures
        final(ledger).wf(),
        match *cmd {
            AdminCmd::Soldiers { add, team, amount } => if i64::MIN <= old(ledger).soldiers
                + soldier_delta(amount, add) <= i64::MAX {
                &&& o == (AdminOutcome::SoldiersChanged {
                    team,
                    total: (old(ledger).soldiers + soldier_delta(amount, add)) as i64,
                })
                &&& final(ledger).soldiers == old(ledger).soldiers + soldier_delta(amount, add)
                &&& final(ledger).naipes == old(ledger).naipes
            } else {
                o == AdminOutcome::SoldiersOverflow && *final(ledger) == *old(ledger)
            },
            AdminCmd::Naipe { add, team, index, kind } => if 1 <= index <= NAIPE_COUNT {
                &&& o == (AdminOutcome::CounterChanged { team, index, kind })
                &&& final(ledger).soldiers == old(ledger).soldiers
                &&& forall|j: int|
                    0 <= j < NAIPE_COUNT && j != index - 1 ==> final(ledger).naipes@[j] == old(
                        ledger,
                    ).naipes@[j]
                &&& counter_of(final(ledger).naipes@[index - 1], kind) == bump(
                    counter_of(old(ledger).naipes@[index - 1], kind),
                    add,
                )
                &&& (kind != CounterKind::Rock ==> final(ledger).naipes@[index - 1].rock == old(
                    ledger,
                ).naipes@[index - 1].rock)
                &&& (kind != CounterKind::Paper ==> final(ledger).naipes@[index - 1].paper == old(
                    ledger,
                ).naipes@[index - 1].paper)
                &&& (kind != CounterKind::Scissors ==> final(ledger).naipes@[index - 1].scissors
                    == old(ledger).naipes@[index - 1].scissors)
            } else {
                o == AdminOutcome::InvalidIndex && *final(ledger) == *old(ledger)
            },
            AdminCmd::Unrecognized => o == AdminOutcome::Unrecognized && *final(ledger) == *old(
                ledger,
            ),
        },
{
    match cmd {
        AdminCmd::Soldiers { add, team, amount } => {
            if ledger.apply_soldiers(*amount, *add) {
                AdminOutcome::SoldiersChanged { team: *team, total: ledger.soldiers }
            } else {
                AdminOutcome::SoldiersOverflow
            }
        },
        AdminCmd::Naipe { add, team, index, kind } => {
            if ledger.apply_naipe(*index, *kind, *add) {
                AdminOutcome::CounterChanged { team: *team, index: *index, kind: *kind }
            } else {
                AdminOutcome::InvalidIndex
            }
        },
        AdminCmd::Unrecognized => AdminOutcome::Unrecognized,
    }
}

} // verus!
