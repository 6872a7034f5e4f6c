//! Rendering of the user-facing views: the team summary with its suit
//! glyphs, the registrant listing, the delivery summary forwarded to
//! the admin channel, the two-part decree announcement and the
//! storage reference of a submitted image.
use vstd::prelude::*;
use crate::decree::EmojiEntryV;
use crate::decree::EmojiEntry;
use crate::decree::entry_views;
use crate::decree::glyph_for;
use crate::decree::spec_glyph_for;
use crate::ledger::CounterKind;
use crate::ledger::NAIPE_COUNT;
use crate::ledger::NaipeCounters;
use crate::ledger::TeamLedger;
use crate::registry::Registrant;
use crate::team::TeamId;
use crate::team::team_name;
use crate::team::team_name_vec;
use crate::text::append_bytes;
use crate::text::dec_of;
use crate::text::dec_of_signed;
use crate::text::find_from;
use crate::text::find_sub;
use crate::text::i64_to_dec;
use crate::text::lines_of;
use crate::text::seq_views;
use crate::text::split_lines;
use crate::text::to_ascii_upper;
use crate::text::u64_to_dec;
use crate::text::upper_bytes;

verus! {

/// The bytes of `📊 **Banco de Dados do Time `.
pub open spec fn kw_sum_hdr_pre() -> Seq<u8> {
    seq![240u8, 159u8, 147u8, 138u8, ' ' as u8, '*' as u8, '*' as u8, 'B' as u8, 'a' as u8, 'n' as u8, 'c' as u8, 'o' as u8, ' ' as u8, 'd' as u8, 'e' as u8, ' ' as u8, 'D' as u8, 'a' as u8, 'd' as u8, 'o' as u8, 's' as u8, ' ' as u8, 'd' as u8, 'o' as u8, ' ' as u8, 'T' as u8, 'i' as u8, 'm' as u8, 'e' as u8, ' ' as u8]
}

/// The bytes of `📊 **Banco de Dados do Time `.
pub fn kw_sum_hdr_pre_vec() -> (r: Vec<u8>)
    ensures
        r@ == kw_sum_hdr_pre(),
{
    let r: Vec<u8> = vec![240u8, 159u8, 147u8, 138u8, ' ' as u8, '*' as u8, '*' as u8, 'B' as u8, 'a' as u8, 'n' as u8, 'c' as u8, 'o' as u8, ' ' as u8, 'd' as u8, 'e' as u8, ' ' as u8, 'D' as u8, 'a' as u8, 'd' as u8, 'o' as u8, 's' as u8, ' ' as u8, 'd' as u8, 'o' as u8, ' ' as u8, 'T' as u8, 'i' as u8, 'm' as u8, 'e' as u8, ' ' as u8];
    proof {
        assert(r@ =~= kw_sum_hdr_pre());
    }
    r
}

/// The bytes of `** 📊\n\n`.
pub open spec fn kw_sum_hdr_post() -> Seq<u8> {
    seq!['*' as u8, '*' as u8, ' ' as u8, 240u8, 159u8, 147u8, 138u8, 10u8, 10u8]
}

/// The bytes of `** 📊\n\n`.
pub fn kw_sum_hdr_post_vec() -> (r: Vec<u8>)
    ensures
        r@ == kw_sum_hdr_post(),
{
    let r: Vec<u8> = vec!['*' as u8, '*' as u8, ' ' as u8, 240u8, 159u8, 147u8, 138u8, 10u8, 10u8];
    proof {
        assert(r@ =~= kw_sum_hdr_post());
    }
    r
}

/// The bytes of `Soldados: `.
pub open spec fn kw_soldados_lbl() -> Seq<u8> {
    seq!['S' as u8, 'o' as u8, 'l' as u8, 'd' as u8, 'a' as u8, 'd' as u8, 'o' as u8, 's' as u8, ':' as u8, ' ' as u8]
}

/// The bytes of `Soldados: `.
pub fn kw_soldados_lbl_vec() -> (r: Vec<u8>)
    ensures
        r@ == kw_soldados_lbl(),
{
    let r: Vec<u8> = vec!['S' as u8, 'o' as u8, 'l' as u8, 'd' as u8, 'a' as u8, 'd' as u8, 'o' as u8, 's' as u8, ':' as u8, ' ' as u8];
    proof {
        assert(r@ =~= kw_soldados_lbl());
    }
    r
}

/// The bytes of `\n\n`.
pub open spec fn kw_blank_line() -> Seq<u8> {
    seq![10u8, 10u8]
}

/// The bytes of `\n\n`.
pub fn kw_blank_line_vec() -> (r: Vec<u8>)
    ensures
        r@ == kw_blank_line(),
{
    let r: Vec<u8> = vec![10u8, 10u8];
    proof {
        assert(r@ =~= kw_blank_line());
    }
    r
}

/// The bytes of `Missões por Naipe:\n`.
pub open spec fn kw_missoes_hdr() -> Seq<u8> {
    seq!['M' as u8, 'i' as u8, 's' as u8, 's' as u8, 195u8, 181u8, 'e' as u8, 's' as u8, ' ' as u8, 'p' as u8, 'o' as u8, 'r' as u8, ' ' as u8, 'N' as u8, 'a' as u8, 'i' as u8, 'p' as u8, 'e' as u8, ':' as u8, 10u8]
}

/// The bytes of `Missões por Naipe:\n`.
pub fn kw_missoes_hdr_vec() -> (r: Vec<u8>)
    ensures
        r@ == kw_missoes_hdr(),
{
    let r: Vec<u8> = vec!['M' as u8, 'i' as u8, 's' as u8, 's' as u8, 195u8, 181u8, 'e' as u8, 's' as u8, ' ' as u8, 'p' as u8, 'o' as u8, 'r' as u8, ' ' as u8, 'N' as u8, 'a' as u8, 'i' as u8, 'p' as u8, 'e' as u8, ':' as u8, 10u8];
    proof {
        assert(r@ =~= kw_missoes_hdr());
    }
    r
}

/// The bytes of `Naipe `.
pub open spec fn kw_naipe_lbl() -> Seq<u8> {
    seq!['N' as u8, 'a' as u8, 'i' as u8, 'p' as u8, 'e' as u8, ' ' as u8]
}

/// The bytes of `Naipe `.
pub fn kw_naipe_lbl_vec() -> (r: Vec<u8>)
    ensures
        r@ == kw_naipe_lbl(),
{
    let r: Vec<u8> = vec!['N' as u8, 'a' as u8, 'i' as u8, 'p' as u8, 'e' as u8, ' ' as u8];
    proof {
        assert(r@ =~= kw_naipe_lbl());
    }
    r
}

/// The bytes of `: `.
pub open spec fn kw_colon_sp() -> Seq<u8> {
    seq![':' as u8, ' ' as u8]
}

/// The bytes of `: `.
pub fn kw_colon_sp_vec() -> (r: Vec<u8>)
    ensures
        r@ == kw_colon_sp(),
{
    let r: Vec<u8> = vec![':' as u8, ' ' as u8];
    proof {
        assert(r@ =~= kw_colon_sp());
    }
    r
}

/// The bytes of ` Pedra: `.
pub open spec fn kw_pedra_lbl() -> Seq<u8> {
    seq![' ' as u8, 'P' as u8, 'e' as u8, 'd' as u8, 'r' as u8, 'a' as u8, ':' as u8, ' ' as u8]
}

/// The bytes of ` Pedra: `.
pub fn kw_pedra_lbl_vec() -> (r: Vec<u8>)
    ensures
        r@ == kw_pedra_lbl(),
{
    let r: Vec<u8> = vec![' ' as u8, 'P' as u8, 'e' as u8, 'd' as u8, 'r' as u8, 'a' as u8, ':' as u8, ' ' as u8];
    proof {
        assert(r@ =~= kw_pedra_lbl());
    }
    r
}

/// The bytes of ` Papel: `.
pub open spec fn kw_papel_lbl() -> Seq<u8> {
    seq![' ' as u8, 'P' as u8, 'a' as u8, 'p' as u8, 'e' as u8, 'l' as u8, ':' as u8, ' ' as u8]
}

/// The bytes of ` Papel: `.
pub fn kw_papel_lbl_vec() -> (r: Vec<u8>)
    ensures
        r@ == kw_papel_lbl(),
{
    let r: Vec<u8> = vec![' ' as u8, 'P' as u8, 'a' as u8, 'p' as u8, 'e' as u8, 'l' as u8, ':' as u8, ' ' as u8];
    proof {
        assert(r@ =~= kw_papel_lbl());
    }
    r
}

/// The bytes of ` Tesoura: `.
pub open spec fn kw_tesoura_lbl() -> Seq<u8> {
    seq![' ' as u8, 'T' as u8, 'e' as u8, 's' as u8, 'o' as u8, 'u' as u8, 'r' as u8, 'a' as u8, ':' as u8, ' ' as u8]
}

/// The bytes of ` Tesoura: `.
pub fn kw_tesoura_lbl_vec() -> (r: Vec<u8>)
    ensures
        r@ == kw_tesoura_lbl(),
{
    let r: Vec<u8> = vec![' ' as u8, 'T' as u8, 'e' as u8, 's' as u8, 'o' as u8, 'u' as u8, 'r' as u8, 'a' as u8, ':' as u8, ' ' as u8];
    proof {
        assert(r@ =~= kw_tesoura_lbl());
    }
    r
}

/// The bytes of ` | `.
pub open spec fn kw_sep() -> Seq<u8> {
    seq![' ' as u8, '|' as u8, ' ' as u8]
}

/// The bytes of ` | `.
pub fn kw_sep_vec() -> (r: Vec<u8>)
    ensures
        r@ == kw_sep(),
{
    let r: Vec<u8> = vec![' ' as u8, '|' as u8, ' ' as u8];
    proof {
        assert(r@ =~= kw_sep());
    }
    r
}

/// The bytes of `\n`.
pub open spec fn kw_nl() -> Seq<u8> {
    seq![10u8]
}

/// The bytes of `\n`.
pub fn kw_nl_vec() -> (r: Vec<u8>)
    ensures
        r@ == kw_nl(),
{
    let r: Vec<u8> = vec![10u8];
    proof {
        assert(r@ =~= kw_nl());
    }
    r
}

/// The bytes of `🛡`.
pub open spec fn kw_rock_default() -> Seq<u8> {
    seq![240u8, 159u8, 155u8, 161u8]
}

/// The bytes of `🛡`.
pub fn kw_rock_default_vec() -> (r: Vec<u8>)
    ensures
        r@ == kw_rock_default(),
{
    let r: Vec<u8> = vec![240u8, 159u8, 155u8, 161u8];
    proof {
        assert(r@ =~= kw_rock_default());
    }
    r
}

/// The bytes of `📜`.
pub open spec fn kw_paper_default() -> Seq<u8> {
    seq![240u8, 159u8, 147u8, 156u8]
}

/// The bytes of `📜`.
pub fn kw_paper_default_vec() -> (r: Vec<u8>)
    ensures
        r@ == kw_paper_default(),
{
    let r: Vec<u8> = vec![240u8, 159u8, 147u8, 156u8];
    proof {
        assert(r@ =~= kw_paper_default());
    }
    r
}

/// The bytes of `✂️`.
pub open spec fn kw_scissors_default() -> Seq<u8> {
    seq![226u8, 156u8, 130u8, 239u8, 184u8, 143u8]
}

/// The bytes of `✂️`.
pub fn kw_scissors_default_vec() -> (r: Vec<u8>)
    ensures
        r@ == kw_scissors_default(),
{
    let r: Vec<u8> = vec![226u8, 156u8, 130u8, 239u8, 184u8, 143u8];
    proof {
        assert(r@ =~= kw_scissors_default());
    }
    r
}

/// The bytes of `Estes são os nobres guerreiros que juraram lealdade a mim:\n\n`.
pub open spec fn kw_reg_hdr() -> Seq<u8> {
    seq!['E' as u8, 's' as u8, 't' as u8, 'e' as u8, 's' as u8, ' ' as u8, 's' as u8, 195u8, 163u8, 'o' as u8, ' ' as u8, 'o' as u8, 's' as u8, ' ' as u8, 'n' as u8, 'o' as u8, 'b' as u8, 'r' as u8, 'e' as u8, 's' as u8, ' ' as u8, 'g' as u8, 'u' as u8, 'e' as u8, 'r' as u8, 'r' as u8, 'e' as u8, 'i' as u8, 'r' as u8, 'o' as u8, 's' as u8, ' ' as u8, 'q' as u8, 'u' as u8, 'e' as u8, ' ' as u8, 'j' as u8, 'u' as u8, 'r' as u8, 'a' as u8, 'r' as u8, 'a' as u8, 'm' as u8, ' ' as u8, 'l' as u8, 'e' as u8, 'a' as u8, 'l' as u8, 'd' as u8, 'a' as u8, 'd' as u8, 'e' as u8, ' ' as u8, 'a' as u8, ' ' as u8, 'm' as u8, 'i' as u8, 'm' as u8, ':' as u8, 10u8, 10u8]
}

/// The bytes of `Estes são os nobres guerreiros que juraram lealdade a mim:\n\n`.
pub fn kw_reg_hdr_vec() -> (r: Vec<u8>)
    ensures
        r@ == kw_reg_hdr(),
{
    let r: Vec<u8> = vec!['E' as u8, 's' as u8, 't' as u8, 'e' as u8, 's' as u8, ' ' as u8, 's' as u8, 195u8, 163u8, 'o' as u8, ' ' as u8, 'o' as u8, 's' as u8, ' ' as u8, 'n' as u8, 'o' as u8, 'b' as u8, 'r' as u8, 'e' as u8, 's' as u8, ' ' as u8, 'g' as u8, 'u' as u8, 'e' as u8, 'r' as u8, 'r' as u8, 'e' as u8, 'i' as u8, 'r' as u8, 'o' as u8, 's' as u8, ' ' as u8, 'q' as u8, 'u' as u8, 'e' as u8, ' ' as u8, 'j' as u8, 'u' as u8, 'r' as u8, 'a' as u8, 'r' as u8, 'a' as u8, 'm' as u8, ' ' as u8, 'l' as u8, 'e' as u8, 'a' as u8, 'l' as u8, 'd' as u8, 'a' as u8, 'd' as u8, 'e' as u8, ' ' as u8, 'a' as u8, ' ' as u8, 'm' as u8, 'i' as u8, 'm' as u8, ':' as u8, 10u8, 10u8];
    proof {
        assert(r@ =~= kw_reg_hdr());
    }
    r
}

/// The bytes of `- Inscrição Nº `.
pub open spec fn kw_reg_pre() -> Seq<u8> {
    seq!['-' as u8, ' ' as u8, 'I' as u8, 'n' as u8, 's' as u8, 'c' as u8, 'r' as u8, 'i' as u8, 195u8, 167u8, 195u8, 163u8, 'o' as u8, ' ' as u8, 'N' as u8, 194u8, 186u8, ' ' as u8]
}

/// The bytes of `- Inscrição Nº `.
pub fn kw_reg_pre_vec() -> (r: Vec<u8>)
    ensures
        r@ == kw_reg_pre(),
{
    let r: Vec<u8> = vec!['-' as u8, ' ' as u8, 'I' as u8, 'n' as u8, 's' as u8, 'c' as u8, 'r' as u8, 'i' as u8, 195u8, 167u8, 195u8, 163u8, 'o' as u8, ' ' as u8, 'N' as u8, 194u8, 186u8, ' ' as u8];
    proof {
        assert(r@ =~= kw_reg_pre());
    }
    r
}

/// The bytes of ` (@`.
pub open spec fn kw_at_open() -> Seq<u8> {
    seq![' ' as u8, '(' as u8, '@' as u8]
}

/// The bytes of ` (@`.
pub fn kw_at_open_vec() -> (r: Vec<u8>)
    ensures
        r@ == kw_at_open(),
{
    let r: Vec<u8> = vec![' ' as u8, '(' as u8, '@' as u8];
    proof {
        assert(r@ =~= kw_at_open());
    }
    r
}

/// The bytes of `)\n`.
pub open spec fn kw_paren_close_nl() -> Seq<u8> {
    seq![')' as u8, 10u8]
}

/// The bytes of `)\n`.
pub fn kw_paren_close_nl_vec() -> (r: Vec<u8>)
    ensures
        r@ == kw_paren_close_nl(),
{
    let r: Vec<u8> = vec![')' as u8, 10u8];
    proof {
        assert(r@ =~= kw_paren_close_nl());
    }
    r
}

/// The bytes of `Nova entrega de `.
pub open spec fn kw_del_pre() -> Seq<u8> {
    seq!['N' as u8, 'o' as u8, 'v' as u8, 'a' as u8, ' ' as u8, 'e' as u8, 'n' as u8, 't' as u8, 'r' as u8, 'e' as u8, 'g' as u8, 'a' as u8, ' ' as u8, 'd' as u8, 'e' as u8, ' ' as u8]
}

/// The bytes of `Nova entrega de `.
pub fn kw_del_pre_vec() -> (r: Vec<u8>)
    ensures
        r@ == kw_del_pre(),
{
    let r: Vec<u8> = vec!['N' as u8, 'o' as u8, 'v' as u8, 'a' as u8, ' ' as u8, 'e' as u8, 'n' as u8, 't' as u8, 'r' as u8, 'e' as u8, 'g' as u8, 'a' as u8, ' ' as u8, 'd' as u8, 'e' as u8, ' ' as u8];
    proof {
        assert(r@ =~= kw_del_pre());
    }
    r
}

/// The bytes of `) para o time `.
pub open spec fn kw_del_team() -> Seq<u8> {
    seq![')' as u8, ' ' as u8, 'p' as u8, 'a' as u8, 'r' as u8, 'a' as u8, ' ' as u8, 'o' as u8, ' ' as u8, 't' as u8, 'i' as u8, 'm' as u8, 'e' as u8, ' ' as u8]
}

/// The bytes of `) para o time `.
pub fn kw_del_team_vec() -> (r: Vec<u8>)
    ensures
        r@ == kw_del_team(),
{
    let r: Vec<u8> = vec![')' as u8, ' ' as u8, 'p' as u8, 'a' as u8, 'r' as u8, 'a' as u8, ' ' as u8, 'o' as u8, ' ' as u8, 't' as u8, 'i' as u8, 'm' as u8, 'e' as u8, ' ' as u8];
    proof {
        assert(r@ =~= kw_del_team());
    }
    r
}

/// The bytes of `:\n\n`.
pub open spec fn kw_del_colon() -> Seq<u8> {
    seq![':' as u8, 10u8, 10u8]
}

/// The bytes of `:\n\n`.
pub fn kw_del_colon_vec() -> (r: Vec<u8>)
    ensures
        r@ == kw_del_colon(),
{
    let r: Vec<u8> = vec![':' as u8, 10u8, 10u8];
    proof {
        assert(r@ =~= kw_del_colon());
    }
    r
}

/// The bytes of `Textos:\n`.
pub open spec fn kw_del_textos() -> Seq<u8> {
    seq!['T' as u8, 'e' as u8, 'x' as u8, 't' as u8, 'o' as u8, 's' as u8, ':' as u8, 10u8]
}

/// The bytes of `Textos:\n`.
pub fn kw_del_textos_vec() -> (r: Vec<u8>)
    ensures
        r@ == kw_del_textos(),
{
    let r: Vec<u8> = vec!['T' as u8, 'e' as u8, 'x' as u8, 't' as u8, 'o' as u8, 's' as u8, ':' as u8, 10u8];
    proof {
        assert(r@ =~= kw_del_textos());
    }
    r
}

/// The bytes of `- `.
pub open spec fn kw_dash_sp() -> Seq<u8> {
    seq!['-' as u8, ' ' as u8]
}

/// The bytes of `- `.
pub fn kw_dash_sp_vec() -> (r: Vec<u8>)
    ensures
        r@ == kw_dash_sp(),
{
    let r: Vec<u8> = vec!['-' as u8, ' ' as u8];
    proof {
        assert(r@ =~= kw_dash_sp());
    }
    r
}

/// The bytes of `Escutem todos o meu decreto! (Parte 1/2)\n\n`.
pub open spec fn kw_decree_hdr1() -> Seq<u8> {
    seq!['E' as u8, 's' as u8, 'c' as u8, 'u' as u8, 't' as u8, 'e' as u8, 'm' as u8, ' ' as u8, 't' as u8, 'o' as u8, 'd' as u8, 'o' as u8, 's' as u8, ' ' as u8, 'o' as u8, ' ' as u8, 'm' as u8, 'e' as u8, 'u' as u8, ' ' as u8, 'd' as u8, 'e' as u8, 'c' as u8, 'r' as u8, 'e' as u8, 't' as u8, 'o' as u8, '!' as u8, ' ' as u8, '(' as u8, 'P' as u8, 'a' as u8, 'r' as u8, 't' as u8, 'e' as u8, ' ' as u8, '1' as u8, '/' as u8, '2' as u8, ')' as u8, 10u8, 10u8]
}

/// The bytes of `Escutem todos o meu decreto! (Parte 1/2)\n\n`.
pub fn kw_decree_hdr1_vec() -> (r: Vec<u8>)
    ensures
        r@ == kw_decree_hdr1(),
{
    let r: Vec<u8> = vec!['E' as u8, 's' as u8, 'c' as u8, 'u' as u8, 't' as u8, 'e' as u8, 'm' as u8, ' ' as u8, 't' as u8, 'o' as u8, 'd' as u8, 'o' as u8, 's' as u8, ' ' as u8, 'o' as u8, ' ' as u8, 'm' as u8, 'e' as u8, 'u' as u8, ' ' as u8, 'd' as u8, 'e' as u8, 'c' as u8, 'r' as u8, 'e' as u8, 't' as u8, 'o' as u8, '!' as u8, ' ' as u8, '(' as u8, 'P' as u8, 'a' as u8, 'r' as u8, 't' as u8, 'e' as u8, ' ' as u8, '1' as u8, '/' as u8, '2' as u8, ')' as u8, 10u8, 10u8];
    proof {
        assert(r@ =~= kw_decree_hdr1());
    }
    r
}

/// The bytes of `Escutem todos o meu decreto! (Parte 2/2)\n\n`.
pub open spec fn kw_decree_hdr2() -> Seq<u8> {
    seq!['E' as u8, 's' as u8, 'c' as u8, 'u' as u8, 't' as u8, 'e' as u8, 'm' as u8, ' ' as u8, 't' as u8, 'o' as u8, 'd' as u8, 'o' as u8, 's' as u8, ' ' as u8, 'o' as u8, ' ' as u8, 'm' as u8, 'e' as u8, 'u' as u8, ' ' as u8, 'd' as u8, 'e' as u8, 'c' as u8, 'r' as u8, 'e' as u8, 't' as u8, 'o' as u8, '!' as u8, ' ' as u8, '(' as u8, 'P' as u8, 'a' as u8, 'r' as u8, 't' as u8, 'e' as u8, ' ' as u8, '2' as u8, '/' as u8, '2' as u8, ')' as u8, 10u8, 10u8]
}

/// The bytes of `Escutem todos o meu decreto! (Parte 2/2)\n\n`.
pub fn kw_decree_hdr2_vec() -> (r: Vec<u8>)
    ensures
        r@ == kw_decree_hdr2(),
{
    let r: Vec<u8> = vec!['E' as u8, 's' as u8, 'c' as u8, 'u' as u8, 't' as u8, 'e' as u8, 'm' as u8, ' ' as u8, 't' as u8, 'o' as u8, 'd' as u8, 'o' as u8, 's' as u8, ' ' as u8, 'o' as u8, ' ' as u8, 'm' as u8, 'e' as u8, 'u' as u8, ' ' as u8, 'd' as u8, 'e' as u8, 'c' as u8, 'r' as u8, 'e' as u8, 't' as u8, 'o' as u8, '!' as u8, ' ' as u8, '(' as u8, 'P' as u8, 'a' as u8, 'r' as u8, 't' as u8, 'e' as u8, ' ' as u8, '2' as u8, '/' as u8, '2' as u8, ')' as u8, 10u8, 10u8];
    proof {
        assert(r@ =~= kw_decree_hdr2());
    }
    r
}

/// The bytes of `Naipe 11`.
pub open spec fn kw_naipe_11() -> Seq<u8> {
    seq!['N' as u8, 'a' as u8, 'i' as u8, 'p' as u8, 'e' as u8, ' ' as u8, '1' as u8, '1' as u8]
}

/// The bytes of `Naipe 11`.
pub fn kw_naipe_11_vec() -> (r: Vec<u8>)
    ensures
        r@ == kw_naipe_11(),
{
    let r: Vec<u8> = vec!['N' as u8, 'a' as u8, 'i' as u8, 'p' as u8, 'e' as u8, ' ' as u8, '1' as u8, '1' as u8];
    proof {
        assert(r@ =~= kw_naipe_11());
    }
    r
}

/// The bytes of `entregas/`.
pub open spec fn kw_entregas_dir() -> Seq<u8> {
    seq!['e' as u8, 'n' as u8, 't' as u8, 'r' as u8, 'e' as u8, 'g' as u8, 'a' as u8, 's' as u8, '/' as u8]
}

/// The bytes of `entregas/`.
pub fn kw_entregas_dir_vec() -> (r: Vec<u8>)
    ensures
        r@ == kw_entregas_dir(),
{
    let r: Vec<u8> = vec!['e' as u8, 'n' as u8, 't' as u8, 'r' as u8, 'e' as u8, 'g' as u8, 'a' as u8, 's' as u8, '/' as u8];
    proof {
        assert(r@ =~= kw_entregas_dir());
    }
    r
}

/// The bytes of `/`.
pub open spec fn kw_slash() -> Seq<u8> {
    seq!['/' as u8]
}

/// The bytes of `/`.
pub fn kw_slash_vec() -> (r: Vec<u8>)
    ensures
        r@ == kw_slash(),
{
    let r: Vec<u8> = vec!['/' as u8];
    proof {
        assert(r@ =~= kw_slash());
    }
    r
}

/// The bytes of `_`.
pub open spec fn kw_underscore() -> Seq<u8> {
    seq!['_' as u8]
}

/// The bytes of `_`.
pub fn kw_underscore_vec() -> (r: Vec<u8>)
    ensures
        r@ == kw_underscore(),
{
    let r: Vec<u8> = vec!['_' as u8];
    proof {
        assert(r@ =~= kw_underscore());
    }
    r
}

/// The bytes of `.`.
pub open spec fn kw_dot() -> Seq<u8> {
    seq!['.' as u8]
}

/// The bytes of `.`.
pub fn kw_dot_vec() -> (r: Vec<u8>)
    ensures
        r@ == kw_dot(),
{
    let r: Vec<u8> = vec!['.' as u8];
    proof {
        assert(r@ =~= kw_dot());
    }
    r
}

/// The glyph shown for one naipe and kind: the decree's binding when
/// it has one, else the default glyph of that kind.
pub open spec fn glyph_or_default(
    entries: Seq<EmojiEntryV>,
    index: usize,
    kind: CounterKind,
) -> Seq<u8> {
    match spec_glyph_for(entries, index, kind) {
        Some(g) => g,
        None => match kind {
            CounterKind::Rock => kw_rock_default(),
            CounterKind::Paper => kw_paper_default(),
            CounterKind::Scissors => kw_scissors_default(),
        },
    }
}

/// Resolves the glyph for one naipe and kind.
fn resolve_glyph(entries: &Vec<EmojiEntry>, index: usize, kind: CounterKind) -> (r: Vec<u8>)
    ensures
        r@ == glyph_or_default(entry_views(entries@), index, kind),
{
    match glyph_for(entries, index, kind) {
        Some(g) => g,
        None => match kind {
            CounterKind::Rock => kw_rock_default_vec(),
            CounterKind::Paper => kw_paper_default_vec(),
            CounterKind::Scissors => kw_scissors_default_vec(),
        },
    }
}

/// One line of the team summary: the naipe number and its three
/// counters, each with its glyph.
pub open spec fn naipe_line(index: usize, n: NaipeCounters, entries: Seq<EmojiEntryV>) -> Seq<u8> {
    kw_naipe_lbl() + dec_of(index as nat) + kw_colon_sp() + glyph_or_default(
        entries,
        index,
        CounterKind::Rock,
    ) + kw_pedra_lbl() + dec_of(n.rock as nat) + kw_sep() + glyph_or_default(
        entries,
        index,
        CounterKind::Paper,
    ) + kw_papel_lbl() + dec_of(n.paper as nat) + kw_sep() + glyph_or_default(
        entries,
        index,
        CounterKind::Scissors,
    ) + kw_tesoura_lbl() + dec_of(n.scissors as nat) + kw_nl()
}

/// The summary lines of the first `k` naipes.
pub open spec fn naipe_lines_upto(
    naipes: Seq<NaipeCounters>,
    entries: Seq<EmojiEntryV>,
    k: int,
) -> Seq<u8>
    decreases k,
{
    if k <= 0 {
        Seq::empty()
    } else {
        naipe_lines_upto(naipes, entries, k - 1) + naipe_line(k as usize, naipes[k - 1], entries)
    }
}

/// The whole team summary: header with the team's name in upper case,
/// the soldier total, and one line per naipe.
pub open spec fn spec_render_summary(
    team: TeamId,
    soldiers: i64,
    naipes: Seq<NaipeCounters>,
    entries: Seq<EmojiEntryV>,
) -> Seq<u8> {
    kw_sum_hdr_pre() + upper_bytes(team_name(team)) + kw_sum_hdr_post() + kw_soldados_lbl()
        + dec_of_signed(soldiers as int) + kw_blank_line() + kw_missoes_hdr() + naipe_lines_upto(
        naipes,
        entries,
        NAIPE_COUNT as int,
    )
}

/// Renders the team summary view.  This is a pure read: the ledger is
/// only inspected, never changed.
#[verifier::rlimit(100)]
pub fn render_team_summary(team: TeamId, ledger: &TeamLedger, entries: &Vec<EmojiEntry>) -> (r: Vec<
    u8,
>)
    requires
        ledger.wf(),
    ensures
        r@ == spec_render_summary(team, ledger.soldiers, ledger.naipes@, entry_views(entries@)),
{
    let mut out: Vec<u8> = Vec::new();
    let hdr_pre = kw_sum_hdr_pre_vec();
    append_bytes(&mut out, hdr_pre.as_slice());
    let name = team_name_vec(team);
    let upper = to_ascii_upper(name.as_slice());
    append_bytes(&mut out, upper.as_slice());
    let hdr_post = kw_sum_hdr_post_vec();
    append_bytes(&mut out, hdr_post.as_slice());
    let soldados = kw_soldados_lbl_vec();
    append_bytes(&mut out, soldados.as_slice());
    let total = i64_to_dec(ledger.soldiers);
    append_bytes(&mut out, total.as_slice());
    let blank = kw_blank_line_vec();
    append_bytes(&mut out, blank.as_slice());
    let missoes = kw_missoes_hdr_vec();
    append_bytes(&mut out, missoes.as_slice());
    let ghost prefix = out@;
    proof {
        assert(out@ =~= prefix + naipe_lines_upto(
            ledger.naipes@,
            entry_views(entries@),
            0,
        ));
    }
    let mut i: usize = 0;
    while i < NAIPE_COUNT
        invariant
            i <= NAIPE_COUNT,
            ledger.wf(),
            out@ == prefix + naipe_lines_upto(ledger.naipes@, entry_views(entries@), i as int),
        decreases NAIPE_COUNT - i,
    {
        let ghost line_start = out@;
        let index = i + 1;
        let naipe = ledger.naipes[i];
        let lbl = kw_naipe_lbl_vec();
        append_bytes(&mut out, lbl.as_slice());
        let num = u64_to_dec(index as u64);
        append_bytes(&mut out, num.as_slice());
        let colon = kw_colon_sp_vec();
        append_bytes(&mut out, colon.as_slice());
        let g_rock = resolve_glyph(entries, index, CounterKind::Rock);
        append_bytes(&mut out, g_rock.as_slice());
        let pedra = kw_pedra_lbl_vec();
        append_bytes(&mut out, pedra.as_slice());
        let v_rock = u64_to_dec(naipe.rock);
        append_bytes(&mut out, v_rock.as_slice());
        let sep1 = kw_sep_vec();
        append_bytes(&mut out, sep1.as_slice());
        let g_paper = resolve_glyph(entries, index, CounterKind::Paper);
        append_bytes(&mut out, g_paper.as_slice());
        let papel = kw_papel_lbl_vec();
        append_bytes(&mut out, papel.as_slice());
        let v_paper = u64_to_dec(naipe.paper);
        append_bytes(&mut out, v_paper.as_slice());
        let sep2 = kw_sep_vec();
        append_bytes(&mut out, sep2.as_slice());
        let g_sciss = resolve_glyph(entries, index, CounterKind::Scissors);
        append_bytes(&mut out, g_sciss.as_slice());
        let tesoura = kw_tesoura_lbl_vec();
        append_bytes(&mut out, tesoura.as_slice());
        let v_sciss = u64_to_dec(naipe.scissors);
        append_bytes(&mut out, v_sciss.as_slice());
        let nl = kw_nl_vec();
        append_bytes(&mut out, nl.as_slice());
        proof {
            assert(out@ =~= line_start + naipe_line(
                (i + 1) as usize,
                ledger.naipes@[i as int],
                entry_views(entries@),
            ));
            assert(prefix + naipe_lines_upto(ledger.naipes@, entry_views(entries@), i + 1) =~= (
            prefix + naipe_lines_upto(ledger.naipes@, entry_views(entries@), i as int))
                + naipe_line((i + 1) as usize, ledger.naipes@[i as int], entry_views(entries@)));
        }
        i = i + 1;
    }
    out
}

/// One line of the registrant listing.
pub open spec fn reg_line(r: Registrant) -> Seq<u8> {
    kw_reg_pre() + dec_of(r.id as nat) + kw_colon_sp() + r.name@ + kw_at_open() + r.handle@
        + kw_paren_close_nl()
}

/// The listing lines of the first `k` registrants.
pub open spec fn reg_lines_upto(rs: Seq<Registrant>, k: int) -> Seq<u8>
    decreases k,
{
    if k <= 0 {
        Seq::empty()
    } else {
        reg_lines_upto(rs, k - 1) + reg_line(rs[k - 1])
    }
}

/// The registrant listing: a header and one line per registrant, in
/// registration order.
pub open spec fn spec_render_registrants(rs: Seq<Registrant>) -> Seq<u8> {
    kw_reg_hdr() + reg_lines_upto(rs, rs.len() as int)
}

/// Renders the registrant listing.
pub fn render_registrants(rs: &Vec<Registrant>) -> (r: Vec<u8>)
    ensures
        r@ == spec_render_registrants(rs@),
{
    let mut out: Vec<u8> = Vec::new();
    let hdr = kw_reg_hdr_vec();
    append_bytes(&mut out, hdr.as_slice());
    let ghost prefix = out@;
    proof {
        assert(out@ =~= prefix + reg_lines_upto(rs@, 0));
    }
    let mut i: usize = 0;
    while i < rs.len()
        invariant
            i <= rs@.len(),
            out@ == prefix + reg_lines_upto(rs@, i as int),
        decreases rs@.len() - i,
    {
        let ghost line_start = out@;
        let pre = kw_reg_pre_vec();
        append_bytes(&mut out, pre.as_slice());
        let num = u64_to_dec(rs[i].id as u64);
        append_bytes(&mut out, num.as_slice());
        let colon = kw_colon_sp_vec();
        append_bytes(&mut out, colon.as_slice());
        append_bytes(&mut out, rs[i].name.as_slice());
        let at = kw_at_open_vec();
        append_bytes(&mut out, at.as_slice());
        append_bytes(&mut out, rs[i].handle.as_slice());
        let close = kw_paren_close_nl_vec();
        append_bytes(&mut out, close.as_slice());
        proof {
            assert(out@ =~= line_start + reg_line(rs@[i as int]));
            assert(prefix + reg_lines_upto(rs@, i + 1) =~= (prefix + reg_lines_upto(rs@, i as int))
                + reg_line(rs@[i as int]));
        }
        i = i + 1;
    }
    out
}

/// One text item of the delivery summary.
pub open spec fn text_line(t: Seq<u8>) -> Seq<u8> {
    kw_dash_sp() + t + kw_nl()
}

/// The text-item lines of the first `k` texts.
pub open spec fn text_lines_upto(texts: Seq<Seq<u8>>, k: int) -> Seq<u8>
    decreases k,
{
    if k <= 0 {
        Seq::empty()
    } else {
        text_lines_upto(texts, k - 1) + text_line(texts[k - 1])
    }
}

/// The delivery summary forwarded to the admin channel: who delivered
/// for which team, and the text items; the images follow as photo
/// sends.
pub open spec fn spec_render_delivery(
    name: Seq<u8>,
    handle: Seq<u8>,
    team: TeamId,
    texts: Seq<Seq<u8>>,
) -> Seq<u8> {
    let head = kw_del_pre() + name + kw_at_open() + handle + kw_del_team() + upper_bytes(
        team_name(team),
    ) + kw_del_colon();
    if texts.len() > 0 {
        head + kw_del_textos() + text_lines_upto(texts, texts.len() as int)
    } else {
        head
    }
}

/// Renders the delivery summary for the admin channel.
pub fn render_delivery(name: &[u8], handle: &[u8], team: TeamId, texts: &Vec<Vec<u8>>) -> (r: Vec<
    u8,
>)
    ensures
        r@ == spec_render_delivery(name@, handle@, team, seq_views(texts@)),
{
    let mut out: Vec<u8> = Vec::new();
    let pre = kw_del_pre_vec();
    append_bytes(&mut out, pre.as_slice());
    append_bytes(&mut out, name);
    let at = kw_at_open_vec();
    append_bytes(&mut out, at.as_slice());
    append_bytes(&mut out, handle);
    let tm = kw_del_team_vec();
    append_bytes(&mut out, tm.as_slice());
    let tname = team_name_vec(team);
    let upper = to_ascii_upper(tname.as_slice());
    append_bytes(&mut out, upper.as_slice());
    let colon = kw_del_colon_vec();
    append_bytes(&mut out, colon.as_slice());
    if texts.len() == 0 {
        return out;
    }
    let lbl = kw_del_textos_vec();
    append_bytes(&mut out, lbl.as_slice());
    let ghost prefix = out@;
    proof {
        assert(out@ =~= prefix + text_lines_upto(seq_views(texts@), 0));
    }
    let mut i: usize = 0;
    while i < texts.len()
        invariant
            i <= texts@.len(),
            out@ == prefix + text_lines_upto(seq_views(texts@), i as int),
        decreases texts@.len() - i,
    {
        let ghost line_start = out@;
        let dash = kw_dash_sp_vec();
        append_bytes(&mut out, dash.as_slice());
        append_bytes(&mut out, texts[i].as_slice());
        let nl = kw_nl_vec();
        append_bytes(&mut out, nl.as_slice());
        proof {
            assert(out@ =~= line_start + text_line(seq_views(texts@)[i as int]));
            assert(prefix + text_lines_upto(seq_views(texts@), i + 1) =~= (prefix
                + text_lines_upto(seq_views(texts@), i as int)) + text_line(
                seq_views(texts@)[i as int],
            ));
        }
        i = i + 1;
    }
    out
}

/// The two decree announcement parts, folded over the lines: every
/// line goes to the first part until one holds `Naipe 11`; that line
/// and the rest go to the second part.
pub open spec fn split_from(
    lines: Seq<Seq<u8>>,
    i: int,
    in_second: bool,
    p1: Seq<u8>,
    p2: Seq<u8>,
) -> (Seq<u8>, Seq<u8>)
    decreases lines.len() - i,
{
    if i < 0 || i >= lines.len() {
        (p1, p2)
    } else {
        let now_second = in_second || find_from(lines[i], kw_naipe_11(), 0) is Some;
        if now_second {
            split_from(lines, i + 1, true, p1, p2 + lines[i] + kw_nl())
        } else {
            split_from(lines, i + 1, false, p1 + lines[i] + kw_nl(), p2)
        }
    }
}

/// The two parts of the decree announcement, each opened by its
/// header.
pub open spec fn spec_split_decree(s: Seq<u8>) -> (Seq<u8>, Seq<u8>) {
    split_from(lines_of(s), 0, false, kw_decree_hdr1(), kw_decree_hdr2())
}

/// Splits the decree text into its two announcement parts.
pub fn split_decree(s: &[u8]) -> (r: (Vec<u8>, Vec<u8>))
    ensures
        r.0@ == spec_split_decree(s@).0,
        r.1@ == spec_split_decree(s@).1,
{
    let lines = split_lines(s);
    let ghost lv = seq_views(lines@);
    let mut p1 = kw_decree_hdr1_vec();
    let mut p2 = kw_decree_hdr2_vec();
    let mut in_second = false;
    let mut i: usize = 0;
    proof {
        assert(spec_split_decree(s@) == split_from(lv, 0, in_second, p1@, p2@));
    }
    while i < lines.len()
        invariant
            i <= lines@.len(),
            lv == seq_views(lines@),
            spec_split_decree(s@) == split_from(lv, i as int, in_second, p1@, p2@),
        decreases lines@.len() - i,
    {
        proof {
            assert(lines@[i as int]@ == lv[i as int]);
        }
        let marker = kw_naipe_11_vec();
        let line = &lines[i];
        if !in_second {
            if find_sub(line.as_slice(), marker.as_slice(), 0).is_some() {
                in_second = true;
            }
        }
        let nl = kw_nl_vec();
        if in_second {
            append_bytes(&mut p2, line.as_slice());
            append_bytes(&mut p2, nl.as_slice());
        } else {
            append_bytes(&mut p1, line.as_slice());
            append_bytes(&mut p1, nl.as_slice());
        }
        i = i + 1;
    }
    (p1, p2)
}

/// The storage reference of one submitted image: the storage
/// directory of the team, then the sender and a timestamp with the
/// file extension.
pub open spec fn spec_storage_ref(team: TeamId, user: i64, stamp: i64, ext: Seq<u8>) -> Seq<u8> {
    kw_entregas_dir() + team_name(team) + kw_slash() + dec_of_signed(user as int) + kw_underscore()
        + dec_of_signed(stamp as int) + kw_dot() + ext
}

/// Builds the storage reference for one submitted image.
pub fn make_storage_ref(team: TeamId, user: i64, stamp: i64, ext: &[u8]) -> (r: Vec<u8>)
    ensures
        r@ == spec_storage_ref(team, user, stamp, ext@),
{
    let mut out: Vec<u8> = Vec::new();
    let dir = kw_entregas_dir_vec();
    append_bytes(&mut out, dir.as_slice());
    let name = team_name_vec(team);
    append_bytes(&mut out, name.as_slice());
    let slash = kw_slash_vec();
    append_bytes(&mut out, slash.as_slice());
    let u = i64_to_dec(user);
    append_bytes(&mut out, u.as_slice());
    let us = kw_underscore_vec();
    append_bytes(&mut out, us.as_slice());
    let st = i64_to_dec(stamp);
    append_bytes(&mut out, st.as_slice());
    let dot = kw_dot_vec();
    append_bytes(&mut out, dot.as_slice());
    append_bytes(&mut out, ext);
    proof {
        assert(out@ =~= spec_storage_ref(team, user, stamp, ext@));
    }
    out
}

} // verus!
