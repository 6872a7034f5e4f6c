//! The three team houses and the parsing of their names.
use vstd::prelude::*;
use crate::text::lower_bytes;
use crate::text::to_ascii_lower;
use crate::text::bytes_eq;

verus! {

/// One of the three houses a registrant can submit for.
#[derive(Clone, Copy, PartialEq, Eq, Structural, Debug)]
pub enum TeamId {
    Shu,
    Wei,
    Wu,
}

/// The bytes of `shu`.
pub open spec fn kw_shu() -> Seq<u8> {
    seq!['s' as u8, 'h' as u8, 'u' as u8]
}

/// The bytes of `shu`.
pub fn kw_shu_vec() -> (r: Vec<u8>)
    ensures
        r@ == kw_shu(),
{
    let r: Vec<u8> = vec!['s' as u8, 'h' as u8, 'u' as u8];
    proof {
        assert(r@ =~= kw_shu());
    }
    r
}

/// The bytes of `wei`.
pub open spec fn kw_wei() -> Seq<u8> {
    seq!['w' as u8, 'e' as u8, 'i' as u8]
}

/// The bytes of `wei`.
pub fn kw_wei_vec() -> (r: Vec<u8>)
    ensures
        r@ == kw_wei(),
{
    let r: Vec<u8> = vec!['w' as u8, 'e' as u8, 'i' as u8];
    proof {
        assert(r@ =~= kw_wei());
    }
    r
}

/// The bytes of `wu`.
pub open spec fn kw_wu() -> Seq<u8> {
    seq!['w' as u8, 'u' as u8]
}

/// The bytes of `wu`.
pub fn kw_wu_vec() -> (r: Vec<u8>)
    ensures
        r@ == kw_wu(),
{
    let r: Vec<u8> = vec!['w' as u8, 'u' as u8];
    proof {
        assert(r@ =~= kw_wu());
    }
    r
}

/// The lower-case name of a team.
pub open spec fn team_name(t: TeamId) -> Seq<u8> {
    match t {
        TeamId::Shu => kw_shu(),
        TeamId::Wei => kw_wei(),
        TeamId::Wu => kw_wu(),
    }
}

/// The team whose lower-case name is exactly `s`, if any.
pub open spec fn spec_team_of(s: Seq<u8>) -> Option<TeamId> {
    if s == kw_shu() {
        Some(TeamId::Shu)
    } else if s == kw_wei() {
        Some(TeamId::Wei)
    } else if s == kw_wu() {
        Some(TeamId::Wu)
    } else {
        None
    }
}

/// Parses an exact lower-case team name.
pub fn parse_team(s: &[u8]) -> (r: Option<TeamId>)
    ensures
        r == spec_team_of(s@),
{
    let shu = kw_shu_vec();
    if bytes_eq(s, shu.as_slice()) {
        return Some(TeamId::Shu);
    }
    let wei = kw_wei_vec();
    if bytes_eq(s, wei.as_slice()) {
        return Some(TeamId::Wei);
    }
    let wu = kw_wu_vec();
    if bytes_eq(s, wu.as_slice()) {
        return Some(TeamId::Wu);
    }
    None
}

/// Parses a team name ignoring ASCII case, as the team-choice step of a
/// conversation does.
pub fn parse_team_ci(s: &[u8]) -> (r: Option<TeamId>)
    ensures
        r == spec_team_of(lower_bytes(s@)),
{
    let low = to_ascii_lower(s);
    parse_team(low.as_slice())
}

/// The lower-case name of a team.
pub fn team_name_vec(t: TeamId) -> (r: Vec<u8>)
    ensures
        r@ == team_name(t),
{
    match t {
        TeamId::Shu => kw_shu_vec(),
        TeamId::Wei => kw_wei_vec(),
        TeamId::Wu => kw_wu_vec(),
    }
}

} // verus!
