//! The suit emoji index: a display-only structure parsed, best effort,
//! from the free-text mission decree.  A naipe header line sets the
//! current naipe; a bullet line binds the glyph it starts with to the
//! mission kind named in parentheses.
use vstd::prelude::*;
use crate::ledger::CounterKind;
use crate::text::digit_val;
use crate::text::find_from;
use crate::text::find_sub;
use crate::text::is_digit;
use crate::text::lines_of;
use crate::text::match_at;
use crate::text::run_len;
use crate::text::run_len_exec;
use crate::text::seq_views;
use crate::text::split_lines;
use crate::text::sub_bytes;

verus! {

/// The bytes of `Naipe `.
pub open spec fn kw_naipe_marker() -> Seq<u8> {
    seq!['N' as u8, 'a' as u8, 'i' as u8, 'p' as u8, 'e' as u8, ' ' as u8]
}

/// The bytes of `Naipe `.
pub fn kw_naipe_marker_vec() -> (r: Vec<u8>)
    ensures
        r@ == kw_naipe_marker(),
{
    let r: Vec<u8> = vec!['N' as u8, 'a' as u8, 'i' as u8, 'p' as u8, 'e' as u8, ' ' as u8];
    proof {
        assert(r@ =~= kw_naipe_marker());
    }
    r
}

/// The bytes of the bullet that opens a mission line, with its
/// trailing space.
pub open spec fn kw_bullet() -> Seq<u8> {
    seq![226u8, 151u8, 143u8, ' ' as u8]
}

/// The bytes of the bullet that opens a mission line.
pub fn kw_bullet_vec() -> (r: Vec<u8>)
    ensures
        r@ == kw_bullet(),
{
    let r: Vec<u8> = vec![226u8, 151u8, 143u8, ' ' as u8];
    proof {
        assert(r@ =~= kw_bullet());
    }
    r
}

/// The bytes of `(Pedra)`.
pub open spec fn kw_paren_pedra() -> Seq<u8> {
    seq!['(' as u8, 'P' as u8, 'e' as u8, 'd' as u8, 'r' as u8, 'a' as u8, ')' as u8]
}

/// The bytes of `(Pedra)`.
pub fn kw_paren_pedra_vec() -> (r: Vec<u8>)
    ensures
        r@ == kw_paren_pedra(),
{
    let r: Vec<u8> = vec!['(' as u8, 'P' as u8, 'e' as u8, 'd' as u8, 'r' as u8, 'a' as u8, ')' as u8];
    proof {
        assert(r@ =~= kw_paren_pedra());
    }
    r
}

/// The bytes of `(Papel)`.
pub open spec fn kw_paren_papel() -> Seq<u8> {
    seq!['(' as u8, 'P' as u8, 'a' as u8, 'p' as u8, 'e' as u8, 'l' as u8, ')' as u8]
}

/// The bytes of `(Papel)`.
pub fn kw_paren_papel_vec() -> (r: Vec<u8>)
    ensures
        r@ == kw_paren_papel(),
{
    let r: Vec<u8> = vec!['(' as u8, 'P' as u8, 'a' as u8, 'p' as u8, 'e' as u8, 'l' as u8, ')' as u8];
    proof {
        assert(r@ =~= kw_paren_papel());
    }
    r
}

/// The bytes of `(Tesoura)`.
pub open spec fn kw_paren_tesoura() -> Seq<u8> {
    seq![
        '(' as u8,
        'T' as u8,
        'e' as u8,
        's' as u8,
        'o' as u8,
        'u' as u8,
        'r' as u8,
        'a' as u8,
        ')' as u8,
    ]
}

/// The bytes of `(Tesoura)`.
pub fn kw_paren_tesoura_vec() -> (r: Vec<u8>)
    ensures
        r@ == kw_paren_tesoura(),
{
    let r: Vec<u8> = vec![
        '(' as u8,
        'T' as u8,
        'e' as u8,
        's' as u8,
        'o' as u8,
        'u' as u8,
        'r' as u8,
        'a' as u8,
        ')' as u8,
    ];
    proof {
        assert(r@ =~= kw_paren_tesoura());
    }
    r
}

/// The naipe number a header line announces: one or two digits right
/// after the first `Naipe ` marker.
pub open spec fn line_naipe_index(l: Seq<u8>) -> Option<usize> {
    match find_from(l, kw_naipe_marker(), 0) {
        Some(j) => {
            let p = j + kw_naipe_marker().len();
            if p < l.len() && is_digit(l[p]) {
                if p + 1 < l.len() && is_digit(l[p + 1]) {
                    Some((digit_val(l[p]) * 10 + digit_val(l[p + 1])) as usize)
                } else {
                    Some(digit_val(l[p]) as usize)
                }
            } else {
                None
            }
        },
        None => None,
    }
}

/// Reads the naipe number a header line announces, if any.
pub fn parse_naipe_header(l: &[u8]) -> (r: Option<usize>)
    ensures
        r == line_naipe_index(l@),
{
    let n = l.len();
    let marker = kw_naipe_marker_vec();
    match find_sub(l, marker.as_slice(), 0) {
        Some(j) => {
            proof {
                assert(j + marker@.len() <= n);
            }
            let p = j + marker.len();
            if p < l.len() && '0' as u8 <= l[p] && l[p] <= '9' as u8 {
                let d0 = (l[p] - '0' as u8) as usize;
                if p + 1 < l.len() && '0' as u8 <= l[p + 1] && l[p + 1] <= '9' as u8 {
                    let d1 = (l[p + 1] - '0' as u8) as usize;
                    Some(d0 * 10 + d1)
                } else {
                    Some(d0)
                }
            } else {
                None
            }
        },
        None => None,
    }
}

/// The position of an optional find, with `inf` standing for a miss.
pub open spec fn pos_of(o: Option<int>, inf: int) -> int {
    match o {
        Some(j) => j,
        None => inf,
    }
}

/// The kind named by the earliest `(Pedra)`, `(Papel)` or `(Tesoura)`
/// marker at or after `i`, as a lazy scan would find it.
pub open spec fn first_kind_from(l: Seq<u8>, i: int) -> Option<CounterKind> {
    let inf = l.len() + 1;
    let pp = pos_of(find_from(l, kw_paren_pedra(), i), inf as int);
    let pa = pos_of(find_from(l, kw_paren_papel(), i), inf as int);
    let pt = pos_of(find_from(l, kw_paren_tesoura(), i), inf as int);
    if pp == inf && pa == inf && pt == inf {
        None
    } else if pp <= pa && pp <= pt {
        Some(CounterKind::Rock)
    } else if pa <= pt {
        Some(CounterKind::Paper)
    } else {
        Some(CounterKind::Scissors)
    }
}

/// Whether the position `a` found comes no later than `b`, a miss
/// counting as latest of all.
fn opt_pos_le(a: &Option<usize>, b: &Option<usize>) -> (r: bool)
    ensures
        r == match (*a, *b) {
            (Option::Some(x), Option::Some(y)) => x <= y,
            (Option::Some(_), Option::None) => true,
            (Option::None, _) => *b is None,
        },
{
    match (a, b) {
        (Option::Some(x), Option::Some(y)) => *x <= *y,
        (Option::Some(_), Option::None) => true,
        (Option::None, Option::Some(_)) => false,
        (Option::None, Option::None) => true,
    }
}

/// Finds the earliest mission-kind marker at or after `from`.
fn find_first_kind(l: &[u8], from: usize) -> (r: Option<CounterKind>)
    requires
        from <= l@.len(),
    ensures
        r == first_kind_from(l@, from as int),
{
    let pedra = kw_paren_pedra_vec();
    let papel = kw_paren_papel_vec();
    let tesoura = kw_paren_tesoura_vec();
    let pp = find_sub(l, pedra.as_slice(), from);
    let pa = find_sub(l, papel.as_slice(), from);
    let pt = find_sub(l, tesoura.as_slice(), from);
    proof {
        let inf = l@.len() + 1;
        if pp is Some {
            assert(pos_of(find_from(l@, kw_paren_pedra(), from as int), inf as int) < inf);
        }
        if pa is Some {
            assert(pos_of(find_from(l@, kw_paren_papel(), from as int), inf as int) < inf);
        }
        if pt is Some {
            assert(pos_of(find_from(l@, kw_paren_tesoura(), from as int), inf as int) < inf);
        }
    }
    if pp.is_none() && pa.is_none() && pt.is_none() {
        return None;
    }
    if opt_pos_le(&pp, &pa) && opt_pos_le(&pp, &pt) {
        Some(CounterKind::Rock)
    } else if opt_pos_le(&pa, &pt) {
        Some(CounterKind::Paper)
    } else {
        Some(CounterKind::Scissors)
    }
}

/// What a bullet line contributes: the glyph token right after the
/// bullet, bound to the kind of the earliest mission-kind marker that
/// follows the glyph, its separating space and at least one more byte.
pub open spec fn line_bullet(l: Seq<u8>) -> Option<(CounterKind, Seq<u8>)> {
    match find_from(l, kw_bullet(), 0) {
        Some(j) => {
            let p = j + kw_bullet().len();
            let tl = run_len(l, p);
            if tl >= 1 && p + tl < l.len() && l[p + tl] == ' ' as u8 && p + tl + 2 <= l.len() {
                match first_kind_from(l, p + tl + 2) {
                    Some(k) => Some((k, l.subrange(p, p + tl))),
                    None => None,
                }
            } else {
                None
            }
        },
        None => None,
    }
}

/// Reads the glyph binding a bullet line contributes, if any.
pub fn parse_bullet_line(l: &[u8]) -> (r: Option<(CounterKind, Vec<u8>)>)
    ensures
        match r {
            Some((k, g)) => line_bullet(l@) == Some((k, g@)),
            None => line_bullet(l@) is None,
        },
{
    let n = l.len();
    let bullet = kw_bullet_vec();
    match find_sub(l, bullet.as_slice(), 0) {
        Some(j) => {
            proof {
                assert(j + bullet@.len() <= n);
            }
            let p = j + bullet.len();
            let tl = run_len_exec(l, p);
            proof {
                assert(p + tl <= n);
            }
            if tl >= 1 && p + tl < l.len() && l[p + tl] == ' ' as u8 && l.len() - (p + tl) >= 2 {
                match find_first_kind(l, p + tl + 2) {
                    Some(k) => {
                        let g = sub_bytes(l, p, p + tl);
                        Some((k, g))
                    },
                    None => None,
                }
            } else {
                None
            }
        },
        None => None,
    }
}

/// One binding of the emoji index: the glyph shown for one mission
/// kind of one naipe.
#[derive(Clone, Debug)]
pub struct EmojiEntry {
    pub index: usize,
    pub kind: CounterKind,
    pub glyph: Vec<u8>,
}

/// The mathematical image of an emoji-index binding.
pub struct EmojiEntryV {
    pub index: usize,
    pub kind: CounterKind,
    pub glyph: Seq<u8>,
}

impl View for EmojiEntry {
    type V = EmojiEntryV;

    open spec fn view(&self) -> EmojiEntryV {
        EmojiEntryV { index: self.index, kind: self.kind, glyph: self.glyph@ }
    }
}

/// The views of a sequence of emoji-index bindings.
pub open spec fn entry_views(s: Seq<EmojiEntry>) -> Seq<EmojiEntryV> {
    s.map_values(|e: EmojiEntry| e@)
}

proof fn lemma_entry_views_push(s: Seq<EmojiEntry>, e: EmojiEntry)
    ensures
        entry_views(s.push(e)) =~= entry_views(s).push(e@),
{
}

/// The bindings the decree's lines announce, scanned with a current
/// naipe: a header line moves the current naipe, a bullet line under a
/// current naipe appends a binding.
pub open spec fn decree_from(
    lines: Seq<Seq<u8>>,
    i: int,
    cur: Option<usize>,
    acc: Seq<EmojiEntryV>,
) -> Seq<EmojiEntryV>
    decreases lines.len() - i,
{
    if i < 0 || i >= lines.len() {
        acc
    } else {
        match line_naipe_index(lines[i]) {
            Some(idx) => decree_from(lines, i + 1, Some(idx), acc),
            None => match (cur, line_bullet(lines[i])) {
                (Some(ci), Some((k, g))) => decree_from(
                    lines,
                    i + 1,
                    cur,
                    acc.push(EmojiEntryV { index: ci, kind: k, glyph: g }),
                ),
                _ => decree_from(lines, i + 1, cur, acc),
            },
        }
    }
}

/// The emoji index of a decree text.
pub open spec fn spec_parse_decree(s: Seq<u8>) -> Seq<EmojiEntryV> {
    decree_from(lines_of(s), 0, None, Seq::empty())
}

/// Parses the emoji index out of the decree text.  A naipe section or
/// mission line that does not parse contributes nothing; rendering
/// falls back to default glyphs for bindings that are missing.
pub fn parse_decree(s: &[u8]) -> (r: Vec<EmojiEntry>)
    ensures
        entry_views(r@) == spec_parse_decree(s@),
{
    let lines = split_lines(s);
    let ghost lv = seq_views(lines@);
    let mut acc: Vec<EmojiEntry> = Vec::new();
    let mut cur: Option<usize> = None;
    let mut i: usize = 0;
    proof {
        assert(entry_views(acc@) =~= Seq::<EmojiEntryV>::empty());
        assert(spec_parse_decree(s@) == decree_from(lv, 0, cur, entry_views(acc@)));
    }
    while i < lines.len()
        invariant
            i <= lines@.len(),
            lv == seq_views(lines@),
            spec_parse_decree(s@) == decree_from(lv, i as int, cur, entry_views(acc@)),
        decreases lines@.len() - i,
    {
        proof {
            assert(lines@[i as int]@ == lv[i as int]);
        }
        let line = &lines[i];
        match parse_naipe_header(line.as_slice()) {
            Some(idx) => {
                cur = Some(idx);
            },
            None => {
                match parse_bullet_line(line.as_slice()) {
                    Some((k, g)) => {
                        match cur {
                            Some(ci) => {
                                let e = EmojiEntry { index: ci, kind: k, glyph: g };
                                proof {
                                    lemma_entry_views_push(acc@, e);
                                }
                                acc.push(e);
                            },
                            None => {},
                        }
                    },
                    None => {},
                }
            },
        }
        i = i + 1;
    }
    acc
}

/// The glyph the index binds for this naipe and kind: the last
/// binding wins, as later decree lines overwrite earlier ones.
pub open spec fn spec_glyph_for(
    entries: Seq<EmojiEntryV>,
    index: usize,
    kind: CounterKind,
) -> Option<Seq<u8>>
    decreases entries.len(),
{
    if entries.len() == 0 {
        None
    } else if entries.last().index == index && entries.last().kind == kind {
        Some(entries.last().glyph)
    } else {
        spec_glyph_for(entries.drop_last(), index, kind)
    }
}

/// Looks up the glyph bound for a naipe and kind, if any.
pub fn glyph_for(entries: &Vec<EmojiEntry>, index: usize, kind: CounterKind) -> (r: Option<
    Vec<u8>,
>)
    ensures
        match r {
            Some(g) => spec_glyph_for(entry_views(entries@), index, kind) == Some(g@),
            None => spec_glyph_for(entry_views(entries@), index, kind) is None,
        },
{
    let mut i: usize = entries.len();
    proof {
        assert(entry_views(entries@).subrange(0, entries@.len() as int) =~= entry_views(entries@));
    }
    while i > 0
        invariant
            i <= entries@.len(),
            spec_glyph_for(entry_views(entries@), index, kind) == spec_glyph_for(
                entry_views(entries@).subrange(0, i as int),
                index,
                kind,
            ),
        decreases i,
    {
        i = i - 1;
        proof {
            assert(entry_views(entries@).subrange(0, i + 1).drop_last() =~= entry_views(
                entries@,
            ).subrange(0, i as int));
            assert(entry_views(entries@).subrange(0, i + 1).last() == entries@[i as int]@);
        }
        let e = &entries[i];
        let same_kind = match (e.kind, kind) {
            (CounterKind::Rock, CounterKind::Rock) => true,
            (CounterKind::Paper, CounterKind::Paper) => true,
            (CounterKind::Scissors, CounterKind::Scissors) => true,
            _ => false,
        };
        if e.index == index && same_kind {
            return Some(crate::text::clone_bytes(&e.glyph));
        }
    }
    proof {
        assert(entry_views(entries@).subrange(0, 0) =~= Seq::<EmojiEntryV>::empty());
    }
    None
}

} // verus!
