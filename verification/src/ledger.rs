//! The per-team ledger: a soldier total that may go negative and 22
//! naipe counter triples that are clamped at zero.
use vstd::prelude::*;

verus! {

/// Number of naipe counter triples a team ledger owns.
pub const NAIPE_COUNT: usize = 22;

/// Soldier total of a freshly created ledger.
pub const INITIAL_SOLDIERS: i64 = 10000;

/// The rock / paper / scissors counters of one naipe.
#[derive(Clone, Copy, PartialEq, Eq, Structural, Debug)]
pub struct NaipeCounters {
    pub rock: u64,
    pub paper: u64,
    pub scissors: u64,
}

/// Selects one counter of a naipe triple.
#[derive(Clone, Copy, PartialEq, Eq, Structural, Debug)]
pub enum CounterKind {
    Rock,
    Paper,
    Scissors,
}

/// The value of the `kind` counter of a triple.
pub open spec fn counter_of(n: NaipeCounters, kind: CounterKind) -> u64 {
    match kind {
        CounterKind::Rock => n.rock,
        CounterKind::Paper => n.paper,
        CounterKind::Scissors => n.scissors,
    }
}

/// A counter after one admin command: an increment saturates at the
/// machine maximum, a decrement is clamped at zero.
pub open spec fn bump(c: u64, add: bool) -> u64 {
    if add {
        if c == u64::MAX {
            c
        } else {
            (c + 1) as u64
        }
    } else {
        if c == 0 {
            0
        } else {
            (c - 1) as u64
        }
    }
}

/// The signed change a soldier command asks for.
pub open spec fn soldier_delta(amount: i64, add: bool) -> int {
    if add {
        amount as int
    } else {
        -(amount as int)
    }
}

/// The counters a team owns: its soldier total and its naipe triples.
#[derive(Clone, Debug)]
pub struct TeamLedger {
    pub soldiers: i64,
    pub naipes: Vec<NaipeCounters>,
}

impl TeamLedger {
    /// A ledger owns exactly `NAIPE_COUNT` naipe counter triples.
    pub open spec fn wf(self) -> bool {
        self.naipes@.len() == NAIPE_COUNT
    }

    /// A fresh ledger: the initial soldier total and all counters zero.
    pub fn new() -> (l: TeamLedger)
        ensures
            l.wf(),
            l.soldiers == INITIAL_SOLDIERS,
            forall|i: int|
                0 <= i < NAIPE_COUNT ==> l.naipes@[i] == (NaipeCounters {
                    rock: 0,
                    paper: 0,
                    scissors: 0,
                }),
    {
        let mut naipes: Vec<NaipeCounters> = Vec::new();
        let mut i: usize = 0;
        while i < NAIPE_COUNT
            invariant
                i <= NAIPE_COUNT,
                naipes@.len() == i,
                forall|j: int|
                    0 <= j < i ==> naipes@[j] == (NaipeCounters { rock: 0, paper: 0, scissors: 0 }),
            decreases NAIPE_COUNT - i,
        {
            naipes.push(NaipeCounters { rock: 0, paper: 0, scissors: 0 });
            i = i + 1;
        }
        TeamLedger { soldiers: INITIAL_SOLDIERS, naipes }
    }

    /// Applies one soldier command: `add` adds `amount` to the total,
    /// otherwise `amount` is subtracted, and the total is free to go
    /// negative.  Fails, leaving the ledger unchanged, exactly when the
    /// new total leaves the machine range.
    pub fn apply_soldiers(&mut self, amount: i64, add: bool) -> (ok: bool)
        ensures
            ok <==> i64::MIN <= old(self).soldiers + soldier_delta(amount, add) <= i64::MAX,
            ok ==> final(self).soldiers == old(self).soldiers + soldier_delta(amount, add),
            !ok ==> final(self).soldiers == old(self).soldiers,
            final(self).naipes == old(self).naipes,
    {
        let r = if add {
            self.soldiers.checked_add(amount)
        } else {
            self.soldiers.checked_sub(amount)
        };
        match r {
            Some(v) => {
                self.soldiers = v;
                true
            },
            None => false,
        }
    }

    /// Applies one admin command to the `kind` counter of naipe
    /// `index` (numbered from 1).  Fails, leaving the ledger unchanged,
    /// exactly when the index is out of the 1..=22 range; a decrement
    /// of a zero counter succeeds and leaves it at zero.
    pub fn apply_naipe(&mut self, index: usize, kind: CounterKind, add: bool) -> (ok: bool)
        requires
            old(self).wf(),
        ensures
            final(self).wf(),
            ok <==> 1 <= index <= NAIPE_COUNT,
            final(self).soldiers == old(self).soldiers,
            !ok ==> final(self).naipes == old(self).naipes,
            ok ==> forall|j: int|
                0 <= j < NAIPE_COUNT && j != index - 1 ==> final(self).naipes@[j] == old(
                    self,
                ).naipes@[j],
            ok ==> counter_of(final(self).naipes@[index - 1], kind) == bump(
                counter_of(old(self).naipes@[index - 1], kind),
                add,
            ),
            ok && kind != CounterKind::Rock ==> final(self).naipes@[index - 1].rock == old(
                self,
            ).naipes@[index - 1].rock,
            ok && kind != CounterKind::Paper ==> final(self).naipes@[index - 1].paper == old(
                self,
            ).naipes@[index - 1].paper,
            ok && kind != CounterKind::Scissors ==> final(self).naipes@[index - 1].scissors == old(
                self,
            ).naipes@[index - 1].scissors,
    {
        if index < 1 || index > NAIPE_COUNT {
            return false;
        }
        let i = index - 1;
        let mut n = self.naipes[i];
        match kind {
            CounterKind::Rock => {
                n.rock = if add {
                    if n.rock == u64::MAX {
                        n.rock
                    } else {
                        n.rock + 1
                    }
                } else {
                    if n.rock == 0 {
                        0
                    } else {
                        n.rock - 1
                    }
                };
            },
            CounterKind::Paper => {
                n.paper = if add {
                    if n.paper == u64::MAX {
                        n.paper
                    } else {
                        n.paper + 1
                    }
                } else {
                    if n.paper == 0 {
                        0
                    } else {
                        n.paper - 1
                    }
                };
            },
            CounterKind::Scissors => {
                n.scissors = if add {
                    if n.scissors == u64::MAX {
                        n.scissors
                    } else {
                        n.scissors + 1
                    }
                } else {
                    if n.scissors == 0 {
                        0
                    } else {
                        n.scissors - 1
                    }
                };
            },
        }
        self.naipes[i] = n;
        true
    }
}

/// A counter after a whole sequence of admin commands, applied oldest
/// first (`true` is an increment, `false` a decrement).
pub open spec fn bump_all(c: u64, ops: Seq<bool>) -> u64
    decreases ops.len(),
{
    if ops.len() == 0 {
        c
    } else {
        bump(bump_all(c, ops.drop_last()), ops.last())
    }
}

/// For all sequences of add / remove naipe-counter commands, no counter
/// value is ever observed negative: a counter is a natural number, and
/// `bump` clamps a decrement of a zero counter at zero.
pub proof fn lemma_counter_never_negative(c: u64, ops: Seq<bool>)
    ensures
        bump_all(c, ops) >= 0,
        c == 0 && ops =~= seq![false] ==> bump_all(c, ops) == 0,
{
    if ops.len() == 1 {
        assert(bump_all(c, ops) == bump(bump_all(c, ops.drop_last()), ops.last()));
        assert(bump_all(c, ops.drop_last()) == c);
    }
}

/// The sum of a sequence of signed deltas.
pub open spec fn sum_deltas(ds: Seq<int>) -> int
    decreases ds.len(),
{
    if ds.len() == 0 {
        0
    } else {
        sum_deltas(ds.drop_last()) + ds.last()
    }
}

/// The soldier total after a sequence of signed deltas, applied oldest
/// first.
pub open spec fn soldiers_after(init: int, ds: Seq<int>) -> int
    decreases ds.len(),
{
    if ds.len() == 0 {
        init
    } else {
        soldiers_after(init, ds.drop_last()) + ds.last()
    }
}

/// For all sequences of add / remove soldier commands, the final
/// soldier total equals the initial value plus the sum of the signed
/// deltas applied, negative totals included.
pub proof fn lemma_soldiers_net_change(init: int, ds: Seq<int>)
    ensures
        soldiers_after(init, ds) == init + sum_deltas(ds),
    decreases ds.len(),
{
    if ds.len() > 0 {
        lemma_soldiers_net_change(init, ds.drop_last());
    }
}

} // verus!
