use mission_bot::ledger::CounterKind;
use mission_bot::ledger::NaipeCounters;
use mission_bot::ledger::TeamLedger;

#[test]
fn fresh_ledger_has_initial_soldiers_and_zero_counters() {
    let l = TeamLedger::new();
    assert_eq!(l.soldiers, 10000);
    assert_eq!(l.naipes.len(), 22);
    for n in &l.naipes {
        assert_eq!(n.rock, 0);
        assert_eq!(n.paper, 0);
        assert_eq!(n.scissors, 0);
    }
}

#[test]
fn soldiers_sum_of_signed_deltas() {
    let mut l = TeamLedger::new();
    assert!(l.apply_soldiers(500, true));
    assert_eq!(l.soldiers, 10500);
    assert!(l.apply_soldiers(11000, false));
    assert_eq!(l.soldiers, -500);
    assert!(l.apply_soldiers(-250, true));
    assert_eq!(l.soldiers, -750);
    assert!(l.apply_soldiers(-1000, false));
    assert_eq!(l.soldiers, 250);
}

#[test]
fn soldiers_overflow_is_refused_and_ledger_kept() {
    let mut l = TeamLedger::new();
    l.soldiers = i64::MAX;
    assert!(!l.apply_soldiers(1, true));
    assert_eq!(l.soldiers, i64::MAX);
    l.soldiers = i64::MIN;
    assert!(!l.apply_soldiers(1, false));
    assert_eq!(l.soldiers, i64::MIN);
}

#[test]
fn naipe_decrement_clamps_at_zero() {
    let mut l = TeamLedger::new();
    assert!(l.apply_naipe(5, CounterKind::Rock, false));
    assert_eq!(l.naipes[4].rock, 0);
    assert!(l.apply_naipe(5, CounterKind::Rock, true));
    assert_eq!(l.naipes[4].rock, 1);
    assert!(l.apply_naipe(5, CounterKind::Rock, false));
    assert_eq!(l.naipes[4].rock, 0);
}

#[test]
fn naipe_increment_touches_only_the_selected_counter() {
    let mut l = TeamLedger::new();
    assert!(l.apply_naipe(3, CounterKind::Paper, true));
    assert_eq!(l.naipes[2].paper, 1);
    assert_eq!(l.naipes[2].rock, 0);
    assert_eq!(l.naipes[2].scissors, 0);
    for (i, n) in l.naipes.iter().enumerate() {
        if i != 2 {
            assert_eq!(*n, NaipeCounters { rock: 0, paper: 0, scissors: 0 });
        }
    }
    assert_eq!(l.soldiers, 10000);
}

#[test]
fn naipe_index_out_of_range_changes_nothing() {
    let mut l = TeamLedger::new();
    assert!(!l.apply_naipe(0, CounterKind::Rock, true));
    assert!(!l.apply_naipe(23, CounterKind::Rock, true));
    for n in &l.naipes {
        assert_eq!(n.rock, 0);
    }
}

#[test]
fn naipe_increment_saturates_at_max() {
    let mut l = TeamLedger::new();
    l.naipes[0].scissors = u64::MAX;
    assert!(l.apply_naipe(1, CounterKind::Scissors, true));
    assert_eq!(l.naipes[0].scissors, u64::MAX);
}
