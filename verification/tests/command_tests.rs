use mission_bot::commands::AdminCmd;
use mission_bot::commands::AdminOutcome;
use mission_bot::commands::UserCommand;
use mission_bot::commands::classify_command;
use mission_bot::commands::execute_admin;
use mission_bot::commands::parse_admin_command;
use mission_bot::ledger::CounterKind;
use mission_bot::ledger::TeamLedger;
use mission_bot::team::TeamId;

#[test]
fn classify_exact_keywords() {
    assert_eq!(classify_command(b"/start"), UserCommand::Start);
    assert_eq!(classify_command(b"/inscricao"), UserCommand::Register);
    assert_eq!(classify_command(b"/inscritos"), UserCommand::ListRegistrants);
    assert_eq!(classify_command(b"/entregarmissao"), UserCommand::SubmitMission);
    assert_eq!(classify_command(b"/missoes"), UserCommand::ListMissions);
    assert_eq!(classify_command(b"/shu"), UserCommand::TeamView(TeamId::Shu));
    assert_eq!(classify_command(b"/wei"), UserCommand::TeamView(TeamId::Wei));
    assert_eq!(classify_command(b"/wu"), UserCommand::TeamView(TeamId::Wu));
    assert_eq!(classify_command(b"/addsoldados shu 5"), UserCommand::AdminCandidate);
    assert_eq!(classify_command(b"/remove wei 3 pedra"), UserCommand::AdminCandidate);
    assert_eq!(classify_command(b"/Start"), UserCommand::Other);
    assert_eq!(classify_command(b"hello"), UserCommand::Other);
}

#[test]
fn parse_soldier_commands() {
    assert_eq!(
        parse_admin_command(b"/addsoldados shu 500"),
        AdminCmd::Soldiers { add: true, team: TeamId::Shu, amount: 500 }
    );
    assert_eq!(
        parse_admin_command(b"/removesoldados wei -3"),
        AdminCmd::Soldiers { add: false, team: TeamId::Wei, amount: -3 }
    );
    assert_eq!(
        parse_admin_command(b"/addsoldados   wu\t7"),
        AdminCmd::Soldiers { add: true, team: TeamId::Wu, amount: 7 }
    );
}

#[test]
fn parse_naipe_commands() {
    assert_eq!(
        parse_admin_command(b"/add shu 5 pedra"),
        AdminCmd::Naipe { add: true, team: TeamId::Shu, index: 5, kind: CounterKind::Rock }
    );
    assert_eq!(
        parse_admin_command(b"/remove wei 22 tesoura"),
        AdminCmd::Naipe { add: false, team: TeamId::Wei, index: 22, kind: CounterKind::Scissors }
    );
    assert_eq!(
        parse_admin_command(b"/add wu 07 papel"),
        AdminCmd::Naipe { add: true, team: TeamId::Wu, index: 7, kind: CounterKind::Paper }
    );
}

#[test]
fn soldier_amount_boundaries() {
    assert_eq!(
        parse_admin_command(b"/addsoldados shu 2147483647"),
        AdminCmd::Soldiers { add: true, team: TeamId::Shu, amount: 2147483647 }
    );
    assert_eq!(
        parse_admin_command(b"/addsoldados shu -2147483648"),
        AdminCmd::Soldiers { add: true, team: TeamId::Shu, amount: -2147483648 }
    );
    assert_eq!(parse_admin_command(b"/addsoldados shu 2147483648"), AdminCmd::Unrecognized);
    assert_eq!(parse_admin_command(b"/addsoldados shu -2147483649"), AdminCmd::Unrecognized);
    assert_eq!(
        parse_admin_command(b"/addsoldados shu -0"),
        AdminCmd::Soldiers { add: true, team: TeamId::Shu, amount: 0 }
    );
}

#[test]
fn malformed_admin_commands_are_not_recognized() {
    assert_eq!(parse_admin_command(b""), AdminCmd::Unrecognized);
    assert_eq!(parse_admin_command(b" /add shu 5 pedra"), AdminCmd::Unrecognized);
    assert_eq!(parse_admin_command(b"/add shu 5 pedra "), AdminCmd::Unrecognized);
    assert_eq!(parse_admin_command(b"/add shu 123 pedra"), AdminCmd::Unrecognized);
    assert_eq!(parse_admin_command(b"/add han 5 pedra"), AdminCmd::Unrecognized);
    assert_eq!(parse_admin_command(b"/add shu 5 lanca"), AdminCmd::Unrecognized);
    assert_eq!(parse_admin_command(b"/addsoldados shu"), AdminCmd::Unrecognized);
    assert_eq!(parse_admin_command(b"/addsoldados shu 5 5"), AdminCmd::Unrecognized);
    assert_eq!(parse_admin_command(b"/addsoldados shu five"), AdminCmd::Unrecognized);
    assert_eq!(parse_admin_command(b"/addsoldados shu 99999999999"), AdminCmd::Unrecognized);
    assert_eq!(parse_admin_command(b"/ADD shu 5 pedra"), AdminCmd::Unrecognized);
}

#[test]
fn soldiers_add_updates_total_and_reports_it() {
    let mut l = TeamLedger::new();
    let cmd = parse_admin_command(b"/addsoldados shu 500");
    let o = execute_admin(&cmd, &mut l);
    assert_eq!(o, AdminOutcome::SoldiersChanged { team: TeamId::Shu, total: 10500 });
    assert_eq!(l.soldiers, 10500);
}

#[test]
fn soldiers_remove_can_go_negative() {
    let mut l = TeamLedger::new();
    let cmd = parse_admin_command(b"/removesoldados wu 10500");
    let o = execute_admin(&cmd, &mut l);
    assert_eq!(o, AdminOutcome::SoldiersChanged { team: TeamId::Wu, total: -500 });
    assert_eq!(l.soldiers, -500);
}

#[test]
fn remove_on_zero_counter_stays_zero_and_still_succeeds() {
    let mut l = TeamLedger::new();
    assert_eq!(l.naipes[4].rock, 0);
    let cmd = parse_admin_command(b"/remove wei 5 pedra");
    let o = execute_admin(&cmd, &mut l);
    assert_eq!(
        o,
        AdminOutcome::CounterChanged { team: TeamId::Wei, index: 5, kind: CounterKind::Rock }
    );
    assert_eq!(l.naipes[4].rock, 0);
}

#[test]
fn naipe_index_outside_range_is_a_validation_error() {
    let mut l = TeamLedger::new();
    let cmd = parse_admin_command(b"/add shu 23 papel");
    let o = execute_admin(&cmd, &mut l);
    assert_eq!(o, AdminOutcome::InvalidIndex);
    for n in &l.naipes {
        assert_eq!(n.paper, 0);
    }
    let zero = parse_admin_command(b"/add shu 0 papel");
    assert_eq!(execute_admin(&zero, &mut l), AdminOutcome::InvalidIndex);
}

#[test]
fn unrecognized_command_changes_nothing() {
    let mut l = TeamLedger::new();
    let cmd = parse_admin_command(b"/add whatever");
    assert_eq!(cmd, AdminCmd::Unrecognized);
    let o = execute_admin(&cmd, &mut l);
    assert_eq!(o, AdminOutcome::Unrecognized);
    assert_eq!(l.soldiers, 10000);
}

#[test]
fn soldiers_overflow_outcome() {
    let mut l = TeamLedger::new();
    l.soldiers = i64::MAX - 100;
    let cmd = parse_admin_command(b"/addsoldados shu 200");
    let o = execute_admin(&cmd, &mut l);
    assert_eq!(o, AdminOutcome::SoldiersOverflow);
    assert_eq!(l.soldiers, i64::MAX - 100);
}
