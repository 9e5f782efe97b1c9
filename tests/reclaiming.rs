use temp_cleaner::{maintenance_plan, summarize, tally, MaintenanceAction, Platform};

#[test]
fn all_actions_succeed() {
    let r = summarize(1000, 900, &vec![true, true, true], true);
    assert_eq!(r.operations_attempted, 3);
    assert_eq!(r.operations_succeeded, 3);
    assert!(r.success);
    assert_eq!(r.freed, 100);
    assert_eq!(r.message, "Memória otimizada com sucesso");
    assert!(r.is_admin);
}

#[test]
fn partial_success_message() {
    let r = summarize(500, 500, &vec![true, false, true], true);
    assert_eq!(r.operations_succeeded, 2);
    assert!(r.success);
    assert_eq!(r.freed, 0);
    assert_eq!(r.message, "Otimização parcial: 2 de 3 operações concluídas");
}

#[test]
fn partial_success_with_many_actions() {
    let mut outcomes = vec![false; 12];
    outcomes[3] = true;
    let r = summarize(0, 0, &outcomes, true);
    assert_eq!(r.message, "Otimização parcial: 1 de 12 operações concluídas");
}

#[test]
fn no_action_succeeds() {
    let r = summarize(10, 20, &vec![false, false], true);
    assert!(!r.success);
    assert_eq!(r.operations_succeeded, 0);
    assert_eq!(r.freed, 0);
    assert_eq!(r.before_used, 10);
    assert_eq!(r.after_used, 20);
    assert_eq!(r.message, "Não foi possível otimizar a memória");
}

#[test]
fn without_elevation_message() {
    let r = summarize(10, 5, &vec![true], false);
    assert!(!r.is_admin);
    assert_eq!(r.freed, 5);
    assert_eq!(
        r.message,
        "Otimização básica executada - execute como administrador para melhores resultados"
    );
}

#[test]
fn tally_counts() {
    assert_eq!(tally(&vec![]), (0, 0));
    assert_eq!(tally(&vec![true, false, true, true]), (4, 3));
}

#[test]
fn windows_plan() {
    let p = maintenance_plan(Platform::Windows);
    assert_eq!(p.settle_millis, 500);
    assert_eq!(p.actions.len(), 3);
    match &p.actions[0] {
        MaintenanceAction::Command { program, args } => {
            assert_eq!(program, "ipconfig");
            assert_eq!(args, &vec!["/flushdns".to_string()]);
        }
        MaintenanceAction::BasicCleanup => panic!("expected a command"),
    }
    match &p.actions[1] {
        MaintenanceAction::Command { program, args } => {
            assert_eq!(program, "powershell");
            assert_eq!(args[2], "Set-Clipboard -Value $null");
        }
        MaintenanceAction::BasicCleanup => panic!("expected a command"),
    }
}

#[test]
fn other_platform_plan() {
    let p = maintenance_plan(Platform::Other);
    assert_eq!(p.settle_millis, 200);
    assert_eq!(p.actions.len(), 1);
    assert!(matches!(p.actions[0], MaintenanceAction::BasicCleanup));
    let r = summarize(100, 100, &vec![true], false);
    assert_eq!(r.operations_attempted, r.operations_succeeded);
}
