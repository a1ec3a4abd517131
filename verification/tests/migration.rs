use af_postgres::postgres::migration::{
    advance_down_migration, missing_env_file_message, start_down_migration, up_migration_failure_message,
    up_migration_report_lines, DownAction, DownMigration, DownStep, AF_MIGRATION_HISTORY,
    DROP_MIGRATION_HISTORY_SQL,
};

fn drive(outcomes: &[bool]) -> (Vec<DownStep>, DownMigration) {
    let (mut state, mut action) = start_down_migration();
    let mut run = Vec::new();
    let mut i = 0;
    while let DownAction::Execute(step) = action {
        run.push(step);
        let (s, a) = advance_down_migration(state, outcomes[i]);
        state = s;
        action = a;
        i += 1;
    }
    (run, state)
}

#[test]
fn down_migration_runs_all_steps_in_order() {
    let (run, state) = drive(&[true, true, true, true]);
    assert_eq!(
        run,
        vec![
            DownStep::InitialDown,
            DownStep::RealtimeDown,
            DownStep::EncryptionDown,
            DownStep::DropMigrationHistory
        ]
    );
    assert_eq!(state, DownMigration::Succeeded);
}

#[test]
fn down_migration_stops_at_first_failure() {
    let (run, state) = drive(&[true, false, true, true]);
    assert_eq!(run, vec![DownStep::InitialDown, DownStep::RealtimeDown]);
    assert_eq!(state, DownMigration::Failed { step: DownStep::RealtimeDown });
    let (run, state) = drive(&[false, true, true, true]);
    assert_eq!(run, vec![DownStep::InitialDown]);
    assert_eq!(state, DownMigration::Failed { step: DownStep::InitialDown });
    let (run, state) = drive(&[true, true, true, false]);
    assert_eq!(run.len(), 4);
    assert_eq!(state, DownMigration::Failed { step: DownStep::DropMigrationHistory });
}

#[test]
fn down_step_scripts() {
    assert_eq!(DownStep::InitialDown.script_file(), Some("V1__initial.down.sql"));
    assert_eq!(DownStep::RealtimeDown.script_file(), Some("V2__realtime.down.sql"));
    assert_eq!(DownStep::EncryptionDown.script_file(), Some("V4__encryption.down.sql"));
    assert_eq!(DownStep::DropMigrationHistory.script_file(), None);
    assert_eq!(DROP_MIGRATION_HISTORY_SQL, "DROP TABLE IF EXISTS af_migration_history");
    assert_eq!(AF_MIGRATION_HISTORY, "af_migration_history");
}

#[test]
fn up_migration_report_with_nothing_applied() {
    let lines = up_migration_report_lines(&vec![]);
    assert_eq!(lines, vec!["✅ Run migration successfully".to_string()]);
}

#[test]
fn up_migration_report_lists_applied() {
    let names = vec!["V1__initial".to_string(), "V2__realtime".to_string()];
    let lines = up_migration_report_lines(&names);
    assert_eq!(
        lines,
        vec![
            "✅ Run 2 postgres db migration".to_string(),
            "✅ Applied migration: V1__initial".to_string(),
            "✅ Applied migration: V2__realtime".to_string(),
            "✅ Run migration successfully".to_string(),
        ]
    );
    let many: Vec<String> = (0..12).map(|i| format!("m{}", i)).collect();
    let lines = up_migration_report_lines(&many);
    assert_eq!(lines[0], "✅ Run 12 postgres db migration");
    assert_eq!(lines.len(), 14);
}

#[test]
fn migration_messages() {
    assert_eq!(
        up_migration_failure_message("db error"),
        "❌Run migration failed with error: db error"
    );
    assert_eq!(
        missing_env_file_message(".env.dev"),
        "Can't find the env file with given name: .env.dev"
    );
}
