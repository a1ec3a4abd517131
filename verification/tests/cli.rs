use af_postgres::postgres::cli::{
    is_production_env_file, plan_command, reset_confirmed, reset_prompt, CliAction, CliCommand,
};

#[test]
fn production_env_files() {
    assert!(is_production_env_file(".env.prod"));
    assert!(is_production_env_file(".prod"));
    assert!(!is_production_env_file("prod"));
    assert!(!is_production_env_file(".env.dev"));
    assert!(!is_production_env_file(".env.prod.bak"));
    assert!(is_production_env_file("ünïcode.prod"));
    assert!(!is_production_env_file(""));
}

#[test]
fn reset_of_production_is_refused() {
    for skip in [false, true] {
        let a = plan_command(CliCommand::DatabaseReset { env_file: ".env.prod".to_string(), skip_confirmation: skip });
        assert!(matches!(a, CliAction::RefuseProductionReset));
    }
}

#[test]
fn reset_of_other_environments() {
    match plan_command(CliCommand::DatabaseReset { env_file: ".env.dev".to_string(), skip_confirmation: false }) {
        CliAction::Reset { env_file, confirm_first } => {
            assert_eq!(env_file, ".env.dev");
            assert!(confirm_first);
        }
        _ => panic!("expected a reset"),
    }
    match plan_command(CliCommand::DatabaseReset { env_file: ".env.stage".to_string(), skip_confirmation: true }) {
        CliAction::Reset { env_file, confirm_first } => {
            assert_eq!(env_file, ".env.stage");
            assert!(!confirm_first);
        }
        _ => panic!("expected a reset"),
    }
}

#[test]
fn migration_run_and_nothing() {
    match plan_command(CliCommand::MigrationRun { env_file: ".env.prod".to_string() }) {
        CliAction::RunMigrations { env_file } => assert_eq!(env_file, ".env.prod"),
        _ => panic!("expected a migration run"),
    }
    assert!(matches!(plan_command(CliCommand::Nothing), CliAction::Nothing));
}

#[test]
fn reset_prompt_and_answers() {
    assert_eq!(reset_prompt(".env.dev"), "Are you sure to reset the database: .env.dev?");
    assert!(!reset_confirmed(0));
    assert!(reset_confirmed(1));
}
