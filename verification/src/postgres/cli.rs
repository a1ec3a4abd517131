//! What the command line asks of the tool, and what the tool does about it.

use vstd::prelude::*;
use vstd::string::StrSliceExecFns;

verus! {

/// Printed when a reset of a production database is refused.
pub const REFUSE_PRODUCTION_RESET: &'static str = "Can't reset the production database";

/// Printed when the user declines the reset.
pub const RESET_CANCELLED: &'static str = "Cancel";

/// A command given on the command line.
pub enum CliCommand {
    /// `database reset <env> [<second argument>]`; `skip_confirmation` is whether the second
    /// argument was given.
    DatabaseReset { env_file: String, skip_confirmation: bool },
    /// `migration run <env>`.
    MigrationRun { env_file: String },
    /// Anything else, which does nothing.
    Nothing,
}

/// What the tool does for a command.
pub enum CliAction {
    /// Print `REFUSE_PRODUCTION_RESET` and stop.
    RefuseProductionReset,
    /// Reset the database of `env_file`: run the down migration and then the
    /// up migrations, after asking the user first where `confirm_first`.
    Reset { env_file: String, confirm_first: bool },
    /// Run the up migrations on the database of `env_file`.
    RunMigrations { env_file: String },
    /// Nothing.
    Nothing,
}

/// Whether an environment file name names the production environment: it
/// ends in `.prod`.
pub open spec fn is_production_spec(name: Seq<char>) -> bool {
    name.len() >= 5 && name.subrange(name.len() - 5, name.len() as int) == seq![
        '.',
        'p',
        'r',
        'o',
        'd',
    ]
}

/// Whether `name` ends in `.prod`.
pub fn is_production_env_file(name: &str) -> (r: bool)
    ensures
        r == is_production_spec(name@),
{
    let n = name.unicode_len();
    if n < 5 {
        return false;
    }
    let r = name.get_char(n - 5) == '.' && name.get_char(n - 4) == 'p' && name.get_char(n - 3)
        == 'r' && name.get_char(n - 2) == 'o' && name.get_char(n - 1) == 'd';
    proof {
        let tail = name@.subrange(n - 5, n as int);
        if r {
            assert(tail =~= seq!['.', 'p', 'r', 'o', 'd']);
        } else {
            assert(tail[0] != '.' || tail[1] != 'p' || tail[2] != 'r' || tail[3] != 'o' || tail[4]
                != 'd');
        }
    }
    r
}

/// The action for `cmd`: a reset of a production environment is refused;
/// another reset is asked for first unless a second argument was given.
pub open spec fn action_for(cmd: CliCommand, action: CliAction) -> bool {
    match cmd {
        CliCommand::DatabaseReset { env_file, skip_confirmation } => if is_production_spec(env_file@) {
            action is RefuseProductionReset
        } else {
            action matches CliAction::Reset { env_file: e, confirm_first } && e@ == env_file@
                && confirm_first == !skip_confirmation
        },
        CliCommand::MigrationRun { env_file } => action matches CliAction::RunMigrations {
            env_file: e,
        } && e@ == env_file@,
        CliCommand::Nothing => action is Nothing,
    }
}

/// Decides what to do for a command.
pub fn plan_command(cmd: CliCommand) -> (r: CliAction)
    ensures
        action_for(cmd, r),
        reset_rule(cmd, r),
{
    match cmd {
        CliCommand::DatabaseReset { env_file, skip_confirmation } => {
            if is_production_env_file(env_file.as_str()) {
                CliAction::RefuseProductionReset
            } else {
                CliAction::Reset { env_file, confirm_first: !skip_confirmation }
            }
        },
        CliCommand::MigrationRun { env_file } => CliAction::RunMigrations { env_file },
        CliCommand::Nothing => CliAction::Nothing,
    }
}

/// How a reset command is answered: a production environment file is
/// refused, and only it; any other file is reset, the same file, after
/// asking the user exactly when no second argument was given, whatever the
/// file's name.
pub open spec fn reset_rule(cmd: CliCommand, action: CliAction) -> bool {
    cmd matches CliCommand::DatabaseReset { env_file, skip_confirmation } ==> {
        &&& is_production_spec(env_file@) <==> action is RefuseProductionReset
        &&& !is_production_spec(env_file@) ==> (action matches CliAction::Reset {
            env_file: e,
            confirm_first,
        } && e@ == env_file@ && confirm_first == !skip_confirmation)
    }
}

/// Every reset of a non-production environment asks the user first unless
/// a second argument was given, and resets the environment that was named;
/// only a production environment is refused.
pub proof fn law_reset_asks_unless_told_not_to(cmd: CliCommand, action: CliAction)
    requires
        action_for(cmd, action),
    ensures
        reset_rule(cmd, action),
{
}

/// Two reset commands of non-production environments with the same second
/// argument are asked about alike: whether the user is asked depends on
/// that argument alone, never on the file's name.
pub proof fn law_confirmation_ignores_file_name(
    cmd1: CliCommand,
    action1: CliAction,
    cmd2: CliCommand,
    action2: CliAction,
)
    requires
        action_for(cmd1, action1),
        action_for(cmd2, action2),
        cmd1 matches CliCommand::DatabaseReset { env_file, .. } && !is_production_spec(env_file@),
        cmd2 matches CliCommand::DatabaseReset { env_file, .. } && !is_production_spec(env_file@),
        cmd1->skip_confirmation == cmd2->skip_confirmation,
    ensures
        action1 is Reset && action2 is Reset,
        action1->confirm_first == action2->confirm_first,
{
}

/// The question put to the user before resetting the database of
/// `env_file`.
pub fn reset_prompt(env_file: &str) -> (r: String)
    ensures
        r@ == "Are you sure to reset the database: "@ + env_file@ + "?"@,
{
    String::from_str("Are you sure to reset the database: ").concat(env_file).concat("?")
}

/// Whether the answer picked from the choices "No" (0) and "Yes" (1)
/// confirms the reset.
pub fn reset_confirmed(selection: usize) -> (r: bool)
    requires
        selection < 2,
    ensures
        r == (selection == 1),
{
    selection == 1
}

/// The production database is never reset: for a reset command whose
/// environment file ends in `.prod`, whatever its second argument,
/// the only action that `plan_command` may return is the refusal.
pub proof fn law_production_database_is_never_reset(cmd: CliCommand, action: CliAction)
    requires
        cmd matches CliCommand::DatabaseReset { env_file, .. } && is_production_spec(env_file@),
        action_for(cmd, action),
    ensures
        action is RefuseProductionReset,
        !(action is Reset),
{
}

} // verus!
