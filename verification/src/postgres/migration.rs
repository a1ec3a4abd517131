//! Migrations: the table that records them, the report of a run of the up
//! migrations, and the order in which the down migration drops the schema.

use vstd::prelude::*;
use crate::text::{decimal, push_decimal};

verus! {

/// The table in which applied migrations are recorded.
pub const AF_MIGRATION_HISTORY: &'static str = "af_migration_history";

/// Drops the table of applied migrations, the last step of a down migration.
pub const DROP_MIGRATION_HISTORY_SQL: &'static str = "DROP TABLE IF EXISTS af_migration_history";

/// The lines that a successful run of the up migrations reports, given the
/// names of the migrations that it applied, in order: when there are any,
/// their number and then each name; last, the success line.
pub open spec fn up_migration_report(applied: Seq<Seq<char>>) -> Seq<Seq<char>> {
    let listed = if applied.len() == 0 {
        Seq::<Seq<char>>::empty()
    } else {
        seq!["✅ Run "@ + decimal(applied.len()) + " postgres db migration"@] + applied.map_values(
            |name: Seq<char>| "✅ Applied migration: "@ + name,
        )
    };
    listed.push("✅ Run migration successfully"@)
}

/// What a report says of the applied migrations `applied`: when none was
/// applied, only the success line; otherwise `applied.len() + 2` lines, the
/// first giving their number, then one line per migration naming it, in
/// order, and last the success line.
pub open spec fn report_describes(applied: Seq<Seq<char>>, lines: Seq<Seq<char>>) -> bool {
    &&& applied.len() == 0 ==> lines == seq!["✅ Run migration successfully"@]
    &&& applied.len() > 0 ==> {
        &&& lines.len() == applied.len() + 2
        &&& lines[0] == "✅ Run "@ + decimal(applied.len()) + " postgres db migration"@
        &&& forall|i: int| 0 <= i < applied.len() ==> #[trigger] lines[i + 1]
            == "✅ Applied migration: "@ + applied[i]
        &&& lines[lines.len() - 1] == "✅ Run migration successfully"@
    }
}

/// Every applied migration is reported, by name and in order, after a line
/// with their number; a run that applied none reports the success line
/// alone.
pub proof fn law_report_lists_every_applied_migration(applied: Seq<Seq<char>>)
    ensures
        report_describes(applied, up_migration_report(applied)),
{
    let lines = up_migration_report(applied);
    if applied.len() > 0 {
        let f = |name: Seq<char>| "✅ Applied migration: "@ + name;
        assert forall|i: int| 0 <= i < applied.len() implies #[trigger] lines[i + 1]
            == "✅ Applied migration: "@ + applied[i] by {
            assert(lines[i + 1] == applied.map_values(f)[i]);
        }
    } else {
        assert(lines =~= seq!["✅ Run migration successfully"@]);
    }
}

/// The lines to print after the up migrations applied the migrations named
/// `applied`, in order.
pub fn up_migration_report_lines(applied: &Vec<String>) -> (lines: Vec<String>)
    ensures
        lines.deep_view() == up_migration_report(applied.deep_view()),
        report_describes(applied.deep_view(), lines.deep_view()),
{
    proof {
        law_report_lists_every_applied_migration(applied.deep_view());
    }
    let ghost names = applied.deep_view();
    let mut lines: Vec<String> = Vec::new();
    let n = applied.len();
    if n > 0 {
        let mut first = String::from_str("✅ Run ");
        push_decimal(&mut first, n);
        let first = first.concat(" postgres db migration");
        lines.push(first);
        let mut i: usize = 0;
        while i < n
            invariant
                n == applied@.len(),
                names == applied.deep_view(),
                0 <= i <= n,
                lines.deep_view() =~= seq!["✅ Run "@ + decimal(n as nat) + " postgres db migration"@]
                    + names.subrange(0, i as int).map_values(
                    |name: Seq<char>| "✅ Applied migration: "@ + name,
                ),
            decreases n - i,
        {
            let line = String::from_str("✅ Applied migration: ").concat(applied[i].as_str());
            let ghost prev = lines.deep_view();
            let ghost line_view = line@;
            lines.push(line);
            proof {
                assert(lines.deep_view() =~= prev.push(line_view));
                assert(names.subrange(0, i + 1) =~= names.subrange(0, i as int).push(names[i as int]));
                assert(names.subrange(0, i + 1).map_values(
                    |name: Seq<char>| "✅ Applied migration: "@ + name,
                ) =~= names.subrange(0, i as int).map_values(
                    |name: Seq<char>| "✅ Applied migration: "@ + name,
                ).push("✅ Applied migration: "@ + names[i as int]));
            }
            i = i + 1;
        }
        proof {
            assert(names.subrange(0, n as int) =~= names);
        }
    }
    let ghost prev = lines.deep_view();
    lines.push(String::from_str("✅ Run migration successfully"));
    proof {
        assert(lines.deep_view() =~= prev.push("✅ Run migration successfully"@));
        assert(lines.deep_view() =~= up_migration_report(names));
    }
    lines
}

/// The text of the error with which a failed run of the up migrations ends.
pub fn up_migration_failure_message(error: &str) -> (r: String)
    ensures
        r@ == "❌Run migration failed with error: "@ + error@,
{
    String::from_str("❌Run migration failed with error: ").concat(error)
}

/// The text of the error when the environment file `env_file_name` cannot
/// be loaded.
pub fn missing_env_file_message(env_file_name: &str) -> (r: String)
    ensures
        r@ == "Can't find the env file with given name: "@ + env_file_name@,
{
    String::from_str("Can't find the env file with given name: ").concat(env_file_name)
}

/// One step of the down migration.
#[derive(Clone, Copy, Debug, PartialEq, Eq, Structural)]
pub enum DownStep {
    /// Runs `V1__initial.down.sql`.
    InitialDown,
    /// Runs `V2__realtime.down.sql`.
    RealtimeDown,
    /// Runs `V4__encryption.down.sql`.
    EncryptionDown,
    /// Runs `DROP_MIGRATION_HISTORY_SQL`.
    DropMigrationHistory,
}

/// The steps of the down migration, in the order in which they run.
pub open spec fn down_plan() -> Seq<DownStep> {
    seq![
        DownStep::InitialDown,
        DownStep::RealtimeDown,
        DownStep::EncryptionDown,
        DownStep::DropMigrationHistory,
    ]
}

impl DownStep {
    /// The file, in the migrations directory, whose SQL the step runs;
    /// `None` for the step that runs `DROP_MIGRATION_HISTORY_SQL`.
    pub fn script_file(&self) -> (r: Option<&'static str>)
        ensures
            r is None <==> *self == DownStep::DropMigrationHistory,
            *self == DownStep::InitialDown ==> r == Some("V1__initial.down.sql"),
            *self == DownStep::RealtimeDown ==> r == Some("V2__realtime.down.sql"),
            *self == DownStep::EncryptionDown ==> r == Some("V4__encryption.down.sql"),
    {
        match self {
            DownStep::InitialDown => Some("V1__initial.down.sql"),
            DownStep::RealtimeDown => Some("V2__realtime.down.sql"),
            DownStep::EncryptionDown => Some("V4__encryption.down.sql"),
            DownStep::DropMigrationHistory => None,
        }
    }
}

/// Where a down migration stands.
#[derive(Clone, Copy, Debug, PartialEq, Eq, Structural)]
pub enum DownMigration {
    /// The first `completed` steps of the plan have succeeded and the next
    /// one is under way.
    Running { completed: u8 },
    /// Every step succeeded.
    Succeeded,
    /// `step` failed; no step after it ran.
    Failed { step: DownStep },
}

/// What the caller is to do next.
#[derive(Clone, Copy, Debug, PartialEq, Eq, Structural)]
pub enum DownAction {
    /// Run this step and report whether it succeeded.
    Execute(DownStep),
    /// The migration is over.
    Stop,
}

/// The state and action after the step under way in `state` ended with
/// `succeeded`.
pub open spec fn down_transition(state: DownMigration, succeeded: bool) -> (DownMigration, DownAction)
    recommends
        state matches DownMigration::Running { completed } && completed < 4,
{
    match state {
        DownMigration::Running { completed } => if !succeeded {
            (DownMigration::Failed { step: down_plan()[completed as int] }, DownAction::Stop)
        } else if completed + 1 == 4 {
            (DownMigration::Succeeded, DownAction::Stop)
        } else {
            (
                DownMigration::Running { completed: (completed + 1) as u8 },
                DownAction::Execute(down_plan()[completed + 1]),
            )
        },
        _ => (state, DownAction::Stop),
    }
}

fn down_step_at(i: u8) -> (s: DownStep)
    requires
        i < 4,
    ensures
        s == down_plan()[i as int],
{
    if i == 0 {
        DownStep::InitialDown
    } else if i == 1 {
        DownStep::RealtimeDown
    } else if i == 2 {
        DownStep::EncryptionDown
    } else {
        DownStep::DropMigrationHistory
    }
}

/// Begins a down migration: nothing has run and the first step is to run.
pub fn start_down_migration() -> (r: (DownMigration, DownAction))
    ensures
        r == (DownMigration::Running { completed: 0 }, DownAction::Execute(down_plan()[0])),
{
    (DownMigration::Running { completed: 0 }, DownAction::Execute(DownStep::InitialDown))
}

/// Takes the outcome of the step under way: after a failure the migration
/// stops; after a success the next step of the plan is to run, or, after
/// the last one, the migration has succeeded.
pub fn advance_down_migration(state: DownMigration, succeeded: bool) -> (r: (DownMigration, DownAction))
    requires
        state matches DownMigration::Running { completed } && completed < 4,
    ensures
        r == down_transition(state, succeeded),
{
    match state {
        DownMigration::Running { completed } => {
            if !succeeded {
                (DownMigration::Failed { step: down_step_at(completed) }, DownAction::Stop)
            } else if completed + 1 == 4 {
                (DownMigration::Succeeded, DownAction::Stop)
            } else {
                let next = completed + 1;
                (DownMigration::Running { completed: next }, DownAction::Execute(down_step_at(next)))
            }
        },
        _ => (state, DownAction::Stop),
    }
}

/// The steps run, and the final state, when the machine is driven from
/// `state` and `action` with the outcomes `outcomes`, one per step run.
pub open spec fn drive_down(state: DownMigration, action: DownAction, outcomes: Seq<bool>) -> (
    Seq<DownStep>,
    DownMigration,
)
    decreases outcomes.len(),
{
    match action {
        DownAction::Stop => (Seq::empty(), state),
        DownAction::Execute(step) => if outcomes.len() == 0 {
            (Seq::empty(), state)
        } else {
            let (next_state, next_action) = down_transition(state, outcomes[0]);
            let (rest, last) = drive_down(next_state, next_action, outcomes.drop_first());
            (seq![step] + rest, last)
        },
    }
}

/// A down migration runs the steps of the plan in order, each at most once,
/// and stops at the first step that fails: given an outcome for every step,
/// the steps run are a non-empty prefix of the plan, every step before the
/// last one run succeeded, and the migration ends `Succeeded` after running
/// the whole plan, or `Failed` at the last step run, which failed.
pub proof fn law_down_migration_runs_plan_prefix(outcomes: Seq<bool>)
    requires
        outcomes.len() >= 4,
    ensures
        ({
            let (start_state, start_action) = (
                DownMigration::Running { completed: 0 },
                DownAction::Execute(down_plan()[0]),
            );
            let (run, last) = drive_down(start_state, start_action, outcomes);
            &&& 1 <= run.len() <= 4
            &&& run =~= down_plan().take(run.len() as int)
            &&& forall|j: int| 0 <= j < run.len() - 1 ==> outcomes[j]
            &&& (last == DownMigration::Succeeded <==> (outcomes[0] && outcomes[1] && outcomes[2]
                && outcomes[3]))
            &&& last == DownMigration::Succeeded ==> run == down_plan()
            &&& last != DownMigration::Succeeded ==> last == DownMigration::Failed {
                step: run.last(),
            } && !outcomes[run.len() - 1]
        }),
{
    reveal_with_fuel(drive_down, 5);
    let o1 = outcomes.drop_first();
    let o2 = o1.drop_first();
    let o3 = o2.drop_first();
    let o4 = o3.drop_first();
    assert(o1[0] == outcomes[1]);
    assert(o2[0] == outcomes[2]);
    assert(o3[0] == outcomes[3]);
}

} // verus!
