use vstd::prelude::*;

verus! {

/// What registering an entity type must do, given the recorded version `v`
/// found in the schema descriptor registry and the `total` number of steps
/// compiled into the running program:
/// refuse to continue (`TooNew`, the store was written by a newer build),
/// do nothing (`UpToDate`), or apply exactly the missing steps, in order
/// (`Apply(v, total)` stands for the half-open index range from `v` up to
/// `total`).
#[derive(Debug, PartialEq, Eq)]
pub enum MigrationPlan {
    TooNew,
    UpToDate,
    Apply(usize, usize),
}

/// The plan that a recorded version and a compiled step count demand.
pub open spec fn spec_plan(recorded: nat, total: nat) -> MigrationPlan {
    if recorded > total {
        MigrationPlan::TooNew
    } else if recorded == total {
        MigrationPlan::UpToDate
    } else {
        MigrationPlan::Apply(recorded as usize, total as usize)
    }
}

/// How many steps the plan applies.
pub open spec fn spec_steps_to_apply(recorded: nat, total: nat) -> nat {
    if recorded <= total {
        (total - recorded) as nat
    } else {
        0
    }
}

/// Decides what registration must do for an entity type whose descriptor
/// records `recorded` applied steps while `total` steps are compiled in.
pub fn plan_migration(recorded: u32, total: usize) -> (r: MigrationPlan)
    ensures
        r == spec_plan(recorded as nat, total as nat),
{
    if recorded as usize > total {
        MigrationPlan::TooNew
    } else if recorded as usize == total {
        MigrationPlan::UpToDate
    } else {
        MigrationPlan::Apply(recorded as usize, total)
    }
}

/// Migration is idempotent: once the recorded version equals the compiled
/// step count, registering the same entity type again plans no further work,
/// so the second registration performs zero DDL or DML step executions.
pub proof fn lemma_migration_idempotent(total: nat)
    ensures
        spec_plan(total, total) == MigrationPlan::UpToDate,
        spec_steps_to_apply(total, total) == 0,
{
}

/// The version the engine records when registration completes: the full
/// compiled step count.
pub open spec fn spec_version_after(recorded: nat, total: nat) -> nat {
    total
}

/// The recorded schema version never decreases: whenever registration can
/// complete (the plan is not `TooNew`), the version it records is the full
/// compiled step count, at least the version recorded before; and after a
/// build compiles one more step, re-registering applies exactly that one
/// missing step and advances the recorded version from `total` to
/// `total + 1`.
pub proof fn lemma_schema_version_monotonic(recorded: nat, total: nat)
    requires
        recorded <= total,
        total < usize::MAX,
    ensures
        spec_plan(recorded, total) != MigrationPlan::TooNew,
        spec_version_after(recorded, total) == total,
        spec_version_after(recorded, total) >= recorded,
        spec_plan(total, total + 1) == MigrationPlan::Apply(
            total as usize,
            (total + 1) as usize,
        ),
        spec_steps_to_apply(total, total + 1) == 1,
        spec_version_after(total, total + 1) == total + 1,
{
}

} // verus!
