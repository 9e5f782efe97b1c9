use vstd::prelude::*;
use crate::decimal::{append_decimal, decimal};

verus! {

/// The platform family the maintenance actions are chosen for.
#[derive(Clone, Copy, PartialEq, Eq, Structural)]
pub enum Platform {
    Windows,
    Other,
}

/// One independent maintenance action.
pub enum MaintenanceAction {
    /// Spawn `program` with `args`; it succeeds when the spawn and wait
    /// complete without error, whatever the command's own exit status.
    Command { program: String, args: Vec<String> },
    /// A no-op that always succeeds.
    BasicCleanup,
}

/// The actions of one reclamation and the pause, in milliseconds, taken
/// after they finish so that the memory counters settle.
pub struct MaintenancePlan {
    pub actions: Vec<MaintenanceAction>,
    pub settle_millis: u64,
}

/// The observable shape of an action: program and arguments, or `None`
/// for the no-op.
pub open spec fn action_view(a: MaintenanceAction) -> Option<(Seq<char>, Seq<Seq<char>>)> {
    match a {
        MaintenanceAction::Command { program, args } => Some(
            (program@, args@.map_values(|s: String| s@)),
        ),
        MaintenanceAction::BasicCleanup => None,
    }
}

pub open spec fn plan_view(p: MaintenancePlan) -> (Seq<Option<(Seq<char>, Seq<Seq<char>>)>>, u64) {
    (p.actions@.map_values(|a: MaintenanceAction| action_view(a)), p.settle_millis)
}

/// The plan for each platform: on Windows, flush the DNS resolver cache,
/// clear the clipboard and force a garbage collection in a helper shell,
/// then wait 500 ms; elsewhere, the no-op, then wait 200 ms.
pub open spec fn plan_spec(platform: Platform) -> (Seq<Option<(Seq<char>, Seq<Seq<char>>)>>, u64) {
    match platform {
        Platform::Windows => (
            seq![
                Some(("ipconfig"@, seq!["/flushdns"@])),
                Some(("powershell"@, seq!["-NoProfile"@, "-Command"@, "Set-Clipboard -Value $null"@])),
                Some(
                    (
                        "powershell"@,
                        seq![
                            "-NoProfile"@,
                            "-Command"@,
                            "[System.GC]::Collect(); [System.GC]::WaitForPendingFinalizers()"@,
                        ],
                    ),
                ),
            ],
            500,
        ),
        Platform::Other => (seq![None], 200),
    }
}

fn strings(a: &str, b: &str, c: &str, n: usize) -> (r: Vec<String>)
    requires
        1 <= n <= 3,
    ensures
        r@.map_values(|s: String| s@) == seq![a@, b@, c@].subrange(0, n as int),
{
    let mut r: Vec<String> = Vec::new();
    r.push(String::from_str(a));
    if n >= 2 {
        r.push(String::from_str(b));
    }
    if n >= 3 {
        r.push(String::from_str(c));
    }
    assert(r@.map_values(|s: String| s@) =~= seq![a@, b@, c@].subrange(0, n as int));
    r
}

/// The maintenance plan of `platform`.
pub fn maintenance_plan(platform: Platform) -> (p: MaintenancePlan)
    ensures
        plan_view(p) == plan_spec(platform),
{
    let mut actions: Vec<MaintenanceAction> = Vec::new();
    match platform {
        Platform::Windows => {
            let a1 = strings("/flushdns", "", "", 1);
            assert(a1@.map_values(|s: String| s@) =~= seq!["/flushdns"@]);
            actions.push(MaintenanceAction::Command { program: String::from_str("ipconfig"), args: a1 });
            let a2 = strings("-NoProfile", "-Command", "Set-Clipboard -Value $null", 3);
            assert(a2@.map_values(|s: String| s@) =~= seq!["-NoProfile"@, "-Command"@, "Set-Clipboard -Value $null"@]);
            actions.push(MaintenanceAction::Command { program: String::from_str("powershell"), args: a2 });
            let a3 = strings(
                "-NoProfile",
                "-Command",
                "[System.GC]::Collect(); [System.GC]::WaitForPendingFinalizers()",
                3,
            );
            assert(a3@.map_values(|s: String| s@) =~= seq![
                "-NoProfile"@,
                "-Command"@,
                "[System.GC]::Collect(); [System.GC]::WaitForPendingFinalizers()"@,
            ]);
            actions.push(MaintenanceAction::Command { program: String::from_str("powershell"), args: a3 });
            let p = MaintenancePlan { actions, settle_millis: 500 };
            assert(plan_view(p).0 =~= plan_spec(platform).0);
            p
        },
        Platform::Other => {
            actions.push(MaintenanceAction::BasicCleanup);
            let p = MaintenancePlan { actions, settle_millis: 200 };
            assert(plan_view(p).0 =~= plan_spec(platform).0);
            p
        },
    }
}

/// Number of `true` entries of `s`.
pub open spec fn count_true(s: Seq<bool>) -> nat
    decreases s.len(),
{
    if s.len() == 0 {
        0
    } else {
        count_true(s.drop_last()) + if s.last() {
            1nat
        } else {
            0nat
        }
    }
}

proof fn lemma_count_true_bounded(s: Seq<bool>)
    ensures
        count_true(s) <= s.len(),
    decreases s.len(),
{
    if s.len() > 0 {
        lemma_count_true_bounded(s.drop_last());
    }
}

/// Number of actions attempted and number that succeeded, given one
/// outcome per action.
pub fn tally(outcomes: &Vec<bool>) -> (r: (usize, usize))
    ensures
        r.0 == outcomes@.len(),
        r.1 == count_true(outcomes@),
        r.1 <= r.0,
{
    let mut succeeded: usize = 0;
    let mut i: usize = 0;
    while i < outcomes.len()
        invariant
            0 <= i <= outcomes@.len(),
            succeeded == count_true(outcomes@.subrange(0, i as int)),
            succeeded <= i,
        decreases outcomes@.len() - i,
    {
        assert(outcomes@.subrange(0, i as int + 1).drop_last() =~= outcomes@.subrange(0, i as int));
        if outcomes[i] {
            succeeded = succeeded + 1;
        }
        i = i + 1;
    }
    assert(outcomes@.subrange(0, i as int) =~= outcomes@);
    (i, succeeded)
}

/// Summary of one reclamation.
pub struct MemoryOptimizationResult {
    pub before_used: u64,
    pub after_used: u64,
    pub freed: u64,
    pub success: bool,
    pub message: String,
    pub is_admin: bool,
    pub operations_attempted: usize,
    pub operations_succeeded: usize,
}

/// The message for a reclamation with `succeeded` of `attempted` actions
/// done, with or without elevated rights.
pub open spec fn message_spec(is_admin: bool, succeeded: nat, attempted: nat) -> Seq<char> {
    if !is_admin {
        "Otimização básica executada - execute como administrador para melhores resultados"@
    } else if succeeded == attempted {
        "Memória otimizada com sucesso"@
    } else if succeeded > 0 {
        "Otimização parcial: "@ + decimal(succeeded) + " de "@ + decimal(attempted) + " operações concluídas"@
    } else {
        "Não foi possível otimizar a memória"@
    }
}

/// Memory released between the two readings; an increase counts as 0.
pub open spec fn freed_spec(before: u64, after: u64) -> u64 {
    if before > after {
        (before - after) as u64
    } else {
        0
    }
}

fn message_for(is_admin: bool, succeeded: usize, attempted: usize) -> (m: String)
    ensures
        m@ == message_spec(is_admin, succeeded as nat, attempted as nat),
{
    if !is_admin {
        String::from_str("Otimização básica executada - execute como administrador para melhores resultados")
    } else if succeeded == attempted {
        String::from_str("Memória otimizada com sucesso")
    } else if succeeded > 0 {
        let mut m = String::from_str("Otimização parcial: ");
        append_decimal(&mut m, succeeded);
        m.append(" de ");
        append_decimal(&mut m, attempted);
        m.append(" operações concluídas");
        m
    } else {
        String::from_str("Não foi possível otimizar a memória")
    }
}

/// Summarizes a reclamation from the memory in use before and after it,
/// the outcome of each action and whether the process held elevated
/// rights.
pub fn summarize(before_used: u64, after_used: u64, outcomes: &Vec<bool>, is_admin: bool) -> (r: MemoryOptimizationResult)
    ensures
        r.before_used == before_used,
        r.after_used == after_used,
        r.freed == freed_spec(before_used, after_used),
        r.operations_attempted == outcomes@.len(),
        r.operations_succeeded == count_true(outcomes@),
        r.operations_succeeded <= r.operations_attempted,
        r.success == (r.operations_succeeded > 0),
        r.is_admin == is_admin,
        r.message@ == message_spec(is_admin, r.operations_succeeded as nat, r.operations_attempted as nat),
{
    let (attempted, succeeded) = tally(outcomes);
    let freed = if before_used > after_used {
        before_used - after_used
    } else {
        0
    };
    MemoryOptimizationResult {
        before_used,
        after_used,
        freed,
        success: succeeded > 0,
        message: message_for(is_admin, succeeded, attempted),
        is_admin,
        operations_attempted: attempted,
        operations_succeeded: succeeded,
    }
}

/// Whatever the readings and outcomes, the freed amount is the clamped
/// difference of the readings, at most as many actions succeed as were
/// attempted, and when every one of a non-empty set succeeds the
/// reclamation counts as a success.
pub proof fn lemma_summary_laws(before_used: u64, after_used: u64, outcomes: Seq<bool>)
    ensures
        freed_spec(before_used, after_used) == if before_used >= after_used {
            before_used - after_used
        } else {
            0
        },
        count_true(outcomes) <= outcomes.len(),
        outcomes.len() > 0 && (forall|i: int| 0 <= i < outcomes.len() ==> #[trigger] outcomes[i]) ==> count_true(outcomes) == outcomes.len() > 0,
    decreases outcomes.len(),
{
    lemma_count_true_bounded(outcomes);
    if outcomes.len() > 1 && (forall|i: int| 0 <= i < outcomes.len() ==> #[trigger] outcomes[i]) {
        let p = outcomes.drop_last();
        assert forall|i: int| 0 <= i < p.len() implies #[trigger] p[i] by {
            assert(p[i] == outcomes[i]);
        }
        lemma_summary_laws(before_used, after_used, p);
        assert(outcomes[outcomes.len() - 1]);
    } else if outcomes.len() == 1 {
        assert(outcomes.drop_last().len() == 0);
    }
}

} // verus!
