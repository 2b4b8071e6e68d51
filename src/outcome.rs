//! How the engine's reports become the harness's result.

use vstd::prelude::*;

verus! {

/// Why a run of the harness produced no value.
#[derive(Debug, Clone, PartialEq, Eq)]
pub enum HarnessError {
    /// The combined script failed to parse or raised while running; holds the
    /// engine's description of the failure.
    ExecutionFailure(String),
    /// The script ran to completion but never bound `output`.
    MissingOutput,
}

impl HarnessError {
    /// A one-line description of the failure.
    pub fn message(&self) -> (r: String)
        ensures
            self is ExecutionFailure ==> r@ == self->ExecutionFailure_0@,
            self is MissingOutput ==> r@ == missing_output_message(),
    {
        match self {
            HarnessError::ExecutionFailure(m) => m.clone(),
            HarnessError::MissingOutput => {
                proof {
                    reveal_strlit("the script did not assign `output`");
                }
                String::from_str("the script did not assign `output`")
            },
        }
    }
}

/// What the engine reported for one run: whether the script ran, with the
/// text of what it raised where it did not, and, after a run that succeeded,
/// the text of the value bound to `output` if any.
#[derive(Debug, PartialEq, Eq)]
pub struct EngineReport {
    pub executed: Result<(), String>,
    pub found: Option<String>,
}

impl EngineReport {
    /// A report in which nothing is found after a failed run.
    pub open spec fn consistent(&self) -> bool {
        self.executed is Err ==> self.found is None
    }

}

/// The report for what the engine answered: `run`, the outcome of running
/// the script, and `looked_up`, the outcome of looking up `output` in the
/// script's scope after a successful run. A failed run, or a failed lookup,
/// leaves nothing found.
pub fn report_of(run: Result<(), String>, looked_up: Result<Option<String>, String>) -> (r: EngineReport)
    ensures
        run is Err ==> r.executed == run && r.found is None,
        run is Ok && looked_up is Err ==> r.executed == Err::<(), String>(looked_up->Err_0) && r.found is None,
        run is Ok && looked_up is Ok ==> r.executed == Ok::<(), String>(()) && r.found == looked_up->Ok_0,
        r.consistent(),
{
    match run {
        Err(m) => EngineReport { executed: Err(m), found: None },
        Ok(()) => match looked_up {
            Err(m) => EngineReport { executed: Err(m), found: None },
            Ok(found) => EngineReport { executed: Ok(()), found },
        },
    }
}

/// The description given for a script that never bound `output`.
pub open spec fn missing_output_message() -> Seq<char> {
    "the script did not assign `output`"@
}

/// The harness's result for an execution report and, where execution
/// succeeded, the rendered value of `output` if it was bound.
pub open spec fn settled(executed: Result<(), String>, found: Option<String>) -> Result<String, HarnessError> {
    match executed {
        Err(m) => Err(HarnessError::ExecutionFailure(m)),
        Ok(()) => match found {
            Some(v) => Ok(v),
            None => Err(HarnessError::MissingOutput),
        },
    }
}

/// Turns what the engine reported into the harness's result: a failed run is
/// an `ExecutionFailure` whatever the scope holds, a successful run without
/// `output` is `MissingOutput`, and otherwise the value of `output` is returned.
pub fn settle(executed: Result<(), String>, found: Option<String>) -> (r: Result<String, HarnessError>)
    ensures
        r == settled(executed, found),
        executed is Err ==> r == Err::<String, HarnessError>(HarnessError::ExecutionFailure(executed->Err_0)),
        executed is Ok && found is None ==> r == Err::<String, HarnessError>(HarnessError::MissingOutput),
        executed is Ok && found is Some ==> r == Ok::<String, HarnessError>(found->Some_0),
{
    match executed {
        Err(m) => Err(HarnessError::ExecutionFailure(m)),
        Ok(()) => match found {
            Some(v) => Ok(v),
            None => Err(HarnessError::MissingOutput),
        },
    }
}

/// `settle` on the contents of a report, which stays with the caller.
pub fn settle_report(report: &EngineReport) -> (r: Result<String, HarnessError>)
    ensures
        r == settled(report.executed, report.found),
{
    let executed = match &report.executed {
        Ok(()) => Ok(()),
        Err(m) => Err(m.clone()),
    };
    let found = match &report.found {
        Some(v) => Some(v.clone()),
        None => None,
    };
    settle(executed, found)
}

} // verus!
