//! One run of the harness: compose the script, run it in a fresh scope, and
//! read back `output`.

use crate::engine::{
    attribute, call_guarded, describe_error, import_module, lookup, new_scope, read_flag,
    read_text, run_in_scope, scope_object, text_object,
};
use crate::outcome::{report_of, settle_report, settled, EngineReport, HarnessError};
use crate::script::{compose_script, GUARD, GUARD_ENTRY, OUTPUT_NAME};
use vstd::prelude::*;
use vstd::string::StringExecFns;

verus! {

/// Runs `custom_code` after the prelude, in a scope created for this call
/// alone, and returns the string form of the value bound to `output`,
/// together with what the engine reported.
///
/// A script that fails to parse or raises gives `ExecutionFailure` with the
/// exception's text; one that runs but never binds `output` gives
/// `MissingOutput`. The caller holds the interpreter (`py`); nothing is kept
/// between calls.
pub fn transform_with_custom_code<'py>(py: pyo3::Python<'py>, custom_code: &str) -> (r: (
    Result<String, HarnessError>,
    EngineReport,
))
    ensures
        r.0 == settled(r.1.executed, r.1.found),
        r.1.executed is Err ==> r.1.found is None,
{
    let script = compose_script(custom_code);
    let report = engine_report(py, script.as_str());
    let result = settle_report(&report);
    (result, report)
}

/// The Python callables one run uses, fetched before the script runs.
struct Tools<'py> {
    guard: pyo3::Bound<'py, pyo3::types::PyAny>,
    execute: pyo3::Bound<'py, pyo3::types::PyAny>,
    str_type: pyo3::Bound<'py, pyo3::types::PyAny>,
    str_new: pyo3::Bound<'py, pyo3::types::PyAny>,
    contains: pyo3::Bound<'py, pyo3::types::PyAny>,
    getitem: pyo3::Bound<'py, pyo3::types::PyAny>,
}

/// Text for a failure of the engine itself.
fn fault_text<'py>(py: pyo3::Python<'py>, err: pyo3::PyErr) -> String {
    describe_error(py, &err)
}

/// Defines `GUARD` in a scope of its own and fetches `exec`, `str`,
/// `operator.contains` and `operator.getitem`.
fn load_tools<'py>(py: pyo3::Python<'py>) -> Result<Tools<'py>, String> {
    let home = new_scope(py);
    if let Err(e) = run_in_scope(py, GUARD, &home) {
        return Err(fault_text(py, e));
    }
    let guard = match lookup(&home, GUARD_ENTRY) {
        Ok(Some(g)) => g,
        Ok(None) => return Err(String::from_str("the guard was not defined")),
        Err(e) => return Err(fault_text(py, e)),
    };
    let builtins = match import_module(py, "builtins") {
        Ok(m) => m,
        Err(e) => return Err(fault_text(py, e)),
    };
    let operator = match import_module(py, "operator") {
        Ok(m) => m,
        Err(e) => return Err(fault_text(py, e)),
    };
    let execute = match attribute(&builtins, "exec") {
        Ok(f) => f,
        Err(e) => return Err(fault_text(py, e)),
    };
    let str_type = match attribute(&builtins, "str") {
        Ok(t) => t,
        Err(e) => return Err(fault_text(py, e)),
    };
    let str_new = match attribute(&str_type, "__new__") {
        Ok(f) => f,
        Err(e) => return Err(fault_text(py, e)),
    };
    let contains = match attribute(&operator, "contains") {
        Ok(f) => f,
        Err(e) => return Err(fault_text(py, e)),
    };
    let getitem = match attribute(&operator, "getitem") {
        Ok(f) => f,
        Err(e) => return Err(fault_text(py, e)),
    };
    Ok(Tools { guard, execute, str_type, str_new, contains, getitem })
}

/// Python's `str()` of `obj`, as `str.__new__(str, obj)` under the guard;
/// an object whose `str()` raises is shown as `<unprintable object>`.
fn text_of<'py>(py: pyo3::Python<'py>, tools: &Tools<'py>, obj: &pyo3::Bound<'py, pyo3::types::PyAny>) -> String {
    match call_guarded(&tools.guard, &tools.str_new, &tools.str_type, obj) {
        Err(e) => fault_text(py, e),
        Ok((false, _)) => String::from_str("<unprintable object>"),
        Ok((true, s)) => match read_text(&s) {
            Ok(t) => t,
            Err(e) => fault_text(py, e),
        },
    }
}

/// Runs `script` by `exec(script, scope)`: `Ok` if it ran to its end, else
/// the text of what it raised.
fn exec_in<'py>(
    py: pyo3::Python<'py>,
    tools: &Tools<'py>,
    script: &str,
    scope: &pyo3::Bound<'py, pyo3::types::PyDict>,
) -> Result<(), String> {
    let code = text_object(py, script);
    let target = scope_object(scope);
    match call_guarded(&tools.guard, &tools.execute, &code, &target) {
        Err(e) => Err(fault_text(py, e)),
        Ok((true, _)) => Ok(()),
        Ok((false, raised)) => Err(text_of(py, tools, &raised)),
    }
}

/// Looks `name` up in `scope`: `Ok(None)` where it is unbound, the text of
/// its value where it is bound, and the text of the exception where the
/// lookup raised.
fn lookup_text<'py>(
    py: pyo3::Python<'py>,
    tools: &Tools<'py>,
    scope: &pyo3::Bound<'py, pyo3::types::PyDict>,
    name: &str,
) -> Result<Option<String>, String> {
    let key = text_object(py, name);
    let target = scope_object(scope);
    let flag = match call_guarded(&tools.guard, &tools.contains, &target, &key) {
        Err(e) => return Err(fault_text(py, e)),
        Ok((false, raised)) => return Err(text_of(py, tools, &raised)),
        Ok((true, flag)) => flag,
    };
    match read_flag(&flag) {
        Err(e) => Err(fault_text(py, e)),
        Ok(false) => Ok(None),
        Ok(true) => match call_guarded(&tools.guard, &tools.getitem, &target, &key) {
            Err(e) => Err(fault_text(py, e)),
            Ok((false, raised)) => Err(text_of(py, tools, &raised)),
            Ok((true, value)) => Ok(Some(text_of(py, tools, &value))),
        },
    }
}

/// Runs `script` in a new, empty scope and, only after a successful run,
/// looks up `OUTPUT_NAME` there; the report is `report_of` the two answers.
fn engine_report<'py>(py: pyo3::Python<'py>, script: &str) -> (r: EngineReport)
    ensures
        r.consistent(),
{
    let tools = match load_tools(py) {
        Ok(t) => t,
        Err(m) => return report_of(Err(m), Ok(None)),
    };
    let scope = new_scope(py);
    match exec_in(py, &tools, script, &scope) {
        Err(m) => report_of(Err(m), Ok(None)),
        Ok(()) => {
            let looked_up = lookup_text(py, &tools, &scope, OUTPUT_NAME);
            report_of(Ok(()), looked_up)
        },
    }
}

} // verus!
