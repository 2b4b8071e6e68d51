//! The script engine: CPython, reached through pyo3. Each wrapper here makes
//! the pyo3 calls its comment names and is trusted; what the engine computes
//! depends on the interpreter, so no contract here says more than its type.

use pyo3::types::PyAnyMethods;
use pyo3::types::PyDictMethods;
use pyo3::types::PyStringMethods;
use crate::script::GUARD;
use vstd::prelude::*;

verus! {

#[verifier::external_type_specification]
#[verifier::external_body]
pub struct ExPython<'py>(pyo3::Python<'py>);

#[verifier::external_type_specification]
#[verifier::external_body]
#[verifier::reject_recursive_types(T)]
pub struct ExBound<'py, T>(pyo3::Bound<'py, T>);

#[verifier::external_type_specification]
#[verifier::external_body]
pub struct ExPyDict(pyo3::types::PyDict);

#[verifier::external_type_specification]
#[verifier::external_body]
pub struct ExPyAny(pyo3::types::PyAny);

#[verifier::external_type_specification]
#[verifier::external_body]
pub struct ExPyErr(pyo3::PyErr);

/// Relies on pyo3's `PyDict::new`: a new, empty dictionary.
#[verifier::external_body]
pub(crate) fn new_scope<'py>(py: pyo3::Python<'py>) -> pyo3::Bound<'py, pyo3::types::PyDict> {
    pyo3::types::PyDict::new(py)
}

/// Relies on pyo3's `Python::import` and `call_method1` to call Python's
/// builtin `exec(source, scope)`, with `scope` as globals and locals. It runs
/// only `GUARD`, which defines a function and raises nothing of its own; a
/// script of an earlier call that rebinds `builtins.exec` can still make it
/// raise, and a `PanicException` raised so would end in a Rust panic.
#[verifier::external_body]
pub(crate) fn run_in_scope<'py>(
    py: pyo3::Python<'py>,
    source: &str,
    scope: &pyo3::Bound<'py, pyo3::types::PyDict>,
) -> Result<(), pyo3::PyErr>
    requires
        source@ == GUARD@,
{
    let builtins = py.import("builtins")?;
    builtins.call_method1("exec", (source, scope))?;
    Ok(())
}

/// Relies on pyo3's `PyDictMethods::get_item`: the value bound to `name` in
/// `scope`, `None` where the name is unbound.
#[verifier::external_body]
pub(crate) fn lookup<'py>(
    scope: &pyo3::Bound<'py, pyo3::types::PyDict>,
    name: &str,
) -> Result<Option<pyo3::Bound<'py, pyo3::types::PyAny>>, pyo3::PyErr> {
    scope.get_item(name)
}

/// Relies on pyo3's `Python::import`: the module called `name`.
#[verifier::external_body]
pub(crate) fn import_module<'py>(
    py: pyo3::Python<'py>,
    name: &str,
) -> Result<pyo3::Bound<'py, pyo3::types::PyAny>, pyo3::PyErr> {
    Ok(py.import(name)?.into_any())
}

/// Relies on pyo3's `PyAnyMethods::getattr`: the attribute `name` of `obj`.
#[verifier::external_body]
pub(crate) fn attribute<'py>(
    obj: &pyo3::Bound<'py, pyo3::types::PyAny>,
    name: &str,
) -> Result<pyo3::Bound<'py, pyo3::types::PyAny>, pyo3::PyErr> {
    obj.getattr(name)
}

/// Relies on pyo3's `PyString::new`: a Python `str` holding `s`.
#[verifier::external_body]
pub(crate) fn text_object<'py>(py: pyo3::Python<'py>, s: &str) -> pyo3::Bound<'py, pyo3::types::PyAny> {
    pyo3::types::PyString::new(py, s).into_any()
}

/// Relies on pyo3's `Bound::as_any`: the same dictionary, as a Python object.
#[verifier::external_body]
pub(crate) fn scope_object<'py>(
    scope: &pyo3::Bound<'py, pyo3::types::PyDict>,
) -> pyo3::Bound<'py, pyo3::types::PyAny> {
    scope.as_any().clone()
}

/// Relies on pyo3's `PyAnyMethods::call1`, then `extract` of the resulting
/// pair: calls `guard(f, a, b)`. Called only on the function that `GUARD`
/// defines, which hands back what `f` raised instead of raising it; an exact
/// `bool` is read without running Python code.
#[verifier::external_body]
pub(crate) fn call_guarded<'py>(
    guard: &pyo3::Bound<'py, pyo3::types::PyAny>,
    f: &pyo3::Bound<'py, pyo3::types::PyAny>,
    a: &pyo3::Bound<'py, pyo3::types::PyAny>,
    b: &pyo3::Bound<'py, pyo3::types::PyAny>,
) -> Result<(bool, pyo3::Bound<'py, pyo3::types::PyAny>), pyo3::PyErr> {
    guard.call1((f, a, b))?.extract()
}

/// Relies on pyo3's `extract` for `bool`: reads an exact Python `bool`.
#[verifier::external_body]
pub(crate) fn read_flag<'py>(obj: &pyo3::Bound<'py, pyo3::types::PyAny>) -> Result<bool, pyo3::PyErr> {
    obj.extract()
}

/// Relies on pyo3's `cast` to `PyString` and `to_string_lossy`: the text of a
/// Python `str`, with unpaired surrogates replaced.
#[verifier::external_body]
pub(crate) fn read_text<'py>(obj: &pyo3::Bound<'py, pyo3::types::PyAny>) -> Result<String, pyo3::PyErr> {
    Ok(obj.cast::<pyo3::types::PyString>()?.to_string_lossy().into_owned())
}

/// Relies on pyo3's `PyErr::value`, then `Display` for `Bound`: Python's
/// `str()` of the exception.
#[verifier::external_body]
pub(crate) fn describe_error<'py>(py: pyo3::Python<'py>, err: &pyo3::PyErr) -> String {
    err.value(py).to_string()
}

} // verus!
