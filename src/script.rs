//! The text handed to the script engine: a fixed prelude, a newline, and the
//! caller's code.

use vstd::prelude::*;
use vstd::string::StringExecFns;

verus! {

/// Defines `FieldTransformer`, whose `to_upper` returns the upper-cased form
/// of a string, and binds an instance of it to `field_transformer`.
pub const PRELUDE: &'static str = "\n\nimport hashlib\nclass FieldTransformer:\n    def to_upper(self, value: str) -> str:\n        return value.upper()\nfield_transformer = FieldTransformer()\n    ";

/// The variable that caller code assigns its result to.
pub const OUTPUT_NAME: &'static str = "output";

/// Python source that defines `harness_guard(f, a, b)`: it calls `f(a, b)`
/// and returns `(True, result)`, or `(False, exception)` for whatever the call
/// raised, so that no exception of the caller's script reaches pyo3, which
/// turns its own `PanicException` into a Rust panic.
pub const GUARD: &'static str = "def harness_guard(f, a, b, _base=BaseException):\n    try:\n        return (True, f(a, b))\n    except _base as e:\n        return (False, e)\n";

/// The function that `GUARD` defines.
pub const GUARD_ENTRY: &'static str = "harness_guard";

/// The script run for `custom_code`: the prelude first, then a single newline,
/// then the caller's code.
pub open spec fn combined_script(custom_code: Seq<char>) -> Seq<char> {
    PRELUDE@ + seq!['\n'] + custom_code
}

/// Builds the script that the engine runs for `custom_code`.
pub fn compose_script(custom_code: &str) -> (r: String)
    ensures
        r@ == combined_script(custom_code@),
        r@.len() == PRELUDE@.len() + 1 + custom_code@.len(),
        r@.subrange(0, PRELUDE@.len() as int) == PRELUDE@,
        r@[PRELUDE@.len() as int] == '\n',
        r@.subrange(PRELUDE@.len() + 1int, r@.len() as int) == custom_code@,
{
    let mut text = String::from_str(PRELUDE);
    text.append("\n");
    proof {
        reveal_strlit("\n");
    }
    text.append(custom_code);
    assert(text@.subrange(0, PRELUDE@.len() as int) =~= PRELUDE@);
    assert(text@.subrange(PRELUDE@.len() + 1int, text@.len() as int) =~= custom_code@);
    text
}

} // verus!
