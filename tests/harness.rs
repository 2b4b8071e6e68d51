use field_harness::harness::transform_with_custom_code;
use field_harness::outcome::{report_of, settle, settle_report, EngineReport, HarnessError};
use field_harness::script::{compose_script, OUTPUT_NAME, PRELUDE};
use pyo3::Python;

fn run(code: &str) -> Result<String, HarnessError> {
    Python::attach(|py| transform_with_custom_code(py, code)).0
}

fn report(code: &str) -> EngineReport {
    Python::attach(|py| transform_with_custom_code(py, code)).1
}

// pyo3 creates its PanicException class the first time it reads a Python error.
fn make_panic_exception() {
    assert!(Python::attach(|py| py.import("no_such_module_for_this_test").is_err()));
}

const FIND_PANIC: &str = "P = [c for c in BaseException.__subclasses__() if c.__name__ == 'PanicException'][0]\n";

fn upper_via_harness(s: &str) -> Result<String, HarnessError> {
    let code = format!("output = field_transformer.to_upper({:?})", s);
    run(&code)
}

#[test]
fn upper_cases_hello() {
    let r = run("output = field_transformer.to_upper('hello')");
    assert_eq!(r, Ok("HELLO".to_string()));
}

#[test]
fn unassigned_output_is_missing() {
    let r = run("x = 1");
    assert_eq!(r, Err(HarnessError::MissingOutput));
}

#[test]
fn upper_cases_several_strings() {
    assert_eq!(upper_via_harness("a"), Ok("A".to_string()));
    assert_eq!(upper_via_harness("Hello World 42"), Ok("HELLO WORLD 42".to_string()));
    assert_eq!(upper_via_harness("already UPPER"), Ok("ALREADY UPPER".to_string()));
    assert_eq!(upper_via_harness("straße"), Ok("STRASSE".to_string()));
}

#[test]
fn original_example_script_runs() {
    let code = "\ninput = \"Hello\"\noutput = field_transformer.to_upper(input)\n";
    assert_eq!(run(code), Ok("HELLO".to_string()));
}

#[test]
fn same_code_gives_same_result_twice() {
    let code = "output = field_transformer.to_upper('twice')";
    let first = run(code);
    let second = run(code);
    assert_eq!(first, second);
    assert_eq!(first, Ok("TWICE".to_string()));
}

#[test]
fn bindings_do_not_leak_between_runs() {
    assert_eq!(run("leaked = 'x'\noutput = 'set'"), Ok("set".to_string()));
    let r = run("output = leaked");
    assert!(matches!(r, Err(HarnessError::ExecutionFailure(_))));
}

#[test]
fn output_does_not_leak_between_runs() {
    assert_eq!(run("output = 'first'"), Ok("first".to_string()));
    assert_eq!(run("y = 2"), Err(HarnessError::MissingOutput));
}

#[test]
fn missing_output_is_not_an_empty_value() {
    let r = run("outputs = 'near miss'");
    assert_eq!(r, Err(HarnessError::MissingOutput));
    assert_ne!(r, Ok(String::new()));
}

#[test]
fn invalid_syntax_is_execution_failure() {
    let r = run("output = (");
    assert!(matches!(r, Err(HarnessError::ExecutionFailure(_))));
    assert_ne!(r, Err(HarnessError::MissingOutput));
}

#[test]
fn undefined_name_is_execution_failure() {
    let r = run("output = no_such_name");
    match r {
        Err(HarnessError::ExecutionFailure(m)) => assert!(m.contains("no_such_name")),
        other => panic!("unexpected result {:?}", other),
    }
}

#[test]
fn raised_exception_is_execution_failure() {
    let r = run("raise ValueError('boom')\noutput = 'never'");
    assert_eq!(r, Err(HarnessError::ExecutionFailure("boom".to_string())));
}

#[test]
fn non_string_output_is_rendered() {
    assert_eq!(run("output = 6 * 7"), Ok("42".to_string()));
    assert_eq!(run("output = None"), Ok("None".to_string()));
}

#[test]
fn empty_custom_code_is_missing_output() {
    assert_eq!(run(""), Err(HarnessError::MissingOutput));
}

#[test]
fn composed_script_is_prelude_newline_code() {
    let code = "output = 1";
    let s = compose_script(code);
    assert_eq!(s, format!("{}\n{}", PRELUDE, code));
    assert!(s.starts_with(PRELUDE));
    assert!(s.ends_with("\noutput = 1"));
    assert_eq!(s.len(), PRELUDE.len() + 1 + code.len());
}

#[test]
fn composed_script_of_empty_code() {
    assert_eq!(compose_script(""), format!("{}\n", PRELUDE));
}

#[test]
fn output_name_is_output() {
    assert_eq!(OUTPUT_NAME, "output");
}

#[test]
fn settle_failed_run() {
    let r = settle(Err("SyntaxError".to_string()), Some("v".to_string()));
    assert_eq!(r, Err(HarnessError::ExecutionFailure("SyntaxError".to_string())));
}

#[test]
fn settle_missing_output() {
    assert_eq!(settle(Ok(()), None), Err(HarnessError::MissingOutput));
}

#[test]
fn settle_found_output() {
    assert_eq!(settle(Ok(()), Some("HELLO".to_string())), Ok("HELLO".to_string()));
}

#[test]
fn error_messages() {
    let e = HarnessError::ExecutionFailure("bad".to_string());
    assert_eq!(e.message(), "bad");
    assert_eq!(HarnessError::MissingOutput.message(), "the script did not assign `output`");
}

#[test]
fn report_of_successful_run() {
    let r = report("output = field_transformer.to_upper('abc')");
    assert_eq!(r, EngineReport { executed: Ok(()), found: Some("ABC".to_string()) });
}

#[test]
fn report_of_run_without_output() {
    assert_eq!(report("z = 3"), EngineReport { executed: Ok(()), found: None });
}

#[test]
fn report_of_failed_run() {
    let r = report("raise RuntimeError('stop')");
    assert_eq!(r, EngineReport { executed: Err("stop".to_string()), found: None });
}

#[test]
fn raising_the_panic_exception_is_execution_failure() {
    make_panic_exception();
    let code = format!("{}raise P('boom')", FIND_PANIC);
    assert_eq!(run(&code), Err(HarnessError::ExecutionFailure("boom".to_string())));
}

#[test]
fn output_whose_str_raises_is_not_a_crash() {
    make_panic_exception();
    let code = format!(
        "{}class B:\n    def __str__(self):\n        raise P('no str')\noutput = B()",
        FIND_PANIC
    );
    assert_eq!(run(&code), Ok("<unprintable object>".to_string()));
}

#[test]
fn exception_whose_str_raises_is_execution_failure() {
    make_panic_exception();
    let code = format!(
        "{}class E(Exception):\n    def __str__(self):\n        raise P('no str')\nraise E()",
        FIND_PANIC
    );
    assert_eq!(
        run(&code),
        Err(HarnessError::ExecutionFailure("<unprintable object>".to_string()))
    );
}

#[test]
fn key_whose_eq_raises_is_execution_failure() {
    make_panic_exception();
    let code = format!(
        "{}class K:\n    def __hash__(self):\n        return hash('output')\n    def __eq__(self, o):\n        raise P('no eq')\nglobals()[K()] = 1",
        FIND_PANIC
    );
    assert_eq!(run(&code), Err(HarnessError::ExecutionFailure("no eq".to_string())));
}

#[test]
fn surrogate_output_is_replaced() {
    let r = run("output = '\\ud800'");
    assert!(matches!(&r, Ok(t) if t.contains('\u{FFFD}')), "{:?}", r);
}

#[test]
fn report_of_failed_run_ignores_lookup() {
    assert_eq!(
        report_of(Err("e".to_string()), Ok(Some("v".to_string()))),
        EngineReport { executed: Err("e".to_string()), found: None }
    );
}

#[test]
fn report_of_failed_lookup() {
    assert_eq!(
        report_of(Ok(()), Err("no eq".to_string())),
        EngineReport { executed: Err("no eq".to_string()), found: None }
    );
}

#[test]
fn report_of_found_and_unbound() {
    assert_eq!(
        report_of(Ok(()), Ok(Some("v".to_string()))),
        EngineReport { executed: Ok(()), found: Some("v".to_string()) }
    );
    assert_eq!(report_of(Ok(()), Ok(None)), EngineReport { executed: Ok(()), found: None });
}

#[test]
fn settle_report_matches_settle() {
    let r = EngineReport { executed: Ok(()), found: Some("X".to_string()) };
    assert_eq!(settle_report(&r), Ok("X".to_string()));
    let r = EngineReport { executed: Ok(()), found: None };
    assert_eq!(settle_report(&r), Err(HarnessError::MissingOutput));
    let r = EngineReport { executed: Err("bad".to_string()), found: None };
    assert_eq!(settle_report(&r), Err(HarnessError::ExecutionFailure("bad".to_string())));
}
