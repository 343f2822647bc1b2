use iaiken::evaluator::{
    expression_result, report_definitions, term_to_string, EvalRequest, EvaluationResult,
    ReplError, ReplEvaluator, TermValue,
};
use iaiken::repl::{keeps_history, parse_command, ReplCommand};
use iaiken::session::{collect_definition_names, DefinitionKind};

/// Stands in for the evaluation engine: accepts every block of declarations.
fn define(repl: &mut ReplEvaluator, code: &str) -> Result<EvaluationResult, ReplError> {
    match repl.eval(code) {
        EvalRequest::Definitions { names, module_code } => {
            repl.commit_definitions(&names, module_code, Ok(()))
        }
        EvalRequest::Expression { fn_name, .. } => panic!("{} was taken as an expression", fn_name),
    }
}

/// Stands in for the evaluation engine: answers an expression with `term`.
fn evaluate(
    repl: &mut ReplEvaluator,
    code: &str,
    answer: Result<(TermValue, &str), ReplError>,
) -> (String, Result<EvaluationResult, ReplError>) {
    match repl.eval(code) {
        EvalRequest::Expression { module_code, .. } => match answer {
            Ok((term, tipo)) => (module_code, expression_result(Ok(term), tipo.to_string())),
            Err(e) => (module_code, Err(e)),
        },
        EvalRequest::Definitions { .. } => panic!("{} was taken as declarations", code),
    }
}

#[test]
fn test_simple_expression() {
    let mut repl = ReplEvaluator::new();

    // Test simple boolean expression
    let (module, result) = evaluate(&mut repl, "True", Ok((TermValue::Bool(true), "Bool")));
    assert_eq!(module, "\n\npub fn repl_eval_0() { True }");
    assert!(result.is_ok());

    if let Ok(EvaluationResult::Value { value, .. }) = result {
        assert_eq!(value, "True");
    } else {
        panic!("Expected value result, got: {:?}", result);
    }
}

#[test]
fn test_arithmetic_expression() {
    let mut repl = ReplEvaluator::new();

    // Test simple arithmetic
    let (module, result) =
        evaluate(&mut repl, "1 + 2", Ok((TermValue::Integer("3".to_string()), "Int")));
    assert_eq!(module, "\n\npub fn repl_eval_0() { 1 + 2 }");
    assert!(result.is_ok());

    if let Ok(EvaluationResult::Value { value, .. }) = result {
        assert_eq!(value, "3");
    } else {
        panic!("Expected value result, got: {:?}", result);
    }
}

#[test]
fn test_definition_addition() {
    let mut repl = ReplEvaluator::new();

    // Add a simple constant definition
    let result = define(&mut repl, "pub const my_const = 42");
    assert!(result.is_ok());

    // Should be able to use it in an expression
    let (module, result) =
        evaluate(&mut repl, "my_const + 1", Ok((TermValue::Integer("43".to_string()), "Int")));
    assert_eq!(module, "\n\npub const my_const = 42\n\npub fn repl_eval_0() { my_const + 1 }");
    assert!(result.is_ok());

    if let Ok(EvaluationResult::Value { value, .. }) = result {
        assert_eq!(value, "43");
    } else {
        panic!("Expected value result, got: {:?}", result);
    }
}

#[test]
fn test_function_definition_and_call() {
    let mut repl = ReplEvaluator::new();

    // Add a function definition
    let result = define(&mut repl, "pub fn add(x: Int, y: Int) -> Int { x + y }");
    assert!(result.is_ok());

    // Should be able to call it
    let (module, result) =
        evaluate(&mut repl, "add(2, 3)", Ok((TermValue::Integer("5".to_string()), "Int")));
    assert!(module.contains("pub fn add(x: Int, y: Int) -> Int { x + y }"));
    assert!(module.ends_with("pub fn repl_eval_0() { add(2, 3) }"));
    assert!(result.is_ok());

    if let Ok(EvaluationResult::Value { value, .. }) = result {
        assert_eq!(value, "5");
    } else {
        panic!("Expected value result, got: {:?}", result);
    }
}

#[test]
fn test_reset() {
    let mut repl = ReplEvaluator::new();

    // Add some definitions
    let _result = define(&mut repl, "pub const my_const = 42");
    assert!(!repl.definitions.is_empty());

    // Reset should clear everything
    repl.reset();
    assert!(repl.definitions.is_empty());

    // Should no longer be able to use the constant
    let (module, result) = evaluate(
        &mut repl,
        "my_const",
        Err(ReplError::ProjectError("unknown variable my_const".to_string())),
    );
    assert!(!module.contains("pub const my_const"));
    assert!(result.is_err());
}

#[test]
fn test_redefinition_support() {
    let mut repl = ReplEvaluator::new();

    // Define a constant
    let result = define(&mut repl, "const something = 3");
    assert!(result.is_ok());

    // Use it
    let (module, result) =
        evaluate(&mut repl, "something", Ok((TermValue::Integer("3".to_string()), "Int")));
    assert!(module.contains("const something = 3"));
    assert!(result.is_ok());
    if let Ok(EvaluationResult::Value { value, .. }) = result {
        assert_eq!(value, "3");
    }

    // Redefine with different type and value
    let result = define(&mut repl, "const something = \"hello\"");
    assert!(result.is_ok());

    // Use the new value
    let (module, result) = evaluate(
        &mut repl,
        "something",
        Ok((TermValue::ByteString(b"hello".to_vec()), "ByteArray")),
    );
    assert!(module.contains("const something = \"hello\""));
    assert!(!module.contains("const something = 3"));
    assert!(result.is_ok());
    if let Ok(EvaluationResult::Value { value, .. }) = result {
        assert!(value.contains("68656c6c6f")); // ByteArray hex representation of "hello"
    }
}

#[test]
fn test_function_redefinition() {
    let mut repl = ReplEvaluator::new();

    // Define a function
    let result = define(&mut repl, "pub fn double(x: Int) -> Int { x * 2 }");
    assert!(result.is_ok());

    // Call it
    let (_, result) =
        evaluate(&mut repl, "double(5)", Ok((TermValue::Integer("10".to_string()), "Int")));
    assert!(result.is_ok());
    if let Ok(EvaluationResult::Value { value, .. }) = result {
        assert_eq!(value, "10");
    }

    // Redefine the function
    let result = define(&mut repl, "pub fn double(x: Int) -> Int { x * 3 }");
    assert!(result.is_ok());

    // Call with new behavior
    let (module, result) =
        evaluate(&mut repl, "double(5)", Ok((TermValue::Integer("15".to_string()), "Int")));
    assert!(module.contains("x * 3"));
    assert!(!module.contains("x * 2"));
    assert!(result.is_ok());
    if let Ok(EvaluationResult::Value { value, .. }) = result {
        assert_eq!(value, "15");
    }
}

#[test]
fn sequential_definitions_and_expressions() {
    let mut repl = ReplEvaluator::new();
    assert!(define(&mut repl, "const x = 1").is_ok());
    assert_eq!(collect_definition_names(&repl.definitions).constants, vec!["x".to_string()]);
    let (module, result) =
        evaluate(&mut repl, "x + 1", Ok((TermValue::Integer("2".to_string()), "Int")));
    assert_eq!(module, "\n\nconst x = 1\n\npub fn repl_eval_0() { x + 1 }");
    assert_eq!(result.unwrap().display(), "2 : Int");
    assert!(define(&mut repl, "const x = \"hi\"").is_ok());
    assert_eq!(repl.definitions, "\n\n\nconst x = \"hi\"");
    assert_eq!(collect_definition_names(&repl.definitions).constants, vec!["x".to_string()]);
    let (module, result) =
        evaluate(&mut repl, "x", Ok((TermValue::ByteString(b"hi".to_vec()), "ByteArray")));
    assert_eq!(module, "\n\n\nconst x = \"hi\"\n\npub fn repl_eval_1() { x }");
    assert_eq!(result.unwrap().display(), "#6869 : ByteArray");
}

#[test]
fn rejected_definitions_leave_the_session_unchanged() {
    let mut repl = ReplEvaluator::new();
    assert!(define(&mut repl, "const x = 1").is_ok());
    let before = repl.definitions.clone();
    let counter = repl.eval_counter;
    match repl.eval("const x = oops") {
        EvalRequest::Definitions { names, module_code } => {
            assert_eq!(module_code, "\n\n\nconst x = oops");
            let result = repl.commit_definitions(
                &names,
                module_code,
                Err(ReplError::ProjectError("unknown variable oops".to_string())),
            );
            assert!(matches!(result, Err(ReplError::ProjectError(ref d)) if d == "unknown variable oops"));
        }
        other => panic!("expected declarations, got {:?}", other),
    }
    assert_eq!(repl.definitions, before);
    assert_eq!(repl.eval_counter, counter);
}

#[test]
fn wrapper_names_are_never_reused() {
    let mut repl = ReplEvaluator::new();
    for n in 0..12u64 {
        match repl.eval("1") {
            EvalRequest::Expression { fn_name, module_code } => {
                assert_eq!(fn_name, format!("repl_eval_{}", n));
                assert_eq!(module_code, format!("\n\npub fn repl_eval_{}() {{ 1 }}", n));
            }
            other => panic!("expected an expression, got {:?}", other),
        }
        assert_eq!(repl.eval_counter, n + 1);
    }
    repl.eval_counter = u64::MAX;
    match repl.eval_expression("1") {
        EvalRequest::Expression { fn_name, .. } => {
            assert_eq!(fn_name, "repl_eval_18446744073709551615")
        }
        other => panic!("expected an expression, got {:?}", other),
    }
    assert_eq!(repl.eval_counter, 0);
}

#[test]
fn context_info_shows_the_text_or_a_note() {
    let mut repl = ReplEvaluator::new();
    assert_eq!(repl.context_info(), "Empty context");
    assert!(define(&mut repl, "const x = 1").is_ok());
    assert_eq!(repl.context_info(), "\n\nconst x = 1");
    repl.reset();
    assert_eq!(repl.context_info(), "Empty context");
    assert_eq!(repl.eval_counter, 0);
}

#[test]
fn committed_definitions_are_reported() {
    let one = report_definitions(&collect_definition_names("type T = Int"));
    assert!(matches!(one, EvaluationResult::Definition { ref name, kind: DefinitionKind::Type, tipo: None } if name == "T"));
    assert_eq!(one.display(), "Defined type T");
    let one = report_definitions(&collect_definition_names("const k = 1"));
    assert_eq!(one.display(), "Defined constant k");
    let many = report_definitions(&collect_definition_names("type T = Int\nconst k = 1\nfn f() { 1 }\nfn g() { 2 }"));
    assert!(matches!(many, EvaluationResult::Definition { kind: DefinitionKind::Function, .. }));
    assert_eq!(many.display(), "Defined function Multiple definitions: f, g, k, T");
    let none = report_definitions(&collect_definition_names("use aiken/list"));
    assert!(matches!(none, EvaluationResult::NoResult));
    assert_eq!(none.display(), "");
    let typed = EvaluationResult::Definition {
        name: "f".to_string(),
        kind: DefinitionKind::Function,
        tipo: Some("fn() -> Int".to_string()),
    };
    assert_eq!(typed.display(), "Defined function f : fn() -> Int");
}

#[test]
fn terms_are_displayed() {
    assert_eq!(term_to_string(&TermValue::Integer("-42".to_string())), "-42");
    assert_eq!(term_to_string(&TermValue::ByteString(vec![0, 15, 16, 255])), "#000f10ff");
    assert_eq!(term_to_string(&TermValue::ByteString(Vec::new())), "#");
    assert_eq!(term_to_string(&TermValue::Text("hi".to_string())), "\"hi\"");
    assert_eq!(term_to_string(&TermValue::Bool(true)), "True");
    assert_eq!(term_to_string(&TermValue::Bool(false)), "False");
    assert_eq!(term_to_string(&TermValue::Unit), "Void");
    assert_eq!(
        term_to_string(&TermValue::List(vec!["Integer(1)".to_string(), "Integer(2)".to_string()])),
        "[Integer(1), Integer(2)]"
    );
    assert_eq!(term_to_string(&TermValue::List(Vec::new())), "[]");
    assert_eq!(
        term_to_string(&TermValue::Pair("Integer(1)".to_string(), "Unit".to_string())),
        "Pair(Integer(1), Unit)"
    );
    assert_eq!(term_to_string(&TermValue::Constant("Data(..)".to_string())), "Data(..)");
    assert_eq!(term_to_string(&TermValue::Term("Lambda".to_string())), "Lambda");
}

#[test]
fn expression_results_keep_constants_only() {
    let value = expression_result(Ok(TermValue::Unit), "Void".to_string()).unwrap();
    assert!(matches!(value, EvaluationResult::Value { uplc_result: Some(TermValue::Unit), .. }));
    assert_eq!(value.display(), "Void : Void");
    let value = expression_result(Ok(TermValue::Term("(lam x x)".to_string())), "fn(a) -> a".to_string()).unwrap();
    assert!(matches!(value, EvaluationResult::Value { uplc_result: None, .. }));
    assert_eq!(value.display(), "(lam x x) : fn(a) -> a");
    let failed = expression_result(Err("OutOfBudget".to_string()), "Int".to_string()).unwrap_err();
    assert!(matches!(failed, ReplError::EvaluationFailed { ref message } if message == "Evaluation failed: OutOfBudget"));
    assert_eq!(failed.message(), "Expression evaluation failed: Evaluation failed: OutOfBudget");
}

#[test]
fn errors_have_one_line_each() {
    assert_eq!(ReplError::ProjectError("diagnostic".to_string()).message(), "REPL evaluation failed");
    assert_eq!(
        ReplError::TempFileError("disk full".to_string()).message(),
        "Failed to create temporary file: disk full"
    );
    assert_eq!(ReplError::NoResult.message(), "Evaluation produced no result");
}

#[test]
fn prompt_commands() {
    assert!(matches!(parse_command(":quit"), ReplCommand::Quit));
    assert!(matches!(parse_command("  :q\n"), ReplCommand::Quit));
    assert!(matches!(parse_command(":reset"), ReplCommand::Reset));
    assert!(matches!(parse_command(":help"), ReplCommand::Help));
    assert!(matches!(parse_command(":h"), ReplCommand::Help));
    assert!(matches!(parse_command(":context"), ReplCommand::Context));
    assert!(matches!(parse_command(":ctx "), ReplCommand::Context));
    assert!(matches!(parse_command(" \t"), ReplCommand::Nothing));
    assert!(matches!(parse_command(""), ReplCommand::Nothing));
    assert!(matches!(parse_command(" 1 + 2 "), ReplCommand::Evaluate(ref c) if c == "1 + 2"));
    assert!(matches!(parse_command(":quit now"), ReplCommand::Evaluate(ref c) if c == ":quit now"));
    assert!(keeps_history("1 + 2"));
    assert!(!keeps_history(":unknown"));
    assert!(!keeps_history(""));
}
