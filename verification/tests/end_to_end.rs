use num_bigint::BigInt;
use rcas_lib::context::get_default_functions;
use rcas_lib::context::Context;
use rcas_lib::error::EvalError;
use rcas_lib::error::ExecError;
use rcas_lib::number::Number;
use rcas_lib::parse_rpol_notation::commands_to_sequential_exec_order;
use rcas_lib::parse_rpol_notation::split_into_commands;
use rcas_lib::stack_machine::BufferedExecutor;
use rcas_lib::stack_machine::RevPolStackMachine;
use rcas_lib::token_defs::Token;

fn executor_for(source: &str) -> BufferedExecutor {
    let mut context = Context::new();
    context.functions.append(&mut get_default_functions());
    let commands = split_into_commands(source.to_string());
    let lines = commands_to_sequential_exec_order(commands, &context).unwrap();
    BufferedExecutor::new(RevPolStackMachine::new_with_ctx(context), lines)
}

fn integer(v: i64) -> Token {
    Token::Const(Number::Int(BigInt::from(v)))
}

#[test]
fn sum_then_print_emits_eight() {
    let mut executor = executor_for("5 3 +\nPrint");
    assert_eq!(executor.run_line(), Ok(()));
    assert_eq!(executor.machine.stack, vec![integer(8)]);
    assert!(executor.machine.output.is_empty());
    assert_eq!(executor.current_line, 1);
    assert_eq!(executor.run_line(), Ok(()));
    assert!(executor.machine.stack.is_empty());
    assert_eq!(executor.machine.output, vec!["8".to_string()]);
    assert!(executor.machine_is_complete());
}

#[test]
fn variable_bound_on_one_line_is_resolved_on_the_next() {
    let mut executor = executor_for("\"x\" 10 :=\n\"x\" \"x\" +\nPrint");
    assert_eq!(executor.lines[1][0], Token::String("x".to_string()));
    assert_eq!(executor.run_line(), Ok(()));
    assert_eq!(executor.machine.context.variables.len(), 1);
    assert_eq!(executor.machine.context.variables[0].name, "x");
    assert_eq!(executor.machine.context.variables[0].value, Some(Box::new(integer(10))));
    let resolved = executor.preprocess_str(&executor.lines[1]);
    assert_eq!(resolved[0], Token::Variable(executor.machine.context.variables[0].clone()));
    assert_eq!(resolved[1], Token::Variable(executor.machine.context.variables[0].clone()));
    assert_eq!(executor.run_stack(), Ok(()));
    assert_eq!(executor.machine.output, vec!["20".to_string()]);
    assert!(executor.machine_is_complete());
}

#[test]
fn operator_without_operands_fails_on_its_line() {
    let mut executor = executor_for("+\n5 Print");
    let failure = ExecError::LineExecutionFailed { line: 0, cause: EvalError::StackUnderflow };
    assert_eq!(executor.run_stack(), Err(failure));
    assert_eq!(executor.current_line, 0);
    assert!(executor.machine.output.is_empty());
    assert!(executor.machine.stack.is_empty());
}

#[test]
fn a_vanishing_product_prints_zero() {
    let mut executor = executor_for("1e-128 0.01 *\nPrint");
    assert_eq!(executor.run_stack(), Ok(()));
    assert_eq!(executor.machine.output, vec!["0.0".to_string()]);
    assert!(executor.machine.stack.is_empty());
}
