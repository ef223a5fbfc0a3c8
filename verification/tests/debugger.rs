use num_bigint::BigInt;
use rcas_lib::context::get_default_functions;
use rcas_lib::context::Context;
use rcas_lib::debugger::BufExecDebugger;
use rcas_lib::debugger::IntoDebugger;
use rcas_lib::debugger::RevPolBufSnapshot;
use rcas_lib::debugger::Stepper;
use rcas_lib::debugger_pause;
use rcas_lib::error::EvalError;
use rcas_lib::error::ExecError;
use rcas_lib::number::Number;
use rcas_lib::parse_rpol_notation::commands_to_sequential_exec_order;
use rcas_lib::parse_rpol_notation::split_into_commands;
use rcas_lib::stack_machine::BufferedExecutor;
use rcas_lib::stack_machine::RevPolStackMachine;
use rcas_lib::token_defs::Token;

fn value(v: i64) -> Token {
    Token::Const(Number::Int(BigInt::from(v)))
}

fn executor(source: &str) -> BufferedExecutor {
    let mut context = Context::new();
    context.functions.append(&mut get_default_functions());
    let commands = split_into_commands(source.to_string());
    let lines = commands_to_sequential_exec_order(commands, &context).unwrap();
    BufferedExecutor::new(RevPolStackMachine::new_with_ctx(context), lines)
}

#[test]
fn a_snapshot_shows_the_executor_as_it_is() {
    let mut exec = executor("5 3 +\nPrint");
    exec.run_line().unwrap();
    let snapshot = RevPolBufSnapshot::from_machine(&exec, vec![vec![value(1)]]);
    assert_eq!(snapshot.stack_machine_stack, vec![value(8)]);
    assert_eq!(snapshot.stack_machine_ctx.functions, exec.machine.context.functions);
    assert!(snapshot.stack_machine_ctx.variables.is_empty());
    assert_eq!(snapshot.lines, vec![vec![value(1)]]);
    assert_eq!(snapshot.current_line, 1);
    assert!(!snapshot.machine_is_complete);
    assert_eq!(snapshot.last_result, None);
    assert!(!snapshot.is_error());
}

#[test]
fn a_snapshot_carries_the_last_result() {
    let exec = executor("5");
    let ok = RevPolBufSnapshot::from_machine_with_result(&exec, Vec::new(), Ok(()));
    assert_eq!(ok.last_result, Some(Ok(())));
    assert!(!ok.is_error());
    assert_eq!(ok.current_line, 0);
    let failure = ExecError::LineExecutionFailed { line: 0, cause: EvalError::StackUnderflow };
    let failed = RevPolBufSnapshot::from_machine_with_result(&exec, Vec::new(), Err(failure));
    assert_eq!(failed.last_result, Some(Err(failure)));
    assert!(failed.is_error());
    assert!(failed.lines.is_empty());
}

#[test]
fn a_snapshot_of_a_finished_executor_is_complete() {
    let mut exec = executor("5");
    exec.run_stack().unwrap();
    let snapshot = RevPolBufSnapshot::from_machine(&exec, Vec::new());
    assert!(snapshot.machine_is_complete);
    assert_eq!(snapshot.current_line, 1);
    assert_eq!(snapshot.stack_machine_stack, vec![value(5)]);
}

#[test]
fn the_debugger_runs_one_line_per_step() {
    let mut debugger = BufExecDebugger::new(executor("5 3 +\n2 *"));
    assert!(!debugger.is_done());
    assert!(!debugger.machine_is_complete());
    let first = debugger.static_snapshot();
    assert!(first.stack_machine_stack.is_empty());
    assert_eq!(first.current_line, 0);
    assert_eq!(first.last_result, None);
    assert_eq!(first.lines.len(), 2);
    let second = debugger.next_with_snapshot();
    assert_eq!(second.stack_machine_stack, vec![value(8)]);
    assert_eq!(second.current_line, 1);
    assert_eq!(second.last_result, Some(Ok(())));
    assert!(!second.machine_is_complete);
    assert_eq!(debugger.run_line(), Ok(()));
    assert!(debugger.is_done());
    assert!(debugger.machine_is_complete());
    let last = debugger.static_snapshot();
    assert_eq!(last.stack_machine_stack, vec![value(16)]);
    assert!(last.machine_is_complete);
}

#[test]
fn the_debugger_is_done_when_a_function_has_ended_the_run() {
    let mut debugger = BufExecDebugger::new(executor("1 Exit\n2"));
    let snapshot = debugger.next_with_snapshot();
    assert_eq!(snapshot.last_result, Some(Ok(())));
    assert_eq!(snapshot.current_line, 0);
    assert!(debugger.is_done());
    assert!(!debugger.machine_is_complete());
}

#[test]
fn the_stepper_hands_out_a_snapshot_per_line_and_then_stops() {
    let lines = vec![vec![value(1)], vec![value(2)], vec![value(3)]];
    let debugger = BufExecDebugger::new_machine(RevPolStackMachine::new(), lines);
    let mut stepper = Stepper::new(debugger);
    let mut seen = Vec::new();
    while let Some(snapshot) = stepper.next() {
        assert!(!snapshot.is_error());
        seen.push((snapshot.current_line, snapshot.stack_machine_stack.len()));
    }
    assert_eq!(seen, vec![(1, 1), (2, 2), (3, 3)]);
    assert!(stepper.inner.is_done());
    assert!(stepper.next().is_none());
}

#[test]
fn the_stepper_shows_a_failure_in_its_snapshot() {
    let mut stepper = Stepper::new(BufExecDebugger::new(executor("+\n5")));
    let snapshot = stepper.next().unwrap();
    assert!(snapshot.is_error());
    let failure = ExecError::LineExecutionFailed { line: 0, cause: EvalError::StackUnderflow };
    assert_eq!(snapshot.last_result, Some(Err(failure)));
    assert_eq!(snapshot.current_line, 0);
    assert!(!stepper.inner.is_done());
}

#[test]
fn a_stepper_over_no_lines_has_no_step() {
    let debugger = BufExecDebugger::new_machine(RevPolStackMachine::new(), Vec::new());
    let mut stepper = Stepper::new(debugger);
    assert!(stepper.next().is_none());
}

#[test]
fn pausing_without_a_debugger_returns_at_once() {
    debugger_pause();
}

#[test]
fn the_debugger_shows_what_the_program_has_emitted() {
    let mut debugger = BufExecDebugger::new(executor("1 Print\n2 Print Exit\n3 Print"));
    assert!(debugger.output().is_empty());
    assert!(!debugger.halted());
    debugger.next_with_snapshot();
    assert_eq!(debugger.output(), vec!["1"]);
    debugger.next_with_snapshot();
    assert_eq!(debugger.output(), vec!["1"]);
    assert!(debugger.halted());
    assert!(debugger.is_done());
}
