use num_bigint::BigInt;
use rcas_lib::context::Context;
use rcas_lib::default_ctx_content::call;
use rcas_lib::default_ctx_content::fetch_pop;
use rcas_lib::default_ctx_content::fetch_pop_number;
use rcas_lib::default_ctx_content::fetch_pop_string;
use rcas_lib::default_ctx_content::fetch_pop_variable;
use rcas_lib::default_ctx_content::Effect;
use rcas_lib::default_ctx_content::Outcome;
use rcas_lib::error::EvalError;
use rcas_lib::number::Float;
use rcas_lib::number::Number;
use rcas_lib::token_defs::Builtin;
use rcas_lib::token_defs::Functor;
use rcas_lib::token_defs::Token;
use rcas_lib::token_defs::Variable;

fn num(v: i64) -> Token {
    Token::Const(Number::Int(BigInt::from(v)))
}

fn float(text: &str) -> Token {
    Token::Const(Number::Float(Float::parse(text).unwrap()))
}

fn text(s: &str) -> Token {
    Token::String(s.to_string())
}

fn var(name: &str, value: Token) -> Variable {
    Variable { name: name.to_string(), value: Some(Box::new(value)) }
}

fn pushes(tokens: Vec<Token>) -> Result<Outcome, EvalError> {
    Ok(Outcome { tokens, effect: Effect::Silent })
}

fn nothing() -> Result<Outcome, EvalError> {
    pushes(Vec::new())
}

#[test]
fn add_takes_two_numbers_and_hands_back_their_sum() {
    let mut stack = vec![num(1), num(5), num(3)];
    let mut context = Context::new();
    assert_eq!(call(Builtin::Add, &mut stack, &mut context), pushes(vec![num(8)]));
    assert_eq!(stack, vec![num(1)]);
    assert!(context.variables.is_empty());
}

#[test]
fn sub_subtracts_the_second_number_from_the_top_one() {
    let mut stack = vec![num(5), num(3)];
    let mut context = Context::new();
    assert_eq!(call(Builtin::Sub, &mut stack, &mut context), pushes(vec![num(-2)]));
    assert!(stack.is_empty());
}

#[test]
fn mul_multiplies_the_two_numbers_on_top() {
    let mut stack = vec![num(6), num(7)];
    let mut context = Context::new();
    assert_eq!(call(Builtin::Mul, &mut stack, &mut context), pushes(vec![num(42)]));
    assert!(stack.is_empty());
}

#[test]
fn arithmetic_promotes_to_float_when_one_operand_is_a_float() {
    let mut context = Context::new();
    let mut stack = vec![num(1), float("0.5")];
    assert_eq!(call(Builtin::Add, &mut stack, &mut context), pushes(vec![float("1.5")]));
    let mut stack = vec![num(1), float("0.5")];
    assert_eq!(call(Builtin::Sub, &mut stack, &mut context), pushes(vec![float("-0.5")]));
    let mut stack = vec![float("0.5"), num(3)];
    assert_eq!(call(Builtin::Mul, &mut stack, &mut context), pushes(vec![float("1.5")]));
}

#[test]
fn arithmetic_reads_through_bound_variables() {
    let mut context = Context::new();
    let x = Token::Variable(var("x", num(10)));
    let mut stack = vec![x.clone(), x.clone()];
    assert_eq!(call(Builtin::Add, &mut stack, &mut context), pushes(vec![num(20)]));
    let y = Token::Variable(var("y", x.clone()));
    let mut stack = vec![num(1), y];
    assert_eq!(call(Builtin::Sub, &mut stack, &mut context), pushes(vec![num(9)]));
}

#[test]
fn arithmetic_on_an_empty_stack_underflows() {
    let mut context = Context::new();
    for op in [Builtin::Add, Builtin::Sub, Builtin::Mul] {
        let mut stack: Vec<Token> = Vec::new();
        assert_eq!(call(op, &mut stack, &mut context), Err(EvalError::StackUnderflow));
        assert!(stack.is_empty());
    }
}

#[test]
fn arithmetic_with_one_operand_underflows_and_keeps_what_it_took() {
    let mut context = Context::new();
    let mut stack = vec![num(5)];
    assert_eq!(call(Builtin::Add, &mut stack, &mut context), Err(EvalError::StackUnderflow));
    assert!(stack.is_empty());
}

#[test]
fn arithmetic_on_the_wrong_variant_underflows_and_keeps_what_it_took() {
    let mut context = Context::new();
    let mut stack = vec![num(1), num(2), text("3")];
    assert_eq!(call(Builtin::Add, &mut stack, &mut context), Err(EvalError::StackUnderflow));
    assert_eq!(stack, vec![num(1), num(2)]);
    let mut stack = vec![num(1), text("2"), num(3)];
    assert_eq!(call(Builtin::Mul, &mut stack, &mut context), Err(EvalError::StackUnderflow));
    assert_eq!(stack, vec![num(1)]);
    let unbound = Token::Variable(Variable { name: "u".to_string(), value: None });
    let mut stack = vec![num(1), unbound];
    assert_eq!(call(Builtin::Sub, &mut stack, &mut context), Err(EvalError::StackUnderflow));
    assert_eq!(stack, vec![num(1)]);
}

#[test]
fn print_takes_one_token_and_asks_for_its_text() {
    let mut context = Context::new();
    let mut stack = vec![num(1), num(8)];
    let expected = Ok(Outcome { tokens: Vec::new(), effect: Effect::Print("8".to_string()) });
    assert_eq!(call(Builtin::Print, &mut stack, &mut context), expected);
    assert_eq!(stack, vec![num(1)]);
    let mut stack = vec![Token::Variable(var("x", text("hi")))];
    let expected = Ok(Outcome { tokens: Vec::new(), effect: Effect::Print("x = hi".to_string()) });
    assert_eq!(call(Builtin::Print, &mut stack, &mut context), expected);
}

#[test]
fn print_on_an_empty_stack_underflows() {
    let mut context = Context::new();
    let mut stack: Vec<Token> = Vec::new();
    assert_eq!(call(Builtin::Print, &mut stack, &mut context), Err(EvalError::StackUnderflow));
}

#[test]
fn exit_asks_for_the_end_and_touches_nothing() {
    let mut context = Context::new();
    context.variables.push(var("x", num(1)));
    let mut stack = vec![num(1), num(2)];
    let expected = Ok(Outcome { tokens: Vec::new(), effect: Effect::Exit });
    assert_eq!(call(Builtin::Exit, &mut stack, &mut context), expected);
    assert_eq!(stack, vec![num(1), num(2)]);
    assert_eq!(context.variables, vec![var("x", num(1))]);
}

#[test]
fn nop_touches_nothing() {
    let mut context = Context::new();
    let mut stack = vec![num(1), text("a")];
    assert_eq!(call(Builtin::Nop, &mut stack, &mut context), nothing());
    assert_eq!(stack, vec![num(1), text("a")]);
    let mut empty: Vec<Token> = Vec::new();
    assert_eq!(call(Builtin::Nop, &mut empty, &mut context), nothing());
}

#[test]
fn clear_empties_the_stack() {
    let mut context = Context::new();
    context.variables.push(var("x", num(1)));
    let mut stack = vec![num(1), text("a"), num(3)];
    assert_eq!(call(Builtin::Clear, &mut stack, &mut context), nothing());
    assert!(stack.is_empty());
    assert_eq!(context.variables.len(), 1);
}

#[test]
fn assign_takes_the_value_then_the_name() {
    let mut context = Context::new();
    let mut stack = vec![num(0), text("x"), num(10)];
    assert_eq!(call(Builtin::Assign, &mut stack, &mut context), nothing());
    assert_eq!(stack, vec![num(0)]);
    assert_eq!(context.variables, vec![var("x", num(10))]);
}

#[test]
fn assign_binds_any_token_as_a_value() {
    let mut context = Context::new();
    let mut stack = vec![text("name"), text("value")];
    assert_eq!(call(Builtin::Assign, &mut stack, &mut context), nothing());
    assert_eq!(context.variables, vec![var("name", text("value"))]);
    let plus = Token::Functor(Functor { name: "+".to_string(), func: Builtin::Add });
    let mut stack = vec![text("f"), plus.clone()];
    assert_eq!(call(Builtin::Assign, &mut stack, &mut context), nothing());
    assert_eq!(context.variables[1], var("f", plus));
}

#[test]
fn rev_assign_takes_the_name_then_the_value() {
    let mut context = Context::new();
    let mut stack = vec![num(0), num(10), text("x")];
    assert_eq!(call(Builtin::RevAssign, &mut stack, &mut context), nothing());
    assert_eq!(stack, vec![num(0)]);
    assert_eq!(context.variables, vec![var("x", num(10))]);
}

#[test]
fn assignment_does_not_enforce_unique_names() {
    let mut context = Context::new();
    let mut stack = vec![text("x"), num(1), text("x"), num(2)];
    assert_eq!(call(Builtin::Assign, &mut stack, &mut context), nothing());
    assert_eq!(call(Builtin::Assign, &mut stack, &mut context), nothing());
    assert_eq!(context.variables, vec![var("x", num(2)), var("x", num(1))]);
    assert_eq!(context.find_variable(&"x".to_string()), Some(0));
}

#[test]
fn assign_without_a_name_underflows_and_keeps_what_it_took() {
    let mut context = Context::new();
    let mut stack = vec![num(7), num(5), num(10)];
    assert_eq!(call(Builtin::Assign, &mut stack, &mut context), Err(EvalError::StackUnderflow));
    assert_eq!(stack, vec![num(7)]);
    assert!(context.variables.is_empty());
    let mut stack = vec![num(10)];
    assert_eq!(call(Builtin::Assign, &mut stack, &mut context), Err(EvalError::StackUnderflow));
    assert!(stack.is_empty());
    let mut stack: Vec<Token> = Vec::new();
    assert_eq!(call(Builtin::Assign, &mut stack, &mut context), Err(EvalError::StackUnderflow));
}

#[test]
fn rev_assign_without_a_name_or_a_value_underflows() {
    let mut context = Context::new();
    let mut stack = vec![text("x"), num(10)];
    assert_eq!(call(Builtin::RevAssign, &mut stack, &mut context), Err(EvalError::StackUnderflow));
    assert_eq!(stack, vec![text("x")]);
    let mut stack = vec![text("x")];
    assert_eq!(call(Builtin::RevAssign, &mut stack, &mut context), Err(EvalError::StackUnderflow));
    assert!(stack.is_empty());
    assert!(context.variables.is_empty());
}

#[test]
fn deassign_removes_the_binding_that_matches_exactly() {
    let mut context = Context::new();
    context.variables.push(var("x", num(1)));
    context.variables.push(var("y", num(2)));
    context.variables.push(var("x", num(3)));
    let mut stack = vec![num(0), Token::Variable(var("x", num(3)))];
    assert_eq!(call(Builtin::Deassign, &mut stack, &mut context), nothing());
    assert_eq!(stack, vec![num(0)]);
    assert_eq!(context.variables, vec![var("x", num(1)), var("y", num(2))]);
}

#[test]
fn deassign_removes_only_the_first_of_equal_bindings() {
    let mut context = Context::new();
    context.variables.push(var("x", num(1)));
    context.variables.push(var("y", num(2)));
    context.variables.push(var("x", num(1)));
    let mut stack = vec![Token::Variable(var("x", num(1)))];
    assert_eq!(call(Builtin::Deassign, &mut stack, &mut context), nothing());
    assert_eq!(context.variables, vec![var("y", num(2)), var("x", num(1))]);
}

#[test]
fn deassign_with_another_value_fails_even_if_the_name_matches() {
    let mut context = Context::new();
    context.variables.push(var("x", num(1)));
    let mut stack = vec![num(0), Token::Variable(var("x", num(2)))];
    assert_eq!(
        call(Builtin::Deassign, &mut stack, &mut context),
        Err(EvalError::UnknownVariableForDeletion)
    );
    assert_eq!(stack, vec![num(0)]);
    assert_eq!(context.variables, vec![var("x", num(1))]);
    let mut stack = vec![Token::Variable(var("x", float("1")))];
    assert_eq!(
        call(Builtin::Deassign, &mut stack, &mut context),
        Err(EvalError::UnknownVariableForDeletion)
    );
    let unbound = Variable { name: "x".to_string(), value: None };
    let mut stack = vec![Token::Variable(unbound)];
    assert_eq!(
        call(Builtin::Deassign, &mut stack, &mut context),
        Err(EvalError::UnknownVariableForDeletion)
    );
    assert_eq!(context.variables, vec![var("x", num(1))]);
}

#[test]
fn deassign_of_something_else_than_a_variable_underflows() {
    let mut context = Context::new();
    context.variables.push(var("x", num(1)));
    let mut stack = vec![text("x")];
    assert_eq!(call(Builtin::Deassign, &mut stack, &mut context), Err(EvalError::StackUnderflow));
    assert!(stack.is_empty());
    assert_eq!(call(Builtin::Deassign, &mut stack, &mut context), Err(EvalError::StackUnderflow));
    assert_eq!(context.variables.len(), 1);
}

#[test]
fn the_functions_by_their_own_names() {
    let mut context = Context::new();
    let mut stack = vec![num(2), num(3), num(4), num(5)];
    let r = rcas_lib::default_ctx_content::add(&mut stack, &mut context);
    assert_eq!(r, pushes(vec![num(9)]));
    let r = rcas_lib::default_ctx_content::mul(&mut stack, &mut context);
    assert_eq!(r, pushes(vec![num(6)]));
    let mut stack = vec![num(2), num(10)];
    let r = rcas_lib::default_ctx_content::sub(&mut stack, &mut context);
    assert_eq!(r, pushes(vec![num(8)]));
    let mut stack = vec![text("a"), num(1), text("b")];
    assert_eq!(rcas_lib::default_ctx_content::nop(&mut stack, &mut context), nothing());
    assert_eq!(rcas_lib::default_ctx_content::rev_assign(&mut stack, &mut context), nothing());
    assert_eq!(context.variables, vec![var("b", num(1))]);
    stack.push(num(5));
    assert_eq!(rcas_lib::default_ctx_content::assign(&mut stack, &mut context), nothing());
    assert_eq!(context.variables.len(), 2);
    stack.push(Token::Variable(var("a", num(5))));
    assert_eq!(rcas_lib::default_ctx_content::deassign(&mut stack, &mut context), nothing());
    assert_eq!(context.variables, vec![var("b", num(1))]);
    stack.push(num(1));
    assert_eq!(rcas_lib::default_ctx_content::clear(&mut stack, &mut context), nothing());
    assert!(stack.is_empty());
    let exit = rcas_lib::default_ctx_content::exit(&mut stack, &mut context);
    assert_eq!(exit, Ok(Outcome { tokens: Vec::new(), effect: Effect::Exit }));
    stack.push(text("out"));
    let print = rcas_lib::default_ctx_content::print(&mut stack, &mut context);
    assert_eq!(print, Ok(Outcome { tokens: Vec::new(), effect: Effect::Print("out".to_string()) }));
}

#[test]
fn fetching_takes_the_top_token_even_when_it_is_refused() {
    let mut stack = vec![num(1), text("t"), Token::Variable(var("v", num(2))), num(3)];
    assert_eq!(fetch_pop_string(&mut stack), Err(EvalError::StackUnderflow));
    assert_eq!(stack.len(), 3);
    assert_eq!(fetch_pop_variable(&mut stack), Ok(var("v", num(2))));
    assert_eq!(fetch_pop_variable(&mut stack), Err(EvalError::StackUnderflow));
    assert_eq!(stack, vec![num(1)]);
    assert_eq!(fetch_pop_number(&mut stack), Ok(Number::Int(BigInt::from(1))));
    assert_eq!(fetch_pop(&mut stack), Err(EvalError::StackUnderflow));
    assert_eq!(fetch_pop_number(&mut stack), Err(EvalError::StackUnderflow));
    assert_eq!(fetch_pop_string(&mut stack), Err(EvalError::StackUnderflow));
    assert_eq!(fetch_pop_variable(&mut stack), Err(EvalError::StackUnderflow));
    stack.push(text("s"));
    assert_eq!(fetch_pop_string(&mut stack), Ok("s".to_string()));
    stack.push(text("s"));
    assert_eq!(fetch_pop(&mut stack), Ok(text("s")));
}
