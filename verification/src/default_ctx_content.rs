//! The built-in functions.  Each one works on the whole remaining stack and
//! on the context, takes what it needs from the top of the stack, and hands
//! back the tokens to put on the stack, together with what is to be done
//! outside the machine.

use vstd::prelude::*;
use crate::context::Context;
use crate::error::EvalError;
use crate::number::Number;
use crate::number::NumberView;
use crate::token_defs::Builtin;
use crate::token_defs::Token;
use crate::token_defs::TokenView;
use crate::token_defs::Variable;
use crate::token_defs::VariableView;

verus! {

/// What a function asks to be done outside the machine.
#[derive(Debug, PartialEq)]
pub enum Effect {
    /// Nothing.
    Silent,
    /// This line of text is to be emitted.
    Print(String),
    /// The run is to end here.
    Exit,
}

/// The model of an [`Effect`].
pub enum EffectView {
    Silent,
    Print(Seq<char>),
    Exit,
}

impl View for Effect {
    type V = EffectView;

    open spec fn view(&self) -> EffectView {
        match self {
            Effect::Silent => EffectView::Silent,
            Effect::Print(text) => EffectView::Print(text@),
            Effect::Exit => EffectView::Exit,
        }
    }
}

/// What a function hands back when it succeeds.
#[derive(Debug, PartialEq)]
pub struct Outcome {
    /// The tokens that go on top of the stack, the last one topmost.
    pub tokens: Vec<Token>,
    /// What is to be done outside the machine.
    pub effect: Effect,
}

/// The model of an [`Outcome`].
pub struct OutcomeView {
    pub tokens: Seq<TokenView>,
    pub effect: EffectView,
}

impl View for Outcome {
    type V = OutcomeView;

    open spec fn view(&self) -> OutcomeView {
        OutcomeView { tokens: self.tokens.deep_view(), effect: self.effect@ }
    }
}

/// The model of what a call of a function returns.
pub open spec fn returned(r: Result<Outcome, EvalError>) -> Result<OutcomeView, EvalError> {
    match r {
        Ok(outcome) => Ok(outcome@),
        Err(e) => Err(e),
    }
}

/// How a call of a function ends: what is left of the stack, the variables
/// that are bound afterwards, and what the function returns.  A function
/// that fails keeps what it has taken from the stack before.
pub struct Applied {
    pub stack: Seq<TokenView>,
    pub variables: Seq<VariableView>,
    pub result: Result<OutcomeView, EvalError>,
}

/// Success without tokens and without effect.
pub open spec fn nothing() -> OutcomeView {
    OutcomeView { tokens: Seq::<TokenView>::empty(), effect: EffectView::Silent }
}

/// Takes the top token, whatever it is.
pub open spec fn pop_any(stack: Seq<TokenView>) -> (Seq<TokenView>, Option<TokenView>) {
    if stack.len() == 0 {
        (stack, None)
    } else {
        (stack.drop_last(), Some(stack.last()))
    }
}

/// Takes the top token as a number: a constant, or a variable that stands
/// for one.
pub open spec fn pop_number(stack: Seq<TokenView>) -> (Seq<TokenView>, Option<NumberView>) {
    if stack.len() == 0 {
        (stack, None)
    } else {
        (stack.drop_last(), stack.last().number())
    }
}

/// Takes the top token as raw text.
pub open spec fn pop_text(stack: Seq<TokenView>) -> (Seq<TokenView>, Option<Seq<char>>) {
    if stack.len() == 0 {
        (stack, None)
    } else {
        (
            stack.drop_last(),
            match stack.last() {
                TokenView::String(s) => Some(s),
                _ => None,
            },
        )
    }
}

/// Takes the top token as a variable.
pub open spec fn pop_variable(stack: Seq<TokenView>) -> (Seq<TokenView>, Option<VariableView>) {
    if stack.len() == 0 {
        (stack, None)
    } else {
        (
            stack.drop_last(),
            match stack.last() {
                TokenView::Variable(v) => Some(v),
                _ => None,
            },
        )
    }
}

/// The result of an arithmetic function on the number taken first and the
/// number taken second.
pub open spec fn combine(op: Builtin, first: NumberView, second: NumberView) -> NumberView {
    match op {
        Builtin::Add => first.plus(second),
        Builtin::Sub => first.minus(second),
        _ => first.times(second),
    }
}

/// `+`, `-`, `*`: take two numbers and hand back one constant.
pub open spec fn apply_arithmetic(op: Builtin, stack: Seq<TokenView>, vars: Seq<VariableView>)
    -> Applied {
    let (rest1, first) = pop_number(stack);
    match first {
        None => Applied { stack: rest1, variables: vars, result: Err(EvalError::StackUnderflow) },
        Some(x) => {
            let (rest2, second) = pop_number(rest1);
            match second {
                None => Applied {
                    stack: rest2,
                    variables: vars,
                    result: Err(EvalError::StackUnderflow),
                },
                Some(y) => Applied {
                    stack: rest2,
                    variables: vars,
                    result: Ok(
                        OutcomeView {
                            tokens: seq![TokenView::Const(combine(op, x, y))],
                            effect: EffectView::Silent,
                        },
                    ),
                },
            }
        },
    }
}

/// `Print`: takes one token and asks for its text to be emitted.
pub open spec fn apply_print(stack: Seq<TokenView>, vars: Seq<VariableView>) -> Applied {
    let (rest, top) = pop_any(stack);
    match top {
        None => Applied { stack: rest, variables: vars, result: Err(EvalError::StackUnderflow) },
        Some(t) => Applied {
            stack: rest,
            variables: vars,
            result: Ok(
                OutcomeView {
                    tokens: Seq::<TokenView>::empty(),
                    effect: EffectView::Print(t.text()),
                },
            ),
        },
    }
}

/// The variables after a new binding of `name` to `value` has been added.
pub open spec fn bind(vars: Seq<VariableView>, name: Seq<char>, value: TokenView) -> Seq<
    VariableView,
> {
    vars.push(VariableView { name, value: Some(Box::new(value)) })
}

/// `:=`: takes a value, then a name, and binds the name to the value.
pub open spec fn apply_assign(stack: Seq<TokenView>, vars: Seq<VariableView>) -> Applied {
    let (rest1, value) = pop_any(stack);
    match value {
        None => Applied { stack: rest1, variables: vars, result: Err(EvalError::StackUnderflow) },
        Some(v) => {
            let (rest2, name) = pop_text(rest1);
            match name {
                None => Applied {
                    stack: rest2,
                    variables: vars,
                    result: Err(EvalError::StackUnderflow),
                },
                Some(n) => Applied {
                    stack: rest2,
                    variables: bind(vars, n, v),
                    result: Ok(nothing()),
                },
            }
        },
    }
}

/// `=:`: takes a name, then a value, and binds the name to the value.
pub open spec fn apply_rev_assign(stack: Seq<TokenView>, vars: Seq<VariableView>) -> Applied {
    let (rest1, name) = pop_text(stack);
    match name {
        None => Applied { stack: rest1, variables: vars, result: Err(EvalError::StackUnderflow) },
        Some(n) => {
            let (rest2, value) = pop_any(rest1);
            match value {
                None => Applied {
                    stack: rest2,
                    variables: vars,
                    result: Err(EvalError::StackUnderflow),
                },
                Some(v) => Applied {
                    stack: rest2,
                    variables: bind(vars, n, v),
                    result: Ok(nothing()),
                },
            }
        },
    }
}

/// `i` is the first position in `vars` whose binding equals `target`, in name
/// and in value.
pub open spec fn is_first_match(vars: Seq<VariableView>, target: VariableView, i: int) -> bool {
    &&& 0 <= i < vars.len()
    &&& vars[i].same(target)
    &&& forall|j: int| 0 <= j < i ==> !(#[trigger] vars[j]).same(target)
}

/// Some binding in `vars` equals `target`, in name and in value.
pub open spec fn has_match(vars: Seq<VariableView>, target: VariableView) -> bool {
    exists|i: int| is_first_match(vars, target, i)
}

/// The variables without the first binding that equals `target`.
pub open spec fn unbind(vars: Seq<VariableView>, target: VariableView) -> Seq<VariableView> {
    vars.remove(choose|i: int| is_first_match(vars, target, i))
}

/// `&`: takes a variable and removes the first binding that equals it.
pub open spec fn apply_deassign(stack: Seq<TokenView>, vars: Seq<VariableView>) -> Applied {
    let (rest, top) = pop_variable(stack);
    match top {
        None => Applied { stack: rest, variables: vars, result: Err(EvalError::StackUnderflow) },
        Some(target) => if has_match(vars, target) {
            Applied { stack: rest, variables: unbind(vars, target), result: Ok(nothing()) }
        } else {
            Applied {
                stack: rest,
                variables: vars,
                result: Err(EvalError::UnknownVariableForDeletion),
            }
        },
    }
}

/// What a call of a built-in function does to the stack below it and to the
/// variables, and what it returns.
pub open spec fn apply(op: Builtin, stack: Seq<TokenView>, vars: Seq<VariableView>) -> Applied {
    match op {
        Builtin::Add | Builtin::Sub | Builtin::Mul => apply_arithmetic(op, stack, vars),
        Builtin::Print => apply_print(stack, vars),
        Builtin::Exit => Applied {
            stack,
            variables: vars,
            result: Ok(
                OutcomeView { tokens: Seq::<TokenView>::empty(), effect: EffectView::Exit },
            ),
        },
        Builtin::Nop => Applied { stack, variables: vars, result: Ok(nothing()) },
        Builtin::Clear => Applied {
            stack: Seq::<TokenView>::empty(),
            variables: vars,
            result: Ok(nothing()),
        },
        Builtin::Assign => apply_assign(stack, vars),
        Builtin::RevAssign => apply_rev_assign(stack, vars),
        Builtin::Deassign => apply_deassign(stack, vars),
    }
}

/// Whether a call has ended as `apply` says: with this stack, these
/// variables and this result, and with the functions untouched.
pub open spec fn applied(
    op: Builtin,
    stack_before: Seq<TokenView>,
    context_before: crate::context::ContextView,
    stack_after: Seq<TokenView>,
    context_after: crate::context::ContextView,
    result: Result<Outcome, EvalError>,
) -> bool {
    &&& apply(op, stack_before, context_before.variables) == Applied {
        stack: stack_after,
        variables: context_after.variables,
        result: returned(result),
    }
    &&& context_after.functions == context_before.functions
}

/// The first binding that equals `target` is the one that is removed.
pub proof fn lemma_unbind_at(vars: Seq<VariableView>, target: VariableView, i: int)
    requires
        is_first_match(vars, target, i),
    ensures
        has_match(vars, target),
        unbind(vars, target) == vars.remove(i),
{
}

/// Success without tokens and without effect.
fn done() -> (r: Outcome)
    ensures
        r@ == nothing(),
{
    let r = Outcome { tokens: Vec::new(), effect: Effect::Silent };
    assert(r.tokens.deep_view() == Seq::<TokenView>::empty());
    r
}

/// Takes the top token, whatever it is.
pub fn fetch_pop(tokens: &mut Vec<Token>) -> (r: Result<Token, EvalError>)
    ensures
        final(tokens).deep_view() == pop_any(old(tokens).deep_view()).0,
        match r {
            Ok(t) => pop_any(old(tokens).deep_view()).1 == Some(t@),
            Err(e) => e == EvalError::StackUnderflow && pop_any(old(tokens).deep_view()).1
                is None,
        },
{
    match tokens.pop() {
        Some(t) => {
            Ok(t)
        },
        None => Err(EvalError::StackUnderflow),
    }
}

/// Takes the top token as a number.
pub fn fetch_pop_number(tokens: &mut Vec<Token>) -> (r: Result<Number, EvalError>)
    ensures
        final(tokens).deep_view() == pop_number(old(tokens).deep_view()).0,
        match r {
            Ok(n) => pop_number(old(tokens).deep_view()).1 == Some(n@),
            Err(e) => e == EvalError::StackUnderflow && pop_number(old(tokens).deep_view()).1
                is None,
        },
{
    match tokens.pop() {
        Some(t) => {
            match t.to_number() {
                Some(n) => Ok(n),
                None => Err(EvalError::StackUnderflow),
            }
        },
        None => Err(EvalError::StackUnderflow),
    }
}

/// Takes the top token as raw text.
pub fn fetch_pop_string(tokens: &mut Vec<Token>) -> (r: Result<String, EvalError>)
    ensures
        final(tokens).deep_view() == pop_text(old(tokens).deep_view()).0,
        match r {
            Ok(s) => pop_text(old(tokens).deep_view()).1 == Some(s@),
            Err(e) => e == EvalError::StackUnderflow && pop_text(old(tokens).deep_view()).1
                is None,
        },
{
    match tokens.pop() {
        Some(t) => {
            match t {
                Token::String(s) => Ok(s),
                _ => Err(EvalError::StackUnderflow),
            }
        },
        None => Err(EvalError::StackUnderflow),
    }
}

/// Takes the top token as a variable.
pub fn fetch_pop_variable(tokens: &mut Vec<Token>) -> (r: Result<Variable, EvalError>)
    ensures
        final(tokens).deep_view() == pop_variable(old(tokens).deep_view()).0,
        match r {
            Ok(v) => pop_variable(old(tokens).deep_view()).1 == Some(v@),
            Err(e) => e == EvalError::StackUnderflow && pop_variable(
                old(tokens).deep_view(),
            ).1 is None,
        },
{
    match tokens.pop() {
        Some(t) => {
            match t {
                Token::Variable(v) => Ok(v),
                _ => Err(EvalError::StackUnderflow),
            }
        },
        None => Err(EvalError::StackUnderflow),
    }
}

/// Hands back one constant.
fn one_constant(n: Number) -> (r: Outcome)
    ensures
        r@ == (OutcomeView { tokens: seq![TokenView::Const(n@)], effect: EffectView::Silent }),
{
    let mut tokens: Vec<Token> = Vec::new();
    tokens.push(Token::Const(n));
    assert(tokens.deep_view() == seq![TokenView::Const(n@)]);
    Outcome { tokens, effect: Effect::Silent }
}

/// Whether the operation is one of `+`, `-`, `*`.
pub open spec fn is_arithmetic(op: Builtin) -> bool {
    op == Builtin::Add || op == Builtin::Sub || op == Builtin::Mul
}

/// Takes two numbers and hands back the constant that the operation makes
/// of them.
fn arithmetic(op: Builtin, tokens: &mut Vec<Token>, ctx: &mut Context) -> (r: Result<
    Outcome,
    EvalError,
>)
    requires
        is_arithmetic(op),
    ensures
        applied(op, old(tokens).deep_view(), old(ctx)@, final(tokens).deep_view(), final(ctx)@, r),
{
    let arg1 = match fetch_pop_number(tokens) {
        Ok(n) => n,
        Err(e) => return Err(e),
    };
    let arg2 = match fetch_pop_number(tokens) {
        Ok(n) => n,
        Err(e) => return Err(e),
    };
    let res = match op {
        Builtin::Add => arg1.add(arg2),
        Builtin::Sub => arg1.sub(arg2),
        _ => arg1.mul(arg2),
    };
    Ok(one_constant(res))
}

/// The `+` operator.
pub fn add(tokens: &mut Vec<Token>, ctx: &mut Context) -> (r: Result<Outcome, EvalError>)
    ensures
        applied(
            Builtin::Add,
            old(tokens).deep_view(),
            old(ctx)@,
            final(tokens).deep_view(),
            final(ctx)@,
            r,
        ),
{
    arithmetic(Builtin::Add, tokens, ctx)
}

/// The `-` operator.
pub fn sub(tokens: &mut Vec<Token>, ctx: &mut Context) -> (r: Result<Outcome, EvalError>)
    ensures
        applied(
            Builtin::Sub,
            old(tokens).deep_view(),
            old(ctx)@,
            final(tokens).deep_view(),
            final(ctx)@,
            r,
        ),
{
    arithmetic(Builtin::Sub, tokens, ctx)
}

/// The `*` operator.
pub fn mul(tokens: &mut Vec<Token>, ctx: &mut Context) -> (r: Result<Outcome, EvalError>)
    ensures
        applied(
            Builtin::Mul,
            old(tokens).deep_view(),
            old(ctx)@,
            final(tokens).deep_view(),
            final(ctx)@,
            r,
        ),
{
    arithmetic(Builtin::Mul, tokens, ctx)
}

/// The `Print` command.
pub fn print(tokens: &mut Vec<Token>, ctx: &mut Context) -> (r: Result<Outcome, EvalError>)
    ensures
        applied(
            Builtin::Print,
            old(tokens).deep_view(),
            old(ctx)@,
            final(tokens).deep_view(),
            final(ctx)@,
            r,
        ),
{
    let token = match fetch_pop(tokens) {
        Ok(t) => t,
        Err(e) => return Err(e),
    };
    let r = Outcome { tokens: Vec::new(), effect: Effect::Print(token.to_text()) };
    assert(r.tokens.deep_view() == Seq::<TokenView>::empty());
    Ok(r)
}

/// The `Exit` command.
pub fn exit(tokens: &mut Vec<Token>, ctx: &mut Context) -> (r: Result<Outcome, EvalError>)
    ensures
        applied(
            Builtin::Exit,
            old(tokens).deep_view(),
            old(ctx)@,
            final(tokens).deep_view(),
            final(ctx)@,
            r,
        ),
{
    let r = Outcome { tokens: Vec::new(), effect: Effect::Exit };
    assert(r.tokens.deep_view() == Seq::<TokenView>::empty());
    Ok(r)
}

/// The `Nop` command: no operation.
pub fn nop(tokens: &mut Vec<Token>, ctx: &mut Context) -> (r: Result<Outcome, EvalError>)
    ensures
        applied(
            Builtin::Nop,
            old(tokens).deep_view(),
            old(ctx)@,
            final(tokens).deep_view(),
            final(ctx)@,
            r,
        ),
{
    Ok(done())
}

/// The `Clear` command: empties the stack.
pub fn clear(tokens: &mut Vec<Token>, ctx: &mut Context) -> (r: Result<Outcome, EvalError>)
    ensures
        applied(
            Builtin::Clear,
            old(tokens).deep_view(),
            old(ctx)@,
            final(tokens).deep_view(),
            final(ctx)@,
            r,
        ),
{
    tokens.clear();
    assert(tokens.deep_view() == Seq::<TokenView>::empty());
    Ok(done())
}

/// Adds a binding of `name` to `value` to the context.
fn push_binding(ctx: &mut Context, name: String, value: Token)
    ensures
        final(ctx)@.variables == bind(old(ctx)@.variables, name@, value@),
        final(ctx)@.functions == old(ctx)@.functions,
{
    let variable = Variable { name, value: Some(Box::new(value)) };
    ctx.variables.push(variable);
}

/// The `:=` command: turns a name into a variable with a value.
pub fn assign(tokens: &mut Vec<Token>, ctx: &mut Context) -> (r: Result<Outcome, EvalError>)
    ensures
        applied(
            Builtin::Assign,
            old(tokens).deep_view(),
            old(ctx)@,
            final(tokens).deep_view(),
            final(ctx)@,
            r,
        ),
{
    let value = match fetch_pop(tokens) {
        Ok(t) => t,
        Err(e) => return Err(e),
    };
    let name = match fetch_pop_string(tokens) {
        Ok(s) => s,
        Err(e) => return Err(e),
    };
    push_binding(ctx, name, value);
    Ok(done())
}

/// The `=:` command: assignment with the name on top.
pub fn rev_assign(tokens: &mut Vec<Token>, ctx: &mut Context) -> (r: Result<Outcome, EvalError>)
    ensures
        applied(
            Builtin::RevAssign,
            old(tokens).deep_view(),
            old(ctx)@,
            final(tokens).deep_view(),
            final(ctx)@,
            r,
        ),
{
    let name = match fetch_pop_string(tokens) {
        Ok(s) => s,
        Err(e) => return Err(e),
    };
    let value = match fetch_pop(tokens) {
        Ok(t) => t,
        Err(e) => return Err(e),
    };
    push_binding(ctx, name, value);
    Ok(done())
}

/// The position of the first binding that equals `target`.
fn find_match(ctx: &Context, target: &Variable) -> (r: Option<usize>)
    ensures
        match r {
            Some(i) => is_first_match(ctx@.variables, target@, i as int),
            None => !has_match(ctx@.variables, target@),
        },
{
    let mut i: usize = 0;
    while i < ctx.variables.len()
        invariant
            i <= ctx.variables.len(),
            forall|j: int| 0 <= j < i ==> !(#[trigger] ctx@.variables[j]).same(target@),
        decreases ctx.variables.len() - i,
    {
        if ctx.variables[i] == *target {
            return Some(i);
        }
        i += 1;
    }
    None
}

/// The `&` command: removes the binding that equals the variable on top of
/// the stack.
pub fn deassign(tokens: &mut Vec<Token>, ctx: &mut Context) -> (r: Result<Outcome, EvalError>)
    ensures
        applied(
            Builtin::Deassign,
            old(tokens).deep_view(),
            old(ctx)@,
            final(tokens).deep_view(),
            final(ctx)@,
            r,
        ),
        r matches Err(EvalError::UnknownVariableForDeletion) ==> final(ctx)@ == old(ctx)@,
{
    let var = match fetch_pop_variable(tokens) {
        Ok(v) => v,
        Err(e) => return Err(e),
    };
    match find_match(ctx, &var) {
        Some(i) => {
            proof {
                lemma_unbind_at(ctx@.variables, var@, i as int);
            }
            ctx.variables.remove(i);
            assert(ctx@.variables == old(ctx)@.variables.remove(i as int));
            Ok(done())
        },
        None => Err(EvalError::UnknownVariableForDeletion),
    }
}

/// Calls the built-in function behind `op`.
pub fn call(op: Builtin, tokens: &mut Vec<Token>, ctx: &mut Context) -> (r: Result<
    Outcome,
    EvalError,
>)
    ensures
        applied(op, old(tokens).deep_view(), old(ctx)@, final(tokens).deep_view(), final(ctx)@, r),
{
    match op {
        Builtin::Add => self::add(tokens, ctx),
        Builtin::Sub => self::sub(tokens, ctx),
        Builtin::Mul => self::mul(tokens, ctx),
        Builtin::Print => print(tokens, ctx),
        Builtin::Exit => exit(tokens, ctx),
        Builtin::Nop => nop(tokens, ctx),
        Builtin::Clear => clear(tokens, ctx),
        Builtin::Assign => assign(tokens, ctx),
        Builtin::RevAssign => rev_assign(tokens, ctx),
        Builtin::Deassign => deassign(tokens, ctx),
    }
}

} // verus!
