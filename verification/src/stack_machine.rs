//! The stack machine and the executor that feeds it a program line by line.

use vstd::prelude::*;
use crate::context::lookup_variable;
use crate::context::Context;
use crate::context::ContextView;
use crate::default_ctx_content::apply;
use crate::default_ctx_content::call;
use crate::default_ctx_content::Effect;
use crate::default_ctx_content::EffectView;
use crate::error::EvalError;
use crate::error::ExecError;
use crate::token_defs::Builtin;
use crate::token_defs::Token;
use crate::token_defs::TokenView;
use crate::token_defs::VariableView;

verus! {

/// The mathematical model of a [`RevPolStackMachine`].
pub struct MachineView {
    /// The stack, its top last.
    pub stack: Seq<TokenView>,
    /// The variables and functions that are known.
    pub context: ContextView,
    /// The lines of text that were emitted so far, oldest first.
    pub output: Seq<Seq<char>>,
    /// Whether a function has ended the run.
    pub halted: bool,
}

/// A stack of tokens with the context in which its functions are called.
/// What the functions emit is collected in `output`; a machine that a
/// function has ended is `halted` and takes no further step.
#[derive(Debug)]
pub struct RevPolStackMachine {
    pub stack: Vec<Token>,
    pub context: Context,
    pub output: Vec<String>,
    pub halted: bool,
}

impl View for RevPolStackMachine {
    type V = MachineView;

    open spec fn view(&self) -> MachineView {
        MachineView {
            stack: self.stack.deep_view(),
            context: self.context@,
            output: self.output.deep_view(),
            halted: self.halted,
        }
    }
}

/// A machine after one step, and what the step reports: nothing where there
/// was no work to do, else success or the failure of the function called.
pub struct Stepped {
    pub machine: MachineView,
    pub result: Option<Result<(), EvalError>>,
}

/// The output after an effect has been carried out.
pub open spec fn emit(output: Seq<Seq<char>>, effect: EffectView) -> Seq<Seq<char>> {
    match effect {
        EffectView::Print(text) => output.push(text),
        _ => output,
    }
}

/// One evaluation step.  A halted machine and an empty stack have no work.
/// Otherwise the top token leaves the stack.  If it is a function, the
/// function is called on what remains: on success its tokens go on top of
/// the stack in order and its effect is carried out, on failure the stack and
/// the variables stay as the function left them.
pub open spec fn step(m: MachineView) -> Stepped {
    if m.halted || m.stack.len() == 0 {
        Stepped { machine: m, result: None }
    } else {
        match m.stack.last() {
            TokenView::Functor(f) => {
                let a = apply(f.func, m.stack.drop_last(), m.context.variables);
                let context = ContextView {
                    variables: a.variables,
                    functions: m.context.functions,
                };
                match a.result {
                    Err(e) => Stepped {
                        machine: MachineView { stack: a.stack, context, ..m },
                        result: Some(Err(e)),
                    },
                    Ok(outcome) => Stepped {
                        machine: MachineView {
                            stack: a.stack + outcome.tokens,
                            context,
                            output: emit(m.output, outcome.effect),
                            halted: outcome.effect is Exit,
                        },
                        result: Some(Ok(())),
                    },
                }
            },
            _ => Stepped {
                machine: MachineView { stack: m.stack.drop_last(), ..m },
                result: Some(Ok(())),
            },
        }
    }
}

/// A line is done when no function is left anywhere in the stack.
pub open spec fn line_done(stack: Seq<TokenView>) -> bool {
    forall|i: int| 0 <= i < stack.len() ==> !(#[trigger] stack[i] is Functor)
}

/// A machine after it has come to rest, and the failure that stopped it, if
/// one did.
pub struct Settled {
    pub machine: MachineView,
    pub failure: Option<EvalError>,
}

/// Steps until the stack holds no function, the machine is halted, or a step
/// fails.
pub open spec fn settle(m: MachineView) -> Settled
    decreases m.stack.len(),
    via settle_decreases
{
    if line_done(m.stack) || m.halted {
        Settled { machine: m, failure: None }
    } else {
        let s = step(m);
        match s.result {
            Some(Err(e)) => Settled { machine: s.machine, failure: Some(e) },
            _ => settle(s.machine),
        }
    }
}

#[via_fn]
proof fn settle_decreases(m: MachineView) {
    if !(line_done(m.stack) || m.halted) {
        lemma_step_shrinks(m);
    }
}

/// No built-in function leaves more on the stack than it found, its own
/// tokens included.
pub proof fn lemma_apply_bounded(op: Builtin, stack: Seq<TokenView>, vars: Seq<VariableView>)
    ensures
        apply(op, stack, vars).stack.len() <= stack.len(),
        apply(op, stack, vars).result matches Ok(outcome) ==> apply(op, stack, vars).stack.len()
            + outcome.tokens.len() <= stack.len(),
{
}

/// A step that has work to do leaves the stack shorter.
pub proof fn lemma_step_shrinks(m: MachineView)
    requires
        !m.halted,
        m.stack.len() > 0,
    ensures
        step(m).machine.stack.len() < m.stack.len(),
        step(m).result is Some,
{
    match m.stack.last() {
        TokenView::Functor(f) => {
            lemma_apply_bounded(f.func, m.stack.drop_last(), m.context.variables);
        },
        _ => {},
    }
}

impl RevPolStackMachine {
    /// A machine with an empty stack and an empty context.
    pub fn new() -> (r: Self)
        ensures
            r@.stack.len() == 0,
            r@.context.variables.len() == 0,
            r@.context.functions.len() == 0,
            r@.output.len() == 0,
            !r@.halted,
    {
        RevPolStackMachine {
            stack: Vec::new(),
            context: Context::new(),
            output: Vec::new(),
            halted: false,
        }
    }

    /// A machine with an empty stack and the given context.
    pub fn new_with_ctx(context: Context) -> (r: Self)
        ensures
            r@.stack.len() == 0,
            r@.context == context@,
            r@.output.len() == 0,
            !r@.halted,
    {
        RevPolStackMachine { stack: Vec::new(), context, output: Vec::new(), halted: false }
    }

    /// Takes one evaluation step.
    pub fn next(&mut self) -> (r: Option<Result<(), EvalError>>)
        ensures
            step(old(self)@) == (Stepped { machine: final(self)@, result: r }),
    {
        if self.halted {
            return None;
        }
        let top = match self.stack.pop() {
            Some(t) => t,
            None => {
                return None;
            },
        };
        assert(self.stack.deep_view() == old(self)@.stack.drop_last());
        match top {
            Token::Functor(func) => {
                match call(func.func, &mut self.stack, &mut self.context) {
                    Err(e) => Some(Err(e)),
                    Ok(outcome) => {
                        let ghost below = self.stack.deep_view();
                        let ghost emitted = self.output.deep_view();
                        let mut tokens = outcome.tokens;
                        self.stack.append(&mut tokens);
                        assert(self.stack.deep_view() == below + outcome@.tokens);
                        match outcome.effect {
                            Effect::Print(text) => {
                                self.output.push(text);
                                assert(self.output.deep_view() == emitted.push(text@));
                            },
                            Effect::Exit => {
                                self.halted = true;
                            },
                            Effect::Silent => {},
                        }
                        Some(Ok(()))
                    },
                }
            },
            _ => Some(Ok(())),
        }
    }
}

/// Whether no function is left anywhere in the stack.
pub fn line_is_done(line: &Vec<Token>) -> (r: bool)
    ensures
        r == line_done(line.deep_view()),
{
    let mut i: usize = 0;
    while i < line.len()
        invariant
            i <= line.len(),
            forall|j: int| 0 <= j < i ==> !(#[trigger] line.deep_view()[j] is Functor),
        decreases line.len() - i,
    {
        if line[i].is_functor() {
            assert(line.deep_view()[i as int] is Functor);
            return false;
        }
        i += 1;
    }
    true
}

/// The token that takes the place of `t` when a line is resolved against
/// `vars`: raw text that names a variable becomes that variable, every other
/// token stays.
pub open spec fn resolve_token(t: TokenView, vars: Seq<VariableView>) -> TokenView {
    match t {
        TokenView::String(s) => match lookup_variable(vars, s) {
            Some(v) => TokenView::Variable(v),
            None => t,
        },
        _ => t,
    }
}

/// A line resolved against `vars`, token by token.
pub open spec fn resolve(line: Seq<TokenView>, vars: Seq<VariableView>) -> Seq<TokenView> {
    Seq::new(line.len(), |i: int| resolve_token(line[i], vars))
}

/// The mathematical model of a [`BufferedExecutor`].
pub struct ExecutorView {
    pub machine: MachineView,
    pub lines: Seq<Seq<TokenView>>,
    pub current_line: nat,
}

/// An executor after a run, and how the run ended.
pub struct Ran {
    pub executor: ExecutorView,
    pub result: Result<(), ExecError>,
}

/// The machine with the current line resolved and put on top of its stack.
pub open spec fn load(e: ExecutorView) -> MachineView {
    MachineView {
        stack: e.machine.stack + resolve(
            e.lines[e.current_line as int],
            e.machine.context.variables,
        ),
        ..e.machine
    }
}

/// Runs the current line.  A halted machine is left alone.  Otherwise the
/// line is resolved against the variables bound now, put on top of the
/// stack, and the machine steps until it comes to rest.  A failure is
/// reported with the index of the line and nothing is rolled back.  The
/// executor moves on to the next line unless a function has ended the run.
pub open spec fn run_line(e: ExecutorView) -> Ran {
    if e.machine.halted {
        Ran { executor: e, result: Ok(()) }
    } else {
        let settled = settle(load(e));
        match settled.failure {
            Some(cause) => Ran {
                executor: ExecutorView { machine: settled.machine, ..e },
                result: Err(
                    ExecError::LineExecutionFailed { line: e.current_line as usize, cause },
                ),
            },
            None => Ran {
                executor: ExecutorView {
                    machine: settled.machine,
                    current_line: if settled.machine.halted {
                        e.current_line
                    } else {
                        e.current_line + 1
                    },
                    ..e
                },
                result: Ok(()),
            },
        }
    }
}

/// Runs line after line until every line has been run, a function has ended
/// the run, or a line fails.
pub open spec fn run_stack(e: ExecutorView) -> Ran
    decreases e.lines.len() - e.current_line,
{
    if e.current_line >= e.lines.len() || e.machine.halted {
        Ran { executor: e, result: Ok(()) }
    } else {
        let ran = run_line(e);
        if ran.result is Err || ran.executor.machine.halted {
            ran
        } else {
            run_stack(ran.executor)
        }
    }
}

/// Runs a program: each line until no function is left on the stack, then
/// the next line on top of what the stack still holds.
#[derive(Debug)]
pub struct BufferedExecutor {
    pub machine: RevPolStackMachine,
    pub lines: Vec<Vec<Token>>,
    pub current_line: usize,
}

impl View for BufferedExecutor {
    type V = ExecutorView;

    open spec fn view(&self) -> ExecutorView {
        ExecutorView {
            machine: self.machine@,
            lines: self.lines.deep_view(),
            current_line: self.current_line as nat,
        }
    }
}

impl BufferedExecutor {
    /// An executor at the first line of a program.
    pub fn new(machine: RevPolStackMachine, lines: Vec<Vec<Token>>) -> (r: Self)
        ensures
            r@.machine == machine@,
            r@.lines == lines.deep_view(),
            r@.current_line == 0,
    {
        BufferedExecutor { machine, lines, current_line: 0 }
    }

    /// Whether every line has been run.
    pub fn machine_is_complete(&self) -> (r: bool)
        ensures
            r == (self@.current_line == self@.lines.len()),
    {
        self.current_line == self.lines.len()
    }

    /// Resolves a line against the variables that are bound now.
    pub fn preprocess_str(&self, tokens: &Vec<Token>) -> (r: Vec<Token>)
        ensures
            r.deep_view() == resolve(tokens.deep_view(), self@.machine.context.variables),
    {
        let mut res: Vec<Token> = Vec::new();
        let mut i: usize = 0;
        while i < tokens.len()
            invariant
                i <= tokens.len(),
                res.len() == i,
                forall|j: int|
                    0 <= j < i ==> (#[trigger] res[j])@ == resolve_token(
                        tokens[j]@,
                        self@.machine.context.variables,
                    ),
            decreases tokens.len() - i,
        {
            let token = &tokens[i];
            let resolved = match token {
                Token::String(text) => match self.machine.context.find_variable(text) {
                    Some(k) => Token::Variable(self.machine.context.variables[k].clone()),
                    None => Token::String(text.clone()),
                },
                other => other.clone(),
            };
            res.push(resolved);
            i += 1;
        }
        res
    }

    /// Puts the current line on the stack and runs the machine until the
    /// line is done, then moves on to the next line.
    pub fn run_line(&mut self) -> (r: Result<(), ExecError>)
        requires
            old(self).current_line < old(self).lines.len(),
        ensures
            run_line(old(self)@) == (Ran { executor: final(self)@, result: r }),
            final(self)@.lines == old(self)@.lines,
            r is Ok && !final(self)@.machine.halted ==> line_done(final(self)@.machine.stack)
                && final(self)@.current_line == old(self)@.current_line + 1,
            r matches Err(ExecError::LineExecutionFailed { line, .. }) ==> line == old(self).current_line && final(self)@.current_line == old(self)@.current_line,
    {
        if self.machine.halted {
            return Ok(());
        }
        let mut line = self.preprocess_str(&self.lines[self.current_line]);
        let ghost below = self.machine.stack.deep_view();
        let ghost resolved = line.deep_view();
        self.machine.stack.append(&mut line);
        assert(self.machine.stack.deep_view() == below + resolved);
        loop
            invariant
                self.lines == old(self).lines,
                self.current_line == old(self).current_line,
                settle(self.machine@) == settle(load(old(self)@)),
            ensures
                settle(load(old(self)@)) == (Settled { machine: self.machine@, failure: None }),
                self.lines == old(self).lines,
                self.current_line == old(self).current_line,
                line_done(self.machine@.stack) || self.machine.halted,
            decreases self.machine.stack.len(),
        {
            if self.machine.halted || line_is_done(&self.machine.stack) {
                break;
            }
            proof {
                lemma_step_shrinks(self.machine@);
            }
            let val = self.machine.next();
            if let Some(Err(cause)) = val {
                return Err(ExecError::LineExecutionFailed { line: self.current_line, cause });
            }
        }
        if self.machine.halted {
            return Ok(());
        }
        self.current_line += 1;
        Ok(())
    }

    /// Runs every line that is left.  The first failure ends the run and is
    /// returned as it is.
    pub fn run_stack(&mut self) -> (r: Result<(), ExecError>)
        requires
            old(self).current_line <= old(self).lines.len(),
        ensures
            run_stack(old(self)@) == (Ran { executor: final(self)@, result: r }),
            final(self)@.lines == old(self)@.lines,
            r is Ok && !final(self)@.machine.halted ==> final(self)@.current_line == final(self)@.lines.len(),
    {
        loop
            invariant
                self.current_line <= self.lines.len(),
                self@.lines == old(self)@.lines,
                run_stack(self@) == run_stack(old(self)@),
            ensures
                run_stack(old(self)@) == (Ran { executor: self@, result: Ok(()) }),
                self@.lines == old(self)@.lines,
                self.machine.halted || self@.current_line == self@.lines.len(),
            decreases self.lines.len() - self.current_line,
        {
            if self.machine_is_complete() || self.machine.halted {
                break;
            }
            match self.run_line() {
                Ok(()) => {},
                Err(e) => {
                    return Err(e);
                },
            }
            if self.machine.halted {
                return Ok(());
            }
        }
        Ok(())
    }
}

} // verus!
