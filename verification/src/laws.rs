//! Laws that relate classification, the built-in functions and the
//! executor.

use vstd::prelude::*;
use crate::context::is_first_variable;
use crate::context::lemma_lookup_variable_at;
use crate::context::lookup_variable;
use crate::context::ContextView;
use crate::default_ctx_content::apply;
use crate::default_ctx_content::has_match;
use crate::default_ctx_content::pop_number;
use crate::default_ctx_content::Applied;
use crate::default_ctx_content::EffectView;
use crate::default_ctx_content::OutcomeView;
use crate::error::ClassifyErrorView;
use crate::error::EvalError;
use crate::float_word::word_kind;
use crate::float_word::WordKind;
use crate::number::float_literal;
use crate::float_word::is_float_word;
use crate::context::lookup_function;
use crate::number::int_literal;
use crate::number::is_digit;
use crate::number::number_literal;
use crate::number::NumberView;
use crate::parse_rpol_notation::classify;
use crate::parse_rpol_notation::classify_line;
use crate::parse_rpol_notation::split_lines;
use crate::parse_rpol_notation::split_words;
use crate::parse_rpol_notation::is_quoted;
use crate::parse_rpol_notation::unquoted;
use crate::stack_machine::lemma_step_shrinks;
use crate::stack_machine::line_done;
use crate::stack_machine::load;
use crate::stack_machine::resolve;
use crate::stack_machine::run_line;
use crate::stack_machine::settle;
use crate::stack_machine::step;
use crate::stack_machine::ExecutorView;
use crate::stack_machine::MachineView;
use crate::stack_machine::Stepped;
use crate::token_defs::Builtin;
use crate::token_defs::FunctorView;
use crate::token_defs::TokenView;
use crate::token_defs::VariableView;

verus! {

/// An integer literal is never a quoted word.
pub proof fn lemma_int_literal_not_quoted(word: Seq<char>)
    requires
        int_literal(word) is Some,
    ensures
        !is_quoted(word),
{
    if word.len() > 0 && word[0] == '"' {
        assert(is_digit(word[0]) || word[0] == '_');
    }
}

/// Two integer literals and `+`: the words classify as integer constants
/// whatever the context holds; `+` takes the second one first, then the
/// first one, and hands back the integer constant of their exact sum.
pub proof fn law_add_integer_literals(
    a: Seq<char>,
    b: Seq<char>,
    ctx: ContextView,
    below: Seq<TokenView>,
)
    requires
        int_literal(a) is Some,
        int_literal(b) is Some,
    ensures
        classify(a, ctx) == Ok::<TokenView, ClassifyErrorView>(
            TokenView::Const(NumberView::Int(int_literal(a)->0)),
        ),
        classify(b, ctx) == Ok::<TokenView, ClassifyErrorView>(
            TokenView::Const(NumberView::Int(int_literal(b)->0)),
        ),
        ({
            let first = TokenView::Const(NumberView::Int(int_literal(a)->0));
            let second = TokenView::Const(NumberView::Int(int_literal(b)->0));
            let stack = below.push(first).push(second);
            &&& pop_number(stack) == (below.push(first), Some(NumberView::Int(int_literal(b)->0)))
            &&& pop_number(below.push(first)) == (below, Some(NumberView::Int(int_literal(a)->0)))
            &&& apply(Builtin::Add, stack, ctx.variables) == Applied {
                stack: below,
                variables: ctx.variables,
                result: Ok(
                    OutcomeView {
                        tokens: seq![
                            TokenView::Const(
                                NumberView::Int(int_literal(a)->0 + int_literal(b)->0),
                            ),
                        ],
                        effect: EffectView::Silent,
                    },
                ),
            }
        }),
{
    lemma_int_literal_not_quoted(a);
    lemma_int_literal_not_quoted(b);
    let first = TokenView::Const(NumberView::Int(int_literal(a)->0));
    let second = TokenView::Const(NumberView::Int(int_literal(b)->0));
    let stack = below.push(first).push(second);
    assert(stack.drop_last() == below.push(first));
    assert(below.push(first).drop_last() == below);
}

/// One step of a machine whose stack ends in two integer constants and the
/// `+` function: the three tokens make way for the constant of the sum, and
/// nothing else changes.
pub proof fn law_step_adds_integers(m: MachineView, below: Seq<TokenView>, x: int, y: int, f: FunctorView)
    requires
        !m.halted,
        f.func == Builtin::Add,
        m.stack == below.push(TokenView::Const(NumberView::Int(x))).push(
            TokenView::Const(NumberView::Int(y)),
        ).push(TokenView::Functor(f)),
    ensures
        step(m) == (Stepped {
            machine: MachineView {
                stack: below.push(TokenView::Const(NumberView::Int(x + y))),
                ..m
            },
            result: Some(Ok(())),
        }),
{
    let first = TokenView::Const(NumberView::Int(x));
    let second = TokenView::Const(NumberView::Int(y));
    let stack = below.push(first).push(second);
    assert(m.stack.drop_last() == stack);
    assert(stack.drop_last() == below.push(first));
    assert(below.push(first).drop_last() == below);
    assert(below + seq![TokenView::Const(NumberView::Int(y + x))] == below.push(
        TokenView::Const(NumberView::Int(x + y)),
    ));
    assert(step(m).machine.context == m.context);
}

/// A numeric literal is a constant whatever the context binds: a variable
/// or a function with the literal as its name never takes its place.
pub proof fn law_literal_before_lookup(word: Seq<char>, ctx: ContextView)
    ensures
        int_literal(word) matches Some(v) ==> classify(word, ctx) == Ok::<
            TokenView,
            ClassifyErrorView,
        >(TokenView::Const(NumberView::Int(v))),
        !is_quoted(word) ==> (number_literal(word) matches Some(n) ==> classify(word, ctx)
            == Ok::<TokenView, ClassifyErrorView>(TokenView::Const(n))),
{
    if int_literal(word) is Some {
        lemma_int_literal_not_quoted(word);
    }
}

/// An unquoted word fails to classify exactly when it is no integer
/// literal, denotes no float, and names neither a variable nor a function.
/// The failure then names the word.  A word denotes no float exactly when it
/// is no float word or is too long to be read; every other float word is a
/// float constant unless it is an integer literal.
pub proof fn law_unqualified_exactly(word: Seq<char>, ctx: ContextView)
    requires
        !is_quoted(word),
    ensures
        classify(word, ctx) is Err <==> (int_literal(word) is None && float_literal(word) is None
            && lookup_variable(ctx.variables, word) is None && lookup_function(
            ctx.functions,
            word,
        ) is None),
        classify(word, ctx) is Err ==> classify(word, ctx) == Err::<TokenView, ClassifyErrorView>(
            ClassifyErrorView::UnqualifiedToken(word),
        ),
        float_literal(word) is None <==> (!is_float_word(word) || word_kind(word)
            == WordKind::TooLong),
        int_literal(word) is None && float_literal(word) is Some ==> (classify(word, ctx) matches Ok(
            TokenView::Const(NumberView::Float(_)),
        )),
{
}

/// The word made of a name between double quotes.
pub open spec fn quoted(name: Seq<char>) -> Seq<char> {
    seq!['"'] + name + seq!['"']
}

/// A quoted name of a bound variable classifies as that variable, the first
/// one of that name, and not as text.
pub proof fn law_quoted_lookup(name: Seq<char>, ctx: ContextView, i: int)
    requires
        0 <= i < ctx.variables.len(),
        ctx.variables[i].name == name,
    ensures
        classify(quoted(name), ctx) matches Ok(TokenView::Variable(v)) && v.name == name
            && lookup_variable(ctx.variables, name) == Some(v),
        is_first_variable(ctx.variables, name, i) ==> classify(quoted(name), ctx) == Ok::<
            TokenView,
            ClassifyErrorView,
        >(TokenView::Variable(ctx.variables[i])),
{
    assert(is_quoted(quoted(name)));
    assert(unquoted(quoted(name)) == name);
    let k = lemma_first_variable_exists(ctx.variables, name, i);
    lemma_lookup_variable_at(ctx.variables, name, k);
    if is_first_variable(ctx.variables, name, i) {
        lemma_lookup_variable_at(ctx.variables, name, i);
    }
}

/// Where some variable has the name, there is a first one.
pub proof fn lemma_first_variable_exists(vars: Seq<VariableView>, name: Seq<char>, i: int) -> (k:
    int)
    requires
        0 <= i < vars.len(),
        vars[i].name == name,
    ensures
        is_first_variable(vars, name, k),
        k <= i,
    decreases i,
{
    if exists|j: int| 0 <= j < i && (#[trigger] vars[j]).name == name {
        let j = choose|j: int| 0 <= j < i && (#[trigger] vars[j]).name == name;
        lemma_first_variable_exists(vars, name, j)
    } else {
        i
    }
}

/// Deletion needs an exact match: where no binding equals the variable on
/// top of the stack in name and in value, `&` fails with
/// `UnknownVariableForDeletion` and leaves every binding in place, however
/// many bindings have the same name.
pub proof fn law_deassign_exact_match(
    below: Seq<TokenView>,
    target: VariableView,
    vars: Seq<VariableView>,
)
    requires
        forall|i: int| 0 <= i < vars.len() ==> !(#[trigger] vars[i]).same(target),
    ensures
        apply(Builtin::Deassign, below.push(TokenView::Variable(target)), vars) == (Applied {
            stack: below,
            variables: vars,
            result: Err(EvalError::UnknownVariableForDeletion),
        }),
{
    assert(below.push(TokenView::Variable(target)).drop_last() == below);
    assert(!has_match(vars, target));
}

/// Resolving a line twice against the same variables gives what resolving
/// it once gives: a resolved token is never resolved again.
pub proof fn law_resolve_idempotent(line: Seq<TokenView>, vars: Seq<VariableView>)
    ensures
        resolve(resolve(line, vars), vars) == resolve(line, vars),
{
    assert(resolve(resolve(line, vars), vars) =~= resolve(line, vars));
}

/// The pieces of a text put together again, with the separator between
/// every two of them.
pub open spec fn join(pieces: Seq<Seq<char>>, separator: char) -> Seq<char>
    decreases pieces.len(),
{
    if pieces.len() == 0 {
        Seq::<char>::empty()
    } else if pieces.len() == 1 {
        pieces[0]
    } else {
        join(pieces.drop_last(), separator).push(separator) + pieces.last()
    }
}

/// A character added to the last piece is a character added to the whole.
pub proof fn lemma_join_grow_last(pieces: Seq<Seq<char>>, separator: char, c: char)
    requires
        pieces.len() > 0,
    ensures
        join(pieces.update(pieces.len() - 1, pieces.last().push(c)), separator) == join(
            pieces,
            separator,
        ).push(c),
{
    let grown = pieces.update(pieces.len() - 1, pieces.last().push(c));
    if pieces.len() > 1 {
        assert(grown.drop_last() == pieces.drop_last());
        assert(join(pieces.drop_last(), separator).push(separator) + pieces.last().push(c) == (
        join(pieces.drop_last(), separator).push(separator) + pieces.last()).push(c));
    }
}

/// An empty piece added at the end is a separator added to the whole.
pub proof fn lemma_join_new_piece(pieces: Seq<Seq<char>>, separator: char)
    requires
        pieces.len() > 0,
    ensures
        join(pieces.push(Seq::<char>::empty()), separator) == join(pieces, separator).push(
            separator,
        ),
{
    let longer = pieces.push(Seq::<char>::empty());
    assert(longer.drop_last() == pieces);
    assert(join(pieces, separator).push(separator) + Seq::<char>::empty() == join(
        pieces,
        separator,
    ).push(separator));
}

/// Splitting a line into words loses nothing: there is at least one word,
/// and the words joined with single spaces are the line.
pub proof fn law_split_words_lossless(line: Seq<char>)
    ensures
        split_words(line).len() >= 1,
        join(split_words(line), ' ') == line,
    decreases line.len(),
{
    if line.len() > 0 {
        law_split_words_lossless(line.drop_last());
        let before = split_words(line.drop_last());
        lemma_join_grow_last(before, ' ', line.last());
        lemma_join_new_piece(before, ' ');
        assert(line.drop_last().push(line.last()) == line);
    }
}

/// Splitting a text into lines loses nothing and leaves no newline in any
/// line: there is at least one line, and the lines joined with newlines are
/// the text.
pub proof fn law_split_lines_lossless(text: Seq<char>)
    ensures
        split_lines(text).len() >= 1,
        join(split_lines(text), '\n') == text,
        forall|i: int, j: int|
            0 <= i < split_lines(text).len() && 0 <= j < split_lines(text)[i].len()
                ==> #[trigger] split_lines(text)[i][j] != '\n',
    decreases text.len(),
{
    if text.len() > 0 {
        law_split_lines_lossless(text.drop_last());
        let before = split_lines(text.drop_last());
        lemma_join_grow_last(before, '\n', text.last());
        lemma_join_new_piece(before, '\n');
        assert(text.drop_last().push(text.last()) == text);
    }
}

/// A line of words classifies word by word: it succeeds exactly when every
/// word does, with one token per word, and it fails with the failure of the
/// first word that fails.
pub proof fn law_classify_line_pointwise(words: Seq<Seq<char>>, ctx: ContextView)
    ensures
        match classify_line(words, ctx) {
            Ok(tokens) => {
                &&& tokens.len() == words.len()
                &&& forall|j: int|
                    0 <= j < words.len() ==> classify(#[trigger] words[j], ctx) == Ok::<
                        TokenView,
                        ClassifyErrorView,
                    >(tokens[j])
            },
            Err(e) => exists|j: int|
                {
                    &&& 0 <= j < words.len()
                    &&& classify(#[trigger] words[j], ctx) == Err::<TokenView, ClassifyErrorView>(e)
                    &&& forall|k: int| 0 <= k < j ==> classify(#[trigger] words[k], ctx) is Ok
                },
        },
    decreases words.len(),
{
    if words.len() > 0 {
        let init = words.drop_last();
        law_classify_line_pointwise(init, ctx);
        match classify_line(init, ctx) {
            Ok(tokens) => {
                match classify(words.last(), ctx) {
                    Ok(t) => {
                        assert forall|j: int| 0 <= j < words.len() implies classify(
                            #[trigger] words[j],
                            ctx,
                        ) == Ok::<TokenView, ClassifyErrorView>(tokens.push(t)[j]) by {
                            if j < init.len() {
                                assert(words[j] == init[j]);
                            }
                        }
                    },
                    Err(e) => {
                        let j = words.len() - 1;
                        assert forall|k: int| 0 <= k < j implies classify(
                            #[trigger] words[k],
                            ctx,
                        ) is Ok by {
                            assert(words[k] == init[k]);
                        }
                        assert(classify(words[j], ctx) == Err::<TokenView, ClassifyErrorView>(e));
                    },
                }
            },
            Err(e) => {
                let j = choose|j: int|
                    {
                        &&& 0 <= j < init.len()
                        &&& classify(#[trigger] init[j], ctx) == Err::<
                            TokenView,
                            ClassifyErrorView,
                        >(e)
                        &&& forall|k: int| 0 <= k < j ==> classify(#[trigger] init[k], ctx) is Ok
                    };
                assert(words[j] == init[j]);
                assert forall|k: int| 0 <= k < j implies classify(#[trigger] words[k], ctx)
                    is Ok by {
                    assert(words[k] == init[k]);
                }
                assert(classify(words[j], ctx) == Err::<TokenView, ClassifyErrorView>(e));
            },
        }
    }
}

/// A machine that has come to rest without a failure holds no function on
/// its stack, or a function has ended the run.
pub proof fn law_settle_rests(m: MachineView)
    ensures
        settle(m).failure is None ==> line_done(settle(m).machine.stack) || settle(
            m,
        ).machine.halted,
    decreases m.stack.len(),
{
    if !(line_done(m.stack) || m.halted) {
        lemma_step_shrinks(m);
        if !(step(m).result matches Some(Err(_))) {
            law_settle_rests(step(m).machine);
        }
    }
}

/// The registered functions never change: not by a step, not by a machine
/// coming to rest, not by running a line.
pub proof fn law_functions_are_fixed(m: MachineView, e: ExecutorView)
    ensures
        step(m).machine.context.functions == m.context.functions,
        settle(m).machine.context.functions == m.context.functions,
        run_line(e).executor.machine.context.functions == e.machine.context.functions,
{
    lemma_settle_keeps_functions(m);
    lemma_settle_keeps_functions(load(e));
}

/// A machine comes to rest with the functions it started with.
pub proof fn lemma_settle_keeps_functions(m: MachineView)
    ensures
        settle(m).machine.context.functions == m.context.functions,
    decreases m.stack.len(),
{
    if !(line_done(m.stack) || m.halted) {
        lemma_step_shrinks(m);
        if !(step(m).result matches Some(Err(_))) {
            lemma_settle_keeps_functions(step(m).machine);
        }
    }
}

} // verus!
