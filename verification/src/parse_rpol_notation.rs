//! From source text to tokens: splitting the text into lines and words, and
//! classifying each word.

use vstd::prelude::*;
use crate::context::lookup_function;
use crate::context::lookup_variable;
use crate::context::Context;
use crate::context::ContextView;
use crate::error::ClassifyError;
use crate::error::ClassifyErrorView;
use crate::number::number_literal;
use crate::number::Number;
use crate::number::NumberView;
use crate::text::chars_of;
use crate::text::string_of;
use crate::token_defs::Token;
use crate::token_defs::TokenView;

verus! {

/// Whether a text ends inside an open pair of double quotes: every double
/// quote opens or closes a region.
pub open spec fn in_quotes(s: Seq<char>) -> bool
    decreases s.len(),
{
    if s.len() == 0 {
        false
    } else if s.last() == '"' {
        !in_quotes(s.drop_last())
    } else {
        in_quotes(s.drop_last())
    }
}

/// The words of a line.  A space outside quotes ends a word and is dropped;
/// every other character, quotes included, belongs to the word it stands in.
/// There is always at least one word, and a word may be empty.
pub open spec fn split_words(line: Seq<char>) -> Seq<Seq<char>>
    decreases line.len(),
{
    if line.len() == 0 {
        seq![Seq::<char>::empty()]
    } else {
        let before = split_words(line.drop_last());
        if line.last() == ' ' && !in_quotes(line.drop_last()) {
            before.push(Seq::<char>::empty())
        } else {
            before.update(before.len() - 1, before.last().push(line.last()))
        }
    }
}

/// The lines of a text.  A newline ends a line and is dropped.  There is
/// always at least one line, and a line may be empty.
pub open spec fn split_lines(text: Seq<char>) -> Seq<Seq<char>>
    decreases text.len(),
{
    if text.len() == 0 {
        seq![Seq::<char>::empty()]
    } else {
        let before = split_lines(text.drop_last());
        if text.last() == '\n' {
            before.push(Seq::<char>::empty())
        } else {
            before.update(before.len() - 1, before.last().push(text.last()))
        }
    }
}

/// A line that starts with two slashes is a comment.
pub open spec fn is_comment(line: Seq<char>) -> bool {
    line.len() >= 2 && line[0] == '/' && line[1] == '/'
}

/// The words of every line that is not a comment, line by line.
pub open spec fn commands_of_lines(lines: Seq<Seq<char>>) -> Seq<Seq<Seq<char>>>
    decreases lines.len(),
{
    if lines.len() == 0 {
        Seq::<Seq<Seq<char>>>::empty()
    } else {
        let before = commands_of_lines(lines.drop_last());
        if is_comment(lines.last()) {
            before
        } else {
            before.push(split_words(lines.last()))
        }
    }
}

/// The commands of a source text: its lines without the comment lines, each
/// split into words.
pub open spec fn commands_of(text: Seq<char>) -> Seq<Seq<Seq<char>>> {
    commands_of_lines(split_lines(text))
}

/// A word that starts and ends with a double quote.
pub open spec fn is_quoted(word: Seq<char>) -> bool {
    word.len() >= 2 && word[0] == '"' && word.last() == '"'
}

/// What stands between the quotes of a quoted word.
pub open spec fn unquoted(word: Seq<char>) -> Seq<char> {
    word.subrange(1, word.len() - 1)
}

/// The token that an unquoted word stands for in a context, given the number
/// that the word denotes as a literal, if it denotes one.  The literal comes
/// first, then a variable of that name, then a function of that name.
pub open spec fn classify_plain(word: Seq<char>, literal: Option<NumberView>, ctx: ContextView)
    -> Result<TokenView, ClassifyErrorView> {
    match literal {
        Some(n) => Ok(TokenView::Const(n)),
        None => match lookup_variable(ctx.variables, word) {
            Some(v) => Ok(TokenView::Variable(v)),
            None => match lookup_function(ctx.functions, word) {
                Some(f) => Ok(TokenView::Functor(f)),
                None => Err(ClassifyErrorView::UnqualifiedToken(word)),
            },
        },
    }
}

/// The token that a word stands for in a context.  The first rule that
/// applies decides: a quoted word is the variable of that name or else text;
/// a numeric literal is a constant; then a variable of that name; then a
/// function of that name.
pub open spec fn classify(word: Seq<char>, ctx: ContextView) -> Result<
    TokenView,
    ClassifyErrorView,
> {
    if is_quoted(word) {
        match lookup_variable(ctx.variables, unquoted(word)) {
            Some(v) => Ok(TokenView::Variable(v)),
            None => Ok(TokenView::String(unquoted(word))),
        }
    } else {
        classify_plain(word, number_literal(word), ctx)
    }
}

/// The tokens of a line of words, or the failure of its first word that
/// cannot be classified.
pub open spec fn classify_line(words: Seq<Seq<char>>, ctx: ContextView) -> Result<
    Seq<TokenView>,
    ClassifyErrorView,
>
    decreases words.len(),
{
    if words.len() == 0 {
        Ok(Seq::<TokenView>::empty())
    } else {
        match classify_line(words.drop_last(), ctx) {
            Err(e) => Err(e),
            Ok(tokens) => match classify(words.last(), ctx) {
                Ok(t) => Ok(tokens.push(t)),
                Err(e) => Err(e),
            },
        }
    }
}

/// The token lines of a program, or the failure of its first word, in
/// reading order, that cannot be classified.
pub open spec fn classify_lines(lines: Seq<Seq<Seq<char>>>, ctx: ContextView) -> Result<
    Seq<Seq<TokenView>>,
    ClassifyErrorView,
>
    decreases lines.len(),
{
    if lines.len() == 0 {
        Ok(Seq::<Seq<TokenView>>::empty())
    } else {
        match classify_lines(lines.drop_last(), ctx) {
            Err(e) => Err(e),
            Ok(done) => match classify_line(lines.last(), ctx) {
                Ok(tokens) => Ok(done.push(tokens)),
                Err(e) => Err(e),
            },
        }
    }
}

/// Splits one line into its words.
pub fn split_line(line: &Vec<char>) -> (r: Vec<String>)
    ensures
        r.deep_view() == split_words(line@),
{
    let mut words: Vec<String> = Vec::new();
    let mut current: Vec<char> = Vec::new();
    let mut quoted = false;
    let mut i: usize = 0;
    while i < line.len()
        invariant
            i <= line.len(),
            quoted == in_quotes(line@.take(i as int)),
            words.deep_view().push(current@) == split_words(line@.take(i as int)),
        decreases line.len() - i,
    {
        let c = line[i];
        proof {
            assert(line@.take(i + 1).drop_last() == line@.take(i as int));
        }
        if c == ' ' && !quoted {
            let word = string_of(&current);
            words.push(word);
            current = Vec::new();
        } else {
            if c == '"' {
                quoted = !quoted;
            }
            current.push(c);
        }
        i += 1;
    }
    let word = string_of(&current);
    words.push(word);
    proof {
        assert(line@.take(line.len() as int) == line@);
    }
    words
}

/// Splits the characters of a text into its lines.
pub fn lines_of(text: &Vec<char>) -> (r: Vec<Vec<char>>)
    ensures
        r.deep_view() == split_lines(text@),
{
    let mut lines: Vec<Vec<char>> = Vec::new();
    let mut current: Vec<char> = Vec::new();
    let mut i: usize = 0;
    while i < text.len()
        invariant
            i <= text.len(),
            lines.deep_view().push(current@) == split_lines(text@.take(i as int)),
        decreases text.len() - i,
    {
        let c = text[i];
        proof {
            assert(text@.take(i + 1).drop_last() == text@.take(i as int));
        }
        let ghost before = lines.deep_view();
        if c == '\n' {
            let ghost line = current@;
            lines.push(current);
            current = Vec::new();
            assert(lines.deep_view() =~~= before.push(line));
        } else {
            current.push(c);
        }
        i += 1;
    }
    let ghost before = lines.deep_view();
    let ghost line = current@;
    lines.push(current);
    proof {
        assert(lines.deep_view() =~~= before.push(line));
        assert(text@.take(text.len() as int) == text@);
    }
    lines
}

/// Splits a source text into commands: one list of words for every line
/// that is not a comment.
pub fn split_into_commands(input: String) -> (r: Vec<Vec<String>>)
    ensures
        r.deep_view() == commands_of(input@),
{
    let chars = chars_of(input.as_str());
    let lines = lines_of(&chars);
    let mut commands: Vec<Vec<String>> = Vec::new();
    let mut i: usize = 0;
    while i < lines.len()
        invariant
            i <= lines.len(),
            commands.deep_view() == commands_of_lines(lines.deep_view().take(i as int)),
        decreases lines.len() - i,
    {
        let line = &lines[i];
        proof {
            assert(lines.deep_view().take(i + 1).drop_last() == lines.deep_view().take(i as int));
            assert(lines.deep_view().take(i + 1).last() == line@);
        }
        let comment = line.len() >= 2 && line[0] == '/' && line[1] == '/';
        if !comment {
            let words = split_line(line);
            commands.push(words);
        }
        i += 1;
    }
    proof {
        assert(lines.deep_view().take(lines.len() as int) == lines.deep_view());
    }
    commands
}

/// Turns an unquoted word into a token, given the number that the word has
/// been read as, if it has been read as one.
pub fn plain_word_to_token(input: String, literal: Option<Number>, context: &Context) -> (r:
    Result<Token, ClassifyError>)
    ensures
        match r {
            Ok(t) => classify_plain(input@, literal.deep_view(), context@) == Ok::<
                TokenView,
                ClassifyErrorView,
            >(t@),
            Err(e) => classify_plain(input@, literal.deep_view(), context@) == Err::<
                TokenView,
                ClassifyErrorView,
            >(e@),
        },
{
    if let Some(number) = literal {
        return Ok(Token::Const(number));
    }
    if let Some(i) = context.find_variable(&input) {
        return Ok(Token::Variable(context.variables[i].clone()));
    }
    if let Some(i) = context.find_function(&input) {
        return Ok(Token::Functor(context.functions[i].clone()));
    }
    Err(ClassifyError::UnqualifiedToken(input))
}

/// Turns a single word into a token.
pub fn single_command_to_token(input: String, context: &Context) -> (r: Result<
    Token,
    ClassifyError,
>)
    ensures
        match r {
            Ok(t) => classify(input@, context@) == Ok::<TokenView, ClassifyErrorView>(t@),
            Err(e) => classify(input@, context@) == Err::<TokenView, ClassifyErrorView>(e@),
        },
{
    let text = input.as_str();
    let n = text.unicode_len();
    if n >= 2 && text.get_char(0) == '"' && text.get_char(n - 1) == '"' {
        let inner = text.substring_char(1, n - 1).to_owned();
        return match context.find_variable(&inner) {
            Some(i) => Ok(Token::Variable(context.variables[i].clone())),
            None => Ok(Token::String(inner)),
        };
    }
    let literal = Number::parse(text);
    plain_word_to_token(input, literal, context)
}

/// Turns the words of one line into tokens.
pub fn line_to_tokens(words: &Vec<String>, context: &Context) -> (r: Result<
    Vec<Token>,
    ClassifyError,
>)
    ensures
        match r {
            Ok(tokens) => classify_line(words.deep_view(), context@) == Ok::<
                Seq<TokenView>,
                ClassifyErrorView,
            >(tokens.deep_view()),
            Err(e) => classify_line(words.deep_view(), context@) == Err::<
                Seq<TokenView>,
                ClassifyErrorView,
            >(e@),
        },
{
    let mut tokens: Vec<Token> = Vec::new();
    let mut i: usize = 0;
    proof {
        assert(tokens.deep_view() == Seq::<TokenView>::empty());
    }
    while i < words.len()
        invariant
            i <= words.len(),
            classify_line(words.deep_view().take(i as int), context@) == Ok::<
                Seq<TokenView>,
                ClassifyErrorView,
            >(tokens.deep_view()),
        decreases words.len() - i,
    {
        proof {
            assert(words.deep_view().take(i + 1).drop_last() == words.deep_view().take(i as int));
        }
        let ghost before = tokens.deep_view();
        match single_command_to_token(words[i].clone(), context) {
            Ok(t) => {
                tokens.push(t);
                assert(tokens.deep_view() == before.push(t@));
            },
            Err(e) => {
                proof {
                    lemma_classify_line_fails(words.deep_view(), context@, i as int + 1);
                }
                return Err(e);
            },
        }
        i += 1;
    }
    proof {
        assert(words.deep_view().take(words.len() as int) == words.deep_view());
    }
    Ok(tokens)
}

/// A failure within the first `n` words of a line is the failure of the
/// whole line.
pub proof fn lemma_classify_line_fails(words: Seq<Seq<char>>, ctx: ContextView, n: int)
    requires
        0 <= n <= words.len(),
        classify_line(words.take(n), ctx) is Err,
    ensures
        classify_line(words, ctx) == classify_line(words.take(n), ctx),
    decreases words.len() - n,
{
    if n < words.len() {
        assert(words.take(n + 1).drop_last() == words.take(n));
        lemma_classify_line_fails(words, ctx, n + 1);
    } else {
        assert(words.take(n) == words);
    }
}

/// A failure within the first `n` lines of a program is the failure of the
/// whole program.
pub proof fn lemma_classify_lines_fails(lines: Seq<Seq<Seq<char>>>, ctx: ContextView, n: int)
    requires
        0 <= n <= lines.len(),
        classify_lines(lines.take(n), ctx) is Err,
    ensures
        classify_lines(lines, ctx) == classify_lines(lines.take(n), ctx),
    decreases lines.len() - n,
{
    if n < lines.len() {
        assert(lines.take(n + 1).drop_last() == lines.take(n));
        lemma_classify_lines_fails(lines, ctx, n + 1);
    } else {
        assert(lines.take(n) == lines);
    }
}

/// Turns the words of a program into tokens, line by line.  The first word
/// that cannot be classified ends the work with its failure.
pub fn commands_to_sequential_exec_order(input: Vec<Vec<String>>, context: &Context) -> (r:
    Result<Vec<Vec<Token>>, ClassifyError>)
    ensures
        match r {
            Ok(lines) => classify_lines(input.deep_view(), context@) == Ok::<
                Seq<Seq<TokenView>>,
                ClassifyErrorView,
            >(lines.deep_view()),
            Err(e) => classify_lines(input.deep_view(), context@) == Err::<
                Seq<Seq<TokenView>>,
                ClassifyErrorView,
            >(e@),
        },
{
    let mut lines: Vec<Vec<Token>> = Vec::new();
    let mut i: usize = 0;
    proof {
        assert(lines.deep_view() == Seq::<Seq<TokenView>>::empty());
    }
    while i < input.len()
        invariant
            i <= input.len(),
            classify_lines(input.deep_view().take(i as int), context@) == Ok::<
                Seq<Seq<TokenView>>,
                ClassifyErrorView,
            >(lines.deep_view()),
        decreases input.len() - i,
    {
        proof {
            assert(input.deep_view().take(i + 1).drop_last() == input.deep_view().take(i as int));
        }
        let ghost before = lines.deep_view();
        match line_to_tokens(&input[i], context) {
            Ok(tokens) => {
                lines.push(tokens);
                assert(lines.deep_view() == before.push(tokens.deep_view()));
            },
            Err(e) => {
                proof {
                    lemma_classify_lines_fails(input.deep_view(), context@, i as int + 1);
                }
                return Err(e);
            },
        }
        i += 1;
    }
    proof {
        assert(input.deep_view().take(input.len() as int) == input.deep_view());
    }
    Ok(lines)
}

} // verus!
