//! The tokens that flow through the stack: constants, variables, callable
//! functions and raw text.

use vstd::prelude::*;
use vstd::string::StringExecFns;
use crate::number::Number;
use crate::number::NumberView;

verus! {

/// The operation behind a callable function.  Every operation works on the
/// whole remaining stack and on the context.
#[derive(Clone, Copy, Debug, PartialEq, Eq, Structural)]
pub enum Builtin {
    /// Adds the two numbers on top of the stack.
    Add,
    /// Subtracts the second number from the top one.
    Sub,
    /// Multiplies the two numbers on top of the stack.
    Mul,
    /// Pops a token and emits its text.
    Print,
    /// Ends the run.
    Exit,
    /// Does nothing.
    Nop,
    /// Empties the stack.
    Clear,
    /// Pops a value, then a name, and binds the name to the value.
    Assign,
    /// Pops a name, then a value, and binds the name to the value.
    RevAssign,
    /// Pops a variable and removes its binding.
    Deassign,
}

impl Builtin {
    /// The label under which the operation shows in a token's text.
    pub open spec fn label_text(self) -> Seq<char> {
        match self {
            Builtin::Add => "Add"@,
            Builtin::Sub => "Sub"@,
            Builtin::Mul => "Mul"@,
            Builtin::Print => "Print"@,
            Builtin::Exit => "Exit"@,
            Builtin::Nop => "Nop"@,
            Builtin::Clear => "Clear"@,
            Builtin::Assign => "Assign"@,
            Builtin::RevAssign => "RevAssign"@,
            Builtin::Deassign => "Deassign"@,
        }
    }

    /// The label under which the operation shows in a token's text.
    pub fn label(&self) -> (r: &'static str)
        ensures
            r@ == self.label_text(),
    {
        match self {
            Builtin::Add => "Add",
            Builtin::Sub => "Sub",
            Builtin::Mul => "Mul",
            Builtin::Print => "Print",
            Builtin::Exit => "Exit",
            Builtin::Nop => "Nop",
            Builtin::Clear => "Clear",
            Builtin::Assign => "Assign",
            Builtin::RevAssign => "RevAssign",
            Builtin::Deassign => "Deassign",
        }
    }
}

/// The mathematical model of a [`Variable`].
pub struct VariableView {
    pub name: Seq<char>,
    pub value: Option<Box<TokenView>>,
}

/// The mathematical model of a [`Functor`].
pub struct FunctorView {
    pub name: Seq<char>,
    pub func: Builtin,
}

/// The mathematical model of a [`Token`].
pub enum TokenView {
    Const(NumberView),
    Variable(VariableView),
    Functor(FunctorView),
    String(Seq<char>),
}

/// The name of a variable and the value it is bound to, if any.
#[derive(Debug)]
pub struct Variable {
    pub name: String,
    pub value: Option<Box<Token>>,
}

/// A callable function under the name it is registered with.
#[derive(Debug)]
pub struct Functor {
    pub name: String,
    pub func: Builtin,
}

/// What a token can be: a constant, a variable, a callable function or raw
/// text.
#[derive(Debug)]
pub enum Token {
    Const(Number),
    Variable(Variable),
    Functor(Functor),
    String(String),
}

/// The model of a token.
pub open spec fn token_view(t: Token) -> TokenView
    decreases t,
{
    match t {
        Token::Const(n) => TokenView::Const(n@),
        Token::Variable(v) => TokenView::Variable(variable_view(v)),
        Token::Functor(f) => TokenView::Functor(FunctorView { name: f.name@, func: f.func }),
        Token::String(s) => TokenView::String(s@),
    }
}

/// The model of a variable.
pub open spec fn variable_view(v: Variable) -> VariableView
    decreases v,
{
    VariableView {
        name: v.name@,
        value: match v.value {
            Some(b) => Some(Box::new(token_view(*b))),
            None => None,
        },
    }
}

impl View for Token {
    type V = TokenView;

    open spec fn view(&self) -> TokenView {
        token_view(*self)
    }
}

impl DeepView for Token {
    type V = TokenView;

    open spec fn deep_view(&self) -> TokenView {
        token_view(*self)
    }
}

impl View for Variable {
    type V = VariableView;

    open spec fn view(&self) -> VariableView {
        variable_view(*self)
    }
}

impl DeepView for Variable {
    type V = VariableView;

    open spec fn deep_view(&self) -> VariableView {
        variable_view(*self)
    }
}

impl View for Functor {
    type V = FunctorView;

    open spec fn view(&self) -> FunctorView {
        FunctorView { name: self.name@, func: self.func }
    }
}

impl DeepView for Functor {
    type V = FunctorView;

    open spec fn deep_view(&self) -> FunctorView {
        self@
    }
}

impl TokenView {
    /// Token equality: same variant, and equal contents.
    pub open spec fn same(self, other: TokenView) -> bool
        decreases self,
    {
        match (self, other) {
            (TokenView::Const(a), TokenView::Const(b)) => a.same(b),
            (TokenView::Variable(a), TokenView::Variable(b)) => {
                &&& a.name == b.name
                &&& match (a.value, b.value) {
                    (Some(x), Some(y)) => (*x).same(*y),
                    (None, None) => true,
                    _ => false,
                }
            },
            (TokenView::Functor(a), TokenView::Functor(b)) => a == b,
            (TokenView::String(a), TokenView::String(b)) => a == b,
            _ => false,
        }
    }

    /// The text that shows a token.
    pub open spec fn text(self) -> Seq<char>
        decreases self,
    {
        match self {
            TokenView::Const(n) => n.text(),
            TokenView::Variable(v) => match v.value {
                Some(t) => v.name + " = "@ + (*t).text(),
                None => v.name + " (undefined)"@,
            },
            TokenView::Functor(f) => f.text(),
            TokenView::String(s) => s,
        }
    }

    /// The number that a token stands for as an operand: a constant stands
    /// for itself, a bound variable for what its value stands for.
    pub open spec fn number(self) -> Option<NumberView>
        decreases self,
    {
        match self {
            TokenView::Const(n) => Some(n),
            TokenView::Variable(v) => match v.value {
                Some(t) => (*t).number(),
                None => None,
            },
            _ => None,
        }
    }
}

impl VariableView {
    /// Variable equality: equal names and equal values.
    pub open spec fn same(self, other: VariableView) -> bool {
        TokenView::Variable(self).same(TokenView::Variable(other))
    }

    /// The text that shows a variable.
    pub open spec fn text(self) -> Seq<char> {
        TokenView::Variable(self).text()
    }
}

impl FunctorView {
    /// The text that shows a callable function.
    pub open spec fn text(self) -> Seq<char> {
        self.name + "(x) -> "@ + self.func.label_text()
    }
}

impl Functor {
    /// The text that shows the binding.
    pub fn to_text(&self) -> (r: String)
        ensures
            r@ == self@.text(),
    {
        let mut r = self.name.clone();
        r.append("(x) -> ");
        r.append(self.func.label());
        r
    }
}

impl Variable {
    /// The text that shows the variable: its name, then its value or a note
    /// that it has none.
    pub fn to_text(&self) -> (r: String)
        ensures
            r@ == self@.text(),
        decreases self,
    {
        let mut r = self.name.clone();
        match &self.value {
            Some(t) => {
                r.append(" = ");
                let inner = (&**t).to_text();
                r.append(inner.as_str());
            },
            None => {
                r.append(" (undefined)");
            },
        }
        r
    }
}

impl Token {
    /// The text that shows the token.
    pub fn to_text(&self) -> (r: String)
        ensures
            r@ == self@.text(),
        decreases self,
    {
        match self {
            Token::Const(n) => n.to_text(),
            Token::Variable(v) => v.to_text(),
            Token::Functor(f) => f.to_text(),
            Token::String(s) => s.clone(),
        }
    }

    /// The number that the token stands for as an operand, if it stands for
    /// one.
    pub fn to_number(&self) -> (r: Option<Number>)
        ensures
            r.deep_view() == self@.number(),
        decreases self,
    {
        match self {
            Token::Const(n) => Some(n.clone()),
            Token::Variable(v) => match &v.value {
                Some(t) => (&**t).to_number(),
                None => None,
            },
            _ => None,
        }
    }

    /// Whether the token is a callable function.
    pub fn is_functor(&self) -> (r: bool)
        ensures
            r == (self@ is Functor),
    {
        match self {
            Token::Functor(_) => true,
            _ => false,
        }
    }
}

/// A copy of a list of tokens.
pub fn clone_tokens(tokens: &Vec<Token>) -> (r: Vec<Token>)
    ensures
        r.deep_view() == tokens.deep_view(),
{
    let mut r: Vec<Token> = Vec::new();
    let mut i: usize = 0;
    while i < tokens.len()
        invariant
            i <= tokens.len(),
            r.len() == i,
            forall|j: int| 0 <= j < i ==> (#[trigger] r[j])@ == tokens[j]@,
        decreases tokens.len() - i,
    {
        r.push(tokens[i].clone());
        i += 1;
    }
    r
}

/// A copy of a list of token lines.
pub fn clone_lines(lines: &Vec<Vec<Token>>) -> (r: Vec<Vec<Token>>)
    ensures
        r.deep_view() == lines.deep_view(),
{
    let mut r: Vec<Vec<Token>> = Vec::new();
    let mut i: usize = 0;
    while i < lines.len()
        invariant
            i <= lines.len(),
            r.len() == i,
            forall|j: int| 0 <= j < i ==> (#[trigger] r[j]).deep_view() == lines[j].deep_view(),
        decreases lines.len() - i,
    {
        r.push(clone_tokens(&lines[i]));
        i += 1;
    }
    r
}

impl Clone for Functor {
    fn clone(&self) -> (r: Self)
        ensures
            r@ == self@,
    {
        Functor { name: self.name.clone(), func: self.func }
    }
}

impl Clone for Variable {
    fn clone(&self) -> (r: Self)
        ensures
            r@ == self@,
        decreases self,
    {
        let value = match &self.value {
            Some(b) => Some(Box::new((&**b).clone())),
            None => None,
        };
        Variable { name: self.name.clone(), value }
    }
}

impl Clone for Token {
    fn clone(&self) -> (r: Self)
        ensures
            r@ == self@,
        decreases self,
    {
        match self {
            Token::Const(n) => Token::Const(n.clone()),
            Token::Variable(v) => Token::Variable(v.clone()),
            Token::Functor(f) => Token::Functor(f.clone()),
            Token::String(s) => Token::String(s.clone()),
        }
    }
}

impl PartialEq for Functor {
    /// Whether two bindings have the same name and the same operation.
    fn eq(&self, other: &Self) -> (r: bool) {
        self.name == other.name && self.func == other.func
    }
}

impl vstd::std_specs::cmp::PartialEqSpecImpl for Functor {
    open spec fn obeys_eq_spec() -> bool {
        true
    }

    open spec fn eq_spec(&self, other: &Self) -> bool {
        self@ == other@
    }
}

impl PartialEq for Variable {
    /// Whether two variables have equal names and equal values.
    fn eq(&self, other: &Self) -> (r: bool)
        decreases self,
    {
        if self.name != other.name {
            return false;
        }
        match (&self.value, &other.value) {
            (Some(x), Some(y)) => **x == **y,
            (None, None) => true,
            _ => false,
        }
    }
}

impl vstd::std_specs::cmp::PartialEqSpecImpl for Variable {
    open spec fn obeys_eq_spec() -> bool {
        true
    }

    open spec fn eq_spec(&self, other: &Self) -> bool {
        self@.same(other@)
    }
}

impl PartialEq for Token {
    /// Whether two tokens are equal: same variant, and equal contents.
    fn eq(&self, other: &Self) -> (r: bool)
        decreases self,
    {
        match (self, other) {
            (Token::Const(a), Token::Const(b)) => *a == *b,
            (Token::Variable(a), Token::Variable(b)) => *a == *b,
            (Token::Functor(a), Token::Functor(b)) => *a == *b,
            (Token::String(a), Token::String(b)) => *a == *b,
            _ => false,
        }
    }
}

impl vstd::std_specs::cmp::PartialEqSpecImpl for Token {
    open spec fn obeys_eq_spec() -> bool {
        true
    }

    open spec fn eq_spec(&self, other: &Self) -> bool {
        self@.same(other@)
    }
}

} // verus!
