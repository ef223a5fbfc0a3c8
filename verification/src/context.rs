//! The runtime context: the variables that are bound and the functions that
//! are registered.

use vstd::prelude::*;
use crate::token_defs::Builtin;
use crate::token_defs::Functor;
use crate::token_defs::FunctorView;
use crate::token_defs::Variable;
use crate::token_defs::VariableView;

verus! {

/// The mathematical model of a [`Context`].
pub struct ContextView {
    pub variables: Seq<VariableView>,
    pub functions: Seq<FunctorView>,
}

/// The variables and functions that are known while a program runs.  Names
/// need not be unique: a lookup takes the first binding in list order.
#[derive(Debug)]
pub struct Context {
    pub variables: Vec<Variable>,
    pub functions: Vec<Functor>,
}

impl View for Context {
    type V = ContextView;

    open spec fn view(&self) -> ContextView {
        ContextView {
            variables: self.variables.deep_view(),
            functions: self.functions.deep_view(),
        }
    }
}

impl DeepView for Context {
    type V = ContextView;

    open spec fn deep_view(&self) -> ContextView {
        self@
    }
}

/// `i` is the first position in `vars` whose variable has the name `name`.
pub open spec fn is_first_variable(vars: Seq<VariableView>, name: Seq<char>, i: int) -> bool {
    &&& 0 <= i < vars.len()
    &&& vars[i].name == name
    &&& forall|j: int| 0 <= j < i ==> (#[trigger] vars[j]).name != name
}

/// The first variable with the given name, if there is one.
pub open spec fn lookup_variable(vars: Seq<VariableView>, name: Seq<char>) -> Option<
    VariableView,
> {
    if exists|i: int| is_first_variable(vars, name, i) {
        Some(vars[choose|i: int| is_first_variable(vars, name, i)])
    } else {
        None
    }
}

/// `i` is the first position in `funcs` whose function has the name `name`.
pub open spec fn is_first_function(funcs: Seq<FunctorView>, name: Seq<char>, i: int) -> bool {
    &&& 0 <= i < funcs.len()
    &&& funcs[i].name == name
    &&& forall|j: int| 0 <= j < i ==> (#[trigger] funcs[j]).name != name
}

/// The first function with the given name, if there is one.
pub open spec fn lookup_function(funcs: Seq<FunctorView>, name: Seq<char>) -> Option<
    FunctorView,
> {
    if exists|i: int| is_first_function(funcs, name, i) {
        Some(funcs[choose|i: int| is_first_function(funcs, name, i)])
    } else {
        None
    }
}

/// A lookup finds the variable at the first position with the name.
pub proof fn lemma_lookup_variable_at(vars: Seq<VariableView>, name: Seq<char>, i: int)
    requires
        is_first_variable(vars, name, i),
    ensures
        lookup_variable(vars, name) == Some(vars[i]),
{
}

/// A lookup finds nothing where no variable has the name.
pub proof fn lemma_lookup_variable_none(vars: Seq<VariableView>, name: Seq<char>)
    requires
        forall|j: int| 0 <= j < vars.len() ==> (#[trigger] vars[j]).name != name,
    ensures
        lookup_variable(vars, name) is None,
{
}

/// A lookup finds the function at the first position with the name.
pub proof fn lemma_lookup_function_at(funcs: Seq<FunctorView>, name: Seq<char>, i: int)
    requires
        is_first_function(funcs, name, i),
    ensures
        lookup_function(funcs, name) == Some(funcs[i]),
{
}

/// The built-in functions, in the order in which they are registered.
pub open spec fn default_functions() -> Seq<FunctorView> {
    seq![
        FunctorView { name: "+"@, func: Builtin::Add },
        FunctorView { name: "-"@, func: Builtin::Sub },
        FunctorView { name: "*"@, func: Builtin::Mul },
        FunctorView { name: "Print"@, func: Builtin::Print },
        FunctorView { name: "Exit"@, func: Builtin::Exit },
        FunctorView { name: "Nop"@, func: Builtin::Nop },
        FunctorView { name: "Clear"@, func: Builtin::Clear },
        FunctorView { name: ":="@, func: Builtin::Assign },
        FunctorView { name: "=:"@, func: Builtin::RevAssign },
        FunctorView { name: "&"@, func: Builtin::Deassign },
    ]
}

impl Context {
    /// A context without variables and without functions.
    pub fn new() -> (r: Self)
        ensures
            r@.variables == Seq::<VariableView>::empty(),
            r@.functions == Seq::<FunctorView>::empty(),
    {
        Context { variables: Vec::new(), functions: Vec::new() }
    }

    /// The position of the first variable with the given name.
    pub fn find_variable(&self, name: &String) -> (r: Option<usize>)
        ensures
            match r {
                Some(i) => is_first_variable(self@.variables, name@, i as int),
                None => lookup_variable(self@.variables, name@) is None,
            },
            r is Some <==> lookup_variable(self@.variables, name@) is Some,
            r matches Some(i) ==> lookup_variable(self@.variables, name@) == Some(
                self.variables[i as int]@,
            ),
    {
        let mut i: usize = 0;
        while i < self.variables.len()
            invariant
                i <= self.variables.len(),
                forall|j: int| 0 <= j < i ==> (#[trigger] self@.variables[j]).name != name@,
            decreases self.variables.len() - i,
        {
            if self.variables[i].name == *name {
                proof {
                    lemma_lookup_variable_at(self@.variables, name@, i as int);
                }
                return Some(i);
            }
            i += 1;
        }
        proof {
            lemma_lookup_variable_none(self@.variables, name@);
        }
        None
    }

    /// The position of the first function with the given name.
    pub fn find_function(&self, name: &String) -> (r: Option<usize>)
        ensures
            match r {
                Some(i) => is_first_function(self@.functions, name@, i as int),
                None => lookup_function(self@.functions, name@) is None,
            },
            r is Some <==> lookup_function(self@.functions, name@) is Some,
            r matches Some(i) ==> lookup_function(self@.functions, name@) == Some(
                self.functions[i as int]@,
            ),
    {
        let mut i: usize = 0;
        while i < self.functions.len()
            invariant
                i <= self.functions.len(),
                forall|j: int| 0 <= j < i ==> (#[trigger] self@.functions[j]).name != name@,
            decreases self.functions.len() - i,
        {
            if self.functions[i].name == *name {
                proof {
                    lemma_lookup_function_at(self@.functions, name@, i as int);
                }
                return Some(i);
            }
            i += 1;
        }
        None
    }
}

/// The default set of functions, in their fixed order.
pub fn get_default_functions() -> (r: Vec<Functor>)
    ensures
        r.deep_view() == default_functions(),
{
    let mut table: Vec<Functor> = Vec::new();
    table.push(Functor { name: "+".to_owned(), func: Builtin::Add });
    table.push(Functor { name: "-".to_owned(), func: Builtin::Sub });
    table.push(Functor { name: "*".to_owned(), func: Builtin::Mul });
    table.push(Functor { name: "Print".to_owned(), func: Builtin::Print });
    table.push(Functor { name: "Exit".to_owned(), func: Builtin::Exit });
    table.push(Functor { name: "Nop".to_owned(), func: Builtin::Nop });
    table.push(Functor { name: "Clear".to_owned(), func: Builtin::Clear });
    table.push(Functor { name: ":=".to_owned(), func: Builtin::Assign });
    table.push(Functor { name: "=:".to_owned(), func: Builtin::RevAssign });
    table.push(Functor { name: "&".to_owned(), func: Builtin::Deassign });
    table
}

/// A context without variables that knows the default functions.
pub fn default_context() -> (r: Context)
    ensures
        r@.variables == Seq::<VariableView>::empty(),
        r@.functions == default_functions(),
{
    Context { variables: Vec::new(), functions: get_default_functions() }
}

impl Clone for Context {
    fn clone(&self) -> (r: Self)
        ensures
            r@ == self@,
    {
        let mut variables: Vec<Variable> = Vec::new();
        let mut i: usize = 0;
        while i < self.variables.len()
            invariant
                i <= self.variables.len(),
                variables.len() == i,
                forall|j: int| 0 <= j < i ==> (#[trigger] variables[j])@ == self.variables[j]@,
            decreases self.variables.len() - i,
        {
            variables.push(self.variables[i].clone());
            i += 1;
        }
        let mut functions: Vec<Functor> = Vec::new();
        let mut k: usize = 0;
        while k < self.functions.len()
            invariant
                k <= self.functions.len(),
                functions.len() == k,
                forall|j: int| 0 <= j < k ==> (#[trigger] functions[j])@ == self.functions[j]@,
            decreases self.functions.len() - k,
        {
            functions.push(self.functions[k].clone());
            k += 1;
        }
        let r = Context { variables, functions };
        assert(r@.variables == self@.variables);
        assert(r@.functions == self@.functions);
        r
    }
}

} // verus!
