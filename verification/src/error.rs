//! The failures that classification, evaluation and execution report.

use vstd::prelude::*;

verus! {

/// A word that is neither a literal nor a known name.
#[derive(Debug, PartialEq)]
pub enum ClassifyError {
    /// The word cannot be resolved to any known form.
    UnqualifiedToken(String),
}

/// The model of a [`ClassifyError`].
pub enum ClassifyErrorView {
    UnqualifiedToken(Seq<char>),
}

impl View for ClassifyError {
    type V = ClassifyErrorView;

    open spec fn view(&self) -> ClassifyErrorView {
        match self {
            ClassifyError::UnqualifiedToken(word) => ClassifyErrorView::UnqualifiedToken(word@),
        }
    }
}

impl DeepView for ClassifyError {
    type V = ClassifyErrorView;

    open spec fn deep_view(&self) -> ClassifyErrorView {
        self@
    }
}

/// Why a function could not do its work.
#[derive(Clone, Copy, Debug, PartialEq, Eq, Structural)]
pub enum EvalError {
    /// The function asked for an argument and the stack was empty, or its
    /// top was of the wrong variant.
    StackUnderflow,
    /// No binding equals the variable that was to be removed.
    UnknownVariableForDeletion,
}

/// Why a run ended early.
#[derive(Clone, Copy, Debug, PartialEq, Eq, Structural)]
pub enum ExecError {
    /// A step failed while the line with this index was run.
    LineExecutionFailed { line: usize, cause: EvalError },
}

} // verus!
