//! A reverse-Polish-notation stack machine: words are classified into
//! tokens, tokens are evaluated on a stack against a context of variables
//! and functions, and a program is run line by line on one persistent stack.

use vstd::prelude::*;

pub mod context;
pub mod debugger;
pub mod default_ctx_content;
pub mod error;
pub mod float_word;
pub mod laws;
pub mod number;
pub mod parse_rpol_notation;
pub mod stack_machine;
pub mod text;
pub mod token_defs;

verus! {

/// The hook that a paused program calls.  Without a debugger attached there
/// is nothing to wait for.
pub fn debugger_pause() {
}

} // verus!
