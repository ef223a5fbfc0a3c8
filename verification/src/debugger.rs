//! Snapshots of an executor and stepping through a program line by line.

use vstd::prelude::*;
use crate::context::Context;
use crate::context::ContextView;
use crate::error::ExecError;
use crate::stack_machine::run_line;
use crate::stack_machine::BufferedExecutor;
use crate::stack_machine::ExecutorView;
use crate::stack_machine::Ran;
use crate::stack_machine::RevPolStackMachine;
use crate::token_defs::clone_lines;
use crate::token_defs::clone_tokens;
use crate::token_defs::Token;
use crate::token_defs::TokenView;

verus! {

/// What an executor looks like at one moment.
#[derive(Debug)]
pub struct RevPolBufSnapshot {
    pub stack_machine_stack: Vec<Token>,
    pub stack_machine_ctx: Context,
    pub lines: Vec<Vec<Token>>,
    pub current_line: usize,
    pub machine_is_complete: bool,
    pub last_result: Option<Result<(), ExecError>>,
}

/// The mathematical model of a [`RevPolBufSnapshot`].
pub struct SnapshotView {
    pub stack: Seq<TokenView>,
    pub context: ContextView,
    pub lines: Seq<Seq<TokenView>>,
    pub current_line: nat,
    pub machine_is_complete: bool,
    pub last_result: Option<Result<(), ExecError>>,
}

impl View for RevPolBufSnapshot {
    type V = SnapshotView;

    open spec fn view(&self) -> SnapshotView {
        SnapshotView {
            stack: self.stack_machine_stack.deep_view(),
            context: self.stack_machine_ctx@,
            lines: self.lines.deep_view(),
            current_line: self.current_line as nat,
            machine_is_complete: self.machine_is_complete,
            last_result: self.last_result,
        }
    }
}

/// The snapshot of an executor, shown with the given lines and the given
/// last result.
pub open spec fn snapshot_of(
    e: ExecutorView,
    lines: Seq<Seq<TokenView>>,
    last_result: Option<Result<(), ExecError>>,
) -> SnapshotView {
    SnapshotView {
        stack: e.machine.stack,
        context: e.machine.context,
        lines,
        current_line: e.current_line,
        machine_is_complete: e.current_line == e.lines.len(),
        last_result,
    }
}

impl RevPolBufSnapshot {
    /// The snapshot of an executor, without a last result.
    pub fn from_machine(machine: &BufferedExecutor, lines: Vec<Vec<Token>>) -> (r:
        RevPolBufSnapshot)
        ensures
            r@ == snapshot_of(machine@, lines.deep_view(), None),
    {
        RevPolBufSnapshot {
            stack_machine_stack: clone_tokens(&machine.machine.stack),
            stack_machine_ctx: machine.machine.context.clone(),
            lines,
            current_line: machine.current_line,
            machine_is_complete: machine.machine_is_complete(),
            last_result: None,
        }
    }

    /// The snapshot of an executor after a line has been run with `result`.
    pub fn from_machine_with_result(
        machine: &BufferedExecutor,
        lines: Vec<Vec<Token>>,
        result: Result<(), ExecError>,
    ) -> (r: RevPolBufSnapshot)
        ensures
            r@ == snapshot_of(machine@, lines.deep_view(), Some(result)),
    {
        RevPolBufSnapshot {
            stack_machine_stack: clone_tokens(&machine.machine.stack),
            stack_machine_ctx: machine.machine.context.clone(),
            lines,
            current_line: machine.current_line,
            machine_is_complete: machine.machine_is_complete(),
            last_result: Some(result),
        }
    }

    /// Whether the last line that was run has failed.
    pub fn is_error(&self) -> (r: bool)
        ensures
            r == (self@.last_result matches Some(Err(_))),
    {
        match self.last_result {
            Some(Err(_)) => true,
            _ => false,
        }
    }
}

/// Something that can be run in single steps, with a snapshot after each.
pub trait IntoDebugger<Snapshot>: Sized {
    /// The value is in a state that its own functions have produced.
    spec fn valid(&self) -> bool;

    /// There is no step left to take.
    spec fn done(&self) -> bool;

    /// `snapshot` shows the value as it is.
    spec fn shows(&self, snapshot: Snapshot) -> bool;

    /// One step leads from this value to `after`, and `snapshot` shows
    /// `after` together with the result of the step.
    spec fn steps_to(&self, after: Self, snapshot: Snapshot) -> bool;

    /// Takes one step and hands back a snapshot taken after it.
    fn next_with_snapshot(&mut self) -> (r: Snapshot)
        requires
            old(self).valid(),
            !old(self).done(),
        ensures
            final(self).valid(),
            old(self).steps_to(*final(self), r),
    ;

    /// A snapshot of the value as it is.
    fn static_snapshot(&self) -> (r: Snapshot)
        ensures
            self.shows(r),
    ;

    /// Whether there is no step left to take.
    fn is_done(&self) -> (r: bool)
        ensures
            r == self.done(),
    ;
}

/// An executor that is run one line at a time.
pub struct BufExecDebugger(BufferedExecutor);

impl View for BufExecDebugger {
    type V = ExecutorView;

    closed spec fn view(&self) -> ExecutorView {
        self.0@
    }
}

impl BufExecDebugger {
    /// A debugger for the given executor.
    pub fn new(executor: BufferedExecutor) -> (r: Self)
        ensures
            r@ == executor@,
    {
        Self(executor)
    }

    /// A debugger for a machine at the first line of a program.
    pub fn new_machine(inner: RevPolStackMachine, lines: Vec<Vec<Token>>) -> (r: Self)
        ensures
            r@.machine == inner@,
            r@.lines == lines.deep_view(),
            r@.current_line == 0,
    {
        Self(BufferedExecutor::new(inner, lines))
    }

    /// Whether every line has been run.
    pub fn machine_is_complete(&self) -> (r: bool)
        ensures
            r == (self@.current_line == self@.lines.len()),
    {
        self.0.machine_is_complete()
    }

    /// Whether a function has ended the run.
    pub fn halted(&self) -> (r: bool)
        ensures
            r == self@.machine.halted,
    {
        self.0.machine.halted
    }

    /// The lines of text that the program has emitted so far, oldest first.
    pub fn output(&self) -> (r: Vec<String>)
        ensures
            r.deep_view() == self@.machine.output,
    {
        let mut r: Vec<String> = Vec::new();
        let mut i: usize = 0;
        while i < self.0.machine.output.len()
            invariant
                i <= self.0.machine.output.len(),
                r.len() == i,
                forall|j: int| 0 <= j < i ==> (#[trigger] r[j])@ == self.0.machine.output[j]@,
            decreases self.0.machine.output.len() - i,
        {
            r.push(self.0.machine.output[i].clone());
            i += 1;
        }
        r
    }

    /// Runs the current line.
    pub fn run_line(&mut self) -> (r: Result<(), ExecError>)
        requires
            old(self)@.current_line < old(self)@.lines.len(),
        ensures
            run_line(old(self)@) == (Ran { executor: final(self)@, result: r }),
            final(self)@.current_line <= final(self)@.lines.len(),
    {
        self.0.run_line()
    }
}

impl IntoDebugger<RevPolBufSnapshot> for BufExecDebugger {
    open spec fn valid(&self) -> bool {
        self@.current_line <= self@.lines.len()
    }

    open spec fn done(&self) -> bool {
        self@.current_line == self@.lines.len() || self@.machine.halted
    }

    open spec fn shows(&self, snapshot: RevPolBufSnapshot) -> bool {
        snapshot@ == snapshot_of(self@, self@.lines, None)
    }

    open spec fn steps_to(&self, after: Self, snapshot: RevPolBufSnapshot) -> bool {
        &&& run_line(self@).executor == after@
        &&& snapshot@ == snapshot_of(after@, after@.lines, Some(run_line(self@).result))
    }

    fn is_done(&self) -> (r: bool) {
        self.machine_is_complete() || self.0.machine.halted
    }

    fn next_with_snapshot(&mut self) -> (r: RevPolBufSnapshot) {
        let result = self.run_line();
        let mut snap = self.static_snapshot();
        snap.last_result = Some(result);
        snap
    }

    fn static_snapshot(&self) -> (r: RevPolBufSnapshot) {
        RevPolBufSnapshot::from_machine(&self.0, clone_lines(&self.0.lines))
    }
}

/// Walks through the steps of a debugger, one snapshot per step.
pub struct Stepper<W, T: IntoDebugger<W>> {
    pub inner: T,
    phantom: core::marker::PhantomData<W>,
}

impl<W, T: IntoDebugger<W>> View for Stepper<W, T> {
    type V = T;

    closed spec fn view(&self) -> T {
        self.inner
    }
}

impl<W, T: IntoDebugger<W>> Stepper<W, T> {
    /// A stepper over the given debugger.
    pub fn new(inner: T) -> (r: Self)
        ensures
            r@ == inner,
    {
        Self { inner, phantom: core::marker::PhantomData }
    }

    /// Takes the next step, if there is one left, and hands back the
    /// snapshot taken after it.
    pub fn next(&mut self) -> (r: Option<W>)
        requires
            old(self)@.valid(),
        ensures
            final(self)@.valid(),
            match r {
                None => old(self)@.done() && final(self)@ == old(self)@,
                Some(w) => !old(self)@.done() && old(self)@.steps_to(final(self)@, w),
            },
    {
        if self.inner.is_done() {
            return None;
        }
        Some(self.inner.next_with_snapshot())
    }
}

} // verus!
