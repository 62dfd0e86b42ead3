//! An embeddable procedural virtual machine.
//!
//! A host builds a table of function bodies, each a sequence of [`data::Instr`], and
//! hands it to [`run`] together with a mutable environment of its own. The machine
//! provides calls and returns, jumps and branches, locals per frame and one parameter
//! channel; computation and side effects are the host's, through callbacks planted in
//! the instructions.
//!
//! What a program means is written down in [`semantics`] as a relation between states.
//! [`run`] is proved to hand back only what that relation allows, and [`theorems`] holds
//! what follows for every program.

pub mod data;
pub mod error;
mod engine;
pub mod host;
pub mod labels;
pub mod semantics;
pub mod theorems;

use crate::data::{Data, Instr};
use crate::engine::Machine;
use crate::error::{RunError, VmError};
use crate::labels::{index_program, labels_distinct};
use crate::semantics::{callbacks_total, results_in, runs, State};
use std::collections::HashMap;
use vstd::prelude::*;

verus! {

/// The number of steps after which [`run`] abandons a program that has not finished.
///
/// It is the largest budget there is. A machine that takes a step every nanosecond
/// spends more than five centuries before it gets there.
pub const STEP_LIMIT: u64 = 0xffff_ffff_ffff_ffff;

/// Runs the program `func_defs` against `env`, for at most `budget` steps.
///
/// The table maps the number of each function to its body; function 0 is the entry.
/// Before anything is executed the run fails with `FunctionDoesNotExist(0)` where the
/// table has no entry function, and else with `RedefinitionOfLabel` where some body,
/// called or not, defines a label twice.
///
/// Execution starts at the first instruction of function 0, with nothing bound, and ends
/// when that function returns or runs off its body. The result is what the last executed
/// return wrote to the return slot, if any did. Every error ends the run at once, a
/// callback's as well as the machine's; the environment is then left as the callbacks
/// that ran have left it. One step is the execution of one instruction, or the leaving
/// of a function whose body is exhausted; a program that has not ended after `budget`
/// steps is abandoned with `OutOfSteps`.
///
/// Every callback of the program must be callable on every input. Closures of ordinary
/// Rust are.
pub fn run_bounded<T: Clone, Env, E>(
    func_defs: &HashMap<usize, Vec<Instr<T, Env, E>>>,
    env: &mut Env,
    budget: u64,
) -> (verdict: Result<Option<Data<T>>, RunError<E>>)
    requires
        callbacks_total(func_defs@),
    ensures
        results_in(func_defs@, budget as nat, *old(env), verdict, *final(env)),
{
    let ghost program = func_defs@;
    if !func_defs.contains_key(&0) {
        return Err(RunError::Vm(VmError::FunctionDoesNotExist(0)));
    }
    let table = match index_program(func_defs) {
        Ok(table) => table,
        Err(e) => {
            return Err(RunError::Vm(e));
        },
    };
    let mut machine = Machine::new(&table, Ghost(program));
    let mut left: u64 = budget;
    while left > 0
        invariant
            program == func_defs@,
            program.contains_key(0),
            forall|f: usize| program.contains_key(f) ==> labels_distinct(program[f]@),
            callbacks_total(program),
            machine.inv(program),
            // Whatever the rest of the run can end with, the whole run can end with.
            forall|verdict: Result<Option<Data<T>>, RunError<E>>, after: Env|
                runs(program, machine.state(*env), left as nat, verdict, after) ==> runs(
                    program,
                    State::initial(*old(env)),
                    budget as nat,
                    verdict,
                    after,
                ),
        decreases left,
    {
        match machine.step(env, Ghost(program)) {
            Some(verdict) => {
                return verdict;
            },
            None => {
                left -= 1;
            },
        }
    }
    Err(RunError::OutOfSteps)
}

/// Runs the program `func_defs` against `env`, for at most [`STEP_LIMIT`] steps.
///
/// See [`run_bounded`] for what a run does.
pub fn run<T: Clone, Env, E>(
    func_defs: &HashMap<usize, Vec<Instr<T, Env, E>>>,
    env: &mut Env,
) -> (verdict: Result<Option<Data<T>>, RunError<E>>)
    requires
        callbacks_total(func_defs@),
    ensures
        results_in(func_defs@, STEP_LIMIT as nat, *old(env), verdict, *final(env)),
{
    run_bounded(func_defs, env, STEP_LIMIT)
}

} // verus!
