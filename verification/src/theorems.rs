//! What holds of every program, every state and every run.

use crate::data::{data_cloned, Data, Instr, Symbol};
use crate::error::{RunError, VmError};
use crate::labels::{
    first_redefinition, label_at, labels_distinct, redefines, redefinition_at,
};
use crate::semantics::{
    fetched, follows, reads, results_in, runs, steps, Program, State, Step, Verdict,
};
use vstd::prelude::*;

verus! {

/// Whether the host's `clone` hands back a value equal to the one it was given.
pub open spec fn clone_is_exact<T: Clone>() -> bool {
    forall|a: T, b: T| cloned(a, b) ==> a == b
}

/// A program with a body that defines a label twice is rejected with `RedefinitionOfLabel`
/// before anything is executed, whatever the budget, provided it has an entry function:
/// without one the run fails with `FunctionDoesNotExist(0)` first. The error names a body
/// that defines a label twice and the label at the first position in it that repeats one.
pub proof fn theorem_repeated_label_is_rejected<T: Clone, Env, E>(
    program: Program<T, Env, E>,
    budget: nat,
    before: Env,
    verdict: Verdict<T, E>,
    after: Env,
    f: usize,
    i: int,
    j: int,
)
    requires
        results_in(program, budget, before, verdict, after),
        program.contains_key(0),
        program.contains_key(f),
        0 <= i < j,
        label_at(program[f]@, i) is Some,
        label_at(program[f]@, i) == label_at(program[f]@, j),
    ensures
        verdict matches Err(RunError::Vm(VmError::RedefinitionOfLabel { .. })),
        exists|g: usize, k: int|
            program.contains_key(g) && first_redefinition(program[g]@, k) && verdict == Err::<
                Option<Data<T>>,
                RunError<E>,
            >(RunError::Vm(redefinition_at(g, program[g]@, k))),
        after == before,
{
    assert(redefines(program[f]@, j));
}

/// A step touches the locals of the running frame only. It either stays in the running
/// frame and leaves the waiting ones as they are, or enters a callee with fresh locals
/// and saves the caller's as they are, or drops the running frame's locals and resumes
/// the most recent caller with the locals that were saved for it.
pub proof fn theorem_step_respects_frames<T: Clone, Env, E>(
    program: Program<T, Env, E>,
    s: State<T, Env>,
    n: State<T, Env>,
)
    requires
        steps(program, s, Step::<T, Env, E>::Next(n)),
    ensures
        ({
            ||| n.func == s.func && n.stack == s.stack
            ||| n == s.entered(n.func) && fetched(program, s) matches Some(Instr::Call(_))
            ||| s.stack.len() > 0 && n == s.resumed(n.ret)
        }),
{
}

/// A step never leaves the program: from a state all of whose frames belong to functions
/// of the program the machine reaches only such states.
pub proof fn theorem_step_stays_within<T: Clone, Env, E>(
    program: Program<T, Env, E>,
    s: State<T, Env>,
    n: State<T, Env>,
)
    requires
        s.within(program),
        steps(program, s, Step::<T, Env, E>::Next(n)),
    ensures
        n.within(program),
{
}

/// Running off the end of a body does not write the return slot: the caller resumes with
/// the slot as it was, and where nobody waits the run ends with what the slot holds.
pub proof fn theorem_fall_through_keeps_return_slot<T: Clone, Env, E>(
    program: Program<T, Env, E>,
    s: State<T, Env>,
    o: Step<T, Env, E>,
)
    requires
        steps(program, s, o),
        fetched(program, s) is None,
    ensures
        match o {
            Step::Next(n) => s.stack.len() > 0 && n == s.resumed(s.ret),
            Step::End(verdict, env) => s.stack.len() == 0 && verdict == Ok::<
                Option<Data<T>>,
                RunError<E>,
            >(s.ret) && env == s.env,
        },
{
}

/// Nothing but a return instruction writes the return slot.
pub proof fn theorem_only_return_writes_return_slot<T: Clone, Env, E>(
    program: Program<T, Env, E>,
    s: State<T, Env>,
    n: State<T, Env>,
)
    requires
        steps(program, s, Step::<T, Env, E>::Next(n)),
        !(fetched(program, s) matches Some(Instr::Return(_))),
    ensures
        n.ret == s.ret,
{
}

/// A return instruction after which the machine goes on has put a copy of its local into
/// the return slot and resumed the caller.
pub proof fn theorem_return_writes_return_slot<T: Clone, Env, E>(
    program: Program<T, Env, E>,
    s: State<T, Env>,
    n: State<T, Env>,
    sym: Symbol,
)
    requires
        steps(program, s, Step::<T, Env, E>::Next(n)),
        fetched(program, s) matches Some(Instr::Return(x)) && x == sym,
    ensures
        s.stack.len() > 0,
        n == s.resumed(n.ret),
        n.ret matches Some(data) && reads(s, sym, data),
{
}

/// Loading from the return slot binds the local to a copy of what the slot holds.
pub proof fn theorem_load_from_return_reads_return_slot<T: Clone, Env, E>(
    program: Program<T, Env, E>,
    s: State<T, Env>,
    n: State<T, Env>,
    target: Symbol,
)
    requires
        steps(program, s, Step::<T, Env, E>::Next(n)),
        fetched(program, s) matches Some(Instr::LoadFromReturn(x)) && x == target,
    ensures
        s.ret matches Some(ret) && n.locals.contains_key(target.0) && data_cloned(
            ret,
            n.locals[target.0],
        ),
        n == s.bound(target, n.locals[target.0]),
{
}

/// While a callee runs, the frames that waited when it was called stay as they are.
///
/// `trace` starts in the state that executes the call. As long as the stack stays deeper
/// than it was there, its lower part is the caller's stack with the caller's frame on top.
proof fn lemma_callee_keeps_lower_stack<T: Clone, Env, E>(
    program: Program<T, Env, E>,
    trace: Seq<State<T, Env>>,
    k: int,
)
    requires
        follows(program, trace),
        1 <= k < trace.len(),
        forall|i: int| 1 <= i <= k ==> (#[trigger] trace[i]).stack.len() > trace[0].stack.len(),
    ensures
        trace[k].stack.take(trace[0].stack.len() as int + 1) == trace[0].stack.push(
            trace[0].saved(),
        ),
    decreases k,
{
    if k == 1 {
        theorem_step_respects_frames(program, trace[0], trace[1]);
    } else {
        lemma_callee_keeps_lower_stack(program, trace, k - 1);
        theorem_step_respects_frames(program, trace[k - 1], trace[k]);
    }
}

/// What a callee binds is not observable in its caller: when a call has run its course,
/// the caller resumes behind the call with exactly the locals and the waiting frames it
/// had when it made the call, whatever the callee and the functions it called did to
/// their own.
///
/// `trace` starts in the state that makes the call and ends in the first state whose
/// stack is as deep again as it was there.
pub proof fn theorem_call_preserves_caller<T: Clone, Env, E>(
    program: Program<T, Env, E>,
    trace: Seq<State<T, Env>>,
)
    requires
        follows(program, trace),
        trace.len() >= 3,
        forall|i: int|
            1 <= i < trace.len() - 1 ==> (#[trigger] trace[i]).stack.len()
                > trace[0].stack.len(),
        trace.last().stack.len() == trace[0].stack.len(),
    ensures
        trace.last().func == trace[0].func,
        trace.last().ip == trace[0].ip + 1,
        trace.last().locals == trace[0].locals,
        trace.last().stack == trace[0].stack,
{
    let k = trace.len() - 2;
    lemma_callee_keeps_lower_stack(program, trace, k);
    theorem_step_respects_frames(program, trace[k], trace[k + 1]);
}

/// What a return wrote is what the next load from the return slot finds, however many
/// steps lie between them, as long as none of them is another return.
///
/// `trace` starts in the state that executes `Return(sym)` and ends in the state after
/// `LoadFromReturn(target)`. The local bound there is a copy of the copy that the return
/// took of its local; where the host's `clone` is exact it is that local's value.
pub proof fn theorem_return_reaches_load<T: Clone, Env, E>(
    program: Program<T, Env, E>,
    trace: Seq<State<T, Env>>,
    sym: Symbol,
    target: Symbol,
)
    requires
        follows(program, trace),
        trace.len() >= 3,
        fetched(program, trace[0]) matches Some(Instr::Return(x)) && x == sym,
        forall|i: int|
            1 <= i < trace.len() - 1 ==> !(fetched(program, #[trigger] trace[i]) matches Some(
                Instr::Return(_),
            )),
        fetched(program, trace[trace.len() - 2]) matches Some(Instr::LoadFromReturn(x)) && x
            == target,
    ensures
        trace[1].ret matches Some(returned) && reads(trace[0], sym, returned)
            && trace.last().locals.contains_key(target.0) && data_cloned(
            returned,
            trace.last().locals[target.0],
        ),
        clone_is_exact::<T>() ==> trace.last().locals[target.0] == trace[0].locals[sym.0],
{
    theorem_return_writes_return_slot(program, trace[0], trace[1], sym);
    let last = trace.len() - 2;
    assert forall|i: int| 1 <= i <= last implies (#[trigger] trace[i]).ret == trace[1].ret by {
        lemma_return_slot_is_kept(program, trace, i);
    }
    theorem_load_from_return_reads_return_slot(program, trace[last], trace[last + 1], target);
}

/// Along steps that execute no return, the return slot keeps what it held.
proof fn lemma_return_slot_is_kept<T: Clone, Env, E>(
    program: Program<T, Env, E>,
    trace: Seq<State<T, Env>>,
    k: int,
)
    requires
        follows(program, trace),
        1 <= k < trace.len(),
        forall|i: int|
            1 <= i < k ==> !(fetched(program, #[trigger] trace[i]) matches Some(Instr::Return(_))),
    ensures
        trace[k].ret == trace[1].ret,
    decreases k,
{
    if k > 1 {
        lemma_return_slot_is_kept(program, trace, k - 1);
        theorem_only_return_writes_return_slot(program, trace[k - 1], trace[k]);
    }
}

/// A push instruction puts a copy of its local on top of the parameter channel and
/// changes nothing else but the instruction pointer.
pub proof fn theorem_push_param_pushes<T: Clone, Env, E>(
    program: Program<T, Env, E>,
    s: State<T, Env>,
    n: State<T, Env>,
    sym: Symbol,
)
    requires
        steps(program, s, Step::<T, Env, E>::Next(n)),
        fetched(program, s) matches Some(Instr::PushParam(x)) && x == sym,
    ensures
        n.params.len() == s.params.len() + 1,
        reads(s, sym, n.params.last()),
        n == s.pushed(n.params.last()),
{
}

/// A pop instruction after which the machine goes on has moved the top of the parameter
/// channel into its local.
pub proof fn theorem_pop_param_pops<T: Clone, Env, E>(
    program: Program<T, Env, E>,
    s: State<T, Env>,
    n: State<T, Env>,
    sym: Symbol,
)
    requires
        steps(program, s, Step::<T, Env, E>::Next(n)),
        fetched(program, s) matches Some(Instr::PopParam(x)) && x == sym,
    ensures
        s.params.len() > 0,
        n == s.popped(sym),
{
}

/// The state after each of `values` was pushed onto the parameter channel of `s`, the
/// first of them first.
pub open spec fn pushed_all<T: Clone, Env>(s: State<T, Env>, values: Seq<Data<T>>) -> State<T, Env>
    decreases values.len(),
{
    if values.len() == 0 {
        s
    } else {
        pushed_all(s, values.drop_last()).pushed(values.last())
    }
}

/// The state after the parameter channel of `s` was popped once into each of `targets`,
/// the first of them first.
pub open spec fn popped_all<T: Clone, Env>(s: State<T, Env>, targets: Seq<Symbol>) -> State<T, Env>
    decreases targets.len(),
{
    if targets.len() == 0 {
        s
    } else {
        popped_all(s, targets.drop_last()).popped(targets.last())
    }
}

/// Pushing puts the values on top of the channel in the order they were pushed.
proof fn lemma_pushed_all_extends_channel<T: Clone, Env>(s: State<T, Env>, values: Seq<Data<T>>)
    ensures
        pushed_all(s, values).params == s.params + values,
    decreases values.len(),
{
    if values.len() > 0 {
        lemma_pushed_all_extends_channel(s, values.drop_last());
    }
}

/// The parameter channel is last in, first out: after `n` values were pushed, the pop
/// number `k` (counting from 0) yields the value pushed at position `n - 1 - k`, and
/// leaves on the channel what was there before the pushes and the values pushed before
/// that one. After `n` pops the channel is as it was before the pushes.
pub proof fn theorem_parameters_are_lifo<T: Clone, Env>(
    s: State<T, Env>,
    values: Seq<Data<T>>,
    targets: Seq<Symbol>,
    k: int,
)
    requires
        targets.len() == values.len(),
        0 <= k < values.len(),
    ensures
        ({
            let after = popped_all(pushed_all(s, values), targets.take(k + 1));
            &&& after.locals.contains_key(targets[k].0)
            &&& after.locals[targets[k].0] == values[values.len() - 1 - k]
            &&& after.params == s.params + values.take(values.len() - 1 - k)
        }),
    decreases k,
{
    let n = values.len() as int;
    let full = pushed_all(s, values);
    let taken = targets.take(k + 1);
    assert(taken.drop_last() =~= targets.take(k));
    let before = popped_all(full, targets.take(k));
    assert(before.params == s.params + values.take(n - k)) by {
        if k == 0 {
            lemma_pushed_all_extends_channel(s, values);
        } else {
            theorem_parameters_are_lifo(s, values, targets, k - 1);
        }
    }
}

/// The environment changes only where a callback that receives it is called: every other
/// step, the last of a run too, leaves it as it was.
pub proof fn theorem_only_sys_calls_touch_environment<T: Clone, Env, E>(
    program: Program<T, Env, E>,
    s: State<T, Env>,
    o: Step<T, Env, E>,
)
    requires
        steps(program, s, o),
        !(fetched(program, s) matches Some(Instr::SysCall(_))),
        !(fetched(program, s) matches Some(Instr::LoadFromSysCall(_, _))),
    ensures
        match o {
            Step::Next(n) => n.env == s.env,
            Step::End(_, env) => env == s.env,
        },
{
}

/// Whether the callback of `instr`, if it carries one, has at most one outcome on each
/// input.
pub open spec fn callback_determined<T: Clone, Env, E>(instr: Instr<T, Env, E>) -> bool {
    match instr {
        Instr::BranchOnTrue(_, predicate) => forall|
            func: usize,
            slots: Map<usize, Data<T>>,
            a: Result<bool, E>,
            b: Result<bool, E>,
        |
            predicate.yields(func, slots, a) && predicate.yields(func, slots, b) ==> a == b,
        Instr::LoadFromExec(_, producer) => forall|
            func: usize,
            slots: Map<usize, Data<T>>,
            a: Result<Data<T>, E>,
            b: Result<Data<T>, E>,
        |
            producer.yields(func, slots, a) && producer.yields(func, slots, b) ==> a == b,
        Instr::SysCall(effect) => forall|
            func: usize,
            slots: Map<usize, Data<T>>,
            env: Env,
            after_a: Env,
            a: Result<(), E>,
            after_b: Env,
            b: Result<(), E>,
        |
            effect.yields(func, slots, env, after_a, a) && effect.yields(
                func,
                slots,
                env,
                after_b,
                b,
            ) ==> after_a == after_b && a == b,
        Instr::LoadFromSysCall(_, producer) => forall|
            func: usize,
            slots: Map<usize, Data<T>>,
            env: Env,
            after_a: Env,
            a: Result<Data<T>, E>,
            after_b: Env,
            b: Result<Data<T>, E>,
        |
            producer.yields(func, slots, env, after_a, a) && producer.yields(
                func,
                slots,
                env,
                after_b,
                b,
            ) ==> after_a == after_b && a == b,
        _ => true,
    }
}

/// Whether nothing is left open in a run of `program`: no body defines a label twice,
/// the host's `clone` is exact and every callback has at most one outcome on each input.
pub open spec fn determined<T: Clone, Env, E>(program: Program<T, Env, E>) -> bool {
    &&& clone_is_exact::<T>()
    &&& forall|f: usize| program.contains_key(f) ==> labels_distinct(#[trigger] program[f]@)
    &&& forall|f: usize, i: int|
        program.contains_key(f) && 0 <= i < program[f]@.len() ==> callback_determined(
            #[trigger] program[f]@[i],
        )
}

/// Where nothing is left open, a state has one successor at most.
pub proof fn theorem_step_is_determined<T: Clone, Env, E>(
    program: Program<T, Env, E>,
    s: State<T, Env>,
    a: Step<T, Env, E>,
    b: Step<T, Env, E>,
)
    requires
        determined(program),
        s.within(program),
        steps(program, s, a),
        steps(program, s, b),
    ensures
        a == b,
{
    let body = program[s.func]@;
    if s.ip < body.len() {
        assert forall|i: int, j: int|
            label_at(body, i) is Some && label_at(body, i) == label_at(body, j) implies i
            == j by {
            if i < j {
                assert(redefines(body, j));
            } else if j < i {
                assert(redefines(body, i));
            }
        }
    }
}

/// Where nothing is left open, a run has one verdict and leaves the environment in one
/// state: the contract of a run then says exactly what it hands back.
pub proof fn theorem_run_is_determined<T: Clone, Env, E>(
    program: Program<T, Env, E>,
    s: State<T, Env>,
    budget: nat,
    verdict_a: Verdict<T, E>,
    env_a: Env,
    verdict_b: Verdict<T, E>,
    env_b: Env,
)
    requires
        determined(program),
        s.within(program),
        runs(program, s, budget, verdict_a, env_a),
        runs(program, s, budget, verdict_b, env_b),
    ensures
        verdict_a == verdict_b,
        env_a == env_b,
    decreases budget,
{
    if budget > 0 {
        let a = choose|o: Step<T, Env, E>|
            steps(program, s, o) && match o {
                Step::Next(next) => runs(program, next, (budget - 1) as nat, verdict_a, env_a),
                Step::End(v, e) => verdict_a == v && env_a == e,
            };
        let b = choose|o: Step<T, Env, E>|
            steps(program, s, o) && match o {
                Step::Next(next) => runs(program, next, (budget - 1) as nat, verdict_b, env_b),
                Step::End(v, e) => verdict_b == v && env_b == e,
            };
        theorem_step_is_determined(program, s, a, b);
        match a {
            Step::Next(next) => {
                theorem_step_stays_within(program, s, next);
                theorem_run_is_determined(
                    program,
                    next,
                    (budget - 1) as nat,
                    verdict_a,
                    env_a,
                    verdict_b,
                    env_b,
                );
            },
            Step::End(_, _) => {},
        }
    }
}

/// Where nothing is left open, a program, a budget and an environment decide what a run
/// hands back and how it leaves the environment.
pub proof fn theorem_result_is_determined<T: Clone, Env, E>(
    program: Program<T, Env, E>,
    budget: nat,
    before: Env,
    verdict_a: Verdict<T, E>,
    after_a: Env,
    verdict_b: Verdict<T, E>,
    after_b: Env,
)
    requires
        determined(program),
        results_in(program, budget, before, verdict_a, after_a),
        results_in(program, budget, before, verdict_b, after_b),
    ensures
        verdict_a == verdict_b,
        after_a == after_b,
{
    if program.contains_key(0) {
        let start = State::<T, Env>::initial(before);
        theorem_run_is_determined(
            program,
            start,
            budget,
            verdict_a,
            after_a,
            verdict_b,
            after_b,
        );
    }
}

/// The budget only cuts runs short: a run that ends for another reason than the budget
/// ends in the same way under every larger budget.
pub proof fn theorem_larger_budget_keeps_verdict<T: Clone, Env, E>(
    program: Program<T, Env, E>,
    s: State<T, Env>,
    budget: nat,
    larger: nat,
    verdict: Verdict<T, E>,
    env: Env,
)
    requires
        runs(program, s, budget, verdict, env),
        !(verdict matches Err(RunError::OutOfSteps)),
        budget <= larger,
    ensures
        runs(program, s, larger, verdict, env),
    decreases budget,
{
    if budget > 0 {
        let o = choose|o: Step<T, Env, E>|
            steps(program, s, o) && match o {
                Step::Next(next) => runs(program, next, (budget - 1) as nat, verdict, env),
                Step::End(v, e) => verdict == v && env == e,
            };
        match o {
            Step::Next(next) => {
                theorem_larger_budget_keeps_verdict(
                    program,
                    next,
                    (budget - 1) as nat,
                    (larger - 1) as nat,
                    verdict,
                    env,
                );
            },
            Step::End(_, _) => {},
        }
    }
}

} // verus!
