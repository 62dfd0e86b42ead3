//! What a program means: the machine as a transition relation over plain values.
//!
//! The relation is not a function. Host values are copied by the host's own `clone`
//! and callbacks are described by their `yields` predicates, so one state may have
//! several successors. Everything else is determined.

use crate::data::{data_cloned, Data, Func, Instr, Label, Symbol};
use crate::error::{RunError, VmError};
use crate::labels::{defines, first_redefinition, label_at, labels_distinct, redefinition_at};
use vstd::prelude::*;

verus! {

/// A function table: bodies by function number.
pub type Program<T, Env, E> = Map<usize, Vec<Instr<T, Env, E>>>;

/// What a run hands back: the return slot, or why the run was abandoned.
pub type Verdict<T, E> = Result<Option<Data<T>>, RunError<E>>;

/// A caller waiting on the call stack: where it resumes, and with which locals.
pub struct SavedFrame<T: Clone> {
    pub func: usize,
    pub ip: nat,
    pub locals: Map<usize, Data<T>>,
}

/// Everything the machine knows between two instructions.
pub struct State<T: Clone, Env> {
    /// The function whose body is running.
    pub func: usize,
    /// The position of the next instruction in that body.
    pub ip: nat,
    /// The locals of the running frame.
    pub locals: Map<usize, Data<T>>,
    /// The waiting callers, the most recent last.
    pub stack: Seq<SavedFrame<T>>,
    /// The parameter channel, its top last.
    pub params: Seq<Data<T>>,
    /// The return slot.
    pub ret: Option<Data<T>>,
    /// The host's environment.
    pub env: Env,
}

/// What one step of the machine leads to.
pub enum Step<T: Clone, Env, E> {
    /// The machine goes on from a new state.
    Next(State<T, Env>),
    /// The run is over with this verdict, and leaves the environment as given.
    End(Verdict<T, E>, Env),
}

impl<T: Clone, Env> State<T, Env> {
    /// The state a run starts from: the entry function at its first instruction, with
    /// nothing bound, nobody waiting, no parameter and no return value.
    pub open spec fn initial(env: Env) -> Self {
        State {
            func: 0,
            ip: 0,
            locals: Map::empty(),
            stack: Seq::empty(),
            params: Seq::empty(),
            ret: None,
            env,
        }
    }

    /// Whether every frame of this state, running or waiting, belongs to a function of
    /// `program`.
    pub open spec fn within<E>(self, program: Program<T, Env, E>) -> bool {
        &&& program.contains_key(self.func)
        &&& forall|i: int|
            0 <= i < self.stack.len() ==> program.contains_key((#[trigger] self.stack[i]).func)
    }

    /// This state with the instruction pointer moved to `ip`.
    pub open spec fn at(self, ip: nat) -> Self {
        State { ip, ..self }
    }

    /// This state after an instruction that only moves on to the next one.
    pub open spec fn advanced(self) -> Self {
        self.at(self.ip + 1)
    }

    /// This state after an instruction that binds local `sym` to `data`.
    pub open spec fn bound(self, sym: Symbol, data: Data<T>) -> Self {
        State { locals: self.locals.insert(sym.0, data), ..self.advanced() }
    }

    /// This state after an instruction that pushes `data` onto the parameter channel.
    pub open spec fn pushed(self, data: Data<T>) -> Self {
        State { params: self.params.push(data), ..self.advanced() }
    }

    /// This state after an instruction that pops the parameter channel into local `sym`.
    pub open spec fn popped(self, sym: Symbol) -> Self
        recommends
            self.params.len() > 0,
    {
        State { params: self.params.drop_last(), ..self.bound(sym, self.params.last()) }
    }

    /// This state with the environment replaced.
    pub open spec fn with_env(self, env: Env) -> Self {
        State { env, ..self }
    }

    /// The frame that is saved when the instruction at hand is a call: the caller
    /// resumes behind the call, with the locals it has now.
    pub open spec fn saved(self) -> SavedFrame<T> {
        SavedFrame { func: self.func, ip: self.ip + 1, locals: self.locals }
    }

    /// This state after entering function `callee`: fresh locals, the caller saved.
    pub open spec fn entered(self, callee: usize) -> Self {
        State {
            func: callee,
            ip: 0,
            locals: Map::empty(),
            stack: self.stack.push(self.saved()),
            ..self
        }
    }

    /// This state after the running function is left with `ret` in the return slot and
    /// the most recent caller resumes. The callee's locals are gone.
    pub open spec fn resumed(self, ret: Option<Data<T>>) -> Self
        recommends
            self.stack.len() > 0,
    {
        let caller = self.stack.last();
        State {
            func: caller.func,
            ip: caller.ip,
            locals: caller.locals,
            stack: self.stack.drop_last(),
            ret,
            ..self
        }
    }
}

/// The run fails with the machine's own error `e`; the environment stays as it is.
pub open spec fn faults<T: Clone, Env, E>(
    s: State<T, Env>,
    e: VmError,
    o: Step<T, Env, E>,
) -> bool {
    o == Step::<T, Env, E>::End(Err(RunError::Vm(e)), s.env)
}

/// Leaving the running function with `ret` in the return slot: the run ends with `ret`
/// where no caller waits, else the most recent caller resumes.
pub open spec fn leaves<T: Clone, Env, E>(
    s: State<T, Env>,
    ret: Option<Data<T>>,
    o: Step<T, Env, E>,
) -> bool {
    if s.stack.len() == 0 {
        o == Step::<T, Env, E>::End(Ok(ret), s.env)
    } else {
        o == Step::<T, Env, E>::Next(s.resumed(ret))
    }
}

/// Transferring control to `label`: the pointer lands on the label instruction itself,
/// or the run fails where `body` does not define the label.
pub open spec fn jumps<T: Clone, Env, E>(
    body: Seq<Instr<T, Env, E>>,
    s: State<T, Env>,
    label: Label,
    o: Step<T, Env, E>,
) -> bool {
    if defines(body, label.0) {
        exists|i: nat|
            label_at(body, i as int) == Some(label.0) && o == Step::<T, Env, E>::Next(s.at(i))
    } else {
        faults(s, VmError::LabelDoesNotExist { func: s.func, label: label.0 }, o)
    }
}

/// Reading local `sym` for a copy: `data` is a copy of what the slot holds.
pub open spec fn reads<T: Clone, Env>(s: State<T, Env>, sym: Symbol, data: Data<T>) -> bool {
    s.locals.contains_key(sym.0) && data_cloned(s.locals[sym.0], data)
}

/// The error of reading a local that was never written.
pub open spec fn unbound<T: Clone, Env>(s: State<T, Env>, sym: Symbol) -> VmError {
    VmError::SymbolDoesNotExist { func: s.func, sym: sym.0 }
}

/// What executing `instr` in state `s` may lead to.
pub open spec fn executes<T: Clone, Env, E>(
    program: Program<T, Env, E>,
    s: State<T, Env>,
    instr: Instr<T, Env, E>,
    o: Step<T, Env, E>,
) -> bool {
    match instr {
        Instr::Label(_) => o == Step::<T, Env, E>::Next(s.advanced()),
        Instr::Jump(label) => jumps(program[s.func]@, s, label, o),
        Instr::BranchOnTrue(label, predicate) => {
            exists|outcome: Result<bool, E>|
                predicate.yields(s.func, s.locals, outcome) && match outcome {
                    Ok(true) => jumps(program[s.func]@, s, label, o),
                    Ok(false) => o == Step::<T, Env, E>::Next(s.advanced()),
                    Err(e) => o == Step::<T, Env, E>::End(Err(RunError::Host(e)), s.env),
                }
        },
        Instr::Return(sym) => {
            if s.locals.contains_key(sym.0) {
                exists|data: Data<T>| reads(s, sym, data) && leaves(s, Some(data), o)
            } else {
                faults(s, unbound(s, sym), o)
            }
        },
        Instr::LoadValue(sym, value) => {
            exists|copy: T| cloned(value, copy) && o == Step::<T, Env, E>::Next(
                s.bound(sym, Data::Value(copy)),
            )
        },
        Instr::LoadFromReturn(sym) => {
            match s.ret {
                Some(ret) => exists|data: Data<T>|
                    data_cloned(ret, data) && o == Step::<T, Env, E>::Next(s.bound(sym, data)),
                None => faults(s, VmError::ReturnNotSet { func: s.func, sym: sym.0 }, o),
            }
        },
        Instr::PushParam(sym) => {
            if s.locals.contains_key(sym.0) {
                exists|data: Data<T>|
                    reads(s, sym, data) && o == Step::<T, Env, E>::Next(s.pushed(data))
            } else {
                faults(s, unbound(s, sym), o)
            }
        },
        Instr::PopParam(sym) => {
            if s.params.len() > 0 {
                o == Step::<T, Env, E>::Next(s.popped(sym))
            } else {
                faults(s, VmError::AttemptToPopEmptyParams { current_func: s.func, sym: sym.0 }, o)
            }
        },
        Instr::LoadFromExec(sym, producer) => {
            exists|outcome: Result<Data<T>, E>|
                producer.yields(s.func, s.locals, outcome) && match outcome {
                    Ok(data) => o == Step::<T, Env, E>::Next(s.bound(sym, data)),
                    Err(e) => o == Step::<T, Env, E>::End(Err(RunError::Host(e)), s.env),
                }
        },
        Instr::LoadFunc(sym, f) => o == Step::<T, Env, E>::Next(s.bound(sym, Data::Func(f))),
        Instr::Call(sym) => {
            if !s.locals.contains_key(sym.0) {
                faults(s, unbound(s, sym), o)
            } else {
                match s.locals[sym.0] {
                    Data::Func(callee) => {
                        if program.contains_key(callee.0) {
                            o == Step::<T, Env, E>::Next(s.entered(callee.0))
                        } else {
                            faults(s, VmError::FunctionDoesNotExist(callee.0), o)
                        }
                    },
                    Data::Value(_) => faults(
                        s,
                        VmError::AttemptToCallNonFunction { current_func: s.func },
                        o,
                    ),
                }
            }
        },
        Instr::SysCall(effect) => {
            exists|after: Env, outcome: Result<(), E>|
                effect.yields(s.func, s.locals, s.env, after, outcome) && match outcome {
                    Ok(_) => o == Step::<T, Env, E>::Next(s.advanced().with_env(after)),
                    Err(e) => o == Step::<T, Env, E>::End(Err(RunError::Host(e)), after),
                }
        },
        Instr::LoadFromSysCall(sym, producer) => {
            exists|after: Env, outcome: Result<Data<T>, E>|
                producer.yields(s.func, s.locals, s.env, after, outcome) && match outcome {
                    Ok(data) => o == Step::<T, Env, E>::Next(s.bound(sym, data).with_env(after)),
                    Err(e) => o == Step::<T, Env, E>::End(Err(RunError::Host(e)), after),
                }
        },
    }
}

/// Whether the callback of `instr`, if it carries one, may be called on every input.
pub open spec fn callback_total<T: Clone, Env, E>(instr: Instr<T, Env, E>) -> bool {
    match instr {
        Instr::BranchOnTrue(_, predicate) => forall|func: usize, slots: Map<usize, Data<T>>|
            predicate.accepts(func, slots),
        Instr::LoadFromExec(_, producer) => forall|func: usize, slots: Map<usize, Data<T>>|
            producer.accepts(func, slots),
        Instr::SysCall(effect) => forall|func: usize, slots: Map<usize, Data<T>>, env: Env|
            effect.accepts(func, slots, env),
        Instr::LoadFromSysCall(_, producer) => forall|
            func: usize,
            slots: Map<usize, Data<T>>,
            env: Env,
        | producer.accepts(func, slots, env),
        _ => true,
    }
}

/// Whether every callback planted in `program` may be called on every input.
pub open spec fn callbacks_total<T: Clone, Env, E>(program: Program<T, Env, E>) -> bool {
    forall|f: usize, i: int|
        program.contains_key(f) && 0 <= i < program[f]@.len() ==> callback_total(
            #[trigger] program[f]@[i],
        )
}

/// One step of the machine: past the end of the running body the function is left
/// without touching the return slot, else the instruction at the pointer is executed.
pub open spec fn steps<T: Clone, Env, E>(
    program: Program<T, Env, E>,
    s: State<T, Env>,
    o: Step<T, Env, E>,
) -> bool {
    let body = program[s.func]@;
    if s.ip >= body.len() {
        leaves(s, s.ret, o)
    } else {
        executes(program, s, body[s.ip as int], o)
    }
}

/// The instruction the machine executes next in state `s`, if the pointer is inside the
/// running body.
pub open spec fn fetched<T: Clone, Env, E>(program: Program<T, Env, E>, s: State<T, Env>) -> Option<
    Instr<T, Env, E>,
> {
    let body = program[s.func]@;
    if s.ip < body.len() {
        Some(body[s.ip as int])
    } else {
        None
    }
}

/// Whether the machine can pass through the states of `trace`, one step from each to
/// the next.
pub open spec fn follows<T: Clone, Env, E>(
    program: Program<T, Env, E>,
    trace: Seq<State<T, Env>>,
) -> bool {
    forall|k: int|
        0 <= k < trace.len() - 1 ==> steps(
            program,
            #[trigger] trace[k],
            Step::<T, Env, E>::Next(trace[k + 1]),
        )
}

/// Whether a run from `s` that may take at most `budget` steps can end with `verdict`,
/// leaving the environment as `env`. A run that has not ended when the budget is spent
/// is abandoned with `OutOfSteps`.
pub open spec fn runs<T: Clone, Env, E>(
    program: Program<T, Env, E>,
    s: State<T, Env>,
    budget: nat,
    verdict: Verdict<T, E>,
    env: Env,
) -> bool
    decreases budget,
{
    if budget == 0 {
        verdict == Err::<Option<Data<T>>, RunError<E>>(RunError::OutOfSteps) && env == s.env
    } else {
        exists|o: Step<T, Env, E>|
            steps(program, s, o) && match o {
                Step::Next(next) => runs(program, next, (budget - 1) as nat, verdict, env),
                Step::End(v, e) => verdict == v && env == e,
            }
    }
}

/// Whether a run of `program` that may take at most `budget` steps and finds the
/// environment as `before` can hand back `verdict` and leave the environment as `after`.
///
/// The entry function is number 0 and must be in the table. The labels of every body are
/// checked before the first instruction is executed: where some body defines a label
/// twice the run fails without touching the environment, naming such a body and the
/// label at the first position in it that repeats one.
pub open spec fn results_in<T: Clone, Env, E>(
    program: Program<T, Env, E>,
    budget: nat,
    before: Env,
    verdict: Verdict<T, E>,
    after: Env,
) -> bool {
    if !program.contains_key(0) {
        verdict == Err::<Option<Data<T>>, RunError<E>>(
            RunError::Vm(VmError::FunctionDoesNotExist(0)),
        ) && after == before
    } else if exists|f: usize| program.contains_key(f) && !labels_distinct(program[f]@) {
        after == before && exists|f: usize, j: int|
            program.contains_key(f) && first_redefinition(program[f]@, j) && verdict == Err::<
                Option<Data<T>>,
                RunError<E>,
            >(RunError::Vm(redefinition_at(f, program[f]@, j)))
    } else {
        runs(program, State::initial(before), budget, verdict, after)
    }
}

} // verus!
