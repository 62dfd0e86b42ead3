//! The interpreter: the machine's state in memory and the step it takes.

use crate::data::{Data, Func, Instr, Label, Locals};
use crate::error::{RunError, VmError};
use crate::labels::{indexes_labels, indexes_program, FuncDefWithLabel};
use crate::semantics::{
    callbacks_total, jumps, leaves, reads, steps, Program, SavedFrame, State, Step, Verdict,
};
use std::collections::HashMap;
use vstd::prelude::*;

verus! {

/// A caller waiting on the call stack.
pub struct Frame<T: Clone> {
    pub instr_ptr: usize,
    pub locals: Locals<T>,
    pub current_function: Func,
}

impl<T: Clone> View for Frame<T> {
    type V = SavedFrame<T>;

    open spec fn view(&self) -> SavedFrame<T> {
        SavedFrame {
            func: self.current_function.0,
            ip: self.instr_ptr as nat,
            locals: self.locals@,
        }
    }
}

/// The machine in the middle of a run.
#[verifier::reject_recursive_types(T)]
#[verifier::reject_recursive_types(Env)]
#[verifier::reject_recursive_types(E)]
pub struct Machine<'a, T: Clone, Env, E> {
    pub table: &'a HashMap<usize, FuncDefWithLabel<'a, T, Env, E>>,
    pub stack: Vec<Frame<T>>,
    pub current_function: Func,
    pub instrs: &'a Vec<Instr<T, Env, E>>,
    pub label_map: &'a HashMap<usize, usize>,
    pub instr_ptr: usize,
    pub locals: Locals<T>,
    pub params: Vec<Data<T>>,
    pub ret: Option<Data<T>>,
}

impl<'a, T: Clone, Env, E> Machine<'a, T, Env, E> {
    /// The state this machine is in when the environment is `env`.
    pub open spec fn state(&self, env: Env) -> State<T, Env> {
        State {
            func: self.current_function.0,
            ip: self.instr_ptr as nat,
            locals: self.locals@,
            stack: self.stack@.map_values(|frame: Frame<T>| frame@),
            params: self.params@,
            ret: self.ret,
            env,
        }
    }

    /// Whether this machine is a consistent interpreter of `program`: its table indexes
    /// the program, the body and label index at hand are those of the running function,
    /// and every frame, running or waiting, belongs to a function of the program and
    /// carries locals tagged with it.
    pub open spec fn inv(&self, program: Program<T, Env, E>) -> bool {
        &&& indexes_program(program, self.table@)
        &&& program.contains_key(self.current_function.0)
        &&& *self.instrs == program[self.current_function.0]
        &&& indexes_labels(self.instrs@, self.label_map@)
        &&& self.locals.func() == self.current_function.0
        &&& forall|i: int|
            0 <= i < self.stack@.len() ==> {
                &&& program.contains_key((#[trigger] self.stack@[i]).current_function.0)
                &&& self.stack@[i].locals.func() == self.stack@[i].current_function.0
            }
    }

    /// The machine at the start of a run of `program`, whose entry function is in `table`.
    pub fn new(
        table: &'a HashMap<usize, FuncDefWithLabel<'a, T, Env, E>>,
        Ghost(program): Ghost<Program<T, Env, E>>,
    ) -> (machine: Self)
        requires
            indexes_program(program, table@),
            program.contains_key(0),
        ensures
            machine.inv(program),
            forall|env: Env| #[trigger] machine.state(env) == State::<T, Env>::initial(env),
    {
        let current_function = Func(0);
        let entry = table.get(&current_function.0);
        let def = entry.unwrap();
        let machine = Machine {
            table,
            stack: Vec::new(),
            current_function,
            instrs: def.body,
            label_map: &def.label_map,
            instr_ptr: 0,
            locals: Locals::new(current_function.0),
            params: Vec::new(),
            ret: None,
        };
        assert forall|env: Env| #[trigger] machine.state(env) == State::<T, Env>::initial(env) by {
            assert(machine.state(env).stack =~= Seq::empty());
        }
        machine
    }

    /// Leaves the running function with the return slot as it stands: reports the end of
    /// the run where no caller waits, else resumes the most recent caller.
    fn unwind(
        &mut self,
        Ghost(program): Ghost<Program<T, Env, E>>,
        Ghost(env): Ghost<Env>,
    ) -> (ended: Option<Verdict<T, E>>)
        requires
            old(self).inv(program),
        ensures
            match ended {
                Some(verdict) => leaves(
                    old(self).state(env),
                    old(self).ret,
                    Step::<T, Env, E>::End(verdict, env),
                ),
                None => final(self).inv(program) && leaves(
                    old(self).state(env),
                    old(self).ret,
                    Step::<T, Env, E>::Next(final(self).state(env)),
                ),
            },
    {
        match self.stack.pop() {
            None => Some(Ok(self.ret.take())),
            Some(frame) => {
                let Frame { instr_ptr, locals, current_function } = frame;
                let def = self.table.get(&current_function.0).unwrap();
                self.instr_ptr = instr_ptr;
                self.locals = locals;
                self.current_function = current_function;
                self.instrs = def.body;
                self.label_map = &def.label_map;
                assert(self.state(env).stack =~= old(self).state(env).stack.drop_last());
                None
            },
        }
    }

    /// Moves the instruction pointer to where the running body defines `label`, or
    /// reports `LabelDoesNotExist`.
    fn jump(
        &mut self,
        label: &Label,
        Ghost(program): Ghost<Program<T, Env, E>>,
        Ghost(env): Ghost<Env>,
    ) -> (ended: Option<Verdict<T, E>>)
        requires
            old(self).inv(program),
        ensures
            match ended {
                Some(verdict) => jumps(
                    program[old(self).current_function.0]@,
                    old(self).state(env),
                    *label,
                    Step::<T, Env, E>::End(verdict, env),
                ),
                None => final(self).inv(program) && jumps(
                    program[old(self).current_function.0]@,
                    old(self).state(env),
                    *label,
                    Step::<T, Env, E>::Next(final(self).state(env)),
                ),
            },
    {
        match self.label_map.get(&label.0) {
            Some(ptr) => {
                self.instr_ptr = *ptr;
                None
            },
            None => Some(
                Err(
                    RunError::Vm(
                        VmError::LabelDoesNotExist {
                            label: label.0,
                            func: self.current_function.0,
                        },
                    ),
                ),
            ),
        }
    }

    /// Takes one step: leaves the running function where its body is exhausted, else
    /// executes the instruction at the pointer. Hands back the verdict where the step ends
    /// the run.
    pub fn step(&mut self, env: &mut Env, Ghost(program): Ghost<Program<T, Env, E>>) -> (ended:
        Option<Verdict<T, E>>)
        requires
            old(self).inv(program),
            callbacks_total(program),
        ensures
            match ended {
                Some(verdict) => steps(
                    program,
                    old(self).state(*old(env)),
                    Step::<T, Env, E>::End(verdict, *final(env)),
                ),
                None => final(self).inv(program) && steps(
                    program,
                    old(self).state(*old(env)),
                    Step::<T, Env, E>::Next(final(self).state(*final(env))),
                ),
            },
    {
        let instrs = self.instrs;
        if instrs.len() <= self.instr_ptr {
            return self.unwind(Ghost(program), Ghost(*env));
        }
        let ghost before = self.state(*env);
        match &instrs[self.instr_ptr] {
            Instr::Label(_) => {
                self.instr_ptr += 1;
                None
            },
            Instr::Jump(label) => self.jump(label, Ghost(program), Ghost(*env)),
            Instr::BranchOnTrue(label, f) => {
                match f.invoke(&self.locals) {
                    Ok(true) => self.jump(label, Ghost(program), Ghost(*env)),
                    Ok(false) => {
                        self.instr_ptr += 1;
                        None
                    },
                    Err(e) => Some(Err(RunError::Host(e))),
                }
            },
            Instr::Return(sym) => {
                match self.locals.get(sym) {
                    Ok(data) => {
                        assert(reads(before, *sym, data));
                        self.ret = Some(data);
                        self.unwind(Ghost(program), Ghost(*env))
                    },
                    Err(e) => Some(Err(RunError::Vm(e))),
                }
            },
            Instr::LoadValue(sym, data) => {
                let copy = data.clone();
                assert(cloned(*data, copy));
                let _ = self.locals.set(sym, Data::Value(copy));
                self.instr_ptr += 1;
                None
            },
            Instr::LoadFromReturn(sym) => {
                match &self.ret {
                    Some(ret) => {
                        let copy = ret.clone();
                        let _ = self.locals.set(sym, copy);
                        self.instr_ptr += 1;
                        None
                    },
                    None => Some(
                        Err(
                            RunError::Vm(
                                VmError::ReturnNotSet {
                                    func: self.current_function.0,
                                    sym: sym.0,
                                },
                            ),
                        ),
                    ),
                }
            },
            Instr::Call(sym) => {
                match self.locals.get(sym) {
                    Ok(Data::Func(f)) => {
                        match self.table.get(&f.0) {
                            None => Some(Err(RunError::Vm(VmError::FunctionDoesNotExist(f.0)))),
                            Some(def) => {
                                let old_function = self.current_function;
                                let old_instr_ptr = self.instr_ptr + 1;
                                let mut old_locals: Locals<T> = Locals::new(f.0);
                                self.current_function = f;
                                self.instr_ptr = 0;
                                self.instrs = def.body;
                                self.label_map = &def.label_map;
                                std::mem::swap(&mut old_locals, &mut self.locals);
                                self.stack.push(
                                    Frame {
                                        instr_ptr: old_instr_ptr,
                                        locals: old_locals,
                                        current_function: old_function,
                                    },
                                );
                                assert(self.state(*env).stack =~= before.stack.push(before.saved()));
                                None
                            },
                        }
                    },
                    Ok(Data::Value(_)) => Some(
                        Err(
                            RunError::Vm(
                                VmError::AttemptToCallNonFunction {
                                    current_func: self.current_function.0,
                                },
                            ),
                        ),
                    ),
                    Err(e) => Some(Err(RunError::Vm(e))),
                }
            },
            Instr::PushParam(sym) => {
                match self.locals.get(sym) {
                    Ok(data) => {
                        assert(reads(before, *sym, data));
                        self.params.push(data);
                        self.instr_ptr += 1;
                        None
                    },
                    Err(e) => Some(Err(RunError::Vm(e))),
                }
            },
            Instr::PopParam(sym) => {
                match self.params.pop() {
                    Some(param) => {
                        let _ = self.locals.set(sym, param);
                        self.instr_ptr += 1;
                        None
                    },
                    None => Some(
                        Err(
                            RunError::Vm(
                                VmError::AttemptToPopEmptyParams {
                                    current_func: self.current_function.0,
                                    sym: sym.0,
                                },
                            ),
                        ),
                    ),
                }
            },
            Instr::LoadFromExec(sym, f) => {
                match f.invoke(&self.locals) {
                    Ok(data) => {
                        let _ = self.locals.set(sym, data);
                        self.instr_ptr += 1;
                        None
                    },
                    Err(e) => Some(Err(RunError::Host(e))),
                }
            },
            Instr::LoadFunc(sym, f) => {
                let _ = self.locals.set(sym, Data::Func(*f));
                self.instr_ptr += 1;
                None
            },
            Instr::SysCall(f) => {
                match f.invoke(&self.locals, env) {
                    Ok(()) => {
                        self.instr_ptr += 1;
                        None
                    },
                    Err(e) => Some(Err(RunError::Host(e))),
                }
            },
            Instr::LoadFromSysCall(sym, f) => {
                match f.invoke(&self.locals, env) {
                    Ok(data) => {
                        let _ = self.locals.set(sym, data);
                        self.instr_ptr += 1;
                        None
                    },
                    Err(e) => Some(Err(RunError::Host(e))),
                }
            },
        }
    }
}

} // verus!
