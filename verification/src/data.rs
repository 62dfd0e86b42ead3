//! Values, identifiers and per-frame storage.

use crate::error::VmError;
use crate::host::{EnvFn, LocalsFn};
use std::collections::HashMap;
use vstd::prelude::*;

verus! {

/// Names a function body in the function table.
#[derive(Debug, Clone, Copy, Hash, PartialEq, Eq, Structural)]
pub struct Func(pub usize);

/// Names an instruction position inside one function body.
#[derive(Debug, Clone, Copy, Hash, PartialEq, Eq, Structural)]
pub struct Label(pub usize);

/// Names a local slot inside one frame.
#[derive(Debug, Clone, Copy, Hash, PartialEq, Eq, Structural)]
pub struct Symbol(pub usize);

/// A value the machine moves around: a datum of the host, or a function handle.
#[derive(Debug)]
pub enum Data<T: Clone> {
    Value(T),
    Func(Func),
}

/// Whether `copy` may be what cloning `source` gives.
///
/// A host datum is copied by the host's own `clone`; a function handle is copied exactly.
pub open spec fn data_cloned<T: Clone>(source: Data<T>, copy: Data<T>) -> bool {
    match source {
        Data::Value(x) => copy matches Data::Value(y) && cloned(x, y),
        Data::Func(f) => copy == Data::<T>::Func(f),
    }
}

impl<T: Clone> Clone for Data<T> {
    fn clone(&self) -> (copy: Self)
        ensures
            data_cloned(*self, copy),
    {
        match self {
            Data::Value(x) => Data::Value(x.clone()),
            Data::Func(f) => Data::Func(*f),
        }
    }
}

/// One instruction of a function body.
///
/// `T` is the host's value type, `Env` its environment and `E` the failure its callbacks
/// may report.
#[verifier::reject_recursive_types(T)]
#[verifier::reject_recursive_types(Env)]
#[verifier::reject_recursive_types(E)]
pub enum Instr<T: Clone, Env, E> {
    /// Marks a position; does nothing when executed.
    Label(Label),
    /// Continues at the position of a label.
    Jump(Label),
    /// Continues at the position of a label where the predicate holds of the locals.
    BranchOnTrue(Label, Box<dyn LocalsFn<T, bool, E>>),
    /// Writes a local to the return slot and leaves the running function.
    Return(Symbol),
    /// Binds a local to a host value.
    LoadValue(Symbol, T),
    /// Binds a local to what the return slot holds.
    LoadFromReturn(Symbol),
    /// Pushes a local onto the parameter channel.
    PushParam(Symbol),
    /// Pops the parameter channel into a local.
    PopParam(Symbol),
    /// Binds a local to what a callback computes from the locals.
    LoadFromExec(Symbol, Box<dyn LocalsFn<T, Data<T>, E>>),
    /// Binds a local to a function handle.
    LoadFunc(Symbol, Func),
    /// Calls the function whose handle a local holds.
    Call(Symbol),
    /// Runs a callback on the locals and the environment for its effect.
    SysCall(Box<dyn EnvFn<T, Env, (), E>>),
    /// Binds a local to what a callback computes from the locals and the environment.
    LoadFromSysCall(Symbol, Box<dyn EnvFn<T, Env, Data<T>, E>>),
}

impl<T: Clone, Env, E> Instr<T, Env, E> {
    /// A branch to `label` on `predicate`. The instruction's callback accepts and yields
    /// what `predicate` does.
    pub fn branch_on_true<F: LocalsFn<T, bool, E> + 'static>(label: Label, predicate: F) -> (instr:
        Self)
        ensures
            instr matches Instr::BranchOnTrue(l, p) && l == label && (forall|
                func: usize,
                slots: Map<usize, Data<T>>,
            | #[trigger]
                p.accepts(func, slots) == predicate.accepts(func, slots)) && (forall|
                func: usize,
                slots: Map<usize, Data<T>>,
                outcome: Result<bool, E>,
            | #[trigger]
                p.yields(func, slots, outcome) == predicate.yields(func, slots, outcome)),
    {
        Instr::BranchOnTrue(label, Box::new(predicate))
    }

    /// A load of local `sym` from `producer`. The instruction's callback accepts and
    /// yields what `producer` does.
    pub fn load_from_exec<F: LocalsFn<T, Data<T>, E> + 'static>(sym: Symbol, producer: F) -> (instr:
        Self)
        ensures
            instr matches Instr::LoadFromExec(s, p) && s == sym && (forall|
                func: usize,
                slots: Map<usize, Data<T>>,
            | #[trigger]
                p.accepts(func, slots) == producer.accepts(func, slots)) && (forall|
                func: usize,
                slots: Map<usize, Data<T>>,
                outcome: Result<Data<T>, E>,
            | #[trigger]
                p.yields(func, slots, outcome) == producer.yields(func, slots, outcome)),
    {
        Instr::LoadFromExec(sym, Box::new(producer))
    }

    /// A call of `effect` for its effect on the environment. The instruction's callback
    /// accepts and yields what `effect` does.
    pub fn sys_call<F: EnvFn<T, Env, (), E> + 'static>(effect: F) -> (instr: Self)
        ensures
            instr matches Instr::SysCall(p) && (forall|
                func: usize,
                slots: Map<usize, Data<T>>,
                env: Env,
            | #[trigger]
                p.accepts(func, slots, env) == effect.accepts(func, slots, env)) && (forall|
                func: usize,
                slots: Map<usize, Data<T>>,
                before: Env,
                after: Env,
                outcome: Result<(), E>,
            | #[trigger]
                p.yields(func, slots, before, after, outcome) == effect.yields(
                    func,
                    slots,
                    before,
                    after,
                    outcome,
                )),
    {
        Instr::SysCall(Box::new(effect))
    }

    /// A load of local `sym` from `producer`, which is given the environment. The
    /// instruction's callback accepts and yields what `producer` does.
    pub fn load_from_sys_call<F: EnvFn<T, Env, Data<T>, E> + 'static>(
        sym: Symbol,
        producer: F,
    ) -> (instr: Self)
        ensures
            instr matches Instr::LoadFromSysCall(s, p) && s == sym && (forall|
                func: usize,
                slots: Map<usize, Data<T>>,
                env: Env,
            | #[trigger]
                p.accepts(func, slots, env) == producer.accepts(func, slots, env)) && (forall|
                func: usize,
                slots: Map<usize, Data<T>>,
                before: Env,
                after: Env,
                outcome: Result<Data<T>, E>,
            | #[trigger]
                p.yields(func, slots, before, after, outcome) == producer.yields(
                    func,
                    slots,
                    before,
                    after,
                    outcome,
                )),
    {
        Instr::LoadFromSysCall(sym, Box::new(producer))
    }
}

/// The local slots of one frame, tagged with the function the frame runs.
#[derive(Debug)]
pub struct Locals<T> where T: Clone {
    f: usize,
    v: HashMap<usize, Data<T>>,
}

impl<T> View for Locals<T> where T: Clone {
    type V = Map<usize, Data<T>>;

    /// The slots that have been written, by symbol number.
    closed spec fn view(&self) -> Map<usize, Data<T>> {
        self.v@
    }
}

impl<T> Clone for Locals<T> where T: Clone {
    /// Locals for the same function, with a copy of every slot.
    fn clone(&self) -> (copy: Self)
        ensures
            copy.func() == self.func(),
            copy@.dom() == self@.dom(),
            forall|sym: usize| #[trigger]
                self@.contains_key(sym) ==> data_cloned(self@[sym], copy@[sym]),
    {
        let mut v: HashMap<usize, Data<T>> = HashMap::new();
        for entry in it: self.v.iter()
            invariant
                forall|sym: usize|
                    v@.contains_key(sym) <==> exists|k: int|
                        0 <= k < it.index() && *it.seq()[k].0 == sym,
                forall|sym: usize| #[trigger]
                    v@.contains_key(sym) ==> self.v@.contains_key(sym) && data_cloned(
                        self.v@[sym],
                        v@[sym],
                    ),
        {
            let (sym, data) = entry;
            v.insert(*sym, data.clone());
        }
        Locals { f: self.f, v }
    }
}

impl<T> Locals<T> where T: Clone {
    /// The number of the function whose frame owns these locals.
    pub closed spec fn func(&self) -> usize {
        self.f
    }

    /// Fresh locals without any slot, for a frame of function `func`.
    pub fn new(func: usize) -> (locals: Self)
        ensures
            locals@ == Map::<usize, Data<T>>::empty(),
            locals.func() == func,
    {
        Locals { v: HashMap::new(), f: func }
    }

    /// A copy of the value in slot `sym`, or `SymbolDoesNotExist` where the slot was never
    /// written.
    pub fn get(&self, sym: &Symbol) -> (found: Result<Data<T>, VmError>)
        ensures
            match found {
                Ok(data) => self@.contains_key(sym.0) && data_cloned(self@[sym.0], data),
                Err(e) => !self@.contains_key(sym.0) && e == (VmError::SymbolDoesNotExist {
                    func: self.func(),
                    sym: sym.0,
                }),
            },
    {
        match self.v.get(&sym.0) {
            Some(x) => Ok(x.clone()),
            None => Err(VmError::SymbolDoesNotExist { func: self.f, sym: sym.0 }),
        }
    }

    /// Binds slot `sym` to `data`, whether or not it was bound before. Never fails.
    pub fn set(&mut self, sym: &Symbol, data: Data<T>) -> (done: Result<(), VmError>)
        ensures
            done is Ok,
            final(self)@ == old(self)@.insert(sym.0, data),
            final(self).func() == old(self).func(),
    {
        self.v.insert(sym.0, data);
        Ok(())
    }
}

} // verus!
