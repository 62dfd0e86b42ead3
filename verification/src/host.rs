//! The callbacks a host plants in a program.
//!
//! A callback is any value of one of the two traits below. Each trait describes its
//! callback by two predicates over plain values: `accepts` says on which inputs the
//! callback may be called, `yields` which outcomes a call may have. The machine calls a
//! callback only through `invoke`, so these two predicates are all it knows of it.
//!
//! Closures of the matching shape are callbacks, with the contract they were written
//! with; a host in ordinary Rust plants closures. A verified host may do so too: the
//! lemmas at the end of this file say what `accepts` and `yields` mean for a closure. One
//! that wants to say what its callback does to the environment implements the trait on a
//! type of its own.

use crate::data::{Data, Locals};
use vstd::prelude::*;

verus! {

/// A callback that reads the locals of the running frame.
///
/// Branch predicates (`R = bool`) and value producers (`R = Data<T>`) have this shape.
pub trait LocalsFn<T: Clone, R, E> {
    /// Whether the callback may be called on locals of function `func` that hold `slots`.
    spec fn accepts(&self, func: usize, slots: Map<usize, Data<T>>) -> bool;

    /// Whether `outcome` is a possible outcome of a call on such locals.
    spec fn yields(&self, func: usize, slots: Map<usize, Data<T>>, outcome: Result<R, E>) -> bool;

    /// Calls the callback on `locals`.
    fn invoke(&self, locals: &Locals<T>) -> (outcome: Result<R, E>)
        requires
            self.accepts(locals.func(), locals@),
        ensures
            self.yields(locals.func(), locals@, outcome),
    ;
}

/// A callback that reads the locals of the running frame and may change the environment.
///
/// Side effects (`R = ()`) and producers that consult the environment (`R = Data<T>`)
/// have this shape.
pub trait EnvFn<T: Clone, Env, R, E> {
    /// Whether the callback may be called on such locals with the environment `env`.
    spec fn accepts(&self, func: usize, slots: Map<usize, Data<T>>, env: Env) -> bool;

    /// Whether a call on such locals that finds the environment as `before` may leave it
    /// as `after` and have `outcome`.
    spec fn yields(
        &self,
        func: usize,
        slots: Map<usize, Data<T>>,
        before: Env,
        after: Env,
        outcome: Result<R, E>,
    ) -> bool;

    /// Calls the callback on `locals` and `env`.
    fn invoke(&self, locals: &Locals<T>, env: &mut Env) -> (outcome: Result<R, E>)
        requires
            self.accepts(locals.func(), locals@, *old(env)),
        ensures
            self.yields(locals.func(), locals@, *old(env), *final(env), outcome),
    ;
}

/// A closure over the locals is a callback with the closure's own contract.
impl<T: Clone, R, E, F: Fn(&Locals<T>) -> Result<R, E>> LocalsFn<T, R, E> for F {
    open spec fn accepts(&self, func: usize, slots: Map<usize, Data<T>>) -> bool {
        forall|locals: &Locals<T>|
            locals.func() == func && locals@ == slots ==> call_requires(*self, (locals,))
    }

    open spec fn yields(
        &self,
        func: usize,
        slots: Map<usize, Data<T>>,
        outcome: Result<R, E>,
    ) -> bool {
        exists|locals: &Locals<T>|
            locals.func() == func && locals@ == slots && call_ensures(*self, (locals,), outcome)
    }

    fn invoke(&self, locals: &Locals<T>) -> (outcome: Result<R, E>) {
        self(locals)
    }
}

/// A closure over the locals and the environment is a callback. Its contract decides
/// which outcomes it may have. What it leaves in the environment is not described: to
/// `yields` every environment is a possible one.
impl<T: Clone, Env, R, E, F: Fn(&Locals<T>, &mut Env) -> Result<R, E>> EnvFn<T, Env, R, E> for F {
    open spec fn accepts(&self, func: usize, slots: Map<usize, Data<T>>, env: Env) -> bool {
        forall|locals: &Locals<T>, e: &mut Env|
            locals.func() == func && locals@ == slots && *e == env ==> call_requires(
                *self,
                (locals, e),
            )
    }

    open spec fn yields(
        &self,
        func: usize,
        slots: Map<usize, Data<T>>,
        before: Env,
        after: Env,
        outcome: Result<R, E>,
    ) -> bool {
        exists|locals: &Locals<T>, e: &mut Env|
            locals.func() == func && locals@ == slots && *e == before && call_ensures(
                *self,
                (locals, e),
                outcome,
            )
    }

    fn invoke(&self, locals: &Locals<T>, env: &mut Env) -> (outcome: Result<R, E>) {
        self(locals, env)
    }
}

/// A closure over the locals that has no precondition accepts every input.
pub proof fn lemma_closure_accepts<T: Clone, R, E, F: Fn(&Locals<T>) -> Result<R, E>>(f: F)
    requires
        forall|locals: &Locals<T>| call_requires(f, (locals,)),
    ensures
        forall|func: usize, slots: Map<usize, Data<T>>| #[trigger] f.accepts(func, slots),
{
}

/// What a closure over the locals yields, its own contract allows on locals of that
/// function with those slots.
pub proof fn lemma_closure_yields<T: Clone, R, E, F: Fn(&Locals<T>) -> Result<R, E>>(
    f: F,
    func: usize,
    slots: Map<usize, Data<T>>,
    outcome: Result<R, E>,
)
    requires
        f.yields(func, slots, outcome),
    ensures
        exists|locals: &Locals<T>|
            locals.func() == func && locals@ == slots && call_ensures(f, (locals,), outcome),
{
}

/// A closure over the locals and the environment that has no precondition accepts every
/// input.
pub proof fn lemma_env_closure_accepts<
    T: Clone,
    Env,
    R,
    E,
    F: Fn(&Locals<T>, &mut Env) -> Result<R, E>,
>(f: F)
    requires
        forall|locals: &Locals<T>, e: &mut Env| call_requires(f, (locals, e)),
    ensures
        forall|func: usize, slots: Map<usize, Data<T>>, env: Env| #[trigger]
            f.accepts(func, slots, env),
{
}

/// What a closure over the locals and the environment yields, its own contract allows on
/// locals of that function with those slots and an environment as it was before the call.
pub proof fn lemma_env_closure_yields<
    T: Clone,
    Env,
    R,
    E,
    F: Fn(&Locals<T>, &mut Env) -> Result<R, E>,
>(f: F, func: usize, slots: Map<usize, Data<T>>, before: Env, after: Env, outcome: Result<R, E>)
    requires
        f.yields(func, slots, before, after, outcome),
    ensures
        exists|locals: &Locals<T>, e: &mut Env|
            locals.func() == func && locals@ == slots && *e == before && call_ensures(
                f,
                (locals, e),
                outcome,
            ),
{
}

} // verus!
