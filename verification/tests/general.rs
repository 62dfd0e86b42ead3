use proc_vm::data::{Data, Func, Instr, Label, Locals, Symbol};
use proc_vm::error::{RunError, VmError};
use proc_vm::run;
use std::collections::HashMap;

type Body = Vec<Instr<u32, Vec<u32>, String>>;

fn record(sym: Symbol) -> Instr<u32, Vec<u32>, String> {
    Instr::SysCall(Box::new(move |locals: &Locals<u32>, env: &mut Vec<u32>| {
        match locals.get(&sym) {
            Ok(Data::Value(x)) => env.push(x),
            Ok(Data::Func(f)) => env.push(1000 + f.0 as u32),
            Err(e) => return Err(e.message()),
        }
        Ok(())
    }))
}

fn call(handle: Symbol, f: usize) -> Vec<Instr<u32, Vec<u32>, String>> {
    vec![Instr::LoadFunc(handle, Func(f)), Instr::Call(handle)]
}

#[test]
fn repeated_label_rejects_the_program_wherever_it_stands() {
    for position in [0usize, 1, 2] {
        let mut bodies: HashMap<usize, Body> = HashMap::new();
        for f in 0..3 {
            let mut body: Body = vec![Instr::Label(Label(1)), Instr::Label(Label(2))];
            if f == position {
                body.push(Instr::Label(Label(1)));
            }
            bodies.insert(f, body);
        }
        let mut env = Vec::new();
        assert_eq!(
            run(&bodies, &mut env).err(),
            Some(RunError::Vm(VmError::RedefinitionOfLabel { func: position, label: 1 }))
        );
    }
}

#[test]
fn callee_cannot_see_the_locals_of_its_caller() {
    let x = Symbol(0);
    let handle = Symbol(1);
    let mut entry: Body = vec![Instr::LoadValue(x, 2)];
    entry.extend(call(handle, 1));
    let bodies: HashMap<usize, Body> = HashMap::from([(0, entry), (1, vec![Instr::Return(x)])]);
    let mut env = Vec::new();
    assert_eq!(
        run(&bodies, &mut env).err(),
        Some(RunError::Vm(VmError::SymbolDoesNotExist { func: 1, sym: 0 }))
    );
}

#[test]
fn caller_cannot_see_the_locals_of_its_callee() {
    let x = Symbol(0);
    let handle = Symbol(1);
    let mut entry: Body = call(handle, 1);
    entry.push(Instr::Return(x));
    let bodies: HashMap<usize, Body> =
        HashMap::from([(0, entry), (1, vec![Instr::LoadValue(x, 7), Instr::Return(x)])]);
    let mut env = Vec::new();
    assert_eq!(
        run(&bodies, &mut env).err(),
        Some(RunError::Vm(VmError::SymbolDoesNotExist { func: 0, sym: 0 }))
    );
}

#[test]
fn each_activation_of_a_function_has_locals_of_its_own() {
    let x = Symbol(0);
    let handle = Symbol(1);
    let first = Label(0);
    // Function 1 binds x, calls itself once, and records x afterwards: the inner
    // activation binds its own x and leaves the outer one alone.
    let mut callee: Body = vec![
        Instr::PopParam(x),
        record(x),
        Instr::BranchOnTrue(
            first,
            Box::new(move |locals: &Locals<u32>| match locals.get(&x) {
                Ok(Data::Value(v)) => Ok(v == 10),
                _ => Ok(false),
            }),
        ),
        Instr::Return(x),
        Instr::Label(first),
        Instr::LoadValue(handle, 20),
        Instr::PushParam(handle),
    ];
    callee.extend(call(handle, 1));
    callee.push(record(x));
    callee.push(Instr::Return(x));
    let mut entry: Body = vec![Instr::LoadValue(x, 10), Instr::PushParam(x)];
    entry.extend(call(handle, 1));
    entry.push(Instr::LoadFromReturn(x));
    entry.push(Instr::Return(x));
    let bodies: HashMap<usize, Body> = HashMap::from([(0, entry), (1, callee)]);
    let mut env = Vec::new();
    let result = run(&bodies, &mut env);
    assert!(matches!(result, Ok(Some(Data::Value(10)))));
    assert_eq!(env, vec![10, 20, 10]);
}

#[test]
fn params_come_back_last_in_first_out() {
    let x = Symbol(0);
    let mut body: Body = Vec::new();
    for v in [1u32, 2, 3, 4] {
        body.push(Instr::LoadValue(x, v));
        body.push(Instr::PushParam(x));
    }
    for _ in 0..4 {
        body.push(Instr::PopParam(x));
        body.push(record(x));
    }
    body.push(Instr::PopParam(x));
    let bodies: HashMap<usize, Body> = HashMap::from([(0, body)]);
    let mut env = Vec::new();
    assert_eq!(
        run(&bodies, &mut env).err(),
        Some(RunError::Vm(VmError::AttemptToPopEmptyParams { current_func: 0, sym: 0 }))
    );
    assert_eq!(env, vec![4, 3, 2, 1]);
}

#[test]
fn params_left_over_by_one_callee_reach_the_next() {
    let x = Symbol(0);
    let handle = Symbol(1);
    let mut entry: Body = vec![
        Instr::LoadValue(x, 1),
        Instr::PushParam(x),
        Instr::LoadValue(x, 2),
        Instr::PushParam(x),
    ];
    entry.extend(call(handle, 1));
    entry.extend(call(handle, 1));
    let bodies: HashMap<usize, Body> =
        HashMap::from([(0, entry), (1, vec![Instr::PopParam(x), record(x)])]);
    let mut env = Vec::new();
    assert!(matches!(run(&bodies, &mut env), Ok(None)));
    assert_eq!(env, vec![2, 1]);
}

#[test]
fn pushed_param_is_a_copy_of_the_local() {
    let x = Symbol(0);
    let y = Symbol(1);
    let bodies: HashMap<usize, Body> = HashMap::from([(
        0,
        vec![
            Instr::LoadValue(x, 5),
            Instr::PushParam(x),
            Instr::LoadValue(x, 6),
            Instr::PopParam(y),
            record(x),
            record(y),
        ],
    )]);
    let mut env = Vec::new();
    assert!(matches!(run(&bodies, &mut env), Ok(None)));
    assert_eq!(env, vec![6, 5]);
}

#[test]
fn return_value_reaches_the_next_load_in_the_caller() {
    let x = Symbol(0);
    let t = Symbol(5);
    let handle = Symbol(1);
    let mut entry: Body = call(handle, 1);
    entry.push(Instr::LoadValue(x, 0));
    entry.push(Instr::Label(Label(3)));
    entry.push(Instr::LoadFromReturn(t));
    entry.push(record(t));
    let bodies: HashMap<usize, Body> = HashMap::from([
        (0, entry),
        (1, vec![Instr::LoadValue(x, 42), Instr::Return(x), Instr::LoadValue(x, 43)]),
    ]);
    let mut env = Vec::new();
    // The entry function runs off its body: the result is what the return slot holds.
    assert!(matches!(run(&bodies, &mut env), Ok(Some(Data::Value(42)))));
    assert_eq!(env, vec![42]);
}

#[test]
fn return_value_is_the_local_at_the_moment_of_return() {
    let x = Symbol(0);
    let handle = Symbol(1);
    let mut entry: Body = call(handle, 1);
    entry.push(Instr::LoadFromReturn(x));
    entry.push(Instr::Return(x));
    let bodies: HashMap<usize, Body> = HashMap::from([
        (0, entry),
        (1, vec![Instr::LoadValue(x, 1), Instr::LoadValue(x, 2), Instr::Return(x)]),
    ]);
    let mut env = Vec::new();
    assert!(matches!(run(&bodies, &mut env), Ok(Some(Data::Value(2)))));
}

#[test]
fn falling_off_a_body_leaves_the_return_slot_alone() {
    let x = Symbol(0);
    let handle = Symbol(1);
    let mut entry: Body = call(handle, 1);
    entry.extend(call(handle, 2));
    entry.push(Instr::LoadFromReturn(x));
    entry.push(record(x));
    let bodies: HashMap<usize, Body> = HashMap::from([
        (0, entry),
        (1, vec![Instr::LoadValue(x, 5), Instr::Return(x)]),
        (2, vec![Instr::LoadValue(x, 6)]),
    ]);
    let mut env = Vec::new();
    // The entry function falls off its body too: the result is what function 1 returned.
    assert!(matches!(run(&bodies, &mut env), Ok(Some(Data::Value(5)))));
    assert_eq!(env, vec![5]);
}

#[test]
fn falling_off_before_any_return_leaves_the_slot_empty() {
    let x = Symbol(0);
    let handle = Symbol(1);
    let mut entry: Body = call(handle, 1);
    entry.push(Instr::LoadFromReturn(x));
    let bodies: HashMap<usize, Body> = HashMap::from([(0, entry), (1, vec![Instr::LoadValue(x, 6)])]);
    let mut env = Vec::new();
    assert_eq!(
        run(&bodies, &mut env).err(),
        Some(RunError::Vm(VmError::ReturnNotSet { func: 0, sym: 0 }))
    );
}

#[test]
fn each_return_overwrites_the_return_slot() {
    let x = Symbol(0);
    let handle = Symbol(1);
    let mut entry: Body = call(handle, 1);
    entry.extend(call(handle, 2));
    entry.push(Instr::LoadFromReturn(x));
    entry.push(Instr::Return(x));
    let bodies: HashMap<usize, Body> = HashMap::from([
        (0, entry),
        (1, vec![Instr::LoadValue(x, 5), Instr::Return(x)]),
        (2, vec![Instr::LoadValue(x, 6), Instr::Return(x)]),
    ]);
    let mut env = Vec::new();
    assert!(matches!(run(&bodies, &mut env), Ok(Some(Data::Value(6)))));
}

#[test]
fn call_as_last_instruction_unwinds_through_the_caller() {
    let handle = Symbol(1);
    let bodies: HashMap<usize, Body> = HashMap::from([
        (0, call(handle, 1)),
        (1, call(handle, 2)),
        (2, vec![Instr::LoadValue(handle, 1), record(handle)]),
    ]);
    let mut env = Vec::new();
    assert!(matches!(run(&bodies, &mut env), Ok(None)));
    assert_eq!(env, vec![1]);
}

#[test]
fn jump_lands_on_the_label_and_goes_on_behind_it() {
    let x = Symbol(0);
    let bodies: HashMap<usize, Body> = HashMap::from([(
        0,
        vec![
            Instr::LoadValue(x, 1),
            Instr::Jump(Label(9)),
            Instr::LoadValue(x, 2),
            Instr::Label(Label(9)),
            record(x),
        ],
    )]);
    let mut env = Vec::new();
    assert!(matches!(run(&bodies, &mut env), Ok(None)));
    assert_eq!(env, vec![1]);
}

#[test]
fn backward_jump_repeats_instructions() {
    let x = Symbol(0);
    let bodies: HashMap<usize, Body> = HashMap::from([(
        0,
        vec![
            Instr::LoadValue(x, 0),
            Instr::Label(Label(0)),
            Instr::LoadFromExec(
                x,
                Box::new(move |locals: &Locals<u32>| match locals.get(&x) {
                    Ok(Data::Value(v)) => Ok(Data::Value(v + 1)),
                    _ => Err(String::from("lost")),
                }),
            ),
            record(x),
            Instr::BranchOnTrue(
                Label(0),
                Box::new(move |locals: &Locals<u32>| match locals.get(&x) {
                    Ok(Data::Value(v)) => Ok(v < 3),
                    _ => Ok(false),
                }),
            ),
            Instr::Return(x),
        ],
    )]);
    let mut env = Vec::new();
    assert!(matches!(run(&bodies, &mut env), Ok(Some(Data::Value(3)))));
    assert_eq!(env, vec![1, 2, 3]);
}

#[test]
fn callbacks_run_in_program_order() {
    let x = Symbol(0);
    let handle = Symbol(1);
    let mut entry: Body = vec![Instr::LoadValue(x, 1), record(x)];
    entry.extend(call(handle, 1));
    entry.push(Instr::LoadValue(x, 3));
    entry.push(record(x));
    let bodies: HashMap<usize, Body> =
        HashMap::from([(0, entry), (1, vec![Instr::LoadValue(x, 2), record(x)])]);
    let mut env = Vec::new();
    assert!(matches!(run(&bodies, &mut env), Ok(None)));
    assert_eq!(env, vec![1, 2, 3]);
}

#[test]
fn function_handle_travels_like_any_value() {
    let f = Symbol(0);
    let g = Symbol(1);
    let x = Symbol(2);
    let bodies: HashMap<usize, Body> = HashMap::from([
        (
            0,
            vec![
                Instr::LoadFunc(f, Func(2)),
                Instr::PushParam(f),
                Instr::PopParam(g),
                Instr::Call(g),
                Instr::LoadFromReturn(x),
                Instr::Return(x),
            ],
        ),
        (2, vec![Instr::LoadValue(x, 8), Instr::Return(x)]),
    ]);
    let mut env = Vec::new();
    assert!(matches!(run(&bodies, &mut env), Ok(Some(Data::Value(8)))));
}
