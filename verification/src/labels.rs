//! The label index of a function body, built once before a run.

use crate::data::{Func, Instr};
use crate::error::VmError;
use std::collections::HashMap;
use vstd::prelude::*;

verus! {

/// The label that position `i` of `body` defines, if it holds a label instruction.
pub open spec fn label_at<T: Clone, Env, E>(body: Seq<Instr<T, Env, E>>, i: int) -> Option<usize> {
    if 0 <= i < body.len() {
        match body[i] {
            Instr::Label(l) => Some(l.0),
            _ => None,
        }
    } else {
        None
    }
}

/// Whether `body` defines `label` somewhere.
pub open spec fn defines<T: Clone, Env, E>(body: Seq<Instr<T, Env, E>>, label: usize) -> bool {
    exists|i: int| label_at(body, i) == Some(label)
}

/// Whether position `j` of `body` holds a label instruction whose label an earlier
/// position already defines.
pub open spec fn redefines<T: Clone, Env, E>(body: Seq<Instr<T, Env, E>>, j: int) -> bool {
    label_at(body, j) is Some && exists|i: int| 0 <= i < j && label_at(body, i) == label_at(body, j)
}

/// Whether `j` is the first position of `body` that defines a label again.
pub open spec fn first_redefinition<T: Clone, Env, E>(body: Seq<Instr<T, Env, E>>, j: int) -> bool {
    redefines(body, j) && forall|k: int| 0 <= k < j ==> !redefines(body, k)
}

/// The error for the label that position `j` of the body of function `func` defines again.
pub open spec fn redefinition_at<T: Clone, Env, E>(
    func: usize,
    body: Seq<Instr<T, Env, E>>,
    j: int,
) -> VmError
    recommends
        redefines(body, j),
{
    VmError::RedefinitionOfLabel { func, label: label_at(body, j).unwrap() }
}

/// Whether no label is defined twice in `body`.
pub open spec fn labels_distinct<T: Clone, Env, E>(body: Seq<Instr<T, Env, E>>) -> bool {
    forall|j: int| !redefines(body, j)
}

/// Whether `index` maps exactly the labels that `body` defines, each to the position
/// of the instruction that defines it.
pub open spec fn indexes_labels<T: Clone, Env, E>(
    body: Seq<Instr<T, Env, E>>,
    index: Map<usize, usize>,
) -> bool {
    &&& forall|label: usize| index.contains_key(label) <==> defines(body, label)
    &&& forall|label: usize| #[trigger]
        index.contains_key(label) ==> label_at(body, index[label] as int) == Some(label)
}

/// A function body together with the index of its labels.
#[verifier::reject_recursive_types(T)]
#[verifier::reject_recursive_types(Env)]
#[verifier::reject_recursive_types(E)]
pub struct FuncDefWithLabel<'a, T: Clone, Env, E> {
    pub body: &'a Vec<Instr<T, Env, E>>,
    pub label_map: HashMap<usize, usize>,
}

/// Scans `func_def` once and records where each label is defined.
///
/// Succeeds exactly where no label is defined twice. Otherwise it fails with
/// `RedefinitionOfLabel` at the first label instruction that repeats the label of an
/// earlier one, naming `current_function` and that label.
pub fn setup_label_map<'a, T: Clone, Env, E>(
    func_def: &'a Vec<Instr<T, Env, E>>,
    current_function: Func,
) -> (scanned: Result<FuncDefWithLabel<'a, T, Env, E>, VmError>)
    ensures
        scanned is Ok <==> labels_distinct(func_def@),
        match scanned {
            Ok(def) => {
                &&& def.body == func_def
                &&& labels_distinct(func_def@)
                &&& indexes_labels(func_def@, def.label_map@)
            },
            Err(e) => exists|j: int|
                first_redefinition(func_def@, j) && e == redefinition_at(
                    current_function.0,
                    func_def@,
                    j,
                ),
        },
{
    let mut label_map: HashMap<usize, usize> = HashMap::new();
    let mut index: usize = 0;
    while index < func_def.len()
        invariant
            index <= func_def.len(),
            forall|j: int| 0 <= j < index ==> !redefines(func_def@, j),
            forall|label: usize|
                label_map@.contains_key(label) <==> exists|k: int|
                    0 <= k < index && label_at(func_def@, k) == Some(label),
            forall|label: usize| #[trigger]
                label_map@.contains_key(label) ==> label_map@[label] < index && label_at(
                    func_def@,
                    label_map@[label] as int,
                ) == Some(label),
        decreases func_def.len() - index,
    {
        match &func_def[index] {
            Instr::Label(label) => {
                match label_map.insert(label.0, index) {
                    Some(_) => {
                        assert(first_redefinition(func_def@, index as int));
                        return Err(
                            VmError::RedefinitionOfLabel {
                                label: label.0,
                                func: current_function.0,
                            },
                        );
                    },
                    None => {},
                }
            },
            _ => {},
        }
        index += 1;
    }
    Ok(FuncDefWithLabel { body: func_def, label_map })
}

/// Whether `table` holds, for exactly the functions of `program`, the body and the index
/// of its labels.
pub open spec fn indexes_program<'a, T: Clone, Env, E>(
    program: Map<usize, Vec<Instr<T, Env, E>>>,
    table: Map<usize, FuncDefWithLabel<'a, T, Env, E>>,
) -> bool {
    &&& forall|f: usize| table.contains_key(f) <==> program.contains_key(f)
    &&& forall|f: usize| #[trigger]
        table.contains_key(f) ==> {
            &&& *table[f].body == program[f]
            &&& labels_distinct(program[f]@)
            &&& indexes_labels(program[f]@, table[f].label_map@)
        }
}

/// Builds the label index of every function of the table, whether it is ever called or
/// not.
///
/// Succeeds exactly where no body defines a label twice. Otherwise it fails with the
/// `RedefinitionOfLabel` of one of the bodies that do; which of them, where there are
/// several, depends on the order in which the table hands out its entries.
pub fn index_program<'a, T: Clone, Env, E>(
    func_defs: &'a HashMap<usize, Vec<Instr<T, Env, E>>>,
) -> (indexed: Result<HashMap<usize, FuncDefWithLabel<'a, T, Env, E>>, VmError>)
    ensures
        indexed is Ok <==> forall|f: usize| #[trigger]
            func_defs@.contains_key(f) ==> labels_distinct(func_defs@[f]@),
        match indexed {
            Ok(table) => indexes_program(func_defs@, table@),
            Err(e) => exists|f: usize, j: int|
                func_defs@.contains_key(f) && first_redefinition(func_defs@[f]@, j) && e
                    == redefinition_at(f, func_defs@[f]@, j),
        },
{
    let mut table: HashMap<usize, FuncDefWithLabel<'a, T, Env, E>> = HashMap::new();
    for entry in it: func_defs.iter()
        invariant
            forall|f: usize|
                table@.contains_key(f) <==> exists|k: int|
                    0 <= k < it.index() && *it.seq()[k].0 == f,
            forall|f: usize| #[trigger]
                table@.contains_key(f) ==> {
                    &&& func_defs@.contains_key(f)
                    &&& *table@[f].body == func_defs@[f]
                    &&& labels_distinct(func_defs@[f]@)
                    &&& indexes_labels(func_defs@[f]@, table@[f].label_map@)
                },
    {
        let (f, body) = entry;
        assert(func_defs@.contains_key(*f) && func_defs@[*f] == *body);
        match setup_label_map(body, Func(*f)) {
            Ok(def) => {
                table.insert(*f, def);
            },
            Err(e) => {
                return Err(e);
            },
        }
    }
    assert forall|f: usize| #[trigger] func_defs@.contains_key(f) implies labels_distinct(
        func_defs@[f]@,
    ) by {
        assert(table@.contains_key(f));
    }
    Ok(table)
}

} // verus!
