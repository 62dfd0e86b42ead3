use proc_vm::data::{Data, Func, Instr, Label, Locals, Symbol};
use proc_vm::error::VmError;
use proc_vm::labels::{index_program, setup_label_map};
use std::collections::HashMap;

type Body = Vec<Instr<String, (), ()>>;

#[test]
fn fresh_locals_hold_nothing() {
    let locals: Locals<String> = Locals::new(3);
    assert_eq!(
        locals.get(&Symbol(0)).err(),
        Some(VmError::SymbolDoesNotExist { func: 3, sym: 0 })
    );
}

#[test]
fn set_binds_and_rebinds() {
    let mut locals: Locals<String> = Locals::new(0);
    assert!(locals.set(&Symbol(4), Data::Value(String::from("a"))).is_ok());
    assert!(matches!(locals.get(&Symbol(4)), Ok(Data::Value(s)) if s == "a"));
    assert!(locals.set(&Symbol(4), Data::Func(Func(2))).is_ok());
    assert!(matches!(locals.get(&Symbol(4)), Ok(Data::Func(Func(2)))));
    assert_eq!(
        locals.get(&Symbol(5)).err(),
        Some(VmError::SymbolDoesNotExist { func: 0, sym: 5 })
    );
}

#[test]
fn get_hands_out_a_copy() {
    let mut locals: Locals<String> = Locals::new(0);
    let _ = locals.set(&Symbol(0), Data::Value(String::from("kept")));
    if let Ok(Data::Value(mut copy)) = locals.get(&Symbol(0)) {
        copy.push_str(" and changed");
    }
    assert!(matches!(locals.get(&Symbol(0)), Ok(Data::Value(s)) if s == "kept"));
}

#[test]
fn cloned_locals_hold_copies_of_their_own() {
    let mut locals: Locals<String> = Locals::new(6);
    let _ = locals.set(&Symbol(0), Data::Value(String::from("a")));
    let _ = locals.set(&Symbol(1), Data::Func(Func(3)));
    let mut copy = locals.clone();
    assert!(matches!(copy.get(&Symbol(0)), Ok(Data::Value(s)) if s == "a"));
    assert!(matches!(copy.get(&Symbol(1)), Ok(Data::Func(Func(3)))));
    assert_eq!(copy.get(&Symbol(2)).err(), Some(VmError::SymbolDoesNotExist { func: 6, sym: 2 }));
    let _ = copy.set(&Symbol(0), Data::Value(String::from("b")));
    let _ = copy.set(&Symbol(2), Data::Value(String::from("c")));
    assert!(matches!(locals.get(&Symbol(0)), Ok(Data::Value(s)) if s == "a"));
    assert!(locals.get(&Symbol(2)).is_err());
}

#[test]
fn data_clone_keeps_variant_and_content() {
    let value: Data<String> = Data::Value(String::from("v"));
    assert!(matches!(value.clone(), Data::Value(s) if s == "v"));
    let handle: Data<String> = Data::Func(Func(12));
    assert!(matches!(handle.clone(), Data::Func(Func(12))));
}

#[test]
fn label_map_holds_the_position_of_each_label() {
    let body: Body = vec![
        Instr::Label(Label(7)),
        Instr::Jump(Label(7)),
        Instr::LoadFunc(Symbol(0), Func(0)),
        Instr::Label(Label(2)),
    ];
    let def = setup_label_map(&body, Func(0)).ok().expect("labels are distinct");
    assert_eq!(def.body.len(), 4);
    assert_eq!(def.label_map, HashMap::from([(7, 0), (2, 3)]));
}

#[test]
fn label_map_of_a_body_without_labels_is_empty() {
    let body: Body = vec![Instr::Jump(Label(7)), Instr::Return(Symbol(0))];
    let def = setup_label_map(&body, Func(0)).ok().expect("no label, no clash");
    assert!(def.label_map.is_empty());
    let nothing: Body = vec![];
    assert!(setup_label_map(&nothing, Func(0)).ok().expect("empty body").label_map.is_empty());
}

#[test]
fn label_map_rejects_the_first_repeated_label() {
    let body: Body = vec![
        Instr::Label(Label(7)),
        Instr::Label(Label(8)),
        Instr::Label(Label(8)),
        Instr::Label(Label(7)),
    ];
    assert_eq!(
        setup_label_map(&body, Func(31)).err(),
        Some(VmError::RedefinitionOfLabel { func: 31, label: 8 })
    );
}

#[test]
fn jump_to_a_label_is_not_a_definition() {
    let body: Body = vec![Instr::Jump(Label(1)), Instr::Label(Label(1)), Instr::Jump(Label(1))];
    let def = setup_label_map(&body, Func(0)).ok().expect("defined once");
    assert_eq!(def.label_map, HashMap::from([(1, 1)]));
}

#[test]
fn whole_table_is_indexed() {
    let table: HashMap<usize, Body> = HashMap::from([
        (0, vec![Instr::Label(Label(1))]),
        (5, vec![Instr::Jump(Label(1)), Instr::Label(Label(1))]),
        (9, vec![]),
    ]);
    let indexed = index_program(&table).ok().expect("labels are distinct in each body");
    assert_eq!(indexed.len(), 3);
    assert_eq!(indexed[&0].label_map, HashMap::from([(1, 0)]));
    assert_eq!(indexed[&5].label_map, HashMap::from([(1, 1)]));
    assert!(indexed[&9].label_map.is_empty());
    assert_eq!(indexed[&5].body.len(), 2);
}

#[test]
fn table_with_a_repeated_label_is_not_indexed() {
    let table: HashMap<usize, Body> = HashMap::from([
        (0, vec![Instr::Label(Label(1))]),
        (5, vec![Instr::Label(Label(3)), Instr::Label(Label(3))]),
    ]);
    assert_eq!(
        index_program(&table).err(),
        Some(VmError::RedefinitionOfLabel { func: 5, label: 3 })
    );
}
