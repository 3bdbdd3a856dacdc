use vapo::{BorrowConflict, BorrowState, CellError, CellStore, Ref, ScriptConvert, ScriptValue};

fn text(v: &ScriptValue) -> String {
    match v {
        ScriptValue::Text(s) => s.clone(),
        _ => panic!("not a text value"),
    }
}

#[test]
fn set_then_get_round_trips() {
    let mut store: CellStore<String> = CellStore::new();
    let cell = Ref::new(&mut store, String::new());
    let v = String::from("héllo wörld");
    assert_eq!(cell.set(&mut store, &v.push()), Ok(()));
    let got = cell.get(&store).unwrap();
    assert_eq!(String::pull(&got), Ok(v));
}

#[test]
fn set_accepts_numbers_as_text() {
    let mut store: CellStore<String> = CellStore::new();
    let cell = Ref::new(&mut store, String::from("x"));
    assert_eq!(cell.set(&mut store, &ScriptValue::Number(String::from("42"))), Ok(()));
    assert_eq!(text(&cell.get(&store).unwrap()), "42");
}

#[test]
fn set_failure_keeps_value() {
    let mut store: CellStore<String> = CellStore::new();
    let cell = Ref::new(&mut store, String::from("keep"));
    for v in [ScriptValue::Nil, ScriptValue::Boolean(true), ScriptValue::Other, ScriptValue::Cell(0)] {
        assert_eq!(cell.set(&mut store, &v), Err(CellError::Conversion));
    }
    assert_eq!(text(&cell.get(&store).unwrap()), "keep");
}

#[test]
fn second_write_borrow_is_refused() {
    let mut store: CellStore<String> = CellStore::new();
    let cell = Ref::new(&mut store, String::from("a"));
    assert_eq!(cell.mut_(&mut store), Ok(()));
    for _ in 0..3 {
        assert_eq!(cell.mut_(&mut store), Err(BorrowConflict));
        assert_eq!(cell.ref_(&mut store), Err(BorrowConflict));
        assert_eq!(cell.get(&store), Err(BorrowConflict));
    }
    assert_eq!(
        cell.set(&mut store, &ScriptValue::Text(String::from("b"))),
        Err(CellError::BorrowConflict)
    );
    cell.end_borrow(&mut store);
    assert_eq!(store.borrow_state(cell.index()), BorrowState::Free);
    assert_eq!(cell.set(&mut store, &ScriptValue::Text(String::from("b"))), Ok(()));
}

#[test]
fn write_borrow_refused_while_read() {
    let mut store: CellStore<String> = CellStore::new();
    let cell = Ref::new(&mut store, String::from("a"));
    assert_eq!(cell.ref_(&mut store), Ok(()));
    assert_eq!(cell.ref_(&mut store), Ok(()));
    assert_eq!(store.borrow_state(cell.index()), BorrowState::Reading(2));
    assert_eq!(cell.mut_(&mut store), Err(BorrowConflict));
    assert_eq!(text(&cell.get(&store).unwrap()), "a");
    cell.end_borrow(&mut store);
    assert_eq!(cell.mut_(&mut store), Err(BorrowConflict));
    cell.end_borrow(&mut store);
    assert_eq!(cell.mut_(&mut store), Ok(()));
}

#[test]
fn shared_handles_see_one_value() {
    let mut store: CellStore<String> = CellStore::new();
    let a = Ref::new(&mut store, String::from("one"));
    let b = a.share(&mut store);
    assert_eq!(store.holders(a.index()), 2);
    assert_eq!(b.set(&mut store, &ScriptValue::Text(String::from("two"))), Ok(()));
    assert_eq!(text(&a.get(&store).unwrap()), "two");
    b.release(&mut store);
    assert_eq!(store.holders(a.index()), 1);
    a.release(&mut store);
    assert_eq!(store.holders(0), 0);
}

#[test]
fn cell_handle_from_script_value() {
    let mut store: CellStore<String> = CellStore::new();
    let a = Ref::new(&mut store, String::from("v"));
    let b = Ref::from_script(&ScriptValue::Cell(a.index()), &mut store).unwrap();
    assert_eq!(b.index(), a.index());
    assert_eq!(store.holders(a.index()), 2);
    assert!(Ref::from_script(&ScriptValue::Cell(7), &mut store).is_err());
    assert!(Ref::from_script(&ScriptValue::Text(String::from("v")), &mut store).is_err());
    b.release(&mut store);
    a.release(&mut store);
    assert!(Ref::from_script(&ScriptValue::Cell(0), &mut store).is_err());
}

#[test]
fn text_cell_stringifies_to_content() {
    let mut store: CellStore<String> = CellStore::new();
    let cell = Ref::new(&mut store, String::from("content"));
    assert_eq!(text(&cell.to_text(&store).unwrap()), "content");
    cell.mut_(&mut store).unwrap();
    assert_eq!(cell.to_text(&store), Err(BorrowConflict));
}

#[test]
fn unchanged_edit_reports_nothing() {
    let mut store: CellStore<String> = CellStore::new();
    let cell = Ref::new(&mut store, String::from("abc"));
    let current = cell.begin_edit(&mut store).unwrap();
    assert_eq!(current, "abc");
    assert_eq!(cell.apply_edit(&mut store, current), None);
    assert_eq!(store.borrow_state(cell.index()), BorrowState::Free);
}

#[test]
fn changed_edit_reports_once() {
    let mut store: CellStore<String> = CellStore::new();
    let cell = Ref::new(&mut store, String::from("abc"));
    cell.begin_edit(&mut store).unwrap();
    let change = cell.apply_edit(&mut store, String::from("abd")).unwrap();
    assert_eq!(change.before, "abc");
    assert_eq!(change.after, "abd");
    assert_eq!(text(&cell.get(&store).unwrap()), "abd");
    let again = cell.begin_edit(&mut store).unwrap();
    assert_eq!(cell.apply_edit(&mut store, again), None);
}

#[test]
fn edit_refused_while_borrowed() {
    let mut store: CellStore<String> = CellStore::new();
    let cell = Ref::new(&mut store, String::from("abc"));
    cell.ref_(&mut store).unwrap();
    assert_eq!(cell.begin_edit(&mut store), Err(BorrowConflict));
}
