use lurk::circuit::ToInputs;
use lurk::eval::IO;
use lurk::store::{ContPtr, Ptr, ScalarContPtr, ScalarPtr, Store};
use std::marker::PhantomData;

fn ptr(raw: usize) -> Ptr<u64> {
    Ptr { raw, _p: PhantomData }
}

fn cont(raw: usize) -> ContPtr<u64> {
    ContPtr { raw, _p: PhantomData }
}

fn store() -> Store<u64> {
    Store {
        exprs: vec![
            Some(ScalarPtr { tag: 1, value: 10 }),
            None,
            Some(ScalarPtr { tag: 2, value: 20 }),
        ],
        conts: vec![Some(ScalarContPtr { tag: 3, value: 30 }), None],
    }
}

#[test]
fn io_inputs_are_tags_and_hashes_in_order() {
    let io = IO { expr: ptr(2), env: ptr(0), cont: cont(0) };
    assert_eq!(io.to_inputs(&store()), vec![2, 20, 1, 10, 3, 30]);
}

#[test]
fn io_input_size_is_the_length() {
    let io = IO { expr: ptr(0), env: ptr(2), cont: cont(0) };
    assert_eq!(<IO<u64> as ToInputs<u64>>::input_size(), 6);
    assert_eq!(io.to_inputs(&store()).len(), 6);
}

#[test]
fn present_value_has_its_own_inputs() {
    let io = IO { expr: ptr(0), env: ptr(0), cont: cont(0) };
    assert_eq!(Some(io).to_inputs(&store()), vec![1, 10, 1, 10, 3, 30]);
}

#[test]
fn store_has_only_what_was_hashed() {
    let store = store();
    let scalar = store.hash_expr(&ptr(2)).unwrap();
    assert_eq!((*scalar.tag(), *scalar.value()), (2, 20));
    assert!(store.hash_expr(&ptr(1)).is_none());
    assert!(store.hash_expr(&ptr(3)).is_none());
    let scalar = store.hash_cont(&cont(0)).unwrap();
    assert_eq!((*scalar.tag(), *scalar.value()), (3, 30));
    assert!(store.hash_cont(&cont(1)).is_none());
    assert!(store.hash_cont(&cont(2)).is_none());
}
