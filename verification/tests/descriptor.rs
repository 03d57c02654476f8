use std::cell::RefCell;

use objbuiltinfunc::builtinfunc::{Callable, DescrGet, PyBuiltinMethod, PyFuncDef};
use objbuiltinfunc::objmodel::{
    validate_access, FuncArgs, ObjRef, PyContext, PyErr, PyObj, PyResult, PyTypes, VmRef,
};

fn test_types() -> PyTypes {
    PyTypes {
        builtin_function_or_method_type: 1,
        method_descriptor_type: 2,
        classmethod_type: 3,
        bound_method_type: 4,
        none_type: 5,
    }
}

fn vm() -> VmRef {
    VmRef { id: 901 }
}

fn nop(_vm: VmRef, _args: FuncArgs) -> PyResult {
    Err(PyErr::Native(ObjRef { class: 0, id: 0 }))
}

#[test]
fn validate_access_resolves_instance_class_or_fails() {
    let owner = 10;
    let i = ObjRef { class: 10, id: 1 };
    let j = ObjRef { class: 11, id: 2 };
    assert_eq!(validate_access(owner, Some(i), Some(10)), Ok(Some(i)));
    assert_eq!(validate_access(owner, Some(i), None), Ok(Some(i)));
    assert_eq!(validate_access(owner, Some(i), Some(99)), Ok(Some(i)));
    assert_eq!(
        validate_access(owner, Some(j), Some(11)),
        Err(PyErr::TypeMismatch { expected: 10, found: Some(11) })
    );
    assert_eq!(validate_access(owner, None, Some(10)), Ok(None));
    assert_eq!(
        validate_access(owner, None, Some(12)),
        Err(PyErr::TypeMismatch { expected: 10, found: Some(12) })
    );
    assert_eq!(
        validate_access(owner, None, None),
        Err(PyErr::TypeMismatch { expected: 10, found: None })
    );
}

#[test]
fn instance_access_yields_bound_method_with_that_target() {
    let mut ctx = PyContext::new(test_types());
    let list_class = 20;
    let d = PyFuncDef::new(nop).with_name(String::from("push")).build_method(&mut ctx, list_class);
    let i = ObjRef { class: list_class, id: 77 };
    match PyObj::descr_get(&d, Some(i), Some(list_class), &mut ctx) {
        Ok(DescrGet::Bound(b)) => {
            assert_eq!(b.value.target, i);
            assert_eq!(b.value.descriptor, d.id);
            assert_eq!(b.class, test_types().bound_method_type);
        }
        _ => panic!("expected a bound method"),
    }
}

#[test]
fn class_access_returns_the_descriptor_itself() {
    let mut ctx = PyContext::new(test_types());
    let list_class = 20;
    let d = PyFuncDef::new(nop).build_method(&mut ctx, list_class);
    match PyObj::descr_get(&d, None, Some(list_class), &mut ctx) {
        Ok(DescrGet::Unbound(id)) => assert_eq!(id, d.id),
        _ => panic!("expected the descriptor itself"),
    }
}

#[test]
fn foreign_instance_access_fails_with_type_mismatch() {
    let mut ctx = PyContext::new(test_types());
    let list_class = 20;
    let dict_class = 21;
    let d = PyFuncDef::new(nop).build_method(&mut ctx, list_class);
    let j = ObjRef { class: dict_class, id: 5 };
    match PyObj::descr_get(&d, Some(j), Some(dict_class), &mut ctx) {
        Err(e) => assert_eq!(e, PyErr::TypeMismatch { expected: list_class, found: Some(dict_class) }),
        _ => panic!("expected a type mismatch"),
    }
}

#[test]
fn access_with_neither_instance_nor_class_fails() {
    let mut ctx = PyContext::new(test_types());
    let list_class = 20;
    let d = PyFuncDef::new(nop).build_method(&mut ctx, list_class);
    match PyObj::descr_get(&d, None, None, &mut ctx) {
        Err(e) => assert_eq!(e, PyErr::TypeMismatch { expected: list_class, found: None }),
        _ => panic!("expected a type mismatch"),
    }
}

#[test]
fn repeated_binding_is_fresh_but_behaviourally_equal() {
    let mut ctx = PyContext::new(test_types());
    let list_class = 20;
    let first = ObjRef { class: 6, id: 1000 };
    let f = move |_vm: VmRef, args: FuncArgs| -> PyResult { Ok(args.args[0]) };
    let d = PyFuncDef::new(f).build_method(&mut ctx, list_class);
    let i = ObjRef { class: list_class, id: 8 };
    let b1 = match PyObj::descr_get(&d, Some(i), Some(list_class), &mut ctx) {
        Ok(DescrGet::Bound(b)) => b,
        _ => panic!("expected a bound method"),
    };
    let b2 = match PyObj::descr_get(&d, Some(i), Some(list_class), &mut ctx) {
        Ok(DescrGet::Bound(b)) => b,
        _ => panic!("expected a bound method"),
    };
    assert_ne!(b1.id, b2.id);
    assert_eq!(b1.value.target, b2.value.target);
    assert_eq!(b1.value.descriptor, b2.value.descriptor);
    let r1 = b1.invoke(vm(), FuncArgs { args: vec![first] });
    let r2 = b2.invoke(vm(), FuncArgs { args: vec![first] });
    assert_eq!(r1, Ok(i));
    assert_eq!(r1, r2);
}

#[test]
fn new_with_name_sets_name_and_owner() {
    let owner = 33;
    let d = PyBuiltinMethod::new_with_name(nop, String::from("insert"), owner);
    assert_eq!(d.name().as_deref(), Some("insert"));
    assert_eq!(d.doc().as_deref(), None::<&str>);
    assert_eq!(d.owner, owner);
}

#[test]
fn descriptor_invocation_forwards_like_a_plain_callable() {
    let seen: RefCell<Vec<Vec<ObjRef>>> = RefCell::new(Vec::new());
    let sr = &seen;
    let f = move |_vm: VmRef, args: FuncArgs| -> PyResult {
        sr.borrow_mut().push(args.args.clone());
        Ok(args.args[args.args.len() - 1])
    };
    let d = PyBuiltinMethod::new_with_name(f, String::from("get"), 44);
    let a = ObjRef { class: 44, id: 3 };
    let b = ObjRef { class: 45, id: 4 };
    let r = d.invoke(vm(), FuncArgs { args: vec![a, b] });
    assert_eq!(r, Ok(b));
    assert_eq!(seen.borrow().len(), 1);
    assert_eq!(seen.borrow()[0], vec![a, b]);
}

#[test]
fn append_scenario_end_to_end() {
    let mut ctx = PyContext::new(test_types());
    let list_class = 20;
    let seen: RefCell<Vec<Vec<ObjRef>>> = RefCell::new(Vec::new());
    let sr = &seen;
    let f = move |_vm: VmRef, args: FuncArgs| -> PyResult {
        sr.borrow_mut().push(args.args.clone());
        Ok(args.args[0])
    };
    let d = PyFuncDef::new(f).with_name(String::from("append")).build_method(&mut ctx, list_class);
    let l = ObjRef { class: list_class, id: 200 };
    let v = ObjRef { class: 7, id: 201 };
    let m = match PyObj::descr_get(&d, Some(l), Some(list_class), &mut ctx) {
        Ok(DescrGet::Bound(b)) => b,
        _ => panic!("expected a bound method"),
    };
    let bound_result = m.invoke(vm(), FuncArgs { args: vec![v] });
    let direct_result = d.invoke(vm(), FuncArgs { args: vec![l, v] });
    assert_eq!(seen.borrow().len(), 2);
    assert_eq!(seen.borrow()[0], vec![l, v]);
    assert_eq!(seen.borrow()[0], seen.borrow()[1]);
    assert_eq!(bound_result, Ok(l));
    assert_eq!(bound_result, direct_result);
}
