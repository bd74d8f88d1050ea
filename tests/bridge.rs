use wasmtime_rb::func::{finish, prepare, show_results, FuncType, InvokeError};
use wasmtime_rb::params::{accept_results, adapt_params, ConvertError};
use wasmtime_rb::store::{Caller, CallerError, Export, ExternKind, StoreData};
use wasmtime_rb::trampoline::{complete_call, marshal_params, ClosureOutcome, HostReturn, TrapReason};
use wasmtime_rb::value::{narrow, to_host, to_vm, widen, HostValue, Val, ValType};

fn sig(params: Vec<ValType>, results: Vec<ValType>) -> FuncType {
    FuncType { params, results }
}

fn hint(n: i128) -> HostValue {
    HostValue::Integer(n)
}

// Runs one call the way the engine would: arguments are adapted, the closure
// runs on their host values, and its outcome comes back as results or a trap.
fn run(
    store: &mut StoreData,
    ty: &FuncType,
    args: Vec<HostValue>,
    closure: impl Fn(Vec<HostValue>) -> ClosureOutcome,
) -> Result<HostReturn, InvokeError> {
    let vals = prepare(ty, &args)?;
    let host_args = marshal_params(None, &vals);
    let engine = match complete_call(store, &ty.results, closure(host_args)) {
        Ok(results) => Ok(results),
        Err(_) => Err("wasm trap: host function failed".to_string()),
    };
    finish(store, engine)
}

fn sum(args: Vec<HostValue>) -> ClosureOutcome {
    let mut total: i128 = 0;
    for a in args {
        if let HostValue::Integer(n) = a {
            total += n;
        }
    }
    ClosureOutcome::Returned(HostReturn::Value(HostValue::Integer(total)))
}

fn is_value(r: &Result<HostReturn, InvokeError>, v: HostValue) -> bool {
    matches!(r, Ok(HostReturn::Value(x)) if *x == v)
}

fn is_list(r: &Result<HostReturn, InvokeError>, v: &[HostValue]) -> bool {
    matches!(r, Ok(HostReturn::List(x)) if x.as_slice() == v)
}

#[test]
fn sum_of_two_i32() {
    let mut store = StoreData::new(HostValue::Nil);
    let ty = sig(vec![ValType::I32, ValType::I32], vec![ValType::I32]);
    let r = run(&mut store, &ty, vec![hint(2), hint(3)], sum);
    assert!(is_value(&r, hint(5)));
}

#[test]
fn sum_with_one_argument_is_arity_error() {
    let mut store = StoreData::new(HostValue::Nil);
    let ty = sig(vec![ValType::I32, ValType::I32], vec![ValType::I32]);
    let r = run(&mut store, &ty, vec![hint(2)], |_| panic!("the closure must not run"));
    assert!(matches!(
        r,
        Err(InvokeError::Error(ConvertError::Arity { expected: 2, given: 1 }))
    ));
}

#[test]
fn raised_exception_reaches_the_outer_call() {
    let boom: u64 = 0xb00;
    let mut store = StoreData::new(HostValue::Nil);
    let ty = sig(vec![ValType::I32, ValType::I32], vec![ValType::I32]);
    let r = run(&mut store, &ty, vec![hint(1), hint(1)], |_| ClosureOutcome::Raised(boom));
    assert!(matches!(r, Err(InvokeError::BoxedException(e)) if e == boom));
    let mut after = store;
    assert_eq!(after.take_exception(), None);
}

#[test]
fn trap_without_exception_keeps_engine_text() {
    let mut store = StoreData::new(HostValue::Nil);
    let r = finish(&mut store, Err("unreachable".to_string()));
    assert!(matches!(r, Err(InvokeError::Trap(t)) if t == "unreachable"));
}

#[test]
fn failure_without_exception_is_a_plain_trap() {
    let mut store = StoreData::new(HostValue::Nil);
    let ty = sig(vec![], vec![]);
    let r = complete_call(&mut store, &ty.results, ClosureOutcome::Failed);
    assert_eq!(r, Err(TrapReason::Failed));
    assert_eq!(store.take_exception(), None);
}

#[test]
fn two_results_from_a_sequence() {
    let mut store = StoreData::new(HostValue::Nil);
    let ty = sig(vec![], vec![ValType::I32, ValType::I32]);
    let r = run(&mut store, &ty, vec![], |_| {
        ClosureOutcome::Returned(HostReturn::List(vec![hint(1), hint(2)]))
    });
    assert!(is_list(&r, &[hint(1), hint(2)]));
}

#[test]
fn two_results_from_a_bare_value_is_arity_error() {
    let mut store = StoreData::new(HostValue::Nil);
    let ty = sig(vec![], vec![ValType::I32, ValType::I32]);
    let r = complete_call(
        &mut store,
        &ty.results,
        ClosureOutcome::Returned(HostReturn::Value(hint(1))),
    );
    assert_eq!(
        r,
        Err(TrapReason::Results(ConvertError::Arity { expected: 2, given: 1 }))
    );
}

#[test]
fn one_result_bare_or_in_a_sequence() {
    let ts = vec![ValType::I64];
    let mut store = StoreData::new(HostValue::Nil);
    let bare = complete_call(&mut store, &ts, ClosureOutcome::Returned(HostReturn::Value(hint(-7))));
    let listed = complete_call(
        &mut store,
        &ts,
        ClosureOutcome::Returned(HostReturn::List(vec![hint(-7)])),
    );
    assert_eq!(bare, Ok(vec![Val::I64(-7)]));
    assert_eq!(bare, listed);
}

#[test]
fn no_results_ignore_what_is_returned() {
    let mut store = StoreData::new(HostValue::Nil);
    let ts: Vec<ValType> = vec![];
    let r = complete_call(
        &mut store,
        &ts,
        ClosureOutcome::Returned(HostReturn::List(vec![hint(1), HostValue::Bool(true)])),
    );
    assert_eq!(r, Ok(vec![]));
    let shown = finish(&mut store, Ok(vec![]));
    assert!(is_value(&shown, HostValue::Nil));
}

#[test]
fn results_round_trip_through_a_closure() {
    let vals = vec![
        Val::I32(-1),
        Val::I64(i64::MIN),
        Val::F32(0x3f80_0000),
        Val::F64(0x4009_21fb_5444_2d18),
        Val::ExternRef(Some(9)),
        Val::FuncRef(None),
    ];
    let ts = vec![
        ValType::I32,
        ValType::I64,
        ValType::F32,
        ValType::F64,
        ValType::ExternRef,
        ValType::FuncRef,
    ];
    let shown = show_results(&vals);
    let mut store = StoreData::new(HostValue::Nil);
    let back = complete_call(&mut store, &ts, ClosureOutcome::Returned(shown));
    assert_eq!(back, Ok(vals));
}

#[test]
fn argument_conversion_reports_first_bad_index() {
    let ts = vec![ValType::I32, ValType::I32, ValType::F64];
    let r = adapt_params(&vec![hint(1), hint(1i128 << 31), HostValue::Nil], &ts);
    assert_eq!(
        r,
        Err(ConvertError::Conversion { index: 1, expected_type: ValType::I32 })
    );
    let r = adapt_params(&vec![hint(1), hint(-(1i128 << 31)), HostValue::Float(0)], &ts);
    assert_eq!(r, Ok(vec![Val::I32(1), Val::I32(i32::MIN), Val::F64(0)]));
}

#[test]
fn argument_arity_error_carries_both_counts() {
    let r = adapt_params(&vec![hint(1), hint(2), hint(3)], &vec![ValType::I64]);
    assert_eq!(r, Err(ConvertError::Arity { expected: 1, given: 3 }));
    let r = accept_results(&vec![ValType::I64], &vec![]);
    assert_eq!(r, Err(ConvertError::Arity { expected: 1, given: 0 }));
}

#[test]
fn integer_ranges_are_enforced() {
    assert_eq!(to_vm(&hint(i32::MAX as i128), ValType::I32), Some(Val::I32(i32::MAX)));
    assert_eq!(to_vm(&hint(i32::MAX as i128 + 1), ValType::I32), None);
    assert_eq!(to_vm(&hint(i64::MIN as i128), ValType::I64), Some(Val::I64(i64::MIN)));
    assert_eq!(to_vm(&hint(i64::MIN as i128 - 1), ValType::I64), None);
    assert_eq!(to_vm(&HostValue::Bool(true), ValType::I32), None);
    assert_eq!(to_vm(&HostValue::Float(0), ValType::I64), None);
}

#[test]
fn references_convert_from_nil_and_objects() {
    assert_eq!(to_vm(&HostValue::Nil, ValType::ExternRef), Some(Val::ExternRef(None)));
    assert_eq!(to_vm(&HostValue::Object(4), ValType::ExternRef), Some(Val::ExternRef(Some(4))));
    assert_eq!(to_vm(&HostValue::Func(5), ValType::FuncRef), Some(Val::FuncRef(Some(5))));
    assert_eq!(to_vm(&HostValue::Object(4), ValType::FuncRef), None);
    assert_eq!(to_host(&Val::FuncRef(Some(5))), HostValue::Func(5));
    assert_eq!(to_host(&Val::ExternRef(None)), HostValue::Nil);
    assert_eq!(to_host(&Val::I32(-3)), hint(-3));
}

#[test]
fn widening_matches_the_hardware() {
    let samples: [u32; 10] = [
        0x0000_0000,
        0x8000_0000,
        0x3f80_0000,
        0xc049_0fdb,
        0x7f7f_ffff,
        0x0080_0000,
        0x0000_0001,
        0x8040_0000,
        0x7f80_0000,
        0xff80_0000,
    ];
    for b in samples {
        assert_eq!(widen(b), (f32::from_bits(b) as f64).to_bits(), "{:#x}", b);
    }
    assert_eq!(widen(0x0000_0001), 0x36a0_0000_0000_0000);
}

#[test]
fn every_binary32_class_round_trips() {
    let samples: [u32; 8] = [
        0x0000_0001,
        0x8000_0003,
        0x007f_ffff,
        0x0040_0000,
        0x3f80_0000,
        0x7f80_0000,
        0x7fc0_0001,
        0x8000_0000,
    ];
    for b in samples {
        assert_eq!(narrow(widen(b)), Some(b), "{:#x}", b);
        let host = to_host(&Val::F32(b));
        assert_eq!(to_vm(&host, ValType::F32), Some(Val::F32(b)));
    }
}

#[test]
fn narrowing_is_exact_or_refused() {
    let exact: [f32; 6] = [1.0, -2.5, 3.0e38, 1.0e-40, 1.1754944e-38, 0.0];
    for x in exact {
        assert_eq!(narrow((x as f64).to_bits()), Some(x.to_bits()));
    }
    assert_eq!(narrow(0.1f64.to_bits()), None);
    assert_eq!(narrow(1.0e300f64.to_bits()), None);
    assert_eq!(narrow(1.0e-320f64.to_bits()), None);
    assert_eq!(narrow(f64::INFINITY.to_bits()), Some(f32::INFINITY.to_bits()));
    assert_eq!(to_vm(&HostValue::Float(0.1f64.to_bits()), ValType::F32), None);
    assert_eq!(
        to_vm(&HostValue::Float(0.5f64.to_bits()), ValType::F32),
        Some(Val::F32(0.5f32.to_bits()))
    );
}

#[test]
fn caller_context_is_first_argument_once() {
    let caller = HostValue::Object(77);
    let args = marshal_params(Some(caller), &vec![Val::I32(4), Val::I64(5)]);
    assert_eq!(args, vec![caller, hint(4), hint(5)]);
    assert_eq!(args.iter().filter(|a| **a == caller).count(), 1);
    let plain = marshal_params(None, &vec![Val::I32(4)]);
    assert_eq!(plain, vec![hint(4)]);
}

#[test]
fn caller_sees_user_data_only_during_the_call() {
    let mut store = StoreData::new(HostValue::Object(42));
    let c: Caller = store.open_scope().unwrap();
    assert_eq!(c.store_data(&store), Ok(HostValue::Object(42)));
    let inner = store.open_scope().unwrap();
    assert_ne!(inner, c);
    store.close_scope(inner);
    assert_eq!(inner.store_data(&store), Err(CallerError::Expired));
    assert_eq!(c.store_data(&store), Ok(HostValue::Object(42)));
    store.close_scope(c);
    assert_eq!(c.store_data(&store), Err(CallerError::Expired));
    assert_eq!(c.export(&store, Some(Export::Func(3))), Err(CallerError::Expired));
}

#[test]
fn caller_exports_functions_and_refuses_other_kinds() {
    let mut store = StoreData::new(HostValue::Nil);
    let c = store.open_scope().unwrap();
    assert_eq!(c.export(&store, None), Ok(None));
    assert_eq!(c.export(&store, Some(Export::Func(3))), Ok(Some(HostValue::Func(3))));
    assert_eq!(
        c.export(&store, Some(Export::Memory)),
        Err(CallerError::UnsupportedExportKind(ExternKind::Memory))
    );
    assert_eq!(
        c.export(&store, Some(Export::Table)),
        Err(CallerError::UnsupportedExportKind(ExternKind::Table))
    );
    assert_eq!(
        c.export(&store, Some(Export::Global)),
        Err(CallerError::UnsupportedExportKind(ExternKind::Global))
    );
}

#[test]
fn latest_raise_is_the_one_held() {
    let mut store = StoreData::new(HostValue::Nil);
    let ts: Vec<ValType> = vec![];
    assert_eq!(complete_call(&mut store, &ts, ClosureOutcome::Raised(1)), Err(TrapReason::Raised));
    assert_eq!(complete_call(&mut store, &ts, ClosureOutcome::Raised(2)), Err(TrapReason::Raised));
    let r = finish(&mut store, Err("trap".to_string()));
    assert!(matches!(r, Err(InvokeError::BoxedException(2))));
    let r = finish(&mut store, Err("trap".to_string()));
    assert!(matches!(r, Err(InvokeError::Trap(_))));
}

#[test]
fn retained_values_stay_with_the_store() {
    let mut store = StoreData::new(HostValue::Nil);
    store.retain(10);
    store.retain(11);
    assert_eq!(store.user_data(), HostValue::Nil);
    assert_eq!(store.take_exception(), None);
}
