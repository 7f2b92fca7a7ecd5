use wasm_closures::describe::{describe, describe_ref, FUNCTION, REF};
use wasm_closures::guard::{CallState, ClosureHandle, GuardedHandle};
use wasm_closures::trampoline::{
    invoke_shared, invoke_shared_ref, invoke_unique, invoke_unique_ref, Fault, Signature, Step,
};
use wasm_closures::words::{join, split, Kind, Value, WordGroup};

fn add(args: Vec<Value>) -> Result<Value, u32> {
    match (args[0], args[1]) {
        (Value::I32(x), Value::I32(y)) => Ok(Value::I32(x + y)),
        _ => Err(1),
    }
}

fn words(w1: u32, w2: u32, w3: u32, w4: u32) -> WordGroup {
    WordGroup { w1, w2, w3, w4 }
}

#[test]
fn add_through_arity_two_trampoline() {
    let g = GuardedHandle::expose(0x1000, 8).unwrap();
    let sig = Signature { args: vec![Kind::I32, Kind::I32], ret: Kind::I32 };
    let groups = vec![split(Value::I32(3)), split(Value::I32(4))];
    let mut log = Vec::new();
    let r = invoke_shared(&sig, &add, g.words(), &groups, &mut log).unwrap();
    assert_eq!(join(Kind::I32, r), Value::I32(7));
    assert_eq!(
        log,
        vec![Step::Decoded(0), Step::Decoded(1), Step::Invoked, Step::Released, Step::Packaged]
    );
}

#[test]
fn released_handle_is_refused() {
    let mut g = GuardedHandle::expose(0x1000, 8).unwrap();
    let sig = Signature { args: vec![Kind::I32, Kind::I32], ret: Kind::I32 };
    let groups = vec![split(Value::I32(3)), split(Value::I32(4))];
    let mut log = Vec::new();
    g.release();
    assert_eq!(g.state, CallState::Released);
    let stale = g.words();
    assert_eq!(stale.data, 0);
    let r = invoke_shared(&sig, &add, stale, &groups, &mut log);
    assert_eq!(r, Err(Fault::Released));
    assert!(log.is_empty());
    assert_eq!(Fault::Released.message(), "closure invoked after being dropped");
}

#[test]
fn released_handle_refused_for_every_arity_and_kind() {
    let dead = ClosureHandle::from_words(0, 4);
    let called = |_: Vec<Value>| -> Result<Value, u32> { panic!("closure entered") };
    for n in 0..=16usize {
        let sig = Signature { args: vec![Kind::U32; n], ret: Kind::Unit };
        let groups = vec![words(0, 0, 0, 0); n];
        let mut log = Vec::new();
        assert_eq!(invoke_shared(&sig, &called, dead, &groups, &mut log), Err(Fault::Released));
        assert_eq!(
            invoke_unique(&sig, &called, dead, &groups, &mut log),
            Err(Fault::RecursiveOrReleased)
        );
        assert!(log.is_empty());
    }
    let by_ref = |_: &Value| -> Result<Value, u32> { panic!("closure entered") };
    let mut log = Vec::new();
    assert_eq!(
        invoke_shared_ref(Kind::U32, &by_ref, dead, words(1, 0, 0, 0), &mut log),
        Err(Fault::Released)
    );
    assert_eq!(
        invoke_unique_ref(Kind::U32, &by_ref, dead, words(1, 0, 0, 0), &mut log),
        Err(Fault::RecursiveOrReleased)
    );
    assert!(log.is_empty());
}

#[test]
fn reentry_during_call_is_refused() {
    let mut g = GuardedHandle::expose(0x2000, 16).unwrap();
    let sig = Signature { args: vec![Kind::U32], ret: Kind::U32 };
    let groups = vec![split(Value::U32(5))];
    let id = |a: Vec<Value>| -> Result<Value, u32> { Ok(a[0]) };
    let mut log = Vec::new();
    assert!(g.begin_call());
    assert_eq!(g.state, CallState::InCall);
    assert!(!g.begin_call());
    let r = invoke_unique(&sig, &id, g.words(), &groups, &mut log);
    assert_eq!(r, Err(Fault::RecursiveOrReleased));
    assert!(log.is_empty());
    assert_eq!(
        Fault::RecursiveOrReleased.message(),
        "closure invoked recursively or after being dropped"
    );
    g.end_call();
    assert_eq!(g.state, CallState::Live);
    assert_eq!(g.words(), ClosureHandle::from_words(0x2000, 16));
    let r = invoke_unique(&sig, &id, g.words(), &groups, &mut log).unwrap();
    assert_eq!(join(Kind::U32, r), Value::U32(5));
}

#[test]
fn release_is_terminal() {
    let mut g = GuardedHandle::expose(0x3000, 1).unwrap();
    g.release();
    assert!(!g.begin_call());
    g.end_call();
    assert_eq!(g.state, CallState::Released);
    assert!(!g.words().is_live());
    assert!(GuardedHandle::expose(0, 1).is_none());
}

#[test]
fn every_arity_sees_its_arguments() {
    for n in 0..=16usize {
        let vals: Vec<Value> = (0..n).map(|i| Value::I64(-(i as i64) * 1_000_000_007)).collect();
        let sig = Signature { args: vec![Kind::I64; n], ret: Kind::U64 };
        let groups: Vec<WordGroup> = vals.iter().map(|v| split(*v)).collect();
        let expected = vals.clone();
        let check = move |a: Vec<Value>| -> Result<Value, u32> {
            assert_eq!(a, expected);
            Ok(Value::U64(a.len() as u64))
        };
        let h = ClosureHandle::from_words(0x40, 0x80);
        let mut log = Vec::new();
        let r = invoke_shared(&sig, &check, h, &groups, &mut log).unwrap();
        assert_eq!(join(Kind::U64, r), Value::U64(n as u64));
        let r = invoke_unique(&sig, &check, h, &groups, &mut log).unwrap();
        assert_eq!(join(Kind::U64, r), Value::U64(n as u64));
        assert_eq!(log.len(), 2 * (n + 3));
    }
}

#[test]
fn arguments_decoded_left_to_right() {
    let sig = Signature { args: vec![Kind::U128, Kind::Bool, Kind::Vector], ret: Kind::Unit };
    let groups = vec![
        split(Value::U128(1)),
        split(Value::Bool(true)),
        split(Value::Vector { ptr: 3, len: 3, cap: 3 }),
    ];
    let f = |_: Vec<Value>| -> Result<Value, u32> { Ok(Value::Unit) };
    let mut log = Vec::new();
    invoke_shared(&sig, &f, ClosureHandle::from_words(1, 0), &groups, &mut log).unwrap();
    assert_eq!(&log[..3], &[Step::Decoded(0), Step::Decoded(1), Step::Decoded(2)]);
    assert_eq!(log[3], Step::Invoked);
}

#[test]
fn packaging_fault_comes_after_release() {
    let sig = Signature { args: vec![Kind::U32, Kind::U32], ret: Kind::U32 };
    let groups = vec![split(Value::U32(1)), split(Value::U32(2))];
    let f = |_: Vec<Value>| -> Result<Value, u32> { Err(77) };
    let mut log = Vec::new();
    let r = invoke_shared(&sig, &f, ClosureHandle::from_words(9, 9), &groups, &mut log);
    assert_eq!(r, Err(Fault::Thrown(77)));
    let released = log.iter().position(|s| *s == Step::Released).unwrap();
    let raised = log.iter().position(|s| *s == Step::Raised).unwrap();
    assert!(released < raised);
    assert_eq!(raised, log.len() - 1);
}

#[test]
fn by_reference_argument() {
    let f = |a: &Value| -> Result<Value, u32> {
        match a {
            Value::Slice { ptr, len } => Ok(Value::U32(ptr + len)),
            _ => Err(0),
        }
    };
    let h = ClosureHandle::from_words(5, 5);
    let mut log = Vec::new();
    let r = invoke_shared_ref(Kind::Slice, &f, h, words(10, 20, 0, 0), &mut log).unwrap();
    assert_eq!(r, words(30, 0, 0, 0));
    let r = invoke_unique_ref(Kind::Slice, &f, h, words(1, 2, 0, 0), &mut log).unwrap();
    assert_eq!(r, words(3, 0, 0, 0));
    assert_eq!(log.len(), 8);
}

#[test]
fn split_join_round_trip_each_width() {
    let cases = [
        (Kind::U32, words(0xdead_beef, 0, 0, 0)),
        (Kind::I32, words(0xffff_fffe, 0, 0, 0)),
        (Kind::U64, words(0x1234_5678, 0x9abc_def0, 0, 0)),
        (Kind::I64, words(1, 0x8000_0000, 0, 0)),
        (Kind::Vector, words(7, 8, 9, 0)),
        (Kind::U128, words(1, 2, 3, 0xffff_ffff)),
        (Kind::Bool, words(1, 0, 0, 0)),
    ];
    for (k, g) in cases {
        assert_eq!(split(join(k, g)), g);
    }
}

#[test]
fn exact_word_values() {
    assert_eq!(split(Value::I32(-1)), words(0xffff_ffff, 0, 0, 0));
    assert_eq!(split(Value::U64(0x1_0000_0002)), words(2, 1, 0, 0));
    assert_eq!(split(Value::I64(-2)), words(0xffff_fffe, 0xffff_ffff, 0, 0));
    assert_eq!(split(Value::U128(1u128 << 96 | 5)), words(5, 0, 0, 1));
    assert_eq!(join(Kind::I32, words(0x8000_0000, 0, 0, 0)), Value::I32(i32::MIN));
    assert_eq!(join(Kind::Bool, words(2, 0, 0, 0)), Value::Bool(true));
    assert_eq!(join(Kind::U32, words(4, 99, 99, 99)), Value::U32(4));
    assert_eq!(join(Kind::U128, words(1, 0, 0, 0x8000_0000)), Value::U128(1u128 << 127 | 1));
    assert_eq!(split(Value::U128(u128::MAX)), words(u32::MAX, u32::MAX, u32::MAX, u32::MAX));
}

#[test]
fn descriptor_tokens() {
    let sig = Signature { args: vec![Kind::I32, Kind::Bool], ret: Kind::U64 };
    let mut out = vec![99];
    describe(&sig, 1234, &mut out);
    assert_eq!(out, vec![99, FUNCTION, 1234, 2, 2, 1, 5, 5]);
    describe(&sig, 1234, &mut out);
    assert_eq!(out.len(), 15);
    let mut out = Vec::new();
    describe_ref(Kind::Slice, Kind::Unit, 7, &mut out);
    assert_eq!(out, vec![FUNCTION, 7, 1, REF, 6, 0, 0]);
    let empty = Signature { args: vec![], ret: Kind::Unit };
    let mut out = Vec::new();
    describe(&empty, 0, &mut out);
    assert_eq!(out, vec![FUNCTION, 0, 0, 0, 0]);
}
