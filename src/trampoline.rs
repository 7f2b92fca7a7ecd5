//! The trampoline: what runs when the foreign side calls a closure through
//! its handle. It checks the handle's word 0, rebuilds the arguments from
//! their words in parameter order, calls the closure, lets the arguments go,
//! and only then packages the result.
use vstd::prelude::*;
use crate::guard::ClosureHandle;
use crate::words::{
    Kind, Value, WordGroup, join, join_spec, kind_of, lemma_join_split, split, split_spec,
};

verus! {

/// The largest number of arguments a closure may take across the boundary.
pub const MAX_ARITY: usize = 16;

/// How the closure may be entered: by many callers at once through a shared
/// reference, or by one caller at a time through a unique one.
#[derive(Clone, Copy, Debug, PartialEq, Eq, Structural)]
pub enum Mutability {
    Shared,
    Unique,
}

/// Why a call did not return a result.
#[derive(Clone, Copy, Debug, PartialEq, Eq, Structural)]
pub enum Fault {
    /// A shared closure was called after its handle was released.
    Released,
    /// A unique closure was called while a call was in progress, or after its
    /// handle was released.
    RecursiveOrReleased,
    /// Packaging the result raised the host-side fault with this code.
    Thrown(u32),
}

impl Fault {
    /// The fixed diagnostic that the foreign caller sees; a thrown fault
    /// carries its own value instead.
    pub fn message(&self) -> (r: &'static str)
        ensures
            r@ == fault_message(*self),
    {
        match self {
            Fault::Released => "closure invoked after being dropped",
            Fault::RecursiveOrReleased => "closure invoked recursively or after being dropped",
            Fault::Thrown(_) => "",
        }
    }
}

pub open spec fn fault_message(f: Fault) -> Seq<char> {
    match f {
        Fault::Released => "closure invoked after being dropped"@,
        Fault::RecursiveOrReleased => "closure invoked recursively or after being dropped"@,
        Fault::Thrown(_) => ""@,
    }
}

/// One step of a call, in the order the trampoline takes them.
#[derive(Clone, Copy, Debug, PartialEq, Eq, Structural)]
pub enum Step {
    /// The argument at this position was rebuilt from its words.
    Decoded(usize),
    /// The closure was called.
    Invoked,
    /// The arguments and the closure reference were let go.
    Released,
    /// The result was packaged into words.
    Packaged,
    /// Packaging raised a fault.
    Raised,
}

/// The shape of a closure: the kinds of its arguments and of its result.
pub struct Signature {
    pub args: Vec<Kind>,
    pub ret: Kind,
}

pub open spec fn guard_fault(m: Mutability) -> Fault {
    match m {
        Mutability::Shared => Fault::Released,
        Mutability::Unique => Fault::RecursiveOrReleased,
    }
}

/// The arguments rebuilt from their word groups, position by position.
pub open spec fn decode_all(kinds: Seq<Kind>, groups: Seq<WordGroup>) -> Seq<Value> {
    Seq::new(kinds.len(), |i: int| join_spec(kinds[i], groups[i]))
}

/// What the closure's outcome becomes at the boundary: the words of its
/// value, or the fault that it carried.
pub open spec fn package_spec(out: Result<Value, u32>) -> Result<WordGroup, Fault> {
    match out {
        Ok(v) => Ok(split_spec(v)),
        Err(code) => Err(Fault::Thrown(code)),
    }
}

pub open spec fn decode_steps(n: nat) -> Seq<Step> {
    Seq::new(n, |i: int| Step::Decoded(i as usize))
}

/// The steps of a call that passed the guard, with `n` arguments.
pub open spec fn call_steps(n: nat, out: Result<Value, u32>) -> Seq<Step> {
    decode_steps(n) + seq![
        Step::Invoked,
        Step::Released,
        if out is Ok { Step::Packaged } else { Step::Raised },
    ]
}

/// The liveness check: a zero word 0 stops the call with the fault of its kind.
pub fn check_live(m: Mutability, handle: ClosureHandle) -> (r: Result<(), Fault>)
    ensures
        handle.data == 0 ==> r == Err::<(), Fault>(guard_fault(m)),
        handle.data != 0 ==> r is Ok,
{
    if handle.data == 0 {
        match m {
            Mutability::Shared => Err(Fault::Released),
            Mutability::Unique => Err(Fault::RecursiveOrReleased),
        }
    } else {
        Ok(())
    }
}

/// Rebuilds the arguments from their word groups, strictly left to right.
pub fn decode_args(kinds: &Vec<Kind>, groups: &Vec<WordGroup>, log: &mut Vec<Step>) -> (r: Vec<
    Value,
>)
    requires
        groups.len() == kinds.len(),
    ensures
        r@ == decode_all(kinds@, groups@),
        final(log)@ == old(log)@ + decode_steps(kinds.len() as nat),
{
    let mut r: Vec<Value> = Vec::new();
    let mut i: usize = 0;
    while i < kinds.len()
        invariant
            groups.len() == kinds.len(),
            i <= kinds.len(),
            r@ == decode_all(kinds@.take(i as int), groups@),
            log@ == old(log)@ + decode_steps(i as nat),
        decreases kinds.len() - i,
    {
        r.push(join(kinds[i], groups[i]));
        log.push(Step::Decoded(i));
        i = i + 1;
        assert(r@ =~= decode_all(kinds@.take(i as int), groups@));
        assert(log@ =~= old(log)@ + decode_steps(i as nat));
    }
    assert(kinds@.take(i as int) =~= kinds@);
    r
}

/// Packages the closure's outcome, after everything else of the call is gone.
pub fn package_return(out: Result<Value, u32>, log: &mut Vec<Step>) -> (r: Result<WordGroup, Fault>)
    ensures
        r == package_spec(out),
        final(log)@ == old(log)@ + seq![if out is Ok { Step::Packaged } else { Step::Raised }],
{
    match out {
        Ok(v) => {
            log.push(Step::Packaged);
            Ok(split(v))
        },
        Err(code) => {
            log.push(Step::Raised);
            Err(Fault::Thrown(code))
        },
    }
}

/// Calls a shared closure through its handle with the argument words.
pub fn invoke_shared<F: Fn(Vec<Value>) -> Result<Value, u32>>(
    sig: &Signature,
    f: &F,
    handle: ClosureHandle,
    groups: &Vec<WordGroup>,
    log: &mut Vec<Step>,
) -> (r: Result<WordGroup, Fault>)
    requires
        sig.args.len() <= MAX_ARITY,
        groups.len() == sig.args.len(),
        forall|args: Vec<Value>| #[trigger] f.requires((args,)),
    ensures
        handle.data == 0 ==> r == Err::<WordGroup, Fault>(Fault::Released) && final(log)@ == old(
        log)@,
        handle.data != 0 ==> exists|args: Vec<Value>, out: Result<Value, u32>|
            args@ == decode_all(sig.args@, groups@) && #[trigger] f.ensures((args,), out) && r
                == package_spec(out) && final(log)@ == old(log)@ + call_steps(
                sig.args.len() as nat,
                out,
            ),
{
    if let Err(e) = check_live(Mutability::Shared, handle) {
        return Err(e);
    }
    let out = {
        let args = decode_args(&sig.args, groups, log);
        let ghost a = args;
        let out = f(args);
        log.push(Step::Invoked);
        log.push(Step::Released);
        assert(f.ensures((a,), out));
        out
    };
    let r = package_return(out, log);
    assert(log@ =~= old(log)@ + call_steps(sig.args.len() as nat, out));
    r
}

/// Calls a unique closure through its handle with the argument words. A
/// zero word 0 means released or already in a call: the call stops before
/// the closure is reached.
pub fn invoke_unique<F: Fn(Vec<Value>) -> Result<Value, u32>>(
    sig: &Signature,
    f: &F,
    handle: ClosureHandle,
    groups: &Vec<WordGroup>,
    log: &mut Vec<Step>,
) -> (r: Result<WordGroup, Fault>)
    requires
        sig.args.len() <= MAX_ARITY,
        groups.len() == sig.args.len(),
        forall|args: Vec<Value>| #[trigger] f.requires((args,)),
    ensures
        handle.data == 0 ==> r == Err::<WordGroup, Fault>(Fault::RecursiveOrReleased) && final(
        log)@ == old(log)@,
        handle.data != 0 ==> exists|args: Vec<Value>, out: Result<Value, u32>|
            args@ == decode_all(sig.args@, groups@) && #[trigger] f.ensures((args,), out) && r
                == package_spec(out) && final(log)@ == old(log)@ + call_steps(
                sig.args.len() as nat,
                out,
            ),
{
    if let Err(e) = check_live(Mutability::Unique, handle) {
        return Err(e);
    }
    let out = {
        let args = decode_args(&sig.args, groups, log);
        let ghost a = args;
        let out = f(args);
        log.push(Step::Invoked);
        log.push(Step::Released);
        assert(f.ensures((a,), out));
        out
    };
    let r = package_return(out, log);
    assert(log@ =~= old(log)@ + call_steps(sig.args.len() as nat, out));
    r
}

/// Calls a shared closure of one argument taken by reference: the argument
/// is borrowed from its words for the length of the call.
pub fn invoke_shared_ref<F: Fn(&Value) -> Result<Value, u32>>(
    kind: Kind,
    f: &F,
    handle: ClosureHandle,
    words: WordGroup,
    log: &mut Vec<Step>,
) -> (r: Result<WordGroup, Fault>)
    requires
        forall|arg: &Value| #[trigger] f.requires((arg,)),
    ensures
        handle.data == 0 ==> r == Err::<WordGroup, Fault>(Fault::Released) && final(log)@ == old(
        log)@,
        handle.data != 0 ==> exists|out: Result<Value, u32>|
            #[trigger] f.ensures((&join_spec(kind, words),), out) && r == package_spec(out) && final(
            log)@ == old(log)@ + call_steps(1, out),
{
    if let Err(e) = check_live(Mutability::Shared, handle) {
        return Err(e);
    }
    let out = {
        let arg = join(kind, words);
        log.push(Step::Decoded(0));
        let out = f(&arg);
        log.push(Step::Invoked);
        log.push(Step::Released);
        out
    };
    let r = package_return(out, log);
    assert(log@ =~= old(log)@ + call_steps(1, out));
    r
}

/// Calls a unique closure of one argument taken by reference.
pub fn invoke_unique_ref<F: Fn(&Value) -> Result<Value, u32>>(
    kind: Kind,
    f: &F,
    handle: ClosureHandle,
    words: WordGroup,
    log: &mut Vec<Step>,
) -> (r: Result<WordGroup, Fault>)
    requires
        forall|arg: &Value| #[trigger] f.requires((arg,)),
    ensures
        handle.data == 0 ==> r == Err::<WordGroup, Fault>(Fault::RecursiveOrReleased) && final(
        log)@ == old(log)@,
        handle.data != 0 ==> exists|out: Result<Value, u32>|
            #[trigger] f.ensures((&join_spec(kind, words),), out) && r == package_spec(out) && final(
            log)@ == old(log)@ + call_steps(1, out),
{
    if let Err(e) = check_live(Mutability::Unique, handle) {
        return Err(e);
    }
    let out = {
        let arg = join(kind, words);
        log.push(Step::Decoded(0));
        let out = f(&arg);
        log.push(Step::Invoked);
        log.push(Step::Released);
        out
    };
    let r = package_return(out, log);
    assert(log@ =~= old(log)@ + call_steps(1, out));
    r
}

/// Rebuilding arguments from the words they were split into gives the same
/// arguments: a closure called through a trampoline sees exactly the values
/// the caller packed, whatever their number and kinds.
pub proof fn lemma_arguments_round_trip(vs: Seq<Value>)
    ensures
        decode_all(vs.map_values(|v: Value| kind_of(v)), vs.map_values(|v: Value| split_spec(v)))
            == vs,
{
    assert forall|i: int| 0 <= i < vs.len() implies #[trigger] join_spec(
        kind_of(vs[i]),
        split_spec(vs[i]),
    ) == vs[i] by {
        lemma_join_split(vs[i]);
    }
    assert(decode_all(vs.map_values(|v: Value| kind_of(v)), vs.map_values(|v: Value| split_spec(v)))
        =~= vs);
}

/// Arguments are rebuilt strictly left to right, all of them before the
/// closure is called.
pub proof fn lemma_arguments_decoded_in_order(n: nat, out: Result<Value, u32>)
    ensures
        forall|i: int| 0 <= i < n ==> #[trigger] call_steps(n, out)[i] == Step::Decoded(i as usize),
        call_steps(n, out)[n as int] == Step::Invoked,
{
}

/// Everything of a call is let go before its result is packaged, so a fault
/// raised by packaging comes after the arguments are released; packaging is
/// the last step.
pub proof fn lemma_released_before_packaging(n: nat, out: Result<Value, u32>)
    ensures
        call_steps(n, out).len() == n + 3,
        call_steps(n, out)[n + 1int] == Step::Released,
        call_steps(n, out)[n + 2int] == (if out is Ok { Step::Packaged } else { Step::Raised }),
        forall|i: int|
            0 <= i < n + 2 ==> #[trigger] call_steps(n, out)[i] != Step::Raised && call_steps(
                n,
                out,
            )[i] != Step::Packaged,
{
}

} // verus!
