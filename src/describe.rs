//! Type descriptors: the account of a closure's shape that the binding
//! generator reads. Emitting one appends tokens to an accumulator and never
//! touches a call.
use vstd::prelude::*;
use crate::trampoline::{MAX_ARITY, Signature};
use crate::words::Kind;

verus! {

/// Marks the start of a function value.
pub const FUNCTION: u32 = 0x20;

/// Marks an argument taken by reference; the argument's own token follows.
pub const REF: u32 = 0x21;

/// The token of a kind.
pub open spec fn tag_spec(k: Kind) -> u32 {
    match k {
        Kind::Unit => 0,
        Kind::Bool => 1,
        Kind::I32 => 2,
        Kind::U32 => 3,
        Kind::I64 => 4,
        Kind::U64 => 5,
        Kind::Slice => 6,
        Kind::Vector => 7,
        Kind::U128 => 8,
    }
}

/// The descriptor of a closure whose trampoline has identity `id`: the
/// function mark, the identity, the arity, each argument's token, and the
/// result's token twice (the declared result, then the slot for its fault).
pub open spec fn descriptor(args: Seq<Kind>, ret: Kind, id: u32) -> Seq<u32> {
    seq![FUNCTION, id, args.len() as u32] + args.map_values(|k: Kind| tag_spec(k)) + seq![
        tag_spec(ret),
        tag_spec(ret),
    ]
}

/// The descriptor of a one-argument closure that takes its argument by reference.
pub open spec fn ref_descriptor(arg: Kind, ret: Kind, id: u32) -> Seq<u32> {
    seq![FUNCTION, id, 1, REF, tag_spec(arg), tag_spec(ret), tag_spec(ret)]
}

pub fn tag(k: Kind) -> (t: u32)
    ensures
        t == tag_spec(k),
{
    match k {
        Kind::Unit => 0,
        Kind::Bool => 1,
        Kind::I32 => 2,
        Kind::U32 => 3,
        Kind::I64 => 4,
        Kind::U64 => 5,
        Kind::Slice => 6,
        Kind::Vector => 7,
        Kind::U128 => 8,
    }
}

/// Appends the descriptor of a closure of shape `sig` to `out`.
pub fn describe(sig: &Signature, id: u32, out: &mut Vec<u32>)
    requires
        sig.args.len() <= MAX_ARITY,
    ensures
        final(out)@ == old(out)@ + descriptor(sig.args@, sig.ret, id),
{
    out.push(FUNCTION);
    out.push(id);
    out.push(sig.args.len() as u32);
    let mut i: usize = 0;
    while i < sig.args.len()
        invariant
            i <= sig.args.len() <= MAX_ARITY,
            out@ == old(out)@ + seq![FUNCTION, id, sig.args.len() as u32] + sig.args@.take(
                i as int,
            ).map_values(|k: Kind| tag_spec(k)),
        decreases sig.args.len() - i,
    {
        out.push(tag(sig.args[i]));
        i = i + 1;
        assert(sig.args@.take(i as int) =~= sig.args@.take(i - 1) + seq![sig.args@[i - 1]]);
        assert(out@ =~= old(out)@ + seq![FUNCTION, id, sig.args.len() as u32] + sig.args@.take(
            i as int,
        ).map_values(|k: Kind| tag_spec(k)));
    }
    assert(sig.args@.take(i as int) =~= sig.args@);
    let t = tag(sig.ret);
    out.push(t);
    out.push(t);
    assert(out@ =~= old(out)@ + descriptor(sig.args@, sig.ret, id));
}

/// Appends the descriptor of a one-argument closure that takes its argument
/// by reference.
pub fn describe_ref(arg: Kind, ret: Kind, id: u32, out: &mut Vec<u32>)
    ensures
        final(out)@ == old(out)@ + ref_descriptor(arg, ret, id),
{
    out.push(FUNCTION);
    out.push(id);
    out.push(1);
    out.push(REF);
    out.push(tag(arg));
    let t = tag(ret);
    out.push(t);
    out.push(t);
    assert(out@ =~= old(out)@ + ref_descriptor(arg, ret, id));
}

} // verus!
