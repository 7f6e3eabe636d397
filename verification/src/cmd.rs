//! The compiled form of one external-tool invocation.

use vstd::prelude::*;

verus! {

/// The sequence of byte strings held by an argument vector.
pub open spec fn arg_seq(args: Seq<Vec<u8>>) -> Seq<Seq<u8>> {
    args.map_values(|a: Vec<u8>| a@)
}

/// A fully compiled invocation: the program to execute and its ordered
/// argument vector.  Every element is an opaque byte string that becomes
/// exactly one argv entry, so shell metacharacters are inert and no
/// encoding of the bytes is ever assumed.
pub struct Cmd {
    pub program: Vec<u8>,
    pub args: Vec<Vec<u8>>,
}

impl Cmd {
    /// The argument vector as a sequence of byte sequences.
    pub open spec fn args_view(&self) -> Seq<Seq<u8>> {
        arg_seq(self.args@)
    }

    /// A new invocation of `program` with no arguments yet.
    pub fn new(program: Vec<u8>) -> (c: Cmd)
        ensures
            c.program@ == program@,
            c.args_view() == Seq::<Seq<u8>>::empty(),
    {
        let c = Cmd { program, args: Vec::new() };
        proof {
            assert(c.args_view() =~= Seq::<Seq<u8>>::empty());
        }
        c
    }

    /// Appends one argument at the end of the vector.
    pub fn arg(&mut self, a: Vec<u8>)
        ensures
            final(self).program == old(self).program,
            final(self).args_view() == old(self).args_view().push(a@),
    {
        self.args.push(a);
        proof {
            assert(self.args_view() =~= old(self).args_view().push(a@));
        }
    }

    /// Appends every element of `extra`, in order, at the end of the vector.
    pub fn append_args(&mut self, extra: &Vec<Vec<u8>>)
        ensures
            final(self).program == old(self).program,
            final(self).args_view() == old(self).args_view() + arg_seq(extra@),
    {
        let mut i: usize = 0;
        while i < extra.len()
            invariant
                i <= extra.len(),
                self.program == old(self).program,
                self.args_view() == old(self).args_view() + arg_seq(extra@.take(i as int)),
            decreases extra.len() - i,
        {
            let a = clone_bytes(&extra[i]);
            self.arg(a);
            proof {
                assert(arg_seq(extra@.take(i + 1)) =~= arg_seq(extra@.take(i as int)).push(
                    extra@[i as int]@,
                ));
                assert(self.args_view() =~= old(self).args_view() + arg_seq(
                    extra@.take(i + 1),
                ));
            }
            i += 1;
        }
        proof {
            assert(extra@.take(extra.len() as int) =~= extra@);
        }
    }
}

/// A fresh vector holding the same bytes as `v`.
pub fn clone_bytes(v: &Vec<u8>) -> (r: Vec<u8>)
    ensures
        r@ == v@,
{
    let mut r: Vec<u8> = Vec::new();
    let mut i: usize = 0;
    while i < v.len()
        invariant
            i <= v.len(),
            r@ == v@.take(i as int),
        decreases v.len() - i,
    {
        r.push(v[i]);
        proof {
            assert(v@.take(i as int).push(v@[i as int]) =~= v@.take(i + 1));
        }
        i += 1;
    }
    proof {
        assert(v@.take(v.len() as int) =~= v@);
    }
    r
}

} // verus!
