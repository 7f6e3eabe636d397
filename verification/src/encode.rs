//! Byte-safe construction of command-line tokens.
//!
//! Flag names are ASCII string literals of this crate; every value is an
//! opaque byte string.  `key=value` tokens are built by inserting the
//! single byte `=` between the operands, verbatim: nothing is escaped,
//! quoted, or reinterpreted, because each token becomes one argv entry
//! of its own.

use vstd::prelude::*;

use crate::cmd::{arg_seq, clone_bytes, Cmd};
use crate::context::KeyVal;

verus! {

/// The byte sequence of an ASCII string literal.
pub open spec fn lit(s: &str) -> Seq<u8> {
    Seq::new(s@.len(), |i| s@[i] as u8)
}

/// The view of an optional byte string.
pub open spec fn opt_bytes(o: Option<Vec<u8>>) -> Option<Seq<u8>> {
    match o {
        Some(v) => Some(v@),
        None => None,
    }
}

/// The view of an optional borrowed byte string.
pub open spec fn opt_ref_bytes(o: Option<&Vec<u8>>) -> Option<Seq<u8>> {
    match o {
        Some(v) => Some(v@),
        None => None,
    }
}

/// The views of a list of key-value entries.
pub open spec fn kv_views(s: Seq<KeyVal>) -> Seq<(Seq<u8>, Seq<u8>)> {
    s.map_values(|p: KeyVal| (p.key@, p.val@))
}

/// `key=value` as one byte string: the operands joined by a verbatim
/// `=` byte, with no escaping of either operand.
pub open spec fn key_val_seq(key: Seq<u8>, val: Seq<u8>) -> Seq<u8> {
    key + seq![('=' as u8)] + val
}

/// The tokens of a conditional bare flag: `[name]` iff `on`.
pub open spec fn flag_tokens(on: bool, name: Seq<u8>) -> Seq<Seq<u8>> {
    if on {
        seq![name]
    } else {
        Seq::<Seq<u8>>::empty()
    }
}

/// The tokens of an optional valued flag: `[name, value]` iff present.
pub open spec fn opt_tokens(name: Seq<u8>, val: Option<Seq<u8>>) -> Seq<Seq<u8>> {
    match val {
        Some(v) => seq![name, v],
        None => Seq::<Seq<u8>>::empty(),
    }
}

/// The tokens of an optional storage option:
/// `[--storage-opt, name=value]` iff present.
pub open spec fn storage_opt_tokens(name: Seq<u8>, val: Option<Seq<u8>>) -> Seq<Seq<u8>> {
    match val {
        Some(v) => seq![lit("--storage-opt"), key_val_seq(name, v)],
        None => Seq::<Seq<u8>>::empty(),
    }
}

/// The tokens of a repeated valued flag: `[name, item]` for each item,
/// in item order.
pub open spec fn pair_tokens(name: Seq<u8>, items: Seq<Seq<u8>>) -> Seq<Seq<u8>>
    decreases items.len(),
{
    if items.len() == 0 {
        Seq::<Seq<u8>>::empty()
    } else {
        pair_tokens(name, items.drop_last()) + seq![name, items.last()]
    }
}

/// The tokens of a repeated key-value flag: `[name, key=value]` for
/// each entry, in entry order.
pub open spec fn kv_pair_tokens(name: Seq<u8>, items: Seq<(Seq<u8>, Seq<u8>)>) -> Seq<Seq<u8>>
    decreases items.len(),
{
    if items.len() == 0 {
        Seq::<Seq<u8>>::empty()
    } else {
        kv_pair_tokens(name, items.drop_last()) + seq![
            name,
            key_val_seq(items.last().0, items.last().1),
        ]
    }
}

/// A fresh byte vector holding the bytes of an ASCII literal.
pub(crate) fn lit_vec(s: &str) -> (r: Vec<u8>)
    requires
        vstd::string::is_ascii(s),
    ensures
        r@ == lit(s),
{
    proof {
        vstd::string::is_ascii_spec_bytes(s);
        assert(vstd::string::StringSliceAdditionalSpecFns::spec_bytes(s) =~= lit(s));
    }
    vstd::slice::slice_to_vec(s.as_bytes())
}

/// Appends the bytes of `src` at the end of `dst`.
pub(crate) fn append_bytes(dst: &mut Vec<u8>, src: &Vec<u8>)
    ensures
        final(dst)@ == old(dst)@ + src@,
{
    let mut i: usize = 0;
    while i < src.len()
        invariant
            i <= src.len(),
            dst@ == old(dst)@ + src@.take(i as int),
        decreases src.len() - i,
    {
        dst.push(src[i]);
        proof {
            assert(old(dst)@ + src@.take(i as int).push(src@[i as int]) =~= old(dst)@
                + src@.take(i + 1));
        }
        i += 1;
    }
    proof {
        assert(old(dst)@ + src@.take(src.len() as int) =~= old(dst)@ + src@);
    }
}

/// Joins `key` and `val` with a verbatim `=` byte, treating both as
/// opaque byte strings.
pub fn key_val(key: &Vec<u8>, val: &Vec<u8>) -> (r: Vec<u8>)
    ensures
        r@ == key_val_seq(key@, val@),
{
    let mut r = clone_bytes(key);
    r.push('=' as u8);
    append_bytes(&mut r, val);
    proof {
        assert(key@.push('=' as u8) + val@ =~= key_val_seq(key@, val@));
    }
    r
}

/// Appends `[name]` iff `on`.
pub(crate) fn cli_flag(cmd: &mut Cmd, on: bool, name: &str)
    requires
        vstd::string::is_ascii(name),
    ensures
        final(cmd).program == old(cmd).program,
        final(cmd).args_view() == old(cmd).args_view() + flag_tokens(on, lit(name)),
{
    if on {
        cmd.arg(lit_vec(name));
        proof {
            assert(old(cmd).args_view().push(lit(name)) =~= old(cmd).args_view() + flag_tokens(
                true,
                lit(name),
            ));
        }
    } else {
        proof {
            assert(old(cmd).args_view() + flag_tokens(false, lit(name)) =~= old(
                cmd,
            ).args_view());
        }
    }
}

/// Appends `[name, value]` iff the value is present.
pub(crate) fn cli_opt(cmd: &mut Cmd, name: &str, val: Option<&Vec<u8>>)
    requires
        vstd::string::is_ascii(name),
    ensures
        final(cmd).program == old(cmd).program,
        final(cmd).args_view() == old(cmd).args_view() + opt_tokens(
            lit(name),
            opt_ref_bytes(val),
        ),
{
    match val {
        Some(v) => {
            cmd.arg(lit_vec(name));
            cmd.arg(clone_bytes(v));
            proof {
                assert(old(cmd).args_view().push(lit(name)).push(v@) =~= old(cmd).args_view()
                    + opt_tokens(lit(name), opt_ref_bytes(val)));
            }
        },
        None => {
            proof {
                assert(old(cmd).args_view() + opt_tokens(lit(name), opt_ref_bytes(val)) =~= old(
                    cmd,
                ).args_view());
            }
        },
    }
}

/// Appends `[name, key=value]`.
pub(crate) fn cli_kv(cmd: &mut Cmd, name: &str, key: &Vec<u8>, val: &Vec<u8>)
    requires
        vstd::string::is_ascii(name),
    ensures
        final(cmd).program == old(cmd).program,
        final(cmd).args_view() == old(cmd).args_view() + seq![
            lit(name),
            key_val_seq(key@, val@),
        ],
{
    cmd.arg(lit_vec(name));
    cmd.arg(key_val(key, val));
    proof {
        assert(old(cmd).args_view().push(lit(name)).push(key_val_seq(key@, val@)) =~= old(
            cmd,
        ).args_view() + seq![lit(name), key_val_seq(key@, val@)]);
    }
}

/// Appends `[--storage-opt, name=value]` iff the value is present.
pub(crate) fn cli_storage_opt(cmd: &mut Cmd, name: &str, val: Option<&Vec<u8>>)
    requires
        vstd::string::is_ascii(name),
    ensures
        final(cmd).program == old(cmd).program,
        final(cmd).args_view() == old(cmd).args_view() + storage_opt_tokens(
            lit(name),
            opt_ref_bytes(val),
        ),
{
    match val {
        Some(v) => {
            proof {
                reveal_strlit("--storage-opt");
                assert(vstd::string::is_ascii("--storage-opt"));
            }
            let k = lit_vec(name);
            cli_kv(cmd, "--storage-opt", &k, v);
        },
        None => {
            proof {
                assert(old(cmd).args_view() + storage_opt_tokens(lit(name), opt_ref_bytes(val))
                    =~= old(cmd).args_view());
            }
        },
    }
}

} // verus!
