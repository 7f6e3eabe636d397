//! Grammar-level properties of the compiled `run` invocation.
//!
//! The compiler's own contracts pin every token; the lemmas here state
//! consequences a caller relies on without unfolding the grammar: the
//! read-only flag appears exactly when the descriptor is not writable,
//! and the workdir pair appears exactly when the descriptor sets a
//! working directory.  Both hold for every input whose caller-supplied
//! byte strings do not themselves spell the flag in question — a
//! descriptor whose device is literally named like a flag would, by
//! design, be forwarded verbatim.

use vstd::prelude::*;

use crate::cmd::arg_seq;
use crate::compile::{run_from_edf_args, run_prefix_args, workdir_tokens};
use crate::context::{ContainerCtx, Edf, PodmanCtx};
use crate::encode::{
    flag_tokens, key_val_seq, kv_pair_tokens, kv_views, lit, opt_bytes, opt_tokens, pair_tokens,
    storage_opt_tokens,
};

verus! {

/// Number of occurrences of token `t` in `args`.
pub open spec fn count_tok(args: Seq<Seq<u8>>, t: Seq<u8>) -> nat
    decreases args.len(),
{
    if args.len() == 0 {
        0
    } else {
        count_tok(args.drop_last(), t) + (if args.last() == t {
            1nat
        } else {
            0nat
        })
    }
}

/// The value token of an optional flag, when present.
pub open spec fn opt_val_tokens(v: Option<Seq<u8>>) -> Seq<Seq<u8>> {
    match v {
        Some(x) => seq![x],
        None => Seq::<Seq<u8>>::empty(),
    }
}

/// The joined `name=value` token of an optional storage option, when
/// present.
pub open spec fn storage_val_tokens(name: Seq<u8>, v: Option<Seq<u8>>) -> Seq<Seq<u8>> {
    match v {
        Some(x) => seq![key_val_seq(name, x)],
        None => Seq::<Seq<u8>>::empty(),
    }
}

/// The joined `key=value` tokens of a key-value list.
pub open spec fn kv_join_tokens(items: Seq<(Seq<u8>, Seq<u8>)>) -> Seq<Seq<u8>> {
    items.map_values(|p: (Seq<u8>, Seq<u8>)| key_val_seq(p.0, p.1))
}

/// The workdir value token, when a working directory is set.
pub open spec fn workdir_val_tokens(workdir: Seq<u8>) -> Seq<Seq<u8>> {
    if workdir.len() == 0 {
        Seq::<Seq<u8>>::empty()
    } else {
        seq![workdir]
    }
}

/// The caller-supplied value tokens a runtime context contributes to a
/// compiled `run`.
pub open spec fn ctx_user_tokens(ctx: Option<&PodmanCtx>) -> Seq<Seq<u8>> {
    match ctx {
        Some(c) => opt_val_tokens(opt_bytes(c.graphroot)) + opt_val_tokens(opt_bytes(c.runroot))
            + opt_val_tokens(opt_bytes(c.module)) + storage_val_tokens(
            lit("additionalimagestore"),
            opt_bytes(c.ro_store),
        ) + storage_val_tokens(lit("mount_program"), opt_bytes(c.parallax_mount_program)),
        None => Seq::<Seq<u8>>::empty(),
    }
}

/// Every token of a compiled `run` that carries caller data rather
/// than a fixed flag name of the grammar.
pub open spec fn run_user_tokens(
    edf: &Edf,
    p_ctx: Option<&PodmanCtx>,
    c_ctx: &ContainerCtx,
    container_cmd: Seq<Seq<u8>>,
) -> Seq<Seq<u8>> {
    ctx_user_tokens(p_ctx) + seq![c_ctx.name@] + opt_val_tokens(opt_bytes(c_ctx.pidfile))
        + workdir_val_tokens(edf.workdir@) + arg_seq(edf.mounts@) + arg_seq(edf.devices@)
        + kv_join_tokens(kv_views(edf.env@)) + kv_join_tokens(kv_views(edf.annotations@)) + seq![
        edf.image@,
    ] + container_cmd
}

proof fn lemma_count_add(a: Seq<Seq<u8>>, b: Seq<Seq<u8>>, t: Seq<u8>)
    ensures
        count_tok(a + b, t) == count_tok(a, t) + count_tok(b, t),
    decreases b.len(),
{
    if b.len() == 0 {
        assert(a + b =~= a);
    } else {
        assert((a + b).drop_last() =~= a + b.drop_last());
        lemma_count_add(a, b.drop_last(), t);
    }
}

proof fn lemma_count_single(x: Seq<u8>, t: Seq<u8>)
    ensures
        count_tok(seq![x], t) == (if x == t {
            1nat
        } else {
            0nat
        }),
{
    assert(count_tok(Seq::<Seq<u8>>::empty(), t) == 0);
    assert(seq![x].drop_last() =~= Seq::<Seq<u8>>::empty());
    assert(seq![x].last() == x);
}

proof fn lemma_count_two(x: Seq<u8>, y: Seq<u8>, t: Seq<u8>)
    ensures
        count_tok(seq![x, y], t) == (if x == t {
            1nat
        } else {
            0nat
        }) + (if y == t {
            1nat
        } else {
            0nat
        }),
{
    assert(seq![x, y].drop_last() =~= seq![x]);
    lemma_count_single(x, t);
}

proof fn lemma_count_flag(on: bool, name: Seq<u8>, t: Seq<u8>)
    ensures
        count_tok(flag_tokens(on, name), t) == (if on && name == t {
            1nat
        } else {
            0nat
        }),
{
    if on {
        lemma_count_single(name, t);
    }
}

proof fn lemma_count_opt(name: Seq<u8>, v: Option<Seq<u8>>, t: Seq<u8>)
    requires
        name != t,
        v matches Some(x) ==> x != t,
    ensures
        count_tok(opt_tokens(name, v), t) == 0,
{
    match v {
        Some(x) => {
            lemma_count_two(name, x, t);
        },
        None => {},
    }
}

proof fn lemma_count_storage_opt(name: Seq<u8>, v: Option<Seq<u8>>, t: Seq<u8>)
    requires
        lit("--storage-opt") != t,
        v matches Some(x) ==> key_val_seq(name, x) != t,
    ensures
        count_tok(storage_opt_tokens(name, v), t) == 0,
{
    match v {
        Some(x) => {
            lemma_count_two(lit("--storage-opt"), key_val_seq(name, x), t);
        },
        None => {},
    }
}

proof fn lemma_count_pair_tokens(name: Seq<u8>, items: Seq<Seq<u8>>, t: Seq<u8>)
    requires
        name != t,
        forall|i: int| 0 <= i < items.len() ==> #[trigger] items[i] != t,
    ensures
        count_tok(pair_tokens(name, items), t) == 0,
    decreases items.len(),
{
    if items.len() > 0 {
        lemma_count_pair_tokens(name, items.drop_last(), t);
        lemma_count_add(pair_tokens(name, items.drop_last()), seq![name, items.last()], t);
        lemma_count_two(name, items.last(), t);
    }
}

proof fn lemma_count_kv_pair_tokens(name: Seq<u8>, items: Seq<(Seq<u8>, Seq<u8>)>, t: Seq<u8>)
    requires
        name != t,
        forall|i: int|
            0 <= i < items.len() ==> key_val_seq(#[trigger] items[i].0, items[i].1) != t,
    ensures
        count_tok(kv_pair_tokens(name, items), t) == 0,
    decreases items.len(),
{
    if items.len() > 0 {
        lemma_count_kv_pair_tokens(name, items.drop_last(), t);
        lemma_count_add(kv_pair_tokens(name, items.drop_last()), seq![
            name,
            key_val_seq(items.last().0, items.last().1),
        ], t);
        lemma_count_two(name, key_val_seq(items.last().0, items.last().1), t);
    }
}

proof fn lemma_not_contains_opt_val(v: Option<Seq<u8>>, t: Seq<u8>)
    requires
        !opt_val_tokens(v).contains(t),
    ensures
        v matches Some(x) ==> x != t,
{
    match v {
        Some(x) => {
            if x == t {
                assert(opt_val_tokens(v)[0] == t);
                assert(opt_val_tokens(v).contains(t));
            }
        },
        None => {},
    }
}

proof fn lemma_not_contains_storage_val(name: Seq<u8>, v: Option<Seq<u8>>, t: Seq<u8>)
    requires
        !storage_val_tokens(name, v).contains(t),
    ensures
        v matches Some(x) ==> key_val_seq(name, x) != t,
{
    match v {
        Some(x) => {
            if key_val_seq(name, x) == t {
                assert(storage_val_tokens(name, v)[0] == t);
                assert(storage_val_tokens(name, v).contains(t));
            }
        },
        None => {},
    }
}

proof fn lemma_not_contains_concat(a: Seq<Seq<u8>>, b: Seq<Seq<u8>>, t: Seq<u8>)
    requires
        !(a + b).contains(t),
    ensures
        !a.contains(t),
        !b.contains(t),
{
    if a.contains(t) {
        let i = choose|i: int| 0 <= i < a.len() && a[i] == t;
        assert((a + b)[i] == t);
        assert((a + b).contains(t));
    }
    if b.contains(t) {
        let i = choose|i: int| 0 <= i < b.len() && b[i] == t;
        assert((a + b)[a.len() + i] == t);
        assert((a + b).contains(t));
    }
}

proof fn lemma_not_contains_all(s: Seq<Seq<u8>>, t: Seq<u8>)
    requires
        !s.contains(t),
    ensures
        forall|i: int| 0 <= i < s.len() ==> #[trigger] s[i] != t,
{
    assert forall|i: int| 0 <= i < s.len() implies #[trigger] s[i] != t by {
        if s[i] == t {
            assert(s.contains(t));
        }
    }
}

proof fn lemma_not_contains_single(x: Seq<u8>, t: Seq<u8>)
    requires
        !seq![x].contains(t),
    ensures
        x != t,
{
    if x == t {
        assert(seq![x][0] == t);
        assert(seq![x].contains(t));
    }
}

/// Count of `t` in the `run` prefix is zero for any token distinct
/// from the prefix's fixed flag names and from the context's values.
proof fn lemma_count_run_prefix(p_ctx: Option<&PodmanCtx>, t: Seq<u8>)
    requires
        t != lit("--root"),
        t != lit("--runroot"),
        t != lit("--module"),
        t != lit("--storage-opt"),
        t != lit("run"),
        !ctx_user_tokens(p_ctx).contains(t),
    ensures
        count_tok(run_prefix_args(p_ctx), t) == 0,
{
    match p_ctx {
        None => {
            lemma_count_add(Seq::<Seq<u8>>::empty(), seq![lit("run")], t);
            lemma_count_single(lit("run"), t);
        },
        Some(c) => {
            let g = opt_val_tokens(opt_bytes(c.graphroot));
            let r = opt_val_tokens(opt_bytes(c.runroot));
            let m = opt_val_tokens(opt_bytes(c.module));
            let s1 = storage_val_tokens(lit("additionalimagestore"), opt_bytes(c.ro_store));
            let s2 = storage_val_tokens(
                lit("mount_program"),
                opt_bytes(c.parallax_mount_program),
            );
            lemma_not_contains_concat(g + r + m + s1, s2, t);
            lemma_not_contains_concat(g + r + m, s1, t);
            lemma_not_contains_concat(g + r, m, t);
            lemma_not_contains_concat(g, r, t);
            lemma_not_contains_opt_val(opt_bytes(c.graphroot), t);
            lemma_not_contains_opt_val(opt_bytes(c.runroot), t);
            lemma_not_contains_opt_val(opt_bytes(c.module), t);
            lemma_not_contains_storage_val(
                lit("additionalimagestore"),
                opt_bytes(c.ro_store),
                t,
            );
            lemma_not_contains_storage_val(
                lit("mount_program"),
                opt_bytes(c.parallax_mount_program),
                t,
            );

            let b1 = opt_tokens(lit("--root"), opt_bytes(c.graphroot));
            let b2 = opt_tokens(lit("--runroot"), opt_bytes(c.runroot));
            let b3 = opt_tokens(lit("--module"), opt_bytes(c.module));
            let b4 = storage_opt_tokens(lit("additionalimagestore"), opt_bytes(c.ro_store));
            let b5 = storage_opt_tokens(
                lit("mount_program"),
                opt_bytes(c.parallax_mount_program),
            );
            lemma_count_opt(lit("--root"), opt_bytes(c.graphroot), t);
            lemma_count_opt(lit("--runroot"), opt_bytes(c.runroot), t);
            lemma_count_opt(lit("--module"), opt_bytes(c.module), t);
            lemma_count_storage_opt(lit("additionalimagestore"), opt_bytes(c.ro_store), t);
            lemma_count_storage_opt(
                lit("mount_program"),
                opt_bytes(c.parallax_mount_program),
                t,
            );
            lemma_count_add(b1, b2, t);
            lemma_count_add(b1 + b2, b3, t);
            lemma_count_add(b1 + b2 + b3, b4, t);
            lemma_count_add(b1 + b2 + b3 + b4, b5, t);
            lemma_count_add(b1 + b2 + b3 + b4 + b5, seq![lit("run")], t);
            lemma_count_single(lit("run"), t);
            assert(run_prefix_args(p_ctx) =~= b1 + b2 + b3 + b4 + b5 + seq![lit("run")]);
        },
    }
}

/// Splits the user-token collection of a compiled `run` into its
/// groups, none of which contains `t`.
proof fn lemma_user_tokens_split(
    edf: &Edf,
    p_ctx: Option<&PodmanCtx>,
    c_ctx: &ContainerCtx,
    container_cmd: Seq<Seq<u8>>,
    t: Seq<u8>,
)
    requires
        !run_user_tokens(edf, p_ctx, c_ctx, container_cmd).contains(t),
    ensures
        !ctx_user_tokens(p_ctx).contains(t),
        c_ctx.name@ != t,
        opt_bytes(c_ctx.pidfile) matches Some(x) ==> x != t,
        edf.workdir@.len() > 0 ==> edf.workdir@ != t,
        forall|i: int| 0 <= i < edf.mounts@.len() ==> #[trigger] arg_seq(edf.mounts@)[i] != t,
        forall|i: int| 0 <= i < edf.devices@.len() ==> #[trigger] arg_seq(edf.devices@)[i] != t,
        forall|i: int|
            0 <= i < edf.env@.len() ==> key_val_seq(
                #[trigger] kv_views(edf.env@)[i].0,
                kv_views(edf.env@)[i].1,
            ) != t,
        forall|i: int|
            0 <= i < edf.annotations@.len() ==> key_val_seq(
                #[trigger] kv_views(edf.annotations@)[i].0,
                kv_views(edf.annotations@)[i].1,
            ) != t,
        edf.image@ != t,
        !container_cmd.contains(t),
{
    let u1 = ctx_user_tokens(p_ctx);
    let u2 = seq![c_ctx.name@];
    let u3 = opt_val_tokens(opt_bytes(c_ctx.pidfile));
    let u4 = workdir_val_tokens(edf.workdir@);
    let u5 = arg_seq(edf.mounts@);
    let u6 = arg_seq(edf.devices@);
    let u7 = kv_join_tokens(kv_views(edf.env@));
    let u8t = kv_join_tokens(kv_views(edf.annotations@));
    let u9 = seq![edf.image@];
    lemma_not_contains_concat(u1 + u2 + u3 + u4 + u5 + u6 + u7 + u8t + u9, container_cmd, t);
    lemma_not_contains_concat(u1 + u2 + u3 + u4 + u5 + u6 + u7 + u8t, u9, t);
    lemma_not_contains_concat(u1 + u2 + u3 + u4 + u5 + u6 + u7, u8t, t);
    lemma_not_contains_concat(u1 + u2 + u3 + u4 + u5 + u6, u7, t);
    lemma_not_contains_concat(u1 + u2 + u3 + u4 + u5, u6, t);
    lemma_not_contains_concat(u1 + u2 + u3 + u4, u5, t);
    lemma_not_contains_concat(u1 + u2 + u3, u4, t);
    lemma_not_contains_concat(u1 + u2, u3, t);
    lemma_not_contains_concat(u1, u2, t);
    lemma_not_contains_single(c_ctx.name@, t);
    lemma_not_contains_opt_val(opt_bytes(c_ctx.pidfile), t);
    lemma_not_contains_all(u5, t);
    lemma_not_contains_all(u6, t);
    lemma_not_contains_all(u7, t);
    lemma_not_contains_all(u8t, t);
    lemma_not_contains_single(edf.image@, t);
    assert forall|i: int|
        0 <= i < edf.env@.len() implies key_val_seq(
        #[trigger] kv_views(edf.env@)[i].0,
        kv_views(edf.env@)[i].1,
    ) != t by {
        assert(u7[i] == key_val_seq(kv_views(edf.env@)[i].0, kv_views(edf.env@)[i].1));
    }
    assert forall|i: int|
        0 <= i < edf.annotations@.len() implies key_val_seq(
        #[trigger] kv_views(edf.annotations@)[i].0,
        kv_views(edf.annotations@)[i].1,
    ) != t by {
        assert(u8t[i] == key_val_seq(
            kv_views(edf.annotations@)[i].0,
            kv_views(edf.annotations@)[i].1,
        ));
    }
    if edf.workdir@.len() > 0 && edf.workdir@ == t {
        assert(u4[0] == t);
        assert(u4.contains(t));
    }
}

/// Count of `t` over a full compiled `run`, for any token `t` distinct
/// from the grammar's unconditional flag names and from every
/// caller-supplied token.  The count is then decided by the
/// conditional flags, the workdir pair and the repeated pair groups
/// alone.
proof fn lemma_count_run_args(
    edf: &Edf,
    p_ctx: Option<&PodmanCtx>,
    c_ctx: &ContainerCtx,
    container_cmd: Seq<Seq<u8>>,
    t: Seq<u8>,
)
    requires
        t != lit("--root"),
        t != lit("--runroot"),
        t != lit("--module"),
        t != lit("--storage-opt"),
        t != lit("run"),
        t != lit("--rm"),
        t != lit("--name"),
        t != lit("--pidfile"),
        !run_user_tokens(edf, p_ctx, c_ctx, container_cmd).contains(t),
    ensures
        count_tok(run_from_edf_args(edf, p_ctx, c_ctx, container_cmd), t) == count_tok(
            flag_tokens(c_ctx.detach, lit("--detach")),
            t,
        ) + count_tok(flag_tokens(c_ctx.interactive, lit("-it")), t) + count_tok(
            flag_tokens(!edf.writable, lit("--read-only")),
            t,
        ) + count_tok(flag_tokens(!edf.entrypoint, lit("--entrypoint=")), t) + count_tok(
            workdir_tokens(edf.workdir@),
            t,
        ) + count_tok(pair_tokens(lit("--volume"), arg_seq(edf.mounts@)), t) + count_tok(
            pair_tokens(lit("--device"), arg_seq(edf.devices@)),
            t,
        ) + count_tok(kv_pair_tokens(lit("--env"), kv_views(edf.env@)), t) + count_tok(
            kv_pair_tokens(lit("--annotation"), kv_views(edf.annotations@)),
            t,
        ),
{
    lemma_user_tokens_split(edf, p_ctx, c_ctx, container_cmd, t);
    lemma_count_run_prefix(p_ctx, t);

    let a1 = run_prefix_args(p_ctx);
    let a2 = seq![lit("--rm")];
    let a3 = flag_tokens(c_ctx.detach, lit("--detach"));
    let a4 = flag_tokens(c_ctx.interactive, lit("-it"));
    let a5 = flag_tokens(!edf.writable, lit("--read-only"));
    let a6 = seq![lit("--name"), c_ctx.name@];
    let a7 = opt_tokens(lit("--pidfile"), opt_bytes(c_ctx.pidfile));
    let a8 = flag_tokens(!edf.entrypoint, lit("--entrypoint="));
    let a9 = workdir_tokens(edf.workdir@);
    let a10 = pair_tokens(lit("--volume"), arg_seq(edf.mounts@));
    let a11 = pair_tokens(lit("--device"), arg_seq(edf.devices@));
    let a12 = kv_pair_tokens(lit("--env"), kv_views(edf.env@));
    let a13 = kv_pair_tokens(lit("--annotation"), kv_views(edf.annotations@));
    let a14 = seq![edf.image@];

    lemma_count_single(lit("--rm"), t);
    lemma_count_two(lit("--name"), c_ctx.name@, t);
    lemma_count_opt(lit("--pidfile"), opt_bytes(c_ctx.pidfile), t);
    lemma_count_single(edf.image@, t);
    assert(count_tok(container_cmd, t) == 0) by {
        lemma_not_contains_all(container_cmd, t);
        lemma_count_zero(container_cmd, t);
    }
    assert(run_from_edf_args(edf, p_ctx, c_ctx, container_cmd) == a1 + a2 + a3 + a4 + a5 + a6
        + a7 + a8 + a9 + a10 + a11 + a12 + a13 + a14 + container_cmd);

    lemma_count_add(a1, a2, t);
    lemma_count_add(a1 + a2, a3, t);
    lemma_count_add(a1 + a2 + a3, a4, t);
    lemma_count_add(a1 + a2 + a3 + a4, a5, t);
    lemma_count_add(a1 + a2 + a3 + a4 + a5, a6, t);
    lemma_count_add(a1 + a2 + a3 + a4 + a5 + a6, a7, t);
    lemma_count_add(a1 + a2 + a3 + a4 + a5 + a6 + a7, a8, t);
    lemma_count_add(a1 + a2 + a3 + a4 + a5 + a6 + a7 + a8, a9, t);
    lemma_count_add(a1 + a2 + a3 + a4 + a5 + a6 + a7 + a8 + a9, a10, t);
    lemma_count_add(a1 + a2 + a3 + a4 + a5 + a6 + a7 + a8 + a9 + a10, a11, t);
    lemma_count_add(a1 + a2 + a3 + a4 + a5 + a6 + a7 + a8 + a9 + a10 + a11, a12, t);
    lemma_count_add(a1 + a2 + a3 + a4 + a5 + a6 + a7 + a8 + a9 + a10 + a11 + a12, a13, t);
    lemma_count_add(a1 + a2 + a3 + a4 + a5 + a6 + a7 + a8 + a9 + a10 + a11 + a12 + a13, a14, t);
    lemma_count_add(
        a1 + a2 + a3 + a4 + a5 + a6 + a7 + a8 + a9 + a10 + a11 + a12 + a13 + a14,
        container_cmd,
        t,
    );
}

proof fn lemma_count_zero(s: Seq<Seq<u8>>, t: Seq<u8>)
    requires
        forall|i: int| 0 <= i < s.len() ==> #[trigger] s[i] != t,
    ensures
        count_tok(s, t) == 0,
    decreases s.len(),
{
    if s.len() > 0 {
        lemma_count_zero(s.drop_last(), t);
    }
}

/// For a descriptor that is not writable, `--read-only` appears in the
/// compiled `run` exactly once; for a writable one it does not appear.
///
/// Holds whenever no caller-supplied byte string itself spells
/// `--read-only` — such a value would be forwarded verbatim and add an
/// occurrence by design.
pub proof fn lemma_read_only_exactly_once(
    edf: &Edf,
    p_ctx: Option<&PodmanCtx>,
    c_ctx: &ContainerCtx,
    container_cmd: Seq<Seq<u8>>,
)
    requires
        !run_user_tokens(edf, p_ctx, c_ctx, container_cmd).contains(lit("--read-only")),
    ensures
        count_tok(run_from_edf_args(edf, p_ctx, c_ctx, container_cmd), lit("--read-only")) == (
        if edf.writable {
            0nat
        } else {
            1nat
        }),
{
    let t = lit("--read-only");
    proof_literal_facts();
    lemma_count_run_args(edf, p_ctx, c_ctx, container_cmd, t);
    lemma_count_flag(c_ctx.detach, lit("--detach"), t);
    lemma_count_flag(c_ctx.interactive, lit("-it"), t);
    lemma_count_flag(!edf.writable, lit("--read-only"), t);
    lemma_count_flag(!edf.entrypoint, lit("--entrypoint="), t);
    lemma_user_tokens_split(edf, p_ctx, c_ctx, container_cmd, t);
    if edf.workdir@.len() > 0 {
        lemma_count_two(lit("--workdir"), edf.workdir@, t);
    }
    lemma_count_pair_tokens(lit("--volume"), arg_seq(edf.mounts@), t);
    lemma_count_pair_tokens(lit("--device"), arg_seq(edf.devices@), t);
    lemma_count_kv_pair_tokens(lit("--env"), kv_views(edf.env@), t);
    lemma_count_kv_pair_tokens(lit("--annotation"), kv_views(edf.annotations@), t);
}

/// For a descriptor with an empty working directory no `--workdir`
/// token appears in the compiled `run`; for a non-empty one, exactly
/// one appears, immediately followed by the working directory.
///
/// Holds whenever no caller-supplied byte string itself spells
/// `--workdir`.
pub proof fn lemma_workdir_pair(
    edf: &Edf,
    p_ctx: Option<&PodmanCtx>,
    c_ctx: &ContainerCtx,
    container_cmd: Seq<Seq<u8>>,
)
    requires
        !run_user_tokens(edf, p_ctx, c_ctx, container_cmd).contains(lit("--workdir")),
    ensures
        count_tok(run_from_edf_args(edf, p_ctx, c_ctx, container_cmd), lit("--workdir")) == (
        if edf.workdir@.len() == 0 {
            0nat
        } else {
            1nat
        }),
        edf.workdir@.len() > 0 ==> exists|i: int|
            0 <= i < run_from_edf_args(edf, p_ctx, c_ctx, container_cmd).len() - 1
                && #[trigger] run_from_edf_args(edf, p_ctx, c_ctx, container_cmd)[i] == lit(
                "--workdir",
            ) && run_from_edf_args(edf, p_ctx, c_ctx, container_cmd)[i + 1] == edf.workdir@,
{
    let t = lit("--workdir");
    proof_literal_facts();
    lemma_count_run_args(edf, p_ctx, c_ctx, container_cmd, t);
    lemma_count_flag(c_ctx.detach, lit("--detach"), t);
    lemma_count_flag(c_ctx.interactive, lit("-it"), t);
    lemma_count_flag(!edf.writable, lit("--read-only"), t);
    lemma_count_flag(!edf.entrypoint, lit("--entrypoint="), t);
    lemma_user_tokens_split(edf, p_ctx, c_ctx, container_cmd, t);
    if edf.workdir@.len() > 0 {
        lemma_count_two(lit("--workdir"), edf.workdir@, t);
    }
    lemma_count_pair_tokens(lit("--volume"), arg_seq(edf.mounts@), t);
    lemma_count_pair_tokens(lit("--device"), arg_seq(edf.devices@), t);
    lemma_count_kv_pair_tokens(lit("--env"), kv_views(edf.env@), t);
    lemma_count_kv_pair_tokens(lit("--annotation"), kv_views(edf.annotations@), t);

    if edf.workdir@.len() > 0 {
        let args = run_from_edf_args(edf, p_ctx, c_ctx, container_cmd);
        let head = run_prefix_args(p_ctx) + seq![lit("--rm")] + flag_tokens(
            c_ctx.detach,
            lit("--detach"),
        ) + flag_tokens(c_ctx.interactive, lit("-it")) + flag_tokens(
            !edf.writable,
            lit("--read-only"),
        ) + seq![lit("--name"), c_ctx.name@] + opt_tokens(
            lit("--pidfile"),
            opt_bytes(c_ctx.pidfile),
        ) + flag_tokens(!edf.entrypoint, lit("--entrypoint="));
        let tail = pair_tokens(lit("--volume"), arg_seq(edf.mounts@)) + pair_tokens(
            lit("--device"),
            arg_seq(edf.devices@),
        ) + kv_pair_tokens(lit("--env"), kv_views(edf.env@)) + kv_pair_tokens(
            lit("--annotation"),
            kv_views(edf.annotations@),
        ) + seq![edf.image@] + container_cmd;
        assert(args =~= head + workdir_tokens(edf.workdir@) + tail);
        let k = head.len() as int;
        assert(args[k] == lit("--workdir"));
        assert(args[k + 1] == edf.workdir@);
    }
}

/// For a runtime context with every optional field set and a container
/// context requesting detach, interactive and a pidfile, compiling a
/// read-only descriptor with a cleared entrypoint yields exactly these
/// twenty leading tokens in this order, followed by the workdir pair,
/// the descriptor's mount/device/env/annotation pair groups in
/// descriptor order, the image reference, and the caller's command —
/// and nothing else.
pub proof fn lemma_run_layout_all_set(
    edf: &Edf,
    c: &PodmanCtx,
    c_ctx: &ContainerCtx,
    container_cmd: Seq<Seq<u8>>,
)
    requires
        c.module is Some,
        c.graphroot is Some,
        c.runroot is Some,
        c.parallax_mount_program is Some,
        c.ro_store is Some,
        c_ctx.pidfile is Some,
        c_ctx.detach,
        c_ctx.interactive,
        !edf.writable,
        !edf.entrypoint,
    ensures
        run_from_edf_args(edf, Some(c), c_ctx, container_cmd) == seq![
            lit("--root"),
            c.graphroot->0@,
            lit("--runroot"),
            c.runroot->0@,
            lit("--module"),
            c.module->0@,
            lit("--storage-opt"),
            key_val_seq(lit("additionalimagestore"), c.ro_store->0@),
            lit("--storage-opt"),
            key_val_seq(lit("mount_program"), c.parallax_mount_program->0@),
            lit("run"),
            lit("--rm"),
            lit("--detach"),
            lit("-it"),
            lit("--read-only"),
            lit("--name"),
            c_ctx.name@,
            lit("--pidfile"),
            c_ctx.pidfile->0@,
            lit("--entrypoint="),
        ] + workdir_tokens(edf.workdir@) + pair_tokens(lit("--volume"), arg_seq(edf.mounts@))
            + pair_tokens(lit("--device"), arg_seq(edf.devices@)) + kv_pair_tokens(
            lit("--env"),
            kv_views(edf.env@),
        ) + kv_pair_tokens(lit("--annotation"), kv_views(edf.annotations@)) + seq![edf.image@]
            + container_cmd,
{
    assert(run_from_edf_args(edf, Some(c), c_ctx, container_cmd) =~= seq![
        lit("--root"),
        c.graphroot->0@,
        lit("--runroot"),
        c.runroot->0@,
        lit("--module"),
        c.module->0@,
        lit("--storage-opt"),
        key_val_seq(lit("additionalimagestore"), c.ro_store->0@),
        lit("--storage-opt"),
        key_val_seq(lit("mount_program"), c.parallax_mount_program->0@),
        lit("run"),
        lit("--rm"),
        lit("--detach"),
        lit("-it"),
        lit("--read-only"),
        lit("--name"),
        c_ctx.name@,
        lit("--pidfile"),
        c_ctx.pidfile->0@,
        lit("--entrypoint="),
    ] + workdir_tokens(edf.workdir@) + pair_tokens(lit("--volume"), arg_seq(edf.mounts@))
        + pair_tokens(lit("--device"), arg_seq(edf.devices@)) + kv_pair_tokens(
        lit("--env"),
        kv_views(edf.env@),
    ) + kv_pair_tokens(lit("--annotation"), kv_views(edf.annotations@)) + seq![edf.image@]
        + container_cmd);
}

/// The literal-token disequalities the two laws above rest on.
proof fn proof_literal_facts()
    ensures
        lit("--read-only") != lit("--root"),
        lit("--read-only") != lit("--runroot"),
        lit("--read-only") != lit("--module"),
        lit("--read-only") != lit("--storage-opt"),
        lit("--read-only") != lit("run"),
        lit("--read-only") != lit("--rm"),
        lit("--read-only") != lit("--detach"),
        lit("--read-only") != lit("-it"),
        lit("--read-only") != lit("--name"),
        lit("--read-only") != lit("--pidfile"),
        lit("--read-only") != lit("--entrypoint="),
        lit("--read-only") != lit("--workdir"),
        lit("--read-only") != lit("--volume"),
        lit("--read-only") != lit("--device"),
        lit("--read-only") != lit("--env"),
        lit("--read-only") != lit("--annotation"),
        lit("--workdir") != lit("--root"),
        lit("--workdir") != lit("--runroot"),
        lit("--workdir") != lit("--module"),
        lit("--workdir") != lit("--storage-opt"),
        lit("--workdir") != lit("run"),
        lit("--workdir") != lit("--rm"),
        lit("--workdir") != lit("--detach"),
        lit("--workdir") != lit("-it"),
        lit("--workdir") != lit("--name"),
        lit("--workdir") != lit("--pidfile"),
        lit("--workdir") != lit("--entrypoint="),
        lit("--workdir") != lit("--volume"),
        lit("--workdir") != lit("--device"),
        lit("--workdir") != lit("--env"),
        lit("--workdir") != lit("--annotation"),
{
    reveal_strlit("--read-only");
    reveal_strlit("--workdir");
    reveal_strlit("--root");
    reveal_strlit("--runroot");
    reveal_strlit("--module");
    reveal_strlit("--storage-opt");
    reveal_strlit("run");
    reveal_strlit("--rm");
    reveal_strlit("--detach");
    reveal_strlit("-it");
    reveal_strlit("--name");
    reveal_strlit("--pidfile");
    reveal_strlit("--entrypoint=");
    reveal_strlit("--volume");
    reveal_strlit("--device");
    reveal_strlit("--env");
    reveal_strlit("--annotation");
    assert(lit("--read-only").len() == 11);
    assert(lit("--workdir").len() == 9);
    assert(lit("--root").len() == 6);
    assert(lit("--runroot").len() == 9);
    assert(lit("--module").len() == 8);
    assert(lit("--storage-opt").len() == 13);
    assert(lit("run").len() == 3);
    assert(lit("--rm").len() == 4);
    assert(lit("--detach").len() == 8);
    assert(lit("-it").len() == 3);
    assert(lit("--name").len() == 6);
    assert(lit("--pidfile").len() == 9);
    assert(lit("--entrypoint=").len() == 13);
    assert(lit("--volume").len() == 8);
    assert(lit("--device").len() == 8);
    assert(lit("--env").len() == 5);
    assert(lit("--annotation").len() == 12);
    assert(lit("--workdir")[2] == 119);
    assert(lit("--runroot")[2] == 114);
    assert(lit("--pidfile")[2] == 112);
}

} // verus!
