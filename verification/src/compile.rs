//! The invocation compiler: one entry point per runtime operation, each
//! returning a fully ordered argument vector ready for direct process
//! execution.
//!
//! Ordering is load-bearing: downstream tools are sensitive to flag
//! placement, so every compiled operation's exact token sequence is
//! stated by a specification function and proved.  Compilation is a pure
//! data transformation and cannot fail.

use vstd::prelude::*;

use crate::cmd::{arg_seq, clone_bytes, Cmd};
use crate::context::{ContainerCtx, Edf, PodmanCtx};
use crate::encode::{
    cli_flag, cli_kv, cli_opt, cli_storage_opt, flag_tokens, kv_pair_tokens, kv_views, lit,
    lit_vec, opt_bytes, opt_ref_bytes, opt_tokens, pair_tokens, storage_opt_tokens,
};

verus! {

/// The program a compiled runtime invocation executes: the configured
/// executable path, or the bare name `podman` when no context is given.
pub open spec fn program_of(ctx: Option<&PodmanCtx>) -> Seq<u8> {
    match ctx {
        Some(c) => c.podman_path@,
        None => lit("podman"),
    }
}

/// The base layout shared by every operation:
/// `[--root <graphroot>]? [--runroot <runroot>]?`, each pair present
/// only if the corresponding context field is set.
pub open spec fn base_args(ctx: Option<&PodmanCtx>) -> Seq<Seq<u8>> {
    match ctx {
        Some(c) => opt_tokens(lit("--root"), opt_bytes(c.graphroot)) + opt_tokens(
            lit("--runroot"),
            opt_bytes(c.runroot),
        ),
        None => Seq::<Seq<u8>>::empty(),
    }
}

/// The secondary-store storage option injected by the operations that
/// must see the read-only image store.
pub open spec fn store_opt_args(ctx: Option<&PodmanCtx>) -> Seq<Seq<u8>> {
    match ctx {
        Some(c) => storage_opt_tokens(lit("additionalimagestore"), opt_bytes(c.ro_store)),
        None => Seq::<Seq<u8>>::empty(),
    }
}

/// The prefix of every `run` invocation: base layout, module selector,
/// both storage options, then the literal subcommand `run`.
pub open spec fn run_prefix_args(ctx: Option<&PodmanCtx>) -> Seq<Seq<u8>> {
    match ctx {
        Some(c) => base_args(ctx) + opt_tokens(lit("--module"), opt_bytes(c.module))
            + storage_opt_tokens(lit("additionalimagestore"), opt_bytes(c.ro_store))
            + storage_opt_tokens(lit("mount_program"), opt_bytes(c.parallax_mount_program))
            + seq![lit("run")],
        None => base_args(ctx) + seq![lit("run")],
    }
}

/// A runtime invocation holding only the base layout.
pub fn base_command(podman_ctx: Option<&PodmanCtx>) -> (c: Cmd)
    ensures
        c.program@ == program_of(podman_ctx),
        c.args_view() == base_args(podman_ctx),
{
    match podman_ctx {
        None => {
            proof {
                reveal_strlit("podman");
                assert(vstd::string::is_ascii("podman"));
            }
            let c = Cmd::new(lit_vec("podman"));
            proof {
                assert(c.args_view() =~= base_args(podman_ctx));
            }
            c
        },
        Some(ctx) => {
            proof {
                reveal_strlit("--root");
                reveal_strlit("--runroot");
                assert(vstd::string::is_ascii("--root"));
                assert(vstd::string::is_ascii("--runroot"));
            }
            let mut c = Cmd::new(clone_bytes(&ctx.podman_path));
            let root_ref = ctx.graphroot.as_ref();
            let runroot_ref = ctx.runroot.as_ref();
            cli_opt(&mut c, "--root", root_ref);
            cli_opt(&mut c, "--runroot", runroot_ref);
            proof {
                assert(opt_ref_bytes(root_ref) == opt_bytes(ctx.graphroot));
                assert(opt_ref_bytes(runroot_ref) == opt_bytes(ctx.runroot));
                assert(c.args_view() =~= base_args(podman_ctx));
            }
            c
        },
    }
}

/// A runtime invocation carrying the full `run` prefix.
pub fn run_command(podman_ctx: Option<&PodmanCtx>) -> (c: Cmd)
    ensures
        c.program@ == program_of(podman_ctx),
        c.args_view() == run_prefix_args(podman_ctx),
{
    let mut c = base_command(podman_ctx);
    if let Some(ctx) = podman_ctx {
        proof {
            reveal_strlit("--module");
            reveal_strlit("additionalimagestore");
            reveal_strlit("mount_program");
            assert(vstd::string::is_ascii("--module"));
            assert(vstd::string::is_ascii("additionalimagestore"));
            assert(vstd::string::is_ascii("mount_program"));
        }
        cli_opt(&mut c, "--module", ctx.module.as_ref());
        cli_storage_opt(&mut c, "additionalimagestore", ctx.ro_store.as_ref());
        cli_storage_opt(&mut c, "mount_program", ctx.parallax_mount_program.as_ref());
    }
    proof {
        reveal_strlit("run");
        assert(vstd::string::is_ascii("run"));
    }
    c.arg(lit_vec("run"));
    proof {
        assert(c.args_view() =~= run_prefix_args(podman_ctx));
    }
    c
}

/// The argument vector of a `pull`: base layout, the subcommand, the
/// image reference.  The secondary store is deliberately not injected:
/// pulling always writes to the primary store.
pub open spec fn pull_args(ctx: Option<&PodmanCtx>, image: Seq<u8>) -> Seq<Seq<u8>> {
    base_args(ctx) + seq![lit("pull"), image]
}

/// Compiles an image pull.
pub fn pull(image: &Vec<u8>, podman_ctx: Option<&PodmanCtx>) -> (c: Cmd)
    ensures
        c.program@ == program_of(podman_ctx),
        c.args_view() == pull_args(podman_ctx, image@),
{
    proof {
        reveal_strlit("pull");
        assert(vstd::string::is_ascii("pull"));
    }
    let mut c = base_command(podman_ctx);
    c.arg(lit_vec("pull"));
    c.arg(clone_bytes(image));
    proof {
        assert(c.args_view() =~= pull_args(podman_ctx, image@));
    }
    c
}

/// The argument vector of an image removal: base layout, the
/// secondary-store option when configured, the subcommand, the image.
pub open spec fn rmi_args(ctx: Option<&PodmanCtx>, image: Seq<u8>) -> Seq<Seq<u8>> {
    base_args(ctx) + store_opt_args(ctx) + seq![lit("rmi"), image]
}

/// Compiles an image removal.
pub fn rmi(image: &Vec<u8>, podman_ctx: Option<&PodmanCtx>) -> (c: Cmd)
    ensures
        c.program@ == program_of(podman_ctx),
        c.args_view() == rmi_args(podman_ctx, image@),
{
    proof {
        reveal_strlit("rmi");
        assert(vstd::string::is_ascii("rmi"));
    }
    let mut c = base_command(podman_ctx);
    store_opt(&mut c, podman_ctx);
    c.arg(lit_vec("rmi"));
    c.arg(clone_bytes(image));
    proof {
        assert(c.args_view() =~= rmi_args(podman_ctx, image@));
    }
    c
}

/// The argument vector of a container removal.
pub open spec fn rm_args(ctx: Option<&PodmanCtx>, name: Seq<u8>) -> Seq<Seq<u8>> {
    base_args(ctx) + store_opt_args(ctx) + seq![lit("rm"), name]
}

/// Compiles a container removal.
pub fn rm(name: &Vec<u8>, podman_ctx: Option<&PodmanCtx>) -> (c: Cmd)
    ensures
        c.program@ == program_of(podman_ctx),
        c.args_view() == rm_args(podman_ctx, name@),
{
    proof {
        reveal_strlit("rm");
        assert(vstd::string::is_ascii("rm"));
    }
    let mut c = base_command(podman_ctx);
    store_opt(&mut c, podman_ctx);
    c.arg(lit_vec("rm"));
    c.arg(clone_bytes(name));
    proof {
        assert(c.args_view() =~= rm_args(podman_ctx, name@));
    }
    c
}

/// The argument vector of an image listing.
pub open spec fn images_args(ctx: Option<&PodmanCtx>) -> Seq<Seq<u8>> {
    base_args(ctx) + store_opt_args(ctx) + seq![lit("images")]
}

/// Compiles an image listing.
pub fn images(podman_ctx: Option<&PodmanCtx>) -> (c: Cmd)
    ensures
        c.program@ == program_of(podman_ctx),
        c.args_view() == images_args(podman_ctx),
{
    proof {
        reveal_strlit("images");
        assert(vstd::string::is_ascii("images"));
    }
    let mut c = base_command(podman_ctx);
    store_opt(&mut c, podman_ctx);
    c.arg(lit_vec("images"));
    proof {
        assert(c.args_view() =~= images_args(podman_ctx));
    }
    c
}

/// The argument vector of an image-existence query.
pub open spec fn image_exists_args(ctx: Option<&PodmanCtx>, image: Seq<u8>) -> Seq<Seq<u8>> {
    base_args(ctx) + store_opt_args(ctx) + seq![lit("image"), lit("exists"), image]
}

/// Compiles an image-existence query; the spawned invocation answers
/// through its exit status alone.
pub fn image_exists(image: &Vec<u8>, podman_ctx: Option<&PodmanCtx>) -> (c: Cmd)
    ensures
        c.program@ == program_of(podman_ctx),
        c.args_view() == image_exists_args(podman_ctx, image@),
{
    proof {
        reveal_strlit("image");
        reveal_strlit("exists");
        assert(vstd::string::is_ascii("image"));
        assert(vstd::string::is_ascii("exists"));
    }
    let mut c = base_command(podman_ctx);
    store_opt(&mut c, podman_ctx);
    c.arg(lit_vec("image"));
    c.arg(lit_vec("exists"));
    c.arg(clone_bytes(image));
    proof {
        assert(c.args_view() =~= image_exists_args(podman_ctx, image@));
    }
    c
}

/// The argument vector of an inspect query: the log level is always
/// forced to `error` to keep the answer parseable, and an optional
/// format string is injected via `-f` immediately before the target.
pub open spec fn inspect_args(
    ctx: Option<&PodmanCtx>,
    target: Seq<u8>,
    format: Option<Seq<u8>>,
) -> Seq<Seq<u8>> {
    base_args(ctx) + store_opt_args(ctx) + seq![lit("--log-level=error"), lit("inspect")]
        + opt_tokens(lit("-f"), format) + seq![target]
}

/// Compiles an inspect query.
pub fn inspect_command(
    target: &Vec<u8>,
    format: Option<&Vec<u8>>,
    podman_ctx: Option<&PodmanCtx>,
) -> (c: Cmd)
    ensures
        c.program@ == program_of(podman_ctx),
        c.args_view() == inspect_args(podman_ctx, target@, opt_ref_bytes(format)),
{
    proof {
        reveal_strlit("--log-level=error");
        reveal_strlit("inspect");
        reveal_strlit("-f");
        assert(vstd::string::is_ascii("--log-level=error"));
        assert(vstd::string::is_ascii("inspect"));
        assert(vstd::string::is_ascii("-f"));
    }
    let mut c = base_command(podman_ctx);
    store_opt(&mut c, podman_ctx);
    c.arg(lit_vec("--log-level=error"));
    c.arg(lit_vec("inspect"));
    cli_opt(&mut c, "-f", format);
    c.arg(clone_bytes(target));
    proof {
        assert(c.args_view() =~= inspect_args(podman_ctx, target@, opt_ref_bytes(format)));
    }
    c
}

/// The argument vector of a daemon-info query.
pub open spec fn info_args(ctx: Option<&PodmanCtx>, format: Option<Seq<u8>>) -> Seq<Seq<u8>> {
    base_args(ctx) + seq![lit("info")] + opt_tokens(lit("-f"), format)
}

/// Compiles a daemon-info query.
pub fn info_command(format: Option<&Vec<u8>>, podman_ctx: Option<&PodmanCtx>) -> (c: Cmd)
    ensures
        c.program@ == program_of(podman_ctx),
        c.args_view() == info_args(podman_ctx, opt_ref_bytes(format)),
{
    proof {
        reveal_strlit("info");
        reveal_strlit("-f");
        assert(vstd::string::is_ascii("info"));
        assert(vstd::string::is_ascii("-f"));
    }
    let mut c = base_command(podman_ctx);
    c.arg(lit_vec("info"));
    cli_opt(&mut c, "-f", format);
    proof {
        assert(c.args_view() =~= info_args(podman_ctx, opt_ref_bytes(format)));
    }
    c
}

/// The argument vector of a version query.  Root paths are ignored on
/// purpose: a version query touches no runtime state, so only an
/// optional module selector is forwarded.
pub open spec fn version_args(module: Option<Seq<u8>>) -> Seq<Seq<u8>> {
    opt_tokens(lit("--module"), module) + seq![lit("version")]
}

/// Compiles a version query.
pub fn version_command(module: Option<&Vec<u8>>) -> (c: Cmd)
    ensures
        c.program@ == lit("podman"),
        c.args_view() == version_args(opt_ref_bytes(module)),
{
    proof {
        reveal_strlit("--module");
        reveal_strlit("version");
        assert(vstd::string::is_ascii("--module"));
        assert(vstd::string::is_ascii("version"));
    }
    let mut c = base_command(None);
    cli_opt(&mut c, "--module", module);
    c.arg(lit_vec("version"));
    proof {
        assert(c.args_view() =~= version_args(opt_ref_bytes(module)));
    }
    c
}

/// The workdir tokens: nothing for an empty working directory (empty
/// means "unset"), exactly one `--workdir <dir>` pair otherwise.
pub open spec fn workdir_tokens(workdir: Seq<u8>) -> Seq<Seq<u8>> {
    if workdir.len() == 0 {
        Seq::<Seq<u8>>::empty()
    } else {
        seq![lit("--workdir"), workdir]
    }
}

/// The complete, ordered argument vector of a `run` compiled from an
/// execution descriptor: the `run` prefix, `--rm`, the conditional
/// behaviour flags, the container identity, entrypoint and workdir
/// policy, the descriptor's mount/device/env/annotation pairs in
/// descriptor order, the image reference, and finally the caller's
/// container command, verbatim.
pub open spec fn run_from_edf_args(
    edf: &Edf,
    p_ctx: Option<&PodmanCtx>,
    c_ctx: &ContainerCtx,
    container_cmd: Seq<Seq<u8>>,
) -> Seq<Seq<u8>> {
    run_prefix_args(p_ctx) + seq![lit("--rm")] + flag_tokens(c_ctx.detach, lit("--detach"))
        + flag_tokens(c_ctx.interactive, lit("-it")) + flag_tokens(
        !edf.writable,
        lit("--read-only"),
    ) + seq![lit("--name"), c_ctx.name@] + opt_tokens(lit("--pidfile"), opt_bytes(c_ctx.pidfile))
        + flag_tokens(!edf.entrypoint, lit("--entrypoint=")) + workdir_tokens(edf.workdir@)
        + pair_tokens(lit("--volume"), arg_seq(edf.mounts@)) + pair_tokens(
        lit("--device"),
        arg_seq(edf.devices@),
    ) + kv_pair_tokens(lit("--env"), kv_views(edf.env@)) + kv_pair_tokens(
        lit("--annotation"),
        kv_views(edf.annotations@),
    ) + seq![edf.image@] + container_cmd
}

/// Compiles the full `run` invocation for a workload descriptor.
///
/// Clearing the image's entrypoint is supported; redefining it is not.
pub fn run_from_edf_command(
    edf: &Edf,
    p_ctx: Option<&PodmanCtx>,
    c_ctx: &ContainerCtx,
    container_cmd: &Vec<Vec<u8>>,
) -> (c: Cmd)
    ensures
        c.program@ == program_of(p_ctx),
        c.args_view() == run_from_edf_args(edf, p_ctx, c_ctx, arg_seq(container_cmd@)),
{
    proof {
        reveal_strlit("--rm");
        reveal_strlit("--detach");
        reveal_strlit("-it");
        reveal_strlit("--read-only");
        reveal_strlit("--name");
        reveal_strlit("--pidfile");
        reveal_strlit("--entrypoint=");
        reveal_strlit("--workdir");
        reveal_strlit("--volume");
        reveal_strlit("--device");
        reveal_strlit("--env");
        reveal_strlit("--annotation");
        assert(vstd::string::is_ascii("--rm"));
        assert(vstd::string::is_ascii("--detach"));
        assert(vstd::string::is_ascii("-it"));
        assert(vstd::string::is_ascii("--read-only"));
        assert(vstd::string::is_ascii("--name"));
        assert(vstd::string::is_ascii("--pidfile"));
        assert(vstd::string::is_ascii("--entrypoint="));
        assert(vstd::string::is_ascii("--workdir"));
        assert(vstd::string::is_ascii("--volume"));
        assert(vstd::string::is_ascii("--device"));
        assert(vstd::string::is_ascii("--env"));
        assert(vstd::string::is_ascii("--annotation"));
    }
    let mut c = run_command(p_ctx);

    c.arg(lit_vec("--rm"));
    proof {
        assert(c.args_view() =~= run_prefix_args(p_ctx) + seq![lit("--rm")]);
    }
    cli_flag(&mut c, c_ctx.detach, "--detach");
    cli_flag(&mut c, c_ctx.interactive, "-it");
    cli_flag(&mut c, !edf.writable, "--read-only");

    cli_opt(&mut c, "--name", Some(&c_ctx.name));
    let pidfile_ref = c_ctx.pidfile.as_ref();
    cli_opt(&mut c, "--pidfile", pidfile_ref);
    proof {
        assert(opt_ref_bytes(pidfile_ref) == opt_bytes(c_ctx.pidfile));
    }

    cli_flag(&mut c, !edf.entrypoint, "--entrypoint=");

    if edf.workdir.len() > 0 {
        cli_opt(&mut c, "--workdir", Some(&edf.workdir));
    }
    proof {
        let head = run_prefix_args(p_ctx) + seq![lit("--rm")] + flag_tokens(
            c_ctx.detach,
            lit("--detach"),
        ) + flag_tokens(c_ctx.interactive, lit("-it")) + flag_tokens(
            !edf.writable,
            lit("--read-only"),
        ) + seq![lit("--name"), c_ctx.name@] + opt_tokens(
            lit("--pidfile"),
            opt_bytes(c_ctx.pidfile),
        ) + flag_tokens(!edf.entrypoint, lit("--entrypoint=")) + workdir_tokens(edf.workdir@);
        assert(c.args_view() =~= head);
    }

    let ghost pre_volumes = c.args_view();
    let mut i: usize = 0;
    while i < edf.mounts.len()
        invariant
            i <= edf.mounts.len(),
            c.program@ == program_of(p_ctx),
            c.args_view() == pre_volumes + pair_tokens(
                lit("--volume"),
                arg_seq(edf.mounts@).take(i as int),
            ),
        decreases edf.mounts.len() - i,
    {
        proof {
            reveal_strlit("--volume");
            assert(vstd::string::is_ascii("--volume"));
        }
        cli_opt(&mut c, "--volume", Some(&edf.mounts[i]));
        proof {
            let s = arg_seq(edf.mounts@);
            assert(s.take(i + 1).drop_last() =~= s.take(i as int));
            assert(c.args_view() =~= pre_volumes + pair_tokens(lit("--volume"), s.take(i + 1)));
        }
        i += 1;
    }
    proof {
        assert(arg_seq(edf.mounts@).take(edf.mounts@.len() as int) =~= arg_seq(edf.mounts@));
    }

    let ghost pre_devices = c.args_view();
    let mut i: usize = 0;
    while i < edf.devices.len()
        invariant
            i <= edf.devices.len(),
            c.program@ == program_of(p_ctx),
            c.args_view() == pre_devices + pair_tokens(
                lit("--device"),
                arg_seq(edf.devices@).take(i as int),
            ),
        decreases edf.devices.len() - i,
    {
        proof {
            reveal_strlit("--device");
            assert(vstd::string::is_ascii("--device"));
        }
        cli_opt(&mut c, "--device", Some(&edf.devices[i]));
        proof {
            let s = arg_seq(edf.devices@);
            assert(s.take(i + 1).drop_last() =~= s.take(i as int));
            assert(c.args_view() =~= pre_devices + pair_tokens(lit("--device"), s.take(i + 1)));
        }
        i += 1;
    }
    proof {
        assert(arg_seq(edf.devices@).take(edf.devices@.len() as int) =~= arg_seq(edf.devices@));
    }

    let ghost pre_env = c.args_view();
    let mut i: usize = 0;
    while i < edf.env.len()
        invariant
            i <= edf.env.len(),
            c.program@ == program_of(p_ctx),
            c.args_view() == pre_env + kv_pair_tokens(
                lit("--env"),
                kv_views(edf.env@).take(i as int),
            ),
        decreases edf.env.len() - i,
    {
        proof {
            reveal_strlit("--env");
            assert(vstd::string::is_ascii("--env"));
        }
        cli_kv(&mut c, "--env", &edf.env[i].key, &edf.env[i].val);
        proof {
            let s = kv_views(edf.env@);
            assert(s.take(i + 1).drop_last() =~= s.take(i as int));
            assert(c.args_view() =~= pre_env + kv_pair_tokens(lit("--env"), s.take(i + 1)));
        }
        i += 1;
    }
    proof {
        assert(kv_views(edf.env@).take(edf.env@.len() as int) =~= kv_views(edf.env@));
    }

    let ghost pre_annotations = c.args_view();
    let mut i: usize = 0;
    while i < edf.annotations.len()
        invariant
            i <= edf.annotations.len(),
            c.program@ == program_of(p_ctx),
            c.args_view() == pre_annotations + kv_pair_tokens(
                lit("--annotation"),
                kv_views(edf.annotations@).take(i as int),
            ),
        decreases edf.annotations.len() - i,
    {
        proof {
            reveal_strlit("--annotation");
            assert(vstd::string::is_ascii("--annotation"));
        }
        cli_kv(&mut c, "--annotation", &edf.annotations[i].key, &edf.annotations[i].val);
        proof {
            let s = kv_views(edf.annotations@);
            assert(s.take(i + 1).drop_last() =~= s.take(i as int));
            assert(c.args_view() =~= pre_annotations + kv_pair_tokens(
                lit("--annotation"),
                s.take(i + 1),
            ));
        }
        i += 1;
    }
    proof {
        assert(kv_views(edf.annotations@).take(edf.annotations@.len() as int) =~= kv_views(
            edf.annotations@,
        ));
    }

    c.arg(clone_bytes(&edf.image));
    c.append_args(container_cmd);
    proof {
        assert(c.args_view() =~= run_from_edf_args(edf, p_ctx, c_ctx, arg_seq(container_cmd@)));
    }
    c
}

/// Appends the secondary-store storage option when the context
/// configures one.
fn store_opt(c: &mut Cmd, podman_ctx: Option<&PodmanCtx>)
    ensures
        final(c).program == old(c).program,
        final(c).args_view() == old(c).args_view() + store_opt_args(podman_ctx),
{
    if let Some(ctx) = podman_ctx {
        proof {
            reveal_strlit("additionalimagestore");
            assert(vstd::string::is_ascii("additionalimagestore"));
        }
        cli_storage_opt(c, "additionalimagestore", ctx.ro_store.as_ref());
    }
    proof {
        assert(c.args_view() =~= old(c).args_view() + store_opt_args(podman_ctx));
    }
}

} // verus!

