//! The migration-bridge compiler: invocations of the external
//! image-store migration tool, reusing the runtime context's storage
//! paths.

use vstd::prelude::*;

use crate::cmd::{clone_bytes, Cmd};
use crate::context::PodmanCtx;
use crate::encode::{append_bytes, lit, lit_vec};
use crate::error::DriverError;
use crate::text::{trim_ascii, trimmed};

verus! {

/// The argument vector of a migration-tool invocation:
/// `--podmanRoot <graphroot> --roStoragePath <store> --<action>
/// --image <image>`.
pub open spec fn parallax_args(
    graphroot: Seq<u8>,
    ro_store: Seq<u8>,
    image: Seq<u8>,
    action: Seq<u8>,
) -> Seq<Seq<u8>> {
    seq![
        lit("--podmanRoot"),
        graphroot,
        lit("--roStoragePath"),
        ro_store,
        lit("--") + action,
        lit("--image"),
        image,
    ]
}

/// Compiles a migration-tool invocation.
///
/// The tool cannot operate without the runtime's graph-root and the
/// secondary read-only store, so compilation fails on a context missing
/// either — before anything could be spawned.  The action itself is not
/// validated against the tool's closed set here; the wrappers below are
/// the enforcement point.
pub fn parallax_command(
    parallax_path: &Vec<u8>,
    podman_ctx: &PodmanCtx,
    image: &Vec<u8>,
    action: &Vec<u8>,
) -> (r: Result<Cmd, DriverError>)
    ensures
        podman_ctx.graphroot is None ==> r == Err::<Cmd, DriverError>(
            DriverError::MissingGraphroot,
        ),
        podman_ctx.graphroot is Some && podman_ctx.ro_store is None ==> r == Err::<
            Cmd,
            DriverError,
        >(DriverError::MissingRoStore),
        r is Ok <==> podman_ctx.graphroot is Some && podman_ctx.ro_store is Some,
        r is Ok ==> (r->Ok_0).program@ == parallax_path@ && (r->Ok_0).args_view()
            == parallax_args(
            podman_ctx.graphroot->0@,
            podman_ctx.ro_store->0@,
            image@,
            action@,
        ),
{
    proof {
        reveal_strlit("--podmanRoot");
        reveal_strlit("--roStoragePath");
        reveal_strlit("--");
        reveal_strlit("--image");
        assert(vstd::string::is_ascii("--podmanRoot"));
        assert(vstd::string::is_ascii("--roStoragePath"));
        assert(vstd::string::is_ascii("--"));
        assert(vstd::string::is_ascii("--image"));
    }
    let graphroot = match &podman_ctx.graphroot {
        Some(g) => g,
        None => {
            return Err(DriverError::MissingGraphroot);
        },
    };
    let ro_store = match &podman_ctx.ro_store {
        Some(s) => s,
        None => {
            return Err(DriverError::MissingRoStore);
        },
    };
    let mut c = Cmd::new(clone_bytes(parallax_path));
    c.arg(lit_vec("--podmanRoot"));
    c.arg(clone_bytes(graphroot));
    c.arg(lit_vec("--roStoragePath"));
    c.arg(clone_bytes(ro_store));
    let mut act = lit_vec("--");
    append_bytes(&mut act, action);
    c.arg(act);
    c.arg(lit_vec("--image"));
    c.arg(clone_bytes(image));
    proof {
        assert(c.args_view() =~= parallax_args(
            podman_ctx.graphroot->0@,
            podman_ctx.ro_store->0@,
            image@,
            action@,
        ));
    }
    Ok(c)
}

/// Compiles the migration of `image` into the runtime's store format.
pub fn parallax_migrate(parallax_path: &Vec<u8>, podman_ctx: &PodmanCtx, image: &Vec<u8>) -> (r:
    Result<Cmd, DriverError>)
    ensures
        podman_ctx.graphroot is None ==> r == Err::<Cmd, DriverError>(
            DriverError::MissingGraphroot,
        ),
        podman_ctx.graphroot is Some && podman_ctx.ro_store is None ==> r == Err::<
            Cmd,
            DriverError,
        >(DriverError::MissingRoStore),
        r is Ok <==> podman_ctx.graphroot is Some && podman_ctx.ro_store is Some,
        r is Ok ==> (r->Ok_0).program@ == parallax_path@ && (r->Ok_0).args_view()
            == parallax_args(
            podman_ctx.graphroot->0@,
            podman_ctx.ro_store->0@,
            image@,
            lit("migrate"),
        ),
{
    proof {
        reveal_strlit("migrate");
        assert(vstd::string::is_ascii("migrate"));
    }
    let action = lit_vec("migrate");
    parallax_command(parallax_path, podman_ctx, image, &action)
}

/// Compiles the removal of `image` from the migrated store.
pub fn parallax_rmi(parallax_path: &Vec<u8>, podman_ctx: &PodmanCtx, image: &Vec<u8>) -> (r:
    Result<Cmd, DriverError>)
    ensures
        podman_ctx.graphroot is None ==> r == Err::<Cmd, DriverError>(
            DriverError::MissingGraphroot,
        ),
        podman_ctx.graphroot is Some && podman_ctx.ro_store is None ==> r == Err::<
            Cmd,
            DriverError,
        >(DriverError::MissingRoStore),
        r is Ok <==> podman_ctx.graphroot is Some && podman_ctx.ro_store is Some,
        r is Ok ==> (r->Ok_0).program@ == parallax_path@ && (r->Ok_0).args_view()
            == parallax_args(
            podman_ctx.graphroot->0@,
            podman_ctx.ro_store->0@,
            image@,
            lit("rmi"),
        ),
{
    proof {
        reveal_strlit("rmi");
        assert(vstd::string::is_ascii("rmi"));
    }
    let action = lit_vec("rmi");
    parallax_command(parallax_path, podman_ctx, image, &action)
}

/// Interprets the exit of a spawned migration-tool invocation: success
/// is silent, failure carries the trimmed standard-error text so the
/// caller can diagnose without re-running.
pub fn parallax_outcome(success: bool, stderr: &Vec<u8>) -> (r: Result<(), DriverError>)
    ensures
        success ==> r == Ok::<(), DriverError>(()),
        !success ==> (r matches Err(DriverError::CommandFailed { stderr: e }) && e@ == trimmed(
            stderr@,
        )),
{
    if success {
        Ok(())
    } else {
        let e = trim_ascii(stderr);
        Err(DriverError::CommandFailed { stderr: e })
    }
}

} // verus!
