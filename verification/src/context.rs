//! Caller-owned context values consumed by the invocation compiler.
//!
//! Paths, names and values are carried as opaque byte strings: on the
//! target platform a path or an environment value need not be valid
//! text, and the compiler never reinterprets a byte of them.

use vstd::prelude::*;

verus! {

/// Identity and configuration of the external container runtime.
///
/// An absent optional field means "let the runtime use its own default":
/// the compiler never synthesizes a value for it, it simply emits no
/// token for that field.
pub struct PodmanCtx {
    /// Path of the runtime executable.
    pub podman_path: Vec<u8>,
    /// Named configuration module forwarded as `--module`.
    pub module: Option<Vec<u8>>,
    /// Persistent image-storage directory, forwarded as `--root`.
    pub graphroot: Option<Vec<u8>>,
    /// Ephemeral state directory, forwarded as `--runroot`.
    pub runroot: Option<Vec<u8>>,
    /// Custom mount-helper program, forwarded as a `mount_program`
    /// storage option.
    pub parallax_mount_program: Option<Vec<u8>>,
    /// Secondary read-only image store, forwarded as an
    /// `additionalimagestore` storage option.
    pub ro_store: Option<Vec<u8>>,
    /// Ordered environment-variable overrides for the spawned process.
    /// They are applied to the child's environment by the executing
    /// layer, never to the caller's process, and never appear in the
    /// compiled argument vector — the compilers' contracts make no
    /// mention of them, so every compiled token sequence is proved
    /// independent of this field.
    pub env_overrides: Option<Vec<KeyVal>>,
}

/// Per-invocation container identity and behaviour.
pub struct ContainerCtx {
    /// Container name, emitted as `--name` and used for later
    /// identification.
    pub name: Vec<u8>,
    /// Request an interactive terminal (`-it`).
    pub interactive: bool,
    /// Detach from the container after starting it (`--detach`).
    pub detach: bool,
    /// Intent to propagate environment variables from the descriptor;
    /// reserved for the descriptor's own env handling, never a runtime
    /// flag by itself.
    pub set_env: bool,
    /// Explicit pidfile path, emitted as `--pidfile`.
    pub pidfile: Option<Vec<u8>>,
}

/// One `key=value` entry of an environment or annotation mapping.
pub struct KeyVal {
    pub key: Vec<u8>,
    pub val: Vec<u8>,
}

/// A resolved execution descriptor, consumed read-only.
///
/// The descriptor is produced by an external rendering collaborator and
/// arrives here already validated, reduced to the plain values the
/// compiler reads: mounts come as fully rendered
/// `source:destination[:options]` volume strings, devices as opaque
/// specs, and the env and annotation mappings as lists of unique keys
/// with their values.
pub struct Edf {
    /// Image reference, emitted as the positional argument before the
    /// container command.
    pub image: Vec<u8>,
    /// When false, the container is started read-only.
    pub writable: bool,
    /// When false, the descriptor requests clearing the image's
    /// entrypoint; redefining it is not supported.
    pub entrypoint: bool,
    /// Working directory; empty means "unset" and emits no token.
    pub workdir: Vec<u8>,
    /// Rendered volume strings, one `--volume` pair each, in order.
    pub mounts: Vec<Vec<u8>>,
    /// Device specs, one `--device` pair each, in order.
    pub devices: Vec<Vec<u8>>,
    /// Environment entries, one `--env key=value` pair each.
    pub env: Vec<KeyVal>,
    /// Annotation entries, one `--annotation key=value` pair each.
    pub annotations: Vec<KeyVal>,
}

} // verus!
