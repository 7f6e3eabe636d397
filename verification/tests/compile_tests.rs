use sarus_suite_podman_driver::{
    base_command, image_exists, images, info_command, inspect_command, key_val, pull, rm, rmi,
    run_command, run_from_edf_command, version_command, ContainerCtx, Edf, KeyVal, PodmanCtx,
};

fn bv(s: &[u8]) -> Vec<u8> {
    s.to_vec()
}

fn full_ctx() -> PodmanCtx {
    PodmanCtx {
        podman_path: bv(b"/usr/bin/podman"),
        module: Some(bv(b"hpc")),
        graphroot: Some(bv(b"/dev/shm/sarus-test/graphroot")),
        runroot: Some(bv(b"/dev/shm/sarus-test/runroot")),
        parallax_mount_program: Some(bv(b"/usr/local/sarus-test/parallax_mount_program")),
        ro_store: Some(bv(b"/scratch/user/parallax/store")),
        env_overrides: None,
    }
}

fn test_edf() -> Edf {
    Edf {
        image: bv(b"ubuntu:24.04"),
        writable: false,
        entrypoint: false,
        workdir: bv(b"/develop"),
        mounts: vec![bv(b"/home/user/test:/develop"), bv(b"/src2:/dst2")],
        devices: vec![bv(b"/dev/fuse"), bv(b"nvidia.com/gpu=all")],
        env: vec![
            KeyVal { key: bv(b"TEST_1"), val: bv(b"EDF!") },
            KeyVal { key: bv(b"TEST_2"), val: bv(b"foobar") },
        ],
        annotations: vec![
            KeyVal { key: bv(b"com.hooks.test1.enabled"), val: bv(b"true") },
            KeyVal { key: bv(b"com.hooks.test2.enabled"), val: bv(b"false") },
        ],
    }
}

fn has_pair(args: &[Vec<u8>], a: &[u8], b: &[u8]) -> bool {
    args.windows(2).any(|w| w[0] == a && w[1] == b)
}

#[test]
fn test_run_from_edf_command() {
    let p_ctx = full_ctx();
    let c_ctx = ContainerCtx {
        name: bv(b"edf_test"),
        interactive: true,
        detach: true,
        set_env: true,
        pidfile: Some(bv(b"/tmp/test/pidfile")),
    };
    let edf = test_edf();

    let cmd = run_from_edf_command(&edf, Some(&p_ctx), &c_ctx, &vec![bv(b"bash")]);
    assert_eq!(cmd.program, bv(b"/usr/bin/podman"));

    let args = &cmd.args;
    assert_eq!(args.len(), 40);

    let args_head: Vec<Vec<u8>> = vec![
        bv(b"--root"),
        bv(b"/dev/shm/sarus-test/graphroot"),
        bv(b"--runroot"),
        bv(b"/dev/shm/sarus-test/runroot"),
        bv(b"--module"),
        bv(b"hpc"),
        bv(b"--storage-opt"),
        bv(b"additionalimagestore=/scratch/user/parallax/store"),
        bv(b"--storage-opt"),
        bv(b"mount_program=/usr/local/sarus-test/parallax_mount_program"),
        bv(b"run"),
        bv(b"--rm"),
        bv(b"--detach"),
        bv(b"-it"),
        bv(b"--read-only"),
        bv(b"--name"),
        bv(b"edf_test"),
        bv(b"--pidfile"),
        bv(b"/tmp/test/pidfile"),
        bv(b"--entrypoint="),
    ];
    assert_eq!(&args[..20], &args_head[..]);

    assert!(has_pair(args, b"--workdir", b"/develop"));
    assert!(has_pair(args, b"--volume", b"/home/user/test:/develop"));
    assert!(has_pair(args, b"--volume", b"/src2:/dst2"));
    assert!(has_pair(args, b"--device", b"/dev/fuse"));
    assert!(has_pair(args, b"--device", b"nvidia.com/gpu=all"));
    assert!(has_pair(args, b"--env", b"TEST_1=EDF!"));
    assert!(has_pair(args, b"--env", b"TEST_2=foobar"));
    assert!(has_pair(args, b"--annotation", b"com.hooks.test1.enabled=true"));
    assert!(has_pair(args, b"--annotation", b"com.hooks.test2.enabled=false"));

    assert_eq!(args[args.len() - 2], bv(b"ubuntu:24.04"));
    assert_eq!(args[args.len() - 1], bv(b"bash"));
}

#[test]
fn test_run_from_edf_writable_omits_read_only() {
    let mut edf = test_edf();
    edf.writable = true;
    let c_ctx = ContainerCtx {
        name: bv(b"w"),
        interactive: false,
        detach: false,
        set_env: false,
        pidfile: None,
    };
    let cmd = run_from_edf_command(&edf, None, &c_ctx, &Vec::new());
    let n = cmd.args.iter().filter(|a| a.as_slice() == b"--read-only").count();
    assert_eq!(n, 0);

    edf.writable = false;
    let cmd = run_from_edf_command(&edf, None, &c_ctx, &Vec::new());
    let n = cmd.args.iter().filter(|a| a.as_slice() == b"--read-only").count();
    assert_eq!(n, 1);
}

#[test]
fn test_run_from_edf_empty_workdir_omits_token() {
    let mut edf = test_edf();
    edf.workdir = Vec::new();
    let c_ctx = ContainerCtx {
        name: bv(b"w"),
        interactive: false,
        detach: false,
        set_env: false,
        pidfile: None,
    };
    let cmd = run_from_edf_command(&edf, None, &c_ctx, &Vec::new());
    assert!(!cmd.args.iter().any(|a| a.as_slice() == b"--workdir"));

    edf.workdir = bv(b"/develop");
    let cmd = run_from_edf_command(&edf, None, &c_ctx, &Vec::new());
    let n = cmd.args.iter().filter(|a| a.as_slice() == b"--workdir").count();
    assert_eq!(n, 1);
    assert!(has_pair(&cmd.args, b"--workdir", b"/develop"));
}

#[test]
fn test_run_from_edf_minimal_without_context() {
    let edf = Edf {
        image: bv(b"alpine:3.22"),
        writable: true,
        entrypoint: true,
        workdir: Vec::new(),
        mounts: Vec::new(),
        devices: Vec::new(),
        env: Vec::new(),
        annotations: Vec::new(),
    };
    let c_ctx = ContainerCtx {
        name: bv(b"tiny"),
        interactive: false,
        detach: false,
        set_env: false,
        pidfile: None,
    };
    let cmd = run_from_edf_command(&edf, None, &c_ctx, &vec![bv(b"sh"), bv(b"-c"), bv(b"true")]);
    assert_eq!(cmd.program, bv(b"podman"));
    let expected: Vec<Vec<u8>> = vec![
        bv(b"run"),
        bv(b"--rm"),
        bv(b"--name"),
        bv(b"tiny"),
        bv(b"alpine:3.22"),
        bv(b"sh"),
        bv(b"-c"),
        bv(b"true"),
    ];
    assert_eq!(cmd.args, expected);
}

#[test]
fn test_base_command_tokens() {
    let cmd = base_command(Some(&full_ctx()));
    assert_eq!(cmd.program, bv(b"/usr/bin/podman"));
    let expected: Vec<Vec<u8>> = vec![
        bv(b"--root"),
        bv(b"/dev/shm/sarus-test/graphroot"),
        bv(b"--runroot"),
        bv(b"/dev/shm/sarus-test/runroot"),
    ];
    assert_eq!(cmd.args, expected);

    let cmd = base_command(None);
    assert_eq!(cmd.program, bv(b"podman"));
    assert!(cmd.args.is_empty());
}

#[test]
fn test_base_command_absent_fields_emit_nothing() {
    let ctx = PodmanCtx {
        podman_path: bv(b"/usr/bin/podman"),
        module: None,
        graphroot: None,
        runroot: Some(bv(b"/rr")),
        parallax_mount_program: None,
        ro_store: None,
        env_overrides: None,
    };
    let cmd = base_command(Some(&ctx));
    let expected: Vec<Vec<u8>> = vec![bv(b"--runroot"), bv(b"/rr")];
    assert_eq!(cmd.args, expected);
}

#[test]
fn test_run_command_prefix() {
    let cmd = run_command(Some(&full_ctx()));
    let expected: Vec<Vec<u8>> = vec![
        bv(b"--root"),
        bv(b"/dev/shm/sarus-test/graphroot"),
        bv(b"--runroot"),
        bv(b"/dev/shm/sarus-test/runroot"),
        bv(b"--module"),
        bv(b"hpc"),
        bv(b"--storage-opt"),
        bv(b"additionalimagestore=/scratch/user/parallax/store"),
        bv(b"--storage-opt"),
        bv(b"mount_program=/usr/local/sarus-test/parallax_mount_program"),
        bv(b"run"),
    ];
    assert_eq!(cmd.args, expected);

    let cmd = run_command(None);
    assert_eq!(cmd.program, bv(b"podman"));
    assert_eq!(cmd.args, vec![bv(b"run")]);
}

#[test]
fn test_pull_command_tokens() {
    let cmd = pull(&bv(b"alpine:3.22"), Some(&full_ctx()));
    let expected: Vec<Vec<u8>> = vec![
        bv(b"--root"),
        bv(b"/dev/shm/sarus-test/graphroot"),
        bv(b"--runroot"),
        bv(b"/dev/shm/sarus-test/runroot"),
        bv(b"pull"),
        bv(b"alpine:3.22"),
    ];
    assert_eq!(cmd.args, expected);

    let cmd = pull(&bv(b"alpine:3.22"), None);
    assert_eq!(cmd.program, bv(b"podman"));
    assert_eq!(cmd.args, vec![bv(b"pull"), bv(b"alpine:3.22")]);
}

#[test]
fn test_rmi_command_tokens() {
    let cmd = rmi(&bv(b"alpine:3.22"), Some(&full_ctx()));
    let expected: Vec<Vec<u8>> = vec![
        bv(b"--root"),
        bv(b"/dev/shm/sarus-test/graphroot"),
        bv(b"--runroot"),
        bv(b"/dev/shm/sarus-test/runroot"),
        bv(b"--storage-opt"),
        bv(b"additionalimagestore=/scratch/user/parallax/store"),
        bv(b"rmi"),
        bv(b"alpine:3.22"),
    ];
    assert_eq!(cmd.args, expected);
}

#[test]
fn test_rm_command_tokens() {
    let cmd = rm(&bv(b"edf_test"), Some(&full_ctx()));
    let expected: Vec<Vec<u8>> = vec![
        bv(b"--root"),
        bv(b"/dev/shm/sarus-test/graphroot"),
        bv(b"--runroot"),
        bv(b"/dev/shm/sarus-test/runroot"),
        bv(b"--storage-opt"),
        bv(b"additionalimagestore=/scratch/user/parallax/store"),
        bv(b"rm"),
        bv(b"edf_test"),
    ];
    assert_eq!(cmd.args, expected);
}

#[test]
fn test_images_command_tokens() {
    let cmd = images(Some(&full_ctx()));
    assert_eq!(cmd.args[cmd.args.len() - 1], bv(b"images"));
    assert!(cmd.args.contains(&bv(b"additionalimagestore=/scratch/user/parallax/store")));

    let cmd = images(None);
    assert_eq!(cmd.args, vec![bv(b"images")]);
}

#[test]
fn test_image_exists_command_tokens() {
    let cmd = image_exists(&bv(b"alpine:3.22"), Some(&full_ctx()));
    let tail: Vec<Vec<u8>> = vec![bv(b"image"), bv(b"exists"), bv(b"alpine:3.22")];
    assert_eq!(&cmd.args[cmd.args.len() - 3..], &tail[..]);
    assert!(cmd.args.contains(&bv(b"additionalimagestore=/scratch/user/parallax/store")));
}

#[test]
fn test_inspect_command_tokens() {
    let fmt = bv(b"{{.State.Pid}}");
    let cmd = inspect_command(&bv(b"edf_test"), Some(&fmt), Some(&full_ctx()));
    let expected: Vec<Vec<u8>> = vec![
        bv(b"--root"),
        bv(b"/dev/shm/sarus-test/graphroot"),
        bv(b"--runroot"),
        bv(b"/dev/shm/sarus-test/runroot"),
        bv(b"--storage-opt"),
        bv(b"additionalimagestore=/scratch/user/parallax/store"),
        bv(b"--log-level=error"),
        bv(b"inspect"),
        bv(b"-f"),
        bv(b"{{.State.Pid}}"),
        bv(b"edf_test"),
    ];
    assert_eq!(cmd.args, expected);

    let cmd = inspect_command(&bv(b"edf_test"), None, None);
    let expected: Vec<Vec<u8>> =
        vec![bv(b"--log-level=error"), bv(b"inspect"), bv(b"edf_test")];
    assert_eq!(cmd.args, expected);
}

#[test]
fn test_info_command_tokens() {
    let fmt = bv(b"{{.Store.RunRoot}}");
    let cmd = info_command(Some(&fmt), None);
    let expected: Vec<Vec<u8>> = vec![bv(b"info"), bv(b"-f"), bv(b"{{.Store.RunRoot}}")];
    assert_eq!(cmd.program, bv(b"podman"));
    assert_eq!(cmd.args, expected);

    let cmd = info_command(None, Some(&full_ctx()));
    assert_eq!(cmd.args[cmd.args.len() - 1], bv(b"info"));
}

#[test]
fn test_version_command_tokens() {
    let module = bv(b"hpc");
    let cmd = version_command(Some(&module));
    assert_eq!(cmd.program, bv(b"podman"));
    let expected: Vec<Vec<u8>> = vec![bv(b"--module"), bv(b"hpc"), bv(b"version")];
    assert_eq!(cmd.args, expected);

    let cmd = version_command(None);
    assert_eq!(cmd.args, vec![bv(b"version")]);
}

#[test]
fn test_key_val_storage_opt() {
    let r = key_val(&bv(b"additionalimagestore"), &bv(b"/store"));
    assert_eq!(r, bv(b"additionalimagestore=/store"));
}

#[test]
fn test_key_val_opaque_bytes() {
    let r = key_val(&bv(b"a=b"), &vec![0xffu8, b'=']);
    let mut expected = bv(b"a=b=");
    expected.push(0xffu8);
    expected.push(b'=');
    assert_eq!(r, expected);
}

#[test]
fn test_env_overrides_never_reach_argv() {
    let plain = full_ctx();
    let mut with_env = full_ctx();
    with_env.env_overrides = Some(vec![
        KeyVal { key: bv(b"LD_LIBRARY_PATH"), val: bv(b"/opt/lib") },
        KeyVal { key: bv(b"TMPDIR"), val: bv(b"/scratch/tmp") },
    ]);
    let a = run_command(Some(&plain));
    let b = run_command(Some(&with_env));
    assert_eq!(a.program, b.program);
    assert_eq!(a.args, b.args);

    let a = pull(&bv(b"alpine:3.22"), Some(&plain));
    let b = pull(&bv(b"alpine:3.22"), Some(&with_env));
    assert_eq!(a.args, b.args);
}
