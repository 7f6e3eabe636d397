use sarus_suite_podman_driver::{
    default_pidfile_path, get_container_pid, parallax_command, parallax_migrate,
    parallax_outcome, parallax_rmi, parse_pid, DriverError, PodmanCtx,
};

fn bv(s: &[u8]) -> Vec<u8> {
    s.to_vec()
}

fn full_ctx() -> PodmanCtx {
    PodmanCtx {
        podman_path: bv(b"/usr/bin/podman"),
        module: Some(bv(b"hpc")),
        graphroot: Some(bv(b"/dev/shm/sarus-test/graphroot")),
        runroot: Some(bv(b"/dev/shm/sarus-test/runroot")),
        parallax_mount_program: Some(bv(b"/usr/local/sarus-test/parallax_mount_program")),
        ro_store: Some(bv(b"/scratch/user/parallax/store")),
        env_overrides: None,
    }
}

#[test]
fn test_parallax_command() {
    let p_ctx = full_ctx();
    let parallax_path = bv(b"/usr/local/sarus-test/parallax");
    let image = bv(b"ubuntu:24.04");

    let cmd = parallax_command(&parallax_path, &p_ctx, &image, &bv(b"migrate")).unwrap();

    assert_eq!(cmd.program, parallax_path);
    assert_eq!(cmd.args.len(), 7);

    let args_expected: Vec<Vec<u8>> = vec![
        bv(b"--podmanRoot"),
        bv(b"/dev/shm/sarus-test/graphroot"),
        bv(b"--roStoragePath"),
        bv(b"/scratch/user/parallax/store"),
        bv(b"--migrate"),
        bv(b"--image"),
        bv(b"ubuntu:24.04"),
    ];
    assert_eq!(cmd.args, args_expected);
}

#[test]
fn test_parallax_rmi_action_token() {
    let cmd =
        parallax_rmi(&bv(b"/usr/local/sarus-test/parallax"), &full_ctx(), &bv(b"ubuntu:24.04"))
            .unwrap();
    assert_eq!(cmd.args[4], bv(b"--rmi"));
}

#[test]
fn test_parallax_missing_ro_store_fails_before_spawn() {
    let mut ctx = full_ctx();
    ctx.ro_store = None;
    let r = parallax_migrate(&bv(b"/usr/local/sarus-test/parallax"), &ctx, &bv(b"ubuntu:24.04"));
    assert!(matches!(r, Err(DriverError::MissingRoStore)));
}

#[test]
fn test_parallax_missing_graphroot_fails_before_spawn() {
    let mut ctx = full_ctx();
    ctx.graphroot = None;
    let r = parallax_migrate(&bv(b"/usr/local/sarus-test/parallax"), &ctx, &bv(b"ubuntu:24.04"));
    assert!(matches!(r, Err(DriverError::MissingGraphroot)));
}

#[test]
fn test_parallax_outcome_success_and_failure() {
    assert!(matches!(parallax_outcome(true, &Vec::new()), Ok(())));
    let r = parallax_outcome(false, &bv(b"  tool exploded \n"));
    match r {
        Err(DriverError::CommandFailed { stderr }) => {
            assert_eq!(stderr, bv(b"tool exploded"));
        },
        _ => panic!("expected a command failure"),
    }
}

#[test]
fn test_inspect_pid_stopped_container_is_zero_not_error() {
    let r = get_container_pid(true, &bv(b"0\n"), &Vec::new());
    assert!(matches!(r, Ok(0)));
}

#[test]
fn test_get_container_pid_parses_trimmed_stdout() {
    let r = get_container_pid(true, &bv(b"12345\n"), &Vec::new());
    assert!(matches!(r, Ok(12345)));
}

#[test]
fn test_get_container_pid_failure_carries_trimmed_stderr() {
    let r = get_container_pid(false, &bv(b"77\n"), &bv(b"\tno such container\n"));
    match r {
        Err(DriverError::CommandFailed { stderr }) => {
            assert_eq!(stderr, bv(b"no such container"));
        },
        _ => panic!("expected a command failure"),
    }
}

#[test]
fn test_parse_pid_accepts_plain_and_padded_numerals() {
    assert!(matches!(parse_pid(&bv(b"42")), Ok(42)));
    assert!(matches!(parse_pid(&bv(b" 77 \t\n")), Ok(77)));
    assert!(matches!(parse_pid(&bv(b"4294967295")), Ok(4294967295)));
}

#[test]
fn test_parse_pid_rejects_malformed_input() {
    assert!(matches!(parse_pid(&bv(b"")), Err(DriverError::PidParse)));
    assert!(matches!(parse_pid(&bv(b"  \n")), Err(DriverError::PidParse)));
    assert!(matches!(parse_pid(&bv(b"abc")), Err(DriverError::PidParse)));
    assert!(matches!(parse_pid(&bv(b"12a")), Err(DriverError::PidParse)));
    assert!(matches!(parse_pid(&bv(b"-7")), Err(DriverError::PidParse)));
    assert!(matches!(parse_pid(&bv(b"4294967296")), Err(DriverError::PidParse)));
    assert!(matches!(parse_pid(&bv(b"1 2")), Err(DriverError::PidParse)));
}

#[test]
fn test_pid_strategies_agree_on_equal_texts() {
    let from_inspect = get_container_pid(true, &bv(b"4242\n"), &Vec::new());
    let from_pidfile = parse_pid(&bv(b"4242"));
    assert!(matches!(from_inspect, Ok(4242)));
    assert!(matches!(from_pidfile, Ok(4242)));
}

#[test]
fn test_default_pidfile_path_layout() {
    let r = default_pidfile_path(&bv(b"abcdef123456"), &bv(b"/run/user/1000/containers"));
    assert_eq!(
        r,
        bv(b"/run/user/1000/containers/overlay-containers/abcdef123456/userdata/pidfile")
    );
}
