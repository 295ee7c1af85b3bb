//! The fixed plans: pseudo-filesystem mounts, device nodes, defaults, and
//! the transition and change-root plans.

use vminit::boot::{init_argv0, init_program, initial_dirs, next_stage, stage_error_kind,
    BootErrorKind, Stage};
use vminit::devices::{device_nodes, device_parent_dir, device_symlinks};
use vminit::mounts::{pseudo_mount_plan, root_share_tag, virtiofs_flags, MS_NODEV, MS_NOEXEC,
    MS_NOSUID, MS_RDONLY};
use vminit::transition::{surviving_mountpoints, switch_root_plan, transition_plan,
    MountAction, RootSwitchStep};

#[test]
fn pseudo_mounts_are_the_fixed_table() {
    let plan = pseudo_mount_plan();
    assert_eq!(plan.len(), 5);
    let api_flags = MS_NOSUID + MS_NOEXEC + MS_NODEV;
    assert_eq!(plan[0].source, b"sysfs".to_vec());
    assert_eq!(plan[0].target, b"/sys".to_vec());
    assert_eq!(plan[0].fstype, b"sysfs".to_vec());
    assert_eq!(plan[0].flags, api_flags);
    assert_eq!(plan[0].data, None);
    assert_eq!(plan[1].source, b"devtmpfs".to_vec());
    assert_eq!(plan[1].target, b"/dev".to_vec());
    assert_eq!(plan[1].flags, MS_NOSUID);
    assert_eq!(plan[1].data, Some(b"seclabel,mode=0755,size=4m".to_vec()));
    assert_eq!(plan[2].source, b"proc".to_vec());
    assert_eq!(plan[2].target, b"/proc".to_vec());
    assert_eq!(plan[2].flags, api_flags);
    assert_eq!(plan[3].source, b"tmpfs".to_vec());
    assert_eq!(plan[3].target, b"/run".to_vec());
    assert_eq!(plan[3].flags, MS_NOSUID + MS_NODEV);
    assert_eq!(plan[3].data, Some(b"seclabel,mode=0755,size=64m".to_vec()));
    assert_eq!(plan[4].source, b"tmpfs".to_vec());
    assert_eq!(plan[4].target, b"/tmp".to_vec());
    assert_eq!(plan[4].data, Some(b"seclabel,mode=0755,size=128m".to_vec()));
}

#[test]
fn initial_dirs_cover_staging_and_mountpoints() {
    let dirs = initial_dirs();
    let want: Vec<Vec<u8>> = [b"/sysroot".as_slice(), b"/sys", b"/dev", b"/proc", b"/run",
        b"/tmp"]
        .iter()
        .map(|s| s.to_vec())
        .collect();
    assert_eq!(dirs, want);
}

#[test]
fn device_table_matches_the_fixed_devices() {
    let nodes = device_nodes();
    assert_eq!(nodes.len(), 3);
    assert_eq!(nodes[0].path, b"/dev/kvm".to_vec());
    assert_eq!((nodes[0].major, nodes[0].minor, nodes[0].mode), (10, 232, 0o660));
    assert_eq!(nodes[1].path, b"/dev/loop-control".to_vec());
    assert_eq!((nodes[1].major, nodes[1].minor, nodes[1].mode), (10, 237, 0o660));
    assert_eq!(nodes[2].path, b"/dev/fuse".to_vec());
    assert_eq!((nodes[2].major, nodes[2].minor, nodes[2].mode), (10, 229, 0o666));
}

#[test]
fn symlinks_point_into_proc_self_fd() {
    let links = device_symlinks();
    assert_eq!(links.len(), 4);
    assert_eq!(links[0].link, b"/dev/fd".to_vec());
    assert_eq!(links[0].target, b"/proc/self/fd".to_vec());
    assert_eq!(links[1].link, b"/dev/stdin".to_vec());
    assert_eq!(links[1].target, b"/proc/self/fd/0".to_vec());
    assert_eq!(links[2].link, b"/dev/stdout".to_vec());
    assert_eq!(links[2].target, b"/proc/self/fd/1".to_vec());
    assert_eq!(links[3].link, b"/dev/stderr".to_vec());
    assert_eq!(links[3].target, b"/proc/self/fd/2".to_vec());
}

#[test]
fn device_directly_under_dev_needs_no_parent() {
    assert_eq!(device_parent_dir(b"/dev/kvm"), None);
}

#[test]
fn nested_device_needs_its_parent_created() {
    assert_eq!(device_parent_dir(b"/dev/vfio/vfio"), Some(b"/dev/vfio".to_vec()));
}

#[test]
fn virtiofs_flag_bits_follow_read_only() {
    assert_eq!(virtiofs_flags(true), MS_RDONLY);
    assert_eq!(virtiofs_flags(false), 0);
}

#[test]
fn root_tag_defaults_to_rootfs() {
    assert_eq!(root_share_tag(b"debug quiet"), b"rootfs".to_vec());
    assert_eq!(root_share_tag(b"rootfs=other"), b"other".to_vec());
}

#[test]
fn init_defaults_to_bin_sh_with_argv0_sh() {
    let prog = init_program(b"debug");
    assert_eq!(prog, b"/bin/sh".to_vec());
    assert_eq!(init_argv0(&prog), b"sh".to_vec());
}

#[test]
fn init_key_overrides_the_default() {
    let prog = init_program(b"init=/sbin/real-init");
    assert_eq!(prog, b"/sbin/real-init".to_vec());
    assert_eq!(init_argv0(&prog), b"real-init".to_vec());
}

#[test]
fn argv0_of_a_bare_name_is_the_name() {
    assert_eq!(init_argv0(b"sh"), b"sh".to_vec());
}

#[test]
fn transition_moves_existing_mountpoints_and_unmounts_the_rest() {
    let mps = surviving_mountpoints();
    assert_eq!(
        mps,
        vec![b"/run".to_vec(), b"/dev".to_vec(), b"/proc".to_vec(), b"/sys".to_vec(),
            b"/tmp".to_vec()]
    );
    let exists = vec![true, true, false, true, false];
    let plan = transition_plan(b"/sysroot", &exists);
    assert_eq!(plan.len(), 5);
    assert_eq!(plan[0].mountpoint, b"/run".to_vec());
    match &plan[0].action {
        MountAction::MoveTo(d) => assert_eq!(d, &b"/sysroot/run".to_vec()),
        MountAction::Unmount => panic!("expected a move"),
    }
    match &plan[2].action {
        MountAction::Unmount => {}
        MountAction::MoveTo(_) => panic!("expected an unmount"),
    }
    match &plan[3].action {
        MountAction::MoveTo(d) => assert_eq!(d, &b"/sysroot/sys".to_vec()),
        MountAction::Unmount => panic!("expected a move"),
    }
}

#[test]
fn switch_root_plan_holds_the_old_root_across_the_move() {
    let plan = switch_root_plan(b"/sysroot");
    assert_eq!(plan.len(), 5);
    match &plan[0] {
        RootSwitchStep::ChangeDir(p) => assert_eq!(p, &b"/sysroot".to_vec()),
        _ => panic!("expected a chdir"),
    }
    assert!(matches!(&plan[1], RootSwitchStep::HoldOldRoot));
    match &plan[2] {
        RootSwitchStep::MoveMount { src, dest } => {
            assert_eq!(src, &b".".to_vec());
            assert_eq!(dest, &b"/".to_vec());
        }
        _ => panic!("expected a move-mount"),
    }
    match &plan[3] {
        RootSwitchStep::ChangeRoot(p) => assert_eq!(p, &b".".to_vec()),
        _ => panic!("expected a chroot"),
    }
    match &plan[4] {
        RootSwitchStep::ChangeDir(p) => assert_eq!(p, &b"/".to_vec()),
        _ => panic!("expected a chdir"),
    }
}

#[test]
fn stages_run_in_their_fixed_order_when_all_succeed() {
    let order = [
        Stage::CreateDirs,
        Stage::MountPseudo,
        Stage::MakeRunMnt,
        Stage::ReadCmdline,
        Stage::CreateDevices,
        Stage::LoadModules,
        Stage::MountRoot,
        Stage::MountShares,
        Stage::MoveMounts,
        Stage::SwitchRoot,
        Stage::ExecInit,
        Stage::Done,
    ];
    for w in order.windows(2) {
        assert_eq!(next_stage(w[0], true), w[1]);
    }
    assert_eq!(next_stage(Stage::Done, true), Stage::Done);
}

#[test]
fn any_stage_failure_is_fatal() {
    assert_eq!(next_stage(Stage::MountPseudo, false), Stage::Aborted);
    assert_eq!(next_stage(Stage::ExecInit, false), Stage::Aborted);
    assert_eq!(next_stage(Stage::Aborted, true), Stage::Aborted);
}

#[test]
fn stage_failures_carry_their_class() {
    assert_eq!(stage_error_kind(Stage::MountPseudo), Some(BootErrorKind::Mount));
    assert_eq!(stage_error_kind(Stage::ReadCmdline), Some(BootErrorKind::Parse));
    assert_eq!(stage_error_kind(Stage::CreateDevices), Some(BootErrorKind::Device));
    assert_eq!(stage_error_kind(Stage::LoadModules), Some(BootErrorKind::ModuleDir));
    assert_eq!(stage_error_kind(Stage::MoveMounts), Some(BootErrorKind::Transition));
    assert_eq!(stage_error_kind(Stage::ExecInit), Some(BootErrorKind::Exec));
    assert_eq!(stage_error_kind(Stage::Done), None);
}
