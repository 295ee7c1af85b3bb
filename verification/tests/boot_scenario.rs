//! An end-to-end boot scenario over the plan level: command line
//! `rootfs=root mount=data debug`.

use vminit::config::{debug_enabled, BootConfig};
use vminit::mounts::{aux_shares, root_share};
use vminit::transition::{transition_plan, MountAction};

#[test]
fn scenario_rootfs_root_mount_data_debug() {
    let cmdline: &[u8] = b"rootfs=root mount=data debug";

    // Debug tracing is enabled.
    assert!(debug_enabled(cmdline));
    let mut cfg = BootConfig::new();
    assert!(!cfg.debug);
    cfg.set_debug(debug_enabled(cmdline));
    assert!(cfg.debug);

    // The root share comes from tag "root", read-only, at the staging point.
    let root = root_share(cmdline);
    assert_eq!(root.tag, b"root".to_vec());
    assert_eq!(root.target, b"/sysroot".to_vec());
    assert!(root.read_only);

    // The auxiliary share "data" is mounted read-write under /run/mnt.
    let aux = aux_shares(cmdline);
    assert_eq!(aux.len(), 1);
    assert_eq!(aux[0].tag, b"data".to_vec());
    assert_eq!(aux[0].target, b"/run/mnt/data".to_vec());
    assert!(!aux[0].read_only);

    // At transition, a surviving mountpoint with a directory under the new
    // root is moved there; one without is silently dropped — by design, not
    // leaked.  /run carries /run/mnt/data, so the data share stays reachable
    // exactly when the new root offers a /run mountpoint.
    let with_run = transition_plan(b"/sysroot", &vec![true, true, true, true, true]);
    match &with_run[0].action {
        MountAction::MoveTo(d) => assert_eq!(d, &b"/sysroot/run".to_vec()),
        MountAction::Unmount => panic!("expected a move"),
    }
    let without_run = transition_plan(b"/sysroot", &vec![false, true, true, true, true]);
    assert!(matches!(&without_run[0].action, MountAction::Unmount));
}
