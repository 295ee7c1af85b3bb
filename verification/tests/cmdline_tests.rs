//! Command-line parsing behaviour.

use vminit::cmdline::{cmdline_get, cmdline_get_mounts};

#[test]
fn get_returns_value_of_key() {
    let r = cmdline_get(b"rootfs=myvol", b"rootfs");
    assert_eq!(r, Some(b"myvol".to_vec()));
}

#[test]
fn get_bare_flag_is_present_with_empty_value() {
    let r = cmdline_get(b"debug", b"debug");
    assert_eq!(r, Some(Vec::new()));
}

#[test]
fn get_absent_key_is_none() {
    assert_eq!(cmdline_get(b"rootfs=myvol quiet", b"init"), None);
}

#[test]
fn get_on_empty_cmdline_is_none() {
    assert_eq!(cmdline_get(b"", b"rootfs"), None);
}

#[test]
fn get_first_occurrence_wins() {
    let r = cmdline_get(b"init=/bin/a init=/bin/b", b"init");
    assert_eq!(r, Some(b"/bin/a".to_vec()));
}

#[test]
fn get_value_may_be_empty() {
    let r = cmdline_get(b"console= debug", b"console");
    assert_eq!(r, Some(Vec::new()));
}

#[test]
fn get_splits_on_any_ascii_whitespace() {
    let r = cmdline_get(b"quiet\t rootfs=tagged\nmore", b"rootfs");
    assert_eq!(r, Some(b"tagged".to_vec()));
}

#[test]
fn get_does_not_match_key_prefixes() {
    assert_eq!(cmdline_get(b"rootfsx=1", b"rootfs"), None);
    assert_eq!(cmdline_get(b"xrootfs=1", b"rootfs"), None);
}

#[test]
fn mounts_in_order_with_read_only_tagging() {
    let r = cmdline_get_mounts(b"mount=a mount-ro=b mount=c");
    assert_eq!(r.len(), 3);
    assert_eq!(r[0], (b"a".to_vec(), false));
    assert_eq!(r[1], (b"b".to_vec(), true));
    assert_eq!(r[2], (b"c".to_vec(), false));
}

#[test]
fn mounts_skip_empty_tags() {
    let r = cmdline_get_mounts(b"mount= mount-ro= mount=x");
    assert_eq!(r, vec![(b"x".to_vec(), false)]);
}

#[test]
fn mounts_of_plain_cmdline_are_empty() {
    assert_eq!(cmdline_get_mounts(b"rootfs=r debug quiet"), Vec::new());
}

#[test]
fn mounts_keep_duplicate_tags() {
    let r = cmdline_get_mounts(b"mount=a mount=a");
    assert_eq!(r, vec![(b"a".to_vec(), false), (b"a".to_vec(), false)]);
}
