//! The mount plans: the fixed pseudo-filesystem table, and the virtio-fs
//! share mounts the command line asks for (the root share and the auxiliary
//! shares, in source order).

use crate::bytes::concat_bytes;
use crate::cmdline::{spec_cmdline_get, spec_cmdline_mounts};
use vstd::prelude::*;

verus! {

/// Mount read-only (`MS_RDONLY`).
pub const MS_RDONLY: u64 = 1;

/// Ignore set-user-ID bits (`MS_NOSUID`).
pub const MS_NOSUID: u64 = 2;

/// Disallow device nodes (`MS_NODEV`).
pub const MS_NODEV: u64 = 4;

/// Disallow program execution (`MS_NOEXEC`).
pub const MS_NOEXEC: u64 = 8;

/// Re-parent an existing mount (`MS_MOVE`).
pub const MS_MOVE: u64 = 8192;

/// `"rootfs"` as bytes: the key of the root-share tag, and its default.
pub const ROOTFS_KEY: [u8; 6] = [114u8, 111u8, 111u8, 116u8, 102u8, 115u8];

/// `"/run/mnt/"` as bytes.
pub const RUN_MNT_PREFIX: [u8; 9] = [47u8, 114u8, 117u8, 110u8, 47u8, 109u8, 110u8, 116u8,
    47u8];

/// `"virtiofs"` as bytes.
pub const VIRTIOFS: [u8; 8] = [118u8, 105u8, 114u8, 116u8, 105u8, 111u8, 102u8, 115u8];

/// `"sysfs"` as bytes.
pub const SYSFS: [u8; 5] = [115u8, 121u8, 115u8, 102u8, 115u8];

/// `"devtmpfs"` as bytes.
pub const DEVTMPFS: [u8; 8] = [100u8, 101u8, 118u8, 116u8, 109u8, 112u8, 102u8, 115u8];

/// `"proc"` as bytes.
pub const PROC_FS: [u8; 4] = [112u8, 114u8, 111u8, 99u8];

/// `"tmpfs"` as bytes.
pub const TMPFS: [u8; 5] = [116u8, 109u8, 112u8, 102u8, 115u8];

/// `"seclabel,mode=0755,size=4m"` as bytes.
pub const DEV_DATA: [u8; 26] = [115u8, 101u8, 99u8, 108u8, 97u8, 98u8, 101u8, 108u8, 44u8,
    109u8, 111u8, 100u8, 101u8, 61u8, 48u8, 55u8, 53u8, 53u8, 44u8, 115u8, 105u8, 122u8, 101u8,
    61u8, 52u8, 109u8];

/// `"seclabel,mode=0755,size=64m"` as bytes.
pub const RUN_DATA: [u8; 27] = [115u8, 101u8, 99u8, 108u8, 97u8, 98u8, 101u8, 108u8, 44u8,
    109u8, 111u8, 100u8, 101u8, 61u8, 48u8, 55u8, 53u8, 53u8, 44u8, 115u8, 105u8, 122u8, 101u8,
    61u8, 54u8, 52u8, 109u8];

/// `"seclabel,mode=0755,size=128m"` as bytes.
pub const TMP_DATA: [u8; 28] = [115u8, 101u8, 99u8, 108u8, 97u8, 98u8, 101u8, 108u8, 44u8,
    109u8, 111u8, 100u8, 101u8, 61u8, 48u8, 55u8, 53u8, 53u8, 44u8, 115u8, 105u8, 122u8, 101u8,
    61u8, 49u8, 50u8, 56u8, 109u8];

/// One mount request, consumed exactly once by the mount call.
pub struct MountRequest {
    /// The mount source (a filesystem name or a share tag).
    pub source: Vec<u8>,
    /// The target directory.
    pub target: Vec<u8>,
    /// The filesystem type.
    pub fstype: Vec<u8>,
    /// The mount flag bits.
    pub flags: u64,
    /// Optional textual mount data.
    pub data: Option<Vec<u8>>,
}

/// The mathematical value of a mount request.
pub struct SpecMountRequest {
    /// The mount source.
    pub source: Seq<u8>,
    /// The target directory.
    pub target: Seq<u8>,
    /// The filesystem type.
    pub fstype: Seq<u8>,
    /// The mount flag bits.
    pub flags: u64,
    /// Optional textual mount data.
    pub data: Option<Seq<u8>>,
}

impl View for MountRequest {
    type V = SpecMountRequest;

    open spec fn view(&self) -> SpecMountRequest {
        (SpecMountRequest {
            source: self.source@,
            target: self.target@,
            fstype: self.fstype@,
            flags: self.flags,
            data: (match self.data {
                Some(ref d) => Some(d@),
                None => None,
            }),
        })
    }
}

/// The fixed pseudo-filesystem table, in mount order: `sysfs` on `/sys`,
/// `devtmpfs` on `/dev`, `proc` on `/proc`, and a `tmpfs` each on `/run`
/// and `/tmp`, with their exact flags and data.
pub open spec fn spec_pseudo_mount_plan() -> Seq<SpecMountRequest> {
    seq![
        (SpecMountRequest {
            source: SYSFS@,
            target: crate::boot::SYS_DIR@,
            fstype: SYSFS@,
            flags: (MS_NOSUID + MS_NOEXEC + MS_NODEV) as u64,
            data: None,
        }),
        (SpecMountRequest {
            source: DEVTMPFS@,
            target: crate::boot::DEV_DIR@,
            fstype: DEVTMPFS@,
            flags: MS_NOSUID,
            data: Some(DEV_DATA@),
        }),
        (SpecMountRequest {
            source: PROC_FS@,
            target: crate::boot::PROC_DIR@,
            fstype: PROC_FS@,
            flags: (MS_NOSUID + MS_NOEXEC + MS_NODEV) as u64,
            data: None,
        }),
        (SpecMountRequest {
            source: TMPFS@,
            target: crate::boot::RUN_DIR@,
            fstype: TMPFS@,
            flags: (MS_NOSUID + MS_NODEV) as u64,
            data: Some(RUN_DATA@),
        }),
        (SpecMountRequest {
            source: TMPFS@,
            target: crate::boot::TMP_DIR@,
            fstype: TMPFS@,
            flags: (MS_NOSUID + MS_NODEV) as u64,
            data: Some(TMP_DATA@),
        }),
    ]
}

/// Build the pseudo-filesystem mounts, in their fixed order.
pub fn pseudo_mount_plan() -> (r: Vec<MountRequest>)
    ensures
        r@.len() == spec_pseudo_mount_plan().len(),
        forall|i: int| 0 <= i < r@.len() ==> r@[i]@ == spec_pseudo_mount_plan()[i],
{
    let mut r: Vec<MountRequest> = Vec::new();
    r.push(
        MountRequest {
            source: vstd::slice::slice_to_vec(SYSFS.as_slice()),
            target: vstd::slice::slice_to_vec(crate::boot::SYS_DIR.as_slice()),
            fstype: vstd::slice::slice_to_vec(SYSFS.as_slice()),
            flags: MS_NOSUID + MS_NOEXEC + MS_NODEV,
            data: None,
        },
    );
    r.push(
        MountRequest {
            source: vstd::slice::slice_to_vec(DEVTMPFS.as_slice()),
            target: vstd::slice::slice_to_vec(crate::boot::DEV_DIR.as_slice()),
            fstype: vstd::slice::slice_to_vec(DEVTMPFS.as_slice()),
            flags: MS_NOSUID,
            data: Some(vstd::slice::slice_to_vec(DEV_DATA.as_slice())),
        },
    );
    r.push(
        MountRequest {
            source: vstd::slice::slice_to_vec(PROC_FS.as_slice()),
            target: vstd::slice::slice_to_vec(crate::boot::PROC_DIR.as_slice()),
            fstype: vstd::slice::slice_to_vec(PROC_FS.as_slice()),
            flags: MS_NOSUID + MS_NOEXEC + MS_NODEV,
            data: None,
        },
    );
    r.push(
        MountRequest {
            source: vstd::slice::slice_to_vec(TMPFS.as_slice()),
            target: vstd::slice::slice_to_vec(crate::boot::RUN_DIR.as_slice()),
            fstype: vstd::slice::slice_to_vec(TMPFS.as_slice()),
            flags: MS_NOSUID + MS_NODEV,
            data: Some(vstd::slice::slice_to_vec(RUN_DATA.as_slice())),
        },
    );
    r.push(
        MountRequest {
            source: vstd::slice::slice_to_vec(TMPFS.as_slice()),
            target: vstd::slice::slice_to_vec(crate::boot::TMP_DIR.as_slice()),
            fstype: vstd::slice::slice_to_vec(TMPFS.as_slice()),
            flags: MS_NOSUID + MS_NODEV,
            data: Some(vstd::slice::slice_to_vec(TMP_DATA.as_slice())),
        },
    );
    r
}

/// The flag bits of a virtio-fs share mount: read-only or nothing.
pub fn virtiofs_flags(read_only: bool) -> (r: u64)
    ensures
        r == if read_only {
            MS_RDONLY
        } else {
            0u64
        },
{
    if read_only {
        MS_RDONLY
    } else {
        0
    }
}

/// The tag of the root share: the value of `rootfs=`, or `rootfs` itself
/// when the key is absent.
pub open spec fn spec_root_share_tag(cmdline: Seq<u8>) -> Seq<u8> {
    match spec_cmdline_get(cmdline, ROOTFS_KEY@) {
        Some(v) => v,
        None => ROOTFS_KEY@,
    }
}

/// Resolve the root-share tag from the command line.
pub fn root_share_tag(cmdline: &[u8]) -> (r: Vec<u8>)
    ensures
        r@ == spec_root_share_tag(cmdline@),
{
    match crate::cmdline::cmdline_get(cmdline, ROOTFS_KEY.as_slice()) {
        Some(v) => v,
        None => vstd::slice::slice_to_vec(ROOTFS_KEY.as_slice()),
    }
}

/// With no `rootfs=` key on the command line, the root share tag defaults
/// to `rootfs`.
pub proof fn lemma_root_tag_default(cmdline: Seq<u8>)
    requires
        spec_cmdline_get(cmdline, ROOTFS_KEY@) is None,
    ensures
        spec_root_share_tag(cmdline) == ROOTFS_KEY@,
{
}

/// One virtio-fs share to mount.
pub struct ShareMount {
    /// The virtio-fs tag.
    pub tag: Vec<u8>,
    /// The directory the share is mounted on.
    pub target: Vec<u8>,
    /// Mount it read-only.
    pub read_only: bool,
}

/// The mathematical value of a share mount.
pub struct SpecShareMount {
    /// The virtio-fs tag.
    pub tag: Seq<u8>,
    /// The directory the share is mounted on.
    pub target: Seq<u8>,
    /// Mount it read-only.
    pub read_only: bool,
}

impl View for ShareMount {
    type V = SpecShareMount;

    open spec fn view(&self) -> SpecShareMount {
        (SpecShareMount { tag: self.tag@, target: self.target@, read_only: self.read_only })
    }
}

/// The root share: its tag from the command line, mounted read-only at the
/// staging point.
pub open spec fn spec_root_share(cmdline: Seq<u8>) -> SpecShareMount {
    (SpecShareMount { tag: spec_root_share_tag(cmdline), target: crate::boot::SYSROOT@, read_only: true })
}

/// Build the root-share mount.
pub fn root_share(cmdline: &[u8]) -> (r: ShareMount)
    ensures
        r@ == spec_root_share(cmdline@),
{
    ShareMount {
        tag: root_share_tag(cmdline),
        target: vstd::slice::slice_to_vec(crate::boot::SYSROOT.as_slice()),
        read_only: true,
    }
}

/// The auxiliary shares: one per `mount=`/`mount-ro=` parameter, in source
/// order, each mounted at `/run/mnt/<tag>`, read-only exactly when the key
/// was `mount-ro=`.  Repeated tags are kept: a duplicate will fail at mount
/// time, fail-fast, not silently dropped.
pub open spec fn spec_aux_shares(cmdline: Seq<u8>) -> Seq<SpecShareMount> {
    spec_cmdline_mounts(cmdline).map_values(
        |e: (Seq<u8>, bool)|
            (SpecShareMount { tag: e.0, target: RUN_MNT_PREFIX@ + e.0, read_only: e.1 }),
    )
}

/// Build the auxiliary share mounts, in command-line order.
pub fn aux_shares(cmdline: &[u8]) -> (r: Vec<ShareMount>)
    ensures
        r@.len() == spec_aux_shares(cmdline@).len(),
        forall|i: int| 0 <= i < r@.len() ==> r@[i]@ == spec_aux_shares(cmdline@)[i],
{
    let entries = crate::cmdline::cmdline_get_mounts(cmdline);
    let mut r: Vec<ShareMount> = Vec::new();
    let mut i: usize = 0;
    while i < entries.len()
        invariant
            0 <= i <= entries@.len(),
            crate::cmdline::entry_views(entries@) == spec_cmdline_mounts(cmdline@),
            r@.len() == i,
            forall|j: int| 0 <= j < i ==> r@[j]@ == spec_aux_shares(cmdline@)[j],
        decreases entries@.len() - i,
    {
        let tag: &Vec<u8> = &entries[i].0;
        let read_only = entries[i].1;
        let target = concat_bytes(RUN_MNT_PREFIX.as_slice(), tag.as_slice());
        let share = ShareMount {
            tag: vstd::slice::slice_to_vec(tag.as_slice()),
            target,
            read_only,
        };
        proof {
            assert(crate::cmdline::entry_views(entries@)[i as int] == (entries@[i as int].0@,
                entries@[i as int].1));
            assert(share@ == spec_aux_shares(cmdline@)[i as int]);
        }
        r.push(share);
        i += 1;
    }
    r
}

} // verus!
