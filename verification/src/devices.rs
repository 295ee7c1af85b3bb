//! The device-node provisioner's tables: the fixed character devices, the
//! standard-stream symlinks, and the rule that creates a parent directory
//! for a device path nested below `/dev`.

use vstd::prelude::*;

verus! {

/// `"/dev/kvm"` as bytes.
pub const DEV_KVM: [u8; 8] = [47u8, 100u8, 101u8, 118u8, 47u8, 107u8, 118u8, 109u8];

/// `"/dev/loop-control"` as bytes.
pub const DEV_LOOP_CONTROL: [u8; 17] = [47u8, 100u8, 101u8, 118u8, 47u8, 108u8, 111u8, 111u8,
    112u8, 45u8, 99u8, 111u8, 110u8, 116u8, 114u8, 111u8, 108u8];

/// `"/dev/fuse"` as bytes.
pub const DEV_FUSE: [u8; 9] = [47u8, 100u8, 101u8, 118u8, 47u8, 102u8, 117u8, 115u8, 101u8];

/// `"/dev/fd"` as bytes.
pub const DEV_FD: [u8; 7] = [47u8, 100u8, 101u8, 118u8, 47u8, 102u8, 100u8];

/// `"/dev/stdin"` as bytes.
pub const DEV_STDIN: [u8; 10] = [47u8, 100u8, 101u8, 118u8, 47u8, 115u8, 116u8, 100u8, 105u8,
    110u8];

/// `"/dev/stdout"` as bytes.
pub const DEV_STDOUT: [u8; 11] = [47u8, 100u8, 101u8, 118u8, 47u8, 115u8, 116u8, 100u8, 111u8,
    117u8, 116u8];

/// `"/dev/stderr"` as bytes.
pub const DEV_STDERR: [u8; 11] = [47u8, 100u8, 101u8, 118u8, 47u8, 115u8, 116u8, 100u8, 101u8,
    114u8, 114u8];

/// `"/proc/self/fd"` as bytes.
pub const PROC_SELF_FD: [u8; 13] = [47u8, 112u8, 114u8, 111u8, 99u8, 47u8, 115u8, 101u8, 108u8,
    102u8, 47u8, 102u8, 100u8];

/// `"/proc/self/fd/0"` as bytes.
pub const PROC_SELF_FD0: [u8; 15] = [47u8, 112u8, 114u8, 111u8, 99u8, 47u8, 115u8, 101u8,
    108u8, 102u8, 47u8, 102u8, 100u8, 47u8, 48u8];

/// `"/proc/self/fd/1"` as bytes.
pub const PROC_SELF_FD1: [u8; 15] = [47u8, 112u8, 114u8, 111u8, 99u8, 47u8, 115u8, 101u8,
    108u8, 102u8, 47u8, 102u8, 100u8, 47u8, 49u8];

/// `"/proc/self/fd/2"` as bytes.
pub const PROC_SELF_FD2: [u8; 15] = [47u8, 112u8, 114u8, 111u8, 99u8, 47u8, 115u8, 101u8,
    108u8, 102u8, 47u8, 102u8, 100u8, 47u8, 50u8];

/// One static character device to create.
pub struct DeviceNode {
    /// The device path.
    pub path: Vec<u8>,
    /// The device's major number.
    pub major: u64,
    /// The device's minor number.
    pub minor: u64,
    /// The permission bits of the node.
    pub mode: u32,
}

/// The mathematical value of a device node.
pub struct SpecDeviceNode {
    /// The device path.
    pub path: Seq<u8>,
    /// The device's major number.
    pub major: u64,
    /// The device's minor number.
    pub minor: u64,
    /// The permission bits of the node.
    pub mode: u32,
}

impl View for DeviceNode {
    type V = SpecDeviceNode;

    open spec fn view(&self) -> SpecDeviceNode {
        (SpecDeviceNode {
            path: self.path@,
            major: self.major,
            minor: self.minor,
            mode: self.mode,
        })
    }
}

/// One symlink to create.
pub struct DeviceSymlink {
    /// The link path.
    pub link: Vec<u8>,
    /// What the link points at.
    pub target: Vec<u8>,
}

/// The fixed character-device table: `/dev/kvm` (10,232, mode 0660),
/// `/dev/loop-control` (10,237, mode 0660) and `/dev/fuse` (10,229,
/// mode 0666), in creation order.
pub open spec fn spec_device_nodes() -> Seq<SpecDeviceNode> {
    seq![
        (SpecDeviceNode { path: DEV_KVM@, major: 10, minor: 232, mode: 0o660 }),
        (SpecDeviceNode { path: DEV_LOOP_CONTROL@, major: 10, minor: 237, mode: 0o660 }),
        (SpecDeviceNode { path: DEV_FUSE@, major: 10, minor: 229, mode: 0o666 }),
    ]
}

/// Build the character-device table.
pub fn device_nodes() -> (r: Vec<DeviceNode>)
    ensures
        r@.len() == spec_device_nodes().len(),
        forall|i: int| 0 <= i < r@.len() ==> r@[i]@ == spec_device_nodes()[i],
{
    let mut r: Vec<DeviceNode> = Vec::new();
    r.push(
        DeviceNode {
            path: vstd::slice::slice_to_vec(DEV_KVM.as_slice()),
            major: 10,
            minor: 232,
            mode: 0o660,
        },
    );
    r.push(
        DeviceNode {
            path: vstd::slice::slice_to_vec(DEV_LOOP_CONTROL.as_slice()),
            major: 10,
            minor: 237,
            mode: 0o660,
        },
    );
    r.push(
        DeviceNode {
            path: vstd::slice::slice_to_vec(DEV_FUSE.as_slice()),
            major: 10,
            minor: 229,
            mode: 0o666,
        },
    );
    r
}

/// The fixed symlink table: `/dev/fd` and the three standard streams,
/// pointing into `/proc/self/fd`, in creation order.
pub fn device_symlinks() -> (r: Vec<DeviceSymlink>)
    ensures
        r@.len() == 4,
        r@[0].link@ == DEV_FD@ && r@[0].target@ == PROC_SELF_FD@,
        r@[1].link@ == DEV_STDIN@ && r@[1].target@ == PROC_SELF_FD0@,
        r@[2].link@ == DEV_STDOUT@ && r@[2].target@ == PROC_SELF_FD1@,
        r@[3].link@ == DEV_STDERR@ && r@[3].target@ == PROC_SELF_FD2@,
{
    let mut r: Vec<DeviceSymlink> = Vec::new();
    r.push(
        DeviceSymlink {
            link: vstd::slice::slice_to_vec(DEV_FD.as_slice()),
            target: vstd::slice::slice_to_vec(PROC_SELF_FD.as_slice()),
        },
    );
    r.push(
        DeviceSymlink {
            link: vstd::slice::slice_to_vec(DEV_STDIN.as_slice()),
            target: vstd::slice::slice_to_vec(PROC_SELF_FD0.as_slice()),
        },
    );
    r.push(
        DeviceSymlink {
            link: vstd::slice::slice_to_vec(DEV_STDOUT.as_slice()),
            target: vstd::slice::slice_to_vec(PROC_SELF_FD1.as_slice()),
        },
    );
    r.push(
        DeviceSymlink {
            link: vstd::slice::slice_to_vec(DEV_STDERR.as_slice()),
            target: vstd::slice::slice_to_vec(PROC_SELF_FD2.as_slice()),
        },
    );
    r
}

/// The directory part of an absolute path that does not end in a slash:
/// everything left of the last slash, or `/` when the last slash is the
/// leading one.
pub open spec fn spec_parent_dir(p: Seq<u8>) -> Seq<u8> {
    let cut = p.len() - crate::boot::after_last_slash(p).len() - 1;
    if cut == 0 {
        seq![47u8]
    } else {
        p.take(cut)
    }
}

/// The directory a device path needs created first: its parent, unless the
/// parent is `/dev` itself, which the pseudo-filesystem stage has already
/// mounted.
pub open spec fn spec_device_parent_dir(p: Seq<u8>) -> Option<Seq<u8>> {
    if spec_parent_dir(p) == crate::boot::DEV_DIR@ {
        None
    } else {
        Some(spec_parent_dir(p))
    }
}

/// Decide which directory, if any, must be created before a device node at
/// `path` can be made.
pub fn device_parent_dir(path: &[u8]) -> (r: Option<Vec<u8>>)
    requires
        path@.len() > 0,
        path@[0] == 47,
        path@.last() != 47,
    ensures
        (match r {
            Some(d) => spec_device_parent_dir(path@) == Some(d@),
            None => spec_device_parent_dir(path@) is None,
        }),
{
    let mut j = path.len();
    while j > 0 && path[j - 1] != 47
        invariant
            0 <= j <= path@.len(),
            forall|t: int| j <= t < path@.len() ==> path@[t] != 47,
        decreases j,
    {
        j -= 1;
    }
    proof {
        // The first byte is a slash, so the scan stopped at one.
        assert(j > 0);
        crate::boot::lemma_after_last_slash(path@, j as int);
        assert(crate::boot::after_last_slash(path@).len() == path@.len() - j);
    }
    let parent: Vec<u8> = if j == 1 {
        let mut v: Vec<u8> = Vec::new();
        v.push(47);
        proof {
            assert(v@ =~= seq![47u8]);
        }
        v
    } else {
        let v = vstd::slice::slice_to_vec(vstd::slice::slice_subrange(path, 0, j - 1));
        proof {
            assert(v@ =~= path@.take(j as int - 1));
        }
        v
    };
    if crate::bytes::bytes_eq(parent.as_slice(), crate::boot::DEV_DIR.as_slice()) {
        None
    } else {
        Some(parent)
    }
}

} // verus!
