//! The boot orchestration proper: the fixed stage order, the failure policy
//! of each stage, and the resolution of the init program that replaces the
//! process at the end.

use crate::bytes::views_of;
use crate::cmdline::spec_cmdline_get;
use vstd::prelude::*;

verus! {

/// `"init"` as bytes.
pub const INIT_KEY: [u8; 4] = [105u8, 110u8, 105u8, 116u8];

/// `"/bin/sh"` as bytes.
pub const DEFAULT_INIT: [u8; 7] = [47u8, 98u8, 105u8, 110u8, 47u8, 115u8, 104u8];

/// `"/sysroot"` as bytes.
pub const SYSROOT: [u8; 8] = [47u8, 115u8, 121u8, 115u8, 114u8, 111u8, 111u8, 116u8];

/// `"/sys"` as bytes.
pub const SYS_DIR: [u8; 4] = [47u8, 115u8, 121u8, 115u8];

/// `"/dev"` as bytes.
pub const DEV_DIR: [u8; 4] = [47u8, 100u8, 101u8, 118u8];

/// `"/proc"` as bytes.
pub const PROC_DIR: [u8; 5] = [47u8, 112u8, 114u8, 111u8, 99u8];

/// `"/run"` as bytes.
pub const RUN_DIR: [u8; 4] = [47u8, 114u8, 117u8, 110u8];

/// `"/tmp"` as bytes.
pub const TMP_DIR: [u8; 4] = [47u8, 116u8, 109u8, 112u8];

/// `"/run/mnt"` as bytes.
pub const RUN_MNT: [u8; 8] = [47u8, 114u8, 117u8, 110u8, 47u8, 109u8, 110u8, 116u8];

/// The directories that must exist before anything is mounted.
pub open spec fn spec_initial_dirs() -> Seq<Seq<u8>> {
    seq![SYSROOT@, SYS_DIR@, DEV_DIR@, PROC_DIR@, RUN_DIR@, TMP_DIR@]
}

/// The directories created first, in order: the root staging point and the
/// five pseudo-filesystem mountpoints.
pub fn initial_dirs() -> (r: Vec<Vec<u8>>)
    ensures
        views_of(r@) == spec_initial_dirs(),
{
    let mut r: Vec<Vec<u8>> = Vec::new();
    r.push(vstd::slice::slice_to_vec(SYSROOT.as_slice()));
    r.push(vstd::slice::slice_to_vec(SYS_DIR.as_slice()));
    r.push(vstd::slice::slice_to_vec(DEV_DIR.as_slice()));
    r.push(vstd::slice::slice_to_vec(PROC_DIR.as_slice()));
    r.push(vstd::slice::slice_to_vec(RUN_DIR.as_slice()));
    r.push(vstd::slice::slice_to_vec(TMP_DIR.as_slice()));
    proof {
        assert(views_of(r@) =~= spec_initial_dirs());
    }
    r
}

/// The stages of the boot sequence, in their fixed order, plus the two
/// terminal states.
#[derive(Clone, Copy, PartialEq, Eq, Structural, Debug)]
pub enum Stage {
    /// Create the initial directories.
    CreateDirs,
    /// Mount the five pseudo-filesystems.
    MountPseudo,
    /// Create the auxiliary-share mount root.
    MakeRunMnt,
    /// Read the kernel command line and fix the configuration.
    ReadCmdline,
    /// Create the static device nodes and symlinks.
    CreateDevices,
    /// Enumerate and insert the kernel modules.
    LoadModules,
    /// Mount the root share read-only at its staging point.
    MountRoot,
    /// Mount the auxiliary shares in command-line order.
    MountShares,
    /// Move or discard the surviving mounts under the new root.
    MoveMounts,
    /// Make the new root the process root.
    SwitchRoot,
    /// Replace the process with the init program.
    ExecInit,
    /// The process image was replaced (never observed in practice).
    Done,
    /// A fatal stage failure ended the sequence.
    Aborted,
}

/// The classes of fatal failure, one per stage family, so that callers can
/// tell causes apart without parsing text.
#[derive(Clone, Copy, PartialEq, Eq, Structural, Debug)]
pub enum BootErrorKind {
    /// Reading the command line failed.
    Parse,
    /// A directory creation or a mount failed.
    Mount,
    /// A device node or symlink could not be created.
    Device,
    /// The module directory could not be enumerated.
    ModuleDir,
    /// The root transition failed partway.
    Transition,
    /// The init program could not be executed.
    Exec,
}

/// A fatal boot failure: its class, the underlying OS error code, and the
/// resource the failing call was about.
pub struct BootError {
    /// Which stage family failed.
    pub kind: BootErrorKind,
    /// The OS error code the failing call returned.
    pub errno: i32,
    /// The path or tag the failing call was about.
    pub path: Vec<u8>,
}

/// The stage that follows `cur` when its work returned `ok`.  Any stage
/// failure is fatal: the sequence aborts, with no retry and no rollback.
/// The terminal states are absorbing.
pub open spec fn spec_next_stage(cur: Stage, ok: bool) -> Stage {
    match cur {
        Stage::Done => Stage::Done,
        Stage::Aborted => Stage::Aborted,
        _ => {
            if !ok {
                Stage::Aborted
            } else {
                match cur {
                    Stage::CreateDirs => Stage::MountPseudo,
                    Stage::MountPseudo => Stage::MakeRunMnt,
                    Stage::MakeRunMnt => Stage::ReadCmdline,
                    Stage::ReadCmdline => Stage::CreateDevices,
                    Stage::CreateDevices => Stage::LoadModules,
                    Stage::LoadModules => Stage::MountRoot,
                    Stage::MountRoot => Stage::MountShares,
                    Stage::MountShares => Stage::MoveMounts,
                    Stage::MoveMounts => Stage::SwitchRoot,
                    Stage::SwitchRoot => Stage::ExecInit,
                    Stage::ExecInit => Stage::Done,
                    Stage::Done => Stage::Done,
                    Stage::Aborted => Stage::Aborted,
                }
            }
        },
    }
}

/// Advance the boot sequence by one stage.
pub fn next_stage(cur: Stage, ok: bool) -> (r: Stage)
    ensures
        r == spec_next_stage(cur, ok),
{
    match cur {
        Stage::Done => Stage::Done,
        Stage::Aborted => Stage::Aborted,
        _ => {
            if !ok {
                Stage::Aborted
            } else {
                match cur {
                    Stage::CreateDirs => Stage::MountPseudo,
                    Stage::MountPseudo => Stage::MakeRunMnt,
                    Stage::MakeRunMnt => Stage::ReadCmdline,
                    Stage::ReadCmdline => Stage::CreateDevices,
                    Stage::CreateDevices => Stage::LoadModules,
                    Stage::LoadModules => Stage::MountRoot,
                    Stage::MountRoot => Stage::MountShares,
                    Stage::MountShares => Stage::MoveMounts,
                    Stage::MoveMounts => Stage::SwitchRoot,
                    Stage::SwitchRoot => Stage::ExecInit,
                    Stage::ExecInit => Stage::Done,
                    Stage::Done => Stage::Done,
                    Stage::Aborted => Stage::Aborted,
                }
            }
        },
    }
}

/// The failure class a fatal error in `cur` belongs to; `None` for the
/// terminal states, which do no work.
pub fn stage_error_kind(cur: Stage) -> (r: Option<BootErrorKind>)
    ensures
        (match cur {
            Stage::CreateDirs | Stage::MountPseudo | Stage::MakeRunMnt | Stage::MountRoot
                | Stage::MountShares => r == Some(BootErrorKind::Mount),
            Stage::ReadCmdline => r == Some(BootErrorKind::Parse),
            Stage::CreateDevices => r == Some(BootErrorKind::Device),
            Stage::LoadModules => r == Some(BootErrorKind::ModuleDir),
            Stage::MoveMounts | Stage::SwitchRoot => r == Some(BootErrorKind::Transition),
            Stage::ExecInit => r == Some(BootErrorKind::Exec),
            Stage::Done | Stage::Aborted => r is None,
        }),
{
    match cur {
        Stage::CreateDirs | Stage::MountPseudo | Stage::MakeRunMnt | Stage::MountRoot
            | Stage::MountShares => Some(BootErrorKind::Mount),
        Stage::ReadCmdline => Some(BootErrorKind::Parse),
        Stage::CreateDevices => Some(BootErrorKind::Device),
        Stage::LoadModules => Some(BootErrorKind::ModuleDir),
        Stage::MoveMounts | Stage::SwitchRoot => Some(BootErrorKind::Transition),
        Stage::ExecInit => Some(BootErrorKind::Exec),
        Stage::Done | Stage::Aborted => None,
    }
}

/// The init program the command line asks for: the value of `init=`, or
/// `/bin/sh` when the key is absent.
pub open spec fn spec_init_program(cmdline: Seq<u8>) -> Seq<u8> {
    match spec_cmdline_get(cmdline, INIT_KEY@) {
        Some(v) => v,
        None => DEFAULT_INIT@,
    }
}

/// Resolve the init program path from the command line.
pub fn init_program(cmdline: &[u8]) -> (r: Vec<u8>)
    ensures
        r@ == spec_init_program(cmdline@),
{
    match crate::cmdline::cmdline_get(cmdline, INIT_KEY.as_slice()) {
        Some(v) => v,
        None => vstd::slice::slice_to_vec(DEFAULT_INIT.as_slice()),
    }
}

/// The bytes after the last `/` of `p`; the whole of `p` when it has none.
pub open spec fn after_last_slash(p: Seq<u8>) -> Seq<u8>
    decreases p.len(),
{
    if p.len() == 0 {
        Seq::empty()
    } else if p.last() == 47 {
        Seq::empty()
    } else {
        after_last_slash(p.drop_last()) + seq![p.last()]
    }
}

/// The final path component sits right of the last slash.
pub proof fn lemma_after_last_slash(p: Seq<u8>, j: int)
    requires
        0 <= j <= p.len(),
        forall|t: int| j <= t < p.len() ==> p[t] != 47,
        j == 0 || p[j - 1] == 47,
    ensures
        after_last_slash(p) == p.skip(j),
    decreases p.len(),
{
    if p.len() == 0 {
        assert(p.skip(0) =~= Seq::<u8>::empty());
    } else if p.last() == 47 {
        assert(j == p.len());
        assert(p.skip(j) =~= Seq::<u8>::empty());
    } else {
        assert(j < p.len());
        assert(forall|t: int|
            j <= t < p.drop_last().len() ==> p.drop_last()[t] == p[t] && p[t] != 47);
        lemma_after_last_slash(p.drop_last(), j);
        assert(p.drop_last().skip(j) + seq![p.last()] =~= p.skip(j));
    }
}

/// argv[0] of the init program: the final path component, or the whole
/// path when it has none.
pub open spec fn spec_init_argv0(p: Seq<u8>) -> Seq<u8> {
    if after_last_slash(p).len() == 0 {
        p
    } else {
        after_last_slash(p)
    }
}

/// With no `init=` key on the command line, the init program defaults to
/// `/bin/sh`, and its argv[0] is `sh`.
pub proof fn lemma_init_default(cmdline: Seq<u8>)
    requires
        spec_cmdline_get(cmdline, INIT_KEY@) is None,
    ensures
        spec_init_program(cmdline) == DEFAULT_INIT@,
        spec_init_argv0(spec_init_program(cmdline)) == seq![115u8, 104u8],
{
    lemma_after_last_slash(DEFAULT_INIT@, 5);
    assert(DEFAULT_INIT@.skip(5) =~= seq![115u8, 104u8]);
}

/// Derive argv[0] from the init program path.
pub fn init_argv0(path: &[u8]) -> (r: Vec<u8>)
    ensures
        r@ == spec_init_argv0(path@),
{
    let mut j = path.len();
    while j > 0 && path[j - 1] != 47
        invariant
            0 <= j <= path@.len(),
            forall|t: int| j <= t < path@.len() ==> path@[t] != 47,
        decreases j,
    {
        j -= 1;
    }
    proof {
        lemma_after_last_slash(path@, j as int);
    }
    if j == path.len() {
        // Empty path or one that ends in a slash: fall back to the whole path.
        vstd::slice::slice_to_vec(path)
    } else {
        let r = vstd::slice::slice_to_vec(vstd::slice::slice_subrange(path, j, path.len()));
        proof {
            assert(r@ =~= path@.skip(j as int));
        }
        r
    }
}

} // verus!
