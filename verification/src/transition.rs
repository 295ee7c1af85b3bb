//! The root transition: which live mounts survive the change of root, what
//! happens to each (moved under the new root when it offers a mountpoint,
//! unmounted when it does not), and the exact order of the final
//! change-root dance.

use crate::bytes::{concat_bytes, views_of};
use vstd::prelude::*;

verus! {

/// The mounts that survive the transition, in processing order:
/// `/run`, `/dev`, `/proc`, `/sys`, `/tmp`.
pub open spec fn spec_surviving_mountpoints() -> Seq<Seq<u8>> {
    seq![
        crate::boot::RUN_DIR@,
        crate::boot::DEV_DIR@,
        crate::boot::PROC_DIR@,
        crate::boot::SYS_DIR@,
        crate::boot::TMP_DIR@,
    ]
}

/// Build the surviving-mountpoint list.
pub fn surviving_mountpoints() -> (r: Vec<Vec<u8>>)
    ensures
        views_of(r@) == spec_surviving_mountpoints(),
{
    let mut r: Vec<Vec<u8>> = Vec::new();
    r.push(vstd::slice::slice_to_vec(crate::boot::RUN_DIR.as_slice()));
    r.push(vstd::slice::slice_to_vec(crate::boot::DEV_DIR.as_slice()));
    r.push(vstd::slice::slice_to_vec(crate::boot::PROC_DIR.as_slice()));
    r.push(vstd::slice::slice_to_vec(crate::boot::SYS_DIR.as_slice()));
    r.push(vstd::slice::slice_to_vec(crate::boot::TMP_DIR.as_slice()));
    proof {
        assert(views_of(r@) =~= spec_surviving_mountpoints());
    }
    r
}

/// What the transition does with one surviving mountpoint.
pub enum MountAction {
    /// Re-parent the live mount to this destination under the new root,
    /// keeping its contents (a move, never a copy).
    MoveTo(Vec<u8>),
    /// Unmount it in place: the new root offers no mountpoint for it, so
    /// the filesystem is discarded.
    Unmount,
}

/// The mathematical value of a mount action.
pub enum SpecMountAction {
    /// Re-parent the live mount to this destination.
    MoveTo(Seq<u8>),
    /// Unmount it in place.
    Unmount,
}

impl View for MountAction {
    type V = SpecMountAction;

    open spec fn view(&self) -> SpecMountAction {
        match self {
            MountAction::MoveTo(d) => SpecMountAction::MoveTo(d@),
            MountAction::Unmount => SpecMountAction::Unmount,
        }
    }
}

/// One step of the transition: a surviving mountpoint and its fate.
pub struct TransitionStep {
    /// The mountpoint under the old root.
    pub mountpoint: Vec<u8>,
    /// What happens to it.
    pub action: MountAction,
}

/// The mathematical value of a transition step.
pub struct SpecTransitionStep {
    /// The mountpoint under the old root.
    pub mountpoint: Seq<u8>,
    /// What happens to it.
    pub action: SpecMountAction,
}

impl View for TransitionStep {
    type V = SpecTransitionStep;

    open spec fn view(&self) -> SpecTransitionStep {
        (SpecTransitionStep { mountpoint: self.mountpoint@, action: self.action@ })
    }
}

/// The fate of one mountpoint: moved under the new root when a directory
/// for it exists there, unmounted in place when none does.
pub open spec fn spec_transition_step(newroot: Seq<u8>, mp: Seq<u8>, exists: bool)
    -> SpecTransitionStep {
    if exists {
        (SpecTransitionStep { mountpoint: mp, action: SpecMountAction::MoveTo(newroot + mp) })
    } else {
        (SpecTransitionStep { mountpoint: mp, action: SpecMountAction::Unmount })
    }
}

/// The whole transition plan: one step per surviving mountpoint, in order,
/// decided by whether the new root offers a directory for it.
pub open spec fn spec_transition_plan(newroot: Seq<u8>, exists: Seq<bool>)
    -> Seq<SpecTransitionStep> {
    Seq::new(
        spec_surviving_mountpoints().len(),
        |i: int| spec_transition_step(newroot, spec_surviving_mountpoints()[i], exists[i]),
    )
}

/// Build the transition plan.  `exists` says, for each surviving
/// mountpoint in order, whether a directory for it exists under the new
/// root.
pub fn transition_plan(newroot: &[u8], exists: &Vec<bool>) -> (r: Vec<TransitionStep>)
    requires
        exists@.len() == spec_surviving_mountpoints().len(),
    ensures
        r@.len() == spec_surviving_mountpoints().len(),
        forall|i: int| 0 <= i < r@.len() ==> r@[i]@ == spec_transition_plan(
            newroot@,
            exists@,
        )[i],
{
    let mps = surviving_mountpoints();
    let mut r: Vec<TransitionStep> = Vec::new();
    let mut i: usize = 0;
    while i < mps.len()
        invariant
            0 <= i <= mps@.len(),
            views_of(mps@) == spec_surviving_mountpoints(),
            mps@.len() == spec_surviving_mountpoints().len(),
            exists@.len() == spec_surviving_mountpoints().len(),
            r@.len() == i,
            forall|j: int| 0 <= j < i ==> r@[j]@ == spec_transition_plan(newroot@, exists@)[j],
        decreases mps@.len() - i,
    {
        let mp: &Vec<u8> = &mps[i];
        proof {
            assert(mp@ == spec_surviving_mountpoints()[i as int]);
        }
        let step = if exists[i] {
            TransitionStep {
                mountpoint: vstd::slice::slice_to_vec(mp.as_slice()),
                action: MountAction::MoveTo(concat_bytes(newroot, mp.as_slice())),
            }
        } else {
            TransitionStep {
                mountpoint: vstd::slice::slice_to_vec(mp.as_slice()),
                action: MountAction::Unmount,
            }
        };
        r.push(step);
        i += 1;
    }
    r
}

/// The surviving mountpoints are pairwise distinct paths.
proof fn lemma_surviving_distinct()
    ensures
        forall|i: int, j: int|
            0 <= i < spec_surviving_mountpoints().len() && 0 <= j
                < spec_surviving_mountpoints().len() && i != j
                ==> spec_surviving_mountpoints()[i] != spec_surviving_mountpoints()[j],
{
    let sm = spec_surviving_mountpoints();
    // They differ pairwise in their second byte already.
    assert(sm[0][1] == 114u8);
    assert(sm[1][1] == 100u8);
    assert(sm[2][1] == 112u8);
    assert(sm[3][1] == 115u8);
    assert(sm[4][1] == 116u8);
}

/// The transition is a move, never a copy, and never doubles a mount:
/// every surviving mountpoint with a directory under the new root is
/// re-parented by exactly one move action, whose destination is the
/// mountpoint's path under the new root; distinct mountpoints move to
/// distinct destinations, so the mount table gains no duplicate; and a
/// mountpoint without a directory there is unmounted, silently dropped by
/// design rather than leaked.
pub proof fn lemma_transition_no_duplicate_mounts(newroot: Seq<u8>, exists: Seq<bool>)
    requires
        exists.len() == spec_surviving_mountpoints().len(),
    ensures
        forall|i: int|
            0 <= i < exists.len() && exists[i] ==> spec_transition_plan(newroot, exists)[i].action
                == SpecMountAction::MoveTo(newroot + spec_surviving_mountpoints()[i]),
        forall|i: int|
            0 <= i < exists.len() && !exists[i] ==> spec_transition_plan(
                newroot,
                exists,
            )[i].action == SpecMountAction::Unmount,
        forall|i: int, j: int|
            0 <= i < exists.len() && 0 <= j < exists.len() && i != j ==> newroot
                + spec_surviving_mountpoints()[i] != newroot + spec_surviving_mountpoints()[j],
{
    lemma_surviving_distinct();
    let sm = spec_surviving_mountpoints();
    assert forall|i: int, j: int|
        0 <= i < exists.len() && 0 <= j < exists.len() && i != j implies newroot + sm[i]
        != newroot + sm[j] by {
        assert(sm[i] != sm[j]);
        assert((newroot + sm[i]).skip(newroot.len() as int) =~= sm[i]);
        assert((newroot + sm[j]).skip(newroot.len() as int) =~= sm[j]);
    }
}

/// One step of the final change-root dance.
pub enum RootSwitchStep {
    /// Change the working directory to this path.
    ChangeDir(Vec<u8>),
    /// Open a handle on the current root and hold it across the switch
    /// (the safety idiom: never leave the transition without a live
    /// reference), to be dropped afterwards, never used.
    HoldOldRoot,
    /// Move-mount `src` onto `dest`.
    MoveMount {
        /// The mount being re-parented.
        src: Vec<u8>,
        /// Where it lands.
        dest: Vec<u8>,
    },
    /// Change the filesystem root to this path.
    ChangeRoot(Vec<u8>),
}

/// The mathematical value of a change-root step.
pub enum SpecRootSwitchStep {
    /// Change the working directory.
    ChangeDir(Seq<u8>),
    /// Hold a handle on the current root.
    HoldOldRoot,
    /// Move-mount `src` onto `dest`.
    MoveMount {
        /// The mount being re-parented.
        src: Seq<u8>,
        /// Where it lands.
        dest: Seq<u8>,
    },
    /// Change the filesystem root.
    ChangeRoot(Seq<u8>),
}

impl View for RootSwitchStep {
    type V = SpecRootSwitchStep;

    open spec fn view(&self) -> SpecRootSwitchStep {
        match self {
            RootSwitchStep::ChangeDir(p) => SpecRootSwitchStep::ChangeDir(p@),
            RootSwitchStep::HoldOldRoot => SpecRootSwitchStep::HoldOldRoot,
            RootSwitchStep::MoveMount { src, dest } => (SpecRootSwitchStep::MoveMount {
                src: src@,
                dest: dest@,
            }),
            RootSwitchStep::ChangeRoot(p) => SpecRootSwitchStep::ChangeRoot(p@),
        }
    }
}

/// `"."` as bytes.
pub const DOT: [u8; 1] = [46u8];

/// `"/"` as bytes.
pub const ROOT_SLASH: [u8; 1] = [47u8];

/// The change-root dance, in its exact order: enter the new root, hold the
/// old root open, move the current directory's mount onto `/`, change the
/// filesystem root to `.`, and land in `/`.  The order never leaves the
/// process without a valid working directory.
pub fn switch_root_plan(newroot: &[u8]) -> (r: Vec<RootSwitchStep>)
    ensures
        r@.len() == 5,
        r@[0]@ == SpecRootSwitchStep::ChangeDir(newroot@),
        r@[1]@ == SpecRootSwitchStep::HoldOldRoot,
        r@[2]@ == (SpecRootSwitchStep::MoveMount { src: DOT@, dest: ROOT_SLASH@ }),
        r@[3]@ == SpecRootSwitchStep::ChangeRoot(DOT@),
        r@[4]@ == SpecRootSwitchStep::ChangeDir(ROOT_SLASH@),
{
    let mut r: Vec<RootSwitchStep> = Vec::new();
    r.push(RootSwitchStep::ChangeDir(vstd::slice::slice_to_vec(newroot)));
    r.push(RootSwitchStep::HoldOldRoot);
    r.push(
        RootSwitchStep::MoveMount {
            src: vstd::slice::slice_to_vec(DOT.as_slice()),
            dest: vstd::slice::slice_to_vec(ROOT_SLASH.as_slice()),
        },
    );
    r.push(RootSwitchStep::ChangeRoot(vstd::slice::slice_to_vec(DOT.as_slice())));
    r.push(RootSwitchStep::ChangeDir(vstd::slice::slice_to_vec(ROOT_SLASH.as_slice())));
    r
}

} // verus!
