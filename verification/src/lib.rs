//! Boot orchestration logic for a minimal PID-1 init of a virtual-machine
//! guest: kernel-command-line parsing, the fixed pseudo-filesystem, device
//! and share mount plans, kernel-module load ordering, and the decisions of
//! the root transition.  Everything here is pure: the kernel calls that carry
//! the plans out live with the binary that links this library.

pub mod boot;
pub mod bytes;
pub mod cmdline;
pub mod config;
pub mod devices;
pub mod modules;
pub mod mounts;
pub mod transition;
