//! Classification of the disk of a Linux system that does not boot, and the plans
//! by which its partitions are checked, mounted under a rescue root and released
//! again.
//!
//! The library decides and plans; it touches neither the disk nor the machine.
//! The partition listing of the disk is read into a catalogue (`catalog`). A
//! session (`session`) hands the catalogue to the branch that fits the disk
//! (`classify`, with `ubuntu`, `suse`, `redhat` and `ade`) and then asks for one
//! thing at a time (`probe`): a link to resolve, a filesystem to check (`fsck`), a
//! root to look into. From the answers it completes the profile of the disk
//! (`distro`). The profile has a mount plan and a release plan
//! (`prepare_action`, made of the mounts in `mount`), which are carried out step
//! by step (`orchestrator`), and it tells a repair script about the disk through
//! its environment (`action`).

pub mod action;
pub mod ade;
pub mod catalog;
pub mod classify;
pub mod cli;
pub mod constants;
pub mod distro;
pub mod fsck;
pub mod helper;
pub mod mount;
pub mod orchestrator;
pub mod plan;
pub mod prepare_action;
pub mod probe;
pub mod redhat;
pub mod session;
pub mod suse;
pub mod text;
pub mod ubuntu;
