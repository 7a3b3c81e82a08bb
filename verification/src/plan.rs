//! The steps that classification is made of.
//!
//! Each branch of the classifier fills in what the catalogue alone tells about the
//! disk, and lists the steps that remain: device paths to resolve, filesystems to
//! check, a root to look into. A step names the partition it is about by its role;
//! which request it comes to is settled when its turn comes, from what the profile
//! holds by then.

use crate::catalog::{first_scaled, numbered_from, RecordView, Scale, Scope};
use crate::distro::{DistroView, PartView};
use crate::probe::Fatal;
use vstd::prelude::*;

verus! {

/// The token that every record carries: the empty text.
pub const ANY: &'static str = "";

/// The number that the root of a pair has by custom.
pub const CUSTOMARY_ROOT: u8 = 2;

/// The number that the boot partition of a pair has by custom.
pub const CUSTOMARY_BOOT: u8 = 1;

/// The part that a partition plays.
#[derive(Debug, Clone, Copy, PartialEq, Eq, Structural)]
pub enum Role {
    Root,
    Boot,
    Efi,
}

/// The logical volumes that a profile names.
#[derive(Debug, Clone, Copy, PartialEq, Eq, Structural)]
pub enum Volume {
    Root,
    Usr,
    Var,
}

/// What is mounted at the scratch mountpoint to be looked into.
#[derive(Debug, Clone, Copy, PartialEq, Eq, Structural)]
pub enum Medium {
    /// The root partition.
    Partition,
    /// The logical volume that holds the root.
    Volume,
}

/// The question that the name of the mounted system settles.
#[derive(Debug, Clone, Copy, PartialEq, Eq, Structural)]
pub enum Verdict {
    /// A disk of one partition: Ubuntu or Debian, or else to be looked at as Red Hat.
    Single,
    /// Red Hat or CentOS: version 6, or a later one.
    RedHat,
    /// Ubuntu or Debian.
    Ubuntu,
}

/// One step of classification.
#[derive(Debug, Clone, Copy, PartialEq, Eq, Structural)]
pub enum Op {
    /// Resolve the link of the disk.
    ResolveDisk,
    /// The device of a partition is the device of the disk followed by the
    /// partition's number.
    ByDisk(Role),
    /// Resolve the link of a partition.
    ByLun(Role),
    /// Read the filesystem of the unlocked root.
    ProbeEncrypted,
    /// Detach a partition from where the unlock step has mounted it.
    Release(Role),
    /// Detach one of the volumes that the unlock step has mounted, by its position.
    Detach(u8),
    /// One step of checking a partition's filesystem, by its position.
    Check(Role, u8),
    /// Activate the logical volumes.
    ScanVolumes,
    /// Look up the device of a logical volume.
    Locate(Volume),
    /// Create the scratch mountpoint.
    Scratch,
    /// Mount the root at the scratch mountpoint.
    Attach(Medium),
    /// Read the name of the mounted system.
    ReadIdentity,
    /// Read the older release file, where the system gave no name.
    ReadLegacy,
    /// Detach the scratch mountpoint.
    DetachScratch,
    /// Remove the scratch mountpoint.
    Discard,
    /// Decide the kind from what was read.
    Settle(Verdict),
    /// Read the name of the system that the unlock step has mounted, and go on
    /// with the branch it calls for.
    Investigate,
}

/// What a branch of the classifier comes to: the steps that remain, or the reason
/// why the disk fits no layout.
pub type Planned = Result<(DistroView, Seq<Op>), Fatal>;

/// A branch has done what it is specified to do: on success the profile and the
/// steps are as expected, on failure the profile is untouched.
pub open spec fn delivers(
    planned: Result<Vec<Op>, Fatal>,
    before: DistroView,
    after: DistroView,
    expected: Planned,
) -> bool {
    match planned {
        Ok(ops) => expected == Ok::<(DistroView, Seq<Op>), Fatal>((after, ops@)),
        Err(fatal) => expected == Err::<(DistroView, Seq<Op>), Fatal>(fatal) && after == before,
    }
}

/// The steps of checking the filesystem of a partition. A check takes at most four
/// requests; the steps beyond those that its filesystem asks for come to nothing.
pub open spec fn check_ops(role: Role) -> Seq<Op> {
    seq![Op::Check(role, 0), Op::Check(role, 1), Op::Check(role, 2), Op::Check(role, 3)]
}

/// The steps of checking the root, the boot partition and the EFI partition.
pub open spec fn check_all_ops() -> Seq<Op> {
    check_ops(Role::Root) + check_ops(Role::Boot) + check_ops(Role::Efi)
}

/// The steps that detach the partitions of an encrypted disk from where the
/// unlock step has mounted them: the EFI partition, the boot partition, the root.
pub open spec fn release_ops() -> Seq<Op> {
    seq![Op::Release(Role::Efi), Op::Release(Role::Boot), Op::Release(Role::Root)]
}

/// The steps that detach the volumes of an encrypted disk under LVM.
pub open spec fn detach_ops() -> Seq<Op> {
    seq![Op::Detach(0), Op::Detach(1), Op::Detach(2), Op::Detach(3), Op::Detach(4), Op::Detach(5)]
}

/// The steps that look up the logical volumes for `/`, `/usr` and `/var`.
pub open spec fn locate_ops() -> Seq<Op> {
    seq![Op::Locate(Volume::Root), Op::Locate(Volume::Usr), Op::Locate(Volume::Var)]
}

/// The steps that decide between Ubuntu and Debian: the root partition is mounted
/// at the scratch mountpoint, its name is read, and the mountpoint is detached and
/// removed before the kind is decided.
pub open spec fn ubuntu_verify_ops() -> Seq<Op> {
    seq![
        Op::Scratch,
        Op::Attach(Medium::Partition),
        Op::ReadIdentity,
        Op::DetachScratch,
        Op::Discard,
        Op::Settle(Verdict::Ubuntu),
    ]
}

/// The steps that decide the version of Red Hat or CentOS: the root is mounted at
/// the scratch mountpoint, its name is read, and where it gives none the older
/// release file; the mountpoint is detached and removed before the kind is decided.
pub open spec fn redhat_verify_ops(medium: Medium) -> Seq<Op> {
    seq![
        Op::Scratch,
        Op::Attach(medium),
        Op::ReadIdentity,
        Op::ReadLegacy,
        Op::DetachScratch,
        Op::Discard,
        Op::Settle(Verdict::RedHat),
    ]
}

/// The partition of a role as a record describes it. Its device path is left as it is.
pub open spec fn described(record: RecordView, part: PartView) -> PartView {
    PartView { fs: record.filesystem, number: record.number, ..part }
}

/// The partition of a role that goes by a fixed number: the number, and the
/// filesystem of the first record within the scope that has the number, if there
/// is one.
pub open spec fn numbered(records: Seq<RecordView>, scope: Scope, number: u8, part: PartView)
    -> PartView {
    match numbered_from(records, scope, number, 0) {
        Some(at) => PartView { fs: records[at].filesystem, number, ..part },
        None => PartView { number, ..part },
    }
}

/// The root of a pair by its size: the first record within the scope whose size
/// is given in GiB.
pub open spec fn root_by_size(records: Seq<RecordView>, scope: Scope) -> Option<int> {
    first_scaled(records, scope, Scale::Large, None)
}

/// The boot partition beside a root, by its size: the first record within the
/// scope whose size is given in MiB and whose number is not the root's.
pub open spec fn boot_by_size(records: Seq<RecordView>, scope: Scope, root: int) -> Option<int> {
    first_scaled(records, scope, Scale::Small, Some(records[root].number))
}

/// The records that are the root and the boot partition of a pair by their sizes,
/// where the sizes tell both.
pub open spec fn pair_by_size(records: Seq<RecordView>, scope: Scope) -> Option<(int, int)> {
    match root_by_size(records, scope) {
        Some(root) => match boot_by_size(records, scope, root) {
            Some(boot) => Some((root, boot)),
            None => None,
        },
        None => None,
    }
}

/// The profile with its root and its boot partition told apart. Where the sizes
/// tell both, the root is the partition of a size in GiB and the boot partition
/// another one of a size in MiB. Where they do not, the pair goes by custom: the
/// root is partition 2 and the boot partition is partition 1.
pub open spec fn paired(records: Seq<RecordView>, scope: Scope, d: DistroView) -> DistroView {
    match pair_by_size(records, scope) {
        Some((root, boot)) => DistroView {
            root: described(records[root], d.root),
            boot: described(records[boot], d.boot),
            ..d
        },
        None => DistroView {
            root: numbered(records, scope, CUSTOMARY_ROOT, d.root),
            boot: numbered(records, scope, CUSTOMARY_BOOT, d.boot),
            ..d
        },
    }
}

/// An EFI partition as a record describes it, not yet resolved.
pub open spec fn efi_described(record: RecordView) -> PartView {
    PartView { fs: record.filesystem, number: record.number, path: Seq::empty() }
}

/// The checks of one partition.
pub fn fsck_one(role: Role) -> (ops: Vec<Op>)
    ensures
        ops@ == check_ops(role),
{
    let mut ops: Vec<Op> = Vec::new();
    ops.push(Op::Check(role, 0));
    ops.push(Op::Check(role, 1));
    ops.push(Op::Check(role, 2));
    ops.push(Op::Check(role, 3));
    assert(ops@ =~= check_ops(role));
    ops
}

/// Adds steps to the end of a list of steps.
pub fn then_ops(ops: &mut Vec<Op>, more: Vec<Op>)
    ensures
        final(ops)@ == old(ops)@ + more@,
{
    let mut more = more;
    ops.append(&mut more);
}

/// A step gives the partition of a role its device.
pub open spec fn resolves(op: Op, role: Role) -> bool {
    op == Op::ByDisk(role) || op == Op::ByLun(role)
}

/// The steps from position `at` on are the check of the partition of a role.
pub open spec fn checked_from(ops: Seq<Op>, role: Role, at: int) -> bool {
    &&& 0 <= at
    &&& at + 3 < ops.len()
    &&& ops[at] == Op::Check(role, 0)
    &&& ops[at + 1] == Op::Check(role, 1)
    &&& ops[at + 2] == Op::Check(role, 2)
    &&& ops[at + 3] == Op::Check(role, 3)
}

/// Every partition that the steps give a device is checked by later steps.
pub open spec fn checks_what_it_resolves(ops: Seq<Op>) -> bool {
    forall|i: int, role: Role|
        0 <= i < ops.len() && #[trigger] resolves(ops[i], role) ==> exists|j: int|
            i < j && #[trigger] checked_from(ops, role, j)
}

/// After the step at position `at` the name of the mounted system is read, then
/// at most the older release file, and then the scratch mountpoint is detached.
pub open spec fn detached_after(ops: Seq<Op>, at: int) -> bool {
    &&& at + 2 < ops.len()
    &&& ops[at + 1] == Op::ReadIdentity
    &&& ops[at + 2] == Op::DetachScratch || (at + 3 < ops.len() && ops[at + 2] == Op::ReadLegacy
        && ops[at + 3] == Op::DetachScratch)
}

/// What is mounted at the scratch mountpoint is detached again, and in between
/// the steps only read.
pub open spec fn detaches_what_it_attaches(ops: Seq<Op>) -> bool {
    forall|i: int| 0 <= i < ops.len() && ops[i] is Attach ==> #[trigger] detached_after(ops, i)
}

/// No step looks up a logical volume.
pub open spec fn locates_nothing(ops: Seq<Op>) -> bool {
    forall|i: int| 0 <= i < ops.len() ==> !((#[trigger] ops[i]) is Locate)
}

/// The steps before position `at` neither check nor mount anything, and the
/// steps from there on detach nothing that the unlock step has mounted.
pub open spec fn released_by(ops: Seq<Op>, at: int) -> bool {
    forall|i: int|
        0 <= i < ops.len() ==> {
            &&& ((#[trigger] ops[i]) is Release || ops[i] is Detach) ==> i < at
            &&& (ops[i] is Check || ops[i] is Attach) ==> at <= i
        }
}

/// What the unlock step has mounted is detached before anything else is mounted
/// or checked.
pub open spec fn releases_first(ops: Seq<Op>) -> bool {
    exists|at: int| #[trigger] released_by(ops, at)
}

/// The steps of a branch are in order: a root that is mounted at the scratch
/// mountpoint is detached again after it was read; what the unlock step has
/// mounted is detached first; and logical volumes are looked up under LVM only.
pub open spec fn orderly(profile: DistroView, ops: Seq<Op>) -> bool {
    &&& detaches_what_it_attaches(ops)
    &&& releases_first(ops)
    &&& !profile.is_lvm ==> locates_nothing(ops)
}

/// A step leads to the device of the root: it gives the root its device, or it
/// decides the branch that does.
pub open spec fn grounds(op: Op) -> bool {
    resolves(op, Role::Root) || op == Op::Investigate
}

/// The root of the profile has a device, or one of the steps leads to it.
pub open spec fn rooted(profile: DistroView, ops: Seq<Op>) -> bool {
    profile.root.path.len() > 0 || exists|i: int| 0 <= i < ops.len() && #[trigger] grounds(ops[i])
}

/// A step works on the device of the root partition: it checks it, mounts it at
/// the scratch mountpoint, or detaches it.
pub open spec fn uses_root(op: Op) -> bool {
    ||| op == Op::Attach(Medium::Partition)
    ||| op == Op::Release(Role::Root)
    ||| op matches Op::Check(role, position) && role == Role::Root
}

/// The device of the root is known before a step works on it: the profile has it,
/// or each step that works on it follows a step that gives it.
pub open spec fn resolves_root_first(profile: DistroView, ops: Seq<Op>) -> bool {
    profile.root.path.len() > 0 || forall|i: int|
        0 <= i < ops.len() && #[trigger] uses_root(ops[i]) ==> exists|r: int|
            0 <= r < i && #[trigger] resolves(ops[r], Role::Root)
}

} // verus!
