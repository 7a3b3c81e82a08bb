//! Disks under disk encryption.
//!
//! Encryption leaves no labels to go by, so the boot partition goes by a fixed
//! number and filesystem, and the root is read through the device that the unlock
//! step has set up. That step has also mounted the disk; what it mounted is
//! detached before any filesystem is checked.

use crate::catalog::{find_last, last_marked, views, PartitionRecord, RecordView};
use crate::constants::OSENCRYPT_PATH;
use crate::distro::{Distro, DistroView, PartView};
use crate::fsck::XFS;
use crate::helper::set_efi_part_number_and_fs;
use crate::plan::{
    check_all_ops, delivers, detach_ops, efi_described, fsck_one, locate_ops, redhat_verify_ops,
    release_ops, resolves, then_ops, ubuntu_verify_ops, Medium, Op, Planned, Role,
};
use crate::probe::Fatal;
use crate::redhat::{locate_volumes, verify_redhat_lvm, verify_redhat_nolvm};
use crate::text::{contains, cut, field, mentions};
use crate::ubuntu::verify_ubuntu;
use vstd::prelude::*;

verus! {

/// The name of the device of an unlocked root.
pub const OSENCRYPT: &'static str = "osencrypt";

/// The filesystem of the boot partition that encryption adds to Ubuntu.
pub const EXT2: &'static str = "ext2";

/// The token by which the EFI partition of an encrypted Ubuntu is known.
pub const BOOT_TOKEN: &'static str = "boot";

/// The token by which the EFI partition of an encrypted Red Hat is known.
pub const EFI_TOKEN: &'static str = "EFI";

pub const INVESTIGATE_TMP: &'static str = "/investigateroot/tmp";

pub const INVESTIGATE_USR: &'static str = "/investigateroot/usr";

pub const INVESTIGATE_OPT: &'static str = "/investigateroot/opt";

pub const INVESTIGATE_HOME: &'static str = "/investigateroot/home";

pub const INVESTIGATE_VAR: &'static str = "/investigateroot/var";

pub const INVESTIGATE_ROOT: &'static str = "/investigateroot";

/// Where the unlock step mounts the volumes of an encrypted disk under LVM, in the
/// order in which they are detached: the root comes last.
pub open spec fn investigation_mounts() -> Seq<Seq<char>> {
    seq![
        INVESTIGATE_TMP@,
        INVESTIGATE_USR@,
        INVESTIGATE_OPT@,
        INVESTIGATE_HOME@,
        INVESTIGATE_VAR@,
        INVESTIGATE_ROOT@,
    ]
}

/// The EFI partition of an encrypted disk: the last record that carries the
/// token; as before where none does.
pub open spec fn efi_by_token(records: Seq<RecordView>, token: Seq<char>, d: DistroView) -> Option<
    PartView,
> {
    match last_marked(records, token, records.len() as int) {
        Some(at) => Some(efi_described(records[at])),
        None => d.efi,
    }
}

/// The profile of an encrypted disk: the boot partition by its fixed filesystem
/// and number, the root by its fixed number and through the unlocked device.
pub open spec fn encrypted(
    d: DistroView,
    boot_fs: Seq<char>,
    boot_number: u8,
    root_number: u8,
    efi: Option<PartView>,
) -> DistroView {
    DistroView {
        boot: PartView { fs: boot_fs, number: boot_number, ..d.boot },
        root: PartView { number: root_number, path: OSENCRYPT_PATH@, ..d.root },
        efi,
        ..d
    }
}

/// An encrypted Ubuntu. The boot partition is partition 2 with ext2; the root
/// keeps its number.
pub open spec fn ubuntu_ade_plan(records: Seq<RecordView>, d: DistroView) -> Planned {
    Ok(
        (
            encrypted(d, EXT2@, 2, d.root.number, efi_by_token(records, BOOT_TOKEN@, d)),
            seq![Op::ByLun(Role::Efi), Op::ProbeEncrypted, Op::ByLun(Role::Boot)] + release_ops()
                + check_all_ops() + ubuntu_verify_ops(),
        ),
    )
}

/// An encrypted Red Hat without LVM, of four partitions. The boot partition is
/// partition 1 with XFS, the root partition 2.
pub open spec fn redhat_nolvm_ade_plan(records: Seq<RecordView>, d: DistroView) -> Planned {
    Ok(
        (
            encrypted(d, XFS@, 1, 2, efi_by_token(records, EFI_TOKEN@, d)),
            seq![Op::ProbeEncrypted, Op::ByLun(Role::Boot), Op::ByLun(Role::Efi)] + release_ops()
                + check_all_ops() + redhat_verify_ops(Medium::Partition),
        ),
    )
}

/// An encrypted Red Hat of two partitions. The boot partition is partition 1 with
/// XFS, the root partition 2, whatever the catalogue says.
pub open spec fn redhat6_or_7_ade_plan(d: DistroView) -> Planned {
    Ok(
        (
            encrypted(d, XFS@, 1, 2, d.efi),
            seq![Op::ProbeEncrypted, Op::ByLun(Role::Boot)] + release_ops() + check_all_ops()
                + redhat_verify_ops(Medium::Partition),
        ),
    )
}

/// An encrypted Red Hat under LVM. The boot partition is partition 2 with XFS, the
/// root partition 4.
pub open spec fn redhat_lvm_ade_plan(records: Seq<RecordView>, d: DistroView) -> Planned {
    Ok(
        (
            encrypted(d, XFS@, 2, 4, efi_by_token(records, EFI_TOKEN@, d)),
            seq![Op::ProbeEncrypted, Op::ByLun(Role::Boot), Op::ByLun(Role::Efi)] + detach_ops()
                + release_ops() + check_all_ops() + locate_ops() + redhat_verify_ops(
                Medium::Volume,
            ),
        ),
    )
}

/// The profile with the filesystem of its root read from a line that describes the
/// unlocked device: the second of its fields, which blanks separate.
pub open spec fn with_probed_fs(d: DistroView, line: Seq<char>) -> Result<DistroView, Fatal> {
    match field(line, ' ', 1) {
        Some(fs) => Ok(DistroView { root: PartView { fs, ..d.root }, ..d }),
        None => Err(Fatal::UnreadableProbe),
    }
}

/// Whether a listing of block devices shows an unlocked root: whether disk
/// encryption is active.
pub fn is_ade_enabled(block_devices: &str) -> (enabled: bool)
    ensures
        enabled == mentions(block_devices@, OSENCRYPT@),
{
    contains(block_devices, OSENCRYPT)
}

/// Takes the filesystem of the root from the line that describes the unlocked
/// device. A line with one field only names no filesystem, and leaves the profile
/// as it is.
pub fn set_root_part_fs(distro: &mut Distro, line: &str) -> (set: Result<(), Fatal>)
    ensures
        match set {
            Ok(()) => with_probed_fs(old(distro)@, line@) == Ok::<DistroView, Fatal>(
                final(distro)@,
            ),
            Err(fatal) => with_probed_fs(old(distro)@, line@) == Err::<DistroView, Fatal>(fatal)
                && final(distro)@ == old(distro)@,
        },
{
    match cut(line, ' ', 1) {
        Some(fs) => {
            distro.rescue_root.root_part_fs = String::from_str(fs);
            Ok(())
        },
        None => Err(Fatal::UnreadableProbe),
    }
}

/// The checks of the root, the boot partition and the EFI partition, in this order.
pub fn fsck_partitions() -> (ops: Vec<Op>)
    ensures
        ops@ == check_all_ops(),
{
    let mut ops = fsck_one(Role::Root);
    then_ops(&mut ops, fsck_one(Role::Boot));
    then_ops(&mut ops, fsck_one(Role::Efi));
    ops
}

/// The steps that detach the EFI partition, the boot partition and the root from
/// where the unlock step has mounted them.
pub fn umount_investigations() -> (ops: Vec<Op>)
    ensures
        ops@ == release_ops(),
{
    let mut ops: Vec<Op> = Vec::new();
    ops.push(Op::Release(Role::Efi));
    ops.push(Op::Release(Role::Boot));
    ops.push(Op::Release(Role::Root));
    assert(ops@ =~= release_ops());
    ops
}

/// The steps that detach the volumes that the unlock step has mounted.
pub fn umount_investigations_lvm() -> (ops: Vec<Op>)
    ensures
        ops@ == detach_ops(),
{
    let mut ops: Vec<Op> = Vec::new();
    ops.push(Op::Detach(0));
    ops.push(Op::Detach(1));
    ops.push(Op::Detach(2));
    ops.push(Op::Detach(3));
    ops.push(Op::Detach(4));
    ops.push(Op::Detach(5));
    assert(ops@ =~= detach_ops());
    ops
}

/// The place that a step detaches, by its position; none beyond the sixth.
pub fn investigation_mount(position: u8) -> (place: Option<&'static str>)
    ensures
        match place {
            Some(p) => position < 6 && p@ == investigation_mounts()[position as int],
            None => position >= 6,
        },
{
    if position == 0 {
        Some(INVESTIGATE_TMP)
    } else if position == 1 {
        Some(INVESTIGATE_USR)
    } else if position == 2 {
        Some(INVESTIGATE_OPT)
    } else if position == 3 {
        Some(INVESTIGATE_HOME)
    } else if position == 4 {
        Some(INVESTIGATE_VAR)
    } else if position == 5 {
        Some(INVESTIGATE_ROOT)
    } else {
        None
    }
}

/// Makes the last record that carries the token the EFI partition of the profile.
fn set_efi_by_token(partition_info: &Vec<PartitionRecord>, token: &str, distro: &mut Distro)
    ensures
        final(distro)@ == (DistroView {
            efi: efi_by_token(views(partition_info@), token@, old(distro)@),
            ..old(distro)@
        }),
{
    match find_last(partition_info, token) {
        Some(at) => {
            assert(views(partition_info@)[at as int] == partition_info@[at as int]@);
            set_efi_part_number_and_fs(distro, &partition_info[at]);
        },
        None => {},
    }
}

/// Sets what encryption fixes: the boot partition's filesystem and number, the
/// root's number, and the unlocked device as the root's device.
fn set_encrypted(distro: &mut Distro, boot_fs: &str, boot_number: u8, root_number: u8)
    ensures
        final(distro)@ == encrypted(
            old(distro)@,
            boot_fs@,
            boot_number,
            root_number,
            old(distro)@.efi,
        ),
{
    distro.boot_part.boot_part_fs = String::from_str(boot_fs);
    distro.boot_part.boot_part_number = boot_number;
    distro.rescue_root.root_part_number = root_number;
    distro.rescue_root.root_part_path = String::from_str(OSENCRYPT_PATH);
}

/// An encrypted Ubuntu.
pub fn do_ubuntu_ade(partition_info: &Vec<PartitionRecord>, distro: &mut Distro) -> (planned:
    Result<Vec<Op>, Fatal>)
    ensures
        delivers(
            planned,
            old(distro)@,
            final(distro)@,
            ubuntu_ade_plan(views(partition_info@), old(distro)@),
        ),
{
    set_efi_by_token(partition_info, BOOT_TOKEN, distro);
    let root_number = distro.rescue_root.root_part_number;
    set_encrypted(distro, EXT2, 2, root_number);
    let mut ops: Vec<Op> = Vec::new();
    ops.push(Op::ByLun(Role::Efi));
    ops.push(Op::ProbeEncrypted);
    ops.push(Op::ByLun(Role::Boot));
    then_ops(&mut ops, umount_investigations());
    then_ops(&mut ops, fsck_partitions());
    then_ops(&mut ops, verify_ubuntu());
    assert(ops@ =~= ubuntu_ade_plan(views(partition_info@), old(distro)@)->Ok_0.1);
    Ok(ops)
}

/// An encrypted Red Hat without LVM, of four partitions.
pub fn do_redhat_nolvm_ade(partition_info: &Vec<PartitionRecord>, distro: &mut Distro) -> (planned:
    Result<Vec<Op>, Fatal>)
    ensures
        delivers(
            planned,
            old(distro)@,
            final(distro)@,
            redhat_nolvm_ade_plan(views(partition_info@), old(distro)@),
        ),
{
    set_efi_by_token(partition_info, EFI_TOKEN, distro);
    set_encrypted(distro, XFS, 1, 2);
    let mut ops: Vec<Op> = Vec::new();
    ops.push(Op::ProbeEncrypted);
    ops.push(Op::ByLun(Role::Boot));
    ops.push(Op::ByLun(Role::Efi));
    then_ops(&mut ops, umount_investigations());
    then_ops(&mut ops, fsck_partitions());
    then_ops(&mut ops, verify_redhat_nolvm());
    assert(ops@ =~= redhat_nolvm_ade_plan(views(partition_info@), old(distro)@)->Ok_0.1);
    Ok(ops)
}

/// An encrypted Red Hat of two partitions.
pub fn do_redhat6_or_7_ade(distro: &mut Distro) -> (planned: Result<Vec<Op>, Fatal>)
    ensures
        delivers(planned, old(distro)@, final(distro)@, redhat6_or_7_ade_plan(old(distro)@)),
{
    set_encrypted(distro, XFS, 1, 2);
    let mut ops: Vec<Op> = Vec::new();
    ops.push(Op::ProbeEncrypted);
    ops.push(Op::ByLun(Role::Boot));
    then_ops(&mut ops, umount_investigations());
    then_ops(&mut ops, fsck_partitions());
    then_ops(&mut ops, verify_redhat_nolvm());
    assert(ops@ =~= redhat6_or_7_ade_plan(old(distro)@)->Ok_0.1);
    Ok(ops)
}

/// An encrypted Red Hat under LVM.
pub fn do_redhat_lvm_ade(partition_info: &Vec<PartitionRecord>, distro: &mut Distro) -> (planned:
    Result<Vec<Op>, Fatal>)
    ensures
        delivers(
            planned,
            old(distro)@,
            final(distro)@,
            redhat_lvm_ade_plan(views(partition_info@), old(distro)@),
        ),
{
    set_efi_by_token(partition_info, EFI_TOKEN, distro);
    set_encrypted(distro, XFS, 2, 4);
    let mut ops: Vec<Op> = Vec::new();
    ops.push(Op::ProbeEncrypted);
    ops.push(Op::ByLun(Role::Boot));
    ops.push(Op::ByLun(Role::Efi));
    then_ops(&mut ops, umount_investigations_lvm());
    then_ops(&mut ops, umount_investigations());
    then_ops(&mut ops, fsck_partitions());
    then_ops(&mut ops, locate_volumes());
    then_ops(&mut ops, verify_redhat_lvm());
    assert(ops@ =~= redhat_lvm_ade_plan(views(partition_info@), old(distro)@)->Ok_0.1);
    Ok(ops)
}

/// The root of an encrypted disk is read through the unlocked device: every
/// branch for encrypted disks makes that device the root's device, and none of
/// its steps resolves the root to another.
pub proof fn law_encrypted_root_is_unlocked(records: Seq<RecordView>, d: DistroView)
    ensures
        ubuntu_ade_plan(records, d) matches Ok((profile, ops)) && unlocked(profile, ops),
        redhat6_or_7_ade_plan(d) matches Ok((profile, ops)) && unlocked(profile, ops),
        redhat_nolvm_ade_plan(records, d) matches Ok((profile, ops)) && unlocked(profile, ops),
        redhat_lvm_ade_plan(records, d) matches Ok((profile, ops)) && unlocked(profile, ops),
{
}

/// The root of the profile is the unlocked device, and no step resolves it.
pub open spec fn unlocked(profile: DistroView, ops: Seq<Op>) -> bool {
    &&& profile.root.path == OSENCRYPT_PATH@
    &&& forall|i: int| 0 <= i < ops.len() ==> !resolves(#[trigger] ops[i], Role::Root)
}

} // verus!
