//! Red Hat and CentOS.

use crate::ade::{
    do_redhat6_or_7_ade, do_redhat_lvm_ade, do_redhat_nolvm_ade, fsck_partitions,
    redhat6_or_7_ade_plan, redhat_lvm_ade_plan, redhat_nolvm_ade_plan,
};
use crate::catalog::{
    count_in_scope, count_within, find_first, find_number, find_scaled, first_accepted, views,
    PartitionRecord, RecordView, Scale, Scope, EFI_MARK, LVM_MARK,
};
use crate::distro::{Distro, DistroKind, DistroView, PartView};
use crate::helper::set_efi_part_number_and_fs;
use crate::plan::{
    check_all_ops, check_ops, delivers, described, efi_described, fsck_one, locate_ops, numbered,
    pair_by_size, paired, redhat_verify_ops, then_ops, Medium, Op, Planned, Role, Verdict, Volume,
    ANY, CUSTOMARY_BOOT, CUSTOMARY_ROOT,
};
use crate::probe::Fatal;
use crate::text::{contains, cut, field, mentions};
use vstd::prelude::*;

verus! {

/// What the name of a version 6 holds.
pub const VERSION_6: &'static str = "6.";

pub const CENTOS: &'static str = "CentOS";

pub const RED_HAT: &'static str = "Red Hat";

/// The names by which the logical volumes for `/`, `/usr` and `/var` are known.
pub const ROOT_VOLUME: &'static str = "rootlv";

pub const USR_VOLUME: &'static str = "usrlv";

pub const VAR_VOLUME: &'static str = "varlv";

/// The kind that a mounted Red Hat or CentOS is of. Its name decides where it
/// gives one: version 6 where the name holds `6.`, a later version otherwise.
/// Where it gives none, the older release file decides: version 6 where it names
/// CentOS or Red Hat, a later version otherwise. Where that file says nothing
/// either, the kind cannot be decided.
pub open spec fn redhat_kind(name: Seq<char>, legacy: Seq<char>) -> Result<DistroKind, Fatal> {
    if name.len() > 0 {
        Ok(
            if mentions(name, VERSION_6@) {
                DistroKind::RedHatCentOS6
            } else {
                DistroKind::RedHatCentOS
            },
        )
    } else if legacy.len() == 0 {
        Err(Fatal::UndecidableIdentity)
    } else {
        Ok(
            if mentions(legacy, CENTOS@) || mentions(legacy, RED_HAT@) {
                DistroKind::RedHatCentOS6
            } else {
                DistroKind::RedHatCentOS
            },
        )
    }
}

/// The device of a logical volume in the line that lists it: what stands between
/// the first two apostrophes. Nothing where the line has no apostrophe.
pub open spec fn volume_path(line: Seq<char>) -> Seq<char> {
    match field(line, '\'', 1) {
        Some(path) => path,
        None => Seq::empty(),
    }
}

/// The EFI partition: the first record that carries its token; as before where
/// none does.
pub open spec fn efi_found(records: Seq<RecordView>, d: DistroView) -> Option<PartView> {
    match first_accepted(records, Scope::All, EFI_MARK@) {
        Some(at) => Some(efi_described(records[at])),
        None => d.efi,
    }
}

/// Red Hat or CentOS 6 or 7 without LVM, of two partitions. The root is the
/// partition of a size in GiB and the boot partition the one of a size in MiB;
/// where the sizes do not tell both, the root is partition 2 and the boot
/// partition is partition 1. An encrypted disk goes by the fixed layout that
/// encryption leaves, and no record is looked at.
pub open spec fn redhat6_or_7_plan(records: Seq<RecordView>, d: DistroView) -> Planned {
    if d.is_ade {
        redhat6_or_7_ade_plan(d)
    } else {
        Ok(
            (
                paired(records, Scope::All, d),
                seq![Op::ResolveDisk, Op::ByDisk(Role::Root), Op::ByDisk(Role::Boot)] + check_ops(
                    Role::Root,
                ) + check_ops(Role::Boot) + redhat_verify_ops(Medium::Partition),
            ),
        )
    }
}

/// A recent Red Hat or CentOS without LVM, of four partitions. The EFI partition
/// and the BIOS boot partition set aside, the root and the boot partition are
/// told apart as on a disk of two partitions.
pub open spec fn redhat_nolvm_plan(records: Seq<RecordView>, d: DistroView) -> Planned {
    if d.is_ade {
        redhat_nolvm_ade_plan(records, DistroView { is_lvm: false, ..d })
    } else {
        Ok(
            (
                DistroView {
                    is_lvm: false,
                    efi: efi_found(records, d),
                    ..paired(records, Scope::Plain, d)
                },
                seq![
                    Op::ByLun(Role::Efi),
                    Op::ResolveDisk,
                    Op::ByDisk(Role::Root),
                    Op::ByDisk(Role::Boot),
                ] + check_all_ops() + redhat_verify_ops(Medium::Partition),
            ),
        )
    }
}

/// The steps of an encrypted disk under LVM, after the volumes have been activated.
pub open spec fn after_scan(planned: Planned) -> Planned {
    match planned {
        Ok((d, ops)) => Ok((d, seq![Op::ScanVolumes] + ops)),
        Err(fatal) => Err(fatal),
    }
}

/// A recent Red Hat or CentOS under LVM. The volumes are activated first. The root
/// is the first partition under LVM, the boot partition the first that is neither
/// under LVM nor the EFI partition nor the BIOS boot partition; a disk that lacks
/// either fits no layout.
pub open spec fn redhat_lvm_plan(records: Seq<RecordView>, d: DistroView) -> Planned {
    if d.is_ade {
        after_scan(redhat_lvm_ade_plan(records, DistroView { is_lvm: true, ..d }))
    } else {
        match (
            first_accepted(records, Scope::All, LVM_MARK@),
            first_accepted(records, Scope::Unmanaged, ANY@),
        ) {
            (Some(root), Some(boot)) => Ok(
                (
                    DistroView {
                        is_lvm: true,
                        root: described(records[root], d.root),
                        efi: efi_found(records, d),
                        boot: described(records[boot], d.boot),
                        ..d
                    },
                    seq![
                        Op::ScanVolumes,
                        Op::ResolveDisk,
                        Op::ByDisk(Role::Root),
                        Op::ByLun(Role::Efi),
                        Op::ByDisk(Role::Boot),
                    ] + check_all_ops() + locate_ops() + redhat_verify_ops(Medium::Volume),
                ),
            ),
            _ => Err(Fatal::UnrecognizedLayout),
        }
    }
}

/// CentOS on a single partition: partition 1 is the root, and there is neither a
/// boot partition nor an EFI partition.
pub open spec fn centos_single_plan(d: DistroView) -> Planned {
    Ok(
        (
            DistroView { root: PartView { number: 1, ..d.root }, ..d },
            seq![Op::ResolveDisk, Op::ByDisk(Role::Root)] + check_ops(Role::Root)
                + redhat_verify_ops(Medium::Partition),
        ),
    )
}

/// Red Hat or CentOS of four partitions: under LVM where a partition carries the
/// token of LVM; a single partition where only one is left once the EFI partition
/// and the BIOS boot partition are set aside; a root and boot pair otherwise.
pub open spec fn redhat_lvm_or_plan(records: Seq<RecordView>, d: DistroView) -> Planned {
    if first_accepted(records, Scope::All, LVM_MARK@) is Some {
        redhat_lvm_plan(records, d)
    } else if count_within(records, Scope::Plain, records.len() as int) == 1 {
        centos_single_plan(d)
    } else {
        redhat_nolvm_plan(records, d)
    }
}

/// The device of a logical volume, from the line that lists it.
pub fn lvm_path_helper(line: &str) -> (path: String)
    ensures
        path@ == volume_path(line@),
{
    match cut(line, '\'', 1) {
        Some(path) => String::from_str(path),
        None => String::new(),
    }
}

/// The name by which a logical volume is looked up.
pub fn volume_name(volume: Volume) -> (name: &'static str)
    ensures
        name@ == match volume {
            Volume::Root => ROOT_VOLUME@,
            Volume::Usr => USR_VOLUME@,
            Volume::Var => VAR_VOLUME@,
        },
{
    match volume {
        Volume::Root => ROOT_VOLUME,
        Volume::Usr => USR_VOLUME,
        Volume::Var => VAR_VOLUME,
    }
}

/// The steps that look up the logical volumes.
pub fn locate_volumes() -> (ops: Vec<Op>)
    ensures
        ops@ == locate_ops(),
{
    let mut ops: Vec<Op> = Vec::new();
    ops.push(Op::Locate(Volume::Root));
    ops.push(Op::Locate(Volume::Usr));
    ops.push(Op::Locate(Volume::Var));
    assert(ops@ =~= locate_ops());
    ops
}

/// The steps that decide the version of a Red Hat whose root is mounted from
/// `medium`.
fn verify_redhat(medium: Medium) -> (ops: Vec<Op>)
    ensures
        ops@ == redhat_verify_ops(medium),
{
    let mut ops: Vec<Op> = Vec::new();
    ops.push(Op::Scratch);
    ops.push(Op::Attach(medium));
    ops.push(Op::ReadIdentity);
    ops.push(Op::ReadLegacy);
    ops.push(Op::DetachScratch);
    ops.push(Op::Discard);
    ops.push(Op::Settle(Verdict::RedHat));
    assert(ops@ =~= redhat_verify_ops(medium));
    ops
}

/// The steps that decide the version of a Red Hat without LVM.
pub fn verify_redhat_nolvm() -> (ops: Vec<Op>)
    ensures
        ops@ == redhat_verify_ops(Medium::Partition),
{
    verify_redhat(Medium::Partition)
}

/// The steps that decide the version of a Red Hat under LVM.
pub fn verify_redhat_lvm() -> (ops: Vec<Op>)
    ensures
        ops@ == redhat_verify_ops(Medium::Volume),
{
    verify_redhat(Medium::Volume)
}

/// Decides the version of a Red Hat or CentOS by the name of the mounted system
/// and, where it gave none, by its older release file.
pub fn set_redhat_kind(distro: &mut Distro, name: &str, legacy: &str) -> (set: Result<(), Fatal>)
    ensures
        match set {
            Ok(()) => redhat_kind(name@, legacy@) is Ok && final(distro)@ == (DistroView {
                kind: redhat_kind(name@, legacy@)->Ok_0,
                ..old(distro)@
            }),
            Err(fatal) => redhat_kind(name@, legacy@) == Err::<DistroKind, Fatal>(fatal)
                && final(distro)@ == old(distro)@,
        },
{
    if !name.is_empty() {
        if contains(name, VERSION_6) {
            distro.kind = DistroKind::RedHatCentOS6;
        } else {
            distro.kind = DistroKind::RedHatCentOS;
        }
        Ok(())
    } else if legacy.is_empty() {
        Err(Fatal::UndecidableIdentity)
    } else {
        if contains(legacy, CENTOS) || contains(legacy, RED_HAT) {
            distro.kind = DistroKind::RedHatCentOS6;
        } else {
            distro.kind = DistroKind::RedHatCentOS;
        }
        Ok(())
    }
}

/// Makes the first record that carries the token of an EFI partition the EFI
/// partition of the profile.
pub fn set_efi_found(partition_info: &Vec<PartitionRecord>, distro: &mut Distro)
    ensures
        final(distro)@ == (DistroView {
            efi: efi_found(views(partition_info@), old(distro)@),
            ..old(distro)@
        }),
{
    match find_first(partition_info, Scope::All, EFI_MARK) {
        Some(at) => {
            assert(views(partition_info@)[at as int] == partition_info@[at as int]@);
            set_efi_part_number_and_fs(distro, &partition_info[at]);
        },
        None => {},
    }
}

/// Sets the number of a partition that goes by custom, and its filesystem where
/// a record within the scope has that number.
fn customary(partition_info: &Vec<PartitionRecord>, scope: Scope, number: u8) -> (chosen: Option<
    usize,
>)
    ensures
        chosen matches Some(at) ==> at < partition_info@.len(),
        forall|part: PartView|
            numbered(views(partition_info@), scope, number, part) == (PartView {
                fs: match chosen {
                    Some(at) => partition_info@[at as int]@.filesystem,
                    None => part.fs,
                },
                number,
                ..part
            }),
{
    let chosen = find_number(partition_info, scope, number);
    proof {
        match chosen {
            Some(at) => {
                assert(views(partition_info@)[at as int] == partition_info@[at as int]@);
            },
            None => {},
        }
    }
    chosen
}

/// The records that are the root and the boot partition by their sizes, where
/// the sizes tell both.
pub fn find_pair(partition_info: &Vec<PartitionRecord>, scope: Scope) -> (found: Option<
    (usize, usize),
>)
    ensures
        match found {
            Some((root, boot)) => pair_by_size(views(partition_info@), scope) == Some(
                (root as int, boot as int),
            ) && root < partition_info@.len() && boot < partition_info@.len(),
            None => pair_by_size(views(partition_info@), scope) is None,
        },
{
    let root = match find_scaled(partition_info, scope, Scale::Large, None) {
        Some(at) => at,
        None => {
            return None;
        },
    };
    assert(views(partition_info@)[root as int] == partition_info@[root as int]@);
    match find_scaled(partition_info, scope, Scale::Small, Some(partition_info[root].number)) {
        Some(boot) => Some((root, boot)),
        None => None,
    }
}

/// Tells the root and the boot partition of a pair apart.
fn set_pair(partition_info: &Vec<PartitionRecord>, scope: Scope, distro: &mut Distro)
    ensures
        final(distro)@ == paired(views(partition_info@), scope, old(distro)@),
{
    let ghost records = views(partition_info@);
    match find_pair(partition_info, scope) {
        Some((root, boot)) => {
            assert(records[root as int] == partition_info@[root as int]@);
            assert(records[boot as int] == partition_info@[boot as int]@);
            distro.rescue_root.root_part_fs = partition_info[root].filesystem.clone();
            distro.rescue_root.root_part_number = partition_info[root].number;
            distro.boot_part.boot_part_fs = partition_info[boot].filesystem.clone();
            distro.boot_part.boot_part_number = partition_info[boot].number;
        },
        None => {
            match customary(partition_info, scope, CUSTOMARY_ROOT) {
                Some(at) => {
                    distro.rescue_root.root_part_fs = partition_info[at].filesystem.clone();
                },
                None => {},
            }
            distro.rescue_root.root_part_number = CUSTOMARY_ROOT;
            match customary(partition_info, scope, CUSTOMARY_BOOT) {
                Some(at) => {
                    distro.boot_part.boot_part_fs = partition_info[at].filesystem.clone();
                },
                None => {},
            }
            distro.boot_part.boot_part_number = CUSTOMARY_BOOT;
        },
    }
}

/// Red Hat or CentOS 6 or 7 without LVM, of two partitions.
pub fn do_redhat6_or_7(partition_info: &Vec<PartitionRecord>, distro: &mut Distro) -> (planned:
    Result<Vec<Op>, Fatal>)
    ensures
        delivers(
            planned,
            old(distro)@,
            final(distro)@,
            redhat6_or_7_plan(views(partition_info@), old(distro)@),
        ),
{
    if distro.is_ade {
        return do_redhat6_or_7_ade(distro);
    }
    set_pair(partition_info, Scope::All, distro);
    let mut ops: Vec<Op> = Vec::new();
    ops.push(Op::ResolveDisk);
    ops.push(Op::ByDisk(Role::Root));
    ops.push(Op::ByDisk(Role::Boot));
    then_ops(&mut ops, fsck_one(Role::Root));
    then_ops(&mut ops, fsck_one(Role::Boot));
    then_ops(&mut ops, verify_redhat_nolvm());
    assert(ops@ =~= redhat6_or_7_plan(views(partition_info@), old(distro)@)->Ok_0.1);
    Ok(ops)
}

/// A recent Red Hat or CentOS without LVM, of four partitions.
pub fn do_redhat_nolvm(partition_info: &Vec<PartitionRecord>, distro: &mut Distro) -> (planned:
    Result<Vec<Op>, Fatal>)
    ensures
        delivers(
            planned,
            old(distro)@,
            final(distro)@,
            redhat_nolvm_plan(views(partition_info@), old(distro)@),
        ),
{
    if distro.is_ade {
        distro.is_lvm = false;
        return do_redhat_nolvm_ade(partition_info, distro);
    }
    distro.is_lvm = false;
    set_efi_found(partition_info, distro);
    set_pair(partition_info, Scope::Plain, distro);
    let mut ops: Vec<Op> = Vec::new();
    ops.push(Op::ByLun(Role::Efi));
    ops.push(Op::ResolveDisk);
    ops.push(Op::ByDisk(Role::Root));
    ops.push(Op::ByDisk(Role::Boot));
    then_ops(&mut ops, fsck_partitions());
    then_ops(&mut ops, verify_redhat_nolvm());
    assert(ops@ =~= redhat_nolvm_plan(views(partition_info@), old(distro)@)->Ok_0.1);
    Ok(ops)
}

/// A recent Red Hat or CentOS under LVM.
pub fn do_redhat_lvm(partition_info: &Vec<PartitionRecord>, distro: &mut Distro) -> (planned:
    Result<Vec<Op>, Fatal>)
    ensures
        delivers(
            planned,
            old(distro)@,
            final(distro)@,
            redhat_lvm_plan(views(partition_info@), old(distro)@),
        ),
{
    let ghost records = views(partition_info@);
    if distro.is_ade {
        distro.is_lvm = true;
        let planned = do_redhat_lvm_ade(partition_info, distro);
        return match planned {
            Ok(rest) => {
                let mut ops: Vec<Op> = Vec::new();
                ops.push(Op::ScanVolumes);
                then_ops(&mut ops, rest);
                assert(ops@ =~= seq![Op::ScanVolumes] + rest@);
                Ok(ops)
            },
            Err(fatal) => Err(fatal),
        };
    }
    let root = match find_first(partition_info, Scope::All, LVM_MARK) {
        Some(at) => at,
        None => {
            return Err(Fatal::UnrecognizedLayout);
        },
    };
    let boot = match find_first(partition_info, Scope::Unmanaged, ANY) {
        Some(at) => at,
        None => {
            return Err(Fatal::UnrecognizedLayout);
        },
    };
    assert(records[root as int] == partition_info@[root as int]@);
    assert(records[boot as int] == partition_info@[boot as int]@);
    distro.is_lvm = true;
    distro.rescue_root.root_part_fs = partition_info[root].filesystem.clone();
    distro.rescue_root.root_part_number = partition_info[root].number;
    set_efi_found(partition_info, distro);
    distro.boot_part.boot_part_fs = partition_info[boot].filesystem.clone();
    distro.boot_part.boot_part_number = partition_info[boot].number;
    let mut ops: Vec<Op> = Vec::new();
    ops.push(Op::ScanVolumes);
    ops.push(Op::ResolveDisk);
    ops.push(Op::ByDisk(Role::Root));
    ops.push(Op::ByLun(Role::Efi));
    ops.push(Op::ByDisk(Role::Boot));
    then_ops(&mut ops, fsck_partitions());
    then_ops(&mut ops, locate_volumes());
    then_ops(&mut ops, verify_redhat_lvm());
    assert(ops@ =~= redhat_lvm_plan(records, old(distro)@)->Ok_0.1);
    Ok(ops)
}

/// CentOS on a single partition.
pub fn do_centos_single_partition(distro: &mut Distro) -> (planned: Result<Vec<Op>, Fatal>)
    ensures
        delivers(planned, old(distro)@, final(distro)@, centos_single_plan(old(distro)@)),
{
    distro.rescue_root.root_part_number = 1;
    let mut ops: Vec<Op> = Vec::new();
    ops.push(Op::ResolveDisk);
    ops.push(Op::ByDisk(Role::Root));
    then_ops(&mut ops, fsck_one(Role::Root));
    then_ops(&mut ops, verify_redhat_nolvm());
    assert(ops@ =~= centos_single_plan(old(distro)@)->Ok_0.1);
    Ok(ops)
}

/// Red Hat or CentOS of four partitions.
pub fn do_redhat_lvm_or(partition_info: &Vec<PartitionRecord>, distro: &mut Distro) -> (planned:
    Result<Vec<Op>, Fatal>)
    ensures
        delivers(
            planned,
            old(distro)@,
            final(distro)@,
            redhat_lvm_or_plan(views(partition_info@), old(distro)@),
        ),
{
    if find_first(partition_info, Scope::All, LVM_MARK).is_some() {
        do_redhat_lvm(partition_info, distro)
    } else if count_in_scope(partition_info, Scope::Plain) == 1 {
        do_centos_single_partition(distro)
    } else {
        do_redhat_nolvm(partition_info, distro)
    }
}

} // verus!
