//! Ubuntu and Debian.

use crate::ade::{do_ubuntu_ade, ubuntu_ade_plan};
use crate::catalog::{
    find_first, first_accepted, views, PartitionRecord, RecordView, Scope, EFI_MARK,
};
use crate::distro::{Distro, DistroKind, DistroView};
use crate::helper::set_efi_part_number_and_fs;
use crate::plan::{
    check_ops, delivers, described, efi_described, fsck_one, then_ops, ubuntu_verify_ops, Medium,
    Op, Planned, Role, Verdict, ANY,
};
use crate::probe::Fatal;
use crate::text::{contains, mentions};
use vstd::prelude::*;

verus! {

pub const UBUNTU: &'static str = "Ubuntu";

pub const DEBIAN: &'static str = "Debian";

/// The kind that the name of a mounted system stands for: Debian where it says so,
/// else Ubuntu where it says so, else the kind as it was.
pub open spec fn ubuntu_kind(name: Seq<char>, kind: DistroKind) -> DistroKind {
    if mentions(name, DEBIAN@) {
        DistroKind::Debian
    } else if mentions(name, UBUNTU@) {
        DistroKind::Ubuntu
    } else {
        kind
    }
}

/// A recent Ubuntu or Debian, of three partitions. The root is the first partition
/// that is neither the EFI partition nor the BIOS boot partition; the EFI
/// partition is the first that carries its token. A disk that lacks either fits
/// no layout. An encrypted disk goes by the fixed layout that encryption leaves.
pub open spec fn ubuntu_plan(records: Seq<RecordView>, d: DistroView) -> Planned {
    if d.is_ade {
        ubuntu_ade_plan(records, d)
    } else {
        match (
            first_accepted(records, Scope::Plain, ANY@),
            first_accepted(records, Scope::All, EFI_MARK@),
        ) {
            (Some(root), Some(efi)) => Ok(
                (
                    DistroView {
                        root: described(records[root], d.root),
                        efi: Some(efi_described(records[efi])),
                        ..d
                    },
                    seq![Op::ResolveDisk, Op::ByDisk(Role::Root)] + check_ops(Role::Root) + seq![
                        Op::ByLun(Role::Efi),
                    ] + check_ops(Role::Efi) + ubuntu_verify_ops(),
                ),
            ),
            _ => Err(Fatal::UnrecognizedLayout),
        }
    }
}

/// The steps that decide between Ubuntu and Debian.
pub fn verify_ubuntu() -> (ops: Vec<Op>)
    ensures
        ops@ == ubuntu_verify_ops(),
{
    let mut ops: Vec<Op> = Vec::new();
    ops.push(Op::Scratch);
    ops.push(Op::Attach(Medium::Partition));
    ops.push(Op::ReadIdentity);
    ops.push(Op::DetachScratch);
    ops.push(Op::Discard);
    ops.push(Op::Settle(Verdict::Ubuntu));
    assert(ops@ =~= ubuntu_verify_ops());
    ops
}

/// Decides between Ubuntu and Debian by the name of the mounted system.
pub fn set_ubuntu_kind(distro: &mut Distro, name: &str)
    ensures
        final(distro)@ == (DistroView {
            kind: ubuntu_kind(name@, old(distro)@.kind),
            ..old(distro)@
        }),
{
    if contains(name, DEBIAN) {
        distro.kind = DistroKind::Debian;
    } else if contains(name, UBUNTU) {
        distro.kind = DistroKind::Ubuntu;
    }
}

/// A recent Ubuntu or Debian, of three partitions.
pub fn do_ubuntu(partition_info: &Vec<PartitionRecord>, distro: &mut Distro) -> (planned: Result<
    Vec<Op>,
    Fatal,
>)
    ensures
        delivers(
            planned,
            old(distro)@,
            final(distro)@,
            ubuntu_plan(views(partition_info@), old(distro)@),
        ),
{
    if distro.is_ade {
        return do_ubuntu_ade(partition_info, distro);
    }
    let root = match find_first(partition_info, Scope::Plain, ANY) {
        Some(at) => at,
        None => {
            return Err(Fatal::UnrecognizedLayout);
        },
    };
    let efi = match find_first(partition_info, Scope::All, EFI_MARK) {
        Some(at) => at,
        None => {
            return Err(Fatal::UnrecognizedLayout);
        },
    };
    assert(views(partition_info@)[root as int] == partition_info@[root as int]@);
    assert(views(partition_info@)[efi as int] == partition_info@[efi as int]@);
    distro.rescue_root.root_part_fs = partition_info[root].filesystem.clone();
    distro.rescue_root.root_part_number = partition_info[root].number;
    set_efi_part_number_and_fs(distro, &partition_info[efi]);
    let mut ops: Vec<Op> = Vec::new();
    ops.push(Op::ResolveDisk);
    ops.push(Op::ByDisk(Role::Root));
    then_ops(&mut ops, fsck_one(Role::Root));
    ops.push(Op::ByLun(Role::Efi));
    then_ops(&mut ops, fsck_one(Role::Efi));
    then_ops(&mut ops, verify_ubuntu());
    assert(ops@ =~= ubuntu_plan(views(partition_info@), old(distro)@)->Ok_0.1);
    Ok(ops)
}

} // verus!
