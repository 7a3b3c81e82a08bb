//! Suse.

use crate::ade::fsck_partitions;
use crate::catalog::{find_scaled, views, PartitionRecord, RecordView, Scale, Scope};
use crate::distro::{Distro, DistroKind, DistroView};
use crate::plan::{
    boot_by_size, check_all_ops, delivers, described, root_by_size, then_ops, Op, Planned, Role,
};
use crate::probe::Fatal;
use crate::redhat::{efi_found, set_efi_found};
use vstd::prelude::*;

verus! {

/// The label that tells a Suse disk from the others of four partitions.
pub const SUSE_MARK: &'static str = "lxboot";

/// The step that gives the boot partition its device, where the disk has one.
pub open spec fn boot_by_disk(boot: Option<int>) -> Seq<Op> {
    if boot is Some {
        seq![Op::ByDisk(Role::Boot)]
    } else {
        seq![]
    }
}

/// Suse. The kind is settled by the label alone. The EFI partition and the BIOS
/// boot partition set aside, the root is the partition of a size in GiB, and the
/// boot partition another one of a size in MiB, if there is one. A disk on which
/// no partition is the root by its size fits no layout, and neither does an
/// encrypted Suse, of which nothing is known.
pub open spec fn suse_plan(records: Seq<RecordView>, d: DistroView) -> Planned {
    if d.is_ade {
        Err(Fatal::UnrecognizedLayout)
    } else {
        match root_by_size(records, Scope::Plain) {
            Some(root) => {
                let boot = boot_by_size(records, Scope::Plain, root);
                Ok(
                    (
                        DistroView {
                            kind: DistroKind::Suse,
                            efi: efi_found(records, d),
                            root: described(records[root], d.root),
                            boot: match boot {
                                Some(at) => described(records[at], d.boot),
                                None => d.boot,
                            },
                            ..d
                        },
                        seq![Op::ByLun(Role::Efi), Op::ResolveDisk, Op::ByDisk(Role::Root)]
                            + boot_by_disk(boot) + check_all_ops(),
                    ),
                )
            },
            None => Err(Fatal::UnrecognizedLayout),
        }
    }
}

/// Suse.
pub fn do_suse(partition_info: &Vec<PartitionRecord>, distro: &mut Distro) -> (planned: Result<
    Vec<Op>,
    Fatal,
>)
    ensures
        delivers(
            planned,
            old(distro)@,
            final(distro)@,
            suse_plan(views(partition_info@), old(distro)@),
        ),
{
    let ghost records = views(partition_info@);
    if distro.is_ade {
        return Err(Fatal::UnrecognizedLayout);
    }
    let root = match find_scaled(partition_info, Scope::Plain, Scale::Large, None) {
        Some(at) => at,
        None => {
            return Err(Fatal::UnrecognizedLayout);
        },
    };
    assert(records[root as int] == partition_info@[root as int]@);
    let boot = find_scaled(
        partition_info,
        Scope::Plain,
        Scale::Small,
        Some(partition_info[root].number),
    );
    distro.kind = DistroKind::Suse;
    set_efi_found(partition_info, distro);
    distro.rescue_root.root_part_fs = partition_info[root].filesystem.clone();
    distro.rescue_root.root_part_number = partition_info[root].number;
    let mut ops: Vec<Op> = Vec::new();
    ops.push(Op::ByLun(Role::Efi));
    ops.push(Op::ResolveDisk);
    ops.push(Op::ByDisk(Role::Root));
    match boot {
        Some(at) => {
            assert(records[at as int] == partition_info@[at as int]@);
            distro.boot_part.boot_part_fs = partition_info[at].filesystem.clone();
            distro.boot_part.boot_part_number = partition_info[at].number;
            ops.push(Op::ByDisk(Role::Boot));
        },
        None => {},
    }
    then_ops(&mut ops, fsck_partitions());
    assert(ops@ =~= suse_plan(records, old(distro)@)->Ok_0.1);
    Ok(ops)
}

} // verus!
