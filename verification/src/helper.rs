//! Reading and setting the EFI partition of a profile, and reading the name of a
//! system out of its identity line.

use crate::catalog::{PartitionRecord, RecordView};
use crate::distro::{Distro, DistroView, EfiPartT, EfiPartition, PartView};
use crate::text::{cut, field};
use vstd::prelude::*;

verus! {

/// The name in an identity line: what stands between the first `=` and the next
/// one. Nothing where the line has no `=`.
pub open spec fn pretty_name(line: Seq<char>) -> Seq<char> {
    match field(line, '=', 1) {
        Some(name) => name,
        None => Seq::empty(),
    }
}

/// The name in an identity line such as `PRETTY_NAME="Ubuntu 18.04 LTS"`.
pub fn get_pretty_name(line: &str) -> (name: String)
    ensures
        name@ == pretty_name(line@),
{
    match cut(line, '=', 1) {
        Some(name) => String::from_str(name),
        None => String::new(),
    }
}

/// The device path of the EFI partition; empty where the disk has none.
pub fn get_efi_part_path(distro: &Distro) -> (path: String)
    ensures
        path@ == distro@.efi_path(),
{
    match &distro.efi_part {
        EfiPartT::EfiPart(part) => part.efi_part_path.clone(),
        EfiPartT::NoEFI => String::new(),
    }
}

/// The filesystem of the EFI partition; empty where the disk has none.
pub fn get_efi_part_fs(distro: &Distro) -> (filesystem: String)
    ensures
        filesystem@ == distro@.efi_fs(),
{
    match &distro.efi_part {
        EfiPartT::EfiPart(part) => part.efi_part_fs.clone(),
        EfiPartT::NoEFI => String::new(),
    }
}

/// The number of the EFI partition; 0 where the disk has none.
pub fn get_efi_part_number(distro: &Distro) -> (number: u8)
    ensures
        number == distro@.efi_number(),
{
    match &distro.efi_part {
        EfiPartT::EfiPart(part) => part.efi_part_number,
        EfiPartT::NoEFI => 0,
    }
}

/// The profile with the given record as its EFI partition, not yet resolved.
pub open spec fn with_efi(distro: DistroView, record: RecordView) -> DistroView {
    DistroView {
        efi: Some(PartView { fs: record.filesystem, number: record.number, path: Seq::empty() }),
        ..distro
    }
}

/// The profile with its EFI partition resolved to `path`; unchanged where the disk
/// has no EFI partition.
pub open spec fn with_efi_path(distro: DistroView, path: Seq<char>) -> DistroView {
    match distro.efi {
        Some(part) => DistroView { efi: Some(PartView { path, ..part }), ..distro },
        None => distro,
    }
}

/// Makes the given partition the EFI partition of the profile: its number and its
/// filesystem are taken over, its device path is yet to be resolved.
pub fn set_efi_part_number_and_fs(distro: &mut Distro, partition: &PartitionRecord)
    ensures
        final(distro)@ == with_efi(old(distro)@, partition@),
{
    distro.efi_part = EfiPartT::EfiPart(
        EfiPartition {
            efi_part_number: partition.number,
            efi_part_fs: partition.filesystem.clone(),
            efi_part_path: String::new(),
        },
    );
}

/// Sets the device path that the EFI partition was resolved to. Has to follow
/// `set_efi_part_number_and_fs`: a profile without an EFI partition stays as it is.
pub fn set_efi_part_path(distro: &mut Distro, path: String)
    ensures
        final(distro)@ == with_efi_path(old(distro)@, path@),
{
    let number = get_efi_part_number(distro);
    let filesystem = get_efi_part_fs(distro);
    let present = match &distro.efi_part {
        EfiPartT::EfiPart(_) => true,
        EfiPartT::NoEFI => false,
    };
    if present {
        distro.efi_part = EfiPartT::EfiPart(
            EfiPartition { efi_part_number: number, efi_part_fs: filesystem, efi_part_path: path },
        );
    }
}

} // verus!
