//! The single mounts that the plans are made of.

use crate::constants::{
    ASSERT_PATH, RESCUE_ROOT, RESCUE_ROOT_BOOT, RESCUE_ROOT_BOOT_EFI, RESCUE_ROOT_USR,
    RESCUE_ROOT_VAR,
};
use crate::fsck::XFS;
use crate::probe::{MountStep, MountView};
use crate::text::same;
use vstd::prelude::*;

verus! {

/// The option that lets an XFS filesystem be mounted beside another one with the
/// same identifier.
pub const NOUUID: &'static str = "nouuid";

/// The option with which a filesystem of the given type is mounted: `nouuid` for
/// XFS, none for every other type.
pub open spec fn option_for(filesystem: Seq<char>) -> Option<Seq<char>> {
    if filesystem == XFS@ {
        Some(NOUUID@)
    } else {
        None
    }
}

/// An option as the contracts see it.
pub open spec fn option_view(option: Option<&str>) -> Option<Seq<char>> {
    match option {
        Some(o) => Some(o@),
        None => None,
    }
}

/// The mount of a device at a place, with an option or without one.
pub open spec fn device_mount(source: Seq<char>, target: Seq<char>, option: Option<Seq<char>>)
    -> MountView {
    MountView { source, target, option, bind: false, create_target: false }
}

/// The mount of a device at the scratch mountpoint.
pub open spec fn scratch_mount(source: Seq<char>) -> MountView {
    MountView { source, target: ASSERT_PATH@, option: None, bind: false, create_target: false }
}

/// The mount that shows the directory `source` at `target`, a place that is there.
pub open spec fn binding(source: Seq<char>, target: Seq<char>) -> MountView {
    MountView { source, target, option: None, bind: true, create_target: false }
}

/// The mount that shows the directory `source` at `target`, a place that is made
/// for it first.
pub open spec fn binding_in_place(source: Seq<char>, target: Seq<char>) -> MountView {
    MountView { source, target, option: None, bind: true, create_target: true }
}

/// The option with which a filesystem of the given type is mounted.
pub fn mount_option(filesystem: &str) -> (option: Option<&'static str>)
    ensures
        option_view(option) == option_for(filesystem@),
{
    if same(filesystem, XFS) {
        Some(NOUUID)
    } else {
        None
    }
}

/// The mount of a device at a place.
pub fn mount(source: &str, destination: &str, option: Option<&str>) -> (step: MountStep)
    ensures
        step@ == device_mount(source@, destination@, option_view(option)),
{
    MountStep {
        source: String::from_str(source),
        target: String::from_str(destination),
        option: match option {
            Some(o) => Some(String::from_str(o)),
            None => None,
        },
        bind: false,
        create_target: false,
    }
}

/// The mount that shows the directory `source` at `destination`.
pub fn bind_mount(source: &str, destination: &str) -> (step: MountStep)
    ensures
        step@ == binding(source@, destination@),
{
    MountStep {
        source: String::from_str(source),
        target: String::from_str(destination),
        option: None,
        bind: true,
        create_target: false,
    }
}

/// The mount that shows the directory `source` at `destination`, a place that is
/// made for it first.
pub fn bind_mount_in_place(source: &str, destination: &str) -> (step: MountStep)
    ensures
        step@ == binding_in_place(source@, destination@),
{
    MountStep {
        source: String::from_str(source),
        target: String::from_str(destination),
        option: None,
        bind: true,
        create_target: true,
    }
}

/// The mount of the root at the rescue root.
pub fn mount_root_on_rescue_root(root_source: &str, option: Option<&str>) -> (step: MountStep)
    ensures
        step@ == device_mount(root_source@, RESCUE_ROOT@, option_view(option)),
{
    mount(root_source, RESCUE_ROOT, option)
}

/// The mount of the boot partition below the rescue root.
pub fn mount_boot_on_rescue_boot(boot_source: &str, option: Option<&str>) -> (step: MountStep)
    ensures
        step@ == device_mount(boot_source@, RESCUE_ROOT_BOOT@, option_view(option)),
{
    mount(boot_source, RESCUE_ROOT_BOOT, option)
}

/// The mount of the EFI system partition below the rescue root.
pub fn mount_efi_on_rescue_efi(efi_source: &str, option: Option<&str>) -> (step: MountStep)
    ensures
        step@ == device_mount(efi_source@, RESCUE_ROOT_BOOT_EFI@, option_view(option)),
{
    mount(efi_source, RESCUE_ROOT_BOOT_EFI, option)
}

/// The bind mount of the logical volume for `/usr` below the rescue root.
pub fn mount_usr_on_rescue_root_usr(usr_source: &str) -> (step: MountStep)
    ensures
        step@ == binding(usr_source@, RESCUE_ROOT_USR@),
{
    bind_mount(usr_source, RESCUE_ROOT_USR)
}

/// The bind mount of the logical volume for `/var` below the rescue root.
pub fn mount_var_on_rescue_root_var(var_source: &str) -> (step: MountStep)
    ensures
        step@ == binding(var_source@, RESCUE_ROOT_VAR@),
{
    bind_mount(var_source, RESCUE_ROOT_VAR)
}

/// The mount of `source` at the scratch mountpoint.
pub fn mount_path_assert(source: &str) -> (step: MountStep)
    ensures
        step@ == scratch_mount(source@),
{
    mount(source, ASSERT_PATH, None)
}

} // verus!
