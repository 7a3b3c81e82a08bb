//! The fixed places of the rescue environment.

use vstd::prelude::*;

verus! {

/// The link that names the disk under inspection.
pub const RESCUE_DISK: &'static str = "/dev/disk/azure/scsi1/lun0";

/// What a partition's number is appended to, to name the link of that partition.
pub const LUN_PART_PATH: &'static str = "/dev/disk/azure/scsi1/lun0-part";

/// The device through which an encrypted root is read once it has been unlocked.
pub const OSENCRYPT_PATH: &'static str = "/dev/mapper/osencrypt";

/// The scratch mountpoint at which a root is looked into.
pub const ASSERT_PATH: &'static str = "/tmp/assert";

/// The identity file of a root mounted at the scratch mountpoint.
pub const OS_RELEASE: &'static str = "/tmp/assert/etc/os-release";

/// The older release file of a root mounted at the scratch mountpoint.
pub const LEGACY_RELEASE: &'static str = "/tmp/assert/etc/redhat-release";

/// The identity file of a root that an unlock step has mounted beforehand.
pub const INVESTIGATE_RELEASE: &'static str = "/investigateroot/etc/os-release";

/// The rescue root and the places below it.
pub const RESCUE_ROOT: &'static str = "/mnt/rescue-root/";

pub const RESCUE_ROOT_BOOT: &'static str = "/mnt/rescue-root/boot";

pub const RESCUE_ROOT_BOOT_EFI: &'static str = "/mnt/rescue-root/boot/efi";

pub const RESCUE_ROOT_RUN: &'static str = "/mnt/rescue-root/run";

pub const RESCUE_ROOT_USR: &'static str = "/mnt/rescue-root/usr";

pub const RESCUE_ROOT_VAR: &'static str = "/mnt/rescue-root/var";

/// Where the repair scripts are found from inside the rescue root.
pub const ACTION_IMPL_DIR: &'static str = "/tmp/action_implementation";

} // verus!
