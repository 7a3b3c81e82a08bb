//! The mount plan of each distribution family, and the plan by which it is
//! released again.
//!
//! A mount plan lists the mounts in the order in which they are made. The release
//! plan lists the places to detach, in the opposite order: what was mounted last
//! is detached first, and the root last of all. Detaching is best effort: a place
//! that cannot be detached does not keep the others from being detached.

use crate::constants::{
    RESCUE_ROOT, RESCUE_ROOT_BOOT, RESCUE_ROOT_BOOT_EFI, RESCUE_ROOT_RUN, RESCUE_ROOT_USR,
    RESCUE_ROOT_VAR,
};
use crate::distro::{Distro, DistroKind, DistroView, EfiPartT};
use crate::helper::{get_efi_part_fs, get_efi_part_path};
use crate::mount::{
    bind_mount, bind_mount_in_place, binding, binding_in_place, device_mount, mount_boot_on_rescue_boot, mount_efi_on_rescue_efi,
    mount_option, mount_root_on_rescue_root, mount_usr_on_rescue_root_usr,
    mount_var_on_rescue_root_var, option_for,
};
use crate::probe::{mount_views, text_views, MountStep, MountView};
use crate::text::join;
use vstd::prelude::*;

verus! {

pub const SLASH: &'static str = "/";

/// The host directory that service managers keep their state in.
pub const RUN: &'static str = "/run";

pub const DEV: &'static str = "dev";

pub const PROC: &'static str = "proc";

pub const SYS: &'static str = "sys";

pub const TMP: &'static str = "tmp";

pub const DEV_PTS: &'static str = "dev/pts";

/// The host directories that are shown inside the rescue root, by the names they
/// have below `/`, in the order in which they are mounted.
pub open spec fn support_names() -> Seq<Seq<char>> {
    seq![DEV@, PROC@, SYS@, TMP@, DEV_PTS@]
}

/// Where a support filesystem is shown inside the rescue root.
pub open spec fn support_target(name: Seq<char>) -> Seq<char> {
    RESCUE_ROOT@ + name
}

/// The bind mount of one support filesystem. Its place inside the rescue root is
/// made when its turn comes: by then the root is mounted there.
pub open spec fn support_mount(name: Seq<char>) -> MountView {
    binding_in_place(SLASH@ + name + SLASH@, support_target(name))
}

/// The bind mounts of the support filesystems, in order.
pub open spec fn support_mounts() -> Seq<MountView> {
    Seq::new(support_names().len(), |i: int| support_mount(support_names()[i]))
}

/// The places of the support filesystems, last mounted first.
pub open spec fn support_releases() -> Seq<Seq<char>> {
    Seq::new(
        support_names().len(),
        |i: int| support_target(support_names()[support_names().len() - 1 - i]),
    )
}

/// The mount of the EFI partition where the disk has one.
pub open spec fn efi_mounts(d: DistroView) -> Seq<MountView> {
    match d.efi {
        Some(part) => seq![device_mount(part.path, RESCUE_ROOT_BOOT_EFI@, option_for(part.fs))],
        None => seq![],
    }
}

/// The place of the EFI partition where the disk has one.
pub open spec fn efi_releases(d: DistroView) -> Seq<Seq<char>> {
    match d.efi {
        Some(part) => seq![RESCUE_ROOT_BOOT_EFI@],
        None => seq![],
    }
}

/// The mount plan of Ubuntu and Debian: the root; the boot partition where the
/// disk is encrypted; the EFI partition where there is one; the support
/// filesystems; the host's `/run`.
pub open spec fn ubuntu_mounts(d: DistroView) -> Seq<MountView> {
    seq![device_mount(d.root.path, RESCUE_ROOT@, None)] + (if d.is_ade {
        seq![device_mount(d.boot.path, RESCUE_ROOT_BOOT@, None)]
    } else {
        seq![]
    }) + efi_mounts(d) + support_mounts() + seq![binding(RUN@, RESCUE_ROOT_RUN@)]
}

/// The release plan of Ubuntu and Debian.
pub open spec fn ubuntu_releases(d: DistroView) -> Seq<Seq<char>> {
    seq![RESCUE_ROOT_RUN@] + support_releases() + efi_releases(d) + (if d.is_ade {
        seq![RESCUE_ROOT_BOOT@]
    } else {
        seq![]
    }) + seq![RESCUE_ROOT@]
}

/// The mount plan of Red Hat and CentOS from version 7, and of Suse. Under LVM:
/// the root volume, the volumes for `/usr` and `/var` bound below it, the boot
/// partition, the EFI partition, the support filesystems. Without LVM: the root,
/// the boot partition, the EFI partition where there is one, the support
/// filesystems.
pub open spec fn redhat_mounts(d: DistroView) -> Seq<MountView> {
    if d.is_lvm {
        seq![
            device_mount(d.volumes.root, RESCUE_ROOT@, None),
            binding(d.volumes.usr, RESCUE_ROOT_USR@),
            binding(d.volumes.var, RESCUE_ROOT_VAR@),
            device_mount(d.boot.path, RESCUE_ROOT_BOOT@, option_for(d.boot.fs)),
            device_mount(d.efi_path(), RESCUE_ROOT_BOOT_EFI@, option_for(d.efi_fs())),
        ] + support_mounts()
    } else {
        seq![
            device_mount(d.root.path, RESCUE_ROOT@, option_for(d.root.fs)),
            device_mount(d.boot.path, RESCUE_ROOT_BOOT@, option_for(d.boot.fs)),
        ] + efi_mounts(d) + support_mounts()
    }
}

/// The release plan of Red Hat and CentOS from version 7, and of Suse.
pub open spec fn redhat_releases(d: DistroView) -> Seq<Seq<char>> {
    if d.is_lvm {
        support_releases() + seq![
            RESCUE_ROOT_BOOT_EFI@,
            RESCUE_ROOT_BOOT@,
            RESCUE_ROOT_VAR@,
            RESCUE_ROOT_USR@,
            RESCUE_ROOT@,
        ]
    } else {
        support_releases() + efi_releases(d) + seq![RESCUE_ROOT_BOOT@, RESCUE_ROOT@]
    }
}

/// The mount plan of Red Hat and CentOS 6: the root; the boot partition where the
/// disk has one; the support filesystems.
pub open spec fn redhat6_mounts(d: DistroView) -> Seq<MountView> {
    seq![device_mount(d.root.path, RESCUE_ROOT@, None)] + (if d.boot.number != 0 {
        seq![device_mount(d.boot.path, RESCUE_ROOT_BOOT@, None)]
    } else {
        seq![]
    }) + support_mounts()
}

/// The release plan of Red Hat and CentOS 6.
pub open spec fn redhat6_releases(d: DistroView) -> Seq<Seq<char>> {
    support_releases() + (if d.boot.number != 0 {
        seq![RESCUE_ROOT_BOOT@]
    } else {
        seq![]
    }) + seq![RESCUE_ROOT@]
}

/// The mount plan of a profile, by its kind. A profile of no kind has none.
pub open spec fn distro_mounts(d: DistroView) -> Seq<MountView> {
    match d.kind {
        DistroKind::Debian | DistroKind::Ubuntu => ubuntu_mounts(d),
        DistroKind::Suse => redhat_mounts(d),
        DistroKind::RedHatCentOS => redhat_mounts(d),
        DistroKind::RedHatCentOS6 => redhat6_mounts(d),
        DistroKind::Undefined => seq![],
    }
}

/// The release plan of a profile, by its kind.
pub open spec fn distro_releases(d: DistroView) -> Seq<Seq<char>> {
    match d.kind {
        DistroKind::Debian | DistroKind::Ubuntu => ubuntu_releases(d),
        DistroKind::Suse => redhat_releases(d),
        DistroKind::RedHatCentOS => redhat_releases(d),
        DistroKind::RedHatCentOS6 => redhat6_releases(d),
        DistroKind::Undefined => seq![],
    }
}

/// The places at which the mounts of a plan are made, in order.
pub open spec fn targets(plan: Seq<MountView>) -> Seq<Seq<char>> {
    Seq::new(plan.len(), |i: int| plan[i].target)
}

/// The names of the support filesystems, in the order in which they are mounted.
pub fn support_filesystems() -> (names: Vec<&'static str>)
    ensures
        names@.len() == support_names().len(),
        forall|i: int| 0 <= i < names@.len() ==> (#[trigger] names@[i])@ == support_names()[i],
{
    let mut names: Vec<&'static str> = Vec::new();
    names.push(DEV);
    names.push(PROC);
    names.push(SYS);
    names.push(TMP);
    names.push(DEV_PTS);
    names
}

/// The place of a support filesystem inside the rescue root.
pub fn support_directory(name: &str) -> (place: String)
    ensures
        place@ == support_target(name@),
{
    join(RESCUE_ROOT, name)
}

/// The bind mounts of the support filesystems, in order.
pub fn mount_support_filesystem() -> (plan: Vec<MountStep>)
    ensures
        mount_views(plan@) == support_mounts(),
{
    let names = support_filesystems();
    let mut plan: Vec<MountStep> = Vec::new();
    let mut i: usize = 0;
    while i < names.len()
        invariant
            i <= names.len(),
            names@.len() == support_names().len(),
            forall|k: int| 0 <= k < names@.len() ==> (#[trigger] names@[k])@ == support_names()[k],
            plan@.len() == i,
            forall|k: int| 0 <= k < i ==> (#[trigger] plan@[k])@ == support_mount(support_names()[k]),
        decreases names.len() - i,
    {
        let name: &str = names[i];
        let inner = join(SLASH, name);
        let source = join(inner.as_str(), SLASH);
        let place = support_directory(name);
        plan.push(bind_mount_in_place(source.as_str(), place.as_str()));
        i += 1;
    }
    assert(mount_views(plan@) =~= support_mounts());
    plan
}

/// The places of the support filesystems, last mounted first.
pub fn umount_support_filesystem() -> (places: Vec<String>)
    ensures
        text_views(places@) == support_releases(),
{
    let names = support_filesystems();
    let mut places: Vec<String> = Vec::new();
    let mut i: usize = names.len();
    while i > 0
        invariant
            i <= names.len(),
            names@.len() == support_names().len(),
            forall|k: int| 0 <= k < names@.len() ==> (#[trigger] names@[k])@ == support_names()[k],
            places@.len() == names.len() - i,
            forall|k: int|
                0 <= k < places@.len() ==> (#[trigger] places@[k])@ == support_target(
                    support_names()[names.len() - 1 - k],
                ),
        decreases i,
    {
        i -= 1;
        places.push(support_directory(names[i]));
    }
    assert(text_views(places@) =~= support_releases());
    places
}

/// Adds a mount to the end of a plan.
fn then_mount(plan: &mut Vec<MountStep>, step: MountStep)
    ensures
        mount_views(final(plan)@) == mount_views(old(plan)@).push(step@),
{
    plan.push(step);
    assert(mount_views(plan@) =~= mount_views(old(plan)@).push(step@));
}

/// Adds the mounts of another plan to the end of a plan.
fn then_mounts(plan: &mut Vec<MountStep>, more: Vec<MountStep>)
    ensures
        mount_views(final(plan)@) == mount_views(old(plan)@) + mount_views(more@),
{
    let mut more = more;
    let ghost added = more@;
    plan.append(&mut more);
    assert(mount_views(plan@) =~= mount_views(old(plan)@) + mount_views(added));
}

/// Adds a place to the end of a release plan.
fn then_release(places: &mut Vec<String>, place: &str)
    ensures
        text_views(final(places)@) == text_views(old(places)@).push(place@),
{
    places.push(String::from_str(place));
    assert(text_views(places@) =~= text_views(old(places)@).push(place@));
}

/// The mount of the EFI partition where the disk has one.
fn efi_steps(distro: &Distro) -> (plan: Vec<MountStep>)
    ensures
        mount_views(plan@) == efi_mounts(distro@),
{
    let mut plan: Vec<MountStep> = Vec::new();
    match &distro.efi_part {
        EfiPartT::EfiPart(part) => {
            then_mount(
                &mut plan,
                mount_efi_on_rescue_efi(
                    part.efi_part_path.as_str(),
                    mount_option(part.efi_part_fs.as_str()),
                ),
            );
        },
        EfiPartT::NoEFI => {},
    }
    assert(mount_views(plan@) =~= efi_mounts(distro@));
    plan
}

/// Whether the disk has an EFI partition.
fn has_efi(distro: &Distro) -> (present: bool)
    ensures
        present == (distro@.efi is Some),
{
    match &distro.efi_part {
        EfiPartT::EfiPart(_) => true,
        EfiPartT::NoEFI => false,
    }
}

/// The mount plan of Ubuntu and Debian.
pub fn ubuntu_mount(distro: &Distro) -> (plan: Vec<MountStep>)
    ensures
        mount_views(plan@) == ubuntu_mounts(distro@),
{
    let mut plan: Vec<MountStep> = Vec::new();
    then_mount(
        &mut plan,
        mount_root_on_rescue_root(distro.rescue_root.root_part_path.as_str(), None),
    );
    if distro.is_ade {
        then_mount(
            &mut plan,
            mount_boot_on_rescue_boot(distro.boot_part.boot_part_path.as_str(), None),
        );
    }
    then_mounts(&mut plan, efi_steps(distro));
    then_mounts(&mut plan, mount_support_filesystem());
    then_mount(&mut plan, bind_mount(RUN, RESCUE_ROOT_RUN));
    assert(mount_views(plan@) =~= ubuntu_mounts(distro@));
    plan
}

/// The release plan of Ubuntu and Debian.
pub fn ubuntu_umount(distro: &Distro) -> (places: Vec<String>)
    ensures
        text_views(places@) == ubuntu_releases(distro@),
{
    let mut places: Vec<String> = Vec::new();
    then_release(&mut places, RESCUE_ROOT_RUN);
    let mut support = umount_support_filesystem();
    let ghost before = places@;
    let ghost added = support@;
    places.append(&mut support);
    assert(text_views(places@) =~= text_views(before) + text_views(added));
    if has_efi(distro) {
        then_release(&mut places, RESCUE_ROOT_BOOT_EFI);
    }
    if distro.is_ade {
        then_release(&mut places, RESCUE_ROOT_BOOT);
    }
    then_release(&mut places, RESCUE_ROOT);
    assert(text_views(places@) =~= ubuntu_releases(distro@));
    places
}

/// The mount plan of Red Hat and CentOS from version 7.
pub fn redhat_mount(distro: &Distro) -> (plan: Vec<MountStep>)
    ensures
        mount_views(plan@) == redhat_mounts(distro@),
{
    let mut plan: Vec<MountStep> = Vec::new();
    if distro.is_lvm {
        then_mount(
            &mut plan,
            mount_root_on_rescue_root(distro.lvm_details.lvm_root_part.as_str(), None),
        );
        then_mount(
            &mut plan,
            mount_usr_on_rescue_root_usr(distro.lvm_details.lvm_usr_part.as_str()),
        );
        then_mount(
            &mut plan,
            mount_var_on_rescue_root_var(distro.lvm_details.lvm_var_part.as_str()),
        );
        then_mount(
            &mut plan,
            mount_boot_on_rescue_boot(
                distro.boot_part.boot_part_path.as_str(),
                mount_option(distro.boot_part.boot_part_fs.as_str()),
            ),
        );
        let efi_path = get_efi_part_path(distro);
        let efi_fs = get_efi_part_fs(distro);
        then_mount(
            &mut plan,
            mount_efi_on_rescue_efi(efi_path.as_str(), mount_option(efi_fs.as_str())),
        );
        then_mounts(&mut plan, mount_support_filesystem());
    } else {
        then_mount(
            &mut plan,
            mount_root_on_rescue_root(
                distro.rescue_root.root_part_path.as_str(),
                mount_option(distro.rescue_root.root_part_fs.as_str()),
            ),
        );
        then_mount(
            &mut plan,
            mount_boot_on_rescue_boot(
                distro.boot_part.boot_part_path.as_str(),
                mount_option(distro.boot_part.boot_part_fs.as_str()),
            ),
        );
        then_mounts(&mut plan, efi_steps(distro));
        then_mounts(&mut plan, mount_support_filesystem());
    }
    assert(mount_views(plan@) =~= redhat_mounts(distro@));
    plan
}

/// The release plan of Red Hat and CentOS from version 7.
pub fn redhat_umount(distro: &Distro) -> (places: Vec<String>)
    ensures
        text_views(places@) == redhat_releases(distro@),
{
    let mut places = umount_support_filesystem();
    if distro.is_lvm {
        then_release(&mut places, RESCUE_ROOT_BOOT_EFI);
        then_release(&mut places, RESCUE_ROOT_BOOT);
        then_release(&mut places, RESCUE_ROOT_VAR);
        then_release(&mut places, RESCUE_ROOT_USR);
        then_release(&mut places, RESCUE_ROOT);
    } else {
        if has_efi(distro) {
            then_release(&mut places, RESCUE_ROOT_BOOT_EFI);
        }
        then_release(&mut places, RESCUE_ROOT_BOOT);
        then_release(&mut places, RESCUE_ROOT);
    }
    assert(text_views(places@) =~= redhat_releases(distro@));
    places
}

/// The mount plan of Suse: that of Red Hat.
pub fn suse_mount(distro: &Distro) -> (plan: Vec<MountStep>)
    ensures
        mount_views(plan@) == redhat_mounts(distro@),
{
    redhat_mount(distro)
}

/// The release plan of Suse: that of Red Hat.
pub fn suse_umount(distro: &Distro) -> (places: Vec<String>)
    ensures
        text_views(places@) == redhat_releases(distro@),
{
    redhat_umount(distro)
}

/// The mount plan of Red Hat and CentOS 6.
pub fn redhat6_mount(distro: &Distro) -> (plan: Vec<MountStep>)
    ensures
        mount_views(plan@) == redhat6_mounts(distro@),
{
    let mut plan: Vec<MountStep> = Vec::new();
    then_mount(
        &mut plan,
        mount_root_on_rescue_root(distro.rescue_root.root_part_path.as_str(), None),
    );
    if distro.boot_part.boot_part_number != 0 {
        then_mount(
            &mut plan,
            mount_boot_on_rescue_boot(distro.boot_part.boot_part_path.as_str(), None),
        );
    }
    then_mounts(&mut plan, mount_support_filesystem());
    assert(mount_views(plan@) =~= redhat6_mounts(distro@));
    plan
}

/// The release plan of Red Hat and CentOS 6.
pub fn redhat6_umount(distro: &Distro) -> (places: Vec<String>)
    ensures
        text_views(places@) == redhat6_releases(distro@),
{
    let mut places = umount_support_filesystem();
    if distro.boot_part.boot_part_number != 0 {
        then_release(&mut places, RESCUE_ROOT_BOOT);
    }
    then_release(&mut places, RESCUE_ROOT);
    assert(text_views(places@) =~= redhat6_releases(distro@));
    places
}

/// The mount plan of a profile: the mounts to make, in order.
pub fn distro_mount(distro: &Distro) -> (plan: Vec<MountStep>)
    ensures
        mount_views(plan@) == distro_mounts(distro@),
{
    match distro.kind {
        DistroKind::Debian | DistroKind::Ubuntu => ubuntu_mount(distro),
        DistroKind::Suse => suse_mount(distro),
        DistroKind::RedHatCentOS => redhat_mount(distro),
        DistroKind::RedHatCentOS6 => redhat6_mount(distro),
        DistroKind::Undefined => {
            let plan: Vec<MountStep> = Vec::new();
            assert(mount_views(plan@) =~= distro_mounts(distro@));
            plan
        },
    }
}

/// The release plan of a profile: the places to detach, in order.
pub fn distro_umount(distro: &Distro) -> (places: Vec<String>)
    ensures
        text_views(places@) == distro_releases(distro@),
{
    match distro.kind {
        DistroKind::Debian | DistroKind::Ubuntu => ubuntu_umount(distro),
        DistroKind::Suse => suse_umount(distro),
        DistroKind::RedHatCentOS => redhat_umount(distro),
        DistroKind::RedHatCentOS6 => redhat6_umount(distro),
        DistroKind::Undefined => {
            let places: Vec<String> = Vec::new();
            assert(text_views(places@) =~= distro_releases(distro@));
            places
        },
    }
}

/// The support filesystems are released in the opposite order of their mounts.
pub proof fn lemma_support_reversed()
    ensures
        support_releases() == targets(support_mounts()).reverse(),
{
    assert(support_releases() =~= targets(support_mounts()).reverse());
}

/// A profile is released in exactly the opposite order of its mounts: the release
/// plan holds the place of each mount of the mount plan, last mounted first.
pub proof fn law_release_reverses_mount(d: DistroView)
    ensures
        distro_releases(d) == targets(distro_mounts(d)).reverse(),
{
    lemma_support_reversed();
    assert(support_mounts().len() == 5);
    assert(support_releases().len() == 5);
    assert(distro_releases(d) =~= targets(distro_mounts(d)).reverse());
}

} // verus!
