//! The profile of a distribution: what classification finds out about the disk,
//! and what mounting and releasing go by.

use vstd::prelude::*;

verus! {

/// The distribution family of the disk. `Undefined` until classification has settled it.
#[derive(Debug, Clone, Copy, PartialEq, Eq, Structural)]
pub enum DistroKind {
    Debian,
    Suse,
    RedHatCentOS,
    RedHatCentOS6,
    Ubuntu,
    Undefined,
}

impl Default for DistroKind {
    fn default() -> (kind: Self)
        ensures
            kind == DistroKind::Undefined,
    {
        DistroKind::Undefined
    }
}

/// A partition as the contracts see it: its filesystem, its number and the device
/// path it was resolved to.
pub struct PartView {
    pub fs: Seq<char>,
    pub number: u8,
    pub path: Seq<char>,
}

impl PartView {
    /// A partition of which nothing is known yet.
    pub open spec fn blank() -> PartView {
        PartView { fs: Seq::empty(), number: 0, path: Seq::empty() }
    }
}

/// The boot partition. Number 0 stands for "there is none".
#[derive(Debug, Clone, PartialEq, Eq)]
pub struct BootPartDetails {
    pub boot_part_fs: String,
    pub boot_part_number: u8,
    pub boot_part_path: String,
}

impl View for BootPartDetails {
    type V = PartView;

    open spec fn view(&self) -> PartView {
        PartView {
            fs: self.boot_part_fs@,
            number: self.boot_part_number,
            path: self.boot_part_path@,
        }
    }
}

impl BootPartDetails {
    pub fn new() -> (part: Self)
        ensures
            part@ == PartView::blank(),
    {
        Self { boot_part_fs: String::new(), boot_part_path: String::new(), boot_part_number: 0 }
    }
}

/// The root partition.
#[derive(Debug, Clone, PartialEq, Eq)]
pub struct RootPartDetails {
    pub root_part_fs: String,
    pub root_part_number: u8,
    pub root_part_path: String,
}

impl View for RootPartDetails {
    type V = PartView;

    open spec fn view(&self) -> PartView {
        PartView {
            fs: self.root_part_fs@,
            number: self.root_part_number,
            path: self.root_part_path@,
        }
    }
}

impl RootPartDetails {
    pub fn new() -> (part: Self)
        ensures
            part@ == PartView::blank(),
    {
        Self { root_part_fs: String::new(), root_part_path: String::new(), root_part_number: 0 }
    }
}

/// The logical volumes of a disk under LVM, as the contracts see them.
pub struct VolumesView {
    pub root: Seq<char>,
    pub usr: Seq<char>,
    pub var: Seq<char>,
}

/// The device paths of the logical volumes that hold `/`, `/usr` and `/var`.
#[derive(Debug, Clone, PartialEq, Eq)]
pub struct LVMDetails {
    pub lvm_root_part: String,
    pub lvm_usr_part: String,
    pub lvm_var_part: String,
}

impl View for LVMDetails {
    type V = VolumesView;

    open spec fn view(&self) -> VolumesView {
        VolumesView { root: self.lvm_root_part@, usr: self.lvm_usr_part@, var: self.lvm_var_part@ }
    }
}

impl LVMDetails {
    pub fn new() -> (volumes: Self)
        ensures
            volumes@ == (VolumesView { root: Seq::empty(), usr: Seq::empty(), var: Seq::empty() }),
    {
        Self {
            lvm_root_part: String::new(),
            lvm_usr_part: String::new(),
            lvm_var_part: String::new(),
        }
    }
}

/// An EFI system partition.
#[derive(Debug, Clone, PartialEq, Eq)]
pub struct EfiPartition {
    pub efi_part_number: u8,
    pub efi_part_fs: String,
    pub efi_part_path: String,
}

impl View for EfiPartition {
    type V = PartView;

    open spec fn view(&self) -> PartView {
        PartView { fs: self.efi_part_fs@, number: self.efi_part_number, path: self.efi_part_path@ }
    }
}

impl EfiPartition {
    pub fn new() -> (part: Self)
        ensures
            part@ == PartView::blank(),
    {
        Self { efi_part_fs: String::new(), efi_part_path: String::new(), efi_part_number: 0 }
    }
}

/// Whether the disk has an EFI system partition. A disk without one (`NoEFI`) is
/// not the same as a disk with one of which nothing is known yet.
#[derive(Debug, Clone, PartialEq, Eq)]
pub enum EfiPartT {
    EfiPart(EfiPartition),
    NoEFI,
}

impl View for EfiPartT {
    type V = Option<PartView>;

    open spec fn view(&self) -> Option<PartView> {
        match self {
            EfiPartT::EfiPart(part) => Some(part@),
            EfiPartT::NoEFI => None,
        }
    }
}

impl EfiPartT {
    /// An EFI partition of which nothing is known yet.
    pub fn new() -> (efi: EfiPartT)
        ensures
            efi@ == Some(PartView::blank()),
    {
        EfiPartT::EfiPart(EfiPartition::new())
    }
}

impl Default for EfiPartT {
    fn default() -> (efi: Self)
        ensures
            efi@ is None,
    {
        EfiPartT::NoEFI
    }
}

/// A profile as the contracts see it.
pub struct DistroView {
    pub boot: PartView,
    pub root: PartView,
    pub efi: Option<PartView>,
    pub is_lvm: bool,
    pub is_ade: bool,
    pub volumes: VolumesView,
    pub kind: DistroKind,
}

impl DistroView {
    /// The profile before classification: nothing known, no EFI partition.
    pub open spec fn blank() -> DistroView {
        DistroView {
            boot: PartView::blank(),
            root: PartView::blank(),
            efi: None,
            is_lvm: false,
            is_ade: false,
            volumes: VolumesView { root: Seq::empty(), usr: Seq::empty(), var: Seq::empty() },
            kind: DistroKind::Undefined,
        }
    }

    /// The filesystem of the EFI partition; empty where there is none.
    pub open spec fn efi_fs(self) -> Seq<char> {
        match self.efi {
            Some(part) => part.fs,
            None => Seq::empty(),
        }
    }

    /// The device path of the EFI partition; empty where there is none.
    pub open spec fn efi_path(self) -> Seq<char> {
        match self.efi {
            Some(part) => part.path,
            None => Seq::empty(),
        }
    }

    /// The number of the EFI partition; 0 where there is none.
    pub open spec fn efi_number(self) -> u8 {
        match self.efi {
            Some(part) => part.number,
            None => 0,
        }
    }
}

/// The profile of the disk under inspection.
#[derive(Debug, Clone, PartialEq, Eq)]
pub struct Distro {
    pub boot_part: BootPartDetails,
    pub rescue_root: RootPartDetails,
    pub efi_part: EfiPartT,
    pub is_lvm: bool,
    pub is_ade: bool,
    pub lvm_details: LVMDetails,
    pub kind: DistroKind,
}

impl View for Distro {
    type V = DistroView;

    open spec fn view(&self) -> DistroView {
        DistroView {
            boot: self.boot_part@,
            root: self.rescue_root@,
            efi: self.efi_part@,
            is_lvm: self.is_lvm,
            is_ade: self.is_ade,
            volumes: self.lvm_details@,
            kind: self.kind,
        }
    }
}

impl Distro {
    /// The profile before classification.
    pub fn new() -> (distro: Distro)
        ensures
            distro@ == DistroView::blank(),
    {
        Distro {
            boot_part: BootPartDetails::new(),
            rescue_root: RootPartDetails::new(),
            efi_part: EfiPartT::NoEFI,
            is_lvm: false,
            is_ade: false,
            lvm_details: LVMDetails::new(),
            kind: DistroKind::Undefined,
        }
    }
}

} // verus!
