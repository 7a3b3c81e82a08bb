use alar2::ade::{
    do_redhat6_or_7_ade, do_redhat_lvm_ade, do_redhat_nolvm_ade, do_ubuntu_ade, fsck_partitions,
    investigation_mount, set_root_part_fs, umount_investigations, umount_investigations_lvm,
};
use alar2::catalog::{parse_catalog, PartitionRecord, Scope};
use alar2::classify::{
    dispatch, do_investigated, do_old_ubuntu_or_centos, do_recent_ubuntu, do_red_hat,
    do_suse_or_lvm_or_ubuntu, set_single_kind,
};
use alar2::distro::{
    BootPartDetails, Distro, DistroKind, EfiPartT, EfiPartition, LVMDetails, RootPartDetails,
};
use alar2::helper::{
    get_efi_part_fs, get_efi_part_number, get_efi_part_path, get_pretty_name,
    set_efi_part_number_and_fs, set_efi_part_path,
};
use alar2::plan::{fsck_one, then_ops, Medium, Op, Role, Verdict, Volume};
use alar2::probe::Fatal;
use alar2::redhat::{
    do_centos_single_partition, do_redhat6_or_7, do_redhat_lvm, do_redhat_lvm_or, do_redhat_nolvm,
    find_pair, locate_volumes, lvm_path_helper, set_efi_found, set_redhat_kind, verify_redhat_lvm,
    verify_redhat_nolvm, volume_name,
};
use alar2::suse::do_suse;
use alar2::ubuntu::{do_ubuntu, set_ubuntu_kind, verify_ubuntu};

fn catalog_of(raw: &[&str]) -> Vec<PartitionRecord> {
    let lines: Vec<String> = raw.iter().map(|l| l.to_string()).collect();
    parse_catalog(&lines).unwrap()
}

fn checks(role: Role) -> Vec<Op> {
    vec![Op::Check(role, 0), Op::Check(role, 1), Op::Check(role, 2), Op::Check(role, 3)]
}

fn all_checks() -> Vec<Op> {
    let mut ops = checks(Role::Root);
    ops.extend(checks(Role::Boot));
    ops.extend(checks(Role::Efi));
    ops
}

fn releases() -> Vec<Op> {
    vec![Op::Release(Role::Efi), Op::Release(Role::Boot), Op::Release(Role::Root)]
}

fn redhat_verify(medium: Medium) -> Vec<Op> {
    vec![
        Op::Scratch,
        Op::Attach(medium),
        Op::ReadIdentity,
        Op::ReadLegacy,
        Op::DetachScratch,
        Op::Discard,
        Op::Settle(Verdict::RedHat),
    ]
}

fn ubuntu_verify() -> Vec<Op> {
    vec![
        Op::Scratch,
        Op::Attach(Medium::Partition),
        Op::ReadIdentity,
        Op::DetachScratch,
        Op::Discard,
        Op::Settle(Verdict::Ubuntu),
    ]
}

fn concat(parts: Vec<Vec<Op>>) -> Vec<Op> {
    parts.into_iter().flatten().collect()
}

fn encrypted() -> Distro {
    let mut distro = Distro::new();
    distro.is_ade = true;
    distro
}

const LVM_DISK: [&str; 4] = [
    "1:1049kB:525MB:524MB:fat16:EFI System Partition:boot, esp, EF00;",
    "2:525MB:1050MB:524MB:xfs::msftdata;",
    "3:1050MB:1052MB:2097kB:::bios_grub, EF02;",
    "4:1052MB:68.7GB:67.7GB:::lvm, 8E00;",
];

#[test]
fn a_new_profile_knows_nothing() {
    let distro = Distro::new();
    assert_eq!(distro.kind, DistroKind::Undefined);
    assert_eq!(distro.efi_part, EfiPartT::NoEFI);
    assert!(!distro.is_lvm);
    assert!(!distro.is_ade);
    assert_eq!(distro.boot_part, BootPartDetails::new());
    assert_eq!(distro.rescue_root, RootPartDetails::new());
    assert_eq!(distro.lvm_details, LVMDetails::new());
    assert_eq!(distro.boot_part.boot_part_number, 0);
    assert_eq!(distro.boot_part.boot_part_fs, "");
    assert_eq!(distro.rescue_root.root_part_path, "");
    assert_eq!(distro.lvm_details.lvm_var_part, "");
    assert_eq!(DistroKind::default(), DistroKind::Undefined);
}

#[test]
fn no_efi_partition_is_not_a_blank_efi_partition() {
    assert_eq!(EfiPartT::default(), EfiPartT::NoEFI);
    assert_eq!(EfiPartT::new(), EfiPartT::EfiPart(EfiPartition::new()));
    assert_ne!(EfiPartT::new(), EfiPartT::NoEFI);
    let blank = EfiPartition::new();
    assert_eq!(blank.efi_part_number, 0);
    assert_eq!(blank.efi_part_fs, "");
    assert_eq!(blank.efi_part_path, "");
}

#[test]
fn the_efi_partition_is_set_in_two_steps() {
    let catalog = catalog_of(&["15:1:2:3:fat16:EFI:EF00;"]);
    let mut distro = Distro::new();
    assert_eq!(get_efi_part_number(&distro), 0);
    assert_eq!(get_efi_part_fs(&distro), "");
    assert_eq!(get_efi_part_path(&distro), "");
    set_efi_part_path(&mut distro, "/dev/sdc15".to_string());
    assert_eq!(distro.efi_part, EfiPartT::NoEFI);
    set_efi_part_number_and_fs(&mut distro, &catalog[0]);
    assert_eq!(get_efi_part_number(&distro), 15);
    assert_eq!(get_efi_part_fs(&distro), "fat16");
    assert_eq!(get_efi_part_path(&distro), "");
    set_efi_part_path(&mut distro, "/dev/sdc15".to_string());
    assert_eq!(get_efi_part_number(&distro), 15);
    assert_eq!(get_efi_part_fs(&distro), "fat16");
    assert_eq!(get_efi_part_path(&distro), "/dev/sdc15");
}

#[test]
fn the_first_efi_token_is_taken() {
    let catalog = catalog_of(&["1:1:2:3:xfs::;", "2:1:2:3:fat16::EF00;", "3:1:2:3:fat32::EF00;"]);
    let mut distro = Distro::new();
    set_efi_found(&catalog, &mut distro);
    assert_eq!(get_efi_part_number(&distro), 2);
    let mut distro = Distro::new();
    set_efi_found(&catalog_of(&["1:1:2:3:xfs::;"]), &mut distro);
    assert_eq!(distro.efi_part, EfiPartT::NoEFI);
}

#[test]
fn the_name_stands_behind_the_equals_sign() {
    assert_eq!(get_pretty_name("PRETTY_NAME=\"Ubuntu 18.04.5 LTS\""), "\"Ubuntu 18.04.5 LTS\"");
    assert_eq!(get_pretty_name("PRETTY_NAME=a=b"), "a");
    assert_eq!(get_pretty_name("PRETTY_NAME="), "");
    assert_eq!(get_pretty_name("PRETTY_NAME"), "");
    assert_eq!(get_pretty_name(""), "");
}

#[test]
fn the_device_of_a_volume_stands_between_apostrophes() {
    assert_eq!(
        lvm_path_helper("  ACTIVE            '/dev/rootvg/rootlv' [2.00 GiB] inherit"),
        "/dev/rootvg/rootlv"
    );
    assert_eq!(lvm_path_helper("'/dev/a' '/dev/b'"), "/dev/a");
    assert_eq!(lvm_path_helper("no volume here"), "");
    assert_eq!(lvm_path_helper(""), "");
    assert_eq!(lvm_path_helper("'"), "");
    assert_eq!(volume_name(Volume::Root), "rootlv");
    assert_eq!(volume_name(Volume::Usr), "usrlv");
    assert_eq!(volume_name(Volume::Var), "varlv");
}

#[test]
fn the_filesystem_of_the_unlocked_root_is_the_second_field() {
    let mut distro = Distro::new();
    assert_eq!(set_root_part_fs(&mut distro, "osencrypt ext4 cloudimg-rootfs"), Ok(()));
    assert_eq!(distro.rescue_root.root_part_fs, "ext4");
    assert_eq!(set_root_part_fs(&mut distro, "osencrypt  xfs"), Ok(()));
    assert_eq!(distro.rescue_root.root_part_fs, "");
    assert_eq!(set_root_part_fs(&mut distro, "osencrypt"), Err(Fatal::UnreadableProbe));
    assert_eq!(set_root_part_fs(&mut distro, ""), Err(Fatal::UnreadableProbe));
    assert_eq!(distro.rescue_root.root_part_fs, "");
}

#[test]
fn red_hat_is_told_by_its_version() {
    let cases = [
        ("\"CentOS release 6.10 (Final)\"", "", Ok(DistroKind::RedHatCentOS6)),
        ("\"CentOS Linux 7 (Core)\"", "", Ok(DistroKind::RedHatCentOS)),
        ("\"Red Hat Enterprise Linux 8.2 (Ootpa)\"", "", Ok(DistroKind::RedHatCentOS)),
        ("\"Red Hat Enterprise Linux 7.6.\"", "CentOS", Ok(DistroKind::RedHatCentOS6)),
        ("x", "CentOS release 6.8", Ok(DistroKind::RedHatCentOS)),
        ("", "CentOS release 6.8 (Final)", Ok(DistroKind::RedHatCentOS6)),
        ("", "Red Hat Enterprise Linux Server release 6.9", Ok(DistroKind::RedHatCentOS6)),
        ("", "Oracle Linux Server release 6.9", Ok(DistroKind::RedHatCentOS)),
        ("", "", Err(Fatal::UndecidableIdentity)),
    ];
    for (name, legacy, expected) in cases {
        let mut distro = Distro::new();
        let set = set_redhat_kind(&mut distro, name, legacy);
        match expected {
            Ok(kind) => {
                assert_eq!(set, Ok(()));
                assert_eq!(distro.kind, kind);
            }
            Err(fatal) => {
                assert_eq!(set, Err(fatal));
                assert_eq!(distro, Distro::new());
            }
        }
    }
}

#[test]
fn ubuntu_is_told_from_debian() {
    let cases = [
        ("\"Ubuntu 18.04.5 LTS\"", DistroKind::Ubuntu),
        ("\"Debian GNU/Linux 10 (buster)\"", DistroKind::Debian),
        ("Ubuntu on Debian", DistroKind::Debian),
        ("\"CentOS Linux 7 (Core)\"", DistroKind::Undefined),
        ("ubuntu", DistroKind::Undefined),
        ("", DistroKind::Undefined),
    ];
    for (name, expected) in cases {
        let mut distro = Distro::new();
        set_ubuntu_kind(&mut distro, name);
        assert_eq!(distro.kind, expected);
    }
    let mut distro = Distro::new();
    distro.kind = DistroKind::Suse;
    set_ubuntu_kind(&mut distro, "nothing");
    assert_eq!(distro.kind, DistroKind::Suse);
}

#[test]
fn a_single_partition_is_ubuntu_also_for_debian() {
    for (name, expected) in [
        ("Ubuntu 14.04", DistroKind::Ubuntu),
        ("Debian 8", DistroKind::Ubuntu),
        ("CentOS 6.5", DistroKind::Undefined),
    ] {
        let mut distro = Distro::new();
        set_single_kind(&mut distro, name);
        assert_eq!(distro.kind, expected);
    }
}

#[test]
fn steps_come_in_lists() {
    assert_eq!(fsck_one(Role::Boot), checks(Role::Boot));
    assert_eq!(fsck_partitions(), all_checks());
    assert_eq!(umount_investigations(), releases());
    assert_eq!(
        umount_investigations_lvm(),
        vec![Op::Detach(0), Op::Detach(1), Op::Detach(2), Op::Detach(3), Op::Detach(4), Op::Detach(5)]
    );
    assert_eq!(
        locate_volumes(),
        vec![Op::Locate(Volume::Root), Op::Locate(Volume::Usr), Op::Locate(Volume::Var)]
    );
    assert_eq!(verify_ubuntu(), ubuntu_verify());
    assert_eq!(verify_redhat_nolvm(), redhat_verify(Medium::Partition));
    assert_eq!(verify_redhat_lvm(), redhat_verify(Medium::Volume));
    let mut ops = vec![Op::Scratch];
    then_ops(&mut ops, vec![Op::Discard, Op::ScanVolumes]);
    assert_eq!(ops, vec![Op::Scratch, Op::Discard, Op::ScanVolumes]);
}

#[test]
fn the_volumes_of_an_unlocked_disk_are_detached_root_last() {
    let places: Vec<Option<&str>> = (0..8).map(investigation_mount).collect();
    assert_eq!(
        places,
        vec![
            Some("/investigateroot/tmp"),
            Some("/investigateroot/usr"),
            Some("/investigateroot/opt"),
            Some("/investigateroot/home"),
            Some("/investigateroot/var"),
            Some("/investigateroot"),
            None,
            None,
        ]
    );
    assert_eq!(investigation_mount(255), None);
}

#[test]
fn the_steps_of_a_recent_ubuntu() {
    let catalog = catalog_of(&["15:1:2:3:fat16::EF00;", "1:1:2:3:ext4::;", "14:1:2:3:::EF02;"]);
    let mut distro = Distro::new();
    let planned = do_ubuntu(&catalog, &mut distro);
    assert_eq!(
        planned,
        Ok(concat(vec![
            vec![Op::ResolveDisk, Op::ByDisk(Role::Root)],
            checks(Role::Root),
            vec![Op::ByLun(Role::Efi)],
            checks(Role::Efi),
            ubuntu_verify(),
        ]))
    );
    assert_eq!(distro.rescue_root.root_part_number, 1);
    assert_eq!(distro.rescue_root.root_part_fs, "ext4");
    assert_eq!(distro.rescue_root.root_part_path, "");
    assert_eq!(get_efi_part_number(&distro), 15);
    assert_eq!(distro.kind, DistroKind::Undefined);
    let mut again = Distro::new();
    assert_eq!(do_recent_ubuntu(&catalog, &mut again), planned);
    assert_eq!(again, distro);
}

#[test]
fn a_branch_that_fails_leaves_the_profile_alone() {
    let mut distro = Distro::new();
    assert_eq!(
        do_ubuntu(&catalog_of(&["1:1:2:3:ext4::;"]), &mut distro),
        Err(Fatal::UnrecognizedLayout)
    );
    assert_eq!(distro, Distro::new());
    assert_eq!(do_old_ubuntu_or_centos(&Vec::new(), &mut distro), Err(Fatal::UnrecognizedLayout));
    assert_eq!(distro, Distro::new());
    let no_boot = catalog_of(&["1:1:2:3:::EF00;", "4:1:2:3:::8E00;"]);
    assert_eq!(do_redhat_lvm(&no_boot, &mut distro), Err(Fatal::UnrecognizedLayout));
    assert_eq!(distro, Distro::new());
    assert_eq!(dispatch(&Vec::new(), true, &mut distro), Err(Fatal::UnrecognizedLayout));
    assert_eq!(distro, Distro::new());
    assert_eq!(do_investigated(&no_boot, &mut distro, ""), Err(Fatal::InvestigationRootMissing));
    assert_eq!(distro, Distro::new());
}

#[test]
fn the_steps_of_a_single_partition() {
    let catalog = catalog_of(&["1:1:2:3:ext4::;"]);
    let mut distro = Distro::new();
    assert_eq!(
        do_old_ubuntu_or_centos(&catalog, &mut distro),
        Ok(concat(vec![
            vec![Op::Scratch, Op::ByLun(Role::Root)],
            checks(Role::Root),
            vec![
                Op::Attach(Medium::Partition),
                Op::ReadIdentity,
                Op::DetachScratch,
                Op::Discard,
                Op::Settle(Verdict::Single),
            ],
            redhat_verify(Medium::Partition),
        ]))
    );
    assert_eq!(distro.rescue_root.root_part_number, 1);
    assert_eq!(distro.rescue_root.root_part_fs, "ext4");
}

#[test]
fn the_steps_of_a_pair() {
    let catalog = catalog_of(&["1:1:2:500MiB:ext4::;", "2:1:2:31GiB:xfs::;"]);
    let expected = concat(vec![
        vec![Op::ResolveDisk, Op::ByDisk(Role::Root), Op::ByDisk(Role::Boot)],
        checks(Role::Root),
        checks(Role::Boot),
        redhat_verify(Medium::Partition),
    ]);
    let mut distro = Distro::new();
    assert_eq!(do_redhat6_or_7(&catalog, &mut distro), Ok(expected.clone()));
    assert_eq!(distro.rescue_root.root_part_number, 2);
    assert_eq!(distro.boot_part.boot_part_number, 1);
    let mut again = Distro::new();
    assert_eq!(do_red_hat(&catalog, &mut again), Ok(expected.clone()));
    assert_eq!(again, distro);
    let mut dispatched = Distro::new();
    assert_eq!(dispatch(&catalog, false, &mut dispatched), Ok(expected));
    assert_eq!(dispatched, distro);
}

#[test]
fn the_steps_of_an_encrypted_pair() {
    let expected = concat(vec![
        vec![Op::ProbeEncrypted, Op::ByLun(Role::Boot)],
        releases(),
        all_checks(),
        redhat_verify(Medium::Partition),
    ]);
    let mut distro = encrypted();
    assert_eq!(do_redhat6_or_7_ade(&mut distro), Ok(expected.clone()));
    assert_eq!(distro.rescue_root.root_part_number, 2);
    assert_eq!(distro.rescue_root.root_part_path, "/dev/mapper/osencrypt");
    assert_eq!(distro.boot_part.boot_part_number, 1);
    assert_eq!(distro.boot_part.boot_part_fs, "xfs");
    let catalog = catalog_of(&["1:1:2:31GiB:ext4::;", "2:1:2:500MiB:xfs::;"]);
    let mut dispatched = Distro::new();
    assert_eq!(dispatch(&catalog, true, &mut dispatched), Ok(expected.clone()));
    assert_eq!(dispatched, distro);
    let mut again = encrypted();
    assert_eq!(do_redhat6_or_7(&catalog, &mut again), Ok(expected));
    assert_eq!(again, distro);
}

#[test]
fn the_steps_of_four_partitions_without_lvm() {
    let catalog = catalog_of(&[
        "14:1:2:4MiB:::EF02;",
        "15:1:2:500MiB:fat16::EF00;",
        "1:1:2:500MiB:xfs::;",
        "2:1:2:31GiB:xfs::;",
    ]);
    let expected = concat(vec![
        vec![Op::ByLun(Role::Efi), Op::ResolveDisk, Op::ByDisk(Role::Root), Op::ByDisk(Role::Boot)],
        all_checks(),
        redhat_verify(Medium::Partition),
    ]);
    let mut distro = Distro::new();
    distro.is_lvm = true;
    assert_eq!(do_redhat_nolvm(&catalog, &mut distro), Ok(expected.clone()));
    assert!(!distro.is_lvm);
    assert_eq!(distro.rescue_root.root_part_number, 2);
    assert_eq!(distro.boot_part.boot_part_number, 1);
    assert_eq!(get_efi_part_number(&distro), 15);
    let mut again = Distro::new();
    assert_eq!(do_redhat_lvm_or(&catalog, &mut again), Ok(expected.clone()));
    assert_eq!(again, distro);
    let mut four = Distro::new();
    assert_eq!(do_suse_or_lvm_or_ubuntu(&catalog, &mut four), Ok(expected));
}

#[test]
fn the_steps_of_four_partitions_with_lvm() {
    let catalog = catalog_of(&LVM_DISK);
    let mut distro = Distro::new();
    assert_eq!(
        do_redhat_lvm(&catalog, &mut distro),
        Ok(concat(vec![
            vec![
                Op::ScanVolumes,
                Op::ResolveDisk,
                Op::ByDisk(Role::Root),
                Op::ByLun(Role::Efi),
                Op::ByDisk(Role::Boot),
            ],
            all_checks(),
            locate_volumes(),
            redhat_verify(Medium::Volume),
        ]))
    );
    assert!(distro.is_lvm);
    assert_eq!(distro.rescue_root.root_part_number, 4);
    assert_eq!(distro.boot_part.boot_part_number, 2);
    assert_eq!(get_efi_part_number(&distro), 1);
}

#[test]
fn the_steps_of_an_encrypted_disk_with_lvm() {
    let catalog = catalog_of(&[
        "1:1:2:3:fat16:EFI System Partition:boot, esp;",
        "2:1:2:3:xfs::;",
        "3:1:2:3:::bios_grub;",
        "4:1:2:3:::lvm, 8E00;",
    ]);
    let rest = concat(vec![
        vec![Op::ProbeEncrypted, Op::ByLun(Role::Boot), Op::ByLun(Role::Efi)],
        umount_investigations_lvm(),
        releases(),
        all_checks(),
        locate_volumes(),
        redhat_verify(Medium::Volume),
    ]);
    let mut distro = encrypted();
    assert_eq!(do_redhat_lvm_ade(&catalog, &mut distro), Ok(rest.clone()));
    assert_eq!(distro.rescue_root.root_part_number, 4);
    assert_eq!(distro.boot_part.boot_part_number, 2);
    assert_eq!(distro.boot_part.boot_part_fs, "xfs");
    assert_eq!(get_efi_part_number(&distro), 1);
    let mut whole = encrypted();
    let mut expected = vec![Op::ScanVolumes];
    expected.extend(rest);
    assert_eq!(do_redhat_lvm(&catalog, &mut whole), Ok(expected.clone()));
    assert!(whole.is_lvm);
    let mut investigated = encrypted();
    assert_eq!(do_investigated(&catalog, &mut investigated, "\"Red Hat 8.2\""), Ok(expected));
    assert_eq!(investigated, whole);
}

#[test]
fn the_steps_of_an_encrypted_disk_without_lvm() {
    let catalog = catalog_of(&[
        "1:1:2:3:xfs::;",
        "2:1:2:3:::;",
        "14:1:2:3:::bios_grub;",
        "15:1:2:3:fat16:EFI System Partition:boot, esp;",
    ]);
    let expected = concat(vec![
        vec![Op::ProbeEncrypted, Op::ByLun(Role::Boot), Op::ByLun(Role::Efi)],
        releases(),
        all_checks(),
        redhat_verify(Medium::Partition),
    ]);
    let mut distro = encrypted();
    assert_eq!(do_redhat_nolvm_ade(&catalog, &mut distro), Ok(expected.clone()));
    assert_eq!(distro.rescue_root.root_part_number, 2);
    assert_eq!(distro.boot_part.boot_part_number, 1);
    assert_eq!(get_efi_part_number(&distro), 15);
    let mut again = encrypted();
    assert_eq!(do_redhat_nolvm(&catalog, &mut again), Ok(expected));
    assert_eq!(again, distro);
}

#[test]
fn the_last_token_is_the_efi_partition_of_an_encrypted_disk() {
    let catalog = catalog_of(&[
        "1:1:2:3:fat16:EFI one:boot;",
        "2:1:2:3:fat32:EFI two:boot;",
        "3:1:2:3:xfs::;",
        "4:1:2:3:xfs::;",
    ]);
    let mut distro = encrypted();
    let _ = do_redhat_nolvm_ade(&catalog, &mut distro);
    assert_eq!(get_efi_part_number(&distro), 2);
    assert_eq!(get_efi_part_fs(&distro), "fat32");
    let mut distro = encrypted();
    let _ = do_ubuntu_ade(&catalog, &mut distro);
    assert_eq!(get_efi_part_number(&distro), 2);
    let mut distro = encrypted();
    let _ = do_ubuntu_ade(&catalog_of(&["3:1:2:3:xfs::;"]), &mut distro);
    assert_eq!(distro.efi_part, EfiPartT::NoEFI);
}

#[test]
fn the_steps_of_an_encrypted_ubuntu() {
    let catalog = catalog_of(&["1:1:2:3:::;", "2:1:2:3:ext2::;", "14:1:2:3:::;", "15:1:2:3:fat16::boot;"]);
    let expected = concat(vec![
        vec![Op::ByLun(Role::Efi), Op::ProbeEncrypted, Op::ByLun(Role::Boot)],
        releases(),
        all_checks(),
        ubuntu_verify(),
    ]);
    let mut distro = encrypted();
    assert_eq!(do_ubuntu_ade(&catalog, &mut distro), Ok(expected.clone()));
    assert_eq!(distro.boot_part.boot_part_fs, "ext2");
    assert_eq!(distro.boot_part.boot_part_number, 2);
    assert_eq!(distro.rescue_root.root_part_path, "/dev/mapper/osencrypt");
    let mut investigated = encrypted();
    assert_eq!(do_investigated(&catalog, &mut investigated, "\"Ubuntu 18.04\""), Ok(expected));
    assert_eq!(investigated, distro);
    let mut four = encrypted();
    assert_eq!(do_suse_or_lvm_or_ubuntu(&catalog, &mut four), Ok(vec![Op::Investigate]));
    assert_eq!(four, encrypted());
}

#[test]
fn the_steps_of_a_single_centos() {
    let mut distro = Distro::new();
    assert_eq!(
        do_centos_single_partition(&mut distro),
        Ok(concat(vec![
            vec![Op::ResolveDisk, Op::ByDisk(Role::Root)],
            checks(Role::Root),
            redhat_verify(Medium::Partition),
        ]))
    );
    assert_eq!(distro.rescue_root.root_part_number, 1);
}

#[test]
fn the_steps_of_suse() {
    let catalog = catalog_of(&[
        "1:1:2:3:::EF02;",
        "2:1:2:500MiB:fat16::EF00;",
        "3:1:2:1GiB:xfs:lxboot:;",
        "4:1:2:3:xfs:lxroot:;",
    ]);
    let mut distro = Distro::new();
    assert_eq!(
        do_suse(&catalog, &mut distro),
        Ok(concat(vec![
            vec![Op::ByLun(Role::Efi), Op::ResolveDisk, Op::ByDisk(Role::Root)],
            all_checks(),
        ]))
    );
    assert_eq!(distro.kind, DistroKind::Suse);
    assert_eq!(distro.rescue_root.root_part_number, 3);
    assert_eq!(distro.boot_part.boot_part_number, 0);
    let mut distro = encrypted();
    assert_eq!(do_suse(&catalog, &mut distro), Err(Fatal::UnrecognizedLayout));
    assert_eq!(distro, encrypted());
    let mut distro = Distro::new();
    let no_root = catalog_of(&["3:1:2:500MiB:xfs:lxboot:;", "4:1:2:3:xfs:lxroot:;"]);
    assert_eq!(do_suse(&no_root, &mut distro), Err(Fatal::UnrecognizedLayout));
    assert_eq!(distro, Distro::new());
}

#[test]
fn the_steps_of_suse_with_a_boot_partition() {
    let catalog = catalog_of(&[
        "1:1:2:3:::EF02;",
        "2:1:2:500MiB:fat16::EF00;",
        "3:1:2:900MiB:xfs:lxboot:;",
        "4:1:2:30GiB:xfs:lxroot:;",
    ]);
    let mut distro = Distro::new();
    assert_eq!(
        do_suse(&catalog, &mut distro),
        Ok(concat(vec![
            vec![
                Op::ByLun(Role::Efi),
                Op::ResolveDisk,
                Op::ByDisk(Role::Root),
                Op::ByDisk(Role::Boot)
            ],
            all_checks(),
        ]))
    );
    assert_eq!(distro.rescue_root.root_part_number, 4);
    assert_eq!(distro.boot_part.boot_part_number, 3);
    assert_eq!(get_efi_part_number(&distro), 2);
}

#[test]
fn a_pair_is_found_by_the_sizes_alone() {
    let by_size = catalog_of(&["7:1GiB:2GiB:500MiB:ext4::;", "9:1MiB:2MiB:31GiB:xfs::;"]);
    assert_eq!(find_pair(&by_size, Scope::All), Some((1, 0)));
    let no_boot = catalog_of(&["7:1MiB:2MiB:3GiB:ext4::;", "9:1MiB:2MiB:31GiB:xfs::;"]);
    assert_eq!(find_pair(&no_boot, Scope::All), None);
    let no_root = catalog_of(&["7:1GiB:2GiB:3MiB:ext4::;", "9:1GiB:2GiB:31MiB:xfs::;"]);
    assert_eq!(find_pair(&no_root, Scope::All), None);
    let set_aside = catalog_of(&[
        "1:1:2:31GiB:::EF00;",
        "2:1:2:500MiB:::EF02;",
        "3:1:2:400MiB:ext4::;",
        "4:1:2:30GiB:xfs::;",
    ]);
    assert_eq!(find_pair(&set_aside, Scope::All), Some((0, 1)));
    assert_eq!(find_pair(&set_aside, Scope::Plain), Some((3, 2)));
    assert_eq!(find_pair(&Vec::new(), Scope::All), None);
}
