use alar2::distro::{Distro, DistroKind, EfiPartT, EfiPartition};
use alar2::mount::{
    bind_mount, bind_mount_in_place, mount, mount_boot_on_rescue_boot, mount_efi_on_rescue_efi, mount_option,
    mount_root_on_rescue_root, mount_usr_on_rescue_root_usr, mount_var_on_rescue_root_var,
};
use alar2::prepare_action::{
    distro_mount, distro_umount, mount_support_filesystem, redhat6_mount, redhat6_umount,
    redhat_mount, redhat_umount, support_directory, support_filesystems, suse_mount, suse_umount,
    ubuntu_mount, ubuntu_umount, umount_support_filesystem,
};
use alar2::probe::MountStep;

fn device(source: &str, target: &str, option: Option<&str>) -> MountStep {
    MountStep {
        source: source.to_string(),
        target: target.to_string(),
        option: option.map(|o| o.to_string()),
        bind: false,
        create_target: false,
    }
}

fn bind(source: &str, target: &str) -> MountStep {
    MountStep {
        source: source.to_string(),
        target: target.to_string(),
        option: None,
        bind: true,
        create_target: false,
    }
}

fn bind_in_place(source: &str, target: &str) -> MountStep {
    MountStep { create_target: true, ..bind(source, target) }
}

fn support() -> Vec<MountStep> {
    vec![
        bind_in_place("/dev/", "/mnt/rescue-root/dev"),
        bind_in_place("/proc/", "/mnt/rescue-root/proc"),
        bind_in_place("/sys/", "/mnt/rescue-root/sys"),
        bind_in_place("/tmp/", "/mnt/rescue-root/tmp"),
        bind_in_place("/dev/pts/", "/mnt/rescue-root/dev/pts"),
    ]
}

fn support_reversed() -> Vec<String> {
    vec![
        "/mnt/rescue-root/dev/pts".to_string(),
        "/mnt/rescue-root/tmp".to_string(),
        "/mnt/rescue-root/sys".to_string(),
        "/mnt/rescue-root/proc".to_string(),
        "/mnt/rescue-root/dev".to_string(),
    ]
}

fn profile(kind: DistroKind, root_fs: &str, boot_fs: &str, boot_number: u8) -> Distro {
    let mut distro = Distro::new();
    distro.kind = kind;
    distro.rescue_root.root_part_fs = root_fs.to_string();
    distro.rescue_root.root_part_number = 2;
    distro.rescue_root.root_part_path = "/dev/sdc2".to_string();
    distro.boot_part.boot_part_fs = boot_fs.to_string();
    distro.boot_part.boot_part_number = boot_number;
    distro.boot_part.boot_part_path = "/dev/sdc1".to_string();
    distro
}

fn with_efi(mut distro: Distro, fs: &str) -> Distro {
    distro.efi_part = EfiPartT::EfiPart(EfiPartition {
        efi_part_number: 15,
        efi_part_fs: fs.to_string(),
        efi_part_path: "/dev/sdc15".to_string(),
    });
    distro
}

fn with_volumes(mut distro: Distro) -> Distro {
    distro.is_lvm = true;
    distro.lvm_details.lvm_root_part = "/dev/rootvg/rootlv".to_string();
    distro.lvm_details.lvm_usr_part = "/dev/rootvg/usrlv".to_string();
    distro.lvm_details.lvm_var_part = "/dev/rootvg/varlv".to_string();
    distro
}

fn reversed_targets(plan: &[MountStep]) -> Vec<String> {
    plan.iter().rev().map(|step| step.target.clone()).collect()
}

#[test]
fn only_xfs_asks_for_nouuid() {
    assert_eq!(mount_option("xfs"), Some("nouuid"));
    assert_eq!(mount_option("ext4"), None);
    assert_eq!(mount_option("fat16"), None);
    assert_eq!(mount_option(""), None);
    assert_eq!(mount_option("xfs "), None);
}

#[test]
fn single_mounts_go_to_their_places() {
    assert_eq!(mount("/dev/a", "/mnt/b", Some("ro")), device("/dev/a", "/mnt/b", Some("ro")));
    assert_eq!(bind_mount("/run", "/mnt/rescue-root/run"), bind("/run", "/mnt/rescue-root/run"));
    assert_eq!(
        bind_mount_in_place("/proc/", "/mnt/rescue-root/proc"),
        bind_in_place("/proc/", "/mnt/rescue-root/proc")
    );
    assert_eq!(
        mount_root_on_rescue_root("/dev/sdc2", Some("nouuid")),
        device("/dev/sdc2", "/mnt/rescue-root/", Some("nouuid"))
    );
    assert_eq!(
        mount_boot_on_rescue_boot("/dev/sdc1", None),
        device("/dev/sdc1", "/mnt/rescue-root/boot", None)
    );
    assert_eq!(
        mount_efi_on_rescue_efi("/dev/sdc15", None),
        device("/dev/sdc15", "/mnt/rescue-root/boot/efi", None)
    );
    assert_eq!(
        mount_usr_on_rescue_root_usr("/dev/rootvg/usrlv"),
        bind("/dev/rootvg/usrlv", "/mnt/rescue-root/usr")
    );
    assert_eq!(
        mount_var_on_rescue_root_var("/dev/rootvg/varlv"),
        bind("/dev/rootvg/varlv", "/mnt/rescue-root/var")
    );
}

#[test]
fn support_filesystems_are_bound_in_order_and_released_in_reverse() {
    assert_eq!(support_filesystems(), vec!["dev", "proc", "sys", "tmp", "dev/pts"]);
    assert_eq!(support_directory("dev/pts"), "/mnt/rescue-root/dev/pts");
    assert_eq!(mount_support_filesystem(), support());
    assert_eq!(umount_support_filesystem(), support_reversed());
}

#[test]
fn ubuntu_without_encryption_and_without_efi() {
    let distro = profile(DistroKind::Ubuntu, "ext4", "", 0);
    let mut expected = vec![device("/dev/sdc2", "/mnt/rescue-root/", None)];
    expected.extend(support());
    expected.push(bind("/run", "/mnt/rescue-root/run"));
    assert_eq!(ubuntu_mount(&distro), expected);
    let mut released = vec!["/mnt/rescue-root/run".to_string()];
    released.extend(support_reversed());
    released.push("/mnt/rescue-root/".to_string());
    assert_eq!(ubuntu_umount(&distro), released);
}

#[test]
fn ubuntu_with_encryption_and_efi() {
    let mut distro = with_efi(profile(DistroKind::Ubuntu, "xfs", "ext2", 2), "xfs");
    distro.is_ade = true;
    let mut expected = vec![
        device("/dev/sdc2", "/mnt/rescue-root/", None),
        device("/dev/sdc1", "/mnt/rescue-root/boot", None),
        device("/dev/sdc15", "/mnt/rescue-root/boot/efi", Some("nouuid")),
    ];
    expected.extend(support());
    expected.push(bind("/run", "/mnt/rescue-root/run"));
    assert_eq!(ubuntu_mount(&distro), expected);
    let mut released = vec!["/mnt/rescue-root/run".to_string()];
    released.extend(support_reversed());
    released.push("/mnt/rescue-root/boot/efi".to_string());
    released.push("/mnt/rescue-root/boot".to_string());
    released.push("/mnt/rescue-root/".to_string());
    assert_eq!(ubuntu_umount(&distro), released);
}

#[test]
fn ubuntu_efi_without_xfs_has_no_option() {
    let distro = with_efi(profile(DistroKind::Debian, "ext4", "", 0), "fat16");
    assert_eq!(ubuntu_mount(&distro)[1], device("/dev/sdc15", "/mnt/rescue-root/boot/efi", None));
}

#[test]
fn redhat_without_lvm() {
    let distro = with_efi(profile(DistroKind::RedHatCentOS, "xfs", "ext4", 1), "fat16");
    let mut expected = vec![
        device("/dev/sdc2", "/mnt/rescue-root/", Some("nouuid")),
        device("/dev/sdc1", "/mnt/rescue-root/boot", None),
        device("/dev/sdc15", "/mnt/rescue-root/boot/efi", None),
    ];
    expected.extend(support());
    assert_eq!(redhat_mount(&distro), expected);
    let mut released = support_reversed();
    released.push("/mnt/rescue-root/boot/efi".to_string());
    released.push("/mnt/rescue-root/boot".to_string());
    released.push("/mnt/rescue-root/".to_string());
    assert_eq!(redhat_umount(&distro), released);
}

#[test]
fn redhat_without_lvm_and_without_efi() {
    let distro = profile(DistroKind::RedHatCentOS, "ext4", "xfs", 1);
    let mut expected = vec![
        device("/dev/sdc2", "/mnt/rescue-root/", None),
        device("/dev/sdc1", "/mnt/rescue-root/boot", Some("nouuid")),
    ];
    expected.extend(support());
    assert_eq!(redhat_mount(&distro), expected);
    let mut released = support_reversed();
    released.push("/mnt/rescue-root/boot".to_string());
    released.push("/mnt/rescue-root/".to_string());
    assert_eq!(redhat_umount(&distro), released);
}

#[test]
fn redhat_under_lvm() {
    let distro = with_volumes(with_efi(profile(DistroKind::RedHatCentOS, "", "xfs", 2), "xfs"));
    let mut expected = vec![
        device("/dev/rootvg/rootlv", "/mnt/rescue-root/", None),
        bind("/dev/rootvg/usrlv", "/mnt/rescue-root/usr"),
        bind("/dev/rootvg/varlv", "/mnt/rescue-root/var"),
        device("/dev/sdc1", "/mnt/rescue-root/boot", Some("nouuid")),
        device("/dev/sdc15", "/mnt/rescue-root/boot/efi", Some("nouuid")),
    ];
    expected.extend(support());
    assert_eq!(redhat_mount(&distro), expected);
    let mut released = support_reversed();
    released.push("/mnt/rescue-root/boot/efi".to_string());
    released.push("/mnt/rescue-root/boot".to_string());
    released.push("/mnt/rescue-root/var".to_string());
    released.push("/mnt/rescue-root/usr".to_string());
    released.push("/mnt/rescue-root/".to_string());
    assert_eq!(redhat_umount(&distro), released);
}

#[test]
fn suse_goes_by_the_redhat_plans() {
    let distro = with_efi(profile(DistroKind::Suse, "xfs", "ext4", 3), "fat16");
    assert_eq!(suse_mount(&distro), redhat_mount(&distro));
    assert_eq!(suse_umount(&distro), redhat_umount(&distro));
    assert_eq!(distro_mount(&distro), redhat_mount(&distro));
    assert_eq!(distro_umount(&distro), redhat_umount(&distro));
}

#[test]
fn redhat6_mounts_boot_only_where_there_is_one() {
    let with_boot = profile(DistroKind::RedHatCentOS6, "xfs", "xfs", 1);
    let mut expected = vec![
        device("/dev/sdc2", "/mnt/rescue-root/", None),
        device("/dev/sdc1", "/mnt/rescue-root/boot", None),
    ];
    expected.extend(support());
    assert_eq!(redhat6_mount(&with_boot), expected);
    let mut released = support_reversed();
    released.push("/mnt/rescue-root/boot".to_string());
    released.push("/mnt/rescue-root/".to_string());
    assert_eq!(redhat6_umount(&with_boot), released);

    let without_boot = profile(DistroKind::RedHatCentOS6, "ext4", "", 0);
    let mut expected = vec![device("/dev/sdc2", "/mnt/rescue-root/", None)];
    expected.extend(support());
    assert_eq!(redhat6_mount(&without_boot), expected);
    let mut released = support_reversed();
    released.push("/mnt/rescue-root/".to_string());
    assert_eq!(redhat6_umount(&without_boot), released);
}

#[test]
fn only_the_places_of_the_support_filesystems_are_made() {
    let distro = with_volumes(with_efi(profile(DistroKind::RedHatCentOS, "xfs", "xfs", 2), "xfs"));
    let plan = redhat_mount(&distro);
    let made: Vec<&str> =
        plan.iter().filter(|step| step.create_target).map(|step| step.target.as_str()).collect();
    assert_eq!(
        made,
        vec![
            "/mnt/rescue-root/dev",
            "/mnt/rescue-root/proc",
            "/mnt/rescue-root/sys",
            "/mnt/rescue-root/tmp",
            "/mnt/rescue-root/dev/pts",
        ]
    );
    let first = plan.iter().position(|step| step.create_target).unwrap();
    assert_eq!(first, 5);
    assert_eq!(plan[0].target, "/mnt/rescue-root/");
    let mut ubuntu = profile(DistroKind::Ubuntu, "ext4", "", 0);
    ubuntu.is_ade = false;
    let plan = ubuntu_mount(&ubuntu);
    assert!(!plan[0].create_target);
    assert!(plan[1].create_target);
    assert!(!plan.last().unwrap().create_target);
}

#[test]
fn a_profile_of_no_kind_has_no_plan() {
    let distro = profile(DistroKind::Undefined, "xfs", "xfs", 1);
    assert_eq!(distro_mount(&distro), Vec::new());
    assert_eq!(distro_umount(&distro), Vec::<String>::new());
}

#[test]
fn the_plan_goes_by_the_kind() {
    let mut distro = with_efi(profile(DistroKind::Ubuntu, "ext4", "ext4", 1), "fat16");
    assert_eq!(distro_mount(&distro), ubuntu_mount(&distro));
    assert_eq!(distro_umount(&distro), ubuntu_umount(&distro));
    distro.kind = DistroKind::Debian;
    assert_eq!(distro_mount(&distro), ubuntu_mount(&distro));
    distro.kind = DistroKind::RedHatCentOS;
    assert_eq!(distro_mount(&distro), redhat_mount(&distro));
    assert_eq!(distro_umount(&distro), redhat_umount(&distro));
    distro.kind = DistroKind::RedHatCentOS6;
    assert_eq!(distro_mount(&distro), redhat6_mount(&distro));
    assert_eq!(distro_umount(&distro), redhat6_umount(&distro));
}

#[test]
fn every_release_plan_is_its_mount_plan_reversed() {
    let kinds = [
        DistroKind::Debian,
        DistroKind::Ubuntu,
        DistroKind::Suse,
        DistroKind::RedHatCentOS,
        DistroKind::RedHatCentOS6,
        DistroKind::Undefined,
    ];
    for kind in kinds {
        for lvm in [false, true] {
            for ade in [false, true] {
                for efi in [false, true] {
                    for boot_number in [0u8, 1] {
                        let mut distro = profile(kind, "xfs", "ext4", boot_number);
                        if efi {
                            distro = with_efi(distro, "fat16");
                        }
                        if lvm {
                            distro = with_volumes(distro);
                        }
                        distro.is_ade = ade;
                        assert_eq!(distro_umount(&distro), reversed_targets(&distro_mount(&distro)));
                    }
                }
            }
        }
    }
}

#[test]
fn a_plan_of_three_mounts_is_released_last_first() {
    let distro = with_efi(profile(DistroKind::RedHatCentOS, "xfs", "xfs", 1), "xfs");
    let plan = redhat_mount(&distro);
    let real: Vec<String> = plan.iter().take(3).map(|step| step.target.clone()).collect();
    assert_eq!(real, vec!["/mnt/rescue-root/", "/mnt/rescue-root/boot", "/mnt/rescue-root/boot/efi"]);
    let released = redhat_umount(&distro);
    let tail: Vec<String> = released.iter().skip(released.len() - 3).cloned().collect();
    assert_eq!(tail, vec!["/mnt/rescue-root/boot/efi", "/mnt/rescue-root/boot", "/mnt/rescue-root/"]);
}
