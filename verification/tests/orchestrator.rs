use alar2::distro::{Distro, DistroKind, EfiPartT, EfiPartition};
use alar2::orchestrator::{MountRun, ReleaseRun};
use alar2::prepare_action::{distro_mount, distro_umount};
use alar2::probe::{Answer, Fatal, Request};

fn red_hat() -> Distro {
    let mut distro = Distro::new();
    distro.kind = DistroKind::RedHatCentOS;
    distro.rescue_root.root_part_fs = "xfs".to_string();
    distro.rescue_root.root_part_path = "/dev/sdc2".to_string();
    distro.boot_part.boot_part_fs = "xfs".to_string();
    distro.boot_part.boot_part_number = 1;
    distro.boot_part.boot_part_path = "/dev/sdc1".to_string();
    distro.efi_part = EfiPartT::EfiPart(EfiPartition {
        efi_part_number: 15,
        efi_part_fs: "fat16".to_string(),
        efi_part_path: "/dev/sdc15".to_string(),
    });
    distro
}

#[test]
fn a_mount_run_goes_through_the_mount_plan() {
    let distro = red_hat();
    let plan = distro_mount(&distro);
    assert_eq!(plan.len(), 8);
    let mut run = MountRun::new(&distro);
    for step in plan {
        assert_eq!(run.pending(), Request::Mount(step));
        run.supply(Answer::Done);
    }
    assert_eq!(run.pending(), Request::Finished);
    run.supply(Answer::Failed);
    assert_eq!(run.pending(), Request::Finished);
}

#[test]
fn a_mount_that_fails_ends_the_run() {
    let distro = red_hat();
    let mut run = MountRun::new(&distro);
    run.supply(Answer::Done);
    run.supply(Answer::Failed);
    assert_eq!(run.pending(), Request::Abort(Fatal::MountFailed));
    run.supply(Answer::Done);
    run.supply(Answer::Done);
    assert_eq!(run.pending(), Request::Abort(Fatal::MountFailed));
}

#[test]
fn a_profile_of_no_kind_has_nothing_to_mount_or_release() {
    let distro = Distro::new();
    assert_eq!(MountRun::new(&distro).pending(), Request::Finished);
    assert_eq!(ReleaseRun::new(&distro).pending(), Request::Finished);
}

#[test]
fn a_release_run_goes_through_whatever_happens() {
    let distro = red_hat();
    let places = distro_umount(&distro);
    assert_eq!(places.len(), 8);
    for failing in [false, true] {
        let mut run = ReleaseRun::new(&distro);
        for place in places.iter() {
            assert_eq!(run.pending(), Request::Unmount { target: place.clone() });
            run.supply(if failing { Answer::Failed } else { Answer::Done });
        }
        assert_eq!(run.pending(), Request::Finished);
        run.supply(Answer::Done);
        assert_eq!(run.pending(), Request::Finished);
    }
}

#[test]
fn the_root_is_released_last() {
    let distro = red_hat();
    let mut run = ReleaseRun::new(&distro);
    let mut last = Request::Finished;
    for _ in 0..20 {
        let request = run.pending();
        if request == Request::Finished {
            break;
        }
        last = request;
        run.supply(Answer::Failed);
    }
    assert_eq!(last, Request::Unmount { target: "/mnt/rescue-root/".to_string() });
}
