//! The filesystem checker: which tool checks a filesystem of a given type, what
//! has to happen before it runs, and what its exit code means for the run.

use crate::constants::ASSERT_PATH;
use crate::mount::{mount_path_assert, scratch_mount};
use crate::probe::{request_views, CheckCommand, CommandView, Request, RequestView};
use crate::text::{join, same};
use vstd::prelude::*;

verus! {

/// The type of a filesystem whose log is replayed before it is repaired.
pub const XFS: &'static str = "xfs";

/// The type under which FAT filesystems are listed.
pub const FAT16: &'static str = "fat16";

/// The other type under which FAT filesystems are listed.
pub const VFAT: &'static str = "vfat";

/// The tool that repairs an XFS filesystem.
pub const XFS_REPAIR: &'static str = "xfs_repair";

/// The tool that checks a FAT filesystem.
pub const FSCK_VFAT: &'static str = "fsck.vfat";

/// What the type of a filesystem is appended to, to name the tool that checks it.
pub const FSCK_PREFIX: &'static str = "fsck.";

/// What a filesystem check amounts to for the rest of the run.
#[derive(Debug, Clone, Copy, PartialEq, Eq, Structural)]
pub enum Outcome {
    /// No filesystem is known, so nothing was checked.
    Skipped,
    /// The check ran; whatever it reported, the run goes on.
    Tolerated,
    /// The filesystem cannot be trusted; the run has to stop.
    Fatal,
}

/// The checker that is run on a filesystem of type `filesystem` at `path`.
pub open spec fn checker_of(path: Seq<char>, filesystem: Seq<char>) -> CommandView {
    if filesystem == XFS@ {
        CommandView { program: XFS_REPAIR@, preen: false, device: path, quiet: true }
    } else if filesystem == FAT16@ {
        CommandView { program: FSCK_VFAT@, preen: true, device: path, quiet: false }
    } else {
        CommandView { program: FSCK_PREFIX@ + filesystem, preen: true, device: path, quiet: false }
    }
}

/// What checking the filesystem of type `filesystem` at `path` takes, in order.
/// Nothing where no filesystem is known. An XFS filesystem is first mounted at the
/// scratch mountpoint and detached again, which replays its log.
pub open spec fn check_steps(path: Seq<char>, filesystem: Seq<char>) -> Seq<RequestView> {
    if filesystem.len() == 0 {
        seq![]
    } else if filesystem == XFS@ {
        seq![
            RequestView::MakeScratch,
            RequestView::Mount(scratch_mount(path)),
            RequestView::Unmount { target: ASSERT_PATH@ },
            RequestView::Check(checker_of(path, filesystem)),
        ]
    } else {
        seq![RequestView::Check(checker_of(path, filesystem))]
    }
}

/// What the end of a checker means. A filesystem that is beyond unattended repair
/// (exit code 4), an XFS repair that leaves damage behind (exit code 1) and a
/// checker that a signal ended are fatal; every other exit code is put up with.
pub open spec fn outcome_of(filesystem: Seq<char>, exit: Option<i32>) -> Outcome {
    if filesystem.len() == 0 {
        Outcome::Skipped
    } else {
        match exit {
            None => Outcome::Fatal,
            Some(code) => if code == 4 || (code == 1 && filesystem == XFS@) {
                Outcome::Fatal
            } else {
                Outcome::Tolerated
            },
        }
    }
}

/// The checker for a filesystem of type `filesystem` at `path`.
pub fn checker(path: &str, filesystem: &str) -> (command: CheckCommand)
    ensures
        command@ == checker_of(path@, filesystem@),
{
    if same(filesystem, XFS) {
        CheckCommand {
            program: String::from_str(XFS_REPAIR),
            preen: false,
            device: String::from_str(path),
            quiet: true,
        }
    } else if same(filesystem, FAT16) {
        CheckCommand {
            program: String::from_str(FSCK_VFAT),
            preen: true,
            device: String::from_str(path),
            quiet: false,
        }
    } else {
        CheckCommand {
            program: join(FSCK_PREFIX, filesystem),
            preen: true,
            device: String::from_str(path),
            quiet: false,
        }
    }
}

/// Step number `index` (from 0) of checking the filesystem at `path`, if the check
/// has that many steps.
pub fn fsck_step(path: &str, filesystem: &str, index: usize) -> (step: Option<Request>)
    ensures
        match step {
            Some(request) => index < check_steps(path@, filesystem@).len() && request@
                == check_steps(path@, filesystem@)[index as int],
            None => index >= check_steps(path@, filesystem@).len(),
        },
{
    if filesystem.is_empty() {
        return None;
    }
    if same(filesystem, XFS) {
        if index == 0 {
            Some(Request::MakeScratch)
        } else if index == 1 {
            Some(Request::Mount(mount_path_assert(path)))
        } else if index == 2 {
            Some(Request::Unmount { target: String::from_str(ASSERT_PATH) })
        } else if index == 3 {
            Some(Request::Check(checker(path, filesystem)))
        } else {
            None
        }
    } else if index == 0 {
        Some(Request::Check(checker(path, filesystem)))
    } else {
        None
    }
}

/// What checking the filesystem of type `filesystem` at `path` takes, in order.
pub fn fsck_partition(partition_path: &str, partition_filesystem: &str) -> (steps: Vec<Request>)
    ensures
        request_views(steps@) == check_steps(partition_path@, partition_filesystem@),
{
    let mut steps: Vec<Request> = Vec::new();
    let mut index: usize = 0;
    loop
        invariant
            index <= 4,
            steps@.len() == index,
            index <= check_steps(partition_path@, partition_filesystem@).len() <= 4,
            forall|k: int|
                0 <= k < index ==> (#[trigger] steps@[k])@ == check_steps(
                    partition_path@,
                    partition_filesystem@,
                )[k],
        decreases 5 - index,
    {
        match fsck_step(partition_path, partition_filesystem, index) {
            Some(request) => {
                steps.push(request);
                index += 1;
            },
            None => {
                assert(request_views(steps@) =~= check_steps(
                    partition_path@,
                    partition_filesystem@,
                ));
                return steps;
            },
        }
    }
}

/// What the end of a checker means for the run.
pub fn fsck_outcome(filesystem: &str, exit: Option<i32>) -> (outcome: Outcome)
    ensures
        outcome == outcome_of(filesystem@, exit),
{
    if filesystem.is_empty() {
        return Outcome::Skipped;
    }
    match exit {
        None => Outcome::Fatal,
        Some(code) => {
            if code == 4 {
                Outcome::Fatal
            } else if code == 1 && same(filesystem, XFS) {
                Outcome::Fatal
            } else {
                Outcome::Tolerated
            }
        },
    }
}

/// A filesystem that is beyond unattended repair stops the run, whatever its type.
pub proof fn law_beyond_repair_is_fatal(filesystem: Seq<char>)
    requires
        filesystem.len() > 0,
    ensures
        outcome_of(filesystem, Some(4)) == Outcome::Fatal,
{
}

/// A general error of a checker is put up with, unless the filesystem is XFS.
pub proof fn law_general_error_is_tolerated(filesystem: Seq<char>)
    requires
        filesystem.len() > 0,
        filesystem != XFS@,
    ensures
        outcome_of(filesystem, Some(1)) == Outcome::Tolerated,
{
}

/// Checking a clean filesystem is put up with however often it is repeated: what a
/// check takes and what its end means depend on the type, the path and the exit
/// code alone, and a clean exit is never fatal.
pub proof fn law_clean_check_repeats(path: Seq<char>, filesystem: Seq<char>)
    requires
        filesystem.len() > 0,
    ensures
        outcome_of(filesystem, Some(0)) == Outcome::Tolerated,
        check_steps(path, filesystem).len() > 0,
        check_steps(path, filesystem).last() == RequestView::Check(checker_of(path, filesystem)),
{
}

/// A FAT filesystem is checked by the FAT checker under either of its names.
pub proof fn law_fat_goes_by_both_names(path: Seq<char>)
    ensures
        checker_of(path, FAT16@) == checker_of(path, VFAT@),
        checker_of(path, VFAT@).program == FSCK_VFAT@,
{
    reveal_strlit("xfs");
    reveal_strlit("fat16");
    reveal_strlit("vfat");
    reveal_strlit("fsck.");
    reveal_strlit("fsck.vfat");
    assert(XFS@.len() == 3 && FAT16@.len() == 5 && VFAT@.len() == 4);
    assert(FSCK_PREFIX@ + VFAT@ =~= FSCK_VFAT@);
}

} // verus!
