//! The classifier: which branch a disk is handed to.
//!
//! The number of partitions decides first. A branch fills in what the catalogue
//! tells and lists the steps that remain; a disk that fits no branch is given up
//! before any step is taken.

use crate::ade::{
    do_ubuntu_ade, redhat6_or_7_ade_plan, redhat_lvm_ade_plan, redhat_nolvm_ade_plan,
    ubuntu_ade_plan,
};
use crate::catalog::{
    count_within, find_first, first_accepted, fits, lemma_first_from, lemma_scaled_from, marked,
    plain, scale_of, views, PartitionRecord, RecordView, Scale, Scope, EFI_MARK, LVM_MARK,
};
use crate::constants::OSENCRYPT_PATH;
use crate::distro::{Distro, DistroKind, DistroView};
use crate::fsck::XFS;
use crate::plan::{
    boot_by_size, check_ops, checked_from, checks_what_it_resolves, delivers, described,
    detaches_what_it_attaches, fsck_one, grounds, locates_nothing, orderly, pair_by_size,
    paired, redhat_verify_ops, released_by, releases_first, resolves, resolves_root_first,
    root_by_size, rooted, then_ops, Medium, Op, Planned, Role, Verdict, ANY,
};
use crate::probe::Fatal;
use crate::redhat::{
    after_scan, do_redhat6_or_7, do_redhat_lvm_or, redhat6_or_7_plan, redhat_lvm_or_plan,
    verify_redhat_nolvm,
};
use crate::suse::{do_suse, suse_plan, SUSE_MARK};
use crate::text::{contains, mentions};
use crate::ubuntu::{do_ubuntu, ubuntu_plan, DEBIAN, UBUNTU};
use vstd::prelude::*;

verus! {

/// The kind of a disk of one partition, as far as the name of its system decides
/// it: Ubuntu where the name says Debian or Ubuntu; else the kind as it was, and
/// the disk is looked at as a Red Hat next.
pub open spec fn single_kind(name: Seq<char>, kind: DistroKind) -> DistroKind {
    if mentions(name, DEBIAN@) || mentions(name, UBUNTU@) {
        DistroKind::Ubuntu
    } else {
        kind
    }
}

/// A disk of one partition: an old Ubuntu or a CentOS. Its only partition is the
/// root. The root is checked, mounted at the scratch mountpoint and looked into;
/// unless it turns out to be Ubuntu or Debian, it is looked into again as a Red Hat.
pub open spec fn single_plan(records: Seq<RecordView>, d: DistroView) -> Planned {
    if records.len() == 0 {
        Err(Fatal::UnrecognizedLayout)
    } else {
        Ok(
            (
                DistroView { root: described(records[0], d.root), ..d },
                seq![Op::Scratch, Op::ByLun(Role::Root)] + check_ops(Role::Root) + seq![
                    Op::Attach(Medium::Partition),
                    Op::ReadIdentity,
                    Op::DetachScratch,
                    Op::Discard,
                    Op::Settle(Verdict::Single),
                ] + redhat_verify_ops(Medium::Partition),
            ),
        )
    }
}

/// A disk of four partitions. A partition with the label of Suse makes it a Suse,
/// whatever else the catalogue shows. Otherwise an encrypted disk is decided by
/// the name of the system that the unlock step has mounted, which is read first;
/// any other disk is a Red Hat.
pub open spec fn four_plan(records: Seq<RecordView>, d: DistroView) -> Planned {
    if first_accepted(records, Scope::All, SUSE_MARK@) is Some {
        suse_plan(records, d)
    } else if d.is_ade {
        Ok((d, seq![Op::Investigate]))
    } else {
        redhat_lvm_or_plan(records, d)
    }
}

/// An encrypted disk of four partitions, once the name of the system that the
/// unlock step has mounted is known: without a name the run cannot go on; Ubuntu
/// where the name says so; a Red Hat otherwise.
pub open spec fn investigated_plan(records: Seq<RecordView>, d: DistroView, name: Seq<char>)
    -> Planned {
    if name.len() == 0 {
        Err(Fatal::InvestigationRootMissing)
    } else if mentions(name, UBUNTU@) {
        ubuntu_ade_plan(records, d)
    } else {
        redhat_lvm_or_plan(records, d)
    }
}

/// The branch that a catalogue is handed to, by the number of its partitions. A
/// disk of no partition, or of more than four, fits no layout.
pub open spec fn dispatch_plan(records: Seq<RecordView>, is_ade: bool, d: DistroView) -> Planned {
    let d = DistroView { is_ade, ..d };
    if records.len() == 1 {
        single_plan(records, d)
    } else if records.len() == 2 {
        redhat6_or_7_plan(records, d)
    } else if records.len() == 3 {
        ubuntu_plan(records, d)
    } else if records.len() == 4 {
        four_plan(records, d)
    } else {
        Err(Fatal::UnrecognizedLayout)
    }
}

/// Decides a disk of one partition as far as the name of its system does.
pub fn set_single_kind(distro: &mut Distro, name: &str)
    ensures
        final(distro)@ == (DistroView {
            kind: single_kind(name@, old(distro)@.kind),
            ..old(distro)@
        }),
{
    if contains(name, DEBIAN) || contains(name, UBUNTU) {
        distro.kind = DistroKind::Ubuntu;
    }
}

/// A disk of one partition.
pub fn do_old_ubuntu_or_centos(partition_info: &Vec<PartitionRecord>, distro: &mut Distro) -> (planned:
    Result<Vec<Op>, Fatal>)
    ensures
        delivers(
            planned,
            old(distro)@,
            final(distro)@,
            single_plan(views(partition_info@), old(distro)@),
        ),
{
    if partition_info.len() == 0 {
        return Err(Fatal::UnrecognizedLayout);
    }
    assert(views(partition_info@)[0] == partition_info@[0]@);
    distro.rescue_root.root_part_fs = partition_info[0].filesystem.clone();
    distro.rescue_root.root_part_number = partition_info[0].number;
    let mut ops: Vec<Op> = Vec::new();
    ops.push(Op::Scratch);
    ops.push(Op::ByLun(Role::Root));
    then_ops(&mut ops, fsck_one(Role::Root));
    ops.push(Op::Attach(Medium::Partition));
    ops.push(Op::ReadIdentity);
    ops.push(Op::DetachScratch);
    ops.push(Op::Discard);
    ops.push(Op::Settle(Verdict::Single));
    then_ops(&mut ops, verify_redhat_nolvm());
    assert(ops@ =~= single_plan(views(partition_info@), old(distro)@)->Ok_0.1);
    Ok(ops)
}

/// A disk of two partitions: Red Hat or CentOS 6 or 7.
pub fn do_red_hat(partition_info: &Vec<PartitionRecord>, distro: &mut Distro) -> (planned: Result<
    Vec<Op>,
    Fatal,
>)
    ensures
        delivers(
            planned,
            old(distro)@,
            final(distro)@,
            redhat6_or_7_plan(views(partition_info@), old(distro)@),
        ),
{
    do_redhat6_or_7(partition_info, distro)
}

/// A disk of three partitions: a recent Ubuntu or Debian.
pub fn do_recent_ubuntu(partition_info: &Vec<PartitionRecord>, distro: &mut Distro) -> (planned:
    Result<Vec<Op>, Fatal>)
    ensures
        delivers(
            planned,
            old(distro)@,
            final(distro)@,
            ubuntu_plan(views(partition_info@), old(distro)@),
        ),
{
    do_ubuntu(partition_info, distro)
}

/// A disk of four partitions: Suse, a Red Hat with or without LVM, or an
/// encrypted Ubuntu.
pub fn do_suse_or_lvm_or_ubuntu(partition_info: &Vec<PartitionRecord>, distro: &mut Distro) -> (planned:
    Result<Vec<Op>, Fatal>)
    ensures
        delivers(
            planned,
            old(distro)@,
            final(distro)@,
            four_plan(views(partition_info@), old(distro)@),
        ),
{
    if find_first(partition_info, Scope::All, SUSE_MARK).is_some() {
        do_suse(partition_info, distro)
    } else if distro.is_ade {
        let mut ops: Vec<Op> = Vec::new();
        ops.push(Op::Investigate);
        assert(ops@ =~= seq![Op::Investigate]);
        Ok(ops)
    } else {
        do_redhat_lvm_or(partition_info, distro)
    }
}

/// An encrypted disk of four partitions, once the name of the system that the
/// unlock step has mounted is known.
pub fn do_investigated(partition_info: &Vec<PartitionRecord>, distro: &mut Distro, name: &str) -> (planned:
    Result<Vec<Op>, Fatal>)
    ensures
        delivers(
            planned,
            old(distro)@,
            final(distro)@,
            investigated_plan(views(partition_info@), old(distro)@, name@),
        ),
{
    if name.is_empty() {
        Err(Fatal::InvestigationRootMissing)
    } else if contains(name, UBUNTU) {
        do_ubuntu_ade(partition_info, distro)
    } else {
        do_redhat_lvm_or(partition_info, distro)
    }
}

/// Hands the catalogue to the branch that the number of its partitions calls for.
/// Where the disk fits no layout the profile is left as it was.
pub fn dispatch(partition_info: &Vec<PartitionRecord>, is_ade: bool, distro: &mut Distro) -> (planned:
    Result<Vec<Op>, Fatal>)
    ensures
        delivers(
            planned,
            old(distro)@,
            final(distro)@,
            dispatch_plan(views(partition_info@), is_ade, old(distro)@),
        ),
{
    let was_ade = distro.is_ade;
    distro.is_ade = is_ade;
    let count = partition_info.len();
    let planned = if count == 1 {
        do_old_ubuntu_or_centos(partition_info, distro)
    } else if count == 2 {
        do_red_hat(partition_info, distro)
    } else if count == 3 {
        do_recent_ubuntu(partition_info, distro)
    } else if count == 4 {
        do_suse_or_lvm_or_ubuntu(partition_info, distro)
    } else {
        Err(Fatal::UnrecognizedLayout)
    };
    if planned.is_err() {
        distro.is_ade = was_ade;
    }
    planned
}

/// A disk that has neither one, two, three nor four partitions fits no layout,
/// and no step is taken for it.
pub proof fn law_other_counts_fit_no_layout(records: Seq<RecordView>, is_ade: bool, d: DistroView)
    requires
        records.len() == 0 || records.len() > 4,
    ensures
        dispatch_plan(records, is_ade, d) == Err::<(DistroView, Seq<Op>), Fatal>(
            Fatal::UnrecognizedLayout,
        ),
{
}

/// The root and the boot partition of a pair never have the same number, whether
/// their sizes tell them apart or custom does.
pub proof fn law_pair_has_two_numbers(records: Seq<RecordView>, scope: Scope, d: DistroView)
    ensures
        paired(records, scope, d).root.number != paired(records, scope, d).boot.number,
        pair_by_size(records, scope) matches Some((root, boot)) ==> {
            &&& 0 <= root < records.len() && 0 <= boot < records.len() && root != boot
            &&& fits(records[root], scope, Scale::Large, None)
            &&& fits(records[boot], scope, Scale::Small, Some(records[root].number))
        },
{
    lemma_scaled_from(records, scope, Scale::Large, None, 0);
    match root_by_size(records, scope) {
        Some(root) => {
            lemma_scaled_from(records, scope, Scale::Small, Some(records[root].number), 0);
        },
        None => {},
    }
}

/// On a disk of two partitions without encryption, of which one has a size in GiB
/// and the other a size in MiB, the first is the root and the second the boot
/// partition, in whichever order the catalogue lists them and whatever unit their
/// offsets are given in. Each takes the number and the filesystem of its own
/// record: where partition 2 is the one of a size in GiB and partition 1 the one
/// of a size in MiB, the root is partition 2 and the boot partition is
/// partition 1.
pub proof fn law_pair_by_size(records: Seq<RecordView>, d: DistroView, large: int, small: int)
    requires
        records.len() == 2,
        0 <= large < 2,
        0 <= small < 2,
        large != small,
        scale_of(records[large].size) == Scale::Large,
        scale_of(records[small].size) == Scale::Small,
        records[large].number != records[small].number,
    ensures
        dispatch_plan(records, false, d) matches Ok((profile, ops)) && profile.root == described(
            records[large],
            d.root,
        ) && profile.boot == described(records[small], d.boot) && profile.root.number
            != profile.boot.number,
        records[large].number == 2 && records[small].number == 1 ==> (dispatch_plan(
            records,
            false,
            d,
        ) matches Ok((profile, ops)) && profile.root.number == 2 && profile.boot.number == 1),
{
    lemma_scaled_from(records, Scope::All, Scale::Large, None, 0);
    lemma_scaled_from(records, Scope::All, Scale::Small, Some(records[large].number), 0);
    assert(fits(records[large], Scope::All, Scale::Large, None));
    assert(!fits(records[small], Scope::All, Scale::Large, None));
    assert(root_by_size(records, Scope::All) == Some(large));
    assert(fits(records[small], Scope::All, Scale::Small, Some(records[large].number)));
    assert(!fits(records[large], Scope::All, Scale::Small, Some(records[large].number)));
    assert(boot_by_size(records, Scope::All, large) == Some(small));
}

/// On a disk of two partitions without encryption whose sizes do not tell the
/// root and the boot partition apart, the pair goes by custom: the root is
/// partition 2 and the boot partition is partition 1. That is so in particular
/// where no size is given in GiB or in MiB.
pub proof fn law_pair_by_custom(records: Seq<RecordView>, d: DistroView)
    requires
        records.len() == 2,
        pair_by_size(records, Scope::All) is None || forall|i: int|
            0 <= i < records.len() ==> scale_of(#[trigger] records[i].size) == Scale::Unknown,
    ensures
        dispatch_plan(records, false, d) matches Ok((profile, ops)) && profile.root.number == 2
            && profile.boot.number == 1,
{
    lemma_scaled_from(records, Scope::All, Scale::Large, None, 0);
}

/// On a disk of four partitions without encryption, without the label of Suse and
/// without LVM, the root and the boot partition are told apart by their sizes
/// among the partitions that are neither the EFI partition nor the BIOS boot
/// partition: the root is the first of these of a size in GiB, the boot partition
/// the first other one of a size in MiB, whatever the sizes of the partitions set
/// aside are.
pub proof fn law_plain_pair_by_size(records: Seq<RecordView>, d: DistroView, root: int, boot: int)
    requires
        records.len() == 4,
        first_accepted(records, Scope::All, SUSE_MARK@) is None,
        first_accepted(records, Scope::All, LVM_MARK@) is None,
        count_within(records, Scope::Plain, 4) != 1,
        pair_by_size(records, Scope::Plain) == Some((root, boot)),
    ensures
        0 <= root < 4 && 0 <= boot < 4 && root != boot,
        plain(records[root]) && scale_of(records[root].size) == Scale::Large,
        plain(records[boot]) && scale_of(records[boot].size) == Scale::Small,
        dispatch_plan(records, false, d) matches Ok((profile, ops)) && profile.root == described(
            records[root],
            d.root,
        ) && profile.boot == described(records[boot], d.boot) && profile.root.number
            != profile.boot.number && !profile.is_lvm,
{
    law_pair_has_two_numbers(records, Scope::Plain, d);
}

/// On a disk of three partitions without encryption, the root is the first
/// partition that is neither the EFI partition nor the BIOS boot partition, and
/// the EFI partition is the first that carries its token: the profile has an EFI
/// partition, and both have the filesystems that the catalogue gives them.
pub proof fn law_three_by_token(records: Seq<RecordView>, d: DistroView, root: int, efi: int)
    requires
        records.len() == 3,
        first_accepted(records, Scope::Plain, ANY@) == Some(root),
        first_accepted(records, Scope::All, EFI_MARK@) == Some(efi),
    ensures
        dispatch_plan(records, false, d) matches Ok((profile, ops)) && profile.root.fs
            == records[root].filesystem && profile.root.number == records[root].number
            && profile.efi is Some && profile.efi_fs() == records[efi].filesystem
            && profile.efi_number() == records[efi].number,
{
}

/// A disk of four partitions of which one carries the label of Suse is handed to
/// the branch for Suse, whether or not another partition carries the token of
/// LVM; without encryption, and with a root that its size tells, its kind is
/// settled at once.
pub proof fn law_suse_label_decides(
    records: Seq<RecordView>,
    is_ade: bool,
    d: DistroView,
    labelled: int,
)
    requires
        records.len() == 4,
        0 <= labelled < 4,
        marked(records[labelled], SUSE_MARK@),
    ensures
        dispatch_plan(records, is_ade, d) == suse_plan(records, DistroView { is_ade, ..d }),
        !is_ade && root_by_size(records, Scope::Plain) is Some ==> (dispatch_plan(
            records,
            is_ade,
            d,
        ) matches Ok((profile, ops)) && profile.kind == DistroKind::Suse),
{
    lemma_first_from(records, Scope::All, SUSE_MARK@, 0);
}

/// An encrypted disk of two partitions goes by the fixed layout that encryption
/// leaves: partition 1 is the boot partition, with XFS; partition 2 is the root,
/// read through the unlocked device. No record of the catalogue is looked at, so
/// any two catalogues of two partitions come to the same.
pub proof fn law_encrypted_pair_is_fixed(
    records: Seq<RecordView>,
    others: Seq<RecordView>,
    d: DistroView,
)
    requires
        records.len() == 2,
        others.len() == 2,
    ensures
        dispatch_plan(records, true, d) == redhat6_or_7_ade_plan(DistroView { is_ade: true, ..d }),
        dispatch_plan(records, true, d) == dispatch_plan(others, true, d),
        dispatch_plan(records, true, d) matches Ok((profile, ops)) && profile.root.number == 2
            && profile.boot.number == 1 && profile.boot.fs == XFS@ && profile.root.path
            == OSENCRYPT_PATH@,
{
}

/// The branches for encrypted disks check what they resolve.
proof fn lemma_encrypted_checked(records: Seq<RecordView>, d: DistroView)
    ensures
        ubuntu_ade_plan(records, d) matches Ok((profile, ops)) && checks_what_it_resolves(ops),
        redhat6_or_7_ade_plan(d) matches Ok((profile, ops)) && checks_what_it_resolves(ops),
        redhat_nolvm_ade_plan(records, d) matches Ok((profile, ops)) && checks_what_it_resolves(
            ops,
        ),
        redhat_lvm_ade_plan(records, d) matches Ok((profile, ops)) && checks_what_it_resolves(ops),
{
    let ops = ubuntu_ade_plan(records, d)->Ok_0.1;
    assert(checked_from(ops, Role::Root, 6));
    assert(checked_from(ops, Role::Boot, 10));
    assert(checked_from(ops, Role::Efi, 14));
    let ops = redhat6_or_7_ade_plan(d)->Ok_0.1;
    assert(checked_from(ops, Role::Root, 5));
    assert(checked_from(ops, Role::Boot, 9));
    assert(checked_from(ops, Role::Efi, 13));
    let ops = redhat_nolvm_ade_plan(records, d)->Ok_0.1;
    assert(checked_from(ops, Role::Root, 6));
    assert(checked_from(ops, Role::Boot, 10));
    assert(checked_from(ops, Role::Efi, 14));
    let ops = redhat_lvm_ade_plan(records, d)->Ok_0.1;
    assert(checked_from(ops, Role::Root, 12));
    assert(checked_from(ops, Role::Boot, 16));
    assert(checked_from(ops, Role::Efi, 20));
}

/// The branches for Red Hat on four partitions check what they resolve.
proof fn lemma_redhat_checked(records: Seq<RecordView>, d: DistroView)
    ensures
        redhat_lvm_or_plan(records, d) matches Ok((profile, ops)) ==> checks_what_it_resolves(ops),
{
    match redhat_lvm_or_plan(records, d) {
        Ok((profile, ops)) => {
            if first_accepted(records, Scope::All, LVM_MARK@) is Some {
                if d.is_ade {
                    assert(checked_from(ops, Role::Root, 13));
                    assert(checked_from(ops, Role::Boot, 17));
                    assert(checked_from(ops, Role::Efi, 21));
                } else {
                    assert(checked_from(ops, Role::Root, 5));
                    assert(checked_from(ops, Role::Boot, 9));
                    assert(checked_from(ops, Role::Efi, 13));
                }
            } else if count_within(records, Scope::Plain, records.len() as int) == 1 {
                assert(checked_from(ops, Role::Root, 2));
            } else if d.is_ade {
                lemma_encrypted_checked(records, DistroView { is_lvm: false, ..d });
            } else {
                assert(checked_from(ops, Role::Root, 4));
                assert(checked_from(ops, Role::Boot, 8));
                assert(checked_from(ops, Role::Efi, 12));
            }
        },
        Err(fatal) => {},
    }
}

/// The branch for Suse checks what it resolves.
proof fn lemma_suse_checked(records: Seq<RecordView>, d: DistroView)
    ensures
        suse_plan(records, d) matches Ok((profile, ops)) ==> checks_what_it_resolves(ops),
{
    match suse_plan(records, d) {
        Ok((profile, ops)) => {
            let root = root_by_size(records, Scope::Plain)->0;
            let boot: int = if boot_by_size(records, Scope::Plain, root) is Some {
                1
            } else {
                0
            };
            assert(checked_from(ops, Role::Root, 3 + boot));
            assert(checked_from(ops, Role::Boot, 7 + boot));
            assert(checked_from(ops, Role::Efi, 11 + boot));
        },
        Err(fatal) => {},
    }
}

/// Whatever branch a disk is handed to, each partition that the branch gives a
/// device is checked by later steps: no profile is complete before the
/// filesystems of its partitions were checked.
pub proof fn law_resolved_partitions_are_checked(
    records: Seq<RecordView>,
    is_ade: bool,
    d: DistroView,
    name: Seq<char>,
)
    ensures
        dispatch_plan(records, is_ade, d) matches Ok((profile, ops)) ==> checks_what_it_resolves(
            ops,
        ),
        investigated_plan(records, d, name) matches Ok((profile, ops)) ==> checks_what_it_resolves(
            ops,
        ),
{
    let e = DistroView { is_ade, ..d };
    lemma_encrypted_checked(records, d);
    lemma_encrypted_checked(records, e);
    lemma_redhat_checked(records, d);
    lemma_redhat_checked(records, e);
    lemma_suse_checked(records, e);
    match dispatch_plan(records, is_ade, d) {
        Ok((profile, ops)) => {
            if records.len() == 1 {
                assert(checked_from(ops, Role::Root, 2));
            } else if records.len() == 2 {
                if !is_ade {
                    assert(checked_from(ops, Role::Root, 3));
                    assert(checked_from(ops, Role::Boot, 7));
                }
            } else if records.len() == 3 {
                if !is_ade {
                    assert(checked_from(ops, Role::Root, 2));
                    assert(checked_from(ops, Role::Efi, 7));
                }
            }
        },
        Err(fatal) => {},
    }
}

/// The branch for an encrypted Ubuntu is in order.
proof fn lemma_ubuntu_ade_orderly(records: Seq<RecordView>, d: DistroView)
    ensures
        ubuntu_ade_plan(records, d) matches Ok((profile, ops)) && detaches_what_it_attaches(ops)
            && releases_first(ops) && locates_nothing(ops),
{
    assert(released_by(ubuntu_ade_plan(records, d)->Ok_0.1, 6));
}

/// The branch for an encrypted pair is in order.
proof fn lemma_pair_ade_orderly(d: DistroView)
    ensures
        redhat6_or_7_ade_plan(d) matches Ok((profile, ops)) && detaches_what_it_attaches(ops)
            && releases_first(ops) && locates_nothing(ops),
{
    assert(released_by(redhat6_or_7_ade_plan(d)->Ok_0.1, 5));
}

/// The branch for an encrypted Red Hat without LVM is in order.
proof fn lemma_nolvm_ade_orderly(records: Seq<RecordView>, d: DistroView)
    ensures
        redhat_nolvm_ade_plan(records, d) matches Ok((profile, ops)) && detaches_what_it_attaches(
            ops,
        ) && releases_first(ops) && locates_nothing(ops),
{
    assert(released_by(redhat_nolvm_ade_plan(records, d)->Ok_0.1, 6));
}

/// The branch for an encrypted Red Hat under LVM is in order.
proof fn lemma_lvm_ade_orderly(records: Seq<RecordView>, d: DistroView)
    ensures
        after_scan(redhat_lvm_ade_plan(records, d)) matches Ok((profile, ops))
            && detaches_what_it_attaches(ops) && releases_first(ops),
{
    assert(released_by(after_scan(redhat_lvm_ade_plan(records, d))->Ok_0.1, 13));
}

/// The branches for Red Hat on four partitions are in order.
proof fn lemma_redhat_orderly(records: Seq<RecordView>, d: DistroView)
    ensures
        redhat_lvm_or_plan(records, d) matches Ok((profile, ops)) ==> orderly(profile, ops),
{
    match redhat_lvm_or_plan(records, d) {
        Ok((profile, ops)) => {
            if first_accepted(records, Scope::All, LVM_MARK@) is Some {
                if d.is_ade {
                    lemma_lvm_ade_orderly(records, DistroView { is_lvm: true, ..d });
                } else {
                    assert(released_by(ops, 0));
                }
            } else if count_within(records, Scope::Plain, records.len() as int) == 1 {
                assert(released_by(ops, 0));
            } else if d.is_ade {
                lemma_nolvm_ade_orderly(records, DistroView { is_lvm: false, ..d });
            } else {
                assert(released_by(ops, 0));
            }
        },
        Err(fatal) => {},
    }
}

/// The branches for one, two and three partitions and for Suse are in order.
proof fn lemma_others_orderly(records: Seq<RecordView>, d: DistroView)
    ensures
        single_plan(records, d) matches Ok((profile, ops)) ==> orderly(profile, ops),
        redhat6_or_7_plan(records, d) matches Ok((profile, ops)) ==> orderly(profile, ops),
        ubuntu_plan(records, d) matches Ok((profile, ops)) ==> orderly(profile, ops),
        suse_plan(records, d) matches Ok((profile, ops)) ==> orderly(profile, ops),
{
    match single_plan(records, d) {
        Ok((profile, ops)) => {
            assert(released_by(ops, 0));
        },
        Err(fatal) => {},
    }
    if d.is_ade {
        lemma_pair_ade_orderly(d);
        lemma_ubuntu_ade_orderly(records, d);
    } else {
        assert(released_by(redhat6_or_7_plan(records, d)->Ok_0.1, 0));
        match ubuntu_plan(records, d) {
            Ok((profile, ops)) => {
                assert(released_by(ops, 0));
            },
            Err(fatal) => {},
        }
    }
    match suse_plan(records, d) {
        Ok((profile, ops)) => {
            assert(released_by(ops, 0));
        },
        Err(fatal) => {},
    }
}

/// Whatever branch a disk is handed to: a root that is mounted at the scratch
/// mountpoint is detached again after it was read, whatever was read; what the
/// unlock step has mounted is detached before anything is checked; and logical
/// volumes are looked up under LVM only.
pub proof fn law_branches_are_orderly(
    records: Seq<RecordView>,
    is_ade: bool,
    d: DistroView,
    name: Seq<char>,
)
    ensures
        dispatch_plan(records, is_ade, d) matches Ok((profile, ops)) ==> orderly(profile, ops),
        investigated_plan(records, d, name) matches Ok((profile, ops)) ==> orderly(profile, ops),
{
    let e = DistroView { is_ade, ..d };
    lemma_others_orderly(records, e);
    lemma_redhat_orderly(records, e);
    lemma_redhat_orderly(records, d);
    lemma_ubuntu_ade_orderly(records, d);
    match dispatch_plan(records, is_ade, d) {
        Ok((profile, ops)) => {
            if records.len() == 4 && first_accepted(records, Scope::All, SUSE_MARK@) is None
                && is_ade {
                assert(released_by(ops, 0));
            }
        },
        Err(fatal) => {},
    }
}

/// The device through which an encrypted root is read has a name.
proof fn lemma_unlocked_device_is_named()
    ensures
        OSENCRYPT_PATH@.len() > 0,
{
    reveal_strlit("/dev/mapper/osencrypt");
}

/// The branches for Red Hat on four partitions lead to the device of the root.
proof fn lemma_redhat_rooted(records: Seq<RecordView>, d: DistroView)
    ensures
        redhat_lvm_or_plan(records, d) matches Ok((profile, ops)) ==> rooted(profile, ops),
{
    lemma_unlocked_device_is_named();
    match redhat_lvm_or_plan(records, d) {
        Ok((profile, ops)) => {
            if first_accepted(records, Scope::All, LVM_MARK@) is Some {
                if !d.is_ade {
                    assert(grounds(ops[2]));
                }
            } else if count_within(records, Scope::Plain, records.len() as int) == 1 {
                assert(grounds(ops[1]));
            } else if !d.is_ade {
                assert(grounds(ops[2]));
            }
        },
        Err(fatal) => {},
    }
}

/// Whatever branch a disk is handed to, the root of its profile has a device or
/// one of its steps leads to it: the root is read through the unlocked device,
/// or a step resolves it, or a step decides the branch that does either.
pub proof fn law_branches_are_rooted(
    records: Seq<RecordView>,
    is_ade: bool,
    d: DistroView,
    name: Seq<char>,
)
    ensures
        dispatch_plan(records, is_ade, d) matches Ok((profile, ops)) ==> rooted(profile, ops),
        investigated_plan(records, d, name) matches Ok((profile, ops)) ==> rooted(profile, ops),
{
    let e = DistroView { is_ade, ..d };
    lemma_unlocked_device_is_named();
    lemma_redhat_rooted(records, d);
    lemma_redhat_rooted(records, e);
    match dispatch_plan(records, is_ade, d) {
        Ok((profile, ops)) => {
            if records.len() == 1 {
                assert(grounds(ops[1]));
            } else if records.len() == 2 || records.len() == 3 {
                if !is_ade {
                    assert(grounds(ops[1]));
                }
            } else if first_accepted(records, Scope::All, SUSE_MARK@) is Some {
                assert(grounds(ops[2]));
            } else if is_ade {
                assert(grounds(ops[0]));
            }
        },
        Err(fatal) => {},
    }
}

/// The branches for Red Hat on four partitions know the root before they work on it.
proof fn lemma_redhat_root_first(records: Seq<RecordView>, d: DistroView)
    ensures
        redhat_lvm_or_plan(records, d) matches Ok((profile, ops)) ==> resolves_root_first(
            profile,
            ops,
        ),
{
    lemma_unlocked_device_is_named();
    match redhat_lvm_or_plan(records, d) {
        Ok((profile, ops)) => {
            if first_accepted(records, Scope::All, LVM_MARK@) is Some {
                if !d.is_ade {
                    assert(resolves(ops[2], Role::Root));
                }
            } else if count_within(records, Scope::Plain, records.len() as int) == 1 {
                assert(resolves(ops[1], Role::Root));
            } else if !d.is_ade {
                assert(resolves(ops[2], Role::Root));
            }
        },
        Err(fatal) => {},
    }
}

/// Whatever branch a disk is handed to, the device of the root is known before
/// it is checked or mounted: no step works on the root before a step has given
/// it its device, unless the root is read through the unlocked device.
pub proof fn law_root_is_resolved_first(
    records: Seq<RecordView>,
    is_ade: bool,
    d: DistroView,
    name: Seq<char>,
)
    ensures
        dispatch_plan(records, is_ade, d) matches Ok((profile, ops)) ==> resolves_root_first(
            profile,
            ops,
        ),
        investigated_plan(records, d, name) matches Ok((profile, ops)) ==> resolves_root_first(
            profile,
            ops,
        ),
{
    let e = DistroView { is_ade, ..d };
    lemma_unlocked_device_is_named();
    lemma_redhat_root_first(records, d);
    lemma_redhat_root_first(records, e);
    match dispatch_plan(records, is_ade, d) {
        Ok((profile, ops)) => {
            if records.len() == 1 {
                assert(resolves(ops[1], Role::Root));
            } else if records.len() == 2 || records.len() == 3 {
                if !is_ade {
                    assert(resolves(ops[1], Role::Root));
                }
            } else if first_accepted(records, Scope::All, SUSE_MARK@) is Some {
                assert(resolves(ops[2], Role::Root));
            }
        },
        Err(fatal) => {},
    }
}

} // verus!
