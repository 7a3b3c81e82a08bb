//! A classification under way.
//!
//! A session asks for one thing at a time. Whoever drives it carries the pending
//! request out and supplies the answer; the session takes the answer in and comes
//! to its next request, until the profile is complete or the run has to stop.

use crate::ade::{
    investigation_mount, investigation_mounts, set_root_part_fs, with_probed_fs,
};
use crate::catalog::{views, PartitionRecord, RecordView};
use crate::classify::{
    dispatch, dispatch_plan, do_investigated, investigated_plan, law_branches_are_rooted,
    set_single_kind, single_kind,
};
use crate::constants::{
    ASSERT_PATH, INVESTIGATE_RELEASE, LEGACY_RELEASE, LUN_PART_PATH, OSENCRYPT_PATH, OS_RELEASE,
    RESCUE_DISK,
};
use crate::distro::{Distro, DistroKind, DistroView, EfiPartT, PartView, VolumesView};
use crate::fsck::{check_steps, fsck_outcome, fsck_step, outcome_of, Outcome};
use crate::helper::{
    get_efi_part_fs, get_efi_part_number, get_efi_part_path, get_pretty_name, pretty_name,
    set_efi_part_path, with_efi_path,
};
use crate::mount::{mount_path_assert, scratch_mount};
use crate::plan::{grounds, then_ops, Medium, Op, Role, Verdict, Volume};
use crate::probe::{Answer, AnswerView, Fatal, Request, RequestView};
use crate::redhat::{
    lvm_path_helper, redhat_kind, set_redhat_kind, volume_name, volume_path, ROOT_VOLUME,
    USR_VOLUME, VAR_VOLUME,
};
use crate::text::{decimal, decimal_digits, join, lemma_decimal_has_digits};
use crate::ubuntu::{set_ubuntu_kind, ubuntu_kind};
use vstd::prelude::*;

verus! {

/// A session as the contracts see it.
pub struct SessionView {
    /// The catalogue of the disk.
    pub records: Seq<RecordView>,
    /// The profile as far as it is known.
    pub distro: DistroView,
    /// The steps of the branch that the disk was handed to.
    pub ops: Seq<Op>,
    /// How many of the steps are done.
    pub next: nat,
    /// The device of the disk, once resolved.
    pub disk: Seq<char>,
    /// The name of the mounted system, once read.
    pub identity: Seq<char>,
    /// What the older release file holds, once read.
    pub legacy: Seq<char>,
    /// Why the run has to stop, if it has to.
    pub halted: Option<Fatal>,
}

/// The partition that plays a role; a blank one for an EFI partition that the disk
/// does not have.
pub open spec fn part_of(d: DistroView, role: Role) -> PartView {
    match role {
        Role::Root => d.root,
        Role::Boot => d.boot,
        Role::Efi => match d.efi {
            Some(part) => part,
            None => PartView::blank(),
        },
    }
}

/// The disk has a partition in the role. Only the EFI partition can be missing.
pub open spec fn present(d: DistroView, role: Role) -> bool {
    role == Role::Efi ==> d.efi is Some
}

/// The profile with the partition of a role resolved to a device.
pub open spec fn with_path(d: DistroView, role: Role, path: Seq<char>) -> DistroView {
    match role {
        Role::Root => DistroView { root: PartView { path, ..d.root }, ..d },
        Role::Boot => DistroView { boot: PartView { path, ..d.boot }, ..d },
        Role::Efi => with_efi_path(d, path),
    }
}

/// The profile with the device of a logical volume.
pub open spec fn with_volume(d: DistroView, volume: Volume, path: Seq<char>) -> DistroView {
    match volume {
        Volume::Root => DistroView { volumes: VolumesView { root: path, ..d.volumes }, ..d },
        Volume::Usr => DistroView { volumes: VolumesView { usr: path, ..d.volumes }, ..d },
        Volume::Var => DistroView { volumes: VolumesView { var: path, ..d.volumes }, ..d },
    }
}

/// The link of the partition with the given number.
pub open spec fn lun_link(number: u8) -> Seq<char> {
    LUN_PART_PATH@ + decimal_digits(number as nat)
}

/// The device of the partition with the given number on the disk at `disk`.
pub open spec fn disk_part(disk: Seq<char>, number: u8) -> Seq<char> {
    disk + decimal_digits(number as nat)
}

/// What is mounted at the scratch mountpoint to look into the root.
pub open spec fn scratch_source(d: DistroView, medium: Medium) -> Seq<char> {
    match medium {
        Medium::Partition => d.root.path,
        Medium::Volume => d.volumes.root,
    }
}

/// The name under which a logical volume is looked up.
pub open spec fn volume_token(volume: Volume) -> Seq<char> {
    match volume {
        Volume::Root => ROOT_VOLUME@,
        Volume::Usr => USR_VOLUME@,
        Volume::Var => VAR_VOLUME@,
    }
}

/// The kind is still open.
pub open spec fn undecided(d: DistroView) -> bool {
    d.kind == DistroKind::Undefined
}

/// The request that a step comes to, if it comes to one. A step about an EFI
/// partition that the disk does not have comes to none; the root of a disk under
/// LVM is not released, its volumes are; a check comes to as many requests as the
/// filesystem asks for; and nothing is mounted or read to decide a kind that is
/// decided already, nor is the older release file read where the system gave
/// its name.
pub open spec fn request_of(s: SessionView, op: Op) -> Option<RequestView> {
    let d = s.distro;
    match op {
        Op::ResolveDisk => Some(RequestView::Resolve { path: RESCUE_DISK@ }),
        Op::ByDisk(role) => None,
        Op::ByLun(role) => if present(d, role) {
            Some(RequestView::Resolve { path: lun_link(part_of(d, role).number) })
        } else {
            None
        },
        Op::ProbeEncrypted => Some(RequestView::ProbeFilesystem { device: OSENCRYPT_PATH@ }),
        Op::Release(role) => if present(d, role) && !(role == Role::Root && d.is_lvm) {
            Some(RequestView::Release { source: part_of(d, role).path })
        } else {
            None
        },
        Op::Detach(position) => if position < 6 {
            Some(RequestView::Unmount { target: investigation_mounts()[position as int] })
        } else {
            None
        },
        Op::Check(role, position) => {
            let steps = check_steps(part_of(d, role).path, part_of(d, role).fs);
            if position < steps.len() {
                Some(steps[position as int])
            } else {
                None
            }
        },
        Op::ScanVolumes => Some(RequestView::ScanVolumes),
        Op::Locate(volume) => Some(RequestView::FindVolume { name: volume_token(volume) }),
        Op::Scratch => if undecided(d) {
            Some(RequestView::MakeScratch)
        } else {
            None
        },
        Op::Attach(medium) => if undecided(d) {
            Some(RequestView::Mount(scratch_mount(scratch_source(d, medium))))
        } else {
            None
        },
        Op::ReadIdentity => if undecided(d) {
            Some(RequestView::ReadIdentity { path: OS_RELEASE@ })
        } else {
            None
        },
        Op::ReadLegacy => if undecided(d) && s.identity.len() == 0 {
            Some(RequestView::ReadFile { path: LEGACY_RELEASE@ })
        } else {
            None
        },
        Op::DetachScratch => if undecided(d) {
            Some(RequestView::Unmount { target: ASSERT_PATH@ })
        } else {
            None
        },
        Op::Discard => if undecided(d) {
            Some(RequestView::RemoveScratch)
        } else {
            None
        },
        Op::Settle(verdict) => None,
        Op::Investigate => Some(RequestView::ReadIdentity { path: INVESTIGATE_RELEASE@ }),
    }
}

/// The session brought to a stop.
pub open spec fn halt(s: SessionView, fatal: Fatal) -> SessionView {
    SessionView { halted: Some(fatal), ..s }
}

/// The kind that a verdict comes to, from what was read of the mounted system.
pub open spec fn settled_kind(s: SessionView, verdict: Verdict) -> Result<DistroKind, Fatal> {
    match verdict {
        Verdict::Single => Ok(single_kind(s.identity, s.distro.kind)),
        Verdict::Ubuntu => Ok(ubuntu_kind(s.identity, s.distro.kind)),
        Verdict::RedHat => redhat_kind(s.identity, s.legacy),
    }
}

/// What a step that comes to no request does. A partition gets its device from the
/// device of the disk; a kind that is still open is decided; every other such step
/// does nothing.
pub open spec fn pass(s: SessionView, op: Op) -> SessionView {
    match op {
        Op::ByDisk(role) => SessionView {
            distro: with_path(s.distro, role, disk_part(s.disk, part_of(s.distro, role).number)),
            ..s
        },
        Op::Settle(verdict) => if undecided(s.distro) {
            match settled_kind(s, verdict) {
                Ok(kind) => SessionView { distro: DistroView { kind, ..s.distro }, ..s },
                Err(fatal) => halt(s, fatal),
            }
        } else {
            s
        },
        _ => s,
    }
}

/// What was read, if anything was.
pub open spec fn text_of(answer: AnswerView) -> Seq<char> {
    match answer {
        AnswerView::Text(t) => t,
        _ => Seq::empty(),
    }
}

/// The device that a link was resolved to, if it was: an answer without a text, or
/// with an empty one, names no device.
pub open spec fn resolved(answer: AnswerView) -> Option<Seq<char>> {
    match answer {
        AnswerView::Text(path) => if path.len() > 0 {
            Some(path)
        } else {
            None
        },
        _ => None,
    }
}

/// What the answer to one request of a check does. A scratch mountpoint that
/// cannot be created or mounted stops the run, and so does a checker whose end is
/// fatal; a checker that could not be started counts as one that found nothing.
pub open spec fn absorb_check(s: SessionView, role: Role, position: u8, answer: AnswerView)
    -> SessionView {
    let part = part_of(s.distro, role);
    let steps = check_steps(part.path, part.fs);
    if position >= steps.len() {
        s
    } else {
        match steps[position as int] {
            RequestView::MakeScratch => if answer is Failed {
                halt(s, Fatal::ScratchUnavailable)
            } else {
                s
            },
            RequestView::Mount(_) => if answer is Failed {
                halt(s, Fatal::MountFailed)
            } else {
                s
            },
            RequestView::Check(_) => match answer {
                AnswerView::Exit(code) => if outcome_of(part.fs, code) == Outcome::Fatal {
                    halt(s, Fatal::CheckFailed)
                } else {
                    s
                },
                _ => s,
            },
            _ => s,
        }
    }
}

/// What the answer to the request of a step does to the session. A link that
/// resolves to no device, volumes that cannot be activated and a root that cannot
/// be mounted stop the run. What cannot be detached or removed is put up with.
pub open spec fn absorb(s: SessionView, op: Op, answer: AnswerView) -> SessionView {
    match op {
        Op::ResolveDisk => match resolved(answer) {
            Some(path) => SessionView { disk: path, ..s },
            None => halt(s, Fatal::UnresolvedPath),
        },
        Op::ByLun(role) => match resolved(answer) {
            Some(path) => SessionView { distro: with_path(s.distro, role, path), ..s },
            None => halt(s, Fatal::UnresolvedPath),
        },
        Op::ProbeEncrypted => match answer {
            AnswerView::Text(line) => match with_probed_fs(s.distro, line) {
                Ok(d) => SessionView { distro: d, ..s },
                Err(fatal) => halt(s, fatal),
            },
            _ => s,
        },
        Op::Check(role, position) => absorb_check(s, role, position, answer),
        Op::ScanVolumes => if answer is Failed {
            halt(s, Fatal::VolumesUnavailable)
        } else {
            s
        },
        Op::Locate(volume) => SessionView {
            distro: with_volume(s.distro, volume, volume_path(text_of(answer))),
            ..s
        },
        Op::Scratch => if answer is Failed {
            halt(s, Fatal::ScratchUnavailable)
        } else {
            s
        },
        Op::Attach(medium) => if answer is Failed {
            halt(s, Fatal::MountFailed)
        } else {
            s
        },
        Op::ReadIdentity => SessionView { identity: pretty_name(text_of(answer)), ..s },
        Op::ReadLegacy => SessionView { legacy: text_of(answer), ..s },
        Op::Investigate => match investigated_plan(
            s.records,
            s.distro,
            pretty_name(text_of(answer)),
        ) {
            Ok((d, more)) => SessionView { distro: d, ops: s.ops + more, ..s },
            Err(fatal) => halt(s, fatal),
        },
        _ => s,
    }
}

/// Nothing is left to be supplied: the run has stopped or all steps are done.
pub open spec fn idle(s: SessionView) -> bool {
    s.halted is Some || s.next >= s.ops.len()
}

/// The session after the steps that come to no request: at its next request, at
/// its end, or stopped.
pub open spec fn settle(s: SessionView) -> SessionView
    decreases s.ops.len() - s.next,
{
    if idle(s) || request_of(s, s.ops[s.next as int]) is Some {
        s
    } else {
        let passed = pass(s, s.ops[s.next as int]);
        settle(
            SessionView {
                next: s.next + 1,
                distro: passed.distro,
                halted: passed.halted,
                ..s
            },
        )
    }
}

/// The session is at a request, at its end, or stopped.
pub open spec fn settled(s: SessionView) -> bool {
    idle(s) || request_of(s, s.ops[s.next as int]) is Some
}

/// What the session asks for. A stopped run asks to be aborted. When all steps
/// are done the profile is complete, unless its kind is still open: then the disk
/// was not recognised.
pub open spec fn pending_of(s: SessionView) -> RequestView {
    match s.halted {
        Some(fatal) => RequestView::Abort(fatal),
        None => if s.next >= s.ops.len() {
            if undecided(s.distro) {
                RequestView::Abort(Fatal::UnrecognizedLayout)
            } else {
                RequestView::Finished
            }
        } else {
            match request_of(s, s.ops[s.next as int]) {
                Some(request) => request,
                None => RequestView::Finished,
            }
        },
    }
}

/// The session after the answer to its pending request. An answer that nothing
/// asked for changes nothing.
pub open spec fn supply_of(s: SessionView, answer: AnswerView) -> SessionView {
    if idle(s) {
        s
    } else {
        let taken = absorb(s, s.ops[s.next as int], answer);
        settle(SessionView { next: s.next + 1, ..taken })
    }
}

/// The session at its start: the catalogue is handed to its branch, and the steps
/// that come to no request are passed.
pub open spec fn start_of(records: Seq<RecordView>, is_ade: bool) -> SessionView {
    let fresh = SessionView {
        records,
        distro: DistroView::blank(),
        ops: seq![],
        next: 0,
        disk: Seq::empty(),
        identity: Seq::empty(),
        legacy: Seq::empty(),
        halted: None,
    };
    match dispatch_plan(records, is_ade, DistroView::blank()) {
        Ok((d, ops)) => settle(SessionView { distro: d, ops, ..fresh }),
        Err(fatal) => halt(fresh, fatal),
    }
}

/// The classification of one disk.
#[derive(Debug)]
pub struct Session {
    catalog: Vec<PartitionRecord>,
    distro: Distro,
    ops: Vec<Op>,
    next: usize,
    disk: String,
    identity: String,
    legacy: String,
    halted: Option<Fatal>,
}

impl View for Session {
    type V = SessionView;

    closed spec fn view(&self) -> SessionView {
        SessionView {
            records: views(self.catalog@),
            distro: self.distro@,
            ops: self.ops@,
            next: self.next as nat,
            disk: self.disk@,
            identity: self.identity@,
            legacy: self.legacy@,
            halted: self.halted,
        }
    }
}

/// Whether the disk has a partition in the role.
fn has_part(distro: &Distro, role: Role) -> (has: bool)
    ensures
        has == present(distro@, role),
{
    match role {
        Role::Efi => match &distro.efi_part {
            EfiPartT::EfiPart(_) => true,
            EfiPartT::NoEFI => false,
        },
        _ => true,
    }
}

/// The device of the partition in a role.
fn part_path(distro: &Distro, role: Role) -> (path: String)
    ensures
        path@ == part_of(distro@, role).path,
{
    match role {
        Role::Root => distro.rescue_root.root_part_path.clone(),
        Role::Boot => distro.boot_part.boot_part_path.clone(),
        Role::Efi => get_efi_part_path(distro),
    }
}

/// The filesystem of the partition in a role.
fn part_fs(distro: &Distro, role: Role) -> (fs: String)
    ensures
        fs@ == part_of(distro@, role).fs,
{
    match role {
        Role::Root => distro.rescue_root.root_part_fs.clone(),
        Role::Boot => distro.boot_part.boot_part_fs.clone(),
        Role::Efi => get_efi_part_fs(distro),
    }
}

/// The number of the partition in a role.
fn part_number(distro: &Distro, role: Role) -> (number: u8)
    ensures
        number == part_of(distro@, role).number,
{
    match role {
        Role::Root => distro.rescue_root.root_part_number,
        Role::Boot => distro.boot_part.boot_part_number,
        Role::Efi => get_efi_part_number(distro),
    }
}

/// Sets the device of the partition in a role.
fn set_part_path(distro: &mut Distro, role: Role, path: String)
    ensures
        final(distro)@ == with_path(old(distro)@, role, path@),
{
    match role {
        Role::Root => {
            distro.rescue_root.root_part_path = path;
        },
        Role::Boot => {
            distro.boot_part.boot_part_path = path;
        },
        Role::Efi => {
            set_efi_part_path(distro, path);
        },
    }
}

/// Sets the device of a logical volume.
fn set_volume(distro: &mut Distro, volume: Volume, path: String)
    ensures
        final(distro)@ == with_volume(old(distro)@, volume, path@),
{
    match volume {
        Volume::Root => {
            distro.lvm_details.lvm_root_part = path;
        },
        Volume::Usr => {
            distro.lvm_details.lvm_usr_part = path;
        },
        Volume::Var => {
            distro.lvm_details.lvm_var_part = path;
        },
    }
}

/// What was read, if anything was.
fn answer_text(answer: &Answer) -> (text: String)
    ensures
        text@ == text_of(answer@),
{
    match answer {
        Answer::Text(t) => t.clone(),
        _ => String::new(),
    }
}

/// The device that a link was resolved to, if it was.
fn answer_device(answer: Answer) -> (device: Option<String>)
    ensures
        match device {
            Some(path) => resolved(answer@) == Some(path@),
            None => resolved(answer@) is None,
        },
{
    match answer {
        Answer::Text(path) => {
            if path.as_str().is_empty() {
                None
            } else {
                Some(path)
            }
        },
        _ => None,
    }
}

/// Whether the request could not be carried out.
fn answer_failed(answer: &Answer) -> (failed: bool)
    ensures
        failed == (answer@ is Failed),
{
    match answer {
        Answer::Failed => true,
        _ => false,
    }
}

impl Session {
    /// Starts the classification of the disk with the given catalogue, encrypted
    /// or not.
    pub fn new(catalog: Vec<PartitionRecord>, is_ade: bool) -> (session: Session)
        ensures
            session@ == start_of(views(catalog@), is_ade),
    {
        let mut distro = Distro::new();
        let planned = dispatch(&catalog, is_ade, &mut distro);
        let mut session = Session {
            catalog,
            distro,
            ops: Vec::new(),
            next: 0,
            disk: String::new(),
            identity: String::new(),
            legacy: String::new(),
            halted: None,
        };
        match planned {
            Ok(ops) => {
                session.ops = ops;
                session.settle();
            },
            Err(fatal) => {
                session.halted = Some(fatal);
            },
        }
        session
    }

    /// The profile as far as it is known. It is complete once `Finished` is pending.
    pub fn profile(&self) -> (distro: &Distro)
        ensures
            distro@ == self@.distro,
    {
        &self.distro
    }

    /// Ends the session and hands out the profile.
    pub fn into_profile(self) -> (distro: Distro)
        ensures
            distro@ == self@.distro,
    {
        self.distro
    }

    /// What is to be done next.
    pub fn pending(&self) -> (request: Request)
        ensures
            request@ == pending_of(self@),
    {
        match self.halted {
            Some(fatal) => Request::Abort(fatal),
            None => {
                if self.next >= self.ops.len() {
                    if self.distro.kind == DistroKind::Undefined {
                        Request::Abort(Fatal::UnrecognizedLayout)
                    } else {
                        Request::Finished
                    }
                } else {
                    match self.issue(self.ops[self.next]) {
                        Some(request) => request,
                        None => Request::Finished,
                    }
                }
            },
        }
    }

    /// Takes in the answer to the pending request and goes on to the next one.
    pub fn supply(&mut self, answer: Answer)
        ensures
            final(self)@ == supply_of(old(self)@, answer@),
    {
        if self.halted.is_some() || self.next >= self.ops.len() {
            return ;
        }
        let op = self.ops[self.next];
        self.take(op, answer);
        self.next = self.next + 1;
        self.settle();
    }

    /// The request that a step comes to, if it comes to one.
    fn issue(&self, op: Op) -> (request: Option<Request>)
        ensures
            match request {
                Some(r) => request_of(self@, op) == Some(r@),
                None => request_of(self@, op) is None,
            },
    {
        let open = self.distro.kind == DistroKind::Undefined;
        match op {
            Op::ResolveDisk => Some(Request::Resolve { path: String::from_str(RESCUE_DISK) }),
            Op::ByDisk(_) => None,
            Op::ByLun(role) => {
                if has_part(&self.distro, role) {
                    let digits = decimal(part_number(&self.distro, role));
                    Some(Request::Resolve { path: join(LUN_PART_PATH, digits.as_str()) })
                } else {
                    None
                }
            },
            Op::ProbeEncrypted => Some(
                Request::ProbeFilesystem { device: String::from_str(OSENCRYPT_PATH) },
            ),
            Op::Release(role) => {
                let root_under_lvm = match role {
                    Role::Root => self.distro.is_lvm,
                    _ => false,
                };
                if has_part(&self.distro, role) && !root_under_lvm {
                    Some(Request::Release { source: part_path(&self.distro, role) })
                } else {
                    None
                }
            },
            Op::Detach(position) => match investigation_mount(position) {
                Some(place) => Some(Request::Unmount { target: String::from_str(place) }),
                None => None,
            },
            Op::Check(role, position) => {
                let path = part_path(&self.distro, role);
                let fs = part_fs(&self.distro, role);
                fsck_step(path.as_str(), fs.as_str(), position as usize)
            },
            Op::ScanVolumes => Some(Request::ScanVolumes),
            Op::Locate(volume) => Some(
                Request::FindVolume { name: String::from_str(volume_name(volume)) },
            ),
            Op::Scratch => if open {
                Some(Request::MakeScratch)
            } else {
                None
            },
            Op::Attach(medium) => {
                if open {
                    let step = match medium {
                        Medium::Partition => mount_path_assert(
                            self.distro.rescue_root.root_part_path.as_str(),
                        ),
                        Medium::Volume => mount_path_assert(
                            self.distro.lvm_details.lvm_root_part.as_str(),
                        ),
                    };
                    Some(Request::Mount(step))
                } else {
                    None
                }
            },
            Op::ReadIdentity => if open {
                Some(Request::ReadIdentity { path: String::from_str(OS_RELEASE) })
            } else {
                None
            },
            Op::ReadLegacy => if open && self.identity.as_str().is_empty() {
                Some(Request::ReadFile { path: String::from_str(LEGACY_RELEASE) })
            } else {
                None
            },
            Op::DetachScratch => if open {
                Some(Request::Unmount { target: String::from_str(ASSERT_PATH) })
            } else {
                None
            },
            Op::Discard => if open {
                Some(Request::RemoveScratch)
            } else {
                None
            },
            Op::Settle(_) => None,
            Op::Investigate => Some(
                Request::ReadIdentity { path: String::from_str(INVESTIGATE_RELEASE) },
            ),
        }
    }

    /// Does what a step that comes to no request does.
    fn pass(&mut self, op: Op)
        ensures
            final(self)@ == pass(old(self)@, op),
    {
        match op {
            Op::ByDisk(role) => {
                let digits = decimal(part_number(&self.distro, role));
                let path = join(self.disk.as_str(), digits.as_str());
                set_part_path(&mut self.distro, role, path);
            },
            Op::Settle(verdict) => {
                if self.distro.kind == DistroKind::Undefined {
                    match verdict {
                        Verdict::Single => {
                            set_single_kind(&mut self.distro, self.identity.as_str());
                        },
                        Verdict::Ubuntu => {
                            set_ubuntu_kind(&mut self.distro, self.identity.as_str());
                        },
                        Verdict::RedHat => {
                            match set_redhat_kind(
                                &mut self.distro,
                                self.identity.as_str(),
                                self.legacy.as_str(),
                            ) {
                                Ok(()) => {},
                                Err(fatal) => {
                                    self.halted = Some(fatal);
                                },
                            }
                        },
                    }
                }
            },
            _ => {},
        }
    }

    /// Takes in the answer to one request of a check.
    fn take_check(&mut self, role: Role, position: u8, answer: Answer)
        ensures
            final(self)@ == absorb_check(old(self)@, role, position, answer@),
    {
        let path = part_path(&self.distro, role);
        let fs = part_fs(&self.distro, role);
        match fsck_step(path.as_str(), fs.as_str(), position as usize) {
            Some(Request::MakeScratch) => {
                if answer_failed(&answer) {
                    self.halted = Some(Fatal::ScratchUnavailable);
                }
            },
            Some(Request::Mount(_)) => {
                if answer_failed(&answer) {
                    self.halted = Some(Fatal::MountFailed);
                }
            },
            Some(Request::Check(_)) => {
                match answer {
                    Answer::Exit(code) => {
                        match fsck_outcome(fs.as_str(), code) {
                            Outcome::Fatal => {
                                self.halted = Some(Fatal::CheckFailed);
                            },
                            _ => {},
                        }
                    },
                    _ => {},
                }
            },
            _ => {},
        }
    }

    /// Takes in the answer to the request of a step.
    fn take(&mut self, op: Op, answer: Answer)
        ensures
            final(self)@ == absorb(old(self)@, op, answer@),
    {
        match op {
            Op::ResolveDisk => match answer_device(answer) {
                Some(path) => {
                    self.disk = path;
                },
                None => {
                    self.halted = Some(Fatal::UnresolvedPath);
                },
            },
            Op::ByLun(role) => match answer_device(answer) {
                Some(path) => {
                    set_part_path(&mut self.distro, role, path);
                },
                None => {
                    self.halted = Some(Fatal::UnresolvedPath);
                },
            },
            Op::ProbeEncrypted => match answer {
                Answer::Text(line) => {
                    match set_root_part_fs(&mut self.distro, line.as_str()) {
                        Ok(()) => {},
                        Err(fatal) => {
                            self.halted = Some(fatal);
                        },
                    }
                },
                _ => {},
            },
            Op::Check(role, position) => {
                self.take_check(role, position, answer);
            },
            Op::ScanVolumes => {
                if answer_failed(&answer) {
                    self.halted = Some(Fatal::VolumesUnavailable);
                }
            },
            Op::Locate(volume) => {
                let line = answer_text(&answer);
                set_volume(&mut self.distro, volume, lvm_path_helper(line.as_str()));
            },
            Op::Scratch => {
                if answer_failed(&answer) {
                    self.halted = Some(Fatal::ScratchUnavailable);
                }
            },
            Op::Attach(_) => {
                if answer_failed(&answer) {
                    self.halted = Some(Fatal::MountFailed);
                }
            },
            Op::ReadIdentity => {
                let line = answer_text(&answer);
                self.identity = get_pretty_name(line.as_str());
            },
            Op::ReadLegacy => {
                self.legacy = answer_text(&answer);
            },
            Op::Investigate => {
                let line = answer_text(&answer);
                let name = get_pretty_name(line.as_str());
                match do_investigated(&self.catalog, &mut self.distro, name.as_str()) {
                    Ok(more) => {
                        then_ops(&mut self.ops, more);
                    },
                    Err(fatal) => {
                        self.halted = Some(fatal);
                    },
                }
            },
            _ => {},
        }
    }

    /// Passes the steps that come to no request.
    fn settle(&mut self)
        ensures
            final(self)@ == settle(old(self)@),
    {
        let ghost start = self@;
        loop
            invariant
                start == old(self)@,
                settle(self@) == settle(start),
            decreases self.ops.len() - self.next,
        {
            if self.halted.is_some() || self.next >= self.ops.len() {
                assert(settle(self@) == self@);
                return ;
            }
            let op = self.ops[self.next];
            if self.issue(op).is_some() {
                assert(settle(self@) == self@);
                return ;
            }
            self.pass(op);
            self.next = self.next + 1;
        }
    }
}

/// Passing the steps that come to no request leaves the session at a request, at
/// its end, or stopped, and touches neither the catalogue nor the steps.
pub proof fn lemma_settle(s: SessionView)
    ensures
        settled(settle(s)),
        settle(s).ops == s.ops,
        settle(s).records == s.records,
        settle(s).next >= s.next,
        !undecided(s.distro) ==> settle(s).distro.kind == s.distro.kind,
    decreases s.ops.len() - s.next,
{
    if !(idle(s) || request_of(s, s.ops[s.next as int]) is Some) {
        let passed = pass(s, s.ops[s.next as int]);
        lemma_settle(
            SessionView {
                next: s.next + 1,
                distro: passed.distro,
                halted: passed.halted,
                ..s
            },
        );
    }
}

/// A session is always at a request, at its end, or stopped: at its start, and
/// after every answer.
pub proof fn law_session_is_settled(
    records: Seq<RecordView>,
    is_ade: bool,
    s: SessionView,
    answer: AnswerView,
)
    requires
        settled(s),
    ensures
        settled(start_of(records, is_ade)),
        settled(supply_of(s, answer)),
{
    match dispatch_plan(records, is_ade, DistroView::blank()) {
        Ok((d, ops)) => {
            lemma_settle(
                SessionView {
                    records,
                    distro: d,
                    ops,
                    next: 0,
                    disk: Seq::empty(),
                    identity: Seq::empty(),
                    legacy: Seq::empty(),
                    halted: None,
                },
            );
        },
        Err(fatal) => {},
    }
    if !idle(s) {
        let taken = absorb(s, s.ops[s.next as int], answer);
        lemma_settle(SessionView { next: s.next + 1, ..taken });
    }
}

/// A profile is declared complete only with its kind decided, all steps done and
/// the run not stopped.
pub proof fn law_finished_is_decided(s: SessionView)
    requires
        settled(s),
        pending_of(s) == RequestView::Finished,
    ensures
        !undecided(s.distro),
        s.halted is None,
        s.next >= s.ops.len(),
{
}

/// A disk that has neither one, two, three nor four partitions is given up at
/// once: the first thing the session asks for is to be aborted, no request is
/// ever made for it, and no answer changes that.
pub proof fn law_other_counts_abort_at_once(
    records: Seq<RecordView>,
    is_ade: bool,
    answer: AnswerView,
)
    requires
        records.len() == 0 || records.len() > 4,
    ensures
        pending_of(start_of(records, is_ade)) == RequestView::Abort(Fatal::UnrecognizedLayout),
        start_of(records, is_ade).ops.len() == 0,
        supply_of(start_of(records, is_ade), answer) == start_of(records, is_ade),
{
}

/// The kind is decided once: no answer changes a kind that is decided.
pub proof fn law_kind_is_decided_once(s: SessionView, answer: AnswerView)
    requires
        !undecided(s.distro),
    ensures
        supply_of(s, answer).distro.kind == s.distro.kind,
{
    if !idle(s) {
        let taken = absorb(s, s.ops[s.next as int], answer);
        assert(taken.distro.kind == s.distro.kind);
        lemma_settle(SessionView { next: s.next + 1, ..taken });
    }
}

/// A filesystem that is beyond unattended repair stops the run: when the pending
/// request is the run of a checker and the checker ends with exit code 4, or a
/// signal ends it, the session asks to be aborted next.
pub proof fn law_fatal_check_aborts(s: SessionView, exit: Option<i32>)
    requires
        !idle(s),
        pending_of(s) is Check,
        exit == Some(4i32) || exit is None,
    ensures
        pending_of(supply_of(s, AnswerView::Exit(exit))) == RequestView::Abort(Fatal::CheckFailed),
{
    let op = s.ops[s.next as int];
    let taken = absorb(s, op, AnswerView::Exit(exit));
    assert(op is Check);
    assert(taken.halted == Some(Fatal::CheckFailed));
    assert(settle(SessionView { next: s.next + 1, ..taken }) == (SessionView {
        next: s.next + 1,
        ..taken
    }));
}

/// The layout of the disk as the contracts see it: what the branch settles before
/// the first step is taken.
pub open spec fn layout(d: DistroView) -> (bool, u8, u8, u8) {
    (d.is_lvm, d.root.number, d.boot.number, d.efi_number())
}

/// Whether the disk is encrypted is settled at the start, and the layout of the
/// disk by the branch it is handed to: no answer changes the first, and only the
/// answer that decides the branch of an encrypted disk changes whether the disk is
/// under LVM or the number of a partition.
pub proof fn law_layout_is_settled(s: SessionView, answer: AnswerView)
    ensures
        supply_of(s, answer).distro.is_ade == s.distro.is_ade,
        !idle(s) && s.ops[s.next as int] != Op::Investigate ==> layout(
            supply_of(s, answer).distro,
        ) == layout(s.distro),
{
    if !idle(s) {
        let taken = absorb(s, s.ops[s.next as int], answer);
        assert(taken.distro.is_ade == s.distro.is_ade);
        lemma_settle_keeps_layout(SessionView { next: s.next + 1, ..taken });
    }
}

/// Passing the steps that come to no request changes nothing of the layout.
proof fn lemma_settle_keeps_layout(s: SessionView)
    ensures
        settle(s).distro.is_ade == s.distro.is_ade,
        layout(settle(s).distro) == layout(s.distro),
    decreases s.ops.len() - s.next,
{
    if !(idle(s) || request_of(s, s.ops[s.next as int]) is Some) {
        let passed = pass(s, s.ops[s.next as int]);
        lemma_settle_keeps_layout(
            SessionView {
                next: s.next + 1,
                distro: passed.distro,
                halted: passed.halted,
                ..s
            },
        );
    }
}

/// The root has a device, or a step that is still to come leads to it, or the run
/// has stopped.
pub open spec fn grounded(s: SessionView) -> bool {
    ||| s.halted is Some
    ||| s.distro.root.path.len() > 0
    ||| exists|i: int| s.next <= i < s.ops.len() && #[trigger] grounds(s.ops[i])
}

/// The session after a row of answers, each supplied in its turn.
pub open spec fn after(s: SessionView, answers: Seq<AnswerView>) -> SessionView
    decreases answers.len(),
{
    if answers.len() == 0 {
        s
    } else {
        supply_of(after(s, answers.drop_last()), answers.last())
    }
}

/// Passing the steps that come to no request keeps the session grounded.
proof fn lemma_settle_grounded(s: SessionView)
    requires
        grounded(s),
    ensures
        grounded(settle(s)),
    decreases s.ops.len() - s.next,
{
    if !(idle(s) || request_of(s, s.ops[s.next as int]) is Some) {
        let op = s.ops[s.next as int];
        let passed = pass(s, op);
        let then = SessionView {
            next: s.next + 1,
            distro: passed.distro,
            halted: passed.halted,
            ..s
        };
        assert(grounded(then)) by {
            lemma_decimal_has_digits(part_of(s.distro, Role::Root).number as nat);
            if s.distro.root.path.len() > 0 {
                assert(then.distro.root.path.len() > 0 || then.halted is Some);
            } else {
                let i = choose|i: int| s.next <= i < s.ops.len() && #[trigger] grounds(s.ops[i]);
                if i == s.next {
                    assert(op == Op::ByDisk(Role::Root));
                    assert(then.distro.root.path.len() > 0);
                } else {
                    assert(then.next <= i < then.ops.len() && grounds(then.ops[i]));
                }
            }
        }
        lemma_settle_grounded(then);
    }
}

/// A session is always grounded: at its start, and after every answer.
pub proof fn law_session_is_grounded(
    records: Seq<RecordView>,
    is_ade: bool,
    s: SessionView,
    answer: AnswerView,
)
    requires
        settled(s),
        grounded(s),
    ensures
        grounded(start_of(records, is_ade)),
        grounded(supply_of(s, answer)),
{
    match dispatch_plan(records, is_ade, DistroView::blank()) {
        Ok((d, ops)) => {
            law_branches_are_rooted(records, is_ade, DistroView::blank(), Seq::empty());
            let first = SessionView {
                records,
                distro: d,
                ops,
                next: 0,
                disk: Seq::empty(),
                identity: Seq::empty(),
                legacy: Seq::empty(),
                halted: None,
            };
            assert(grounded(first)) by {
                if d.root.path.len() == 0 {
                    let i = choose|i: int| 0 <= i < ops.len() && #[trigger] grounds(ops[i]);
                    assert(first.next <= i < first.ops.len() && grounds(first.ops[i]));
                }
            }
            lemma_settle_grounded(first);
        },
        Err(fatal) => {},
    }
    if !idle(s) {
        let op = s.ops[s.next as int];
        let taken = absorb(s, op, answer);
        let then = SessionView { next: s.next + 1, ..taken };
        assert(grounded(then)) by {
            if op == Op::Investigate {
                let name = pretty_name(text_of(answer));
                law_branches_are_rooted(s.records, is_ade, s.distro, name);
                match investigated_plan(s.records, s.distro, name) {
                    Ok((d, more)) => {
                        if d.root.path.len() == 0 {
                            let i = choose|i: int|
                                0 <= i < more.len() && #[trigger] grounds(more[i]);
                            assert(then.ops[s.ops.len() + i] == more[i]);
                            assert(then.next <= s.ops.len() + i < then.ops.len() && grounds(
                                then.ops[s.ops.len() + i],
                            ));
                        }
                    },
                    Err(fatal) => {},
                }
            } else if s.distro.root.path.len() > 0 {
                assert(then.distro.root.path.len() > 0 || then.halted is Some);
            } else if s.halted is None {
                let i = choose|i: int| s.next <= i < s.ops.len() && #[trigger] grounds(s.ops[i]);
                if i == s.next {
                    assert(op == Op::ByLun(Role::Root));
                    assert(then.distro.root.path.len() > 0 || then.halted is Some);
                } else {
                    assert(then.ops == s.ops);
                    assert(then.next <= i < then.ops.len() && grounds(then.ops[i]));
                }
            }
        }
        lemma_settle_grounded(then);
    }
}

/// A profile is declared complete only with a device for its root: a session
/// that is settled and grounded, as every session is, and has nothing left to ask
/// for has resolved the root.
pub proof fn law_finished_has_root(s: SessionView)
    requires
        settled(s),
        grounded(s),
        pending_of(s) == RequestView::Finished,
    ensures
        s.distro.root.path.len() > 0,
{
    if s.distro.root.path.len() == 0 {
        let i = choose|i: int| s.next <= i < s.ops.len() && #[trigger] grounds(s.ops[i]);
        assert(s.next < s.ops.len());
        assert(request_of(s, s.ops[s.next as int]) is Some);
    }
}

/// Every session is settled and grounded, whatever disk it was started for and
/// whatever it was told since.
proof fn lemma_after(records: Seq<RecordView>, is_ade: bool, answers: Seq<AnswerView>)
    ensures
        settled(after(start_of(records, is_ade), answers)),
        grounded(after(start_of(records, is_ade), answers)),
    decreases answers.len(),
{
    let start = start_of(records, is_ade);
    if answers.len() == 0 {
        let stopped = halt(start, Fatal::UnrecognizedLayout);
        law_session_is_settled(records, is_ade, stopped, AnswerView::Done);
        law_session_is_grounded(records, is_ade, stopped, AnswerView::Done);
    } else {
        lemma_after(records, is_ade, answers.drop_last());
        let before = after(start, answers.drop_last());
        law_session_is_settled(records, is_ade, before, answers.last());
        law_session_is_grounded(records, is_ade, before, answers.last());
    }
}

/// Whatever disk a session is started for and whatever it is told, it declares
/// the profile complete only with the kind decided and with a device for the
/// root.
pub proof fn law_complete_profile(records: Seq<RecordView>, is_ade: bool, answers: Seq<AnswerView>)
    requires
        pending_of(after(start_of(records, is_ade), answers)) == RequestView::Finished,
    ensures
        !undecided(after(start_of(records, is_ade), answers).distro),
        after(start_of(records, is_ade), answers).distro.root.path.len() > 0,
{
    lemma_after(records, is_ade, answers);
    law_finished_is_decided(after(start_of(records, is_ade), answers));
    law_finished_has_root(after(start_of(records, is_ade), answers));
}

} // verus!
