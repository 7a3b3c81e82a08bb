//! Carrying out the plans of a profile.
//!
//! A run hands out the steps of a plan one at a time, as a session does. A mount
//! run ends with the first mount that cannot be made: what was mounted before
//! stays mounted. A release run goes through with every place, whether or not the
//! one before could be detached.

use crate::distro::Distro;
use crate::prepare_action::{distro_mount, distro_mounts, distro_releases, distro_umount};
use crate::probe::{
    mount_views, text_views, Answer, AnswerView, Fatal, MountStep, MountView, Request,
    RequestView,
};
use vstd::prelude::*;

verus! {

/// A mount run as the contracts see it.
pub struct MountRunView {
    /// The mounts to make, in order.
    pub plan: Seq<MountView>,
    /// How many of them are made.
    pub next: nat,
    /// Whether one could not be made.
    pub failed: bool,
}

/// A release run as the contracts see it.
pub struct ReleaseRunView {
    /// The places to detach, in order.
    pub places: Seq<Seq<char>>,
    /// How many of them were gone through.
    pub next: nat,
}

/// What a mount run asks for: to be aborted once a mount could not be made, else
/// the next mount of the plan, and nothing once all are made.
pub open spec fn mount_pending(run: MountRunView) -> RequestView {
    if run.failed {
        RequestView::Abort(Fatal::MountFailed)
    } else if run.next >= run.plan.len() {
        RequestView::Finished
    } else {
        RequestView::Mount(run.plan[run.next as int])
    }
}

/// A mount run after the answer to its pending request. A mount that cannot be
/// made ends the run; nothing is asked for after that.
pub open spec fn mount_supplied(run: MountRunView, answer: AnswerView) -> MountRunView {
    if run.failed || run.next >= run.plan.len() {
        run
    } else if answer is Failed {
        MountRunView { failed: true, ..run }
    } else {
        MountRunView { next: run.next + 1, ..run }
    }
}

/// What a release run asks for: to detach the next place of the plan, and nothing
/// once all places were gone through.
pub open spec fn release_pending(run: ReleaseRunView) -> RequestView {
    if run.next >= run.places.len() {
        RequestView::Finished
    } else {
        RequestView::Unmount { target: run.places[run.next as int] }
    }
}

/// A release run after the answer to its pending request: at the next place,
/// whatever the answer was.
pub open spec fn release_supplied(run: ReleaseRunView, answer: AnswerView) -> ReleaseRunView {
    if run.next >= run.places.len() {
        run
    } else {
        ReleaseRunView { next: run.next + 1, ..run }
    }
}

/// A release run after a row of answers.
pub open spec fn release_after(run: ReleaseRunView, answers: Seq<AnswerView>) -> ReleaseRunView
    decreases answers.len(),
{
    if answers.len() == 0 {
        run
    } else {
        release_supplied(release_after(run, answers.drop_last()), answers.last())
    }
}

/// The making of the mounts of a profile.
#[derive(Debug)]
pub struct MountRun {
    plan: Vec<MountStep>,
    next: usize,
    failed: bool,
}

impl View for MountRun {
    type V = MountRunView;

    closed spec fn view(&self) -> MountRunView {
        MountRunView { plan: mount_views(self.plan@), next: self.next as nat, failed: self.failed }
    }
}

/// The releasing of the places of a profile.
#[derive(Debug)]
pub struct ReleaseRun {
    places: Vec<String>,
    next: usize,
}

impl View for ReleaseRun {
    type V = ReleaseRunView;

    closed spec fn view(&self) -> ReleaseRunView {
        ReleaseRunView { places: text_views(self.places@), next: self.next as nat }
    }
}

/// A mount like the given one.
fn same_step(step: &MountStep) -> (copy: MountStep)
    ensures
        copy@ == step@,
{
    MountStep {
        source: step.source.clone(),
        target: step.target.clone(),
        option: match &step.option {
            Some(o) => Some(o.clone()),
            None => None,
        },
        bind: step.bind,
        create_target: step.create_target,
    }
}

impl MountRun {
    /// Starts to make the mounts of a profile, in the order of its mount plan.
    pub fn new(distro: &Distro) -> (run: MountRun)
        ensures
            run@ == (MountRunView { plan: distro_mounts(distro@), next: 0, failed: false }),
    {
        MountRun { plan: distro_mount(distro), next: 0, failed: false }
    }

    /// What is to be done next.
    pub fn pending(&self) -> (request: Request)
        ensures
            request@ == mount_pending(self@),
    {
        if self.failed {
            Request::Abort(Fatal::MountFailed)
        } else if self.next >= self.plan.len() {
            Request::Finished
        } else {
            Request::Mount(same_step(&self.plan[self.next]))
        }
    }

    /// Takes in the answer to the pending request.
    pub fn supply(&mut self, answer: Answer)
        ensures
            final(self)@ == mount_supplied(old(self)@, answer@),
    {
        if self.failed || self.next >= self.plan.len() {
            return ;
        }
        match answer {
            Answer::Failed => {
                self.failed = true;
            },
            _ => {
                self.next = self.next + 1;
            },
        }
    }
}

impl ReleaseRun {
    /// Starts to detach the places of a profile, in the order of its release plan.
    pub fn new(distro: &Distro) -> (run: ReleaseRun)
        ensures
            run@ == (ReleaseRunView { places: distro_releases(distro@), next: 0 }),
    {
        ReleaseRun { places: distro_umount(distro), next: 0 }
    }

    /// What is to be done next.
    pub fn pending(&self) -> (request: Request)
        ensures
            request@ == release_pending(self@),
    {
        if self.next >= self.places.len() {
            Request::Finished
        } else {
            Request::Unmount { target: self.places[self.next].clone() }
        }
    }

    /// Takes in the answer to the pending request.
    pub fn supply(&mut self, answer: Answer)
        ensures
            final(self)@ == release_supplied(old(self)@, answer@),
    {
        if self.next < self.places.len() {
            self.next = self.next + 1;
        }
    }
}

/// A mount that cannot be made ends the run for good, and nothing that was
/// mounted before is detached: the run asks to be aborted, and goes on asking
/// for it whatever it is told.
pub proof fn law_failed_mount_ends_run(run: MountRunView, answer: AnswerView)
    requires
        !run.failed,
        run.next < run.plan.len(),
    ensures
        mount_pending(mount_supplied(run, AnswerView::Failed)) == RequestView::Abort(
            Fatal::MountFailed,
        ),
        mount_supplied(mount_supplied(run, AnswerView::Failed), answer) == mount_supplied(
            run,
            AnswerView::Failed,
        ),
{
}

/// Releasing is best effort: whatever the answers are, a release run asks for
/// every place of its plan in turn and then is finished. It never asks to be
/// aborted.
pub proof fn law_release_goes_through(places: Seq<Seq<char>>, answers: Seq<AnswerView>)
    requires
        answers.len() <= places.len(),
    ensures
        release_after(ReleaseRunView { places, next: 0 }, answers) == (ReleaseRunView {
            places,
            next: answers.len(),
        }),
        release_pending(release_after(ReleaseRunView { places, next: 0 }, answers)) == if answers.len()
            < places.len() {
            RequestView::Unmount { target: places[answers.len() as int] }
        } else {
            RequestView::Finished
        },
    decreases answers.len(),
{
    if answers.len() > 0 {
        law_release_goes_through(places, answers.drop_last());
    }
}

} // verus!
