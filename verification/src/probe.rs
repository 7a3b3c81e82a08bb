//! What the library asks of the machine it runs on, and what it is told back.
//!
//! The library touches nothing itself. Whoever drives it carries out one request
//! at a time, in the order given, and hands each answer back.

use vstd::prelude::*;

verus! {

/// Why the run cannot go on.
#[derive(Debug, Clone, Copy, PartialEq, Eq, Structural)]
pub enum Fatal {
    /// The partitions fit no layout that is known, or no distribution was recognised.
    UnrecognizedLayout,
    /// A device path does not exist.
    UnresolvedPath,
    /// A filesystem cannot be repaired unattended.
    CheckFailed,
    /// The mounted root names no operating system.
    UndecidableIdentity,
    /// The encrypted root was not mounted beforehand.
    InvestigationRootMissing,
    /// The scratch mountpoint cannot be created.
    ScratchUnavailable,
    /// A device cannot be mounted.
    MountFailed,
    /// The logical volumes cannot be activated.
    VolumesUnavailable,
    /// What was read of the encrypted root names no filesystem.
    UnreadableProbe,
}

/// A mount as the contracts see it.
pub struct MountView {
    pub source: Seq<char>,
    pub target: Seq<char>,
    pub option: Option<Seq<char>>,
    pub bind: bool,
    pub create_target: bool,
}

/// One mount: `source` is mounted at `target`, with a filesystem option if one is
/// given; a bind mount shows the directory `source` at `target`. Where
/// `create_target` is set, the directory `target` is made first, with those above
/// it; a mount whose place cannot be made cannot be made itself.
#[derive(Debug, Clone, PartialEq, Eq)]
pub struct MountStep {
    pub source: String,
    pub target: String,
    pub option: Option<String>,
    pub bind: bool,
    pub create_target: bool,
}

impl View for MountStep {
    type V = MountView;

    open spec fn view(&self) -> MountView {
        MountView {
            source: self.source@,
            target: self.target@,
            option: match self.option {
                Some(o) => Some(o@),
                None => None,
            },
            bind: self.bind,
            create_target: self.create_target,
        }
    }
}

/// The run of a checker as the contracts see it.
pub struct CommandView {
    pub program: Seq<char>,
    pub preen: bool,
    pub device: Seq<char>,
    pub quiet: bool,
}

/// The run of a filesystem checker: `program` on `device`, with `-p` before the
/// device where `preen` is set, and with its output discarded where `quiet` is set.
#[derive(Debug, Clone, PartialEq, Eq)]
pub struct CheckCommand {
    pub program: String,
    pub preen: bool,
    pub device: String,
    pub quiet: bool,
}

impl View for CheckCommand {
    type V = CommandView;

    open spec fn view(&self) -> CommandView {
        CommandView {
            program: self.program@,
            preen: self.preen,
            device: self.device@,
            quiet: self.quiet,
        }
    }
}

/// A request as the contracts see it.
pub enum RequestView {
    Resolve { path: Seq<char> },
    ProbeFilesystem { device: Seq<char> },
    MakeScratch,
    Mount(MountView),
    Unmount { target: Seq<char> },
    Release { source: Seq<char> },
    RemoveScratch,
    Check(CommandView),
    ScanVolumes,
    FindVolume { name: Seq<char> },
    ReadIdentity { path: Seq<char> },
    ReadFile { path: Seq<char> },
    Finished,
    Abort(Fatal),
}

/// What is to be done next.
#[derive(Debug, Clone, PartialEq, Eq)]
pub enum Request {
    /// Follow the link at `path` to the device it names. Answer: `Text` with the
    /// device path, `Failed` where nothing is at `path`. An empty text names no
    /// device and counts as `Failed`.
    Resolve { path: String },
    /// Read what is known of the filesystem on `device`. Answer: `Text` with the
    /// line that describes it, `Failed` otherwise.
    ProbeFilesystem { device: String },
    /// Create the scratch mountpoint. Answer: `Done` or `Failed`.
    MakeScratch,
    /// Make the mount, read-write. Answer: `Done` or `Failed`.
    Mount(MountStep),
    /// Detach what is mounted at `target`, lazily: the place is given up at once
    /// and the filesystem is let go when it is no longer busy. Answer: `Done` or
    /// `Failed`.
    Unmount { target: String },
    /// Detach the device `source`, lazily, from wherever it is mounted. Answer:
    /// `Done` or `Failed`.
    Release { source: String },
    /// Remove the scratch mountpoint. Answer: `Done` or `Failed`.
    RemoveScratch,
    /// Run a filesystem checker. Answer: `Exit` with its exit code, without one
    /// where a signal ended it; `Failed` where it could not be started.
    Check(CheckCommand),
    /// Activate the logical volumes of the disk. Answer: `Done` or `Failed`.
    ScanVolumes,
    /// Look up the logical volume whose name holds `name`. Answer: `Text` with the
    /// line that lists it, `Failed` where none is listed.
    FindVolume { name: String },
    /// Read the line of the identity file at `path` that names the system.
    /// Answer: `Text` with the line, `Failed` where there is none.
    ReadIdentity { path: String },
    /// Read the file at `path`. Answer: `Text` with what it holds, `Failed` where
    /// it cannot be read.
    ReadFile { path: String },
    /// Nothing is left to do: the profile is complete.
    Finished,
    /// The run has to stop.
    Abort(Fatal),
}

impl View for Request {
    type V = RequestView;

    open spec fn view(&self) -> RequestView {
        match self {
            Request::Resolve { path } => RequestView::Resolve { path: path@ },
            Request::ProbeFilesystem { device } => RequestView::ProbeFilesystem { device: device@ },
            Request::MakeScratch => RequestView::MakeScratch,
            Request::Mount(step) => RequestView::Mount(step@),
            Request::Unmount { target } => RequestView::Unmount { target: target@ },
            Request::Release { source } => RequestView::Release { source: source@ },
            Request::RemoveScratch => RequestView::RemoveScratch,
            Request::Check(command) => RequestView::Check(command@),
            Request::ScanVolumes => RequestView::ScanVolumes,
            Request::FindVolume { name } => RequestView::FindVolume { name: name@ },
            Request::ReadIdentity { path } => RequestView::ReadIdentity { path: path@ },
            Request::ReadFile { path } => RequestView::ReadFile { path: path@ },
            Request::Finished => RequestView::Finished,
            Request::Abort(fatal) => RequestView::Abort(*fatal),
        }
    }
}

/// An answer as the contracts see it.
pub enum AnswerView {
    Done,
    Failed,
    Text(Seq<char>),
    Exit(Option<i32>),
}

/// What came of a request.
#[derive(Debug, Clone, PartialEq, Eq)]
pub enum Answer {
    /// It was carried out.
    Done,
    /// It could not be carried out.
    Failed,
    /// What was read.
    Text(String),
    /// How a program ended: its exit code, or none where a signal ended it.
    Exit(Option<i32>),
}

impl View for Answer {
    type V = AnswerView;

    open spec fn view(&self) -> AnswerView {
        match self {
            Answer::Done => AnswerView::Done,
            Answer::Failed => AnswerView::Failed,
            Answer::Text(t) => AnswerView::Text(t@),
            Answer::Exit(code) => AnswerView::Exit(*code),
        }
    }
}

/// The mounts of a plan as the contracts see them.
pub open spec fn mount_views(steps: Seq<MountStep>) -> Seq<MountView> {
    Seq::new(steps.len(), |i: int| steps[i]@)
}

/// The texts of a list as the contracts see them.
pub open spec fn text_views(texts: Seq<String>) -> Seq<Seq<char>> {
    Seq::new(texts.len(), |i: int| texts[i]@)
}

/// The requests of a list as the contracts see them.
pub open spec fn request_views(requests: Seq<Request>) -> Seq<RequestView> {
    Seq::new(requests.len(), |i: int| requests[i]@)
}

} // verus!
