//! What the command line asks for.

use vstd::prelude::*;

verus! {

/// The wishes of a run as the contracts see them.
pub struct CliView {
    pub standalone: bool,
    pub action_directory: Seq<char>,
    pub actions: Seq<char>,
}

/// The wishes of a run: whether the tool fetches its scripts itself, the
/// directory to take them from instead, and the actions to run, separated by
/// commas.
#[derive(Debug, Clone, PartialEq, Eq)]
pub struct CliInfo {
    pub standalone: bool,
    pub action_directory: String,
    pub actions: String,
}

impl View for CliInfo {
    type V = CliView;

    open spec fn view(&self) -> CliView {
        CliView {
            standalone: self.standalone,
            action_directory: self.action_directory@,
            actions: self.actions@,
        }
    }
}

impl CliInfo {
    /// A run that asks for nothing.
    pub fn new() -> (info: Self)
        ensures
            info@ == (CliView {
                standalone: false,
                action_directory: Seq::empty(),
                actions: Seq::empty(),
            }),
    {
        Self { standalone: false, action_directory: String::new(), actions: String::new() }
    }
}

} // verus!
