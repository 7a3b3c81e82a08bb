//! Handing a profile on to a repair script.
//!
//! A repair script is run inside the rescue root and learns about the disk from
//! its environment. For each kind of distribution the environment is written
//! anew: what the kind sets is set, and the flags of the other kinds are removed.

use crate::constants::ACTION_IMPL_DIR;
use crate::distro::{Distro, DistroKind, DistroView};
use crate::helper::get_efi_part_path;
use crate::text::{chars_of, join, occurs_at, occurs_in_at};
use vstd::prelude::*;

verus! {

pub const IS_UBUNTU: &'static str = "isUbuntu";

pub const IS_SUSE: &'static str = "isSuse";

pub const IS_REDHAT: &'static str = "isRedHat";

pub const IS_REDHAT6: &'static str = "isRedHat6";

pub const IS_ADE: &'static str = "isADE";

pub const IS_LVM: &'static str = "isLVM";

pub const ROOT_PART_PATH: &'static str = "root_part_path";

pub const EFI_PART_PATH: &'static str = "efi_part_path";

pub const BOOT_PART_PATH: &'static str = "boot_part_path";

pub const LVM_ROOT_PART: &'static str = "lvm_root_part";

pub const LVM_USR_PART: &'static str = "lvm_usr_part";

/// The variable that carries the logical volume for `/var`.
pub const LVM_LVM_PART: &'static str = "lvm_lvm_part";

pub const TRUE: &'static str = "true";

pub const FALSE: &'static str = "false";

pub const SEPARATOR: &'static str = "/";

/// What the file of a repair script ends in, after the name of its action.
pub const SCRIPT_SUFFIX: &'static str = "-impl.sh";

/// A binding as the contracts see it.
pub struct BindingView {
    pub name: Seq<char>,
    pub value: Option<Seq<char>>,
}

/// What becomes of one variable of the environment: it is set to a value, or,
/// without one, removed.
#[derive(Debug, Clone, PartialEq, Eq)]
pub struct Binding {
    pub name: String,
    pub value: Option<String>,
}

impl View for Binding {
    type V = BindingView;

    open spec fn view(&self) -> BindingView {
        BindingView {
            name: self.name@,
            value: match self.value {
                Some(v) => Some(v@),
                None => None,
            },
        }
    }
}

/// The run of a repair script as the contracts see it.
pub struct ScriptRunView {
    pub script: Seq<char>,
    pub environment: Seq<BindingView>,
}

/// The run of a repair script: the file of the script, as it is found from
/// inside the rescue root, and what is done to the environment before it runs,
/// in order.
#[derive(Debug, Clone, PartialEq, Eq)]
pub struct ScriptRun {
    pub script: String,
    pub environment: Vec<Binding>,
}

/// The bindings of a list as the contracts see them.
pub open spec fn binding_views(bindings: Seq<Binding>) -> Seq<BindingView> {
    Seq::new(bindings.len(), |i: int| bindings[i]@)
}

impl View for ScriptRun {
    type V = ScriptRunView;

    open spec fn view(&self) -> ScriptRunView {
        ScriptRunView { script: self.script@, environment: binding_views(self.environment@) }
    }
}

/// The variable is set to the value.
pub open spec fn assigned(name: Seq<char>, value: Seq<char>) -> BindingView {
    BindingView { name, value: Some(value) }
}

/// The variable is removed.
pub open spec fn removed(name: Seq<char>) -> BindingView {
    BindingView { name, value: None }
}

/// A truth value as a script reads it.
pub open spec fn flag(on: bool) -> Seq<char> {
    if on {
        TRUE@
    } else {
        FALSE@
    }
}

/// The devices of the root, the EFI partition and the boot partition.
pub open spec fn part_bindings(d: DistroView) -> Seq<BindingView> {
    seq![
        assigned(ROOT_PART_PATH@, d.root.path),
        assigned(EFI_PART_PATH@, d.efi_path()),
        assigned(BOOT_PART_PATH@, d.boot.path),
    ]
}

/// Whether the disk is under LVM, and the devices of its logical volumes.
pub open spec fn volume_bindings(d: DistroView) -> Seq<BindingView> {
    seq![
        assigned(IS_LVM@, flag(d.is_lvm)),
        assigned(LVM_ROOT_PART@, d.volumes.root),
        assigned(LVM_USR_PART@, d.volumes.usr),
        assigned(LVM_LVM_PART@, d.volumes.var),
    ]
}

/// What is done to the environment for a profile, in order. A profile of no kind
/// leaves the environment alone.
pub open spec fn environment_of(d: DistroView) -> Seq<BindingView> {
    match d.kind {
        DistroKind::Debian | DistroKind::Ubuntu => seq![
            assigned(IS_UBUNTU@, TRUE@),
            assigned(IS_ADE@, flag(d.is_ade)),
        ] + part_bindings(d) + seq![removed(IS_SUSE@), removed(IS_REDHAT@), removed(IS_REDHAT6@)],
        DistroKind::Suse => seq![assigned(IS_SUSE@, TRUE@)] + part_bindings(d) + seq![
            removed(IS_UBUNTU@),
            removed(IS_REDHAT@),
            removed(IS_REDHAT6@),
        ],
        DistroKind::RedHatCentOS => seq![assigned(IS_REDHAT@, TRUE@), assigned(IS_ADE@, flag(d.is_ade))]
            + part_bindings(d) + volume_bindings(d) + seq![
            removed(IS_UBUNTU@),
            removed(IS_SUSE@),
            removed(IS_REDHAT6@),
        ],
        DistroKind::RedHatCentOS6 => seq![
            assigned(IS_REDHAT@, TRUE@),
            assigned(IS_ADE@, flag(d.is_ade)),
            assigned(IS_REDHAT6@, TRUE@),
        ] + part_bindings(d) + volume_bindings(d) + seq![removed(IS_UBUNTU@), removed(IS_SUSE@)],
        DistroKind::Undefined => seq![],
    }
}

/// The file of the script of an action.
pub open spec fn script_of(action_name: Seq<char>) -> Seq<char> {
    ACTION_IMPL_DIR@ + SEPARATOR@ + action_name + SCRIPT_SUFFIX@
}

/// A text ends in another.
pub open spec fn ends_with(text: Seq<char>, ending: Seq<char>) -> bool {
    occurs_at(text, ending, text.len() - ending.len())
}

/// One of the first `upto` entries is the script of the action.
pub open spec fn listed(entries: Seq<String>, action_name: Seq<char>, upto: int) -> bool {
    exists|i: int| 0 <= i < upto && ends_with(#[trigger] entries[i]@, action_name + SCRIPT_SUFFIX@)
}

/// The environment says of a variable that it has the given value, or, without
/// one, that it is removed: it binds the variable, and never otherwise.
pub open spec fn states(environment: Seq<BindingView>, name: Seq<char>, value: Option<Seq<char>>)
    -> bool {
    &&& exists|i: int| 0 <= i < environment.len() && (#[trigger] environment[i]).name == name
    &&& forall|i: int|
        0 <= i < environment.len() && (#[trigger] environment[i]).name == name ==> environment[i].value
            == value
}

/// The value of a flag that is set for the kinds it belongs to and removed for
/// the others.
pub open spec fn family_flag(belongs: bool) -> Option<Seq<char>> {
    if belongs {
        Some(TRUE@)
    } else {
        None
    }
}

/// A truth value as a script reads it.
fn flag_text(on: bool) -> (t: &'static str)
    ensures
        t@ == flag(on),
{
    if on {
        TRUE
    } else {
        FALSE
    }
}

/// Adds a variable to set.
fn then_set(environment: &mut Vec<Binding>, name: &str, value: &str)
    ensures
        binding_views(final(environment)@) == binding_views(old(environment)@).push(
            assigned(name@, value@),
        ),
{
    environment.push(
        Binding { name: String::from_str(name), value: Some(String::from_str(value)) },
    );
    assert(binding_views(environment@) =~= binding_views(old(environment)@).push(
        assigned(name@, value@),
    ));
}

/// Adds a variable to remove.
fn then_unset(environment: &mut Vec<Binding>, name: &str)
    ensures
        binding_views(final(environment)@) == binding_views(old(environment)@).push(removed(name@)),
{
    environment.push(Binding { name: String::from_str(name), value: None });
    assert(binding_views(environment@) =~= binding_views(old(environment)@).push(removed(name@)));
}

/// Adds the devices of the root, the EFI partition and the boot partition.
fn then_parts(environment: &mut Vec<Binding>, distro: &Distro)
    ensures
        binding_views(final(environment)@) == binding_views(old(environment)@) + part_bindings(
            distro@,
        ),
{
    let efi = get_efi_part_path(distro);
    then_set(environment, ROOT_PART_PATH, distro.rescue_root.root_part_path.as_str());
    then_set(environment, EFI_PART_PATH, efi.as_str());
    then_set(environment, BOOT_PART_PATH, distro.boot_part.boot_part_path.as_str());
    assert(binding_views(environment@) =~= binding_views(old(environment)@) + part_bindings(
        distro@,
    ));
}

/// Adds what a script learns about LVM.
fn then_volumes(environment: &mut Vec<Binding>, distro: &Distro)
    ensures
        binding_views(final(environment)@) == binding_views(old(environment)@) + volume_bindings(
            distro@,
        ),
{
    then_set(environment, IS_LVM, flag_text(distro.is_lvm));
    then_set(environment, LVM_ROOT_PART, distro.lvm_details.lvm_root_part.as_str());
    then_set(environment, LVM_USR_PART, distro.lvm_details.lvm_usr_part.as_str());
    then_set(environment, LVM_LVM_PART, distro.lvm_details.lvm_var_part.as_str());
    assert(binding_views(environment@) =~= binding_views(old(environment)@) + volume_bindings(
        distro@,
    ));
}

/// What is done to the environment for a profile, in order.
pub fn script_environment(distro: &Distro) -> (environment: Vec<Binding>)
    ensures
        binding_views(environment@) == environment_of(distro@),
{
    let mut environment: Vec<Binding> = Vec::new();
    assert(binding_views(environment@) =~= seq![]);
    match distro.kind {
        DistroKind::Debian | DistroKind::Ubuntu => {
            then_set(&mut environment, IS_UBUNTU, TRUE);
            then_set(&mut environment, IS_ADE, flag_text(distro.is_ade));
            then_parts(&mut environment, distro);
            then_unset(&mut environment, IS_SUSE);
            then_unset(&mut environment, IS_REDHAT);
            then_unset(&mut environment, IS_REDHAT6);
        },
        DistroKind::Suse => {
            then_set(&mut environment, IS_SUSE, TRUE);
            then_parts(&mut environment, distro);
            then_unset(&mut environment, IS_UBUNTU);
            then_unset(&mut environment, IS_REDHAT);
            then_unset(&mut environment, IS_REDHAT6);
        },
        DistroKind::RedHatCentOS => {
            then_set(&mut environment, IS_REDHAT, TRUE);
            then_set(&mut environment, IS_ADE, flag_text(distro.is_ade));
            then_parts(&mut environment, distro);
            then_volumes(&mut environment, distro);
            then_unset(&mut environment, IS_UBUNTU);
            then_unset(&mut environment, IS_SUSE);
            then_unset(&mut environment, IS_REDHAT6);
        },
        DistroKind::RedHatCentOS6 => {
            then_set(&mut environment, IS_REDHAT, TRUE);
            then_set(&mut environment, IS_ADE, flag_text(distro.is_ade));
            then_set(&mut environment, IS_REDHAT6, TRUE);
            then_parts(&mut environment, distro);
            then_volumes(&mut environment, distro);
            then_unset(&mut environment, IS_UBUNTU);
            then_unset(&mut environment, IS_SUSE);
        },
        DistroKind::Undefined => {},
    }
    assert(binding_views(environment@) =~= environment_of(distro@));
    environment
}

/// The file of the script of an action.
pub fn script_path(action_name: &str) -> (script: String)
    ensures
        script@ == script_of(action_name@),
{
    let directory = join(ACTION_IMPL_DIR, SEPARATOR);
    let stem = join(directory.as_str(), action_name);
    let script = join(stem.as_str(), SCRIPT_SUFFIX);
    assert(script@ =~= script_of(action_name@));
    script
}

/// The run of the script of an action for a profile: the file of the script and
/// the environment that it is given.
pub fn run_repair_script(distro: &Distro, action_name: &str) -> (run: ScriptRun)
    ensures
        run@ == (ScriptRunView {
            script: script_of(action_name@),
            environment: environment_of(distro@),
        }),
{
    ScriptRun { script: script_path(action_name), environment: script_environment(distro) }
}

/// Whether a text ends in another.
pub fn has_ending(text: &str, ending: &str) -> (ends: bool)
    ensures
        ends == ends_with(text@, ending@),
{
    let t = chars_of(text);
    let e = chars_of(ending);
    if e.len() > t.len() {
        return false;
    }
    occurs_in_at(&t, &e, t.len() - e.len())
}

/// Whether the script of an action is among the entries of the directory of
/// scripts: whether an entry ends in the name of the action followed by `-impl.sh`.
pub fn is_action_available(action_name: &str, entries: &Vec<String>) -> (available: bool)
    ensures
        available == listed(entries@, action_name@, entries@.len() as int),
{
    let wanted = join(action_name, SCRIPT_SUFFIX);
    let mut i: usize = 0;
    while i < entries.len()
        invariant
            i <= entries.len(),
            wanted@ == action_name@ + SCRIPT_SUFFIX@,
            !listed(entries@, action_name@, i as int),
        decreases entries.len() - i,
    {
        if has_ending(entries[i].as_str(), wanted.as_str()) {
            return true;
        }
        i += 1;
    }
    false
}

/// The names of the variables of an environment are all different.
proof fn lemma_names_differ()
    ensures
        IS_UBUNTU@.len() == 8,
        IS_SUSE@.len() == 6,
        IS_REDHAT@.len() == 8,
        IS_REDHAT6@.len() == 9,
        IS_ADE@.len() == 5,
        IS_LVM@.len() == 5,
        ROOT_PART_PATH@.len() == 14,
        EFI_PART_PATH@.len() == 13,
        BOOT_PART_PATH@.len() == 14,
        LVM_ROOT_PART@.len() == 13,
        LVM_USR_PART@.len() == 12,
        LVM_LVM_PART@.len() == 12,
        IS_UBUNTU@[2] == 'U',
        IS_REDHAT@[2] == 'R',
{
    reveal_strlit("isUbuntu");
    reveal_strlit("isSuse");
    reveal_strlit("isRedHat");
    reveal_strlit("isRedHat6");
    reveal_strlit("isADE");
    reveal_strlit("isLVM");
    reveal_strlit("root_part_path");
    reveal_strlit("efi_part_path");
    reveal_strlit("boot_part_path");
    reveal_strlit("lvm_root_part");
    reveal_strlit("lvm_usr_part");
    reveal_strlit("lvm_lvm_part");
}

/// The environment of every kind settles the flag of every family: a flag is set
/// for the kinds of its family and removed for all others, so that no flag is
/// left over from a run for another kind.
pub proof fn law_family_flags_are_settled(d: DistroView)
    requires
        d.kind != DistroKind::Undefined,
    ensures
        states(
            environment_of(d),
            IS_UBUNTU@,
            family_flag(d.kind == DistroKind::Ubuntu || d.kind == DistroKind::Debian),
        ),
        states(environment_of(d), IS_SUSE@, family_flag(d.kind == DistroKind::Suse)),
        states(
            environment_of(d),
            IS_REDHAT@,
            family_flag(d.kind == DistroKind::RedHatCentOS || d.kind == DistroKind::RedHatCentOS6),
        ),
        states(environment_of(d), IS_REDHAT6@, family_flag(d.kind == DistroKind::RedHatCentOS6)),
{
    lemma_names_differ();
    let e = environment_of(d);
    match d.kind {
        DistroKind::Debian | DistroKind::Ubuntu => {
            assert(e.len() == 8);
            assert(e[0].name == IS_UBUNTU@ && e[5].name == IS_SUSE@ && e[6].name == IS_REDHAT@
                && e[7].name == IS_REDHAT6@);
        },
        DistroKind::Suse => {
            assert(e.len() == 7);
            assert(e[0].name == IS_SUSE@ && e[4].name == IS_UBUNTU@ && e[5].name == IS_REDHAT@
                && e[6].name == IS_REDHAT6@);
        },
        DistroKind::RedHatCentOS => {
            assert(e.len() == 12);
            assert(e[0].name == IS_REDHAT@ && e[9].name == IS_UBUNTU@ && e[10].name == IS_SUSE@
                && e[11].name == IS_REDHAT6@);
        },
        DistroKind::RedHatCentOS6 => {
            assert(e.len() == 12);
            assert(e[0].name == IS_REDHAT@ && e[2].name == IS_REDHAT6@ && e[10].name
                == IS_UBUNTU@ && e[11].name == IS_SUSE@);
        },
        DistroKind::Undefined => {},
    }
}

} // verus!
