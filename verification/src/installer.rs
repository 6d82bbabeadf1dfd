//! What the installer decides and computes. Reading and writing the files is
//! left to the caller: these functions take what was read and return what is
//! to be written.

pub mod snippet;

use vstd::prelude::*;

verus! {

/// The release of the simulator.
#[derive(Debug, Clone, Copy, PartialEq, Eq, Structural)]
pub enum DCSVersion {
    Stable,
    Openbeta,
}

/// How far the export script is installed for one release.
#[derive(Debug, Clone, Copy, PartialEq, Eq, Structural)]
pub enum InstallStatus {
    /// The release has no folder under Saved Games.
    DCSNotFound,
    /// The folder is there, the export script is not.
    NotInstalled,
    /// An export script is there, but not the current one.
    RequiresUpdate,
    Installed,
}

/// What the installer does for a release when asked to run.
#[derive(Debug, Clone, Copy, PartialEq, Eq, Structural)]
pub enum InstallerAction {
    Install,
    /// Remove what is there, then install.
    Update,
    Uninstall,
}

impl DCSVersion {
    /// The name of this release's folder under the user's Saved Games folder.
    pub fn user_folder(&self) -> (name: &'static str)
        ensures
            name@ == match *self {
                DCSVersion::Stable => "DCS"@,
                DCSVersion::Openbeta => "DCS.openbeta"@,
            },
    {
        match self {
            DCSVersion::Stable => "DCS",
            DCSVersion::Openbeta => "DCS.openbeta",
        }
    }

    /// The state of the installation, from what was found on disk:
    /// whether the release's folder exists, and the bytes of the export script
    /// in it, if there is one. `current` is the export script that this
    /// installer would write.
    pub fn install_status(&self, folder_found: bool, installed: Option<&[u8]>, current: &[u8])
        -> (status: InstallStatus)
        ensures
            status == if !folder_found {
                InstallStatus::DCSNotFound
            } else {
                match installed {
                    None => InstallStatus::NotInstalled,
                    Some(script) => if script@ == current@ {
                        InstallStatus::Installed
                    } else {
                        InstallStatus::RequiresUpdate
                    },
                }
            },
    {
        if !folder_found {
            return InstallStatus::DCSNotFound;
        }
        match installed {
            None => InstallStatus::NotInstalled,
            Some(script) => {
                if same_bytes(script, current) {
                    InstallStatus::Installed
                } else {
                    InstallStatus::RequiresUpdate
                }
            },
        }
    }
}

fn same_bytes(a: &[u8], b: &[u8]) -> (same: bool)
    ensures
        same == (a@ == b@),
{
    if a.len() != b.len() {
        return false;
    }
    let mut i: usize = 0;
    while i < a.len()
        invariant
            i <= a@.len(),
            a@.len() == b@.len(),
            forall|j: int| 0 <= j < i ==> a@[j] == b@[j],
        decreases a@.len() - i,
    {
        if a[i] != b[i] {
            return false;
        }
        i = i + 1;
    }
    assert(a@ =~= b@);
    true
}

/// What running the installer does in each state: a missing script is
/// installed, an outdated one replaced, a current one removed. Without the
/// release's folder there is nothing to do it to.
pub fn installer_action(status: &InstallStatus) -> (action: Option<InstallerAction>)
    ensures
        action == match *status {
            InstallStatus::DCSNotFound => None,
            InstallStatus::NotInstalled => Some(InstallerAction::Install),
            InstallStatus::RequiresUpdate => Some(InstallerAction::Update),
            InstallStatus::Installed => Some(InstallerAction::Uninstall),
        },
{
    match status {
        InstallStatus::DCSNotFound => None,
        InstallStatus::NotInstalled => Some(InstallerAction::Install),
        InstallStatus::RequiresUpdate => Some(InstallerAction::Update),
        InstallStatus::Installed => Some(InstallerAction::Uninstall),
    }
}

/// How the installer's button for a release shows each state: whether it can
/// be pressed, and what it says it will do.
pub fn installer_button(status: &InstallStatus) -> (button: (bool, &'static str))
    ensures
        button.0 == !(*status is DCSNotFound),
        button.1@ == match *status {
            InstallStatus::DCSNotFound => "Not Found"@,
            InstallStatus::NotInstalled => "Install"@,
            InstallStatus::RequiresUpdate => "Update"@,
            InstallStatus::Installed => "Uninstall"@,
        },
{
    match status {
        InstallStatus::DCSNotFound => (false, "Not Found"),
        InstallStatus::NotInstalled => (true, "Install"),
        InstallStatus::RequiresUpdate => (true, "Update"),
        InstallStatus::Installed => (true, "Uninstall"),
    }
}

} // verus!
