use vstd::prelude::*;

verus! {

/// The error of a machine without any PowerShell.
pub const NO_SHELL: &'static str = "No PowerShell version found";

/// Where the choice of the shell stands: which answer it is waiting for.
#[derive(Debug, Clone, Copy, PartialEq, Eq)]
pub enum ShellSelection {
    /// Is PowerShell 7 there?
    ProbingPwsh,
    /// Does the user want PowerShell 7 installed?
    AskingToInstall,
    /// Is Windows PowerShell there?
    ProbingPowerShell,
    /// PowerShell 7 is being installed.
    Installing,
    /// Is PowerShell 7 there after its installation?
    ProbingInstalledPwsh,
    /// The shell is chosen: PowerShell 7 where `use_pwsh` holds.
    Selected { use_pwsh: bool },
    /// PowerShell 7 was installed and is found only after a restart.
    RestartRequired,
    /// There is no PowerShell at all.
    NoShell,
    /// The installation of PowerShell 7 failed.
    InstallFailed,
}

/// What came of the request of a stage.
#[derive(Debug, Clone, Copy, PartialEq, Eq)]
pub enum ShellAnswer {
    /// A probe found the shell, or did not.
    Found(bool),
    /// The user accepted the installation, or declined it.
    Accepted(bool),
    /// The installation ended in success, or did not.
    Installed(bool),
}

/// The stage after an answer. An answer that the stage does not wait for
/// changes nothing.
pub open spec fn next_selection(stage: ShellSelection, answer: ShellAnswer) -> ShellSelection {
    match (stage, answer) {
        (ShellSelection::ProbingPwsh, ShellAnswer::Found(found)) => if found {
            ShellSelection::Selected { use_pwsh: true }
        } else {
            ShellSelection::AskingToInstall
        },
        (ShellSelection::AskingToInstall, ShellAnswer::Accepted(accepted)) => if accepted {
            ShellSelection::Installing
        } else {
            ShellSelection::ProbingPowerShell
        },
        (ShellSelection::ProbingPowerShell, ShellAnswer::Found(found)) => if found {
            ShellSelection::Selected { use_pwsh: false }
        } else {
            ShellSelection::NoShell
        },
        (ShellSelection::Installing, ShellAnswer::Installed(installed)) => if installed {
            ShellSelection::ProbingInstalledPwsh
        } else {
            ShellSelection::InstallFailed
        },
        (ShellSelection::ProbingInstalledPwsh, ShellAnswer::Found(found)) => if found {
            ShellSelection::Selected { use_pwsh: true }
        } else {
            ShellSelection::RestartRequired
        },
        _ => stage,
    }
}

/// Whether the choice has ended.
pub open spec fn is_settled(stage: ShellSelection) -> bool {
    stage is Selected || stage is RestartRequired || stage is NoShell || stage is InstallFailed
}

impl ShellSelection {
    /// The choice at its beginning.
    pub fn start() -> (stage: ShellSelection)
        ensures
            stage == ShellSelection::ProbingPwsh,
    {
        ShellSelection::ProbingPwsh
    }

    /// The stage after an answer.
    pub fn step(self, answer: ShellAnswer) -> (next: ShellSelection)
        ensures
            next == next_selection(self, answer),
    {
        match self {
            ShellSelection::ProbingPwsh => match answer {
                ShellAnswer::Found(found) => if found {
                    ShellSelection::Selected { use_pwsh: true }
                } else {
                    ShellSelection::AskingToInstall
                },
                _ => self,
            },
            ShellSelection::AskingToInstall => match answer {
                ShellAnswer::Accepted(accepted) => if accepted {
                    ShellSelection::Installing
                } else {
                    ShellSelection::ProbingPowerShell
                },
                _ => self,
            },
            ShellSelection::ProbingPowerShell => match answer {
                ShellAnswer::Found(found) => if found {
                    ShellSelection::Selected { use_pwsh: false }
                } else {
                    ShellSelection::NoShell
                },
                _ => self,
            },
            ShellSelection::Installing => match answer {
                ShellAnswer::Installed(installed) => if installed {
                    ShellSelection::ProbingInstalledPwsh
                } else {
                    ShellSelection::InstallFailed
                },
                _ => self,
            },
            ShellSelection::ProbingInstalledPwsh => match answer {
                ShellAnswer::Found(found) => if found {
                    ShellSelection::Selected { use_pwsh: true }
                } else {
                    ShellSelection::RestartRequired
                },
                _ => self,
            },
            _ => self,
        }
    }

    /// Whether the choice has ended.
    pub fn settled(self) -> (settled: bool)
        ensures
            settled == is_settled(self),
    {
        match self {
            ShellSelection::Selected { .. } => true,
            ShellSelection::RestartRequired => true,
            ShellSelection::NoShell => true,
            ShellSelection::InstallFailed => true,
            _ => false,
        }
    }
}

/// A choice that has ended stays as it is.
pub proof fn law_settled_choice_is_final(stage: ShellSelection, answer: ShellAnswer)
    requires
        is_settled(stage),
    ensures
        next_selection(stage, answer) == stage,
{
}

/// PowerShell 7 is installed only where the user accepted it.
pub proof fn law_installation_needs_acceptance(stage: ShellSelection, answer: ShellAnswer)
    requires
        next_selection(stage, answer) is Installing,
        !(stage is Installing),
    ensures
        stage is AskingToInstall,
        answer == ShellAnswer::Accepted(true),
{
}

/// Of all the ways in which three answers can follow the beginning, Windows
/// PowerShell is chosen on exactly one: PowerShell 7 was not found, its
/// installation was declined, and Windows PowerShell was found.
pub proof fn law_windows_powershell_is_the_fallback(
    first: ShellAnswer,
    second: ShellAnswer,
    third: ShellAnswer,
)
    ensures
        next_selection(
            next_selection(next_selection(ShellSelection::ProbingPwsh, first), second),
            third,
        ) == (ShellSelection::Selected { use_pwsh: false }) <==> first == ShellAnswer::Found(false)
            && second == ShellAnswer::Accepted(false) && third == ShellAnswer::Found(true),
{
}

} // verus!
