use vstd::prelude::*;
use crate::domain::interfaces::downloader::Downloader;
use crate::infrastructure::shell::command_line::{probe_result, CommandLine, CommandLineView, ProcessStatus};
use crate::infrastructure::text::{last_segment, last_segment_of, strip_leading, without_prefix};

verus! {

/// The address that redirects to the latest release of PowerShell.
pub const GITHUB_RELEASES: &'static str = "https://github.com/PowerShell/PowerShell/releases/latest";

/// The address below which the files of a release are found.
pub const DOWNLOAD_BASE: &'static str = "https://github.com/PowerShell/PowerShell/releases/download/";

/// What stands before the version in the name of the installer package.
pub const PACKAGE_PREFIX: &'static str = "PowerShell-";

/// What stands after the version in the name of the installer package.
pub const PACKAGE_SUFFIX: &'static str = "-win-x64.msi";

/// What stands before the platform's wording in the error of a failed
/// installation.
pub const INSTALL_FAILED: &'static str = "Installation failed with status: ";

/// The installer of PowerShell 7 itself: it finds the latest release,
/// downloads its package and has the platform install it.
pub struct PwshInstaller<'a> {
    /// The downloader. It is held in a tuple of one, which is stored as it
    /// is: Verus then knows the stored reference to be the one handed in.
    downloader: (&'a dyn Downloader, ),
}

/// The tag of the release that a redirect leads to: what follows the last
/// slash of its location.
pub open spec fn release_tag_of(location: Seq<char>) -> Seq<char> {
    last_segment_of(location, '/')
}

/// The name of the installer package of a release.
pub open spec fn package_name_of(tag: Seq<char>) -> Seq<char> {
    PACKAGE_PREFIX@ + without_prefix(tag, 'v') + PACKAGE_SUFFIX@
}

/// The address of the installer package of a release.
pub open spec fn package_url_of(tag: Seq<char>) -> Seq<char> {
    DOWNLOAD_BASE@ + tag + "/"@ + package_name_of(tag)
}

impl<'a> PwshInstaller<'a> {
    /// Whether `result` is one that the installer's downloader may end a
    /// download of `url` to `path` with.
    pub closed spec fn may_download(&self, url: Seq<char>, path: Seq<char>, result: Result<(), String>) -> bool {
        self.downloader.0.may_download(url, path, result)
    }

    /// An installer that downloads with `downloader`: its downloads end as
    /// those of `downloader` do.
    pub fn new(downloader: &'a dyn Downloader) -> (installer: PwshInstaller<'a>)
        ensures
            forall|url: Seq<char>, path: Seq<char>, result: Result<(), String>|
                #[trigger] installer.may_download(url, path, result) == downloader.may_download(
                    url,
                    path,
                    result,
                ),
    {
        let held = (downloader, );
        PwshInstaller { downloader: held }
    }

    /// The name of the component.
    pub fn component_name(&self) -> (name: &'static str)
        ensures
            name@ == "PowerShell 7"@,
    {
        "PowerShell 7"
    }

    /// The tag of the latest release, from the location that the release
    /// address redirects to.
    pub fn release_tag(location: &str) -> (tag: String)
        ensures
            tag@ == release_tag_of(location@),
    {
        last_segment(location, '/')
    }

    /// The name of the installer package of the release with this tag: the
    /// tag's version without a leading `v`, between the fixed parts.
    pub fn package_name(tag: &str) -> (name: String)
        ensures
            name@ == package_name_of(tag@),
    {
        let version = strip_leading(tag, 'v');
        let mut name = String::from_str(PACKAGE_PREFIX);
        name.append(version.as_str());
        name.append(PACKAGE_SUFFIX);
        name
    }

    /// The address of the installer package of the release with this tag.
    pub fn package_url(tag: &str) -> (url: String)
        ensures
            url@ == package_url_of(tag@),
    {
        let name = PwshInstaller::package_name(tag);
        let mut url = String::from_str(DOWNLOAD_BASE);
        url.append(tag);
        url.append("/");
        url.append(name.as_str());
        url
    }

    /// Downloads the installer package of the release with this tag to
    /// `package_path`: the result is the downloader's own, for the address of
    /// that package and that path.
    pub fn download_package(&self, tag: &str, package_path: &str) -> (result: Result<(), String>)
        ensures
            self.may_download(package_url_of(tag@), package_path@, result),
    {
        let url = PwshInstaller::package_url(tag);
        self.downloader.0.download(url.as_str(), package_path)
    }

    /// The command line that installs the package without asking.
    pub fn install_line(package_path: &str) -> (line: CommandLine)
        ensures
            line@ == (CommandLineView {
                program: "msiexec"@,
                arguments: seq!["/i"@, package_path@, "/quiet"@, "/norestart"@],
            }),
    {
        let mut arguments: Vec<&str> = Vec::new();
        arguments.push("/i");
        arguments.push(package_path);
        arguments.push("/quiet");
        arguments.push("/norestart");
        let line = CommandLine::new("msiexec", arguments);
        assert(line@.arguments =~= seq!["/i"@, package_path@, "/quiet"@, "/norestart"@]);
        line
    }

    /// The result of the installation, from what became of the platform
    /// installer and how the platform worded it: the wording alone where the
    /// installer could not be started, and after a fixed text where it ended
    /// in failure.
    pub fn install_result(status: ProcessStatus, wording: &str) -> (result: Result<(), String>)
        ensures
            match status {
                ProcessStatus::NotStarted => result is Err && result->Err_0@ == wording@,
                ProcessStatus::Exited { success } => if success {
                    result is Ok
                } else {
                    result is Err && result->Err_0@ == INSTALL_FAILED@ + wording@
                },
            },
    {
        match status {
            ProcessStatus::NotStarted => Err(String::from_str(wording)),
            ProcessStatus::Exited { success } => if success {
                Ok(())
            } else {
                let mut message = String::from_str(INSTALL_FAILED);
                message.append(wording);
                Err(message)
            },
        }
    }

    /// The command line whose start shows that PowerShell 7 is present.
    pub fn probe_line(&self) -> (line: CommandLine)
        ensures
            line@ == (CommandLineView { program: "pwsh"@, arguments: seq!["-Version"@] }),
    {
        let mut arguments: Vec<&str> = Vec::new();
        arguments.push("-Version");
        let line = CommandLine::new("pwsh", arguments);
        assert(line@.arguments =~= seq!["-Version"@]);
        line
    }

    /// Whether PowerShell 7 is present, from what became of the probe's
    /// process.
    pub fn is_installed(&self, status: ProcessStatus) -> (present: bool)
        ensures
            present == (status is Exited),
    {
        probe_result(status)
    }
}

/// The error of a release address that does not redirect.
pub const NO_REDIRECT: &'static str = "No redirect location found";

/// Where the installation of PowerShell 7 stands: which answer it is waiting
/// for.
#[derive(Debug, Clone, PartialEq, Eq)]
pub enum PwshInstallStage {
    /// Where does the release address redirect to?
    ResolvingRelease,
    /// The package of the release with this tag is being downloaded.
    Downloading { tag: String },
    /// The platform installs the package at this path.
    Installing { package_path: String },
    /// PowerShell 7 is installed.
    Done,
    /// The installation failed, with the text of the failure.
    Failed(String),
}

/// What came of the request of a stage.
#[derive(Debug, PartialEq, Eq)]
pub enum PwshInstallAnswer {
    /// The location that the release address redirects to, or why there is
    /// none.
    Location(Result<String, String>),
    /// How the download of the package to this path ended.
    Downloaded { package_path: String, result: Result<(), String> },
    /// What became of the platform installer, and how the platform worded it.
    Exited { status: ProcessStatus, wording: String },
}

/// The mathematical value of a [`PwshInstallStage`].
pub ghost enum PwshInstallStageView {
    ResolvingRelease,
    Downloading { tag: Seq<char> },
    Installing { package_path: Seq<char> },
    Done,
    Failed(Seq<char>),
}

impl View for PwshInstallStage {
    type V = PwshInstallStageView;

    open spec fn view(&self) -> PwshInstallStageView {
        match *self {
            PwshInstallStage::ResolvingRelease => PwshInstallStageView::ResolvingRelease,
            PwshInstallStage::Downloading { tag } => PwshInstallStageView::Downloading { tag: tag@ },
            PwshInstallStage::Installing { package_path } => PwshInstallStageView::Installing {
                package_path: package_path@,
            },
            PwshInstallStage::Done => PwshInstallStageView::Done,
            PwshInstallStage::Failed(message) => PwshInstallStageView::Failed(message@),
        }
    }
}

/// The text of the failure of the platform installer, where it failed: the
/// platform's wording alone where the installer could not be started, and
/// after a fixed text where it ended in failure.
pub open spec fn install_failure_of(status: ProcessStatus, wording: Seq<char>) -> Option<Seq<char>> {
    match status {
        ProcessStatus::NotStarted => Some(wording),
        ProcessStatus::Exited { success } => if success {
            None
        } else {
            Some(INSTALL_FAILED@ + wording)
        },
    }
}

/// The stage after an answer: the release is resolved, then its package is
/// downloaded, then the platform installs it, and the first failure ends the
/// installation. An answer that the stage does not wait for changes nothing.
pub open spec fn next_install_stage(stage: PwshInstallStageView, answer: PwshInstallAnswer) -> PwshInstallStageView {
    match (stage, answer) {
        (PwshInstallStageView::ResolvingRelease, PwshInstallAnswer::Location(Ok(location))) => {
            PwshInstallStageView::Downloading { tag: release_tag_of(location@) }
        },
        (PwshInstallStageView::ResolvingRelease, PwshInstallAnswer::Location(Err(message))) => {
            PwshInstallStageView::Failed(message@)
        },
        (
            PwshInstallStageView::Downloading { tag },
            PwshInstallAnswer::Downloaded { package_path, result },
        ) => match result {
            Ok(_) => PwshInstallStageView::Installing { package_path: package_path@ },
            Err(message) => PwshInstallStageView::Failed(message@),
        },
        (
            PwshInstallStageView::Installing { package_path },
            PwshInstallAnswer::Exited { status, wording },
        ) => match install_failure_of(status, wording@) {
            None => PwshInstallStageView::Done,
            Some(message) => PwshInstallStageView::Failed(message),
        },
        _ => stage,
    }
}

impl PwshInstallStage {
    /// The installation at its beginning.
    pub fn start() -> (stage: PwshInstallStage)
        ensures
            stage@ == PwshInstallStageView::ResolvingRelease,
    {
        PwshInstallStage::ResolvingRelease
    }

    /// The stage after an answer.
    pub fn step(self, answer: PwshInstallAnswer) -> (next: PwshInstallStage)
        ensures
            next@ == next_install_stage(self@, answer),
    {
        match self {
            PwshInstallStage::ResolvingRelease => match answer {
                PwshInstallAnswer::Location(Ok(location)) => PwshInstallStage::Downloading {
                    tag: PwshInstaller::release_tag(location.as_str()),
                },
                PwshInstallAnswer::Location(Err(message)) => PwshInstallStage::Failed(message),
                _ => PwshInstallStage::ResolvingRelease,
            },
            PwshInstallStage::Downloading { tag } => match answer {
                PwshInstallAnswer::Downloaded { package_path, result } => match result {
                    Ok(_) => PwshInstallStage::Installing { package_path },
                    Err(message) => PwshInstallStage::Failed(message),
                },
                _ => PwshInstallStage::Downloading { tag },
            },
            PwshInstallStage::Installing { package_path } => match answer {
                PwshInstallAnswer::Exited { status, wording } => match PwshInstaller::install_result(
                    status,
                    wording.as_str(),
                ) {
                    Ok(_) => PwshInstallStage::Done,
                    Err(message) => PwshInstallStage::Failed(message),
                },
                _ => PwshInstallStage::Installing { package_path },
            },
            PwshInstallStage::Done => PwshInstallStage::Done,
            PwshInstallStage::Failed(message) => PwshInstallStage::Failed(message),
        }
    }

    /// The result of an installation that has ended, and nothing while it is
    /// under way.
    pub fn result(&self) -> (result: Option<Result<(), String>>)
        ensures
            match self@ {
                PwshInstallStageView::Done => result == Some(Ok::<(), String>(())),
                PwshInstallStageView::Failed(message) => result is Some && result->Some_0 is Err
                    && result->Some_0->Err_0@ == message,
                _ => result is None,
            },
    {
        match self {
            PwshInstallStage::Done => Some(Ok(())),
            PwshInstallStage::Failed(message) => Some(Err(message.clone())),
            _ => None,
        }
    }
}

/// The steps of the installation come in their order and stop at the first
/// failure: a package is downloaded only for a release that was resolved, the
/// platform installer runs only on a package whose download succeeded, and
/// the installation is done only where the platform installer ended in
/// success. An installation that has ended stays as it is.
pub proof fn law_installation_steps_in_order(stage: PwshInstallStageView, answer: PwshInstallAnswer)
    ensures
        next_install_stage(stage, answer) is Downloading && !(stage is Downloading) ==> stage is ResolvingRelease
            && answer is Location && answer->Location_0 is Ok,
        next_install_stage(stage, answer) is Installing && !(stage is Installing) ==> stage is Downloading
            && answer is Downloaded && answer->Downloaded_result is Ok,
        next_install_stage(stage, answer) is Done && !(stage is Done) ==> stage is Installing
            && answer is Exited && answer->Exited_status == (ProcessStatus::Exited {
            success: true,
        }),
        stage is Done || stage is Failed ==> next_install_stage(stage, answer) == stage,
{
}

} // verus!
