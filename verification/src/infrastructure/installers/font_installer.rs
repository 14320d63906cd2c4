use vstd::prelude::*;
use crate::domain::entities::profile::names_of;
use crate::infrastructure::shell::command_line::{
    installation_result, CommandLine, CommandLineView, ProcessStatus,
};
use crate::infrastructure::text::{contains, contains_text};

verus! {

/// The error of an installation whose process could not be started.
pub const FONT_INSTALL_NOT_STARTED: &'static str = "Failed to execute oh-my-posh font install";

/// The error of an installation that did not complete.
pub const FONT_INSTALL_FAILED: &'static str = "oh-my-posh font install failed";

/// The directory of the user's fonts, below the local application data.
pub const FONTS_DIRECTORY: &'static str = "Microsoft\\Windows\\Fonts";

/// The part of a file name that shows a Meslo font.
pub const FONT_MARK: &'static str = "Meslo";

/// The installer of a Nerd Font, through oh-my-posh.
pub struct FontInstaller {
    font_name: String,
}

impl View for FontInstaller {
    type V = Seq<char>;

    /// The name of the font as oh-my-posh knows it.
    closed spec fn view(&self) -> Seq<char> {
        self.font_name@
    }
}

/// Whether one of the file names shows a Meslo font.
pub open spec fn shows_font(file_names: Seq<Seq<char>>) -> bool {
    exists|i: int| 0 <= i < file_names.len() && contains_text(#[trigger] file_names[i], FONT_MARK@)
}

impl FontInstaller {
    /// The installer of the font of this name.
    pub fn new(font_name: &str) -> (installer: FontInstaller)
        ensures
            installer@ == font_name@,
    {
        FontInstaller { font_name: String::from_str(font_name) }
    }

    /// The installer of the Meslo font.
    pub fn meslo() -> (installer: FontInstaller)
        ensures
            installer@ == "meslo"@,
    {
        FontInstaller::new("meslo")
    }

    /// The name of the component, whatever the font.
    pub fn component_name(&self) -> (name: &'static str)
        ensures
            name@ == "Meslo Nerd Font"@,
    {
        "Meslo Nerd Font"
    }

    /// The command line that installs the font.
    pub fn install_line(&self) -> (line: CommandLine)
        ensures
            line@ == (CommandLineView {
                program: "oh-my-posh"@,
                arguments: seq!["font"@, "install"@, self@],
            }),
    {
        let mut arguments: Vec<&str> = Vec::new();
        arguments.push("font");
        arguments.push("install");
        arguments.push(self.font_name.as_str());
        let line = CommandLine::new("oh-my-posh", arguments);
        assert(line@.arguments =~= seq!["font"@, "install"@, self@]);
        line
    }

    /// The result of the installation, from what became of its process.
    pub fn install_result(&self, status: ProcessStatus) -> (result: Result<(), String>)
        ensures
            result is Ok == (status == ProcessStatus::Exited { success: true }),
            status is NotStarted ==> result is Err && result->Err_0@ == FONT_INSTALL_NOT_STARTED@,
            status == (ProcessStatus::Exited { success: false }) ==> result is Err
                && result->Err_0@ == FONT_INSTALL_FAILED@,
    {
        installation_result(status, FONT_INSTALL_NOT_STARTED, FONT_INSTALL_FAILED)
    }

    /// Whether the font is present, from the names of the files in the fonts
    /// directory: it is where one of them holds "Meslo". A directory that
    /// could not be read has no names to show.
    pub fn is_installed(&self, file_names: &Vec<String>) -> (present: bool)
        ensures
            present == shows_font(names_of(file_names@)),
    {
        let ghost names = names_of(file_names@);
        let mut i: usize = 0;
        while i < file_names.len()
            invariant
                i <= file_names@.len(),
                names == names_of(file_names@),
                forall|j: int| 0 <= j < i ==> !contains_text(#[trigger] names[j], FONT_MARK@),
            decreases file_names@.len() - i,
        {
            if contains(file_names[i].as_str(), FONT_MARK) {
                assert(contains_text(names[i as int], FONT_MARK@));
                return true;
            }
            i = i + 1;
        }
        false
    }
}

impl Default for FontInstaller {
    /// The installer of the Meslo font.
    fn default() -> (installer: FontInstaller)
        ensures
            installer@ == "meslo"@,
    {
        FontInstaller::meslo()
    }
}

} // verus!
