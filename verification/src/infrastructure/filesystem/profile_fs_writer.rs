use vstd::prelude::*;
use crate::domain::interfaces::shell::ShellRunner;
use crate::infrastructure::text::{trimmed, trimmed_text};

verus! {

/// The command whose output is the path of the shell's profile.
pub const PROFILE_VARIABLE: &'static str = "$PROFILE";

/// The error of a profile directory that could not be created.
pub const DIRECTORY_NOT_CREATED: &'static str = "Failed to create profile directory";

/// The error of a profile that could not be written.
pub const PROFILE_NOT_WRITTEN: &'static str = "Failed to write profile";

/// The profile store on the file system: it asks the shell where the profile
/// lies and writes the profile's text there.
pub struct ProfileFsWriter<'a> {
    /// The shell. It is held in a tuple of one, which is stored as it is:
    /// Verus then knows the stored reference to be the one handed in.
    shell: (&'a dyn ShellRunner, ),
}

/// The profile path that the shell's answer gives: the answer without the
/// whitespace around it, or the shell's error.
pub open spec fn profile_path_of(answer: Result<String, String>) -> Result<Seq<char>, String> {
    match answer {
        Ok(output) => Ok(trimmed(output@)),
        Err(message) => Err(message),
    }
}

/// Whether `path` is the result that the shell's answer gives: the trimmed
/// answer as the path, or the shell's own error.
pub open spec fn is_profile_path(path: Result<String, String>, answer: Result<String, String>) -> bool {
    match profile_path_of(answer) {
        Ok(text) => path is Ok && path->Ok_0@ == text,
        Err(message) => path == Err::<String, String>(message),
    }
}

/// What became of the two steps of a write: the creation of the directory
/// that holds the profile, and the write itself.
#[derive(Debug, Clone, Copy, PartialEq, Eq)]
pub enum WriteStatus {
    DirectoryNotCreated,
    NotWritten,
    Written,
}

impl<'a> ProfileFsWriter<'a> {
    /// Whether `answer` is one that the store's shell may give to `cmd`.
    pub closed spec fn shell_may_answer(&self, cmd: Seq<char>, answer: Result<String, String>) -> bool {
        self.shell.0.may_answer(cmd, answer)
    }

    /// A profile store that asks `shell` for the profile's path: its shell
    /// answers as `shell` does.
    pub fn new(shell: &'a dyn ShellRunner) -> (writer: ProfileFsWriter<'a>)
        ensures
            forall|cmd: Seq<char>, answer: Result<String, String>|
                #[trigger] writer.shell_may_answer(cmd, answer) == shell.may_answer(cmd, answer),
    {
        let held = (shell, );
        ProfileFsWriter { shell: held }
    }

    /// The text that is persisted for a profile's content: the content
    /// without the whitespace around it.
    pub fn persisted_text(content: &str) -> (text: String)
        ensures
            text@ == trimmed(content@),
    {
        trimmed_text(content)
    }

    /// The profile path that the shell's answer gives.
    pub fn profile_path(answer: Result<String, String>) -> (path: Result<String, String>)
        ensures
            is_profile_path(path, answer),
    {
        match answer {
            Ok(output) => Ok(trimmed_text(output.as_str())),
            Err(message) => Err(message),
        }
    }

    /// Asks the shell for the path of its profile: the shell is handed the
    /// profile variable, and the result is the path that its answer gives.
    pub fn get_profile_path(&self) -> (path: Result<String, String>)
        ensures
            exists|answer: Result<String, String>|
                #[trigger] self.shell_may_answer(PROFILE_VARIABLE@, answer) && is_profile_path(
                    path,
                    answer,
                ),
    {
        let answer = self.shell.0.run(PROFILE_VARIABLE);
        let path = ProfileFsWriter::profile_path(answer);
        assert(self.shell_may_answer(PROFILE_VARIABLE@, answer) && is_profile_path(path, answer));
        path
    }

    /// The result of a write, from what became of its steps.
    pub fn write_result(status: WriteStatus) -> (result: Result<(), String>)
        ensures
            match status {
                WriteStatus::DirectoryNotCreated => result is Err && result->Err_0@
                    == DIRECTORY_NOT_CREATED@,
                WriteStatus::NotWritten => result is Err && result->Err_0@ == PROFILE_NOT_WRITTEN@,
                WriteStatus::Written => result is Ok,
            },
    {
        match status {
            WriteStatus::DirectoryNotCreated => Err(String::from_str(DIRECTORY_NOT_CREATED)),
            WriteStatus::NotWritten => Err(String::from_str(PROFILE_NOT_WRITTEN)),
            WriteStatus::Written => Ok(()),
        }
    }
}

} // verus!
