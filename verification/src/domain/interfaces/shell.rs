use vstd::prelude::*;

verus! {

/// Something that runs shell commands. Nothing is asked of an implementation
/// but what it says of itself.
pub trait ShellRunner {
    /// Whether `answer` is one that the shell may give to the command `cmd`.
    /// An implementation that says nothing of its answers says `true`.
    open spec fn may_answer(&self, cmd: Seq<char>, answer: Result<String, String>) -> bool {
        true
    }

    /// Runs a command and returns what it printed, or the error's text.
    fn run(&self, cmd: &str) -> (answer: Result<String, String>)
        ensures
            self.may_answer(cmd@, answer),
    ;

    /// Whether `name` is a name that the shell may give itself.
    open spec fn may_be_named(&self, name: Seq<char>) -> bool {
        true
    }

    /// Whether an executable of this name can be started.
    fn command_exists(&self, command: &str) -> bool;

    /// The name of the shell, such as "pwsh" or "powershell".
    fn shell_name(&self) -> (name: &str)
        ensures
            self.may_be_named(name@),
    ;
}

} // verus!
