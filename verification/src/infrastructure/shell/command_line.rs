use vstd::prelude::*;
use crate::domain::entities::profile::names_of;

verus! {

/// A program and the arguments it is started with.
#[derive(Debug, Clone, PartialEq, Eq)]
pub struct CommandLine {
    pub program: String,
    pub arguments: Vec<String>,
}

/// The mathematical value of a [`CommandLine`].
pub ghost struct CommandLineView {
    pub program: Seq<char>,
    pub arguments: Seq<Seq<char>>,
}

impl View for CommandLine {
    type V = CommandLineView;

    open spec fn view(&self) -> CommandLineView {
        CommandLineView { program: self.program@, arguments: names_of(self.arguments@) }
    }
}

/// The texts of a list of string slices.
pub open spec fn texts_of(list: Seq<&str>) -> Seq<Seq<char>> {
    Seq::new(list.len(), |i: int| list[i]@)
}

impl CommandLine {
    /// The command line of a program with the given arguments.
    pub fn new(program: &str, arguments: Vec<&str>) -> (line: CommandLine)
        ensures
            line@ == (CommandLineView { program: program@, arguments: texts_of(arguments@) }),
    {
        let mut owned: Vec<String> = Vec::new();
        let mut i: usize = 0;
        while i < arguments.len()
            invariant
                i <= arguments@.len(),
                owned@.len() == i,
                forall|j: int| 0 <= j < i ==> (#[trigger] owned@[j])@ == arguments@[j]@,
            decreases arguments@.len() - i,
        {
            owned.push(String::from_str(arguments[i]));
            i = i + 1;
        }
        assert(names_of(owned@) =~= texts_of(arguments@));
        CommandLine { program: String::from_str(program), arguments: owned }
    }
}

/// What became of a process: whether it could be started at all and, if so,
/// whether it ended in success.
#[derive(Debug, Clone, Copy, PartialEq, Eq)]
pub enum ProcessStatus {
    NotStarted,
    Exited { success: bool },
}

/// The result of an installation that one process carried out: success where
/// the process ended in success, and otherwise the text for the case.
pub fn installation_result(status: ProcessStatus, not_started: &str, failed: &str) -> (result: Result<
    (),
    String,
>)
    ensures
        match status {
            ProcessStatus::NotStarted => result is Err && result->Err_0@ == not_started@,
            ProcessStatus::Exited { success } => if success {
                result is Ok
            } else {
                result is Err && result->Err_0@ == failed@
            },
        },
{
    match status {
        ProcessStatus::NotStarted => Err(String::from_str(not_started)),
        ProcessStatus::Exited { success } => if success {
            Ok(())
        } else {
            Err(String::from_str(failed))
        },
    }
}

/// Whether a probe that starts a program found it: it did where the program
/// could be started, however it ended.
pub fn probe_result(status: ProcessStatus) -> (present: bool)
    ensures
        present == (status is Exited),
{
    match status {
        ProcessStatus::NotStarted => false,
        ProcessStatus::Exited { .. } => true,
    }
}

} // verus!
