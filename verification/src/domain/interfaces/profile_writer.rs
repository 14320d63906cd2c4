use vstd::prelude::*;

verus! {

/// Something that keeps the profile script. Nothing is asked of an
/// implementation but what it says of itself.
pub trait ProfileWriter {
    /// Whether `result` is one that writing `content` to `path` may end with.
    open spec fn may_write(&self, path: Seq<char>, content: Seq<char>, result: Result<(), String>) -> bool {
        true
    }

    /// Whether `path` is a result that the resolution of the profile's path may
    /// have.
    open spec fn may_resolve(&self, path: Result<String, String>) -> bool {
        true
    }

    /// Writes the profile's content to `path`, replacing what was there.
    fn write(&self, path: &str, content: &str) -> (result: Result<(), String>)
        ensures
            self.may_write(path@, content@, result),
    ;

    /// The path of the profile of the shell in use.
    fn get_profile_path(&self) -> (path: Result<String, String>)
        ensures
            self.may_resolve(path),
    ;
}

} // verus!
