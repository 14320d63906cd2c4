use vstd::prelude::*;

verus! {

/// Something that can be installed. Whether a component is present is asked
/// anew on every run, and an error carries its diagnostic text. Nothing is
/// asked of an implementation but what it says of itself: each `may_`
/// predicate says which results a method can have, and an implementation
/// that says nothing says `true`.
pub trait Installer {
    /// Whether `result` is one that the installation may end with.
    open spec fn may_install(&self, result: Result<(), String>) -> bool {
        true
    }

    /// Whether `present` is an answer that the probe may give.
    open spec fn may_report(&self, present: bool) -> bool {
        true
    }

    /// Whether `name` is a name that the component may give itself.
    open spec fn may_be_named(&self, name: Seq<char>) -> bool {
        true
    }

    /// Installs the component.
    fn install(&self) -> (result: Result<(), String>)
        ensures
            self.may_install(result),
    ;

    /// Whether the component is already installed. A probe that cannot tell
    /// answers `false`.
    fn is_installed(&self) -> (present: bool)
        ensures
            self.may_report(present),
    ;

    /// The name by which plugins are matched to the component.
    fn component_name(&self) -> (name: &str)
        ensures
            self.may_be_named(name@),
    ;
}

} // verus!
