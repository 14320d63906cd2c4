use vstd::prelude::*;

verus! {

/// Something that can set the terminal's font. Nothing is asked of an
/// implementation but what it says of itself.
pub trait TerminalConfigurator {
    /// Whether `result` is one that making `font_name` the font may end with.
    open spec fn may_configure(&self, font_name: Seq<char>, result: Result<(), String>) -> bool {
        true
    }

    /// Whether `supported` is an answer that the support check may give.
    open spec fn may_support(&self, supported: bool) -> bool {
        true
    }

    /// Makes `font_name` the terminal's font.
    fn configure_font(&self, font_name: &str) -> (result: Result<(), String>)
        ensures
            self.may_configure(font_name@, result),
    ;

    /// Whether there is a terminal to configure.
    fn is_supported(&self) -> (supported: bool)
        ensures
            self.may_support(supported),
    ;
}

} // verus!
