use vstd::prelude::*;

verus! {

/// Something that can fetch a file. An error carries its diagnostic text.
/// Nothing is asked of an implementation but what it says of itself.
pub trait Downloader {
    /// Whether `result` is one that a download of `url` to `path` may end
    /// with. An implementation that says nothing of its results says `true`.
    open spec fn may_download(&self, url: Seq<char>, path: Seq<char>, result: Result<(), String>) -> bool {
        true
    }

    /// Downloads the file at `url` to `path`.
    fn download(&self, url: &str, path: &str) -> (result: Result<(), String>)
        ensures
            self.may_download(url@, path@, result),
    ;
}

} // verus!
