//! The root of a game installation on disk.

use vstd::prelude::*;

verus! {

/// The filesystem root of a game installation. Wrapping a path performs no
/// validation; whether the root is a usable directory is a separate, explicit
/// question answered by [`BeamNGInstall::exists_on_disk`]. Every executable path is
/// resolved by joining a fixed relative path onto this root.
#[derive(Debug, Clone)]
pub struct BeamNGInstall {
    path: String,
}

impl View for BeamNGInstall {
    type V = Seq<char>;

    /// The install root as the sequence of characters of its path.
    closed spec fn view(&self) -> Seq<char> {
        self.path@
    }
}

impl BeamNGInstall {
    /// Wrap a path as an install root. No validation is performed.
    pub fn init(path: String) -> (r: Self)
        ensures
            r@ == path@,
    {
        BeamNGInstall { path }
    }

    /// Whether the root currently denotes an existing directory: false for a
    /// missing path, a regular file, or a broken link. The filesystem is
    /// consulted on every call, never cached, since the install may appear or
    /// vanish between calls; nothing can be promised of the answer.
    ///
    /// Relies on std::path::Path::is_dir: true iff the path names an
    /// existing directory.
    #[verifier::external_body]
    pub fn exists_on_disk(&self) -> bool {
        std::path::Path::new(self.path.as_str()).is_dir()
    }

    /// The path this install root wraps.
    pub fn path(&self) -> (r: &String)
        ensures
            r@ == self@,
    {
        &self.path
    }
}

} // verus!
