//! The kind of library that `go build` is asked to produce.
use vstd::prelude::*;

verus! {

/// Build mode to be used during compilation.
#[derive(Clone, Copy, Debug, PartialEq, Eq, Structural)]
pub enum BuildMode {
    /// Build the listed main package, plus all packages it imports, into a
    /// C archive file. The only callable symbols are the functions exported
    /// with a cgo `//export` comment.
    CArchive,
    /// Build the listed main package, plus all packages it imports, into a
    /// C shared library. The only callable symbols are the functions
    /// exported with a cgo `//export` comment.
    CShared,
}

impl BuildMode {
    /// The value of Go's `-buildmode` flag for this mode.
    pub open spec fn spec_flag(self) -> Seq<char> {
        match self {
            BuildMode::CArchive => "c-archive"@,
            BuildMode::CShared => "c-shared"@,
        }
    }

    /// The value of Go's `-buildmode` flag for this mode.
    pub fn as_str(&self) -> (r: &'static str)
        ensures
            r@ == self.spec_flag(),
    {
        match self {
            BuildMode::CArchive => "c-archive",
            BuildMode::CShared => "c-shared",
        }
    }

    /// The value of Go's `-buildmode` flag for this mode, as a `String`.
    pub fn to_string(&self) -> (r: String)
        ensures
            r@ == self.spec_flag(),
    {
        self.as_str().to_owned()
    }

    /// How Cargo is told to link the library that this mode produces.
    pub open spec fn spec_link_kind(self) -> Seq<char> {
        match self {
            BuildMode::CArchive => "static"@,
            BuildMode::CShared => "dynamic"@,
        }
    }

    /// How Cargo is told to link the library that this mode produces.
    pub fn link_kind(&self) -> (r: &'static str)
        ensures
            r@ == self.spec_link_kind(),
    {
        match self {
            BuildMode::CArchive => "static",
            BuildMode::CShared => "dynamic",
        }
    }

    /// The extension of the produced file, with its dot.
    pub open spec fn spec_extension(self, windows: bool) -> Seq<char> {
        match self {
            BuildMode::CArchive => if windows { ".lib"@ } else { ".a"@ },
            BuildMode::CShared => if windows { ".dll"@ } else { ".so"@ },
        }
    }

    /// The extension of the produced file, with its dot, on a Windows host
    /// or on another one.
    pub fn extension(&self, windows: bool) -> (r: &'static str)
        ensures
            r@ == self.spec_extension(windows),
    {
        match self {
            BuildMode::CArchive => if windows { ".lib" } else { ".a" },
            BuildMode::CShared => if windows { ".dll" } else { ".so" },
        }
    }
}

impl Default for BuildMode {
    fn default() -> (r: BuildMode)
        ensures
            r == BuildMode::CArchive,
    {
        BuildMode::CArchive
    }
}

} // verus!
