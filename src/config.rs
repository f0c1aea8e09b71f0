//! The builder that collects the options of one `go build` invocation.
use vstd::prelude::*;
use crate::mode::BuildMode;
use crate::text::join3;

verus! {

/// The options of a build, as plain values.
pub struct BuildView {
    pub build_mode: BuildMode,
    pub cargo_metadata: bool,
    pub change_dir: Option<Seq<char>>,
    pub ldflags: Option<Seq<char>>,
    pub out_dir: Option<Seq<char>>,
    pub packages: Seq<Seq<char>>,
    pub trimpath: bool,
}

/// The characters of an optional string.
pub open spec fn opt_view(o: Option<String>) -> Option<Seq<char>> {
    match o {
        Some(s) => Some(s@),
        None => None,
    }
}

/// The characters of each string of a sequence.
pub open spec fn strings_view(v: Seq<String>) -> Seq<Seq<char>> {
    v.map_values(|s: String| s@)
}

/// The options of a new builder.
pub open spec fn default_view() -> BuildView {
    BuildView {
        build_mode: BuildMode::CArchive,
        cargo_metadata: true,
        change_dir: None,
        ldflags: None,
        out_dir: None,
        packages: Seq::empty(),
        trimpath: false,
    }
}

/// The name of the library file for `output`: `lib`, the name, and the
/// extension of the build mode on the host.
pub open spec fn lib_file_name(output: Seq<char>, mode: BuildMode, windows: bool) -> Seq<char> {
    "lib"@ + output + mode.spec_extension(windows)
}

/// The flags that come before the packages: the subcommand, the directory
/// change (always the first flag, as Go requires since 1.21), the ldflags,
/// `-trimpath`, the build mode, and the output file.
pub open spec fn go_flags_of(b: BuildView, out_path: Seq<char>) -> Seq<Seq<char>> {
    seq!["build"@]
        + match b.change_dir {
            Some(d) => seq!["-C"@, d],
            None => Seq::empty(),
        }
        + match b.ldflags {
            Some(f) => seq!["-ldflags"@, f],
            None => Seq::empty(),
        }
        + if b.trimpath { seq!["-trimpath"@] } else { Seq::empty() }
        + seq!["-buildmode"@, b.build_mode.spec_flag(), "-o"@, out_path]
}

/// The arguments of `go` that build the configured packages into `out_path`.
pub open spec fn go_args_of(b: BuildView, out_path: Seq<char>) -> Seq<Seq<char>> {
    go_flags_of(b, out_path) + b.packages
}

/// A directory change, where one is configured, takes the two places right
/// after the subcommand, whatever else is configured.
pub proof fn lemma_change_dir_first(b: BuildView, out_path: Seq<char>)
    requires
        b.change_dir is Some,
    ensures
        go_args_of(b, out_path).len() >= 3,
        go_args_of(b, out_path)[0] == "build"@,
        go_args_of(b, out_path)[1] == "-C"@,
        go_args_of(b, out_path)[2] == b.change_dir->Some_0,
{
    let d = b.change_dir->Some_0;
    let head = seq!["build"@] + seq!["-C"@, d];
    assert(go_args_of(b, out_path) =~= head + (go_args_of(b, out_path).subrange(3, go_args_of(b, out_path).len() as int)));
}

/// A builder for the compilation of a Go library.
#[derive(Clone, Debug)]
pub struct Build {
    build_mode: BuildMode,
    cargo_metadata: bool,
    change_dir: Option<String>,
    ldflags: Option<String>,
    out_dir: Option<String>,
    packages: Vec<String>,
    trimpath: bool,
}

impl View for Build {
    type V = BuildView;

    closed spec fn view(&self) -> BuildView {
        BuildView {
            build_mode: self.build_mode,
            cargo_metadata: self.cargo_metadata,
            change_dir: opt_view(self.change_dir),
            ldflags: opt_view(self.ldflags),
            out_dir: opt_view(self.out_dir),
            packages: strings_view(self.packages@),
            trimpath: self.trimpath,
        }
    }
}

impl Build {
    /// A builder with the default configuration: C archive mode, Cargo
    /// metadata on, no directory change, no ldflags, the output directory
    /// that Cargo provides, no packages, and no `-trimpath`.
    pub fn new() -> (r: Build)
        ensures
            r@ == default_view(),
    {
        let r = Build {
            build_mode: BuildMode::CArchive,
            cargo_metadata: true,
            change_dir: None,
            ldflags: None,
            out_dir: None,
            packages: Vec::new(),
            trimpath: false,
        };
        assert(r@.packages =~= Seq::<Seq<char>>::empty());
        r
    }

    /// Use the given build mode. By default, `CArchive` is used.
    pub fn build_mode(&mut self, build_mode: BuildMode) -> (r: &mut Build)
        ensures
            r@ == (BuildView { build_mode, ..old(self)@ }),
            *final(self) == *final(r),
    {
        self.build_mode = build_mode;
        self
    }

    /// Print Cargo metadata after a successful build or not. By default,
    /// it is printed.
    pub fn cargo_metadata(&mut self, cargo_metadata: bool) -> (r: &mut Build)
        ensures
            r@ == (BuildView { cargo_metadata, ..old(self)@ }),
            *final(self) == *final(r),
    {
        self.cargo_metadata = cargo_metadata;
        self
    }

    /// Change to `dir` before running `go build`. All other paths are
    /// interpreted after changing directories.
    pub fn change_dir(&mut self, dir: &str) -> (r: &mut Build)
        ensures
            r@ == (BuildView { change_dir: Some(dir@), ..old(self)@ }),
            *final(self) == *final(r),
    {
        self.change_dir = Some(dir.to_owned());
        self
    }

    /// Pass the given ldflags to the compilation.
    pub fn ldflags(&mut self, ldflags: &str) -> (r: &mut Build)
        ensures
            r@ == (BuildView { ldflags: Some(ldflags@), ..old(self)@ }),
            *final(self) == *final(r),
    {
        self.ldflags = Some(ldflags.to_owned());
        self
    }

    /// Write the library into `out_dir`. By default, the directory in
    /// Cargo's `OUT_DIR` is used.
    pub fn out_dir(&mut self, out_dir: &str) -> (r: &mut Build)
        ensures
            r@ == (BuildView { out_dir: Some(out_dir@), ..old(self)@ }),
            *final(self) == *final(r),
    {
        self.out_dir = Some(out_dir.to_owned());
        self
    }

    /// Compile the given Go package too. Packages are passed to `go build`
    /// in the order in which they were added.
    pub fn package(&mut self, package: &str) -> (r: &mut Build)
        ensures
            r@ == (BuildView { packages: old(self)@.packages.push(package@), ..old(self)@ }),
            *final(self) == *final(r),
    {
        self.packages.push(package.to_owned());
        assert(strings_view(self.packages@) =~= old(self)@.packages.push(package@));
        self
    }

    /// Pass `-trimpath` to the compilation or not.
    pub fn trimpath(&mut self, trimpath: bool) -> (r: &mut Build)
        ensures
            r@ == (BuildView { trimpath, ..old(self)@ }),
            *final(self) == *final(r),
    {
        self.trimpath = trimpath;
        self
    }

    /// The build mode.
    pub fn get_build_mode(&self) -> (r: BuildMode)
        ensures
            r == self@.build_mode,
    {
        self.build_mode
    }

    /// Whether Cargo metadata is printed after a successful build.
    pub fn get_cargo_metadata(&self) -> (r: bool)
        ensures
            r == self@.cargo_metadata,
    {
        self.cargo_metadata
    }

    /// The output directory, where one was given.
    pub fn get_out_dir(&self) -> (r: Option<&str>)
        ensures
            match r {
                Some(d) => self@.out_dir == Some(d@),
                None => self@.out_dir is None,
            },
    {
        match &self.out_dir {
            Some(d) => Some(d.as_str()),
            None => None,
        }
    }

    /// The arguments of `go` that build the configured packages into
    /// `out_path`, in the order that the Go tool needs.
    pub fn go_args(&self, out_path: &str) -> (r: Vec<String>)
        ensures
            strings_view(r@) == go_args_of(self@, out_path@),
    {
        let mut args: Vec<String> = Vec::new();
        args.push("build".to_owned());
        match &self.change_dir {
            Some(d) => {
                args.push("-C".to_owned());
                args.push(d.clone());
            },
            None => {},
        }
        match &self.ldflags {
            Some(f) => {
                args.push("-ldflags".to_owned());
                args.push(f.clone());
            },
            None => {},
        }
        if self.trimpath {
            args.push("-trimpath".to_owned());
        }
        args.push("-buildmode".to_owned());
        args.push(self.build_mode.to_string());
        args.push("-o".to_owned());
        args.push(out_path.to_owned());
        let ghost flags = go_flags_of(self@, out_path@);
        assert(strings_view(args@) =~= flags);
        let mut i: usize = 0;
        while i < self.packages.len()
            invariant
                i <= self.packages@.len(),
                strings_view(args@) =~= flags + self@.packages.take(i as int),
            decreases self.packages@.len() - i,
        {
            let ghost before = args@;
            args.push(self.packages[i].clone());
            assert(strings_view(args@) =~= strings_view(before).push(self.packages@[i as int]@));
            assert(self@.packages.take(i + 1) =~= self@.packages.take(i as int).push(self.packages@[i as int]@));
            i = i + 1;
        }
        assert(self@.packages.take(i as int) =~= self@.packages);
        args
    }

    /// The name of the library file that building `output` produces, on a
    /// Windows host or on another one.
    pub fn format_lib_name(&self, output: &str, windows: bool) -> (r: String)
        ensures
            r@ == lib_file_name(output@, self@.build_mode, windows),
    {
        join3("lib", output, self.build_mode.extension(windows))
    }
}

impl Default for Build {
    fn default() -> (r: Build)
        ensures
            r@ == default_view(),
    {
        Build::new()
    }
}

} // verus!
