//! The `go build` command for a configured build on a given host.
use vstd::prelude::*;
use vstd::string::StrSliceExecFns;
use crate::config::{go_args_of, lib_file_name, strings_view, Build, BuildView};
use crate::error::{Error, ErrorKind};
use crate::target::{
    get_env_var, goarch_from_env, goarch_of, goos_from_env, goos_of, invalid_arch_message,
    invalid_os_message, missing_var_message,
};
use crate::text::{join2, join3};

verus! {

/// Whether `c` separates the parts of a path on the host.
pub open spec fn is_separator(c: char, windows: bool) -> bool {
    c == '/' || (windows && c == '\\')
}

/// `name` inside the directory `dir`: a separator of the host goes between
/// them, unless `dir` is empty or already ends with one.
pub open spec fn path_join(dir: Seq<char>, name: Seq<char>, windows: bool) -> Seq<char> {
    if dir.len() == 0 || is_separator(dir.last(), windows) {
        dir + name
    } else if windows {
        dir + "\\"@ + name
    } else {
        dir + "/"@ + name
    }
}

/// The path of the file `name` inside the directory `dir`.
pub fn join_path(dir: &str, name: &str, windows: bool) -> (r: String)
    ensures
        r@ == path_join(dir@, name@, windows),
{
    let n = dir.unicode_len();
    if n == 0 {
        return join2(dir, name);
    }
    let last = dir.get_char(n - 1);
    if last == '/' || (windows && last == '\\') {
        join2(dir, name)
    } else if windows {
        join3(dir, "\\", name)
    } else {
        join3(dir, "/", name)
    }
}

/// The environment variable `key` set to `value`, where there is a value.
pub open spec fn opt_var(key: Seq<char>, value: Option<Seq<char>>) -> Seq<(Seq<char>, Seq<char>)> {
    match value {
        Some(v) => seq![(key, v)],
        None => Seq::empty(),
    }
}

/// The environment of `go build`: cgo on, the Go target, and the host's C
/// and C++ compilers where they are known.
pub open spec fn go_env_of(
    goos: Seq<char>,
    goarch: Seq<char>,
    cc: Option<Seq<char>>,
    cxx: Option<Seq<char>>,
) -> Seq<(Seq<char>, Seq<char>)> {
    seq![("CGO_ENABLED"@, "1"@), ("GOOS"@, goos), ("GOARCH"@, goarch)] + opt_var("CC"@, cc)
        + opt_var("CXX"@, cxx)
}

/// The characters of each name and value of a list of variables.
pub open spec fn vars_view(v: Seq<(String, String)>) -> Seq<(Seq<char>, Seq<char>)> {
    v.map_values(|p: (String, String)| (p.0@, p.1@))
}

/// The characters of an optional string slice.
pub open spec fn opt_str_view(o: Option<&str>) -> Option<Seq<char>> {
    match o {
        Some(s) => Some(s@),
        None => None,
    }
}

fn push_var(vars: &mut Vec<(String, String)>, key: &str, value: Option<&str>)
    ensures
        vars_view(final(vars)@) == vars_view(old(vars)@) + opt_var(key@, opt_str_view(value)),
{
    let ghost before = vars@;
    match value {
        Some(v) => {
            vars.push((key.to_owned(), v.to_owned()));
            assert(vars_view(vars@) =~= vars_view(before) + opt_var(key@, opt_str_view(value)));
        },
        None => {
            assert(vars_view(vars@) =~= vars_view(before) + opt_var(key@, opt_str_view(value)));
        },
    }
}

/// The environment variables that `go build` runs with, in the order in
/// which they are set.
pub fn go_env(goos: &str, goarch: &str, cc: Option<&str>, cxx: Option<&str>) -> (r: Vec<
    (String, String),
>)
    ensures
        vars_view(r@) == go_env_of(goos@, goarch@, opt_str_view(cc), opt_str_view(cxx)),
{
    let mut vars: Vec<(String, String)> = Vec::new();
    push_var(&mut vars, "CGO_ENABLED", Some("1"));
    push_var(&mut vars, "GOOS", Some(goos));
    push_var(&mut vars, "GOARCH", Some(goarch));
    push_var(&mut vars, "CC", cc);
    push_var(&mut vars, "CXX", cxx);
    assert(vars_view(vars@) =~= go_env_of(goos@, goarch@, opt_str_view(cc), opt_str_view(cxx)));
    vars
}

/// What the host tells a build: Cargo's description of the target and its
/// output directory (each `None` where the variable is not set), the paths
/// of the host's C and C++ compilers where they are known, and whether the
/// host is Windows.
#[derive(Clone, Debug)]
pub struct HostEnv {
    pub target_arch: Option<String>,
    pub target_os: Option<String>,
    pub out_dir: Option<String>,
    pub cc: Option<String>,
    pub cxx: Option<String>,
    pub windows: bool,
}

/// What the host tells a build, as plain values.
pub struct HostView {
    pub target_arch: Option<Seq<char>>,
    pub target_os: Option<Seq<char>>,
    pub out_dir: Option<Seq<char>>,
    pub cc: Option<Seq<char>>,
    pub cxx: Option<Seq<char>>,
    pub windows: bool,
}

impl View for HostEnv {
    type V = HostView;

    open spec fn view(&self) -> HostView {
        HostView {
            target_arch: crate::config::opt_view(self.target_arch),
            target_os: crate::config::opt_view(self.target_os),
            out_dir: crate::config::opt_view(self.out_dir),
            cc: crate::config::opt_view(self.cc),
            cxx: crate::config::opt_view(self.cxx),
            windows: self.windows,
        }
    }
}

/// A `go` invocation: the program, its environment and arguments, and the
/// directory that receives the library.
#[derive(Clone, Debug)]
pub struct GoCommand {
    pub program: String,
    pub envs: Vec<(String, String)>,
    pub args: Vec<String>,
    pub out_dir: String,
}

/// A `go` invocation, as plain values.
pub struct CommandView {
    pub program: Seq<char>,
    pub envs: Seq<(Seq<char>, Seq<char>)>,
    pub args: Seq<Seq<char>>,
    pub out_dir: Seq<char>,
}

impl View for GoCommand {
    type V = CommandView;

    open spec fn view(&self) -> CommandView {
        CommandView {
            program: self.program@,
            envs: vars_view(self.envs@),
            args: strings_view(self.args@),
            out_dir: self.out_dir@,
        }
    }
}

/// The invocation that builds `output`, or the kind and message of the
/// error that stops it. The architecture is translated first, then the
/// operating system, then the output directory is found; the first failure
/// is the one reported.
pub open spec fn planned(b: BuildView, output: Seq<char>, host: HostView) -> Result<
    CommandView,
    (ErrorKind, Seq<char>),
> {
    match host.target_arch {
        None => Err((ErrorKind::EnvVarNotFound, missing_var_message("CARGO_CFG_TARGET_ARCH"@))),
        Some(a) => match goarch_of(a) {
            None => Err((ErrorKind::InvalidGOARCH, invalid_arch_message(a))),
            Some(goarch) => match host.target_os {
                None => Err((ErrorKind::EnvVarNotFound, missing_var_message("CARGO_CFG_TARGET_OS"@))),
                Some(o) => match goos_of(o) {
                    None => Err((ErrorKind::InvalidGOOS, invalid_os_message(o))),
                    Some(goos) => {
                        let dir = match b.out_dir {
                            Some(d) => Some(d),
                            None => host.out_dir,
                        };
                        match dir {
                            None => Err((ErrorKind::EnvVarNotFound, missing_var_message("OUT_DIR"@))),
                            Some(d) => Ok(
                                CommandView {
                                    program: "go"@,
                                    envs: go_env_of(goos, goarch, host.cc, host.cxx),
                                    args: go_args_of(
                                        b,
                                        path_join(d, lib_file_name(output, b.build_mode, host.windows), host.windows),
                                    ),
                                    out_dir: d,
                                },
                            ),
                        }
                    },
                },
            },
        },
    }
}

/// `r` is the outcome that `expected` describes.
pub open spec fn command_result(
    r: Result<GoCommand, Error>,
    expected: Result<CommandView, (ErrorKind, Seq<char>)>,
) -> bool {
    match expected {
        Ok(c) => r is Ok && r->Ok_0@ == c,
        Err((kind, message)) => r is Err && r->Err_0.kind == kind && r->Err_0.message@ == message,
    }
}

fn as_opt_str(o: &Option<String>) -> (r: Option<&str>)
    ensures
        opt_str_view(r) == crate::config::opt_view(*o),
{
    match o {
        Some(s) => Some(s.as_str()),
        None => None,
    }
}

impl Build {
    /// The `go` invocation that builds the configured packages into the
    /// library `output`, on the given host.
    pub fn prepare(&self, output: &str, host: &HostEnv) -> (r: Result<GoCommand, Error>)
        ensures
            command_result(r, planned(self@, output@, host@)),
    {
        let goarch = goarch_from_env(as_opt_str(&host.target_arch))?;
        let goos = goos_from_env(as_opt_str(&host.target_os))?;
        let out_dir = match self.get_out_dir() {
            Some(d) => d.to_owned(),
            None => get_env_var("OUT_DIR", as_opt_str(&host.out_dir))?,
        };
        let lib_name = self.format_lib_name(output, host.windows);
        let out_path = join_path(out_dir.as_str(), lib_name.as_str(), host.windows);
        let envs = go_env(goos.as_str(), goarch.as_str(), as_opt_str(&host.cc), as_opt_str(&host.cxx));
        let args = self.go_args(out_path.as_str());
        Ok(GoCommand { program: "go".to_owned(), envs, args, out_dir })
    }
}

} // verus!
