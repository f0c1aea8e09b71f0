//! What a finished `go build` means for the build script: the metadata
//! directives for Cargo, or an error that carries the tool's diagnostics.
use vstd::prelude::*;
use vstd::string::{StrSliceExecFns, StringExecFns};
use crate::config::{strings_view, Build, BuildView};
use crate::error::{Error, ErrorKind};
use crate::text::{contains, join2, join3, lemma_contains_suffix};

verus! {

/// Unicode's `White_Space` property, which `char::is_whitespace` follows.
pub open spec fn is_white_space(c: char) -> bool {
    ('\u{9}' <= c && c <= '\u{d}') || c == ' ' || c == '\u{85}' || c == '\u{a0}'
        || c == '\u{1680}' || ('\u{2000}' <= c && c <= '\u{200a}') || c == '\u{2028}'
        || c == '\u{2029}' || c == '\u{202f}' || c == '\u{205f}' || c == '\u{3000}'
}

/// `s` without its leading white space.
pub open spec fn trim_start(s: Seq<char>) -> Seq<char>
    decreases s.len(),
{
    if s.len() > 0 && is_white_space(s[0]) {
        trim_start(s.drop_first())
    } else {
        s
    }
}

/// `s` without its trailing white space.
pub open spec fn trim_end(s: Seq<char>) -> Seq<char>
    decreases s.len(),
{
    if s.len() > 0 && is_white_space(s.last()) {
        trim_end(s.drop_last())
    } else {
        s
    }
}

/// `s` without its leading and trailing white space.
pub open spec fn trim(s: Seq<char>) -> Seq<char> {
    trim_end(trim_start(s))
}

/// Relies on `str::trim`: the slice without leading and trailing
/// characters of Unicode's `White_Space` property.
#[verifier::external_body]
fn trimmed(s: &str) -> (r: &str)
    ensures
        r@ == trim(s@),
{
    s.trim()
}

/// How a run of the Go tool ended, as the caller observed it.
#[derive(Clone, Debug)]
pub enum ToolOutcome {
    /// The process could not be started; the text describes the system's error.
    SpawnFailed(String),
    /// The process ran to its end.
    Exited {
        /// Whether the exit status reports success.
        success: bool,
        /// The exit status, as text.
        status: String,
        /// What the process wrote to its standard output.
        stdout: String,
        /// What the process wrote to its standard error.
        stderr: String,
    },
}

/// The message of the error for a Go tool that could not be started.
pub open spec fn spawn_message(error: Seq<char>) -> Seq<char> {
    "failed to execute go command: "@ + error
}

/// The part of a failure message that shows one output stream: nothing
/// where the stream holds only white space, else a header with the stream's
/// name and the trimmed text.
pub open spec fn section(name: Seq<char>, text: Seq<char>) -> Seq<char> {
    if trim(text).len() == 0 {
        Seq::empty()
    } else {
        "\n=== "@ + name + ":\n"@ + trim(text)
    }
}

/// The message of the error for a Go tool that exited with `status`.
pub open spec fn failure_message(status: Seq<char>, stdout: Seq<char>, stderr: Seq<char>) -> Seq<
    char,
> {
    "failed to build Go library ("@ + status + "). Build output:"@ + section("stdout"@, stdout)
        + section("stderr"@, stderr)
}

/// The directive that adds `out_dir` to the native library search path.
pub open spec fn link_search_directive(out_dir: Seq<char>) -> Seq<char> {
    "cargo:rustc-link-search=native="@ + out_dir
}

/// The directive that links the library `output` with the given kind.
pub open spec fn link_lib_directive(kind: Seq<char>, output: Seq<char>) -> Seq<char> {
    "cargo:rustc-link-lib="@ + kind + "="@ + output
}

/// The directives printed after a successful build: the search path, then
/// the library, where metadata is enabled; none otherwise.
pub open spec fn directives_of(b: BuildView, output: Seq<char>, out_dir: Seq<char>) -> Seq<Seq<char>> {
    if b.cargo_metadata {
        seq![
            link_search_directive(out_dir),
            link_lib_directive(b.build_mode.spec_link_kind(), output),
        ]
    } else {
        Seq::empty()
    }
}

/// `r` is what a build of `output` into `out_dir` comes to after `outcome`.
pub open spec fn reported(
    r: Result<Vec<String>, Error>,
    b: BuildView,
    output: Seq<char>,
    out_dir: Seq<char>,
    outcome: ToolOutcome,
) -> bool {
    match outcome {
        ToolOutcome::SpawnFailed(e) => r is Err && r->Err_0.kind == ErrorKind::ToolExecError
            && r->Err_0.message@ == spawn_message(e@)
            && contains(r->Err_0.message@, e@),
        ToolOutcome::Exited { success, status, stdout, stderr } => if success {
            r is Ok && strings_view(r->Ok_0@) == directives_of(b, output, out_dir)
        } else {
            r is Err && r->Err_0.kind == ErrorKind::ToolExecError
                && r->Err_0.message@ == failure_message(status@, stdout@, stderr@)
        },
    }
}

fn push_section(message: &mut String, name: &str, text: &str)
    ensures
        final(message)@ == old(message)@ + section(name@, text@),
{
    let t = trimmed(text);
    if t.unicode_len() == 0 {
        assert(old(message)@ + section(name@, text@) =~= old(message)@);
    } else {
        message.append("\n=== ");
        message.append(name);
        message.append(":\n");
        message.append(t);
        assert(final(message)@ =~= old(message)@ + section(name@, text@));
    }
}

impl Build {
    /// What building `output` into `out_dir` comes to, once the Go tool has
    /// run with the given outcome: the directives to print for Cargo, or
    /// the error. Nothing is printed on failure.
    pub fn report(&self, output: &str, out_dir: &str, outcome: &ToolOutcome) -> (r: Result<
        Vec<String>,
        Error,
    >)
        ensures
            reported(r, self@, output@, out_dir@, *outcome),
    {
        match outcome {
            ToolOutcome::SpawnFailed(e) => {
                proof {
                    lemma_contains_suffix("failed to execute go command: "@, e@);
                }
                let message = join2("failed to execute go command: ", e.as_str());
                Err(Error::new(ErrorKind::ToolExecError, message.as_str()))
            },
            ToolOutcome::Exited { success, status, stdout, stderr } => {
                if *success {
                    let mut directives: Vec<String> = Vec::new();
                    if self.get_cargo_metadata() {
                        directives.push(join2("cargo:rustc-link-search=native=", out_dir));
                        let kind = self.get_build_mode().link_kind();
                        directives.push(join3("cargo:rustc-link-lib=", kind, "=").concat(output));
                    }
                    assert(strings_view(directives@) =~= directives_of(self@, output@, out_dir@));
                    Ok(directives)
                } else {
                    let mut message = join3("failed to build Go library (", status.as_str(), "). Build output:");
                    push_section(&mut message, "stdout", stdout.as_str());
                    push_section(&mut message, "stderr", stderr.as_str());
                    Err(Error::new(ErrorKind::ToolExecError, message.as_str()))
                }
            },
        }
    }
}

} // verus!
