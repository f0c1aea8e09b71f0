//! Naming the compilation target the way the Go toolchain expects.
//!
//! Cargo describes the target with `CARGO_CFG_TARGET_ARCH` and
//! `CARGO_CFG_TARGET_OS`; Go reads `GOARCH` and `GOOS`. Both tables below are
//! closed: an identifier outside them is an error, not a guess.
use vstd::prelude::*;
use crate::error::{Error, ErrorKind};
use crate::text::{contains, join2, lemma_contains_suffix, same_text};

verus! {

/// The Go architecture for a Rust target architecture, if there is one.
pub open spec fn goarch_of(arch: Seq<char>) -> Option<Seq<char>> {
    if arch == "x86"@ {
        Some("386"@)
    } else if arch == "x86_64"@ {
        Some("amd64"@)
    } else if arch == "powerpc64"@ {
        Some("ppc64"@)
    } else if arch == "aarch64"@ {
        Some("arm64"@)
    } else if arch == "mips"@ || arch == "mips64"@ || arch == "arm"@ {
        Some(arch)
    } else {
        None
    }
}

/// The Go operating system for a Rust target operating system, if there is one.
pub open spec fn goos_of(os: Seq<char>) -> Option<Seq<char>> {
    if os == "macos"@ {
        Some("darwin"@)
    } else if os == "windows"@ || os == "ios"@ || os == "linux"@ || os == "android"@
        || os == "freebsd"@ || os == "dragonfly"@ || os == "openbsd"@ || os == "netbsd"@ {
        Some(os)
    } else {
        None
    }
}

/// The message of the error for an environment variable that is not set.
pub open spec fn missing_var_message(key: Seq<char>) -> Seq<char> {
    "could not find environment variable "@ + key
}

/// The message of the error for an architecture that Go has no name for.
pub open spec fn invalid_arch_message(arch: Seq<char>) -> Seq<char> {
    "unexpected target arch "@ + arch
}

/// The message of the error for an operating system that Go has no name for.
pub open spec fn invalid_os_message(os: Seq<char>) -> Seq<char> {
    "unexpected target os "@ + os
}

/// What reading a required environment variable gives: its value, or the
/// error that names the variable.
pub open spec fn env_var_result(r: Result<String, Error>, key: Seq<char>, value: Option<&str>) -> bool {
    match value {
        Some(v) => r is Ok && r->Ok_0@ == v@,
        None => r is Err && r->Err_0.kind == ErrorKind::EnvVarNotFound
            && r->Err_0.message@ == missing_var_message(key)
            && contains(r->Err_0.message@, key),
    }
}

/// The value of the required environment variable `key`, given what the
/// environment holds for it (`None` where it is not set).
pub fn get_env_var(key: &str, value: Option<&str>) -> (r: Result<String, Error>)
    ensures
        env_var_result(r, key@, value),
{
    match value {
        Some(v) => Ok(v.to_owned()),
        None => {
            proof {
                lemma_contains_suffix("could not find environment variable "@, key@);
            }
            let message = join2("could not find environment variable ", key);
            Err(Error::new(ErrorKind::EnvVarNotFound, message.as_str()))
        },
    }
}

/// The Go architecture for the value of `CARGO_CFG_TARGET_ARCH` (`None`
/// where it is not set).
pub fn goarch_from_env(target_arch: Option<&str>) -> (r: Result<String, Error>)
    ensures
        target_arch is None ==> env_var_result(r, "CARGO_CFG_TARGET_ARCH"@, target_arch),
        target_arch matches Some(a) ==> match goarch_of(a@) {
            Some(g) => r is Ok && r->Ok_0@ == g,
            None => r is Err && r->Err_0.kind == ErrorKind::InvalidGOARCH
                && r->Err_0.message@ == invalid_arch_message(a@)
                && contains(r->Err_0.message@, a@),
        },
{
    let arch = get_env_var("CARGO_CFG_TARGET_ARCH", target_arch)?;
    let a = arch.as_str();
    if same_text(a, "x86") {
        Ok("386".to_owned())
    } else if same_text(a, "x86_64") {
        Ok("amd64".to_owned())
    } else if same_text(a, "powerpc64") {
        Ok("ppc64".to_owned())
    } else if same_text(a, "aarch64") {
        Ok("arm64".to_owned())
    } else if same_text(a, "mips") || same_text(a, "mips64") || same_text(a, "arm") {
        Ok(arch.clone())
    } else {
        proof {
            lemma_contains_suffix("unexpected target arch "@, a@);
        }
        let message = join2("unexpected target arch ", a);
        Err(Error::new(ErrorKind::InvalidGOARCH, message.as_str()))
    }
}

/// The Go operating system for the value of `CARGO_CFG_TARGET_OS` (`None`
/// where it is not set).
pub fn goos_from_env(target_os: Option<&str>) -> (r: Result<String, Error>)
    ensures
        target_os is None ==> env_var_result(r, "CARGO_CFG_TARGET_OS"@, target_os),
        target_os matches Some(o) ==> match goos_of(o@) {
            Some(g) => r is Ok && r->Ok_0@ == g,
            None => r is Err && r->Err_0.kind == ErrorKind::InvalidGOOS
                && r->Err_0.message@ == invalid_os_message(o@)
                && contains(r->Err_0.message@, o@),
        },
{
    let os = get_env_var("CARGO_CFG_TARGET_OS", target_os)?;
    let o = os.as_str();
    if same_text(o, "macos") {
        Ok("darwin".to_owned())
    } else if same_text(o, "windows") || same_text(o, "ios") || same_text(o, "linux")
        || same_text(o, "android") || same_text(o, "freebsd") || same_text(o, "dragonfly")
        || same_text(o, "openbsd") || same_text(o, "netbsd") {
        Ok(os.clone())
    } else {
        proof {
            lemma_contains_suffix("unexpected target os "@, o@);
        }
        let message = join2("unexpected target os ", o);
        Err(Error::new(ErrorKind::InvalidGOOS, message.as_str()))
    }
}

} // verus!
