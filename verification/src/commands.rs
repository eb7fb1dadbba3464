//! The fixed external commands of the build pipeline.
//!
//! Everything here is hardcoded: the repository URL, the build directory,
//! and the extension id. Each function returns the exact argument vector
//! the driver must run for one pipeline stage.

use vstd::prelude::*;

verus! {

/// `git clone` of the extension's fixed repository, into the current
/// working directory.
pub open spec fn spec_clone_argv() -> Seq<Seq<char>> {
    seq![
        "git"@,
        "clone"@,
        "https://github.com/ubuntu/gnome-shell-extension-appindicator.git"@,
    ]
}

/// `meson` configuring the clone into the fixed build directory.
pub open spec fn spec_configure_argv() -> Seq<Seq<char>> {
    seq!["meson"@, "gnome-shell-extension-appindicator"@, "/tmp/g-s-appindicators-build"@]
}

/// `ninja` compiling and installing from the fixed build directory.
pub open spec fn spec_build_argv() -> Seq<Seq<char>> {
    seq!["ninja"@, "-C"@, "/tmp/g-s-appindicators-build"@, "install"@]
}

/// `gnome-extensions` enabling the installed extension by its fixed id.
pub open spec fn spec_enable_argv() -> Seq<Seq<char>> {
    seq!["gnome-extensions"@, "enable"@, "appindicatorsupport@rgcjonas.gmail.com"@]
}

/// The clone command as executable values.
pub fn clone_command() -> (r: Vec<String>)
    ensures
        r.deep_view() == spec_clone_argv(),
{
    let mut r: Vec<String> = Vec::new();
    r.push("git".to_owned());
    r.push("clone".to_owned());
    r.push("https://github.com/ubuntu/gnome-shell-extension-appindicator.git".to_owned());
    assert(r.deep_view() =~= spec_clone_argv());
    r
}

/// The configure command as executable values.
pub fn configure_command() -> (r: Vec<String>)
    ensures
        r.deep_view() == spec_configure_argv(),
{
    let mut r: Vec<String> = Vec::new();
    r.push("meson".to_owned());
    r.push("gnome-shell-extension-appindicator".to_owned());
    r.push("/tmp/g-s-appindicators-build".to_owned());
    assert(r.deep_view() =~= spec_configure_argv());
    r
}

/// The build-and-install command as executable values.
pub fn build_command() -> (r: Vec<String>)
    ensures
        r.deep_view() == spec_build_argv(),
{
    let mut r: Vec<String> = Vec::new();
    r.push("ninja".to_owned());
    r.push("-C".to_owned());
    r.push("/tmp/g-s-appindicators-build".to_owned());
    r.push("install".to_owned());
    assert(r.deep_view() =~= spec_build_argv());
    r
}

/// The enable command as executable values.
pub fn enable_command() -> (r: Vec<String>)
    ensures
        r.deep_view() == spec_enable_argv(),
{
    let mut r: Vec<String> = Vec::new();
    r.push("gnome-extensions".to_owned());
    r.push("enable".to_owned());
    r.push("appindicatorsupport@rgcjonas.gmail.com".to_owned());
    assert(r.deep_view() =~= spec_enable_argv());
    r
}

} // verus!
