//! Package-manager detection and the install command.
//!
//! Detection is order-dependent: the candidates are probed in the fixed
//! priority order `apt`, `dnf`, `yum`, and the first one that can be
//! launched wins — launchability alone counts as availability, regardless
//! of the probe's exit status. The unverified driver performs the launch
//! probes; the choice made from their outcomes is verified here, as is the
//! construction of the elevated install command.

use vstd::prelude::*;

verus! {

/// Which system package manager was detected, if any.
#[derive(Clone, Copy, Debug, PartialEq, Eq, Structural)]
pub enum PackageManager {
    Apt,
    Dnf,
    Yum,
    /// No known manager could be launched.
    Unknown,
}

/// The detection rule: first launchable candidate in the order
/// `apt`, `dnf`, `yum`; `Unknown` when none can be launched.
pub open spec fn spec_detect(apt: bool, dnf: bool, yum: bool) -> PackageManager {
    if apt {
        PackageManager::Apt
    } else if dnf {
        PackageManager::Dnf
    } else if yum {
        PackageManager::Yum
    } else {
        PackageManager::Unknown
    }
}

/// Detection is deterministic and order-dependent: whenever `apt` is
/// launchable — in particular when both `apt` and `dnf` are — `apt` is
/// the one selected.
pub proof fn lemma_detection_prefers_apt(apt: bool, dnf: bool, yum: bool)
    requires
        apt && dnf,
    ensures
        spec_detect(apt, dnf, yum) is Apt,
{
}

/// Chooses the package manager from the three launch-probe outcomes.
pub fn detect_manager(apt: bool, dnf: bool, yum: bool) -> (r: PackageManager)
    ensures
        r == spec_detect(apt, dnf, yum),
{
    if apt {
        PackageManager::Apt
    } else if dnf {
        PackageManager::Dnf
    } else if yum {
        PackageManager::Yum
    } else {
        PackageManager::Unknown
    }
}

/// The name each manager is invoked by, with `"unknown"` as the sentinel.
pub open spec fn spec_manager_name(m: PackageManager) -> Seq<char> {
    match m {
        PackageManager::Apt => "apt"@,
        PackageManager::Dnf => "dnf"@,
        PackageManager::Yum => "yum"@,
        PackageManager::Unknown => "unknown"@,
    }
}

/// Returns the manager's command name (or the `"unknown"` sentinel).
pub fn manager_name(m: PackageManager) -> (r: String)
    ensures
        r@ == spec_manager_name(m),
{
    match m {
        PackageManager::Apt => "apt".to_owned(),
        PackageManager::Dnf => "dnf".to_owned(),
        PackageManager::Yum => "yum".to_owned(),
        PackageManager::Unknown => "unknown".to_owned(),
    }
}

/// The elevated install command: exactly `sudo <manager> install`
/// followed by the missing names in declaration order, nothing else.
pub open spec fn spec_install_argv(m: PackageManager, missing: Seq<Seq<char>>) -> Seq<
    Seq<char>,
>
    recommends
        m !is Unknown,
{
    seq!["sudo"@, spec_manager_name(m), "install"@] + missing
}

/// Builds the install command for a known manager.
pub fn install_argv(m: PackageManager, missing: &Vec<String>) -> (r: Vec<String>)
    requires
        m !is Unknown,
    ensures
        r.deep_view() == spec_install_argv(m, missing.deep_view()),
{
    let mut r: Vec<String> = Vec::new();
    r.push("sudo".to_owned());
    r.push(manager_name(m));
    r.push("install".to_owned());
    assert(r.deep_view() =~= seq!["sudo"@, spec_manager_name(m), "install"@]);
    let mut i: usize = 0;
    assert(r.deep_view() =~= seq!["sudo"@, spec_manager_name(m), "install"@]
        + missing.deep_view().take(0));
    while i < missing.len()
        invariant
            i <= missing@.len(),
            r.deep_view() == seq!["sudo"@, spec_manager_name(m), "install"@]
                + missing.deep_view().take(i as int),
        decreases missing@.len() - i,
    {
        let ghost md = missing.deep_view();
        let ghost pre = r.deep_view();
        assert(md[i as int] == missing@[i as int]@);
        assert(md.take(i + 1) =~= md.take(i as int).push(md[i as int]));
        r.push(missing[i].clone());
        assert(r.deep_view() =~= pre.push(md[i as int]));
        assert(r.deep_view() =~= seq!["sudo"@, spec_manager_name(m), "install"@]
            + md.take(i + 1));
        i = i + 1;
    }
    assert(missing.deep_view().take(missing@.len() as int) =~= missing.deep_view());
    assert(r.deep_view() =~= spec_install_argv(m, missing.deep_view()));
    r
}

/// The install command for the detected manager: `None` exactly when no
/// known manager is available, in which case nothing is to be installed.
pub fn install_command(m: PackageManager, missing: &Vec<String>) -> (r: Option<
    Vec<String>,
>)
    ensures
        r is None <==> m is Unknown,
        r matches Some(cmd) ==> cmd.deep_view() == spec_install_argv(
            m,
            missing.deep_view(),
        ),
{
    match m {
        PackageManager::Unknown => None,
        _ => Some(install_argv(m, missing)),
    }
}

} // verus!
