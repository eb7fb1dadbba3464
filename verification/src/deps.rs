//! The fixed dependency list and the missing-dependency computation.
//!
//! The installer requires four external tools. Each is probed by running it
//! with a version flag; a probe succeeds only when the tool launches and
//! exits with success status. The unverified driver performs the probes and
//! hands the outcomes back as plain booleans; everything decided from those
//! outcomes is computed and verified here.

use vstd::prelude::*;
use vstd::string::StringExecFns;

verus! {

/// The names of the four required tools, in declaration order.
pub open spec fn spec_dependency_names() -> Seq<Seq<char>> {
    seq!["git"@, "meson"@, "ninja-build"@, "gnome-extensions"@]
}

/// The probe list: each required tool paired with the flag used to probe it.
pub open spec fn spec_dependencies() -> Seq<(Seq<char>, Seq<char>)> {
    seq![
        ("git"@, "--version"@),
        ("meson"@, "--version"@),
        ("ninja-build"@, "--version"@),
        ("gnome-extensions"@, "--version"@),
    ]
}

/// The tools whose probes failed, in declaration order: `names[i]` is kept
/// exactly when `ok[i]` is false.
pub open spec fn spec_missing(names: Seq<Seq<char>>, ok: Seq<bool>) -> Seq<Seq<char>>
    recommends
        names.len() == ok.len(),
    decreases names.len(),
{
    if names.len() == 0 {
        Seq::empty()
    } else {
        let rest = spec_missing(names.drop_last(), ok.drop_last());
        if ok.len() == 0 || ok[ok.len() - 1] {
            rest
        } else {
            rest.push(names.last())
        }
    }
}

/// If every probe exits successfully, no dependency is missing.
pub proof fn lemma_all_ok_no_missing(names: Seq<Seq<char>>, ok: Seq<bool>)
    requires
        names.len() == ok.len(),
        forall|i: int| 0 <= i < ok.len() ==> ok[i],
    ensures
        spec_missing(names, ok) == Seq::<Seq<char>>::empty(),
    decreases names.len(),
{
    if names.len() > 0 {
        lemma_all_ok_no_missing(names.drop_last(), ok.drop_last());
    }
    assert(spec_missing(names, ok) =~= Seq::<Seq<char>>::empty());
}

/// The probe list as executable values, for the driver to run.
pub fn dependencies() -> (r: Vec<(String, String)>)
    ensures
        r.deep_view() == spec_dependencies(),
{
    let mut r: Vec<(String, String)> = Vec::new();
    r.push(("git".to_owned(), "--version".to_owned()));
    r.push(("meson".to_owned(), "--version".to_owned()));
    r.push(("ninja-build".to_owned(), "--version".to_owned()));
    r.push(("gnome-extensions".to_owned(), "--version".to_owned()));
    assert(r.deep_view() =~= spec_dependencies());
    r
}

/// The names of the required tools as executable values.
pub fn dependency_names() -> (r: Vec<String>)
    ensures
        r.deep_view() == spec_dependency_names(),
{
    let mut r: Vec<String> = Vec::new();
    r.push("git".to_owned());
    r.push("meson".to_owned());
    r.push("ninja-build".to_owned());
    r.push("gnome-extensions".to_owned());
    assert(r.deep_view() =~= spec_dependency_names());
    r
}

/// Collects the names whose probes failed, preserving declaration order.
pub fn missing_dependencies(names: &Vec<String>, ok: &Vec<bool>) -> (r: Vec<String>)
    requires
        names@.len() == ok@.len(),
    ensures
        r.deep_view() == spec_missing(names.deep_view(), ok@),
{
    let mut r: Vec<String> = Vec::new();
    let mut i: usize = 0;
    assert(r.deep_view() =~= spec_missing(
        names.deep_view().take(0),
        ok@.take(0),
    ));
    while i < names.len()
        invariant
            i <= names@.len(),
            names@.len() == ok@.len(),
            r.deep_view() == spec_missing(
                names.deep_view().take(i as int),
                ok@.take(i as int),
            ),
        decreases names@.len() - i,
    {
        let ghost nd = names.deep_view();
        assert(nd.take(i + 1).drop_last() =~= nd.take(i as int));
        assert(ok@.take(i + 1).drop_last() =~= ok@.take(i as int));
        assert(nd.take(i + 1).last() == nd[i as int]);
        if !ok[i] {
            r.push(names[i].clone());
            assert(r.deep_view() =~= spec_missing(nd.take(i + 1), ok@.take(i + 1)));
        } else {
            assert(r.deep_view() =~= spec_missing(nd.take(i + 1), ok@.take(i + 1)));
        }
        i = i + 1;
    }
    assert(names.deep_view().take(names@.len() as int) =~= names.deep_view());
    assert(ok@.take(ok@.len() as int) =~= ok@);
    r
}

/// Each name quoted, separated by `", "`: the list layout used when the
/// missing dependencies are reported.
pub open spec fn spec_quoted_list(names: Seq<Seq<char>>) -> Seq<char>
    decreases names.len(),
{
    if names.len() == 0 {
        Seq::empty()
    } else if names.len() == 1 {
        "\""@ + names[0] + "\""@
    } else {
        spec_quoted_list(names.drop_last()) + ", "@ + "\""@ + names.last() + "\""@
    }
}

/// The full line announcing which dependencies are missing.
pub open spec fn spec_missing_report(names: Seq<Seq<char>>) -> Seq<char> {
    "Missing dependencies: ["@ + spec_quoted_list(names) + "]"@
}

/// Formats the missing-dependency announcement, quoting each name.
pub fn missing_report(missing: &Vec<String>) -> (r: String)
    ensures
        r@ == spec_missing_report(missing.deep_view()),
{
    let mut s: String = "Missing dependencies: [".to_owned();
    let mut i: usize = 0;
    assert(s@ =~= "Missing dependencies: ["@ + spec_quoted_list(
        missing.deep_view().take(0),
    ));
    while i < missing.len()
        invariant
            i <= missing@.len(),
            s@ == "Missing dependencies: ["@ + spec_quoted_list(
                missing.deep_view().take(i as int),
            ),
        decreases missing@.len() - i,
    {
        let ghost md = missing.deep_view();
        assert(md.take(i + 1).drop_last() =~= md.take(i as int));
        assert(md.take(i + 1).last() == md[i as int]);
        assert(md[i as int] == missing@[i as int]@);
        if i > 0 {
            s.append(", ");
        }
        s.append("\"");
        s.append(missing[i].as_str());
        s.append("\"");
        assert(s@ =~= "Missing dependencies: ["@ + spec_quoted_list(md.take(i + 1)));
        i = i + 1;
    }
    assert(missing.deep_view().take(missing@.len() as int) =~= missing.deep_view());
    s.append("]");
    assert(s@ =~= spec_missing_report(missing.deep_view()));
    s
}

} // verus!
