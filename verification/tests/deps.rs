use extension_installer::deps::{dependencies, dependency_names, missing_dependencies,
    missing_report};

fn names() -> Vec<String> {
    dependency_names()
}

#[test]
fn dependency_list_is_the_fixed_four() {
    let deps = dependencies();
    let expected = vec![
        ("git".to_string(), "--version".to_string()),
        ("meson".to_string(), "--version".to_string()),
        ("ninja-build".to_string(), "--version".to_string()),
        ("gnome-extensions".to_string(), "--version".to_string()),
    ];
    assert_eq!(deps, expected);
}

#[test]
fn dependency_names_match_probe_list() {
    let deps = dependencies();
    let names = dependency_names();
    assert_eq!(deps.len(), names.len());
    for (pair, name) in deps.iter().zip(names.iter()) {
        assert_eq!(&pair.0, name);
    }
}

#[test]
fn missing_empty_when_all_probes_succeed() {
    let ok = vec![true, true, true, true];
    let missing = missing_dependencies(&names(), &ok);
    assert!(missing.is_empty());
}

#[test]
fn missing_keeps_declaration_order() {
    let ok = vec![false, true, false, false];
    let missing = missing_dependencies(&names(), &ok);
    assert_eq!(
        missing,
        vec![
            "git".to_string(),
            "ninja-build".to_string(),
            "gnome-extensions".to_string(),
        ]
    );
}

#[test]
fn missing_single_failure() {
    let ok = vec![true, true, false, true];
    let missing = missing_dependencies(&names(), &ok);
    assert_eq!(missing, vec!["ninja-build".to_string()]);
}

#[test]
fn missing_all_failures_has_no_extras() {
    let ok = vec![false, false, false, false];
    let missing = missing_dependencies(&names(), &ok);
    assert_eq!(missing, names());
}

#[test]
fn report_formats_single_name() {
    let missing = vec!["ninja-build".to_string()];
    assert_eq!(
        missing_report(&missing),
        "Missing dependencies: [\"ninja-build\"]"
    );
}

#[test]
fn report_formats_several_names() {
    let missing = vec!["git".to_string(), "meson".to_string()];
    assert_eq!(
        missing_report(&missing),
        "Missing dependencies: [\"git\", \"meson\"]"
    );
}

#[test]
fn report_formats_empty_list() {
    let missing: Vec<String> = Vec::new();
    assert_eq!(missing_report(&missing), "Missing dependencies: []");
}
