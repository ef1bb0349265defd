use powerpack::env::{
    is_debug, preferences, var, version, version_build, workflow_bundle_id, workflow_cache,
    workflow_data, workflow_name, workflow_uid, workflow_version, Environment, DEBUG, PREFERENCES,
    VERSION, VERSION_BUILD, WORKFLOW_BUNDLE_ID, WORKFLOW_CACHE, WORKFLOW_DATA, WORKFLOW_NAME,
    WORKFLOW_UID, WORKFLOW_VERSION,
};

fn environment(vars: &[(&str, &str)]) -> Environment {
    let mut env = Environment::new();
    for (name, value) in vars {
        env.set(name, value);
    }
    env
}

#[test]
fn an_empty_environment_has_no_variables() {
    let env = Environment::new();
    assert_eq!(env.get("alfred_debug"), None);
    assert_eq!(var(&env, "alfred_debug"), None);
    assert!(!is_debug(&env));
    assert_eq!(preferences(&env), None);
    assert_eq!(version(&env), None);
    assert_eq!(version_build(&env), None);
    assert_eq!(workflow_bundle_id(&env), None);
    assert_eq!(workflow_name(&env), None);
    assert_eq!(workflow_uid(&env), None);
    assert_eq!(workflow_version(&env), None);
    assert_eq!(workflow_cache(&env), None);
    assert_eq!(workflow_data(&env), None);
}

#[test]
fn set_replaces_and_get_finds() {
    let mut env = Environment::new();
    env.set("a", "1");
    env.set("b", "2");
    assert_eq!(env.get("a"), Some("1".to_string()));
    assert_eq!(env.get("b"), Some("2".to_string()));
    assert_eq!(env.get("c"), None);
    env.set("a", "3");
    assert_eq!(env.get("a"), Some("3".to_string()));
    assert_eq!(env.get("b"), Some("2".to_string()));
    env.set("a", "");
    assert_eq!(env.get("a"), Some(String::new()));
    assert_eq!(env.get("A"), None);
}

#[test]
fn an_empty_value_counts_as_none() {
    let env = environment(&[("alfred_version", ""), ("alfred_workflow_name", "Weather")]);
    assert_eq!(env.get("alfred_version"), Some(String::new()));
    assert_eq!(var(&env, "alfred_version"), None);
    assert_eq!(version(&env), None);
    assert_eq!(var(&env, "alfred_workflow_name"), Some("Weather".to_string()));
    assert_eq!(var(&env, "alfred_workflow_uid"), None);
}

#[test]
fn each_function_reads_its_own_variable() {
    let env = environment(&[
        ("alfred_debug", "1"),
        ("alfred_preferences", "/Users/Crayons/Dropbox/Alfred/Alfred.alfredpreferences"),
        ("alfred_version", "5.0"),
        ("alfred_version_build", "2058"),
        ("alfred_workflow_bundleid", "com.alfredapp.googlesuggest"),
        ("alfred_workflow_name", "Google Suggest"),
        ("alfred_workflow_uid", "user.workflow.B0AC54EC-601C-479A-9428-01F9FD732959"),
        ("alfred_workflow_version", "1.7"),
        ("alfred_workflow_cache", "/Users/Crayons/Library/Caches/wf"),
        ("alfred_workflow_data", "/Users/Crayons/Library/Application Support/wf"),
    ]);
    assert!(is_debug(&env));
    assert_eq!(
        preferences(&env),
        Some("/Users/Crayons/Dropbox/Alfred/Alfred.alfredpreferences".to_string())
    );
    assert_eq!(version(&env), Some("5.0".to_string()));
    assert_eq!(version_build(&env), Some(2058));
    assert_eq!(workflow_bundle_id(&env), Some("com.alfredapp.googlesuggest".to_string()));
    assert_eq!(workflow_name(&env), Some("Google Suggest".to_string()));
    assert_eq!(
        workflow_uid(&env),
        Some("user.workflow.B0AC54EC-601C-479A-9428-01F9FD732959".to_string())
    );
    assert_eq!(workflow_version(&env), Some("1.7".to_string()));
    assert_eq!(workflow_cache(&env), Some("/Users/Crayons/Library/Caches/wf".to_string()));
    assert_eq!(
        workflow_data(&env),
        Some("/Users/Crayons/Library/Application Support/wf".to_string())
    );
}

#[test]
fn debug_is_on_only_for_one() {
    assert!(is_debug(&environment(&[("alfred_debug", "1")])));
    assert!(!is_debug(&environment(&[("alfred_debug", "0")])));
    assert!(!is_debug(&environment(&[("alfred_debug", "")])));
    assert!(!is_debug(&environment(&[("alfred_debug", "true")])));
    assert!(!is_debug(&environment(&[("alfred_debug", "11")])));
    assert!(!is_debug(&environment(&[("alfred_debug", " 1")])));
    assert!(!is_debug(&environment(&[("ALFRED_DEBUG", "1")])));
}

#[test]
fn a_build_that_is_no_number_is_none() {
    assert_eq!(version_build(&environment(&[("alfred_version_build", "2058")])), Some(2058));
    assert_eq!(version_build(&environment(&[("alfred_version_build", "")])), None);
    assert_eq!(version_build(&environment(&[("alfred_version_build", "20.58")])), None);
    assert_eq!(version_build(&environment(&[("alfred_version_build", "-3")])), None);
    assert_eq!(version_build(&environment(&[("alfred_version_build", "4294967296")])), None);
    assert_eq!(version_build(&environment(&[("alfred_version", "2058")])), None);
}

#[test]
fn the_names_of_the_variables() {
    assert_eq!(DEBUG, "alfred_debug");
    assert_eq!(PREFERENCES, "alfred_preferences");
    assert_eq!(VERSION, "alfred_version");
    assert_eq!(VERSION_BUILD, "alfred_version_build");
    assert_eq!(WORKFLOW_BUNDLE_ID, "alfred_workflow_bundleid");
    assert_eq!(WORKFLOW_NAME, "alfred_workflow_name");
    assert_eq!(WORKFLOW_UID, "alfred_workflow_uid");
    assert_eq!(WORKFLOW_VERSION, "alfred_workflow_version");
    assert_eq!(WORKFLOW_CACHE, "alfred_workflow_cache");
    assert_eq!(WORKFLOW_DATA, "alfred_workflow_data");
}
