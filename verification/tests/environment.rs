use delta_env::environment::Environment;

#[test]
fn nothing_is_set_in_a_new_environment() {
    let env = Environment::new();
    assert_eq!(env.get("DELTA_FEATURES"), None);
    assert_eq!(env.get(""), None);
}

#[test]
fn a_set_variable_is_read_back() {
    let mut env = Environment::new();
    env.set("DELTA_FEATURES", "Awesome Feature");
    assert_eq!(env.get("DELTA_FEATURES"), Some("Awesome Feature".to_string()));
}

#[test]
fn setting_again_replaces_the_value() {
    let mut env = Environment::new();
    env.set("GIT_PREFIX", "first/");
    env.set("COLORTERM", "24bit");
    env.set("GIT_PREFIX", "second/");
    assert_eq!(env.get("GIT_PREFIX"), Some("second/".to_string()));
    assert_eq!(env.get("COLORTERM"), Some("24bit".to_string()));
}

#[test]
fn an_empty_value_is_a_value() {
    let mut env = Environment::new();
    env.set("DELTA_NAVIGATE", "");
    assert_eq!(env.get("DELTA_NAVIGATE"), Some(String::new()));
    env.set("DELTA_NAVIGATE", "1");
    env.set("DELTA_NAVIGATE", "");
    assert_eq!(env.get("DELTA_NAVIGATE"), Some(String::new()));
}

#[test]
fn names_are_exact() {
    let mut env = Environment::new();
    env.set("BAT_THEME", "a");
    assert_eq!(env.get("bat_theme"), None);
    assert_eq!(env.get("BAT_THEME "), None);
    assert_eq!(env.get("BAT_THEM"), None);
    assert_eq!(env.get("BAT_THEME"), Some("a".to_string()));
}

#[test]
fn other_variables_stay_as_they_were() {
    let mut env = Environment::new();
    env.set("A", "1");
    env.set("B", "2");
    env.set("A", "3");
    assert_eq!(env.get("B"), Some("2".to_string()));
    assert_eq!(env.get("A"), Some("3".to_string()));
    assert_eq!(env.get("C"), None);
}
