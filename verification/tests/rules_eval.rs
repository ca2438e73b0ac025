use wmml::model::{Library, Os, Platform, Rule};
use wmml::rules::{check_library_rules, evaluate};

fn windows_x64() -> Platform {
    Platform { os_name: "windows".to_string(), os_arch: "x86_64".to_string() }
}

fn lib(name: &str, rules: Option<Vec<Rule>>) -> Library {
    Library { name: name.to_string(), rules, natives: None }
}

#[test]
fn absent_rule_list_always_includes() {
    let l = lib("a:b:c", None);
    assert!(check_library_rules(&l, &windows_x64()));
}

#[test]
fn empty_rule_list_always_includes() {
    let l = lib("a:b:c", Some(vec![]));
    assert!(check_library_rules(&l, &windows_x64()));
    let other = Platform { os_name: "osx".to_string(), os_arch: "x86".to_string() };
    assert!(check_library_rules(&l, &other));
}

#[test]
fn single_unconstrained_disallow_excludes_everywhere() {
    let rules = vec![Rule { action: "disallow".to_string(), os: None }];
    assert!(!evaluate(&rules, &windows_x64()));
    let other = Platform { os_name: "linux".to_string(), os_arch: "arm".to_string() };
    assert!(!evaluate(&rules, &other));
}

#[test]
fn last_rule_wins_over_earlier_allow() {
    let rules = vec![
        Rule { action: "allow".to_string(), os: None },
        Rule {
            action: "disallow".to_string(),
            os: Some(Os { name: Some("windows".to_string()), arch: None }),
        },
    ];
    assert!(!evaluate(&rules, &windows_x64()));
    // The first rule alone would include.
    let first_only = vec![Rule { action: "allow".to_string(), os: None }];
    assert!(evaluate(&first_only, &windows_x64()));
}

#[test]
fn rule_order_is_observed() {
    // The same two rules in the opposite order include: the allow overwrites
    // the earlier disallow.
    let rules = vec![
        Rule {
            action: "disallow".to_string(),
            os: Some(Os { name: Some("windows".to_string()), arch: None }),
        },
        Rule { action: "allow".to_string(), os: None },
    ];
    assert!(evaluate(&rules, &windows_x64()));
}

#[test]
fn allow_with_foreign_os_excludes() {
    let rules = vec![Rule {
        action: "allow".to_string(),
        os: Some(Os { name: Some("osx".to_string()), arch: None }),
    }];
    assert!(!evaluate(&rules, &windows_x64()));
}

#[test]
fn allow_with_matching_os_and_arch() {
    let matching = vec![Rule {
        action: "allow".to_string(),
        os: Some(Os { name: Some("windows".to_string()), arch: Some("x86_64".to_string()) }),
    }];
    assert!(evaluate(&matching, &windows_x64()));
    let wrong_arch = vec![Rule {
        action: "allow".to_string(),
        os: Some(Os { name: Some("windows".to_string()), arch: Some("x86".to_string()) }),
    }];
    assert!(!evaluate(&wrong_arch, &windows_x64()));
}

#[test]
fn disallow_with_foreign_os_is_no_op() {
    let rules = vec![Rule {
        action: "disallow".to_string(),
        os: Some(Os { name: Some("osx".to_string()), arch: None }),
    }];
    assert!(evaluate(&rules, &windows_x64()));
}

#[test]
fn unknown_action_is_a_no_op() {
    let rules = vec![
        Rule { action: "disallow".to_string(), os: None },
        Rule { action: "mystery".to_string(), os: None },
    ];
    // The unknown action leaves the exclusion in force.
    assert!(!evaluate(&rules, &windows_x64()));
    let only_unknown = vec![Rule { action: "mystery".to_string(), os: None }];
    assert!(evaluate(&only_unknown, &windows_x64()));
}

#[test]
fn allow_with_os_but_no_name_excludes() {
    let rules = vec![Rule {
        action: "allow".to_string(),
        os: Some(Os { name: None, arch: None }),
    }];
    assert!(!evaluate(&rules, &windows_x64()));
}
