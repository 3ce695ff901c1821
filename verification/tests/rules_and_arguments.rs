use grindstone::arguments::{Argument, Arguments, ComplexArgument};
use grindstone::either::Either;
use grindstone::os::Platform;
use grindstone::rules::{check_rules, Action, Features, Os, Rule};

fn allow_on(platform: Option<Platform>) -> Rule {
    Rule {
        action: Action::Allow,
        os: platform.map(|p| Os { platform: Some(p), version: None, arch: None }),
        features: None,
    }
}

#[test]
fn empty_rule_list_applies() {
    assert!(check_rules(&Vec::new(), &Platform::Linux));
}

#[test]
fn plain_actions_are_taken_literally() {
    let allow = allow_on(None);
    let disallow = Rule { action: Action::Disallow, os: None, features: None };
    assert!(allow.allows(&Platform::Linux));
    assert!(!disallow.allows(&Platform::Linux));
    assert!(Action::Allow.to_bool());
    assert!(!Action::Disallow.to_bool());
}

#[test]
fn unmet_platform_condition_negates_the_action() {
    let allow_windows = allow_on(Some(Platform::Windows));
    assert!(!allow_windows.allows(&Platform::Linux));
    assert!(allow_windows.allows(&Platform::Windows));
    let disallow_osx = Rule {
        action: Action::Disallow,
        os: Some(Os { platform: Some(Platform::MacOs), version: None, arch: None }),
        features: None,
    };
    assert!(disallow_osx.allows(&Platform::Linux));
    assert!(!disallow_osx.allows(&Platform::MacOs));
}

#[test]
fn any_feature_constraint_blocks() {
    let gated = Rule {
        action: Action::Allow,
        os: None,
        features: Some(Features { is_demo_user: Some(false), has_custom_resolution: None }),
    };
    assert!(!gated.allows(&Platform::Linux));
    let gated_empty = Rule {
        action: Action::Allow,
        os: None,
        features: Some(Features { is_demo_user: None, has_custom_resolution: None }),
    };
    assert!(!gated_empty.allows(&Platform::Linux));
}

#[test]
fn rule_list_is_the_conjunction_of_its_rules() {
    let allow = allow_on(None);
    let disallow = Rule { action: Action::Disallow, os: None, features: None };
    assert!(check_rules(&vec![allow_on(None), allow_on(None)], &Platform::Linux));
    assert!(!check_rules(&vec![allow, disallow], &Platform::Linux));
}

#[test]
fn simple_arguments_are_collected_and_skipped() {
    let args = Arguments {
        game: vec![
            Argument::Simple("--username".to_string()),
            Argument::Simple("--clientId".to_string()),
            Argument::Simple("${auth_xuid}".to_string()),
            Argument::Simple("--version".to_string()),
        ],
        jvm: vec![Argument::Simple("-Xmx2G".to_string())],
    };
    assert_eq!(
        args.game_arguments(&Platform::Linux),
        vec!["--username".to_string(), "--version".to_string()]
    );
    assert_eq!(args.jvm_arguments(&Platform::Linux), vec!["-Xmx2G".to_string()]);
}

#[test]
fn complex_argument_values_normalize_to_a_list() {
    let single = ComplexArgument { rules: Vec::new(), value: Either::Left("-Done=1".to_string()) };
    assert_eq!(single.value(), vec!["-Done=1".to_string()]);
    let several = ComplexArgument {
        rules: Vec::new(),
        value: Either::Right(vec!["-Da=1".to_string(), "-Db=2".to_string()]),
    };
    assert_eq!(several.value(), vec!["-Da=1".to_string(), "-Db=2".to_string()]);
}

#[test]
fn complex_arguments_honor_rules_and_skipping() {
    let blocked = ComplexArgument {
        rules: vec![Rule {
            action: Action::Allow,
            os: Some(Os { platform: Some(Platform::Windows), version: None, arch: None }),
            features: None,
        }],
        value: Either::Left("--windows-only".to_string()),
    };
    let kept = ComplexArgument {
        rules: Vec::new(),
        value: Either::Right(vec!["--xuid".to_string(), "--demo".to_string()]),
    };
    let args = Arguments {
        game: vec![Argument::Complex(blocked), Argument::Complex(kept)],
        jvm: Vec::new(),
    };
    assert_eq!(args.game_arguments(&Platform::Linux), vec!["--demo".to_string()]);
    assert!(args.jvm_arguments(&Platform::Linux).is_empty());
}

#[test]
fn platform_helpers_report_probe_values() {
    assert!(Platform::Linux.matches_current(&Platform::Linux));
    assert!(!Platform::Linux.matches_current(&Platform::Windows));
    assert_eq!(Platform::Windows.classpath_seperator(), ';');
    assert_eq!(Platform::Linux.classpath_seperator(), ':');
    assert_eq!(grindstone::os::Architecture::I386.get_bits(), 32);
    assert_eq!(grindstone::os::Architecture::AMD64.get_bits(), 64);
}
