use copper::errors::JavaArgumentsError;
use copper::launcher::{AuthenticationDetails, CustomResolution, Launcher, RamSize};
use copper::parser::{GameArguments, JavaArguments, Platform};
use copper::version::{
    Action, Features, FluffyOs, GameRule, JvmRule, LibraryRule, Name, PurpleOs, Version,
};

fn launcher_with(demo: bool, resolution: Option<CustomResolution>) -> Launcher {
    Launcher {
        authentication_details: AuthenticationDetails {
            username: "Steve".to_string(),
            uuid: "uuid".to_string(),
            access_token: "token".to_string(),
            xbox_uid: "xuid".to_string(),
            client_id: None,
            is_demo_user: demo,
        },
        custom_resolution: resolution,
        jar_path: "/v/v.jar".to_string(),
        game_directory: "/game".to_string(),
        assets_directory: "/assets".to_string(),
        libraries_directory: "/libs".to_string(),
        version_manifest_path: "/v/v.json".to_string(),
        is_snapshot: false,
        version_name: "1.18".to_string(),
        client_branding: "copper".to_string(),
        ram_size: RamSize {
            min: "2048".to_string(),
            max: "4096".to_string(),
        },
        java_path: "/usr/bin/java".to_string(),
        launcher_name: "copper".to_string(),
    }
}

#[test]
fn allow_linux_rule_rejects_windows_context() {
    let rules = vec![LibraryRule {
        action: Action::Allow,
        os: Some(FluffyOs { name: Name::Linux }),
    }];
    assert!(!Version::check_library_rules(&rules, Name::Windows));
}

#[test]
fn allow_linux_rule_admits_linux_context() {
    let rules = vec![LibraryRule {
        action: Action::Allow,
        os: Some(FluffyOs { name: Name::Linux }),
    }];
    assert!(Version::check_library_rules(&rules, Name::Linux));
}

#[test]
fn empty_rule_list_admits_any_context() {
    let rules: Vec<LibraryRule> = vec![];
    assert!(Version::check_library_rules(&rules, Name::Windows));
    assert!(Version::check_library_rules(&rules, Name::Linux));
    assert!(Version::check_library_rules(&rules, Name::Osx));
}

#[test]
fn disallow_rule_rejects_named_os_only() {
    let rules = vec![LibraryRule {
        action: Action::Disallow,
        os: Some(FluffyOs { name: Name::Osx }),
    }];
    assert!(!Version::check_library_rules(&rules, Name::Osx));
    assert!(Version::check_library_rules(&rules, Name::Linux));
}

#[test]
fn disallow_rule_without_os_rejects_unconditionally() {
    let rules = vec![LibraryRule {
        action: Action::Disallow,
        os: None,
    }];
    assert!(!Version::check_library_rules(&rules, Name::Linux));
}

#[test]
fn allow_rule_without_os_continues() {
    let rules = vec![LibraryRule {
        action: Action::Allow,
        os: None,
    }];
    assert!(Version::check_library_rules(&rules, Name::Windows));
}

#[test]
fn game_rule_tests_demo_feature() {
    let rule = GameRule {
        action: Action::Allow,
        features: Features {
            is_demo_user: Some(true),
            has_custom_resolution: None,
        },
    };
    let demo = launcher_with(true, None);
    let plain = launcher_with(false, None);
    assert_eq!(GameArguments::check_rule(&rule, &demo), Ok(true));
    assert_eq!(GameArguments::check_rule(&rule, &plain), Ok(false));
}

#[test]
fn game_rule_tests_resolution_feature() {
    let rule = GameRule {
        action: Action::Allow,
        features: Features {
            is_demo_user: None,
            has_custom_resolution: Some(true),
        },
    };
    let with = launcher_with(false, Some(CustomResolution { width: 854, height: 480 }));
    let without = launcher_with(false, None);
    assert_eq!(GameArguments::check_rule(&rule, &with), Ok(true));
    assert_eq!(GameArguments::check_rule(&rule, &without), Ok(false));
}

#[test]
fn game_rule_without_known_feature_is_reported() {
    let rule = GameRule {
        action: Action::Allow,
        features: Features {
            is_demo_user: None,
            has_custom_resolution: None,
        },
    };
    let launcher = launcher_with(false, None);
    assert_eq!(
        GameArguments::check_rule(&rule, &launcher),
        Err(JavaArgumentsError::UnrecognisedAllowRule)
    );
}

#[test]
fn game_disallow_rule_is_reported() {
    let rule = GameRule {
        action: Action::Disallow,
        features: Features {
            is_demo_user: Some(true),
            has_custom_resolution: None,
        },
    };
    let launcher = launcher_with(false, None);
    assert_eq!(
        GameArguments::check_rule(&rule, &launcher),
        Err(JavaArgumentsError::UnrecognisedDisallowRule)
    );
}

fn platform(os: Name) -> Platform {
    Platform {
        os,
        windows_ten_or_greater: false,
        arch_x86: false,
    }
}

fn jvm_rule(name: Option<&str>, version: Option<&str>, arch: Option<&str>) -> JvmRule {
    JvmRule {
        action: Action::Allow,
        os: PurpleOs {
            name: name.map(|s| s.to_string()),
            version: version.map(|s| s.to_string()),
            arch: arch.map(|s| s.to_string()),
        },
    }
}

#[test]
fn jvm_rule_matches_os_name() {
    let rule = jvm_rule(Some("linux"), None, None);
    assert_eq!(JavaArguments::check_rule(&rule, &platform(Name::Linux)), Ok(true));
    assert_eq!(JavaArguments::check_rule(&rule, &platform(Name::Windows)), Ok(false));
    let rule = jvm_rule(Some("osx"), None, None);
    assert_eq!(JavaArguments::check_rule(&rule, &platform(Name::Osx)), Ok(true));
}

#[test]
fn jvm_rule_without_name_allows_nothing() {
    let rule = jvm_rule(None, None, None);
    assert_eq!(JavaArguments::check_rule(&rule, &platform(Name::Linux)), Ok(false));
}

#[test]
fn jvm_rule_unknown_os_is_reported() {
    let rule = jvm_rule(Some("solaris"), None, None);
    assert_eq!(
        JavaArguments::check_rule(&rule, &platform(Name::Linux)),
        Err(JavaArgumentsError::UnrecognisedOs)
    );
}

#[test]
fn jvm_rule_windows_version_pattern() {
    let rule = jvm_rule(Some("windows"), Some("^10\\."), None);
    let mut win10 = platform(Name::Windows);
    win10.windows_ten_or_greater = true;
    assert_eq!(JavaArguments::check_rule(&rule, &win10), Ok(true));
    let win7 = platform(Name::Windows);
    assert_eq!(JavaArguments::check_rule(&rule, &win7), Ok(false));
    // on another host the rule simply does not apply, whatever the pattern
    assert_eq!(JavaArguments::check_rule(&rule, &platform(Name::Linux)), Ok(false));
}

#[test]
fn jvm_rule_unknown_windows_version_is_reported() {
    let rule = jvm_rule(Some("windows"), Some("^11\\."), None);
    let win = platform(Name::Windows);
    assert_eq!(
        JavaArguments::check_rule(&rule, &win),
        Err(JavaArgumentsError::UnrecognisedOsVersion("^11\\.".to_string()))
    );
}

#[test]
fn jvm_rule_arch_test() {
    let rule = jvm_rule(Some("linux"), None, Some("x86"));
    let mut p = platform(Name::Linux);
    p.arch_x86 = true;
    assert_eq!(JavaArguments::check_rule(&rule, &p), Ok(true));
    assert_eq!(JavaArguments::check_rule(&rule, &platform(Name::Linux)), Ok(false));
}

#[test]
fn jvm_rule_unknown_arch_is_reported() {
    let rule = jvm_rule(Some("linux"), None, Some("arm"));
    assert_eq!(
        JavaArguments::check_rule(&rule, &platform(Name::Linux)),
        Err(JavaArgumentsError::UnrecognisedOsArch)
    );
}

#[test]
fn jvm_disallow_rule_is_reported() {
    let rule = JvmRule {
        action: Action::Disallow,
        os: PurpleOs {
            name: Some("linux".to_string()),
            version: None,
            arch: None,
        },
    };
    assert_eq!(
        JavaArguments::check_rule(&rule, &platform(Name::Linux)),
        Err(JavaArgumentsError::NoDissalows)
    );
}
