use copper::errors::{
    CreateLibraryDownloadError, JavaArgumentsError, LauncherError, ManifestField,
    MavenIdentifierParseError,
};
use copper::launcher::{AuthenticationDetails, CustomResolution, Launcher, RamSize};
use copper::parser::{GameArguments, JavaArguments, Platform};
use copper::version::{
    Action, Arguments, Classifiers, Features, FluffyOs, GameClass, GameElement, GameRule, Library,
    LibraryDownloads, LibraryRule, MappingsClass, Name, Value, Version,
};

fn launcher() -> Launcher {
    Launcher {
        authentication_details: AuthenticationDetails {
            username: "Steve".to_string(),
            uuid: "9f308f90".to_string(),
            access_token: "token123".to_string(),
            xbox_uid: "2535460".to_string(),
            client_id: None,
            is_demo_user: false,
        },
        custom_resolution: None,
        jar_path: "/versions/1.18/1.18.jar".to_string(),
        game_directory: "/game".to_string(),
        assets_directory: "/assets".to_string(),
        libraries_directory: "/libs".to_string(),
        version_manifest_path: "/versions/1.18/1.18.json".to_string(),
        is_snapshot: false,
        version_name: "1.18".to_string(),
        client_branding: "copper".to_string(),
        ram_size: RamSize {
            min: "2048".to_string(),
            max: "4096".to_string(),
        },
        java_path: "/usr/bin/java".to_string(),
        launcher_name: "copper-cli".to_string(),
    }
}

fn empty_version() -> Version {
    Version {
        arguments: None,
        asset_index: None,
        assets: None,
        compliance_level: None,
        downloads: None,
        id: None,
        inherits_from: None,
        java_version: None,
        libraries: None,
        logging: None,
        main_class: None,
        minimum_launcher_version: None,
        release_time: None,
        time: None,
        version_info_type: None,
    }
}

fn plain_library(path: &str) -> Library {
    Library {
        downloads: Some(LibraryDownloads {
            artifact: MappingsClass {
                sha1: "cafe".to_string(),
                size: 1,
                url: format!("https://e/{}", path),
                path: Some(path.to_string()),
            },
            classifiers: None,
        }),
        name: path.to_string(),
        rules: None,
        natives: None,
        extract: None,
        url: None,
    }
}

#[test]
fn player_name_placeholder_renders_the_username() {
    let r = GameArguments::parse_string_argument(&launcher(), "${auth_player_name}".to_string());
    assert_eq!(r, Ok(Some("Steve".to_string())));
}

#[test]
fn unknown_placeholder_is_a_hard_error() {
    let r = GameArguments::parse_string_argument(&launcher(), "${unknown_token}".to_string());
    assert_eq!(
        r,
        Err(JavaArgumentsError::UnrecognisedGameArgument(
            "unknown_token".to_string()
        ))
    );
}

#[test]
fn recognized_placeholders_render_from_the_context() {
    let l = launcher();
    let cases = vec![
        ("${version_name}", "1.18"),
        ("${game_directory}", "/game"),
        ("${assets_root}", "/assets"),
        ("${assets_index_name}", "1.18"),
        ("${auth_uuid}", "9f308f90"),
        ("${auth_access_token}", "token123"),
        ("${auth_xuid}", "2535460"),
        ("${user_type}", "msa"),
        ("${version_type}", "release"),
    ];
    for (arg, expected) in cases {
        let r = GameArguments::parse_string_argument(&l, arg.to_string());
        assert_eq!(r, Ok(Some(expected.to_string())));
    }

    let mut snapshot = launcher();
    snapshot.is_snapshot = true;
    assert_eq!(
        GameArguments::parse_string_argument(&snapshot, "${version_type}".to_string()),
        Ok(Some("snapshot".to_string()))
    );
}

#[test]
fn resolution_placeholders_need_a_custom_resolution() {
    let mut l = launcher();
    l.custom_resolution = Some(CustomResolution { width: 854, height: 480 });
    assert_eq!(
        GameArguments::parse_string_argument(&l, "${resolution_width}".to_string()),
        Ok(Some("854".to_string()))
    );
    assert_eq!(
        GameArguments::parse_string_argument(&l, "${resolution_height}".to_string()),
        Ok(Some("480".to_string()))
    );
    assert_eq!(
        GameArguments::parse_string_argument(&launcher(), "${resolution_width}".to_string()),
        Err(JavaArgumentsError::UnrecognisedGameArgument(
            "resolution_width".to_string()
        ))
    );
}

#[test]
fn literal_arguments_pass_through() {
    assert_eq!(
        GameArguments::parse_string_argument(&launcher(), "--username".to_string()),
        Ok(Some("--username".to_string()))
    );
    // an opener without a closing brace forms no token
    assert_eq!(
        GameArguments::parse_string_argument(&launcher(), "--path=${unclosed".to_string()),
        Ok(Some("--path=${unclosed".to_string()))
    );
}

#[test]
fn embedded_placeholders_are_substituted_inside_arguments() {
    let r = GameArguments::parse_string_argument(
        &launcher(),
        "--userName=${auth_player_name}".to_string(),
    );
    assert_eq!(r, Ok(Some("--userName=Steve".to_string())));

    let mut l = launcher();
    l.custom_resolution = Some(CustomResolution { width: 854, height: 480 });
    let r = GameArguments::parse_string_argument(
        &l,
        "--width ${resolution_width} --height ${resolution_height}".to_string(),
    );
    assert_eq!(r, Ok(Some("--width 854 --height 480".to_string())));

    // an embedded unknown name is the same hard error
    let r = GameArguments::parse_string_argument(&launcher(), "--x=${unknown_token}".to_string());
    assert_eq!(
        r,
        Err(JavaArgumentsError::UnrecognisedGameArgument(
            "unknown_token".to_string()
        ))
    );
}

#[test]
fn client_id_tokens_are_omitted_entirely_without_a_client_id() {
    // the literal flag and the placeholder are both full omissions,
    // not empty-string tokens
    assert_eq!(
        GameArguments::parse_string_argument(&launcher(), "--clientId".to_string()),
        Ok(None)
    );
    assert_eq!(
        GameArguments::parse_string_argument(&launcher(), "${clientid}".to_string()),
        Ok(None)
    );
    let mut l = launcher();
    l.authentication_details.client_id = Some("abc".to_string());
    assert_eq!(
        GameArguments::parse_string_argument(&l, "--clientId".to_string()),
        Ok(Some("--clientId".to_string()))
    );
    assert_eq!(
        GameArguments::parse_string_argument(&l, "${clientid}".to_string()),
        Ok(Some("abc".to_string()))
    );
}

#[test]
fn omitted_client_id_leaves_no_empty_token_in_the_argument_list() {
    let mut version = empty_version();
    version.arguments = Some(Arguments {
        game: vec![
            GameElement::String("--clientId".to_string()),
            GameElement::String("${clientid}".to_string()),
            GameElement::String("--username".to_string()),
        ],
        jvm: vec![],
    });
    let args = launcher().parse_game_arguments(&version).unwrap();
    assert_eq!(args, vec!["--username".to_string()]);
}

#[test]
fn rejected_conditional_entry_is_omitted_whole() {
    let entry = GameClass {
        rules: vec![GameRule {
            action: Action::Allow,
            features: Features {
                is_demo_user: Some(true),
                has_custom_resolution: None,
            },
        }],
        value: Value::String("--demo".to_string()),
    };
    assert_eq!(
        GameArguments::parse_class_argument(&launcher(), &entry),
        Ok(None)
    );

    let mut demo = launcher();
    demo.authentication_details.is_demo_user = true;
    assert_eq!(
        GameArguments::parse_class_argument(&demo, &entry),
        Ok(Some("--demo".to_string()))
    );
}

#[test]
fn conditional_entry_joins_string_arrays_with_spaces() {
    let entry = GameClass {
        rules: vec![GameRule {
            action: Action::Allow,
            features: Features {
                is_demo_user: None,
                has_custom_resolution: Some(true),
            },
        }],
        value: Value::StringArray(vec![
            "--width".to_string(),
            "${resolution_width}".to_string(),
        ]),
    };
    let mut l = launcher();
    l.custom_resolution = Some(CustomResolution { width: 854, height: 480 });
    // the whole joined value is one argument, with its embedded
    // placeholder substituted
    assert_eq!(
        GameArguments::parse_class_argument(&l, &entry),
        Ok(Some("--width 854".to_string()))
    );
}

#[test]
fn classpath_keeps_declaration_order_and_skips_rejected_libraries() {
    let mut b = plain_library("b/b.jar");
    b.rules = Some(vec![LibraryRule {
        action: Action::Allow,
        os: Some(FluffyOs { name: Name::Linux }),
    }]);
    let mut version = empty_version();
    version.libraries = Some(vec![
        plain_library("a/a.jar"),
        b,
        plain_library("c/c.jar"),
    ]);
    let l = launcher();
    let cp = JavaArguments::create_classpath(&version, &l, Name::Windows).unwrap();
    assert_eq!(
        cp,
        vec![
            "/libs/a/a.jar".to_string(),
            "/libs/c/c.jar".to_string(),
            "/versions/1.18/1.18.jar".to_string(),
        ]
    );

    let joined = JavaArguments::parse_string_argument(
        &l,
        &version,
        "${classpath}".to_string(),
        Name::Windows,
    )
    .unwrap();
    assert_eq!(joined, "/libs/a/a.jar;/libs/c/c.jar;/versions/1.18/1.18.jar");

    // under linux the allow(linux) rule admits b, and the separator changes
    let joined = JavaArguments::parse_string_argument(
        &l,
        &version,
        "${classpath}".to_string(),
        Name::Linux,
    )
    .unwrap();
    assert_eq!(
        joined,
        "/libs/a/a.jar:/libs/b/b.jar:/libs/c/c.jar:/versions/1.18/1.18.jar"
    );
}

#[test]
fn jvm_placeholders_substitute_directories_and_branding() {
    let mut version = empty_version();
    version.libraries = Some(vec![]);
    let l = launcher();
    let r = JavaArguments::parse_string_argument(
        &l,
        &version,
        "-Djava.library.path=${natives_directory}".to_string(),
        Name::Linux,
    );
    assert_eq!(r, Ok("-Djava.library.path=/libs".to_string()));

    let r = JavaArguments::parse_string_argument(
        &l,
        &version,
        "-Dname=${launcher_name} -Dversion=${launcher_version}".to_string(),
        Name::Linux,
    );
    assert_eq!(r, Ok("-Dname=copper -Dversion=copper-cli".to_string()));
}

#[test]
fn classpath_needs_a_library_list() {
    let version = empty_version();
    assert_eq!(
        JavaArguments::create_classpath(&version, &launcher(), Name::Linux),
        Err(JavaArgumentsError::IncompleteManifest(ManifestField::Libraries))
    );
}

#[test]
fn surviving_jvm_placeholder_is_a_hard_error() {
    let mut version = empty_version();
    version.libraries = Some(vec![]);
    let r = JavaArguments::parse_string_argument(
        &launcher(),
        &version,
        "${unknown_token}".to_string(),
        Name::Linux,
    );
    assert_eq!(
        r,
        Err(JavaArgumentsError::UnrecognisedGameArgument(
            "unknown_token".to_string()
        ))
    );
    // the same for a token embedded in a longer argument
    let r = JavaArguments::parse_string_argument(
        &launcher(),
        &version,
        "-Dpath=${natives_directory}/${arch}".to_string(),
        Name::Linux,
    );
    assert_eq!(
        r,
        Err(JavaArgumentsError::UnrecognisedGameArgument("arch".to_string()))
    );
}

#[test]
fn game_arguments_render_in_order_with_omissions() {
    let mut version = empty_version();
    version.arguments = Some(Arguments {
        game: vec![
            GameElement::String("--username".to_string()),
            GameElement::String("${auth_player_name}".to_string()),
            GameElement::GameClass(GameClass {
                rules: vec![GameRule {
                    action: Action::Allow,
                    features: Features {
                        is_demo_user: Some(true),
                        has_custom_resolution: None,
                    },
                }],
                value: Value::String("--demo".to_string()),
            }),
        ],
        jvm: vec![],
    });
    let args = launcher().parse_game_arguments(&version).unwrap();
    assert_eq!(args, vec!["--username".to_string(), "Steve".to_string()]);
}

#[test]
fn game_arguments_need_an_argument_section() {
    let version = empty_version();
    assert_eq!(
        launcher().parse_game_arguments(&version),
        Err(LauncherError::NoArgs)
    );
    let platform = Platform {
        os: Name::Linux,
        windows_ten_or_greater: false,
        arch_x86: false,
    };
    assert_eq!(
        launcher().parse_java_arguments(&version, &platform),
        Err(LauncherError::NoArgs)
    );
}

#[test]
fn unknown_placeholder_fails_the_whole_argument_list() {
    let mut version = empty_version();
    version.arguments = Some(Arguments {
        game: vec![GameElement::String("${unknown_token}".to_string())],
        jvm: vec![],
    });
    assert_eq!(
        launcher().parse_game_arguments(&version),
        Err(LauncherError::JavaArgumentParseError(
            JavaArgumentsError::UnrecognisedGameArgument("unknown_token".to_string())
        ))
    );
}

#[test]
fn classpath_error_paths_are_reported() {
    // primary artifact without an install path
    let mut lib = plain_library("a/a.jar");
    lib.downloads.as_mut().unwrap().artifact.path = None;
    let mut version = empty_version();
    version.libraries = Some(vec![lib]);
    assert_eq!(
        JavaArguments::create_classpath(&version, &launcher(), Name::Linux),
        Err(JavaArgumentsError::NoDownloadArtifactPath)
    );

    // selected native classifier without an install path
    let mut lib = plain_library("a/a.jar");
    lib.downloads.as_mut().unwrap().classifiers = Some(Classifiers {
        javadoc: None,
        natives_linux: Some(MappingsClass {
            sha1: "0".to_string(),
            size: 0,
            url: "https://e/n.jar".to_string(),
            path: None,
        }),
        natives_macos: None,
        natives_windows: None,
        sources: None,
        natives_osx: None,
    });
    let mut version = empty_version();
    version.libraries = Some(vec![lib]);
    assert_eq!(
        JavaArguments::create_classpath(&version, &launcher(), Name::Linux),
        Err(JavaArgumentsError::NoLibsPath)
    );

    // no descriptor and no base url to build one from
    let orphan = Library {
        downloads: None,
        name: "a:a:1".to_string(),
        rules: None,
        natives: None,
        extract: None,
        url: None,
    };
    let mut version = empty_version();
    version.libraries = Some(vec![orphan]);
    assert_eq!(
        JavaArguments::create_classpath(&version, &launcher(), Name::Linux),
        Err(JavaArgumentsError::NoLibraryUrl)
    );

    // a base url but an unparseable coordinate
    let unparseable = Library {
        downloads: None,
        name: "broken".to_string(),
        rules: None,
        natives: None,
        extract: None,
        url: Some("https://maven.example/".to_string()),
    };
    let mut version = empty_version();
    version.libraries = Some(vec![unparseable]);
    assert_eq!(
        JavaArguments::create_classpath(&version, &launcher(), Name::Linux),
        Err(JavaArgumentsError::LibraryDownloadError(
            CreateLibraryDownloadError::MavenParseError(MavenIdentifierParseError::NotEnoughArgs)
        ))
    );
}

#[test]
fn classpath_uses_maven_fallback_for_descriptorless_library() {
    let lib = Library {
        downloads: None,
        name: "net.fabricmc:fabric-loader:0.13.3".to_string(),
        rules: None,
        natives: None,
        extract: None,
        url: Some("https://maven.fabricmc.net/".to_string()),
    };
    let mut version = empty_version();
    version.libraries = Some(vec![lib]);
    let cp = JavaArguments::create_classpath(&version, &launcher(), Name::Linux).unwrap();
    assert_eq!(
        cp,
        vec![
            "/libs/net/fabricmc/fabric-loader/0.13.3/fabric-loader-0.13.3.jar".to_string(),
            "/versions/1.18/1.18.jar".to_string(),
        ]
    );
}
