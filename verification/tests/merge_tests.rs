use copper::version::{Arguments, GameElement, JvmElement, Version};

fn empty_version() -> Version {
    Version {
        arguments: None,
        asset_index: None,
        assets: None,
        compliance_level: None,
        downloads: None,
        id: None,
        inherits_from: None,
        java_version: None,
        libraries: None,
        logging: None,
        main_class: None,
        minimum_launcher_version: None,
        release_time: None,
        time: None,
        version_info_type: None,
    }
}

#[test]
fn merge_takes_derived_scalar_when_present() {
    let mut hi = empty_version();
    hi.id = Some("loader".to_string());
    let mut lo = empty_version();
    lo.id = Some("base".to_string());
    lo.main_class = Some("net.minecraft.client.main.Main".to_string());
    let merged = hi.merge(lo);
    assert_eq!(merged.id, Some("loader".to_string()));
    assert_eq!(
        merged.main_class,
        Some("net.minecraft.client.main.Main".to_string())
    );
}

#[test]
fn merge_chain_override_first_present_wins() {
    // merge(A, merge(B, C)): a field comes from A if present, else B, else C.
    let mut a = empty_version();
    a.id = Some("a".to_string());
    let mut b = empty_version();
    b.id = Some("b".to_string());
    b.assets = Some("b-assets".to_string());
    let mut c = empty_version();
    c.id = Some("c".to_string());
    c.assets = Some("c-assets".to_string());
    c.main_class = Some("c.Main".to_string());

    let merged = a.merge(b.merge(c));
    assert_eq!(merged.id, Some("a".to_string()));
    assert_eq!(merged.assets, Some("b-assets".to_string()));
    assert_eq!(merged.main_class, Some("c.Main".to_string()));
}

#[test]
fn merge_absent_on_both_sides_stays_absent() {
    let merged = empty_version().merge(empty_version());
    assert_eq!(merged.id, None);
    assert_eq!(merged.assets, None);
    assert!(merged.libraries.is_none());
    assert!(merged.arguments.is_none());
}

#[test]
fn merge_concatenates_argument_lists_derived_first() {
    let mut hi = empty_version();
    hi.arguments = Some(Arguments {
        game: vec![GameElement::String("--loader".to_string())],
        jvm: vec![JvmElement::String("-Xloader".to_string())],
    });
    let mut lo = empty_version();
    lo.arguments = Some(Arguments {
        game: vec![GameElement::String("--vanilla".to_string())],
        jvm: vec![JvmElement::String("-Xvanilla".to_string())],
    });
    let merged = hi.merge(lo);
    let args = merged.arguments.unwrap();
    assert_eq!(
        args.game,
        vec![
            GameElement::String("--loader".to_string()),
            GameElement::String("--vanilla".to_string()),
        ]
    );
    assert_eq!(
        args.jvm,
        vec![
            JvmElement::String("-Xloader".to_string()),
            JvmElement::String("-Xvanilla".to_string()),
        ]
    );
}

#[test]
fn merge_keeps_one_sided_argument_list() {
    let mut hi = empty_version();
    hi.arguments = Some(Arguments {
        game: vec![GameElement::String("--loader".to_string())],
        jvm: vec![],
    });
    let merged = hi.merge(empty_version());
    let args = merged.arguments.unwrap();
    assert_eq!(args.game.len(), 1);

    let mut lo = empty_version();
    lo.arguments = Some(Arguments {
        game: vec![GameElement::String("--vanilla".to_string())],
        jvm: vec![],
    });
    let merged = empty_version().merge(lo);
    let args = merged.arguments.unwrap();
    assert_eq!(args.game, vec![GameElement::String("--vanilla".to_string())]);
}
