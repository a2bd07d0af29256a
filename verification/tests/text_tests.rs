use copper::launcher_meta::{Latest, LauncherMeta, Type, Version};
use copper::text::{i32_to_string, join_strings, replace_all, u64_to_string};

#[test]
fn replace_substitutes_every_occurrence_left_to_right() {
    assert_eq!(replace_all("a${x}b${x}c", "${x}", "1"), "a1b1c");
    assert_eq!(replace_all("nothing here", "${x}", "1"), "nothing here");
    assert_eq!(replace_all("${x}", "${x}", ""), "");
    // replacements are not rescanned
    assert_eq!(replace_all("aaa", "aa", "a"), "aa");
}

#[test]
fn join_places_the_separator_between_parts() {
    let parts = vec!["a".to_string(), "b".to_string(), "c".to_string()];
    assert_eq!(join_strings(&parts, ";"), "a;b;c");
    assert_eq!(join_strings(&vec!["solo".to_string()], ":"), "solo");
    assert_eq!(join_strings(&vec![], ":"), "");
}

#[test]
fn integers_render_in_decimal() {
    assert_eq!(u64_to_string(0), "0");
    assert_eq!(u64_to_string(7), "7");
    assert_eq!(u64_to_string(1080), "1080");
    assert_eq!(u64_to_string(18446744073709551615), "18446744073709551615");
    assert_eq!(i32_to_string(854), "854");
    assert_eq!(i32_to_string(-5), "-5");
    assert_eq!(i32_to_string(-2147483648), "-2147483648");
}

fn catalog_version(id: &str, t: Type) -> Version {
    Version {
        id: id.to_string(),
        version_type: t,
        url: format!("https://meta.example/{}.json", id),
        time: "2021-07-06T12:00:00+00:00".to_string(),
        release_time: "2021-07-06T12:00:00+00:00".to_string(),
    }
}

#[test]
fn latest_release_and_snapshot_are_found_in_the_catalog() {
    let meta = LauncherMeta {
        latest: Latest {
            release: "1.17.1".to_string(),
            snapshot: "21w37a".to_string(),
        },
        versions: vec![
            catalog_version("21w37a", Type::Snapshot),
            catalog_version("1.17.1", Type::Release),
            catalog_version("1.16.5", Type::Release),
        ],
    };
    let release = meta.latest.version_for_release(&meta);
    assert_eq!(release.id, "1.17.1");
    assert_eq!(release.url, "https://meta.example/1.17.1.json");
    let snapshot = meta.latest.version_for_snapshot(&meta);
    assert_eq!(snapshot.id, "21w37a");
}
