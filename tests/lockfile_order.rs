use rune_deploy::lockfile::{sort_entries, str_lt, Dependency, LockData};

fn entry(name: &str, version: &str) -> Dependency {
    Dependency {
        name: name.to_string(),
        version: version.to_string(),
        source: None,
        checksum: None,
        dependencies: None,
    }
}

fn keys(v: &[Dependency]) -> Vec<(String, String)> {
    v.iter().map(|d| (d.name.clone(), d.version.clone())).collect()
}

#[test]
fn entries_sort_by_name_then_version() {
    let v = vec![entry("b", "1.0"), entry("a", "2.0"), entry("a", "1.0"), entry("ab", "0.1")];
    let s = sort_entries(v);
    assert_eq!(
        keys(&s),
        vec![
            ("a".to_string(), "1.0".to_string()),
            ("a".to_string(), "2.0".to_string()),
            ("ab".to_string(), "0.1".to_string()),
            ("b".to_string(), "1.0".to_string()),
        ]
    );
}

#[test]
fn re_resolution_in_another_order_gives_the_same_lock() {
    let first = LockData::from_entries(3, vec![entry("z", "1"), entry("m", "2"), entry("a", "3")]);
    let second = LockData::from_entries(3, vec![entry("a", "3"), entry("z", "1"), entry("m", "2")]);
    assert_eq!(first.version, Some(3));
    assert_eq!(keys(&first.package.unwrap()), keys(&second.package.unwrap()));
}

#[test]
fn empty_lock_has_no_entries() {
    let l = LockData::from_entries(3, vec![]);
    assert!(l.package.unwrap().is_empty());
}

#[test]
fn string_order_is_lexicographic() {
    assert!(str_lt("a", "b"));
    assert!(str_lt("a", "ab"));
    assert!(str_lt("", "a"));
    assert!(!str_lt("a", "a"));
    assert!(!str_lt("b", "ab"));
    assert!(str_lt("1.10", "1.9"));
}

#[test]
fn entries_with_equal_keys_are_all_kept() {
    let mut second = entry("a", "1");
    second.checksum = Some("x".to_string());
    let s = sort_entries(vec![entry("b", "1"), entry("a", "1"), second]);
    assert_eq!(s.len(), 3);
    assert_eq!(keys(&s)[0], ("a".to_string(), "1".to_string()));
    assert_eq!(keys(&s)[1], ("a".to_string(), "1".to_string()));
    assert_eq!(s[2].name, "b");
    assert_eq!(s.iter().filter(|d| d.checksum.is_some()).count(), 1);
}
