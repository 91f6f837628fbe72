//! Identifiers.
use wasm_glue::names::{generate_identifier, NameMap, NameSet, UsedNames};

#[test]
fn test_generate_identifier() {
    let mut used_names = UsedNames::new();
    assert_eq!(
        generate_identifier("someVar", &mut used_names),
        "someVar".to_string()
    );
    assert_eq!(
        generate_identifier("someVar", &mut used_names),
        "someVar2".to_string()
    );
    assert_eq!(
        generate_identifier("default", &mut used_names),
        "default1".to_string()
    );
    assert_eq!(
        generate_identifier("default", &mut used_names),
        "default2".to_string()
    );
}

#[test]
fn identifiers_for_one_name_differ() {
    let mut used_names = UsedNames::new();
    let mut seen: Vec<String> = Vec::new();
    for _ in 0..12 {
        let identifier = generate_identifier("a", &mut used_names);
        assert!(!seen.contains(&identifier));
        seen.push(identifier);
    }
    assert_eq!(seen[0], "a");
    assert_eq!(seen[11], "a12");
    assert_eq!(used_names.count("a"), 12);
    assert_eq!(used_names.count("b"), 0);
}

#[test]
fn other_names_are_independent() {
    let mut used_names = UsedNames::new();
    assert_eq!(generate_identifier("a2", &mut used_names), "a2");
    assert_eq!(generate_identifier("a", &mut used_names), "a");
    assert_eq!(generate_identifier("a", &mut used_names), "a2");
}

#[test]
fn names_are_in_order() {
    let mut map: NameMap<u32> = NameMap::new();
    *map.entry("b", 0) = 2;
    *map.entry("a", 1) += 10;
    *map.entry("é", 3) += 0;
    *map.entry("b", 7) += 1;
    *map.entry("ab", 4) += 0;
    let names: Vec<&str> = (0..map.len()).map(|i| map.name_at(i)).collect();
    assert_eq!(names, vec!["a", "ab", "b", "é"]);
    let values: Vec<u32> = (0..map.len()).map(|i| *map.value_at(i)).collect();
    assert_eq!(values, vec![11, 4, 3, 3]);
    assert_eq!(map.get("b"), Some(&3));
    assert_eq!(map.get("c"), None);
}

#[test]
fn sets_hold_a_name_once() {
    let mut set = NameSet::new();
    assert!(set.insert("a"));
    assert!(!set.insert("a"));
    assert!(set.contains("a"));
    assert!(!set.contains("b"));
}

#[test]
fn default_is_never_handed_out() {
    let mut used_names = UsedNames::new();
    for name in ["default", "defaul", "defaul", "default", "", "default"] {
        assert_ne!(generate_identifier(name, &mut used_names), "default");
    }
}
