use newspoll::coalesce::entry_is_fresh;
use newspoll::params::ParamMap;
use newspoll::utils::{now, time_rfc3339_opts, time_yyyy_mmdd_thhmm};

#[test]
fn insert_keeps_place_of_present_key() {
    let mut map = ParamMap::new();
    map.insert("a".to_string(), "1".to_string());
    map.insert("b".to_string(), "2".to_string());
    map.insert("a".to_string(), "replaced".to_string());
    assert_eq!(map.len(), 2);
    assert_eq!(
        map.pairs().clone(),
        vec![
            ("a".to_string(), "replaced".to_string()),
            ("b".to_string(), "2".to_string()),
        ]
    );
}

#[test]
fn remove_returns_pair_and_keeps_order() {
    let mut map = ParamMap::new();
    map.insert("a".to_string(), "1".to_string());
    map.insert("b".to_string(), "2".to_string());
    map.insert("c".to_string(), "3".to_string());
    let removed = map.remove("b");
    assert_eq!(removed, Some(("b".to_string(), "2".to_string())));
    assert_eq!(map.remove("b"), None);
    assert_eq!(
        map.pairs().clone(),
        vec![("a".to_string(), "1".to_string()), ("c".to_string(), "3".to_string())]
    );
}

#[test]
fn get_finds_only_present_keys() {
    let mut map = ParamMap::new();
    assert!(map.get("missing").is_none());
    map.insert("k".to_string(), "v".to_string());
    assert_eq!(map.get("k").map(|s| s.as_str()), Some("v"));
    assert!(map.get("K").is_none());
}

#[test]
fn freshness_boundary_is_strict() {
    // Fresh strictly below the TTL; an age equal to the TTL is already
    // stale.  Stamps from the future count as age zero.
    assert!(entry_is_fresh(1_000, 60, 1_059));
    assert!(!entry_is_fresh(1_000, 60, 1_060));
    assert!(entry_is_fresh(2_000, 60, 1_000));
    assert!(!entry_is_fresh(1_000, 0, 1_000));
}

#[test]
fn clock_renderings_have_their_shapes() {
    // The trimmed rendering has no offset suffix; the untrimmed one keeps
    // it; the compact one is minutes only.
    let trimmed = time_rfc3339_opts(0);
    assert_eq!(trimmed.len(), 19);
    assert!(!trimmed.ends_with("+00:00"));
    let full = now();
    assert!(full.ends_with("+00:00"));
    assert!(full.starts_with(&trimmed[..10]));
    let compact = time_yyyy_mmdd_thhmm(0);
    assert_eq!(compact.len(), 13);
    assert!(compact.chars().nth(8) == Some('T'));
}
