use visage::{classify, fingerprint, skipped, BaselineStore, RegressionTest, RegressionTestStatus, Story};

fn sample(dom: &str, style: &str, visual: [u8; 8]) -> RegressionTest {
    let story = Story::new("src/Button.stories.ts", "Primary");
    fingerprint(&story, dom, style, &visual, 0).unwrap()
}

#[test]
fn no_baseline_is_created() {
    let r = classify(sample("a", "b", [0; 8]), None);
    assert_eq!(r.status, RegressionTestStatus::Created);
    assert!(r.expected_test.is_none());
    assert!(r.current_test.is_some());
}

#[test]
fn equal_hashes_pass() {
    let base = sample("a", "b", [1; 8]);
    let r = classify(sample("a", "b", [1; 8]), Some(&base));
    assert_eq!(r.status, RegressionTestStatus::Passed);
    assert_eq!(r.expected_test.unwrap().dom_hash, base.dom_hash);
}

#[test]
fn any_single_changed_hash_fails() {
    let base = sample("a", "b", [1; 8]);
    assert_eq!(classify(sample("z", "b", [1; 8]), Some(&base)).status, RegressionTestStatus::Failed);
    assert_eq!(classify(sample("a", "z", [1; 8]), Some(&base)).status, RegressionTestStatus::Failed);
    assert_eq!(classify(sample("a", "b", [2; 8]), Some(&base)).status, RegressionTestStatus::Failed);
}

#[test]
fn skipped_story_needs_no_fingerprint() {
    let r = skipped();
    assert_eq!(r.status, RegressionTestStatus::Skipped);
    assert!(r.current_test.is_none());
    assert!(r.expected_test.is_none());
}

#[test]
fn store_keeps_the_first_fingerprint_as_baseline() {
    let mut store = BaselineStore::new();
    let first = store.check(sample("a", "b", [1; 8]));
    assert_eq!(first.status, RegressionTestStatus::Created);
    let second = store.check(sample("a", "b", [1; 8]));
    assert_eq!(second.status, RegressionTestStatus::Passed);
    let third = store.check(sample("a", "changed", [1; 8]));
    assert_eq!(third.status, RegressionTestStatus::Failed);
    let kept = store.lookup(&"Primary.src/Button.stories.ts".to_string(), &"1920x1080".to_string());
    assert_eq!(kept.unwrap().style_hash, sample("a", "b", [1; 8]).style_hash);
}

#[test]
fn upsert_replaces_only_its_own_key() {
    let mut store = BaselineStore::new();
    let other = fingerprint(&Story::new("src/Card.stories.ts", "Other"), "o", "o", &[9; 8], 0).unwrap();
    store.upsert(other);
    store.upsert(sample("a", "b", [1; 8]));
    store.upsert(sample("new", "b", [1; 8]));
    let key = "Primary.src/Button.stories.ts".to_string();
    let vp = "1920x1080".to_string();
    assert_eq!(store.lookup(&key, &vp).unwrap().dom_hash, sample("new", "b", [1; 8]).dom_hash);
    let other_key = "Other.src/Card.stories.ts".to_string();
    assert_eq!(store.lookup(&other_key, &vp).unwrap().visual_hash, "0909090909090909");
    assert!(store.lookup(&key, &"800x600".to_string()).is_none());
}

#[test]
fn store_entries_round_trip() {
    let mut store = BaselineStore::new();
    store.upsert(sample("a", "b", [1; 8]));
    let saved: Vec<RegressionTest> = store.entries().iter().map(|t| t.duplicate()).collect();
    assert_eq!(saved.len(), 1);
    let mut again = BaselineStore::from_entries(saved);
    assert_eq!(again.check(sample("a", "b", [1; 8])).status, RegressionTestStatus::Passed);
}
