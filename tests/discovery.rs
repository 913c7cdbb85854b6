use visage::{
    component_name, discover, ignore_patterns, is_story_file, select_story_files,
    stories_in_file, DiscoveryError, IgnoreRules, SourceFile, Story, WordClass,
};

fn file(path: &str, content: &str) -> SourceFile {
    SourceFile { path: path.to_string(), content: content.to_string() }
}

fn rules(patterns: &[&str]) -> IgnoreRules {
    let owned: Vec<String> = patterns.iter().map(|p| p.to_string()).collect();
    IgnoreRules::compile(&owned).unwrap()
}

fn words() -> WordClass {
    WordClass::new().unwrap()
}

fn triples(stories: &[Story]) -> Vec<(String, String, String)> {
    stories
        .iter()
        .map(|s| (s.path.clone(), s.name.clone(), s.component_name.clone()))
        .collect()
}

#[test]
fn component_name_is_base_name_before_first_dot() {
    assert_eq!(component_name("src/components/Button.stories.tsx"), "Button");
    assert_eq!(component_name("Card.stories.ts"), "Card");
    assert_eq!(component_name("a/b.c/Menu.stories.ts"), "Menu");
    assert_eq!(component_name("dir/noext"), "noext");
    assert_eq!(component_name("dir/"), "");
}

#[test]
fn story_display_key_and_url() {
    let s = Story::new("src/Button.stories.ts", "Primary");
    assert_eq!(s.component_name, "Button");
    assert_eq!(s.display(), "src/Button.stories.ts, Primary");
    assert_eq!(s.component_key(), "Primary.src/Button.stories.ts");
    assert_eq!(
        s.url("http://localhost:6006"),
        "http://localhost:6006/src/Button.stories.ts, Primary"
    );
}

#[test]
fn two_exports_give_two_stories_of_one_component() {
    let content = "import x from 'y';\nexport const Primary: Story = {};\nexport const Secondary: Story = {};\n";
    let found = stories_in_file("src/Button.stories.ts", content, &words());
    assert_eq!(found.len(), 2);
    assert_eq!(found[0].name, "Primary");
    assert_eq!(found[1].name, "Secondary");
    assert_eq!(found[0].component_name, "Button");
    assert_eq!(found[0].component_name, found[1].component_name);
    assert_eq!(found[0].path, "src/Button.stories.ts");
}

#[test]
fn only_complete_exports_count() {
    let content = "export const Plain = 1;\nexport const : Story\nexport const Obj: StoryObj = {};\nconst Hidden: Story = {};\nexport const Under_score9: Story";
    let found = stories_in_file("x/Y.stories.ts", content, &words());
    let names: Vec<String> = found.iter().map(|s| s.name.clone()).collect();
    assert_eq!(names, vec!["Obj".to_string(), "Under_score9".to_string()]);
    assert!(stories_in_file("x/Y.stories.ts", "", &words()).is_empty());
}

#[test]
fn story_file_suffixes() {
    assert!(is_story_file("src/A.stories.ts"));
    assert!(is_story_file("src/A.stories.tsx"));
    assert!(!is_story_file("src/A.stories.js"));
    assert!(!is_story_file("src/A.ts"));
    assert!(!is_story_file("stories.ts"));
}

#[test]
fn ignore_file_lines() {
    let content = "# build output\n\nnode_modules/.*\r\ndist\n#x\nlast";
    assert_eq!(
        ignore_patterns(content),
        vec!["node_modules/.*".to_string(), "dist".to_string(), "last".to_string()]
    );
    assert!(ignore_patterns("").is_empty());
    assert!(ignore_patterns("\n\n# only comments\n").is_empty());
}

#[test]
fn malformed_ignore_pattern_is_an_error() {
    let patterns = vec!["ok.*".to_string(), "(".to_string(), "[".to_string()];
    match IgnoreRules::compile(&patterns) {
        Err(DiscoveryError::InvalidIgnorePattern { pattern }) => assert_eq!(pattern, "("),
        Ok(_) => panic!("a malformed pattern compiled"),
    }
}

#[test]
fn ignore_patterns_match_the_whole_path() {
    let r = rules(&["src/.*", "b"]);
    assert!(r.is_ignored("src/A.stories.ts"));
    assert!(!r.is_ignored("lib/src/A.stories.ts"));
    assert!(r.is_ignored("b"));
    assert!(!r.is_ignored("ab"));
}

#[test]
fn ignored_file_is_never_discovered() {
    let tree = vec![
        file("src/Kept.stories.ts", "export const One: Story = {};"),
        file("src/Ignored.stories.tsx", "export const Two: Story = {};"),
        file("src/readme.md", "export const Three: Story = {};"),
    ];
    let found = discover(&tree, &rules(&["src/Ignored.*"]), &words());
    assert_eq!(
        triples(&found),
        vec![(
            "src/Kept.stories.ts".to_string(),
            "One".to_string(),
            "Kept".to_string()
        )]
    );
}

#[test]
fn pattern_matching_nothing_changes_nothing() {
    let tree = vec![
        file("src/A.stories.ts", "export const One: Story = {};"),
        file("src/B.stories.tsx", "export const Two: Story = {}; export const Three: Story = {};"),
    ];
    let without = discover(&tree, &rules(&[]), &words());
    let with = discover(&tree, &rules(&["nothing/here.*"]), &words());
    assert_eq!(without.len(), 3);
    assert_eq!(triples(&without), triples(&with));
}

#[test]
fn discovery_is_repeatable() {
    let tree = vec![
        file("a/X.stories.ts", "export const P: Story\nexport const Q: Story"),
        file("b/Y.stories.tsx", "export const R: Story"),
    ];
    let r = rules(&["c/.*"]);
    let first = discover(&tree, &r, &words());
    let second = discover(&tree, &r, &words());
    assert_eq!(triples(&first), triples(&second));
    assert_eq!(first.len(), 3);
}

#[test]
fn selection_keeps_story_files_that_are_not_ignored() {
    let paths = vec![
        "src/A.stories.ts".to_string(),
        "src/B.stories.tsx".to_string(),
        "src/C.ts".to_string(),
        "vendor/D.stories.ts".to_string(),
    ];
    let kept = select_story_files(&paths, &rules(&["vendor/.*"]));
    assert_eq!(kept, vec!["src/A.stories.ts".to_string(), "src/B.stories.tsx".to_string()]);
}

#[test]
fn unicode_identifiers_are_word_characters() {
    let found = stories_in_file("d/A.stories.ts", "export const \u{e9}t\u{e9}: Story = {};\nexport const Ünïcode1: Story", &words());
    let names: Vec<String> = found.iter().map(|s| s.name.clone()).collect();
    assert_eq!(names, vec!["\u{e9}t\u{e9}".to_string(), "Ünïcode1".to_string()]);
    assert!(stories_in_file("d/A.stories.ts", "export const a-b: Story", &words()).is_empty());
}

#[test]
fn story_file_without_component_name_is_left_out() {
    let tree = vec![
        file("d/.stories.ts", "export const A: Story = {};"),
        file("d/B.stories.ts", "export const A: Story = {};"),
    ];
    let found = discover(&tree, &rules(&[]), &words());
    assert_eq!(triples(&found), vec![("d/B.stories.ts".to_string(), "A".to_string(), "B".to_string())]);
    let paths = vec!["d/.stories.ts".to_string(), "d/B.stories.ts".to_string()];
    assert_eq!(select_story_files(&paths, &rules(&[])), vec!["d/B.stories.ts".to_string()]);
}

#[test]
fn pattern_must_compile_on_its_own() {
    let patterns = vec!["ok".to_string(), "a\\".to_string()];
    match IgnoreRules::compile(&patterns) {
        Err(DiscoveryError::InvalidIgnorePattern { pattern }) => assert_eq!(pattern, "a\\"),
        Ok(_) => panic!("a pattern with a lone trailing backslash compiled"),
    }
}
