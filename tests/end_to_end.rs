use visage::{
    discover, fingerprint, Action, BaselineStore, Event, IgnoreRules, RegressionTestStatus, Run,
    SourceFile, WordClass,
};

#[test]
fn one_default_story_without_baseline_is_created() {
    let tree = vec![SourceFile {
        path: "src/Banner.stories.ts".to_string(),
        content: "export const Default: Story = {};\n".to_string(),
    }];
    let rules = IgnoreRules::compile(&Vec::new()).unwrap();
    let stories = discover(&tree, &rules, &WordClass::new().unwrap());
    assert_eq!(stories.len(), 1);
    let mut store = BaselineStore::new();
    let mut run = Run::new(true, stories.len());
    loop {
        match run.next_action() {
            Action::StartServer => run.apply(Event::ServerStarted),
            Action::LaunchBrowser => run.apply(Event::BrowserLaunched),
            Action::CheckStory { index } => {
                let story = &stories[index];
                assert_eq!(
                    story.url("http://localhost:6006"),
                    "http://localhost:6006/src/Banner.stories.ts, Default"
                );
                let t = fingerprint(story, "<html></html>", "body { margin: 0; }", &[7; 8], 0).unwrap();
                run.apply(Event::StoryChecked { result: store.check(t) });
            }
            Action::CloseBrowser => run.apply(Event::BrowserClosed),
            Action::StopServer => run.apply(Event::ServerStopped),
            Action::Finish => break,
        }
    }
    let results = run.outcome().unwrap();
    assert_eq!(results.len(), 1);
    assert_eq!(results[0].status, RegressionTestStatus::Created);
    let current = results[0].current_test.as_ref().unwrap();
    assert_eq!(current.component, "Default.src/Banner.stories.ts");
}
