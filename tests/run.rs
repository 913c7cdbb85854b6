use visage::{
    classify, fingerprint, home_dir_from, ignore_file_path, manifest_path, open_run, Action, Event,
    Phase, Run, RunError, Story,
};

fn checked() -> Event {
    let t = fingerprint(&Story::new("a/B.stories.ts", "C"), "h", "s", &[0; 8], 0).unwrap();
    Event::StoryChecked { result: classify(t, None) }
}

#[test]
fn failure_on_second_of_three_tears_everything_down() {
    let mut run = Run::new(true, 3);
    assert_eq!(run.next_action(), Action::StartServer);
    run.apply(Event::ServerStarted);
    assert_eq!(run.next_action(), Action::LaunchBrowser);
    run.apply(Event::BrowserLaunched);
    assert_eq!(run.next_action(), Action::CheckStory { index: 0 });
    run.apply(checked());
    assert_eq!(run.next_action(), Action::CheckStory { index: 1 });
    run.apply(Event::StoryFailed);
    assert_eq!(run.next_action(), Action::CloseBrowser);
    run.apply(Event::BrowserClosed);
    assert_eq!(run.next_action(), Action::StopServer);
    assert!(!run.is_finished());
    run.apply(Event::ServerStopped);
    assert_eq!(run.next_action(), Action::Finish);
    assert!(run.is_finished());
    assert_eq!(run.outcome().unwrap_err(), RunError::Story { index: 1 });
}

#[test]
fn successful_run_reports_every_result() {
    let mut run = Run::new(true, 2);
    run.apply(Event::ServerStarted);
    run.apply(Event::BrowserLaunched);
    run.apply(checked());
    run.apply(checked());
    assert_eq!(run.next_action(), Action::CloseBrowser);
    run.apply(Event::BrowserClosed);
    run.apply(Event::ServerStopped);
    assert_eq!(run.outcome().unwrap().len(), 2);
}

#[test]
fn run_without_stories_still_tears_down() {
    let mut run = Run::new(true, 0);
    run.apply(Event::ServerStarted);
    run.apply(Event::BrowserLaunched);
    assert_eq!(run.next_action(), Action::CloseBrowser);
}

#[test]
fn environment_failures() {
    let mut run = Run::new(true, 1);
    run.apply(Event::ServerFailed);
    assert_eq!(run.next_action(), Action::Finish);
    assert_eq!(run.outcome().unwrap_err(), RunError::ServerStart);

    let mut run = Run::new(true, 1);
    run.apply(Event::ServerStarted);
    run.apply(Event::BrowserFailed);
    assert_eq!(run.next_action(), Action::StopServer);
    run.apply(Event::ServerStopped);
    assert_eq!(run.outcome().unwrap_err(), RunError::BrowserLaunch);
}

#[test]
fn events_out_of_turn_change_nothing() {
    let mut run = Run::new(true, 1);
    run.apply(Event::BrowserClosed);
    run.apply(Event::StoryFailed);
    assert_eq!(run.next_action(), Action::StartServer);
}

#[test]
fn missing_manifest_fails_before_starting() {
    let run = Run::new(false, 4);
    assert_eq!(run.next_action(), Action::Finish);
    assert_eq!(run.outcome().unwrap_err(), RunError::MissingManifest);
    let run = open_run("/no/such/project/dir", 1);
    assert_eq!(run.next_action(), Action::Finish);
    let _ = Phase::Finished;
}

#[test]
fn project_paths() {
    assert_eq!(manifest_path("/p/q"), "/p/q/package.json");
    assert_eq!(ignore_file_path("/p/q"), "/p/q/.gitignore");
}

#[test]
fn home_directory_choice() {
    assert_eq!(home_dir_from(Some("/h".to_string()), Some("/u".to_string())), Some("/h".to_string()));
    assert_eq!(home_dir_from(None, Some("/u".to_string())), Some("/u".to_string()));
    assert_eq!(home_dir_from::<String>(None, None), None);
}
