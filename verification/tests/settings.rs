use writingbuddy::settings::{Action, ConfigSearch, Notice, Place, Settings};

fn run(named: bool, initialize: bool, has_user_dir: bool, outcomes: &[bool]) -> (Vec<Action>, Vec<Notice>) {
    let mut search = ConfigSearch::begin(named, initialize, has_user_dir);
    let mut actions = vec![search.action];
    let mut notices = vec![search.opening_notice()];
    for outcome in outcomes {
        notices.extend(search.advance(*outcome));
        actions.push(search.action);
    }
    (actions, notices)
}

#[test]
fn settings_take_their_defaults() {
    let s = Settings::resolve(None, None, None, None, None, None, None);
    assert_eq!(s.title_format, "## %Y-%m-%d");
    assert_eq!(s.file_format, "%Y-%m.md");
    assert!(s.backspace_active);
    assert!(s.strict_mode);
    assert_eq!(s.time_goal, None);
    assert_eq!(s.word_goal, None);
    assert_eq!(s.keystroke_timeout, None);
}

#[test]
fn settings_keep_what_is_configured() {
    let s = Settings::resolve(
        Some(String::from("# %d")),
        Some(String::from("%Y.txt")),
        Some(false),
        Some(600),
        Some(500),
        Some(5),
        Some(false),
    );
    assert_eq!(s.title_format, "# %d");
    assert_eq!(s.file_format, "%Y.txt");
    assert!(!s.backspace_active);
    assert!(!s.strict_mode);
    assert_eq!(s.time_goal, Some(600));
    assert_eq!(s.word_goal, Some(500));
    assert_eq!(s.keystroke_timeout, Some(5));
}

#[test]
fn limits_that_are_not_positive_are_unset() {
    let s = Settings::resolve(None, None, None, Some(0), Some(-3), Some(i64::MIN), None);
    assert_eq!(s.time_goal, None);
    assert_eq!(s.word_goal, None);
    assert_eq!(s.keystroke_timeout, None);
    let t = Settings::resolve(None, None, None, Some(1), Some(i64::MAX), None, None);
    assert_eq!(t.time_goal, Some(1));
    assert_eq!(t.word_goal, Some(i64::MAX as u64));
}

#[test]
fn named_file_that_loads_is_used() {
    let (actions, notices) = run(true, false, true, &[true]);
    assert_eq!(actions, vec![Action::Load(Place::Named), Action::UseLoaded]);
    assert_eq!(notices, vec![Notice::ReadSpecifiedConfig]);
}

#[test]
fn named_file_is_created_on_request() {
    let (actions, notices) = run(true, true, true, &[false, true, true]);
    assert_eq!(
        actions,
        vec![
            Action::Load(Place::Named),
            Action::Create(Place::Named),
            Action::Reload(Place::Named),
            Action::UseLoaded,
        ]
    );
    assert_eq!(notices, vec![Notice::ReadSpecifiedConfig, Notice::CreateConfig]);
    let (actions, notices) = run(true, true, true, &[false, true, false]);
    assert_eq!(actions.last(), Some(&Action::Exit));
    assert_eq!(notices.last(), Some(&Notice::NoConfigExit));
    let (actions, _) = run(true, true, true, &[false, false]);
    assert_eq!(actions.last(), Some(&Action::UseDefaults));
}

#[test]
fn named_file_that_is_missing_is_an_error() {
    let (actions, notices) = run(true, false, true, &[false]);
    assert_eq!(actions, vec![Action::Load(Place::Named), Action::Exit]);
    assert_eq!(notices, vec![Notice::ReadSpecifiedConfig, Notice::MissingConfig]);
}

#[test]
fn working_directory_comes_first_without_a_name() {
    let (actions, notices) = run(false, false, true, &[true]);
    assert_eq!(actions, vec![Action::Load(Place::LocalName), Action::UseLoaded]);
    assert_eq!(notices, vec![Notice::NoConfigCurrentDir]);
}

#[test]
fn working_directory_file_is_created_on_request() {
    let (actions, notices) = run(false, true, true, &[false, true, true]);
    assert_eq!(
        actions,
        vec![
            Action::Load(Place::LocalName),
            Action::Create(Place::LocalFile),
            Action::Reload(Place::LocalFile),
            Action::UseLoaded,
        ]
    );
    assert_eq!(
        notices,
        vec![
            Notice::NoConfigCurrentDir,
            Notice::NoConfigCurrentDir,
            Notice::CreateConfigCurrentDir,
        ]
    );
}

#[test]
fn user_directory_is_searched_and_filled() {
    let (actions, notices) = run(false, false, true, &[false, false, true, true]);
    assert_eq!(
        actions,
        vec![
            Action::Load(Place::LocalName),
            Action::Load(Place::UserName),
            Action::Create(Place::UserFile),
            Action::Reload(Place::UserName),
            Action::UseLoaded,
        ]
    );
    assert_eq!(
        notices,
        vec![
            Notice::NoConfigCurrentDir,
            Notice::NoConfigCurrentDir,
            Notice::CreateDefaultBecauseError,
        ]
    );
    let (actions, _) = run(false, false, true, &[false, true]);
    assert_eq!(actions.last(), Some(&Action::UseLoaded));
    let (actions, _) = run(false, false, true, &[false, false, false]);
    assert_eq!(actions.last(), Some(&Action::UseDefaults));
    let (actions, notices) = run(false, false, true, &[false, false, true, false]);
    assert_eq!(actions.last(), Some(&Action::Exit));
    assert_eq!(notices.last(), Some(&Notice::NoConfigExit));
}

#[test]
fn without_user_directory_the_defaults_are_used() {
    let (actions, notices) = run(false, false, false, &[false]);
    assert_eq!(actions, vec![Action::Load(Place::LocalName), Action::UseDefaults]);
    assert_eq!(notices, vec![Notice::NoConfigCurrentDir, Notice::NoConfigCurrentDir]);
}

#[test]
fn a_search_that_has_ended_stays_as_it_is() {
    let (actions, notices) = run(true, false, false, &[true, false, true]);
    assert_eq!(actions[1..], [Action::UseLoaded, Action::UseLoaded, Action::UseLoaded]);
    assert_eq!(notices, vec![Notice::ReadSpecifiedConfig]);
}

#[test]
fn places_and_notices_have_their_names() {
    assert_eq!(Place::Named.path(), None);
    assert_eq!(Place::LocalName.path(), Some("writingbuddy"));
    assert_eq!(Place::LocalFile.path(), Some("writingbuddy.toml"));
    assert_eq!(Place::UserName.path(), Some("writingbuddy/writingbuddy"));
    assert_eq!(Place::UserFile.path(), Some("writingbuddy/writingbuddy.toml"));
    assert_eq!(Notice::ReadSpecifiedConfig.key(), "read-specified-config");
    assert_eq!(Notice::CreateConfig.key(), "create-config");
    assert_eq!(Notice::MissingConfig.key(), "");
    assert_eq!(Notice::NoConfigCurrentDir.key(), "no-config-current-dir");
    assert_eq!(Notice::CreateConfigCurrentDir.key(), "create-config-current-dir");
    assert_eq!(Notice::CreateDefaultBecauseError.key(), "create-default-because-error");
    assert_eq!(Notice::NoConfigExit.key(), "no-config-exit");
}
