use libav_sys::env_install::{LocateError, Locating, Root};
use libav_sys::host::{DirEntry, Query, Reply, Step, VarOutcome};
use libav_sys::resolve::{find_suite, Failure, Locator, NoSuiteFound, Resolving};
use libav_sys::suite::FfmpegSuite;

fn missing() -> LocateError {
    LocateError::ConfigurationMissing { detail: "environment variable not found".to_string() }
}

#[test]
fn locator_is_reported_under_its_name() {
    assert_eq!(Locator::EnvInstall.name(), "env_install");
}

#[test]
fn resolving_starts_with_the_first_locator_and_nothing_noted() {
    let state = Resolving::new(vec![Locator::EnvInstall]);
    assert_eq!(state.current, 0);
    assert_eq!(state.failures, Vec::new());
    assert_eq!(state.locating, Locating::Start);
    assert_eq!(state.locators, vec![Locator::EnvInstall]);
}

#[test]
fn find_suite_passes_on_the_query_of_the_locator() {
    let step = find_suite(Resolving::new(vec![Locator::EnvInstall]), Reply::Completed);
    assert_eq!(
        step,
        Step::Ask {
            next: Resolving {
                locators: vec![Locator::EnvInstall],
                current: 0,
                failures: Vec::new(),
                locating: Locating::AwaitRoot,
            },
            query: Query::Variable { name: "FFMPEG_DIR".to_string() },
        }
    );
}

#[test]
fn find_suite_gives_the_first_suite_found() {
    let state = Resolving {
        locators: vec![Locator::EnvInstall, Locator::EnvInstall],
        current: 0,
        failures: Vec::new(),
        locating: Locating::AwaitEntries { dir: "/opt/ffmpeg".to_string() },
    };
    let entries = vec![Some(DirEntry { name: "libavutil".to_string(), is_dir: true })];
    match find_suite(state, Reply::Entries(entries)) {
        Step::Done(suite) => {
            assert_eq!(suite.ffmpeg_dir(), "/opt/ffmpeg");
            assert_eq!(suite.lib_names(), vec!["avutil"]);
        }
        other => panic!("no suite: {:?}", other),
    }
}

#[test]
fn find_suite_fails_when_the_only_locator_fails() {
    let state = Resolving {
        locators: vec![Locator::EnvInstall],
        current: 0,
        failures: Vec::new(),
        locating: Locating::AwaitRoot,
    };
    let step = find_suite(state, Reply::Variable(VarOutcome::NotPresent));
    let error = NoSuiteFound {
        failures: vec![Failure { locator: Locator::EnvInstall, error: missing() }],
    };
    assert_eq!(
        error.message(),
        "No FFMPEG suite found: \nenv_install not found: Error getting FFMPEG_DIR: environment variable not found"
    );
    assert_eq!(step, Step::Failed(error));
}

#[test]
fn find_suite_hands_over_to_the_next_locator_after_a_failure() {
    let state = Resolving {
        locators: vec![Locator::EnvInstall, Locator::EnvInstall],
        current: 0,
        failures: Vec::new(),
        locating: Locating::AwaitInclude { dir: "/opt/ffmpeg".to_string() },
    };
    let noted = Failure {
        locator: Locator::EnvInstall,
        error: LocateError::PathNotFound {
            root: Root::Include,
            path: "/opt/ffmpeg/include".to_string(),
        },
    };
    assert_eq!(
        find_suite(state, Reply::Exists(false)),
        Step::Ask {
            next: Resolving {
                locators: vec![Locator::EnvInstall, Locator::EnvInstall],
                current: 1,
                failures: vec![noted],
                locating: Locating::AwaitRoot,
            },
            query: Query::Variable { name: "FFMPEG_DIR".to_string() },
        }
    );
}

#[test]
fn find_suite_reports_the_failure_of_every_locator() {
    let first = Failure {
        locator: Locator::EnvInstall,
        error: LocateError::PathNotFound { root: Root::Lib, path: "/opt/ffmpeg/lib".to_string() },
    };
    let state = Resolving {
        locators: vec![Locator::EnvInstall, Locator::EnvInstall],
        current: 1,
        failures: vec![first],
        locating: Locating::AwaitRoot,
    };
    let step = find_suite(state, Reply::Variable(VarOutcome::NotPresent));
    let error = match step {
        Step::Failed(error) => error,
        other => panic!("not failed: {:?}", other),
    };
    assert_eq!(error.failures.len(), 2);
    assert_eq!(error.failures[1].error, missing());
    let message = error.message();
    assert_eq!(
        message,
        "No FFMPEG suite found: \n\
         env_install not found: FFMPEG_DIR/lib does not exist: /opt/ffmpeg/lib\n\n\
         env_install not found: Error getting FFMPEG_DIR: environment variable not found"
    );
    for failure in &error.failures {
        assert!(message.contains(&failure.reason()));
        assert!(message.contains(&failure.error.message()));
    }
}

#[test]
fn find_suite_without_locators_fails_with_nothing_noted() {
    let step = find_suite(Resolving::new(Vec::new()), Reply::Completed);
    let error = NoSuiteFound { failures: Vec::new() };
    assert_eq!(error.message(), "No FFMPEG suite found: \n");
    assert_eq!(step, Step::Failed(error));
}

#[test]
fn failure_is_worded_with_the_name_of_its_locator() {
    let failure = Failure { locator: Locator::EnvInstall, error: missing() };
    assert_eq!(
        failure.reason(),
        "env_install not found: Error getting FFMPEG_DIR: environment variable not found"
    );
}
