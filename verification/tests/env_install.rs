use libav_sys::env_install::{
    find, readable_entries, EnvInstallSuite, LocateError, Locating, Root,
};
use libav_sys::host::{DirEntry, Query, Reply, Step, VarOutcome};
use libav_sys::suite::{header_path, header_paths, FfmpegSuite};

fn entry(name: &str, is_dir: bool) -> DirEntry {
    DirEntry { name: name.to_string(), is_dir }
}

fn suite_at(dir: &str, entries: Vec<DirEntry>) -> EnvInstallSuite {
    let state = Locating::AwaitEntries { dir: dir.to_string() };
    match find(state, Reply::Entries(entries.into_iter().map(Some).collect())) {
        Step::Done(suite) => suite,
        other => panic!("no suite: {:?}", other),
    }
}

fn ffmpeg_entries() -> Vec<DirEntry> {
    vec![
        entry("libavformat", true),
        entry("README", false),
        entry("libavcodec", true),
        entry("openssl", true),
        entry("libnotadir.h", false),
        entry("libpostproc", true),
    ]
}

#[test]
fn find_asks_for_the_variable_first() {
    let step = find(Locating::Start, Reply::Completed);
    assert_eq!(
        step,
        Step::Ask {
            next: Locating::AwaitRoot,
            query: Query::Variable { name: "FFMPEG_DIR".to_string() },
        }
    );
}

#[test]
fn find_asks_about_the_headers_directory_once_it_has_the_root() {
    let reply = Reply::Variable(VarOutcome::Value("/opt/ffmpeg".to_string()));
    assert_eq!(
        find(Locating::AwaitRoot, reply),
        Step::Ask {
            next: Locating::AwaitInclude { dir: "/opt/ffmpeg".to_string() },
            query: Query::Exists { path: "/opt/ffmpeg/include".to_string() },
        }
    );
}

#[test]
fn find_asks_about_the_libraries_directory_next() {
    let state = Locating::AwaitInclude { dir: "/opt/ffmpeg".to_string() };
    assert_eq!(
        find(state, Reply::Exists(true)),
        Step::Ask {
            next: Locating::AwaitLib { dir: "/opt/ffmpeg".to_string() },
            query: Query::Exists { path: "/opt/ffmpeg/lib".to_string() },
        }
    );
}

#[test]
fn find_lists_the_headers_directory_last() {
    let state = Locating::AwaitLib { dir: "/opt/ffmpeg".to_string() };
    assert_eq!(
        find(state, Reply::Exists(true)),
        Step::Ask {
            next: Locating::AwaitEntries { dir: "/opt/ffmpeg".to_string() },
            query: Query::ListDir { path: "/opt/ffmpeg/include".to_string() },
        }
    );
}

#[test]
fn find_gives_the_suite_with_its_libraries_in_listing_order() {
    let suite = suite_at("/opt/ffmpeg", ffmpeg_entries());
    assert_eq!(suite.ffmpeg_dir(), "/opt/ffmpeg");
    assert_eq!(suite.include_dir(), "/opt/ffmpeg/include");
    assert_eq!(suite.lib_dir(), "/opt/ffmpeg/lib");
    assert_eq!(suite.lib_names(), vec!["avformat", "avcodec", "postproc"]);
}

#[test]
fn find_leaves_out_the_entries_that_could_not_be_read() {
    let state = Locating::AwaitEntries { dir: "/opt/ffmpeg".to_string() };
    let listing = vec![
        None,
        Some(entry("libavformat", true)),
        None,
        None,
        Some(entry("libavcodec", true)),
    ];
    match find(state, Reply::Entries(listing)) {
        Step::Done(suite) => {
            assert_eq!(suite.lib_names(), vec!["avformat", "avcodec"]);
            assert_eq!(
                suite,
                suite_at(
                    "/opt/ffmpeg",
                    vec![entry("libavformat", true), entry("libavcodec", true)]
                )
            );
        }
        other => panic!("no suite: {:?}", other),
    }
}

#[test]
fn readable_entries_keep_the_order_of_the_listing() {
    let listing = vec![Some(entry("b", false)), None, Some(entry("a", true)), None];
    assert_eq!(readable_entries(&listing), vec![entry("b", false), entry("a", true)]);
    assert_eq!(readable_entries(&vec![None, None]), Vec::new());
    assert_eq!(readable_entries(&Vec::new()), Vec::new());
}

#[test]
fn find_fails_when_the_variable_is_not_set() {
    let step = find(Locating::AwaitRoot, Reply::Variable(VarOutcome::NotPresent));
    let error = LocateError::ConfigurationMissing {
        detail: "environment variable not found".to_string(),
    };
    assert_eq!(error.message(), "Error getting FFMPEG_DIR: environment variable not found");
    assert_eq!(step, Step::Failed(error));
}

#[test]
fn find_fails_when_the_variable_cannot_be_read() {
    let raw = "\"\\xFF\"".to_string();
    let step = find(Locating::AwaitRoot, Reply::Variable(VarOutcome::NotUnicode(raw)));
    let error = LocateError::ConfigurationMissing {
        detail: "environment variable was not valid unicode: \"\\xFF\"".to_string(),
    };
    assert_eq!(
        error.message(),
        "Error getting FFMPEG_DIR: environment variable was not valid unicode: \"\\xFF\""
    );
    assert_eq!(step, Step::Failed(error));
}

#[test]
fn find_names_the_missing_headers_directory() {
    let state = Locating::AwaitInclude { dir: "/opt/ffmpeg".to_string() };
    let error = LocateError::PathNotFound {
        root: Root::Include,
        path: "/opt/ffmpeg/include".to_string(),
    };
    assert_eq!(error.message(), "FFMPEG_DIR/include does not exist: /opt/ffmpeg/include");
    assert_eq!(find(state, Reply::Exists(false)), Step::Failed(error));
}

#[test]
fn find_names_the_missing_libraries_directory() {
    let state = Locating::AwaitLib { dir: "/opt/ffmpeg".to_string() };
    let error = LocateError::PathNotFound { root: Root::Lib, path: "/opt/ffmpeg/lib".to_string() };
    assert_eq!(error.message(), "FFMPEG_DIR/lib does not exist: /opt/ffmpeg/lib");
    assert_eq!(find(state, Reply::Exists(false)), Step::Failed(error));
}

#[test]
fn find_refuses_a_reply_to_another_query() {
    let dir = "/opt/ffmpeg".to_string();
    assert_eq!(
        find(Locating::AwaitRoot, Reply::Exists(true)),
        Step::Failed(LocateError::UnexpectedReply)
    );
    assert_eq!(
        find(Locating::AwaitInclude { dir: dir.clone() }, Reply::Completed),
        Step::Failed(LocateError::UnexpectedReply)
    );
    assert_eq!(
        find(Locating::AwaitLib { dir: dir.clone() }, Reply::Entries(Vec::new())),
        Step::Failed(LocateError::UnexpectedReply)
    );
    assert_eq!(
        find(Locating::AwaitEntries { dir }, Reply::Failed("no".to_string())),
        Step::Failed(LocateError::UnexpectedReply)
    );
    assert_eq!(
        LocateError::UnexpectedReply.message(),
        "the reply does not answer the query"
    );
}

#[test]
fn find_run_twice_gives_the_same_suite() {
    let first = suite_at("/opt/ffmpeg", ffmpeg_entries());
    let second = suite_at("/opt/ffmpeg", ffmpeg_entries());
    assert_eq!(first, second);
    assert_eq!(first.lib_names(), second.lib_names());
    assert_eq!(first.include_dir(), second.include_dir());
    assert_eq!(first.lib_dir(), second.lib_dir());
}

#[test]
fn lib_names_of_an_empty_directory_are_none() {
    let suite = suite_at("/opt/ffmpeg", Vec::new());
    assert_eq!(suite.lib_names(), Vec::<String>::new());
    assert_eq!(suite.include_subdirs(), Vec::<String>::new());
}

#[test]
fn lib_names_keep_a_directory_named_by_the_prefix_alone() {
    let suite = suite_at("/opt/ffmpeg", vec![entry("lib", true), entry("li", true)]);
    assert_eq!(suite.lib_names(), vec![""]);
}

#[test]
fn lib_names_have_no_name_twice_for_a_listing_without_repeats() {
    let suite = suite_at("/opt/ffmpeg", ffmpeg_entries());
    let names = suite.lib_names();
    for (i, name) in names.iter().enumerate() {
        assert!(!names[i + 1..].contains(name));
    }
}

#[test]
fn include_subdirs_are_the_directories_below_the_headers_directory() {
    let suite = suite_at("/opt/ffmpeg", ffmpeg_entries());
    assert_eq!(
        suite.include_subdirs(),
        vec![
            "/opt/ffmpeg/include/libavformat",
            "/opt/ffmpeg/include/libavcodec",
            "/opt/ffmpeg/include/openssl",
            "/opt/ffmpeg/include/libpostproc",
        ]
    );
}

#[test]
fn main_include_for_lib_appends_the_extension() {
    let suite = suite_at("/opt/ffmpeg", Vec::new());
    assert_eq!(suite.main_include_for_lib("avcodec"), "avcodec.h");
    assert_eq!(suite.main_include_for_lib("avformat"), "avformat.h");
    assert_eq!(suite.main_include_for_lib("swscale"), "swscale.h");
    assert_eq!(suite.main_include_for_lib(""), ".h");
    assert_eq!(suite.main_include_for_lib("postprocess"), "postprocess.h");
}

#[test]
fn main_include_for_lib_knows_the_post_processing_library() {
    let suite = suite_at("/opt/ffmpeg", Vec::new());
    assert_eq!(suite.main_include_for_lib("postproc"), "postprocess.h");
}

#[test]
fn header_path_lies_in_the_directory_of_the_library() {
    let suite = suite_at("/opt/ffmpeg", ffmpeg_entries());
    assert_eq!(
        header_path(&suite, "avcodec"),
        "/opt/ffmpeg/include/libavcodec/avcodec.h"
    );
    assert_eq!(
        header_path(&suite, "postproc"),
        "/opt/ffmpeg/include/libpostproc/postprocess.h"
    );
}

#[test]
fn header_paths_follow_the_order_of_the_libraries() {
    let suite = suite_at("/opt/ffmpeg/", ffmpeg_entries());
    assert_eq!(
        header_paths(&suite),
        vec![
            "/opt/ffmpeg/include/libavformat/avformat.h",
            "/opt/ffmpeg/include/libavcodec/avcodec.h",
            "/opt/ffmpeg/include/libpostproc/postprocess.h",
        ]
    );
}
