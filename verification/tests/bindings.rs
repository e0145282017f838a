use libav_sys::bindings::{
    bindgen_for_suite, clang_arg, empty_bindings, generator_request, process_comment,
    suppression_lines, Emptying, Generating,
};
use libav_sys::env_install::{find, EnvInstallSuite, Locating};
use libav_sys::error::BuildError;
use libav_sys::host::{DirEntry, GeneratorRequest, Query, Reply, Step, VarOutcome};

fn suite_at(dir: &str, names: &[&str]) -> EnvInstallSuite {
    let entries = names
        .iter()
        .map(|name| Some(DirEntry { name: format!("lib{}", name), is_dir: true }))
        .collect();
    match find(Locating::AwaitEntries { dir: dir.to_string() }, Reply::Entries(entries)) {
        Step::Done(suite) => suite,
        other => panic!("no suite: {:?}", other),
    }
}

fn lines() -> Vec<String> {
    vec![
        "#![allow(deprecated)]".to_string(),
        "#![allow(dead_code)]".to_string(),
        "#![allow(non_camel_case_types)]".to_string(),
        "#![allow(non_snake_case)]".to_string(),
        "#![allow(non_upper_case_globals)]".to_string(),
        "#![allow(clashing_extern_declarations)]".to_string(),
    ]
}

fn request() -> GeneratorRequest {
    GeneratorRequest {
        clang_args: vec!["-I/opt/ffmpeg/include".to_string()],
        headers: vec![
            "/opt/ffmpeg/include/libavformat/avformat.h".to_string(),
            "/opt/ffmpeg/include/libavcodec/avcodec.h".to_string(),
        ],
        raw_lines: lines(),
        output: "/tmp/out/bindings.rs".to_string(),
    }
}

#[test]
fn clang_arg_names_the_search_path() {
    assert_eq!(clang_arg("/opt/ffmpeg/include"), "-I/opt/ffmpeg/include");
}

#[test]
fn suppression_lines_silence_the_expected_warnings() {
    assert_eq!(suppression_lines(), lines());
}

#[test]
fn generator_request_names_every_header_in_order_and_the_search_path_once() {
    let suite = suite_at("/opt/ffmpeg", &["avformat", "avcodec"]);
    assert_eq!(generator_request(&suite, "/tmp/out"), request());
}

#[test]
fn process_comment_takes_the_rewritten_comment() {
    assert_eq!(
        process_comment("@brief Opens a file", Some("Opens a file".to_string())),
        "Opens a file"
    );
}

#[test]
fn process_comment_falls_back_to_the_comment_as_it_was() {
    assert_eq!(process_comment("@b", None), "@b");
}

#[test]
fn empty_bindings_asks_for_the_output_directory() {
    assert_eq!(
        empty_bindings(Emptying::Start, Reply::Completed),
        Step::Ask {
            next: Emptying::AwaitOutDir,
            query: Query::Variable { name: "OUT_DIR".to_string() },
        }
    );
}

#[test]
fn empty_bindings_writes_a_file_without_contents() {
    let reply = Reply::Variable(VarOutcome::Value("/tmp/out".to_string()));
    assert_eq!(
        empty_bindings(Emptying::AwaitOutDir, reply),
        Step::Ask {
            next: Emptying::AwaitWritten,
            query: Query::WriteFile {
                path: "/tmp/out/bindings.rs".to_string(),
                contents: String::new(),
            },
        }
    );
}

#[test]
fn empty_bindings_ends_when_the_file_is_written() {
    assert_eq!(empty_bindings(Emptying::AwaitWritten, Reply::Completed), Step::Done(()));
}

#[test]
fn empty_bindings_fails_without_an_output_directory() {
    let error = BuildError::OutputDirMissing {
        detail: "environment variable not found".to_string(),
    };
    assert_eq!(error.message(), "environment variable not found");
    assert_eq!(
        empty_bindings(Emptying::AwaitOutDir, Reply::Variable(VarOutcome::NotPresent)),
        Step::Failed(error)
    );
}

#[test]
fn empty_bindings_fails_when_the_file_cannot_be_written() {
    let error = BuildError::Io { detail: "permission denied".to_string() };
    assert_eq!(error.message(), "permission denied");
    assert_eq!(
        empty_bindings(Emptying::AwaitWritten, Reply::Failed("permission denied".to_string())),
        Step::Failed(error)
    );
}

#[test]
fn empty_bindings_refuses_a_reply_to_another_query() {
    assert_eq!(
        empty_bindings(Emptying::AwaitOutDir, Reply::Exists(true)),
        Step::Failed(BuildError::UnexpectedReply)
    );
    assert_eq!(
        empty_bindings(Emptying::AwaitWritten, Reply::Exists(true)),
        Step::Failed(BuildError::UnexpectedReply)
    );
    assert_eq!(BuildError::UnexpectedReply.message(), "the reply does not answer the query");
}

#[test]
fn bindgen_for_suite_asks_for_the_output_directory_and_creates_it() {
    let suite = suite_at("/opt/ffmpeg", &["avformat", "avcodec"]);
    assert_eq!(
        bindgen_for_suite(&suite, Generating::Start, Reply::Completed),
        Step::Ask {
            next: Generating::AwaitOutDir,
            query: Query::Variable { name: "OUT_DIR".to_string() },
        }
    );
    let reply = Reply::Variable(VarOutcome::Value("/tmp/out".to_string()));
    assert_eq!(
        bindgen_for_suite(&suite, Generating::AwaitOutDir, reply),
        Step::Ask {
            next: Generating::AwaitDirCreated { out_dir: "/tmp/out".to_string() },
            query: Query::CreateDirAll { path: "/tmp/out".to_string() },
        }
    );
}

#[test]
fn bindgen_for_suite_asks_about_each_header_in_order() {
    let suite = suite_at("/opt/ffmpeg", &["avformat", "avcodec"]);
    let out_dir = "/tmp/out".to_string();
    assert_eq!(
        bindgen_for_suite(
            &suite,
            Generating::AwaitDirCreated { out_dir: out_dir.clone() },
            Reply::Completed
        ),
        Step::Ask {
            next: Generating::AwaitHeader { out_dir: out_dir.clone(), checked: 0 },
            query: Query::Exists { path: "/opt/ffmpeg/include/libavformat/avformat.h".to_string() },
        }
    );
    assert_eq!(
        bindgen_for_suite(
            &suite,
            Generating::AwaitHeader { out_dir: out_dir.clone(), checked: 0 },
            Reply::Exists(true)
        ),
        Step::Ask {
            next: Generating::AwaitHeader { out_dir, checked: 1 },
            query: Query::Exists { path: "/opt/ffmpeg/include/libavcodec/avcodec.h".to_string() },
        }
    );
}

#[test]
fn bindgen_for_suite_starts_the_generator_once_all_headers_exist() {
    let suite = suite_at("/opt/ffmpeg", &["avformat", "avcodec"]);
    let state = Generating::AwaitHeader { out_dir: "/tmp/out".to_string(), checked: 1 };
    assert_eq!(
        bindgen_for_suite(&suite, state, Reply::Exists(true)),
        Step::Ask { next: Generating::AwaitGenerated, query: Query::Generate { request: request() } }
    );
    assert_eq!(
        bindgen_for_suite(&suite, Generating::AwaitGenerated, Reply::Completed),
        Step::Done(())
    );
}

#[test]
fn bindgen_for_suite_without_libraries_starts_the_generator_at_once() {
    let suite = suite_at("/opt/ffmpeg", &[]);
    let state = Generating::AwaitDirCreated { out_dir: "/tmp/out".to_string() };
    let mut expected = request();
    expected.headers.clear();
    assert_eq!(
        bindgen_for_suite(&suite, state, Reply::Completed),
        Step::Ask {
            next: Generating::AwaitGenerated,
            query: Query::Generate { request: expected },
        }
    );
}

#[test]
fn bindgen_for_suite_names_the_missing_header() {
    let suite = suite_at("/opt/ffmpeg", &["avformat", "avcodec", "avutil"]);
    let state = Generating::AwaitHeader { out_dir: "/tmp/out".to_string(), checked: 1 };
    let error = BuildError::HeaderNotFound {
        path: "/opt/ffmpeg/include/libavcodec/avcodec.h".to_string(),
    };
    assert_eq!(
        error.message(),
        "Could not find \"/opt/ffmpeg/include/libavcodec/avcodec.h\""
    );
    assert_eq!(bindgen_for_suite(&suite, state, Reply::Exists(false)), Step::Failed(error));
}

#[test]
fn bindgen_for_suite_hands_on_what_the_generator_said() {
    let suite = suite_at("/opt/ffmpeg", &["avformat"]);
    let said = "clang diagnosed compilation errors".to_string();
    let error = BuildError::Generator { diagnostic: said.clone() };
    assert_eq!(error.message(), "clang diagnosed compilation errors");
    assert_eq!(
        bindgen_for_suite(&suite, Generating::AwaitGenerated, Reply::Failed(said)),
        Step::Failed(error)
    );
}

#[test]
fn bindgen_for_suite_fails_when_the_output_directory_cannot_be_had() {
    let suite = suite_at("/opt/ffmpeg", &["avformat"]);
    assert_eq!(
        bindgen_for_suite(
            &suite,
            Generating::AwaitOutDir,
            Reply::Variable(VarOutcome::NotUnicode("\"\\xFF\"".to_string()))
        ),
        Step::Failed(BuildError::OutputDirMissing {
            detail: "environment variable was not valid unicode: \"\\xFF\"".to_string(),
        })
    );
    assert_eq!(
        bindgen_for_suite(
            &suite,
            Generating::AwaitDirCreated { out_dir: "/tmp/out".to_string() },
            Reply::Failed("read-only file system".to_string())
        ),
        Step::Failed(BuildError::Io { detail: "read-only file system".to_string() })
    );
}

#[test]
fn bindgen_for_suite_refuses_a_reply_to_another_query() {
    let suite = suite_at("/opt/ffmpeg", &["avformat"]);
    let out_dir = "/tmp/out".to_string();
    assert_eq!(
        bindgen_for_suite(&suite, Generating::AwaitOutDir, Reply::Completed),
        Step::Failed(BuildError::UnexpectedReply)
    );
    assert_eq!(
        bindgen_for_suite(
            &suite,
            Generating::AwaitDirCreated { out_dir: out_dir.clone() },
            Reply::Exists(true)
        ),
        Step::Failed(BuildError::UnexpectedReply)
    );
    assert_eq!(
        bindgen_for_suite(
            &suite,
            Generating::AwaitHeader { out_dir: out_dir.clone(), checked: 0 },
            Reply::Completed
        ),
        Step::Failed(BuildError::UnexpectedReply)
    );
    assert_eq!(
        bindgen_for_suite(
            &suite,
            Generating::AwaitHeader { out_dir, checked: 1 },
            Reply::Exists(true)
        ),
        Step::Failed(BuildError::UnexpectedReply)
    );
    assert_eq!(
        bindgen_for_suite(&suite, Generating::AwaitGenerated, Reply::Exists(true)),
        Step::Failed(BuildError::UnexpectedReply)
    );
}
