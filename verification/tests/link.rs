use libav_sys::env_install::{find, EnvInstallSuite, Locating};
use libav_sys::host::{DirEntry, Reply, Step};
use libav_sys::link::{add_linker_search_dir, link_directives, link_lib};

fn suite_at(dir: &str, names: &[&str]) -> EnvInstallSuite {
    let entries = names
        .iter()
        .map(|name| Some(DirEntry { name: format!("lib{}", name), is_dir: true }))
        .collect();
    match find(Locating::AwaitEntries { dir: dir.to_string() }, Reply::Entries(entries)) {
        Step::Done(suite) => suite,
        other => panic!("no suite: {:?}", other),
    }
}

#[test]
fn add_linker_search_dir_names_the_directory() {
    assert_eq!(
        add_linker_search_dir("/opt/ffmpeg/lib"),
        "cargo:rustc-link-search=native=/opt/ffmpeg/lib"
    );
}

#[test]
fn link_lib_names_the_library() {
    assert_eq!(link_lib("avcodec"), "cargo:rustc-link-lib=dylib=avcodec");
}

#[test]
fn link_directives_are_one_search_directory_then_one_line_per_library() {
    let suite = suite_at("/opt/ffmpeg", &["avformat", "avcodec"]);
    assert_eq!(
        link_directives(&suite),
        vec![
            "cargo:rustc-link-search=native=/opt/ffmpeg/lib",
            "cargo:rustc-link-lib=dylib=avformat",
            "cargo:rustc-link-lib=dylib=avcodec",
        ]
    );
}

#[test]
fn link_directives_of_a_suite_without_libraries_name_the_directory_only() {
    let suite = suite_at("/opt/ffmpeg", &[]);
    assert_eq!(
        link_directives(&suite),
        vec!["cargo:rustc-link-search=native=/opt/ffmpeg/lib"]
    );
}

#[test]
fn link_directives_repeat_a_library_that_is_listed_twice() {
    let suite = suite_at("/opt/ffmpeg", &["avutil", "avutil"]);
    assert_eq!(
        link_directives(&suite),
        vec![
            "cargo:rustc-link-search=native=/opt/ffmpeg/lib",
            "cargo:rustc-link-lib=dylib=avutil",
            "cargo:rustc-link-lib=dylib=avutil",
        ]
    );
}
