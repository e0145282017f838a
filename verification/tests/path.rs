use libav_sys::path::join;

#[test]
fn join_puts_a_separator_between() {
    assert_eq!(join("/opt/ffmpeg", "lib"), "/opt/ffmpeg/lib");
}

#[test]
fn join_keeps_a_trailing_separator() {
    assert_eq!(join("/opt/ffmpeg/", "include"), "/opt/ffmpeg/include");
}

#[test]
fn join_of_an_empty_base_is_the_child() {
    assert_eq!(join("", "include"), "include");
}

#[test]
fn join_lets_a_rooted_child_stand() {
    assert_eq!(join("/opt/ffmpeg", "/usr/include"), "/usr/include");
}
