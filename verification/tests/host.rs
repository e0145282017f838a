use libav_sys::host::VarOutcome;

#[test]
fn into_value_gives_the_value_of_a_variable_that_is_set() {
    assert_eq!(
        VarOutcome::Value("/opt/ffmpeg".to_string()).into_value(),
        Ok("/opt/ffmpeg".to_string())
    );
    assert_eq!(VarOutcome::Value(String::new()).into_value(), Ok(String::new()));
}

#[test]
fn into_value_says_that_a_variable_is_not_set() {
    assert_eq!(
        VarOutcome::NotPresent.into_value(),
        Err("environment variable not found".to_string())
    );
}

#[test]
fn into_value_says_that_a_variable_holds_no_text() {
    assert_eq!(
        VarOutcome::NotUnicode("\"fo\\x80o\"".to_string()).into_value(),
        Err("environment variable was not valid unicode: \"fo\\x80o\"".to_string())
    );
}
