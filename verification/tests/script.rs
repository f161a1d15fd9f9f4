//! Diagnostics of the script layer.

use visualiser::renderer::{CreationError, RenderParam};
use visualiser::script::{get_line_for_location, ScriptError};

#[test]
fn the_line_holding_a_location_is_returned_whole() {
    let text = "first line\nsecond line\nthird";
    assert_eq!(get_line_for_location(text, 0), "first line");
    assert_eq!(get_line_for_location(text, 5), "first line");
    assert_eq!(get_line_for_location(text, 11), "second line");
    assert_eq!(get_line_for_location(text, 21), "second line");
    assert_eq!(get_line_for_location(text, 23), "third");
}

#[test]
fn a_location_on_a_newline_ends_its_line_there() {
    let text = "ab\ncd";
    assert_eq!(get_line_for_location(text, 2), "ab");
}

#[test]
fn a_location_past_the_end_gives_the_last_line() {
    let text = "one\ntwo";
    assert_eq!(get_line_for_location(text, 100), "two");
}

#[test]
fn an_empty_text_has_one_empty_line() {
    assert_eq!(get_line_for_location("", 0), "");
    assert_eq!(get_line_for_location("", 7), "");
}

#[test]
fn a_single_line_text_is_returned_for_any_location() {
    let text = "no newline here";
    assert_eq!(get_line_for_location(text, 3), text);
    assert_eq!(get_line_for_location(text, 14), text);
}

#[test]
fn creation_errors_convert_into_script_errors() {
    let error = CreationError::MissingParameter(RenderParam::R);
    assert_eq!(ScriptError::from(error), ScriptError::CreationError(error));
}
