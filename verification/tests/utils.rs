use fltk_image::utils::has_program;
use fltk_image::utils::proc_output;
use fltk_image::utils::use_static_msvcrt;

#[test]
fn a_program_that_wrote_something_is_there() {
    assert!(has_program(Some(b"cmake version 3.28\n")));
    assert!(has_program(Some(b" ")));
}

#[test]
fn a_silent_program_is_not_there() {
    assert!(!has_program(Some(b"")));
}

#[test]
fn a_program_that_did_not_run_is_not_there() {
    assert!(!has_program(None));
}

#[test]
fn output_is_trimmed_at_both_ends() {
    assert_eq!(proc_output(Some(b"  -I/usr/include -lfltk \r\n")), "-I/usr/include -lfltk");
    assert_eq!(proc_output(Some(b"\t\n1.3.5")), "1.3.5");
    assert_eq!(proc_output(Some(b"plain")), "plain");
}

#[test]
fn inner_whitespace_stays() {
    assert_eq!(proc_output(Some(b" a  b\tc ")), "a  b\tc");
}

#[test]
fn bytes_that_are_not_text_are_replaced() {
    assert_eq!(proc_output(Some(b" ok\xff\n")), "ok\u{fffd}");
    assert_eq!(proc_output(Some(b"\xc3\xa9t\xc3\xa9 ")), "\u{e9}t\u{e9}");
}

#[test]
fn whitespace_beyond_ascii_is_trimmed() {
    assert_eq!(proc_output(Some("\u{a0}\u{2003}x\u{3000}".as_bytes())), "x");
}

#[test]
fn nothing_but_whitespace_gives_the_empty_text() {
    assert_eq!(proc_output(Some(b" \n\t ")), "");
    assert_eq!(proc_output(Some(b"")), "");
}

#[test]
fn a_program_that_did_not_run_gives_the_empty_text() {
    assert_eq!(proc_output(None), "");
}

#[test]
fn the_runtime_is_static_when_either_side_says_so() {
    assert!(!use_static_msvcrt(false, false));
    assert!(use_static_msvcrt(true, false));
    assert!(use_static_msvcrt(false, true));
    assert!(use_static_msvcrt(true, true));
}
