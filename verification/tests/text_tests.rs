use device_bridge::contains_str;
use device_bridge::find_from;
use device_bridge::split_lines;
use device_bridge::trim_str;

#[test]
fn substring_search() {
    assert_eq!(find_from("header: value", ":", 0), Some(6));
    assert_eq!(find_from("a:b:c", ":", 2), Some(3));
    assert_eq!(find_from("abc", "d", 0), None);
    assert!(contains_str("HTTP/1.1 200 OK roku:ecp", "roku:ecp"));
    assert!(!contains_str("HTTP/1.1 200 OK", "roku:ecp"));
}

#[test]
fn trimming() {
    assert_eq!(trim_str("  spaced out \r\n"), "spaced out");
    assert_eq!(trim_str("\t\n  \r"), "");
    assert_eq!(trim_str("solid"), "solid");
}

#[test]
fn line_splitting() {
    assert_eq!(split_lines("a\r\nb\nc"), vec!["a", "b", "c"]);
    assert_eq!(split_lines("one line\r\n"), vec!["one line"]);
    assert_eq!(split_lines(""), Vec::<String>::new());
    assert_eq!(split_lines("\n\n"), vec!["", ""]);
}
