use justviewer::commands::{read_failure, write_failure};
use justviewer::text::{decimal_text, same_text};

#[test]
fn decimal_text_writes_numerals() {
    assert_eq!(decimal_text(0), "0");
    assert_eq!(decimal_text(9), "9");
    assert_eq!(decimal_text(10), "10");
    assert_eq!(decimal_text(101), "101");
    assert_eq!(decimal_text(1234567890), "1234567890");
    assert_eq!(decimal_text(u128::MAX), u128::MAX.to_string());
}

#[test]
fn same_text_compares_contents() {
    assert!(same_text("file", "file"));
    assert!(same_text("", ""));
    assert!(!same_text("file", "File"));
    assert!(!same_text("file", "files"));
    assert!(!same_text("", "x"));
}

#[test]
fn read_failure_names_path_and_cause() {
    assert_eq!(
        read_failure("/tmp/x.txt", "No such file or directory (os error 2)"),
        "Failed to read /tmp/x.txt: No such file or directory (os error 2)"
    );
    assert_eq!(read_failure("", ""), "Failed to read : ");
}

#[test]
fn write_failure_names_path_and_cause() {
    assert_eq!(
        write_failure("/root/x.txt", "Permission denied (os error 13)"),
        "Failed to write /root/x.txt: Permission denied (os error 13)"
    );
}
