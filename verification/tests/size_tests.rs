use cmi::imgtool::create_image_file;
use cmi::sizes::{image_size_bytes, parse_index, size_input_positive, validate_size_input};

#[test]
fn accepts_one_point_two() {
    assert!(validate_size_input("1.2"));
}

#[test]
fn rejects_zero() {
    assert!(!validate_size_input("0"));
}

#[test]
fn rejects_negative_three() {
    assert!(!validate_size_input("-3"));
}

#[test]
fn rejects_letters() {
    assert!(!validate_size_input("abc"));
}

#[test]
fn rejects_five_hundredths() {
    assert!(!validate_size_input("0.05"));
}

#[test]
fn boundary_cases_around_one_tenth() {
    assert!(!validate_size_input("0.1"));
    assert!(validate_size_input("0.11"));
    assert!(validate_size_input("0.2"));
    assert!(!validate_size_input("0.100000"));
    assert!(validate_size_input("0.1000001"));
}

#[test]
fn assorted_entries() {
    assert!(validate_size_input("2"));
    assert!(validate_size_input("1."));
    assert!(validate_size_input(".2"));
    assert!(!validate_size_input(".0"));
    assert!(validate_size_input("+1.2"));
    assert!(!validate_size_input(""));
    assert!(!validate_size_input("."));
    assert!(!validate_size_input("+"));
    assert!(!validate_size_input("1e3"));
    assert!(!validate_size_input("1.2.3"));
    assert!(!validate_size_input(" 1.2"));
}

#[test]
fn positive_differs_from_above_one_tenth() {
    assert!(size_input_positive("0.05"));
    assert!(!validate_size_input("0.05"));
    assert!(!size_input_positive("0"));
    assert!(!size_input_positive("0.0"));
    assert!(!size_input_positive("abc"));
    assert!(size_input_positive("3"));
}

#[test]
fn byte_counts_are_exact() {
    // 1 GiB exactly
    assert_eq!(image_size_bytes("1"), Some(1073741824));
    // 1.2 GiB, rounded down to whole bytes
    assert_eq!(image_size_bytes("1.2"), Some(1288490188));
    // half a GiB
    assert_eq!(image_size_bytes("0.5"), Some(536870912));
    assert_eq!(image_size_bytes("0"), Some(0));
    assert_eq!(image_size_bytes("abc"), None);
    // far past 64 bits
    assert_eq!(image_size_bytes("99999999999"), None);
}

#[test]
fn allocation_command_is_exact() {
    assert_eq!(
        create_image_file("1", "/tmp/rootfs.img").as_deref(),
        Some("sudo fallocate -l 1073741824 /tmp/rootfs.img")
    );
    assert_eq!(
        create_image_file("1.2", "img").as_deref(),
        Some("sudo fallocate -l 1288490188 img")
    );
    assert_eq!(create_image_file("0", "img"), None);
    assert_eq!(create_image_file("x", "img"), None);
}

#[test]
fn selection_entries_parse_as_plain_numbers() {
    assert_eq!(parse_index("3"), Some(3));
    assert_eq!(parse_index("007"), Some(7));
    assert_eq!(parse_index(""), None);
    assert_eq!(parse_index("x"), None);
    assert_eq!(parse_index("1 "), None);
    assert_eq!(parse_index("-1"), None);
    assert_eq!(parse_index("18446744073709551615"), Some(u64::MAX));
    assert_eq!(parse_index("18446744073709551616"), None);
}
