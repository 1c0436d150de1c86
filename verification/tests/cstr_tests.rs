use pam::cstr::{bytes_eq, holds_no_nul, from_wire, to_wire};

#[test]
fn wire_form_appends_one_terminator() {
    assert_eq!(to_wire(&b"root".to_vec()), b"root\0".to_vec());
    assert_eq!(to_wire(&Vec::new()), vec![0u8]);
}

#[test]
fn text_stops_at_the_first_terminator() {
    assert_eq!(from_wire(&b"alice\0bob\0".to_vec()), b"alice".to_vec());
    assert_eq!(from_wire(&b"\0alice".to_vec()), Vec::<u8>::new());
}

#[test]
fn text_of_a_buffer_without_terminator_is_the_buffer() {
    assert_eq!(from_wire(&b"alice".to_vec()), b"alice".to_vec());
    assert_eq!(from_wire(&Vec::new()), Vec::<u8>::new());
}

#[test]
fn wire_round_trip_keeps_the_text() {
    let text = b"debug=1".to_vec();
    assert_eq!(from_wire(&to_wire(&text)), text);
}

#[test]
fn embedded_terminator_is_detected() {
    assert!(holds_no_nul(&b"plain".to_vec()));
    assert!(holds_no_nul(&Vec::new()));
    assert!(!holds_no_nul(&b"pl\0ain".to_vec()));
    assert!(!holds_no_nul(&b"plain\0".to_vec()));
}

#[test]
fn byte_strings_compare_by_content() {
    assert!(bytes_eq(&b"abc".to_vec(), &b"abc".to_vec()));
    assert!(!bytes_eq(&b"abc".to_vec(), &b"abd".to_vec()));
    assert!(!bytes_eq(&b"abc".to_vec(), &b"ab".to_vec()));
    assert!(bytes_eq(&Vec::new(), &Vec::new()));
}
