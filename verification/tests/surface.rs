use rfid_scanner::server::{accept_payload_len, file_name_arg, find_first, say_text, MAX_UPDATE_LEN};

#[test]
fn say_request_yields_its_message() {
    assert_eq!(say_text("/say?msg=hello"), Some("hello".to_string()));
    assert_eq!(say_text("/say?msg=two words"), Some("two words".to_string()));
    assert_eq!(say_text("/say?msg="), Some(String::new()));
}

#[test]
fn say_request_without_message_yields_none() {
    assert_eq!(say_text("/say"), None);
    assert_eq!(say_text("/say?name=x"), None);
    assert_eq!(say_text(""), None);
}

#[test]
fn file_request_yields_its_name() {
    assert_eq!(file_name_arg("/read-file?name=ready.txt"), Some("ready.txt".to_string()));
    assert_eq!(file_name_arg("/read-file"), None);
}

#[test]
fn first_occurrence_wins() {
    assert_eq!(find_first("a?msg=b?msg=c", "?msg="), Some(1));
    assert_eq!(say_text("a?msg=b?msg=c"), Some("b?msg=c".to_string()));
    assert_eq!(find_first("abcabc", "cab"), Some(2));
    assert_eq!(find_first("abc", "abcd"), None);
    assert_eq!(find_first("abc", ""), Some(0));
}

#[test]
fn oversize_payload_is_rejected() {
    assert!(accept_payload_len(0));
    assert!(accept_payload_len(MAX_UPDATE_LEN));
    assert!(!accept_payload_len(MAX_UPDATE_LEN + 1));
}
