use snapd::api::assertions::DeclarationAssertionPayload;
use snapd::api::json::ParseError;
use snapd::api::Payload;

#[test]
fn declaration_fields_are_read() {
    let text = "type: snap-declaration\r\nauthority-id: canonical\r\nseries: 16\r\nsnap-id: NeoQngJVBf2wKC48bxnF2xqmfEFGdVnx\r\nsnap-name:   steam \r\npublisher-id: x\r\n\r\nsignature";
    let payload = DeclarationAssertionPayload::from(text.as_bytes().to_vec());
    let declaration = payload.parse().unwrap();
    assert_eq!(declaration.snap_id.as_str(), "NeoQngJVBf2wKC48bxnF2xqmfEFGdVnx");
    assert_eq!(declaration.snap_name.as_str(), "steam");
    let again = <DeclarationAssertionPayload as Payload>::parse(&payload).unwrap();
    assert_eq!(again, declaration);
}

#[test]
fn declaration_without_fields_is_empty() {
    let payload = DeclarationAssertionPayload::from(b"type: other\nseries: 16\n".to_vec());
    let declaration = payload.parse().unwrap();
    assert_eq!(declaration.snap_id.as_str(), "");
    assert_eq!(declaration.snap_name.as_str(), "");
}

#[test]
fn declaration_field_without_colon_is_an_error() {
    let payload = DeclarationAssertionPayload::from(b"type: other\nsnap-name without colon\n".to_vec());
    assert_eq!(payload.parse().unwrap_err(), ParseError::Shape);
    let payload = DeclarationAssertionPayload::from(b"snap-id".to_vec());
    assert_eq!(payload.parse().unwrap_err(), ParseError::Shape);
}

#[test]
fn last_declaration_line_wins() {
    let payload = DeclarationAssertionPayload::from(b"snap-name: a\nsnap-name: b:c\n".to_vec());
    assert_eq!(payload.parse().unwrap().snap_name.as_str(), "b:c");
}

#[test]
fn declaration_that_is_not_text_is_malformed() {
    let payload = DeclarationAssertionPayload::from(vec![b's', 0xff, 0xfe]);
    assert_eq!(payload.parse().unwrap_err(), ParseError::Malformed);
}
