use hash_gateway::hex::lower_hex_of;
use hash_gateway::message::{HashRequest, HashResponse};
use hash_gateway::worker::{digest_hex, reply_to, respond};

#[test]
fn lower_hex_writes_two_digits_per_byte() {
    assert_eq!(lower_hex_of(&vec![0x00, 0xff, 0x1a, 0x09]), "00ff1a09");
    assert_eq!(lower_hex_of(&vec![]), "");
}

#[test]
fn digest_of_known_inputs() {
    assert_eq!(digest_hex("hello"), "2cf24dba5fb0a30e26e83b2ac5b9e29e1b161e5c1fa7425e73043362938b9824");
    assert_eq!(digest_hex(""), "e3b0c44298fc1c149afbf4c8996fb92427ae41e4649b934ca495991b7852b855");
}

#[test]
fn respond_keeps_id() {
    let request = HashRequest { id: "r".to_string(), data: "hello".to_string() };
    let response = respond(&request);
    assert_eq!(response.id, "r");
    assert_eq!(response.hash, "2cf24dba5fb0a30e26e83b2ac5b9e29e1b161e5c1fa7425e73043362938b9824");
}

#[test]
fn encoding_escapes_strings() {
    let request = HashRequest { id: "a\"b".to_string(), data: "x\ny\\".to_string() };
    assert_eq!(request.to_json(), "{\"id\":\"a\\\"b\",\"data\":\"x\\ny\\\\\"}");
    let back = HashRequest::from_json(&request.to_json()).unwrap();
    assert_eq!(back.id, "a\"b");
    assert_eq!(back.data, "x\ny\\");
}

#[test]
fn response_round_trip() {
    let response = HashResponse { id: "i".to_string(), hash: "h".to_string() };
    assert_eq!(response.to_json(), "{\"id\":\"i\",\"hash\":\"h\"}");
    let back = HashResponse::from_json(&response.to_json()).unwrap();
    assert_eq!(back.id, "i");
    assert_eq!(back.hash, "h");
}

#[test]
fn decoding_rejects_wrong_shapes() {
    assert!(HashRequest::from_json("{\"id\":\"a\"}").is_none());
    assert!(HashRequest::from_json("{\"id\":\"a\",\"data\":3}").is_none());
    assert!(HashRequest::from_json("[1,2]").is_none());
    assert!(HashResponse::from_json("").is_none());
    assert!(HashResponse::from_json("{\"id\":\"a\",\"hash\":\"h\",\"extra\":true}").is_some());
    assert!(reply_to("garbage").is_none());
}

#[test]
fn from_members_needs_both() {
    assert!(HashRequest::from_members(Some("a".to_string()), None).is_none());
    assert!(HashResponse::from_members(None, Some("h".to_string())).is_none());
    let r = HashResponse::from_members(Some("a".to_string()), Some("h".to_string())).unwrap();
    assert_eq!((r.id.as_str(), r.hash.as_str()), ("a", "h"));
}

#[test]
fn new_request_keeps_data() {
    let request = HashRequest::new("payload".to_string());
    assert_eq!(request.data, "payload");
    let id = request.id.as_bytes();
    assert_eq!((id[8], id[13], id[18], id[23]), (b'-', b'-', b'-', b'-'));
    assert!(matches!(id[19], b'8' | b'9' | b'a' | b'b'));
}

#[test]
fn encoding_escapes_control_characters() {
    let response = HashResponse { id: "\u{1}\u{1f}".to_string(), hash: "\u{8}\u{c}\r\t/".to_string() };
    assert_eq!(response.to_json(), "{\"id\":\"\\u0001\\u001f\",\"hash\":\"\\b\\f\\r\\t/\"}");
}
