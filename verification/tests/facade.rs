use tdfacade::codec::decode_reply;
use tdfacade::codec::decode_response;
use tdfacade::codec::encode_request;
use tdfacade::epoch::ResponseEpoch;
use tdfacade::lifecycle::ClientLife;
use tdfacade::ClientError;

#[test]
fn embedded_nul_rejected() {
    assert_eq!(encode_request("abc\0def"), Err(ClientError::EmbeddedNul));
    assert_eq!(encode_request("\0"), Err(ClientError::EmbeddedNul));
}

#[test]
fn request_wire_form() {
    let r = encode_request("{\"@type\":\"ping\"}").unwrap();
    let mut expected = b"{\"@type\":\"ping\"}".to_vec();
    expected.push(0);
    assert_eq!(r, expected);
}

#[test]
fn empty_request_wire_form() {
    assert_eq!(encode_request(""), Ok(vec![0u8]));
}

#[test]
fn null_reply_is_empty() {
    assert_eq!(decode_reply(None), Ok(None));
}

#[test]
fn valid_reply_decodes() {
    let s = "{\"@type\":\"optionValueString\",\"value\":\"1.0\"}";
    assert_eq!(decode_response(s.as_bytes().to_vec()), Ok(s.to_string()));
    assert_eq!(
        decode_reply(Some(s.as_bytes().to_vec())),
        Ok(Some(s.to_string()))
    );
}

#[test]
fn invalid_utf8_reply_is_error() {
    assert_eq!(
        decode_response(vec![0xff, 0xfe, 0xfd]),
        Err(ClientError::InvalidUtf8)
    );
    // An overlong encoding of '/' is not valid UTF-8 either.
    assert_eq!(
        decode_response(vec![0xc0, 0xaf]),
        Err(ClientError::InvalidUtf8)
    );
    assert_eq!(
        decode_reply(Some(vec![0x80])),
        Err(ClientError::InvalidUtf8)
    );
}

#[test]
fn wire_bytes_decode_back_to_request() {
    let request = "{\"@type\":\"ping\"}";
    let mut wire = encode_request(request).unwrap();
    assert_eq!(wire.pop(), Some(0));
    assert_eq!(decode_response(wire), Ok(request.to_string()));
}

#[test]
fn multibyte_text_round_trips() {
    let request = "héllo → 😀";
    let mut wire = encode_request(request).unwrap();
    assert_eq!(wire.pop(), Some(0));
    assert_eq!(decode_response(wire), Ok(request.to_string()));
}

#[test]
fn unified_client_destroys_once() {
    let mut life = ClientLife::new();
    assert!(life.alive);
    assert_eq!(life.destroys, 0);
    life.drop_client();
    assert!(!life.alive);
    assert_eq!(life.destroys, 1);
}

#[test]
fn split_alone_does_not_destroy() {
    let life = ClientLife::new();
    let pair = life.split();
    assert_eq!(pair.producers, 1);
    assert!(pair.consumer_alive);
    assert_eq!(pair.destroys, 0);
}

#[test]
fn split_drop_producer_then_consumer() {
    let mut pair = ClientLife::new().split();
    assert!(!pair.drop_producer());
    assert_eq!(pair.destroys, 0);
    assert!(pair.drop_consumer());
    assert_eq!(pair.destroys, 1);
}

#[test]
fn split_drop_consumer_then_producer() {
    let mut pair = ClientLife::new().split();
    assert!(!pair.drop_consumer());
    assert_eq!(pair.destroys, 0);
    assert!(pair.drop_producer());
    assert_eq!(pair.destroys, 1);
}

#[test]
fn producer_clones_share_the_handle() {
    let mut pair = ClientLife::new().split();
    pair.clone_producer();
    pair.clone_producer();
    assert_eq!(pair.producers, 3);
    assert!(!pair.drop_producer());
    assert!(!pair.drop_producer());
    assert!(!pair.drop_consumer());
    assert_eq!(pair.destroys, 0);
    assert!(pair.drop_producer());
    assert_eq!(pair.destroys, 1);
}

#[test]
fn next_call_invalidates_prior_borrow() {
    let mut epoch = ResponseEpoch::new();
    let first = epoch.advance();
    assert!(epoch.is_valid(first));
    let second = epoch.advance();
    assert!(!epoch.is_valid(first));
    assert!(epoch.is_valid(second));
}

#[test]
fn error_kinds_are_distinct() {
    assert_ne!(ClientError::EmbeddedNul, ClientError::InvalidUtf8);
    assert_ne!(ClientError::EmbeddedNul, ClientError::CreateFailed);
    assert_ne!(ClientError::InvalidUtf8, ClientError::CreateFailed);
}
