use kyrie::codec::{decode_text, decoded, encode_text, encoded};
use kyrie::errors::CacheError;

#[test]
fn text_is_encoded_as_a_short_string() {
    assert_eq!(encode_text("a").unwrap(), vec![0xa1u8, 0x61]);
    assert_eq!(encode_text("").unwrap(), vec![0xa0u8]);
    assert_eq!(
        encode_text("user").unwrap(),
        vec![0xa4u8, 0x75, 0x73, 0x65, 0x72]
    );
}

#[test]
fn long_text_gets_a_length_prefix() {
    let text = "x".repeat(40);
    let bytes = encode_text(&text).unwrap();
    assert_eq!(bytes.len(), 42);
    assert_eq!(bytes[0], 0xd9);
    assert_eq!(bytes[1], 40);
}

#[test]
fn text_round_trips() {
    for text in ["", "a", "user:42", "caf\u{e9} \u{1f600}", "line\nbreak"] {
        let bytes = encode_text(text).unwrap();
        assert_eq!(decode_text(&bytes).unwrap(), text);
    }
    let long = "k".repeat(70_000);
    let bytes = encode_text(&long).unwrap();
    assert_eq!(decode_text(&bytes).unwrap(), long);
}

#[test]
fn equal_keys_encode_to_equal_bytes() {
    let first = String::from("session:") + "7";
    let second = "session:7";
    assert_eq!(
        encode_text(&first).unwrap(),
        encode_text(second).unwrap()
    );
    assert_ne!(
        encode_text("session:7").unwrap(),
        encode_text("session:8").unwrap()
    );
}

#[test]
fn bytes_that_are_no_text_do_not_decode() {
    assert!(matches!(
        decode_text(&[0xc1]),
        Err(CacheError::Deserialization(_))
    ));
    assert!(matches!(
        decode_text(&[]),
        Err(CacheError::Deserialization(_))
    ));
    assert!(matches!(
        decode_text(&[0xa3, 0x61]),
        Err(CacheError::Deserialization(_))
    ));
    match decode_text(&[0x2a]) {
        Err(CacheError::Deserialization(message)) => {
            assert!(message.contains("expected a string"), "{}", message)
        }
        other => panic!("unexpected result: {:?}", other),
    }
}

#[test]
fn encoder_verdict_is_passed_on() {
    assert_eq!(encoded(Ok(vec![1u8, 2, 3])), Ok(vec![1u8, 2, 3]));
    let refused = rmp_serde::encode::Error::Syntax(String::from("no such shape"));
    assert_eq!(
        encoded(Err(refused)),
        Err(CacheError::Serialization(String::from("no such shape")))
    );
    let refused = rmp_serde::encode::Error::DepthLimitExceeded;
    assert_eq!(
        encoded(Err(refused)),
        Err(CacheError::Serialization(String::from("depth limit exceeded")))
    );
}

#[test]
fn decoder_verdict_is_passed_on() {
    let accepted: Result<u32, rmp_serde::decode::Error> = rmp_serde::from_slice(&[0x2a]);
    assert_eq!(decoded(accepted), Ok(42u32));
    let pair: Result<(u8, String), rmp_serde::decode::Error> =
        rmp_serde::from_slice(&[0x92, 0x07, 0xa2, 0x68, 0x69]);
    assert_eq!(decoded(pair), Ok((7u8, String::from("hi"))));
    let refused: Result<u32, rmp_serde::decode::Error> = rmp_serde::from_slice(&[0xa1, 0x61]);
    assert!(matches!(
        decoded(refused),
        Err(CacheError::Deserialization(_))
    ));
}

#[test]
fn structured_values_round_trip_through_the_verdicts() {
    let value: Vec<(String, u64)> = vec![(String::from("a"), 1), (String::from("b"), 2)];
    let bytes = encoded(rmp_serde::to_vec(&value)).unwrap();
    let back: Vec<(String, u64)> = decoded(rmp_serde::from_slice(&bytes)).unwrap();
    assert_eq!(back, value);
}
