use clustercut::event::{build_files_event, build_text_event, FileMetadata};
use clustercut::wire::{decode_envelope, encode_envelope, encode_payload, CLIPBOARD_TAG};

fn str_field(s: &str) -> Vec<u8> {
    let mut out = (s.len() as u64).to_le_bytes().to_vec();
    out.extend_from_slice(s.as_bytes());
    out
}

#[test]
fn text_payload_has_exact_canonical_bytes() {
    let event = build_text_event(
        "hi".to_string(),
        "id1".to_string(),
        5,
        "host".to_string(),
        "dev".to_string(),
    );
    let mut expected = Vec::new();
    expected.extend_from_slice(&str_field("id1"));
    expected.extend_from_slice(&str_field("hi"));
    expected.push(0u8);
    expected.extend_from_slice(&5u64.to_le_bytes());
    expected.extend_from_slice(&str_field("host"));
    expected.extend_from_slice(&str_field("dev"));
    assert_eq!(encode_payload(&event), expected);
}

#[test]
fn files_payload_has_exact_canonical_bytes() {
    let event = build_files_event(
        vec![
            FileMetadata { name: "a.txt".to_string(), size: 3 },
            FileMetadata { name: "b.bin".to_string(), size: 70000 },
        ],
        "id2".to_string(),
        9,
        "host".to_string(),
        "dev".to_string(),
    );
    let mut expected = Vec::new();
    expected.extend_from_slice(&str_field("id2"));
    expected.extend_from_slice(&str_field(""));
    expected.push(1u8);
    expected.extend_from_slice(&2u64.to_le_bytes());
    expected.extend_from_slice(&str_field("a.txt"));
    expected.extend_from_slice(&3u64.to_le_bytes());
    expected.extend_from_slice(&str_field("b.bin"));
    expected.extend_from_slice(&70000u64.to_le_bytes());
    expected.extend_from_slice(&9u64.to_le_bytes());
    expected.extend_from_slice(&str_field("host"));
    expected.extend_from_slice(&str_field("dev"));
    assert_eq!(encode_payload(&event), expected);
}

#[test]
fn non_ascii_text_is_utf8_encoded() {
    let event = build_text_event(
        "héllo".to_string(),
        "i".to_string(),
        0,
        "h".to_string(),
        "d".to_string(),
    );
    let bytes = encode_payload(&event);
    // The id field is 8 + 1 bytes; the text length prefix counts UTF-8
    // bytes, not characters.
    let text_len = u64::from_le_bytes(bytes[9..17].try_into().unwrap());
    assert_eq!(text_len, "héllo".len() as u64);
    assert_eq!(text_len, 6);
}

#[test]
fn envelope_round_trip() {
    let ciphertext = vec![9u8, 8, 7, 6, 5];
    let enveloped = encode_envelope(&ciphertext);
    assert_eq!(enveloped[0], CLIPBOARD_TAG);
    assert_eq!(enveloped.len(), 9 + ciphertext.len());
    assert_eq!(decode_envelope(&enveloped), Some(ciphertext));
}

#[test]
fn envelope_of_empty_ciphertext() {
    let enveloped = encode_envelope(&Vec::new());
    assert_eq!(enveloped.len(), 9);
    assert_eq!(decode_envelope(&enveloped), Some(Vec::new()));
}

#[test]
fn malformed_envelopes_are_rejected() {
    // Too short to carry the header.
    assert_eq!(decode_envelope(&[1u8, 0, 0]), None);
    // Wrong message tag.
    let mut wrong_tag = encode_envelope(&vec![1u8, 2, 3]);
    wrong_tag[0] = 0xEE;
    assert_eq!(decode_envelope(&wrong_tag), None);
    // Length field disagrees with the body.
    let mut wrong_len = encode_envelope(&vec![1u8, 2, 3]);
    wrong_len[1] = 99;
    assert_eq!(decode_envelope(&wrong_len), None);
    // Truncated body.
    let truncated = &encode_envelope(&vec![1u8, 2, 3])[..10];
    assert_eq!(decode_envelope(truncated), None);
}
