use relayer::{
    client_identifier_for, convert_hash, parse_hash32, recv_packet, storage_value_key,
    update_client, Error,
};

#[test]
fn parse_hash32_decodes_hex_pairs() {
    let mut s = Vec::new();
    for _ in 0..4 {
        s.extend_from_slice(b"0123456789abcdef");
    }
    let parsed = parse_hash32(&s).unwrap();
    assert_eq!(parsed.len(), 32);
    let mut expected = Vec::new();
    for _ in 0..4 {
        expected.extend_from_slice(&[0x01, 0x23, 0x45, 0x67, 0x89, 0xab, 0xcd, 0xef]);
    }
    assert_eq!(parsed, expected);
    assert_eq!(parsed, hex::decode(&s).unwrap());
}

#[test]
fn parse_hash32_accepts_mixed_case() {
    let mut s = Vec::new();
    for _ in 0..4 {
        s.extend_from_slice(b"0123456789AbCdEf");
    }
    let parsed = parse_hash32(&s).unwrap();
    assert_eq!(parsed[5], 0xab);
}

#[test]
fn parse_hash32_rejects_odd_length() {
    let s = b"abc".to_vec();
    assert_eq!(parse_hash32(&s), Err(Error::Decode));
}

#[test]
fn parse_hash32_rejects_non_digits() {
    let mut s = Vec::new();
    for _ in 0..32 {
        s.extend_from_slice(b"zz");
    }
    assert_eq!(parse_hash32(&s), Err(Error::Decode));
}

#[test]
fn parse_hash32_rejects_wrong_width() {
    let s = b"0123456789abcdef0123456789abcdef".to_vec();
    assert_eq!(parse_hash32(&s), Err(Error::Decode));
}

#[test]
fn events_storage_key_matches_known_value() {
    let key = storage_value_key(&b"System".to_vec(), &b"Events".to_vec());
    let expected =
        hex::decode("26aa394eea5630e07c48ae0c9558cef780d41e5e16056765bc8461851072c9d7").unwrap();
    assert_eq!(key, expected);
}

#[test]
fn client_identifier_is_a_digest_of_the_name() {
    let appia = client_identifier_for(&b"appia".to_vec());
    let flaminia = client_identifier_for(&b"flaminia".to_vec());
    assert_eq!(appia.len(), 32);
    assert_eq!(flaminia.len(), 32);
    assert_ne!(appia, flaminia);
    assert_eq!(appia, client_identifier_for(&b"appia".to_vec()));
    assert_ne!(appia, b"appia".to_vec());
}

#[test]
fn convert_hash_copies_the_bytes() {
    let src = vec![7u8; 32];
    let dest = convert_hash(&src);
    assert_eq!(dest, src);
}

#[test]
fn update_client_call_carries_its_arguments() {
    let call = update_client(3, vec![0xAB, 0xCD]);
    assert_eq!(call.id, 3);
    assert_eq!(call.header, vec![0xAB, 0xCD]);
}

#[test]
fn recv_packet_call_carries_its_arguments() {
    let call = recv_packet(vec![0x01], vec![vec![0x02], vec![0x03]], 44);
    assert_eq!(call.packet, vec![0x01]);
    assert_eq!(call.proof, vec![vec![0x02], vec![0x03]]);
    assert_eq!(call.proof_height, 44);
}
