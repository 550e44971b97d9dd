use solkit::codec::{
    decode_address, decode_secret, decode_signature, encode_address, encode_payload,
    encode_secret, encode_signature,
};
use solkit::error::{ApiError, Party, SecretDefect};
use solkit::keypair::KeyPair;
use solkit::keys::{array_32, array_64, same_bytes, Address, Signature};
use solkit::text::{blank, white_space};

const A: &str = "4wBqpZM9xaSheZzJSMawUKKwhdpChKbZ5eu5ky4Vigw";
const SECRET: &str =
    "49W385L4rePHy6PAaQUovbD2aacgN4HsKXSMeUzRg4fmwXszN91JuMFrQRj3vMDpZuRF3ZknQBuRBoWQJEfXstMw";
const PUBLIC: &str = "FVen3X669xLzsi6N2V91DoiyzHzg1uAgqiT8jZ9nS96Z";

fn counting(from: u8) -> [u8; 32] {
    let mut out = [0u8; 32];
    for (i, b) in out.iter_mut().enumerate() {
        *b = from + i as u8;
    }
    out
}

fn seed_and_public() -> [u8; 64] {
    let seed: [u8; 32] = [
        157, 97, 177, 157, 239, 253, 90, 96, 186, 132, 74, 244, 146, 236, 44, 196, 68, 73, 197,
        105, 123, 50, 105, 25, 112, 59, 172, 3, 28, 174, 127, 96,
    ];
    let public: [u8; 32] = [
        215, 90, 152, 1, 130, 177, 10, 183, 213, 75, 254, 211, 201, 100, 7, 58, 14, 225, 114,
        243, 218, 166, 35, 37, 175, 2, 26, 104, 247, 7, 81, 26,
    ];
    let mut out = [0u8; 64];
    out[..32].copy_from_slice(&seed);
    out[32..].copy_from_slice(&public);
    out
}

#[test]
fn address_text_is_base58_of_the_bytes() {
    assert_eq!(encode_address(&Address::new(counting(1))), A);
    assert_eq!(encode_address(&Address::new([0u8; 32])), "11111111111111111111111111111111");
    assert_eq!(
        encode_address(&Address::new([255u8; 32])),
        "JEKNVnkbo3jma5nREBBJCDoXFVeKkD56V3xKrvRmWxFG"
    );
}

#[test]
fn address_decodes_to_its_bytes() {
    let a = decode_address(A, Party::Mint).unwrap();
    assert_eq!(a.to_bytes(), counting(1));
    let zero = decode_address("11111111111111111111111111111111", Party::Sender).unwrap();
    assert_eq!(zero.to_bytes(), [0u8; 32]);
}

#[test]
fn address_round_trip() {
    for from in [0u8, 1, 33, 101, 200] {
        let a = Address::new(counting(from));
        let text = encode_address(&a);
        assert_eq!(decode_address(&text, Party::Owner), Ok(a));
    }
    let top = Address::new([255u8; 32]);
    assert_eq!(decode_address(&encode_address(&top), Party::Owner), Ok(top));
}

#[test]
fn address_of_wrong_length_is_refused() {
    let short = "thX6LZfHDZZKUs92febYZhYRcXddmzfzF2NvTkPNE";
    let long = "JNArUumxYJcSQpbuxuroRZtcSMVLcy5WbYGt14SRm1FN";
    assert_eq!(
        decode_address(short, Party::Mint),
        Err(ApiError::InvalidAddress(Party::Mint))
    );
    assert_eq!(
        decode_address(long, Party::Recipient),
        Err(ApiError::InvalidAddress(Party::Recipient))
    );
    assert_eq!(decode_address("", Party::Owner), Err(ApiError::InvalidAddress(Party::Owner)));
}

#[test]
fn address_outside_the_alphabet_is_refused() {
    let with_zero = "0wBqpZM9xaSheZzJSMawUKKwhdpChKbZ5eu5ky4Vigw";
    let with_l = "lwBqpZM9xaSheZzJSMawUKKwhdpChKbZ5eu5ky4Vigw";
    assert_eq!(
        decode_address(with_zero, Party::Authority),
        Err(ApiError::InvalidAddress(Party::Authority))
    );
    assert_eq!(
        decode_address(with_l, Party::Destination),
        Err(ApiError::InvalidAddress(Party::Destination))
    );
    assert_eq!(
        decode_address(" 4wBqpZM9xaSheZzJSMawUKKwhdpChKbZ5eu5ky4Vigw", Party::PublicKey),
        Err(ApiError::InvalidAddress(Party::PublicKey))
    );
}

#[test]
fn address_text_longer_than_44_bytes_is_refused() {
    let text = "1".repeat(45);
    assert_eq!(
        decode_address(&text, Party::MintAuthority),
        Err(ApiError::InvalidAddress(Party::MintAuthority))
    );
}

#[test]
fn secret_decodes_to_its_64_bytes() {
    let pair = decode_secret(SECRET).unwrap();
    assert_eq!(pair.to_bytes(), seed_and_public());
    assert_eq!(encode_address(&pair.public_key()), PUBLIC);
}

#[test]
fn secret_round_trip() {
    let pair = KeyPair::from_bytes(seed_and_public()).unwrap();
    let text = encode_secret(&pair);
    assert_eq!(text, SECRET);
    assert_eq!(decode_secret(&text).unwrap().to_bytes(), seed_and_public());
    let fresh = KeyPair::generate();
    let again = decode_secret(&encode_secret(&fresh)).unwrap();
    assert_eq!(again.to_bytes(), fresh.to_bytes());
}

#[test]
fn secret_of_wrong_length_is_malformed() {
    let short =
        "iMAznqj7GGUQaqyYasFi9CnfsfSgfMb4Hs9kqUxtSkgBYTxbF3nk8JsAPNJt4DsepDk4JPcD3vZfhShAo9H4Nc";
    assert_eq!(
        decode_secret(short).unwrap_err(),
        ApiError::InvalidSecret(SecretDefect::Malformed)
    );
    assert_eq!(
        decode_secret(PUBLIC).unwrap_err(),
        ApiError::InvalidSecret(SecretDefect::Malformed)
    );
    assert_eq!(
        decode_secret("not base58!").unwrap_err(),
        ApiError::InvalidSecret(SecretDefect::Malformed)
    );
}

#[test]
fn secret_with_a_foreign_public_key_is_inconsistent() {
    let mixed =
        "49W385L4rePHy6PAaQUovbD2aacgN4HsKXSMeUzRg4fmmAKmRtx9Zv4guQziLvixpzbwmuov52LhLMddT2YyY2gT";
    assert_eq!(
        decode_secret(mixed).unwrap_err(),
        ApiError::InvalidSecret(SecretDefect::Inconsistent)
    );
    let mut bytes = seed_and_public();
    bytes[40] ^= 1;
    assert!(KeyPair::from_bytes(bytes).is_none());
}

#[test]
fn signature_text_is_base64_of_the_bytes() {
    assert_eq!(
        encode_signature(&Signature::new([0u8; 64])),
        "AAAAAAAAAAAAAAAAAAAAAAAAAAAAAAAAAAAAAAAAAAAAAAAAAAAAAAAAAAAAAAAAAAAAAAAAAAAAAAAAAAAAAA=="
    );
}

#[test]
fn signature_round_trip() {
    let mut bytes = [0u8; 64];
    for (i, b) in bytes.iter_mut().enumerate() {
        *b = (i as u8).wrapping_mul(37).wrapping_add(11);
    }
    let s = Signature::new(bytes);
    assert_eq!(decode_signature(&encode_signature(&s)), Ok(s));
}

#[test]
fn signature_of_wrong_length_is_refused() {
    let sixty_three =
        "AAAAAAAAAAAAAAAAAAAAAAAAAAAAAAAAAAAAAAAAAAAAAAAAAAAAAAAAAAAAAAAAAAAAAAAAAAAAAAAAAAAA";
    assert_eq!(decode_signature(sixty_three), Err(ApiError::InvalidSignatureFormat));
    assert_eq!(decode_signature("AAAA"), Err(ApiError::InvalidSignatureFormat));
    assert_eq!(decode_signature(""), Err(ApiError::InvalidSignatureFormat));
}

#[test]
fn signature_outside_the_alphabet_is_refused() {
    assert_eq!(decode_signature("***"), Err(ApiError::InvalidSignatureFormat));
    let unpadded =
        "AAAAAAAAAAAAAAAAAAAAAAAAAAAAAAAAAAAAAAAAAAAAAAAAAAAAAAAAAAAAAAAAAAAAAAAAAAAAAAAAAAAAAA";
    assert_eq!(decode_signature(unpadded), Err(ApiError::InvalidSignatureFormat));
}

#[test]
fn payload_text_is_base64() {
    assert_eq!(encode_payload(&[2, 0, 0, 0, 5, 0, 0, 0, 0, 0, 0, 0]), "AgAAAAUAAAAAAAAA");
    assert_eq!(encode_payload(&[]), "");
    assert_eq!(encode_payload(&[255]), "/w==");
}

#[test]
fn arrays_are_made_of_slices_of_the_right_length_only() {
    assert_eq!(array_32(&counting(7)), Some(counting(7)));
    assert_eq!(array_32(&[1u8; 31]), None);
    assert_eq!(array_32(&[1u8; 33]), None);
    assert_eq!(array_64(&seed_and_public()), Some(seed_and_public()));
    assert_eq!(array_64(&[1u8; 63]), None);
    assert_eq!(array_64(&[]), None);
}

#[test]
fn same_bytes_compares_content() {
    assert!(same_bytes(&[1, 2, 3], &[1, 2, 3]));
    assert!(!same_bytes(&[1, 2, 3], &[1, 2, 4]));
    assert!(!same_bytes(&[1, 2, 3], &[1, 2]));
    assert!(same_bytes(&[], &[]));
    assert!(Address::new(counting(1)).same_as(&Address::new(counting(1))));
    assert!(!Address::new(counting(1)).same_as(&Address::new(counting(2))));
}

#[test]
fn blank_is_empty_or_white_space_only() {
    assert!(blank(""));
    assert!(blank(" "));
    assert!(blank(" \t\r\n"));
    assert!(blank("\u{a0}\u{2003}\u{3000}"));
    assert!(!blank("a"));
    assert!(!blank("  a  "));
    assert!(!blank("\u{200b}"));
}

#[test]
fn white_space_agrees_with_the_standard_library() {
    for n in 0u32..0x3100 {
        if let Some(c) = char::from_u32(n) {
            assert_eq!(white_space(c), c.is_whitespace(), "U+{:04X}", n);
        }
    }
    assert!(!white_space('\u{feff}'));
    assert!(!white_space('\u{10ffff}'));
}
