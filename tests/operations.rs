use solana_ix::codec::{decode_base58, encode_base58, parse_identifier, parse_signature, Identifier};
use solana_ix::instruction::{initialize_mint, mint_to, token_transfer, value_transfer, BuildError};
use solana_ix::keys::{verify, KeyError, Keypair};
use solana_ix::request::{
    create_token, generate_keypair, message_sign, message_verify, token_mint, transfer_sol,
    transfer_token, Field, RequestError,
};

const TOKEN_PROGRAM: [u8; 32] = [
    6, 221, 246, 225, 215, 101, 161, 147, 217, 203, 225, 70, 206, 235, 121, 172, 28, 180, 133,
    237, 95, 91, 55, 145, 58, 140, 245, 133, 126, 255, 0, 169,
];

fn hex(s: &str) -> Vec<u8> {
    (0..s.len() / 2).map(|i| u8::from_str_radix(&s[2 * i..2 * i + 2], 16).unwrap()).collect()
}

fn id(b: u8) -> Identifier {
    Identifier { bytes: vec![b; 32] }
}

fn id_text(b: u8) -> String {
    encode_base58(&[b; 32])
}

#[test]
fn base58_round_trip_of_identifiers() {
    for b in [0u8, 1, 7, 128, 255] {
        let mut bytes = vec![b; 32];
        bytes[5] = 42;
        let text = encode_base58(&bytes);
        assert_eq!(decode_base58(&text).unwrap(), bytes);
        assert_eq!(parse_identifier(&text).unwrap().bytes, bytes);
    }
}

#[test]
fn base58_known_values() {
    assert_eq!(encode_base58(&[0, 0, 1]), "112");
    assert_eq!(encode_base58(&[0u8; 32]), "11111111111111111111111111111111");
    assert_eq!(encode_base58(&TOKEN_PROGRAM), "TokenkegQfeZyiNwAJbNbGKPFXCWuBvf9Ss623VQ5DA");
    assert_eq!(decode_base58("2").unwrap(), vec![1]);
}

#[test]
fn base58_empty_and_invalid_text() {
    assert_eq!(decode_base58("").unwrap(), Vec::<u8>::new());
    assert!(decode_base58("not-base58!!").is_err());
    assert!(decode_base58("0OIl").is_err());
    assert!(decode_base58("héllo").is_err());
}

#[test]
fn identifier_needs_exactly_32_bytes() {
    assert!(parse_identifier(&encode_base58(&[3u8; 31])).is_none());
    assert!(parse_identifier(&encode_base58(&[3u8; 33])).is_none());
    assert!(parse_identifier("").is_none());
    assert!(parse_identifier("not-base58!!").is_none());
    assert_eq!(parse_identifier(&id_text(9)).unwrap(), id(9));
    assert!(parse_signature(&encode_base58(&[1u8; 64])).is_some());
    assert!(parse_signature(&encode_base58(&[1u8; 32])).is_none());
}

#[test]
fn keypair_from_known_seed() {
    let seed = hex("9d61b19deffd5a60ba844af492ec2cc44449c5697b326919703bac031cae7f60");
    let k = Keypair::from_secret_bytes(&seed).unwrap();
    assert_eq!(
        k.pubkey().bytes,
        hex("d75a980182b10ab7d54bfed3c964073a0ee172f3daa62325af021a68f707511a")
    );
    let sig = k.sign(b"");
    assert_eq!(
        sig.bytes,
        hex("e5564300c360ac729086e2cc806e828a84877f1eb8e5d974d873e065224901555fb8821590a33bacc61e39701cf9b46bd25bf5f0595bbe24655141438e7a100b")
    );
}

#[test]
fn keypair_bytes_of_wrong_length_are_refused() {
    for n in [0usize, 1, 31, 33, 63, 65, 128] {
        assert_eq!(
            Keypair::from_secret_bytes(&vec![5u8; n]).err(),
            Some(KeyError::InvalidKeyBytes)
        );
    }
}

#[test]
fn keypair_from_64_bytes_is_deterministic() {
    let k = Keypair::from_secret_bytes(&[11u8; 32]).unwrap();
    let bytes = k.to_bytes();
    assert_eq!(bytes.len(), 64);
    assert_eq!(&bytes[..32], &[11u8; 32]);
    let a = Keypair::from_secret_bytes(&bytes).unwrap();
    let b = Keypair::from_secret_bytes(&bytes).unwrap();
    assert_eq!(a.pubkey(), b.pubkey());
    assert_eq!(a.pubkey(), k.pubkey());
}

#[test]
fn keypair_with_mismatched_public_half_is_refused() {
    let k = Keypair::from_secret_bytes(&[11u8; 32]).unwrap();
    let mut bytes = k.to_bytes();
    bytes[40] ^= 1;
    assert_eq!(Keypair::from_secret_bytes(&bytes).err(), Some(KeyError::InvalidKeyBytes));
}

#[test]
fn sign_then_verify() {
    let k = Keypair::generate().unwrap();
    let other = Keypair::generate().unwrap();
    assert_ne!(k.pubkey(), other.pubkey());
    for m in [&b"hello"[..], &b""[..], &[0u8, 255, 3][..]] {
        let sig = k.sign(m);
        assert_eq!(sig.bytes.len(), 64);
        assert!(verify(&sig, m, &k.pubkey()));
        assert!(!verify(&sig, m, &other.pubkey()));
        assert!(!verify(&sig, b"something else", &k.pubkey()));
    }
}

#[test]
fn generated_keypair_is_well_formed() {
    let k = generate_keypair().unwrap();
    assert_eq!(k.to_bytes().len(), 64);
    let again = Keypair::from_secret_bytes(&k.to_bytes()).unwrap();
    assert_eq!(again.pubkey(), k.pubkey());
    assert_ne!(k.pubkey().bytes, vec![0u8; 32]);
}

#[test]
fn value_transfer_rejects_zero_and_accepts_one() {
    assert_eq!(value_transfer(&id(1), &id(2), 0).err(), Some(BuildError::InvalidAmount));
    let d = value_transfer(&id(1), &id(2), 1).unwrap();
    assert_eq!(d.program_id.bytes, vec![0u8; 32]);
    assert_eq!(d.accounts.len(), 2);
    assert_eq!(d.accounts[0].pubkey, id(1));
    assert!(d.accounts[0].is_signer && d.accounts[0].is_writable);
    assert_eq!(d.accounts[1].pubkey, id(2));
    assert!(!d.accounts[1].is_signer && d.accounts[1].is_writable);
    assert_eq!(d.data, vec![2, 0, 0, 0, 1, 0, 0, 0, 0, 0, 0, 0]);
}

#[test]
fn value_transfer_amount_is_little_endian() {
    let d = value_transfer(&id(1), &id(2), 0x0102030405060708).unwrap();
    assert_eq!(d.data, vec![2, 0, 0, 0, 8, 7, 6, 5, 4, 3, 2, 1]);
    let d = value_transfer(&id(1), &id(2), u64::MAX).unwrap();
    assert_eq!(d.data, vec![2, 0, 0, 0, 255, 255, 255, 255, 255, 255, 255, 255]);
}

#[test]
fn mint_init_rejects_zero_decimals_and_accepts_nine() {
    assert_eq!(initialize_mint(&id(1), &id(2), 0).err(), Some(BuildError::InvalidDecimals));
    let d = initialize_mint(&id(1), &id(2), 9).unwrap();
    assert_eq!(d.program_id.bytes, TOKEN_PROGRAM.to_vec());
    assert_eq!(d.accounts.len(), 1);
    assert_eq!(d.accounts[0].pubkey, id(1));
    assert!(d.accounts[0].is_writable && !d.accounts[0].is_signer);
    let mut data = vec![20u8, 9];
    data.extend_from_slice(&[2u8; 32]);
    data.push(1);
    data.extend_from_slice(&[2u8; 32]);
    assert_eq!(d.data, data);
}

#[test]
fn mint_to_layout() {
    assert_eq!(mint_to(&id(1), &id(2), &id(3), 0).err(), Some(BuildError::InvalidAmount));
    let d = mint_to(&id(1), &id(2), &id(3), 1000).unwrap();
    assert_eq!(d.program_id.bytes, TOKEN_PROGRAM.to_vec());
    let flags: Vec<(Identifier, bool, bool)> =
        d.accounts.iter().map(|m| (m.pubkey.clone(), m.is_signer, m.is_writable)).collect();
    assert_eq!(flags, vec![(id(1), false, true), (id(2), false, true), (id(3), true, false)]);
    assert_eq!(d.data, vec![7, 232, 3, 0, 0, 0, 0, 0, 0]);
}

#[test]
fn token_transfer_layout() {
    assert_eq!(token_transfer(&id(1), &id(2), 0).err(), Some(BuildError::InvalidAmount));
    let d = token_transfer(&id(1), &id(2), 258).unwrap();
    assert_eq!(d.program_id.bytes, TOKEN_PROGRAM.to_vec());
    let flags: Vec<(Identifier, bool, bool)> =
        d.accounts.iter().map(|m| (m.pubkey.clone(), m.is_signer, m.is_writable)).collect();
    assert_eq!(flags, vec![(id(1), false, true), (id(2), false, true), (id(1), true, false)]);
    assert_eq!(d.data, vec![3, 2, 1, 0, 0, 0, 0, 0, 0]);
}

#[test]
fn sign_and_verify_requests_end_to_end() {
    let seed = hex("9d61b19deffd5a60ba844af492ec2cc44449c5697b326919703bac031cae7f60");
    let k = Keypair::from_secret_bytes(&seed).unwrap();
    let secret = encode_base58(&k.to_bytes());
    let signed = message_sign("hello", &secret).unwrap();
    let pubkey = signed.public.to_base58();
    assert_eq!(pubkey, encode_base58(&hex("d75a980182b10ab7d54bfed3c964073a0ee172f3daa62325af021a68f707511a")));
    let sig = signed.signature.to_base58();
    assert_eq!(message_verify("hello", &sig, &pubkey), Ok(true));
    assert_eq!(message_verify("hello!", &sig, &pubkey), Ok(false));
    assert_eq!(message_verify("hello", &sig, &id_text(4)), Ok(false));
}

#[test]
fn sign_request_errors() {
    assert_eq!(message_sign("", "abc").err(), Some(RequestError::MissingField));
    assert_eq!(message_sign("hi", "").err(), Some(RequestError::MissingField));
    assert_eq!(message_sign("hi", "0OIl").err(), Some(RequestError::InvalidSecretEncoding));
    assert_eq!(
        message_sign("hi", &encode_base58(&[1u8; 10])).err(),
        Some(RequestError::InvalidKeypair)
    );
    assert!(message_sign("hi", &encode_base58(&[1u8; 32])).is_ok());
}

#[test]
fn verify_request_errors() {
    let sig = encode_base58(&[1u8; 64]);
    assert_eq!(message_verify("", &sig, &id_text(1)), Err(RequestError::MissingField));
    assert_eq!(message_verify("m", "", &id_text(1)), Err(RequestError::MissingField));
    assert_eq!(message_verify("m", &sig, ""), Err(RequestError::MissingField));
    assert_eq!(
        message_verify("m", &sig, "not-base58!!"),
        Err(RequestError::InvalidIdentifier(Field::Pubkey))
    );
    assert_eq!(
        message_verify("m", &encode_base58(&[1u8; 63]), &id_text(1)),
        Err(RequestError::InvalidSignatureEncoding)
    );
    assert_eq!(message_verify("m", &sig, &id_text(1)), Ok(false));
}

#[test]
fn malformed_identifiers_are_rejected_everywhere() {
    let bad = "not-base58!!";
    let good = id_text(1);
    assert_eq!(create_token(bad, &good, 9).err(), Some(RequestError::InvalidIdentifier(Field::MintAuthority)));
    assert_eq!(create_token(&good, bad, 9).err(), Some(RequestError::InvalidIdentifier(Field::Mint)));
    assert_eq!(token_mint(bad, &good, &good, 5).err(), Some(RequestError::InvalidIdentifier(Field::Mint)));
    assert_eq!(token_mint(&good, bad, &good, 5).err(), Some(RequestError::InvalidIdentifier(Field::Destination)));
    assert_eq!(token_mint(&good, &good, bad, 5).err(), Some(RequestError::InvalidIdentifier(Field::Authority)));
    assert_eq!(transfer_sol(bad, &good, 5).err(), Some(RequestError::InvalidIdentifier(Field::From)));
    assert_eq!(transfer_sol(&good, bad, 5).err(), Some(RequestError::InvalidIdentifier(Field::To)));
    assert_eq!(transfer_token(bad, &good, &good, 5).err(), Some(RequestError::InvalidIdentifier(Field::Owner)));
    assert_eq!(transfer_token(&good, bad, &good, 5).err(), Some(RequestError::InvalidIdentifier(Field::Destination)));
    assert_eq!(transfer_token(&good, &good, bad, 5).err(), Some(RequestError::InvalidIdentifier(Field::Mint)));
}

#[test]
fn missing_fields_and_zero_amounts() {
    let good = id_text(1);
    assert_eq!(create_token("", &good, 9).err(), Some(RequestError::MissingField));
    assert_eq!(create_token(&good, &good, 0).err(), Some(RequestError::MissingField));
    assert_eq!(token_mint(&good, "", &good, 5).err(), Some(RequestError::MissingField));
    assert_eq!(token_mint(&good, &good, &good, 0).err(), Some(RequestError::InvalidAmount));
    assert_eq!(transfer_sol(&good, "", 5).err(), Some(RequestError::MissingField));
    assert_eq!(transfer_sol(&good, &id_text(2), 0).err(), Some(RequestError::InvalidAmount));
    assert_eq!(transfer_token(&good, &good, "", 5).err(), Some(RequestError::MissingField));
    assert_eq!(transfer_token(&good, &id_text(2), &good, 0).err(), Some(RequestError::InvalidAmount));
}

#[test]
fn requests_build_descriptors() {
    let d = transfer_sol(&id_text(1), &id_text(2), 7).unwrap();
    assert_eq!(d, value_transfer(&id(1), &id(2), 7).unwrap());
    let d = create_token(&id_text(2), &id_text(1), 6).unwrap();
    assert_eq!(d, initialize_mint(&id(1), &id(2), 6).unwrap());
    let d = token_mint(&id_text(1), &id_text(2), &id_text(3), 9).unwrap();
    assert_eq!(d, mint_to(&id(1), &id(2), &id(3), 9).unwrap());
    let d = transfer_token(&id_text(1), &id_text(2), &id_text(3), 9).unwrap();
    assert_eq!(d, token_transfer(&id(1), &id(2), 9).unwrap());
    assert_eq!(d.program_id.to_base58(), "TokenkegQfeZyiNwAJbNbGKPFXCWuBvf9Ss623VQ5DA");
}

#[test]
fn keypair_from_drawn_seed() {
    let seed = hex("9d61b19deffd5a60ba844af492ec2cc44449c5697b326919703bac031cae7f60");
    let k = Keypair::from_drawn_seed(&seed).unwrap();
    assert_eq!(
        k.pubkey().bytes,
        hex("d75a980182b10ab7d54bfed3c964073a0ee172f3daa62325af021a68f707511a")
    );
    let mut exported = seed.clone();
    exported.extend_from_slice(&k.pubkey().bytes);
    assert_eq!(k.to_bytes(), exported);
}

#[test]
fn base58_empty_input_gives_empty_text() {
    assert_eq!(encode_base58(&[]), "");
    assert_eq!(encode_base58(&[0]), "1");
    assert!(!id(0).to_base58().is_empty());
}
