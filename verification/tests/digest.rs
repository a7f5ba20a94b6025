use blob_client::digest::Digest;
use blob_client::error::Error;
use blob_client::hash::Algorithm;
use blob_client::hex::encode_hex;

const EMPTY_SHA256: &str =
    "sha256:e3b0c44298fc1c149afbf4c8996fb92427ae41e4649b934ca495991b7852b855";
const ABC_SHA256: &str = "sha256:ba7816bf8f01cfea414140de5dae2223b00361a396177a9cb410ff61f20015ad";
const ABC_SHA512: &str = "sha512:ddaf35a193617abacc417349ae20413112e6fa4e89a97ea20a9eeee64b55d39a2192992a274fc1a836ba3c23a3feebbd454d4423643ce80e2a9ac94fa54ca49f";
const EMPTY_SHA512: &str = "sha512:cf83e1357eefb8bdf1542850d66d8007d620e4050b5715dc83f4a921d36ce9ce47d0d13c5d85f2b0ff8318d2877eec2f63b931bd47417a81a538327af927da3e";

#[test]
fn hex_encoding_writes_two_lowercase_digits_for_each_byte() {
    assert_eq!(encode_hex(&[0x00, 0x0f, 0xa5, 0xff, 0x9a]), "000fa5ff9a");
    assert_eq!(encode_hex(&[]), "");
}

#[test]
fn algorithms_have_their_names_and_lengths() {
    assert_eq!(Algorithm::Sha256.name(), "sha256");
    assert_eq!(Algorithm::Sha512.name(), "sha512");
    assert_eq!(Algorithm::Sha256.output_len(), 32);
    assert_eq!(Algorithm::Sha512.output_len(), 64);
}

#[test]
fn hashes_have_the_length_of_their_algorithm() {
    assert_eq!(Algorithm::Sha256.hash(b"abc").len(), 32);
    assert_eq!(Algorithm::Sha512.hash(b"abc").len(), 64);
}

#[test]
fn computes_the_known_sha256_of_abc() {
    assert_eq!(Digest::compute(Algorithm::Sha256, b"abc").to_string(), ABC_SHA256);
}

#[test]
fn computes_the_known_sha256_of_nothing() {
    assert_eq!(Digest::compute(Algorithm::Sha256, b"").to_string(), EMPTY_SHA256);
}

#[test]
fn computes_the_known_sha512_of_abc() {
    assert_eq!(Digest::compute(Algorithm::Sha512, b"abc").to_string(), ABC_SHA512);
}

#[test]
fn computes_the_known_sha512_of_nothing() {
    assert_eq!(Digest::compute(Algorithm::Sha512, b"").to_string(), EMPTY_SHA512);
}

#[test]
fn parse_reads_algorithm_and_hex() {
    let digest = Digest::parse(ABC_SHA256).unwrap();
    assert_eq!(digest.algorithm(), Algorithm::Sha256);
    assert_eq!(
        digest.hex(),
        "ba7816bf8f01cfea414140de5dae2223b00361a396177a9cb410ff61f20015ad"
    );
    let digest = Digest::parse(ABC_SHA512).unwrap();
    assert_eq!(digest.algorithm(), Algorithm::Sha512);
    assert_eq!(digest.hex().len(), 128);
}

#[test]
fn parse_turns_uppercase_digits_into_lowercase() {
    let digest = Digest::parse(
        "sha256:BA7816BF8F01CFEA414140DE5DAE2223B00361A396177A9CB410FF61F20015AD",
    )
    .unwrap();
    assert_eq!(digest.to_string(), ABC_SHA256);
    assert_eq!(digest, Digest::parse(ABC_SHA256).unwrap());
    assert_eq!(digest.verify(b"abc"), Ok(()));
}

#[test]
fn parse_reads_digits_of_mixed_case() {
    let digest = Digest::parse(
        "sha256:Ba7816bF8f01cfea414140de5dae2223b00361a396177a9cb410ff61f20015aD",
    )
    .unwrap();
    assert_eq!(digest.to_string(), ABC_SHA256);
}

#[test]
fn parse_refuses_a_string_without_separator() {
    assert_eq!(Digest::parse("sha256"), Err(Error::InvalidDigestFormat));
    assert_eq!(
        Digest::parse("ba7816bf8f01cfea414140de5dae2223b00361a396177a9cb410ff61f20015ad"),
        Err(Error::InvalidDigestFormat)
    );
    assert_eq!(
        Digest::parse("sha256ba7816bf8f01cfea414140de5dae2223b00361a396177a9cb410ff61f20015ad"),
        Err(Error::InvalidDigestFormat)
    );
}

#[test]
fn parse_refuses_the_empty_string() {
    assert_eq!(Digest::parse(""), Err(Error::InvalidDigestFormat));
}

#[test]
fn parse_refuses_a_hex_part_of_the_wrong_length() {
    assert_eq!(Digest::parse("sha256:"), Err(Error::InvalidDigestFormat));
    assert_eq!(Digest::parse("sha256:abc"), Err(Error::InvalidDigestFormat));
    // one digit short
    assert_eq!(
        Digest::parse("sha256:ba7816bf8f01cfea414140de5dae2223b00361a396177a9cb410ff61f20015a"),
        Err(Error::InvalidDigestFormat)
    );
    // one digit long
    assert_eq!(
        Digest::parse("sha256:ba7816bf8f01cfea414140de5dae2223b00361a396177a9cb410ff61f20015ad0"),
        Err(Error::InvalidDigestFormat)
    );
}

#[test]
fn parse_holds_the_hex_length_to_the_named_algorithm() {
    // 64 digits are a SHA-256 hash, not a SHA-512 one, and the other way round.
    assert_eq!(
        Digest::parse("sha512:ba7816bf8f01cfea414140de5dae2223b00361a396177a9cb410ff61f20015ad"),
        Err(Error::InvalidDigestFormat)
    );
    assert_eq!(
        Digest::parse("sha256:ddaf35a193617abacc417349ae20413112e6fa4e89a97ea20a9eeee64b55d39a2192992a274fc1a836ba3c23a3feebbd454d4423643ce80e2a9ac94fa54ca49f"),
        Err(Error::InvalidDigestFormat)
    );
}

#[test]
fn parse_refuses_other_characters_than_hex_digits() {
    assert_eq!(
        Digest::parse("sha256:ga7816bf8f01cfea414140de5dae2223b00361a396177a9cb410ff61f20015ad"),
        Err(Error::InvalidDigestFormat)
    );
    assert_eq!(
        Digest::parse("sha256:ba7816bf8f01cfea414140de5dae2223b00361a396177a9cb410ff61f20015a "),
        Err(Error::InvalidDigestFormat)
    );
    // a second colon belongs to the hex part, where it is no digit
    assert_eq!(
        Digest::parse("sha256:ba7816bf8f01cfea414140de5dae2223:00361a396177a9cb410ff61f20015ad"),
        Err(Error::InvalidDigestFormat)
    );
    // the characters next to the digits and letters that count
    for c in ['/', ':', '@', 'G', '`', 'g'] {
        let text = format!("sha256:{}a7816bf8f01cfea414140de5dae2223b00361a396177a9cb410ff61f20015ad", c);
        assert_eq!(Digest::parse(&text), Err(Error::InvalidDigestFormat));
    }
}

#[test]
fn parse_refuses_characters_outside_ascii() {
    assert_eq!(
        Digest::parse("sha256:é7816bf8f01cfea414140de5dae2223b00361a396177a9cb410ff61f20015ad"),
        Err(Error::InvalidDigestFormat)
    );
    assert_eq!(
        Digest::parse("shä256:ba7816bf8f01cfea414140de5dae2223b00361a396177a9cb410ff61f20015ad"),
        Err(Error::InvalidDigestFormat)
    );
}

#[test]
fn parse_refuses_an_unknown_algorithm() {
    assert_eq!(
        Digest::parse("md5:900150983cd24fb0d6963f7d28e17f72"),
        Err(Error::InvalidDigestFormat)
    );
    assert_eq!(
        Digest::parse("sha384:ba7816bf8f01cfea414140de5dae2223b00361a396177a9cb410ff61f20015ad"),
        Err(Error::InvalidDigestFormat)
    );
    assert_eq!(
        Digest::parse(":ba7816bf8f01cfea414140de5dae2223b00361a396177a9cb410ff61f20015ad"),
        Err(Error::InvalidDigestFormat)
    );
    // names are matched as they are written
    assert_eq!(
        Digest::parse("SHA256:ba7816bf8f01cfea414140de5dae2223b00361a396177a9cb410ff61f20015ad"),
        Err(Error::InvalidDigestFormat)
    );
    assert_eq!(
        Digest::parse(" sha256:ba7816bf8f01cfea414140de5dae2223b00361a396177a9cb410ff61f20015ad"),
        Err(Error::InvalidDigestFormat)
    );
}

#[test]
fn a_computed_digest_written_and_read_verifies_its_bytes() {
    for algorithm in [Algorithm::Sha256, Algorithm::Sha512] {
        for bytes in [&b""[..], &b"abc"[..], &b"hello blob"[..], &[0u8, 255, 7][..]] {
            let text = Digest::compute(algorithm, bytes).to_string();
            let digest = Digest::parse(&text).unwrap();
            assert_eq!(digest, Digest::compute(algorithm, bytes));
            assert_eq!(digest.verify(bytes), Ok(()));
        }
    }
}

#[test]
fn a_digest_of_other_bytes_does_not_verify() {
    for algorithm in [Algorithm::Sha256, Algorithm::Sha512] {
        let digest = Digest::compute(algorithm, b"hello blob");
        assert_eq!(digest.verify(b"hello blob"), Ok(()));
        assert_eq!(digest.verify(b"hello blob!"), Err(Error::VerificationFailed));
        assert_eq!(digest.verify(b"hello bloc"), Err(Error::VerificationFailed));
        assert_eq!(digest.verify(b""), Err(Error::VerificationFailed));
    }
}

#[test]
fn verify_goes_by_the_algorithm_that_the_digest_names() {
    let digest = Digest::parse(ABC_SHA512).unwrap();
    assert_eq!(digest.verify(b"abc"), Ok(()));
    assert_eq!(digest.verify(b"abd"), Err(Error::VerificationFailed));
}

#[test]
fn from_hash_writes_the_hash_in_hex() {
    let hash = Algorithm::Sha256.hash(b"abc");
    let digest = Digest::from_hash(Algorithm::Sha256, &hash).unwrap();
    assert_eq!(digest.to_string(), ABC_SHA256);
    let digest = Digest::from_hash(Algorithm::Sha256, &[0xab; 32]).unwrap();
    assert_eq!(digest.hex(), "ab".repeat(32));
}

#[test]
fn from_hash_refuses_a_hash_of_the_wrong_length() {
    assert_eq!(
        Digest::from_hash(Algorithm::Sha256, &[0u8; 31]),
        Err(Error::InvalidDigestFormat)
    );
    assert_eq!(
        Digest::from_hash(Algorithm::Sha256, &[0u8; 64]),
        Err(Error::InvalidDigestFormat)
    );
    assert_eq!(
        Digest::from_hash(Algorithm::Sha512, &[0u8; 32]),
        Err(Error::InvalidDigestFormat)
    );
    assert_eq!(Digest::from_hash(Algorithm::Sha512, &[]), Err(Error::InvalidDigestFormat));
}

#[test]
fn matches_hash_compares_with_the_claimed_hash() {
    let digest = Digest::parse(ABC_SHA256).unwrap();
    assert!(digest.matches_hash(&Algorithm::Sha256.hash(b"abc")));
    assert!(!digest.matches_hash(&Algorithm::Sha256.hash(b"abd")));
    assert!(!digest.matches_hash(&[]));
}

#[test]
fn a_clone_is_the_same_digest() {
    let digest = Digest::parse(ABC_SHA256).unwrap();
    assert_eq!(digest.clone(), digest);
}
