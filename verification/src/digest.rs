//! Digests: the identity that a blob is asked for by, and checked against.
//!
//! A digest is written `algorithm:hex`. The algorithm names a hash function and
//! the hex part is the hash of the blob's bytes, two digits for each byte.
//! Digits of either case are read; the digest keeps them in lowercase.

use crate::error::Error;
use crate::hash::{hash_of, lemma_hash_len, lemma_names, Algorithm};
use crate::hex::{
    encode_hex, hex_lower, is_hex, is_hex_digit, is_lower_hex, is_lower_hex_digit,
    lemma_hex_lower_injective, lemma_hex_lower_is_lower_hex, lower_hex, lower_hex_digit, DIGIT_0,
    DIGIT_9, LOWER_A, LOWER_F, UPPER_A, UPPER_F,
};
use vstd::prelude::*;
use vstd::slice::slice_subrange;
use vstd::string::is_ascii_spec_bytes;

verus! {

/// A digest as a mathematical value.
pub struct DigestView {
    pub algorithm: Algorithm,
    pub hex: Seq<char>,
}

impl DigestView {
    /// The hex part has the length that the algorithm fixes and is lowercase.
    pub open spec fn well_formed(self) -> bool {
        &&& self.hex.len() == 2 * self.algorithm.hash_len()
        &&& is_lower_hex(self.hex)
    }

    /// The digest written out: the algorithm's name, a colon, the hex part.
    pub open spec fn text(self) -> Seq<char> {
        self.algorithm.name_of() + seq![':'] + self.hex
    }

    /// Whether `hash` is the hash that the digest claims.
    pub open spec fn matches_hash(self, hash: Seq<u8>) -> bool {
        self.hex == hex_lower(hash)
    }

    /// Whether `data` hashes to the digest.
    pub open spec fn matches(self, data: Seq<u8>) -> bool {
        self.matches_hash(hash_of(self.algorithm, data))
    }

    /// The digest of `data` under `algorithm`.
    pub open spec fn of(algorithm: Algorithm, data: Seq<u8>) -> DigestView {
        DigestView { algorithm, hex: hex_lower(hash_of(algorithm, data)) }
    }
}

/// The ASCII code of the colon that parts the name from the hex digits.
pub const COLON: u8 = 58;

/// Whether `text` is the name of `algorithm`, a colon, and as many hexadecimal
/// digits as a hash of `algorithm` takes.
pub open spec fn has_form(text: Seq<char>, algorithm: Algorithm) -> bool {
    let n = algorithm.name_of().len() as int;
    &&& text.len() == n + 1 + 2 * algorithm.hash_len()
    &&& text.subrange(0, n) == algorithm.name_of()
    &&& text[n] == ':'
    &&& is_hex(text.subrange(n + 1, text.len() as int))
}

/// What `text` says once it is known to have the form of a digest of
/// `algorithm`.
pub open spec fn read_as(text: Seq<char>, algorithm: Algorithm) -> DigestView {
    let n = algorithm.name_of().len() as int;
    DigestView { algorithm, hex: lower_hex(text.subrange(n + 1, text.len() as int)) }
}

/// The digest that `text` denotes, if it denotes one.
pub open spec fn parse_digest(text: Seq<char>) -> Option<DigestView> {
    if has_form(text, Algorithm::Sha256) {
        Some(read_as(text, Algorithm::Sha256))
    } else if has_form(text, Algorithm::Sha512) {
        Some(read_as(text, Algorithm::Sha512))
    } else {
        None
    }
}

/// Whether the first colon of `text` is at `i`.
pub open spec fn first_colon_at(text: Seq<char>, i: int) -> bool {
    &&& 0 <= i < text.len()
    &&& text[i] == ':'
    &&& forall|j: int| 0 <= j < i ==> text[j] != ':'
}

/// The algorithm called `name`, if there is one.
pub open spec fn algorithm_named(name: Seq<char>) -> Option<Algorithm> {
    if name == Algorithm::Sha256.name_of() {
        Some(Algorithm::Sha256)
    } else if name == Algorithm::Sha512.name_of() {
        Some(Algorithm::Sha512)
    } else {
        None
    }
}

/// The digest that a name and a hex part denote together, if they denote one.
pub open spec fn digest_from_parts(name: Seq<char>, hex: Seq<char>) -> Option<DigestView> {
    match algorithm_named(name) {
        None => None,
        Some(algorithm) => if hex.len() == 2 * algorithm.hash_len() && is_hex(hex) {
            Some(DigestView { algorithm, hex: lower_hex(hex) })
        } else {
            None
        },
    }
}

/// The characters that ASCII bytes stand for.
pub open spec fn text_of(bytes: Seq<u8>) -> Seq<char> {
    Seq::new(bytes.len(), |i: int| bytes[i] as char)
}

/// A digest: a hash algorithm and the hash that a blob must have, in lowercase
/// hexadecimal digits.
#[derive(Debug, PartialEq, Eq)]
pub struct Digest {
    algorithm: Algorithm,
    hex: String,
}

impl Clone for Digest {
    fn clone(&self) -> (copy: Digest)
        ensures
            copy@ == self@,
    {
        proof {
            use_type_invariant(self);
        }
        Digest { algorithm: self.algorithm, hex: self.hex.clone() }
    }
}

impl View for Digest {
    type V = DigestView;

    closed spec fn view(&self) -> DigestView {
        DigestView { algorithm: self.algorithm, hex: self.hex@ }
    }
}

/// Whether two byte strings are the same.
fn same_bytes(a: &[u8], b: &[u8]) -> (same: bool)
    ensures
        same == (a@ == b@),
{
    if a.len() != b.len() {
        return false;
    }
    let mut i: usize = 0;
    while i < a.len()
        invariant
            a.len() == b.len(),
            i <= a.len(),
            forall|j: int| 0 <= j < i ==> a[j] == b[j],
        decreases a.len() - i,
    {
        if a[i] != b[i] {
            return false;
        }
        i += 1;
    }
    assert(a@ =~= b@);
    true
}

/// Whether `name` holds the name of `algorithm`.
fn is_name_of(name: &[u8], algorithm: Algorithm) -> (is_name: bool)
    ensures
        is_name == (text_of(name@) == algorithm.name_of()),
{
    let expected = algorithm.name();
    proof {
        lemma_names(algorithm);
        is_ascii_spec_bytes(expected);
    }
    let expected_bytes = expected.as_bytes();
    let same = same_bytes(name, expected_bytes);
    proof {
        let letters = algorithm.name_of();
        assert(forall|i: int|
            0 <= i < 6 ==> expected_bytes@[i] as char == letters[i] && expected_bytes@[i]
                == letters[i] as u8);
        if same {
            assert(text_of(name@) =~= letters);
        }
        if text_of(name@) == letters {
            assert(forall|i: int| 0 <= i < 6 ==> name@[i] == expected_bytes@[i]);
            assert(name@ =~= expected_bytes@);
        }
    }
    same
}

/// The algorithm whose name `name` holds.
fn find_algorithm(name: &[u8]) -> (found: Option<Algorithm>)
    ensures
        found == algorithm_named(text_of(name@)),
{
    if is_name_of(name, Algorithm::Sha256) {
        Some(Algorithm::Sha256)
    } else if is_name_of(name, Algorithm::Sha512) {
        Some(Algorithm::Sha512)
    } else {
        None
    }
}

/// The position of the first colon in `bytes`, or their number where there is
/// none.
fn find_colon(bytes: &[u8]) -> (i: usize)
    ensures
        i <= bytes.len(),
        i < bytes.len() ==> first_colon_at(text_of(bytes@), i as int),
        i == bytes.len() ==> !text_of(bytes@).contains(':'),
{
    let mut i: usize = 0;
    while i < bytes.len() && bytes[i] != COLON
        invariant
            i <= bytes.len(),
            forall|j: int| 0 <= j < i ==> text_of(bytes@)[j] != ':',
        decreases bytes.len() - i,
    {
        i += 1;
    }
    i
}

/// The hexadecimal digits in `digits`, in lowercase, unless one of the bytes
/// is no hexadecimal digit.
fn read_hex(digits: &[u8]) -> (text: Option<String>)
    ensures
        text is Some <==> is_hex(text_of(digits@)),
        text matches Some(t) ==> t@ == lower_hex(text_of(digits@)),
{
    let ghost given = text_of(digits@);
    let mut text = String::new();
    let mut i: usize = 0;
    while i < digits.len()
        invariant
            i <= digits.len(),
            given == text_of(digits@),
            text@.len() == i,
            forall|j: int| 0 <= j < i ==> is_hex_digit(given[j]),
            forall|j: int| 0 <= j < i ==> text@[j] == lower_hex_digit(given[j]),
        decreases digits.len() - i,
    {
        let b: u8 = digits[i];
        if (DIGIT_0 <= b && b <= DIGIT_9) || (LOWER_A <= b && b <= LOWER_F) {
            text.push(b as char);
        } else if UPPER_A <= b && b <= UPPER_F {
            text.push((b - UPPER_A + LOWER_A) as char);
        } else {
            assert(!is_hex_digit(given[i as int]));
            return None;
        }
        i += 1;
    }
    Some(text)
}

/// Reads a digest from the bytes of an ASCII string.
fn parse_ascii(bytes: &[u8]) -> (digest: Option<Digest>)
    ensures
        digest is Some <==> parse_digest(text_of(bytes@)) is Some,
        digest matches Some(d) ==> parse_digest(text_of(bytes@)) == Some(d@),
{
    let ghost text = text_of(bytes@);
    let i = find_colon(bytes);
    if i == bytes.len() {
        proof {
            lemma_parse_needs_colon(text);
        }
        return None;
    }
    let name = slice_subrange(bytes, 0, i);
    let digits = slice_subrange(bytes, i + 1, bytes.len());
    proof {
        lemma_parse_splits_at_first_colon(text, i as int);
        assert(text_of(name@) =~= text.subrange(0, i as int));
        assert(text_of(digits@) =~= text.subrange(i + 1, text.len() as int));
    }
    let algorithm = match find_algorithm(name) {
        None => {
            return None;
        },
        Some(algorithm) => algorithm,
    };
    if digits.len() != 2 * algorithm.output_len() {
        return None;
    }
    match read_hex(digits) {
        None => None,
        Some(hex) => Some(Digest { algorithm, hex }),
    }
}

impl Digest {
    /// Every digest is well formed: its hex part has the length that its
    /// algorithm fixes and is lowercase.
    #[verifier::type_invariant]
    spec fn holds_a_hash(&self) -> bool {
        self@.well_formed()
    }

    /// Reads a digest string.
    ///
    /// The string is split at its first colon. What stands before it must be
    /// the name of a supported algorithm, and what stands after it as many
    /// hexadecimal digits as a hash of that algorithm takes. Digits of either
    /// case are read; the digest holds them in lowercase. Every other string
    /// is refused with [`Error::InvalidDigestFormat`].
    pub fn parse(s: &str) -> (parsed: Result<Digest, Error>)
        ensures
            match parsed {
                Ok(digest) => parse_digest(s@) == Some(digest@) && digest@.well_formed(),
                Err(error) => parse_digest(s@) is None && error == Error::InvalidDigestFormat,
            },
    {
        if !s.is_ascii() {
            proof {
                lemma_digest_text_is_ascii(s@);
            }
            return Err(Error::InvalidDigestFormat);
        }
        let bytes = s.as_bytes();
        proof {
            is_ascii_spec_bytes(s);
            assert(text_of(bytes@) =~= s@);
            if parse_digest(s@) is Some {
                lemma_parsed_is_well_formed(s@);
            }
        }
        match parse_ascii(bytes) {
            Some(digest) => Ok(digest),
            None => Err(Error::InvalidDigestFormat),
        }
    }

    /// The digest that claims `hash` as the hash under `algorithm`, unless
    /// `hash` has another length than the hashes of `algorithm`.
    pub fn from_hash(algorithm: Algorithm, hash: &[u8]) -> (made: Result<Digest, Error>)
        ensures
            match made {
                Ok(digest) => {
                    &&& hash@.len() == algorithm.hash_len()
                    &&& digest@ == DigestView { algorithm, hex: hex_lower(hash@) }
                    &&& digest@.well_formed()
                },
                Err(error) => hash@.len() != algorithm.hash_len() && error
                    == Error::InvalidDigestFormat,
            },
    {
        if hash.len() != algorithm.output_len() {
            return Err(Error::InvalidDigestFormat);
        }
        proof {
            lemma_hex_lower_is_lower_hex(hash@);
        }
        Ok(Digest { algorithm, hex: encode_hex(hash) })
    }

    /// The digest of `data` under `algorithm`.
    pub fn compute(algorithm: Algorithm, data: &[u8]) -> (digest: Digest)
        ensures
            digest@ == DigestView::of(algorithm, data@),
            digest@.well_formed(),
            digest@.matches(data@),
    {
        let hash = algorithm.hash(data);
        proof {
            lemma_hex_lower_is_lower_hex(hash@);
        }
        Digest { algorithm, hex: encode_hex(hash.as_slice()) }
    }

    /// The algorithm that the digest names.
    pub fn algorithm(&self) -> (algorithm: Algorithm)
        ensures
            algorithm == self@.algorithm,
    {
        self.algorithm
    }

    /// The hash that the digest claims, in lowercase hexadecimal digits.
    pub fn hex(&self) -> (hex: &str)
        ensures
            hex@ == self@.hex,
            self@.well_formed(),
    {
        proof {
            use_type_invariant(self);
        }
        self.hex.as_str()
    }

    /// The digest written out as `algorithm:hex`, the form that
    /// [`Digest::parse`] reads.
    pub fn to_string(&self) -> (text: String)
        ensures
            text@ == self@.text(),
            parse_digest(text@) == Some(self@),
    {
        proof {
            use_type_invariant(self);
            lemma_text_round_trips(self@);
        }
        let mut text = String::from_str(self.algorithm.name());
        text.push(':');
        text.append(self.hex.as_str());
        text
    }

    /// Whether `hash` is the hash that the digest claims.
    pub fn matches_hash(&self, hash: &[u8]) -> (matches: bool)
        ensures
            matches == self@.matches_hash(hash@),
    {
        let hex = encode_hex(hash);
        hex == self.hex
    }

    /// Checks `bytes` against the digest: hashes them with the digest's
    /// algorithm and compares the result with the hash that the digest claims.
    /// Bytes with another hash are refused with [`Error::VerificationFailed`].
    pub fn verify(&self, bytes: &[u8]) -> (checked: Result<(), Error>)
        ensures
            match checked {
                Ok(_) => self@.matches(bytes@),
                Err(error) => !self@.matches(bytes@) && error == Error::VerificationFailed,
            },
    {
        let hash = self.algorithm.hash(bytes);
        if self.matches_hash(hash.as_slice()) {
            Ok(())
        } else {
            Err(Error::VerificationFailed)
        }
    }
}

/// Reading a digest string is splitting it at its first colon and reading the
/// two parts: the name before it, the hex digits after it.
pub proof fn lemma_parse_splits_at_first_colon(text: Seq<char>, i: int)
    requires
        first_colon_at(text, i),
    ensures
        parse_digest(text) == digest_from_parts(
            text.subrange(0, i),
            text.subrange(i + 1, text.len() as int),
        ),
{
    lemma_names(Algorithm::Sha256);
    lemma_names(Algorithm::Sha512);
    let name = text.subrange(0, i);
    assert forall|a: Algorithm| has_form(text, a) implies i == 6 by {
        lemma_names(a);
        if i < 6 {
            assert(a.name_of().contains(a.name_of()[i]));
        }
    }
    assert forall|a: Algorithm| name == a.name_of() implies i == 6 by {
        lemma_names(a);
    }
}

/// A string without a colon denotes no digest.
pub proof fn lemma_parse_needs_colon(text: Seq<char>)
    requires
        !text.contains(':'),
    ensures
        parse_digest(text) is None,
{
    assert forall|a: Algorithm| !has_form(text, a) by {
        lemma_names(a);
    }
}

/// Malformed digest strings denote no digest: one without a separator, one
/// whose name is that of no supported algorithm, one whose hex part has the
/// wrong length for the algorithm, one whose hex part holds another character
/// than a hexadecimal digit.
pub proof fn lemma_malformed_is_rejected(text: Seq<char>, i: int)
    requires
        ({
            let name = text.subrange(0, i);
            let hex = text.subrange(i + 1, text.len() as int);
            ||| !text.contains(':')
            ||| first_colon_at(text, i) && algorithm_named(name) is None
            ||| first_colon_at(text, i) && algorithm_named(name) is Some && hex.len() != 2
                * algorithm_named(name)->0.hash_len()
            ||| first_colon_at(text, i) && !is_hex(hex)
        }),
    ensures
        parse_digest(text) is None,
{
    if !text.contains(':') {
        lemma_parse_needs_colon(text);
    } else {
        lemma_parse_splits_at_first_colon(text, i);
    }
}

/// What a string denotes is a well-formed digest.
pub proof fn lemma_parsed_is_well_formed(text: Seq<char>)
    requires
        parse_digest(text) is Some,
    ensures
        parse_digest(text)->0.well_formed(),
{
    let d = parse_digest(text)->0;
    let a = d.algorithm;
    lemma_names(a);
    assert(forall|k: int| 0 <= k < d.hex.len() ==> is_lower_hex_digit(#[trigger] d.hex[k]));
}

/// A well-formed digest, written out and read again, is the same digest.
pub proof fn lemma_text_round_trips(d: DigestView)
    requires
        d.well_formed(),
    ensures
        parse_digest(d.text()) == Some(d),
{
    lemma_names(Algorithm::Sha256);
    lemma_names(Algorithm::Sha512);
    let a = d.algorithm;
    let text = d.text();
    assert(text.subrange(0, 6) =~= a.name_of());
    assert(text.subrange(7, text.len() as int) =~= d.hex);
    assert(forall|k: int| 0 <= k < d.hex.len() ==> is_hex_digit(#[trigger] d.hex[k]));
    assert(lower_hex(d.hex) =~= d.hex);
}

/// The digest of some bytes is well formed.
pub proof fn lemma_digest_of_is_well_formed(algorithm: Algorithm, data: Seq<u8>)
    ensures
        DigestView::of(algorithm, data).well_formed(),
{
    lemma_hash_len(algorithm, data);
    lemma_hex_lower_is_lower_hex(hash_of(algorithm, data));
}

/// The digest of some bytes, written out and read again, is a digest that
/// these bytes match.
pub proof fn lemma_computed_digest_verifies(algorithm: Algorithm, data: Seq<u8>)
    ensures
        parse_digest(DigestView::of(algorithm, data).text()) == Some(
            DigestView::of(algorithm, data),
        ),
        DigestView::of(algorithm, data).matches(data),
{
    lemma_digest_of_is_well_formed(algorithm, data);
    lemma_text_round_trips(DigestView::of(algorithm, data));
}

/// Bytes match the digest of other bytes only where the two have the same
/// hash: apart from a collision of the hash function, only the bytes that a
/// digest was computed from match it.
pub proof fn lemma_other_bytes_do_not_verify(algorithm: Algorithm, b1: Seq<u8>, b2: Seq<u8>)
    requires
        hash_of(algorithm, b1) != hash_of(algorithm, b2),
    ensures
        b1 != b2,
        !DigestView::of(algorithm, b2).matches(b1),
{
    if hex_lower(hash_of(algorithm, b2)) == hex_lower(hash_of(algorithm, b1)) {
        lemma_hex_lower_injective(hash_of(algorithm, b2), hash_of(algorithm, b1));
    }
}

/// A string that denotes a digest is made of ASCII characters.
pub proof fn lemma_digest_text_is_ascii(text: Seq<char>)
    ensures
        parse_digest(text) is Some ==> vstd::utf8::is_ascii_chars(text),
{
    if parse_digest(text) is Some {
        let a = parse_digest(text)->0.algorithm;
        lemma_names(a);
        let hex = text.subrange(7, text.len() as int);
        assert forall|i: int| 0 <= i < text.len() implies '\0' <= #[trigger] text[i]
            <= '\u{7f}' by {
            if i < 6 {
                assert('\0' <= a.name_of()[i] <= '\u{7f}');
            } else if i > 6 {
                assert(is_hex_digit(hex[i - 7]));
            }
        }
    }
}

} // verus!
